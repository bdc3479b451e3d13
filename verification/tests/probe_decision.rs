use wgpu_sort::probe::{best_supported_width, probe_widths};

#[test]
fn candidate_widths_ascending() {
    assert_eq!(probe_widths(), vec![1, 8, 16, 32, 64, 128]);
}

#[test]
fn probe_picks_last_of_unbroken_run() {
    assert_eq!(best_supported_width(&vec![true, true, true, true, true, true]), Some(128));
    assert_eq!(best_supported_width(&vec![true, true, true, true, true, false]), Some(64));
    assert_eq!(best_supported_width(&vec![true, true, true, false]), Some(16));
    assert_eq!(best_supported_width(&vec![true, false]), Some(1));
}

#[test]
fn probe_returns_nothing_when_first_width_fails() {
    assert_eq!(best_supported_width(&vec![false]), None);
    assert_eq!(best_supported_width(&vec![]), None);
}

#[test]
fn probe_with_short_outcome_list() {
    // the caller may stop probing early; the decision uses what it got
    assert_eq!(best_supported_width(&vec![true]), Some(1));
    assert_eq!(best_supported_width(&vec![true, true, true]), Some(16));
}
