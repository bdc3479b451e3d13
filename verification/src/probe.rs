//! Decision logic of the subgroup-width probe.
//!
//! The probe runs a known-good sort at each candidate width in ascending
//! order and stops at the first failure; the caller records one outcome per
//! attempted width.  The decision of which width to adopt from those outcomes
//! is made here.

use vstd::prelude::*;

verus! {

/// The candidate subgroup widths, in the ascending order the probe tries
/// them.
pub open spec fn spec_probe_widths() -> Seq<u32> {
    seq![1u32, 8u32, 16u32, 32u32, 64u32, 128u32]
}

/// Length of the unbroken run of successes at the head of `s`.
pub open spec fn spec_true_prefix_len(s: Seq<bool>) -> int
    decreases s.len(),
{
    if s.len() == 0 || !s[0] {
        0
    } else {
        1 + spec_true_prefix_len(s.drop_first())
    }
}

/// The candidate subgroup widths, in the ascending order the probe tries
/// them.
pub fn probe_widths() -> (r: Vec<u32>)
    ensures
        r@ == spec_probe_widths(),
{
    let mut v: Vec<u32> = Vec::new();
    v.push(1);
    v.push(8);
    v.push(16);
    v.push(32);
    v.push(64);
    v.push(128);
    proof {
        assert(v@ =~= spec_probe_widths());
    }
    v
}

/// A head run of `k` successes bounded by a failure (or by the end of the
/// outcomes) is exactly the unbroken run of successes.
proof fn lemma_true_prefix_len(s: Seq<bool>, k: int)
    requires
        0 <= k <= s.len(),
        forall|j: int| 0 <= j < k ==> s[j],
        k == s.len() || !s[k],
    ensures
        spec_true_prefix_len(s) == k,
    decreases k,
{
    if k == 0 {
    } else {
        assert(s[0]);
        lemma_true_prefix_len(s.drop_first(), k - 1);
    }
}

/// Picks the width to adopt from the probe outcomes: the last candidate of an
/// unbroken run of successes from the first width on, or nothing when even
/// the first width failed.  `outcomes[i]` reports the sort at width
/// `spec_probe_widths()[i]`.
pub fn best_supported_width(outcomes: &Vec<bool>) -> (r: Option<u32>)
    requires
        outcomes@.len() <= spec_probe_widths().len(),
    ensures
        r == if spec_true_prefix_len(outcomes@) == 0 {
            Option::<u32>::None
        } else {
            Option::Some(spec_probe_widths()[spec_true_prefix_len(outcomes@) - 1])
        },
{
    let widths = probe_widths();
    let mut best: Option<u32> = None;
    let mut i: usize = 0;
    while i < outcomes.len()
        invariant
            0 <= i <= outcomes@.len(),
            outcomes@.len() <= 6,
            widths@ == spec_probe_widths(),
            forall|j: int| 0 <= j < i ==> outcomes@[j],
            best == if i == 0 {
                Option::<u32>::None
            } else {
                Option::Some(spec_probe_widths()[i - 1])
            },
        decreases outcomes@.len() - i,
    {
        if !outcomes[i] {
            proof {
                lemma_true_prefix_len(outcomes@, i as int);
            }
            return best;
        }
        best = Some(widths[i]);
        i = i + 1;
    }
    proof {
        lemma_true_prefix_len(outcomes@, i as int);
    }
    best
}

/// When success at a width implies success at every narrower width — the
/// hardware-monotonicity the probe assumes — the unbroken-run rule picks the
/// largest width that succeeded at all.
pub proof fn lemma_probe_picks_largest(outcomes: Seq<bool>)
    requires
        forall|a: int, b: int| 0 <= a <= b < outcomes.len() && outcomes[b] ==> outcomes[a],
    ensures
        forall|m: int|
            spec_true_prefix_len(outcomes) <= m < outcomes.len() ==> !outcomes[m],
    decreases outcomes.len(),
{
    let k = spec_true_prefix_len(outcomes);
    assert forall|m: int| k <= m < outcomes.len() implies !outcomes[m] by {
        lemma_true_prefix_bound(outcomes);
        if outcomes[m] {
            assert(outcomes[k]);
        }
    }
}

/// The unbroken run of successes is all successes, and what bounds it (when
/// anything does) is a failure.
proof fn lemma_true_prefix_bound(s: Seq<bool>)
    ensures
        0 <= spec_true_prefix_len(s) <= s.len(),
        forall|j: int| 0 <= j < spec_true_prefix_len(s) ==> s[j],
        spec_true_prefix_len(s) == s.len() || !s[spec_true_prefix_len(s)],
    decreases s.len(),
{
    if s.len() == 0 || !s[0] {
    } else {
        lemma_true_prefix_bound(s.drop_first());
        assert forall|j: int| 0 <= j < spec_true_prefix_len(s) implies s[j] by {
            if j > 0 {
                assert(s.drop_first()[j - 1]);
            }
        }
    }
}

} // verus!
