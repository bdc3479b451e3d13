use wgpu_sort::state::{push_u32_le, SORTER_STATE_SIZE};
use wgpu_sort::SorterState;

#[test]
fn u32_little_endian_bytes() {
    let mut v: Vec<u8> = Vec::new();
    push_u32_le(&mut v, 0x0403_0201);
    assert_eq!(v, vec![0x01, 0x02, 0x03, 0x04]);

    let mut w: Vec<u8> = Vec::new();
    push_u32_le(&mut w, 0xFFFF_FFFF);
    push_u32_le(&mut w, 0);
    assert_eq!(w, vec![0xFF, 0xFF, 0xFF, 0xFF, 0, 0, 0, 0]);
}

#[test]
fn state_record_wire_format() {
    let state = SorterState { num_keys: 10, padded_size: 3840, even_pass: 0, odd_pass: 0 };
    let bytes = state.to_bytes();
    assert_eq!(bytes.len() as u64, SORTER_STATE_SIZE);
    // num_keys first: the host patches it with a raw write at offset 0
    assert_eq!(&bytes[0..4], &[10, 0, 0, 0]);
    // padded_size = 3840 = 0x0F00
    assert_eq!(&bytes[4..8], &[0x00, 0x0F, 0, 0]);
    assert_eq!(&bytes[8..16], &[0, 0, 0, 0, 0, 0, 0, 0]);
}

#[test]
fn state_record_large_values() {
    let state = SorterState {
        num_keys: 0xDEAD_BEEF,
        padded_size: 0x0102_0304,
        even_pass: 7,
        odd_pass: 9,
    };
    let bytes = state.to_bytes();
    assert_eq!(&bytes[0..4], &[0xEF, 0xBE, 0xAD, 0xDE]);
    assert_eq!(&bytes[4..8], &[0x04, 0x03, 0x02, 0x01]);
    assert_eq!(&bytes[8..12], &[7, 0, 0, 0]);
    assert_eq!(&bytes[12..16], &[9, 0, 0, 0]);
}
