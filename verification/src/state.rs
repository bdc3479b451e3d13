//! The sorter-state record and its 16-byte little-endian wire format.
//!
//! The record sits at the head of the state buffer (binding 0).  Its field
//! order is part of the wire format: the host overwrites `num_keys` with a raw
//! four-byte write at offset 0 before each sort, and the device resets and
//! advances the two pass counters on its own.

use vstd::prelude::*;

verus! {

/// Size in bytes of the packed [`SorterState`] record.
pub const SORTER_STATE_SIZE: u64 = 16;

/// State record shared between the host and the shaders.
pub struct SorterState {
    /// Number of leading keyvals that the next sort orders; rewritten by the
    /// host before every sort.
    pub num_keys: u32,
    /// Allocated keys-buffer length in elements, a multiple of
    /// [`crate::config::HISTO_BLOCK_KVS`].
    pub padded_size: u32,
    /// Workgroup counter of the even scatter passes; device-managed.
    pub even_pass: u32,
    /// Workgroup counter of the odd scatter passes; device-managed.
    pub odd_pass: u32,
}

/// The four little-endian bytes of `x`, least significant first.
pub open spec fn spec_u32_le(x: u32) -> Seq<u8> {
    seq![
        (x & 0xff) as u8,
        ((x >> 8) & 0xff) as u8,
        ((x >> 16) & 0xff) as u8,
        ((x >> 24) & 0xff) as u8,
    ]
}

/// The packed record: the four fields in declaration order, each little
/// endian.
pub open spec fn spec_state_bytes(s: SorterState) -> Seq<u8> {
    spec_u32_le(s.num_keys) + spec_u32_le(s.padded_size) + spec_u32_le(s.even_pass) + spec_u32_le(
        s.odd_pass,
    )
}

/// Appends the four little-endian bytes of `x` to `out`.
pub fn push_u32_le(out: &mut Vec<u8>, x: u32)
    ensures
        final(out)@ == old(out)@ + spec_u32_le(x),
{
    proof {
        assert(x & 0xff < 256 && (x >> 8) & 0xff < 256 && (x >> 16) & 0xff < 256 && (x >> 24)
            & 0xff < 256) by (bit_vector);
    }
    out.push((x & 0xff) as u8);
    out.push(((x >> 8) & 0xff) as u8);
    out.push(((x >> 16) & 0xff) as u8);
    out.push(((x >> 24) & 0xff) as u8);
    proof {
        assert(out@ =~= old(out)@ + spec_u32_le(x));
    }
}

impl SorterState {
    /// Packs the record into its 16-byte little-endian wire form.
    pub fn to_bytes(&self) -> (r: Vec<u8>)
        ensures
            r@ == spec_state_bytes(*self),
            r@.len() == SORTER_STATE_SIZE,
    {
        let mut out: Vec<u8> = Vec::new();
        push_u32_le(&mut out, self.num_keys);
        push_u32_le(&mut out, self.padded_size);
        push_u32_le(&mut out, self.even_pass);
        push_u32_le(&mut out, self.odd_pass);
        proof {
            assert(out@ =~= spec_state_bytes(*self));
        }
        out
    }
}

} // verus!
