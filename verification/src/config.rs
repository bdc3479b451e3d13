//! Process-wide sorter configuration and the sizes derived from it.
//!
//! The constants here are the single source of truth shared by the host code
//! and the shader prelude built in [`crate::shader`]: the shader never holds a
//! copy of a number that also appears here.

use vstd::prelude::*;

verus! {

/// Workgroup width of the histogram and zeroing shaders.
pub const HISTOGRAM_WG_SIZE: u32 = 256;

/// Workgroup width of the prefix-scan shader; one thread handles two bins.
pub const PREFIX_WG_SIZE: u32 = 128;

/// Workgroup width of the scatter shaders.
pub const SCATTER_WG_SIZE: u32 = 256;

/// Bits sorted per pass.
pub const RS_RADIX_LOG2: u32 = 8;

/// Histogram bins per pass.
pub const RS_RADIX_SIZE: u32 = 256;

/// Passes needed for a 32-bit keyval: one per byte.
pub const RS_KEYVAL_SIZE: u32 = 32 / RS_RADIX_LOG2;

/// Keyvals read per thread by one histogram workgroup.
pub const RS_HISTOGRAM_BLOCK_ROWS: u32 = 15;

/// Keyvals scattered per thread by one scatter workgroup.  Must equal
/// [`RS_HISTOGRAM_BLOCK_ROWS`] so that one indirect-dispatch buffer serves the
/// histogram and the scatter dispatches alike.
pub const RS_SCATTER_BLOCK_ROWS: u32 = RS_HISTOGRAM_BLOCK_ROWS;

/// Keyvals consumed by one scatter workgroup.
pub const SCATTER_BLOCK_KVS: u32 = SCATTER_WG_SIZE * RS_SCATTER_BLOCK_ROWS;

/// Keyvals consumed by one histogram workgroup.
pub const HISTO_BLOCK_KVS: u32 = HISTOGRAM_WG_SIZE * RS_HISTOGRAM_BLOCK_ROWS;

/// Bytes per key and per payload element.
pub const BYTES_PER_PAYLOAD_ELEM: u32 = 4;

/// Number of scatter passes of one sort; even, so the result lands in the
/// `a` buffers.
pub const NUM_PASSES: u32 = RS_KEYVAL_SIZE;

/// Largest key count the u32 size formulas accept without overflowing;
/// equals `1118480 * HISTO_BLOCK_KVS`.
pub const MAX_SORT_COUNT: u32 = 4294963200;

/// Number of `block`-sized blocks needed to cover `n` elements.
pub open spec fn spec_blocks_ru(n: int, block: int) -> int {
    (n + block - 1) / block
}

/// Number of scatter workgroups for `n` keyvals.
pub open spec fn spec_scatter_blocks_ru(n: int) -> int {
    spec_blocks_ru(n, SCATTER_BLOCK_KVS as int)
}

/// Number of histogram workgroups for `n` keyvals: enough blocks to cover
/// everything the scatter blocks will touch.
pub open spec fn spec_histo_blocks_ru(n: int) -> int {
    spec_blocks_ru(spec_scatter_blocks_ru(n) * SCATTER_BLOCK_KVS as int, HISTO_BLOCK_KVS as int)
}

/// Allocated keys-buffer length in elements: `n` rounded up to a multiple of
/// [`HISTO_BLOCK_KVS`].
pub open spec fn spec_keys_buffer_size(n: int) -> int {
    spec_histo_blocks_ru(n) * HISTO_BLOCK_KVS as int
}

/// Number of scatter workgroups needed to cover `n` keyvals.
pub fn scatter_blocks_ru(n: u32) -> (r: u32)
    requires
        n <= MAX_SORT_COUNT,
    ensures
        r == spec_scatter_blocks_ru(n as int),
        n <= r * SCATTER_BLOCK_KVS < n + SCATTER_BLOCK_KVS,
        r <= 1118480,
{
    (n + (SCATTER_BLOCK_KVS - 1)) / SCATTER_BLOCK_KVS
}

/// Number of histogram workgroups needed to cover `n` keyvals.
pub fn histo_blocks_ru(n: u32) -> (r: u32)
    requires
        n <= MAX_SORT_COUNT,
    ensures
        r == spec_histo_blocks_ru(n as int),
        r == spec_scatter_blocks_ru(n as int),
        r <= 1118480,
{
    proof {
        lemma_histo_blocks_eq_scatter_blocks(n as int);
    }
    let scatter_blocks = scatter_blocks_ru(n);
    (scatter_blocks * SCATTER_BLOCK_KVS + (HISTO_BLOCK_KVS - 1)) / HISTO_BLOCK_KVS
}

/// Allocated keys-buffer length in elements for `n` keyvals.
pub fn keys_buffer_size(n: u32) -> (r: u32)
    requires
        n <= MAX_SORT_COUNT,
    ensures
        r == spec_keys_buffer_size(n as int),
        n <= r < n + HISTO_BLOCK_KVS,
        r as int % HISTO_BLOCK_KVS as int == 0,
        r <= MAX_SORT_COUNT,
{
    histo_blocks_ru(n) * HISTO_BLOCK_KVS
}

/// One indirect-dispatch buffer serves both pass families: because a
/// histogram block and a scatter block consume the same number of keyvals,
/// the two workgroup counts agree for every key count.
pub proof fn lemma_histo_blocks_eq_scatter_blocks(n: int)
    requires
        n >= 0,
    ensures
        spec_histo_blocks_ru(n) == spec_scatter_blocks_ru(n),
{
    let s = spec_scatter_blocks_ru(n);
    assert(spec_blocks_ru(s * 3840, 3840) == s) by {
        assert((s * 3840 + 3839) / 3840 == s) by (nonlinear_arith);
    };
}

/// The padded keys-buffer length is a multiple of [`HISTO_BLOCK_KVS`] and
/// never smaller than the requested key count.
pub proof fn lemma_keys_buffer_size_padding(n: int)
    requires
        0 <= n <= MAX_SORT_COUNT as int,
    ensures
        spec_keys_buffer_size(n) % (HISTO_BLOCK_KVS as int) == 0,
        n <= spec_keys_buffer_size(n) < n + HISTO_BLOCK_KVS as int,
{
    lemma_histo_blocks_eq_scatter_blocks(n);
    let h = spec_histo_blocks_ru(n);
    assert(h * 3840 % 3840 == 0) by (nonlinear_arith);
    assert(n <= h * 3840 < n + 3840) by {
        assert(h == (n + 3839) / 3840);
        assert(n <= ((n + 3839) / 3840) * 3840 < n + 3840) by (nonlinear_arith);
    };
}

} // verus!
