//! The compute-shader source and its specialization prelude.
//!
//! The device code is specialized at pipeline creation by prepending a
//! prelude of `const` declarations to the WGSL text; every number in the
//! prelude comes from [`crate::config`] or from the subgroup width, so host
//! and device can never disagree on a constant.  The kernels use the prelude
//! constants directly, the workgroup sizes included.
//!
//! The kernels keep a four-bit status and a 28-bit count in each partition
//! descriptor, so one sort is limited to fewer than `2^28` keyvals on the
//! device side — far beyond what default buffer-size limits admit.

use crate::config::{
    HISTOGRAM_WG_SIZE, PREFIX_WG_SIZE, RS_HISTOGRAM_BLOCK_ROWS, RS_KEYVAL_SIZE, RS_RADIX_LOG2,
    RS_RADIX_SIZE, RS_SCATTER_BLOCK_ROWS, SCATTER_WG_SIZE,
};
use crate::decimal::{push_const_decl, spec_dec};
use vstd::prelude::*;
use vstd::string::StringExecFns;

verus! {

/// The subgroup widths a sorter can be specialized for: powers of two no
/// wider than 128 that divide the radix size.
pub open spec fn spec_valid_subgroup_width(w: u32) -> bool {
    w == 1 || w == 8 || w == 16 || w == 32 || w == 64 || w == 128
}

/// Reports whether `w` is a subgroup width the sorter can be specialized
/// for.
pub fn valid_subgroup_width(w: u32) -> (r: bool)
    ensures
        r == spec_valid_subgroup_width(w),
{
    w == 1 || w == 8 || w == 16 || w == 32 || w == 64 || w == 128
}

/// First-level sweep width of the subgroup scan plan: one lane per subgroup
/// of the radix.
pub open spec fn spec_sweep0(w: u32) -> int
    recommends
        w > 0,
{
    RS_RADIX_SIZE as int / w as int
}

/// Second-level sweep width: one lane per first-level subgroup.
pub open spec fn spec_sweep1(w: u32) -> int
    recommends
        w > 0,
{
    spec_sweep0(w) / w as int
}

/// Third-level sweep width: one lane per second-level subgroup.
pub open spec fn spec_sweep2(w: u32) -> int
    recommends
        w > 0,
{
    spec_sweep1(w) / w as int
}

/// One shared-memory arena size serves both scatter phases: the
/// keyval-staging need of `RS_RADIX_SIZE + RS_SCATTER_BLOCK_ROWS *
/// SCATTER_WG_SIZE` dwords declared as `rs_mem_dwords` covers the scan
/// need of two radix stripes plus the three sweep levels at every
/// supported width.
pub proof fn lemma_mem_dwords_covers_sweeps(w: u32)
    requires
        spec_valid_subgroup_width(w),
    ensures
        RS_RADIX_SIZE + RS_SCATTER_BLOCK_ROWS * SCATTER_WG_SIZE >= 2 * RS_RADIX_SIZE as int
            + spec_sweep0(w) + spec_sweep1(w) + spec_sweep2(w),
{
}

/// The specialization prelude for subgroup width `w`: one `const`
/// declaration per shared constant, in a fixed order.
pub open spec fn spec_prelude(w: u32) -> Seq<char>
    recommends
        w > 0,
{
    "const histogram_sg_size: u32 = "@ + spec_dec(w as int) + "u;\n"@
        + "const histogram_wg_size: u32 = "@ + spec_dec(HISTOGRAM_WG_SIZE as int) + "u;\n"@
        + "const prefix_wg_size: u32 = "@ + spec_dec(PREFIX_WG_SIZE as int) + "u;\n"@
        + "const scatter_wg_size: u32 = "@ + spec_dec(SCATTER_WG_SIZE as int) + "u;\n"@
        + "const rs_radix_log2: u32 = "@ + spec_dec(RS_RADIX_LOG2 as int) + "u;\n"@
        + "const rs_radix_size: u32 = "@ + spec_dec(RS_RADIX_SIZE as int) + "u;\n"@
        + "const rs_keyval_size: u32 = "@ + spec_dec(RS_KEYVAL_SIZE as int) + "u;\n"@
        + "const rs_histogram_block_rows: u32 = "@ + spec_dec(RS_HISTOGRAM_BLOCK_ROWS as int)
        + "u;\n"@ + "const rs_scatter_block_rows: u32 = "@ + spec_dec(
        RS_SCATTER_BLOCK_ROWS as int,
    ) + "u;\n"@ + "const rs_mem_dwords: u32 = "@ + spec_dec(
        RS_RADIX_SIZE as int + RS_SCATTER_BLOCK_ROWS as int * SCATTER_WG_SIZE as int,
    ) + "u;\n"@ + "const rs_mem_sweep_0_offset: u32 = "@ + spec_dec(0) + "u;\n"@
        + "const rs_mem_sweep_1_offset: u32 = "@ + spec_dec(spec_sweep0(w)) + "u;\n"@
        + "const rs_mem_sweep_2_offset: u32 = "@ + spec_dec(spec_sweep0(w) + spec_sweep1(w))
        + "u;\n"@
}

/// The whole shader source for subgroup width `w`: the prelude followed by
/// the kernel text.
pub open spec fn spec_shader_source(w: u32) -> Seq<char>
    recommends
        w > 0,
{
    spec_prelude(w) + spec_shader_body()
}

/// Builds the shader source for the given subgroup width.
pub fn shader_source(subgroup_size: u32) -> (r: String)
    requires
        spec_valid_subgroup_width(subgroup_size),
    ensures
        r@ == spec_shader_source(subgroup_size),
{
    let sweep0 = RS_RADIX_SIZE / subgroup_size;
    let sweep1 = sweep0 / subgroup_size;
    let mem_dwords = RS_RADIX_SIZE + RS_SCATTER_BLOCK_ROWS * SCATTER_WG_SIZE;
    let mut out = String::new();
    push_const_decl(&mut out, "const histogram_sg_size: u32 = ", subgroup_size);
    push_const_decl(&mut out, "const histogram_wg_size: u32 = ", HISTOGRAM_WG_SIZE);
    push_const_decl(&mut out, "const prefix_wg_size: u32 = ", PREFIX_WG_SIZE);
    push_const_decl(&mut out, "const scatter_wg_size: u32 = ", SCATTER_WG_SIZE);
    push_const_decl(&mut out, "const rs_radix_log2: u32 = ", RS_RADIX_LOG2);
    push_const_decl(&mut out, "const rs_radix_size: u32 = ", RS_RADIX_SIZE);
    push_const_decl(&mut out, "const rs_keyval_size: u32 = ", RS_KEYVAL_SIZE);
    push_const_decl(&mut out, "const rs_histogram_block_rows: u32 = ", RS_HISTOGRAM_BLOCK_ROWS);
    push_const_decl(&mut out, "const rs_scatter_block_rows: u32 = ", RS_SCATTER_BLOCK_ROWS);
    push_const_decl(&mut out, "const rs_mem_dwords: u32 = ", mem_dwords);
    push_const_decl(&mut out, "const rs_mem_sweep_0_offset: u32 = ", 0);
    push_const_decl(&mut out, "const rs_mem_sweep_1_offset: u32 = ", sweep0);
    push_const_decl(&mut out, "const rs_mem_sweep_2_offset: u32 = ", sweep0 + sweep1);
    out.append(shader_body());
    proof {
        assert(out@ =~= spec_shader_source(subgroup_size));
    }
    out
}

/// The kernel text behind [`shader_body`].
pub open spec fn spec_shader_body() -> Seq<char> {
    WGSL_KERNELS@
}

/// The WGSL kernel text shared by the five pipelines; it reads only
/// constants declared by the prelude.
fn shader_body() -> (r: &'static str)
    ensures
        r@ == spec_shader_body(),
{
    WGSL_KERNELS
}

/// The WGSL kernel text shared by the five pipelines.
pub const WGSL_KERNELS: &'static str = "
const histo_block_kvs: u32 = histogram_wg_size * rs_histogram_block_rows;
const scatter_block_kvs: u32 = scatter_wg_size * rs_scatter_block_rows;
const histograms_dwords: u32 = rs_keyval_size * rs_radix_size;
const status_shift: u32 = 28u;
const value_mask: u32 = 0xFFFFFFFu;
const absent: u32 = 0xFFFFFFFFu;

struct Info {
    num_keys: u32,
    padded_size: u32,
    even_pass: atomic<u32>,
    odd_pass: atomic<u32>,
}

@group(0) @binding(0) var<storage, read_write> info: Info;
@group(0) @binding(1) var<storage, read_write> work: array<atomic<u32>>;
@group(0) @binding(2) var<storage, read_write> keys_a: array<u32>;
@group(0) @binding(3) var<storage, read_write> keys_b: array<u32>;
@group(0) @binding(4) var<storage, read_write> payload_a: array<u32>;
@group(0) @binding(5) var<storage, read_write> payload_b: array<u32>;

var<workgroup> shared_hist: array<atomic<u32>, histograms_dwords>;
var<workgroup> scan_src: array<u32, rs_radix_size>;
var<workgroup> scan_dst: array<u32, rs_radix_size>;
var<workgroup> rank_counter: array<atomic<u32>, rs_radix_size>;
var<workgroup> digit_base: array<u32, rs_radix_size>;
var<workgroup> wg_broadcast: u32;

// Clears the histograms and the partition descriptors of this sort and
// resets the two scatter workgroup counters.
@compute @workgroup_size(histogram_wg_size)
fn zero_histograms(
    @builtin(workgroup_id) wid: vec3<u32>,
    @builtin(local_invocation_id) lid3: vec3<u32>,
    @builtin(num_workgroups) nwg: vec3<u32>,
) {
    let lid: u32 = lid3.x;
    if (wid.x == 0u && lid == 0u) {
        atomicStore(&info.even_pass, 0u);
        atomicStore(&info.odd_pass, 0u);
    }
    let total: u32 = (rs_keyval_size + nwg.x) * rs_radix_size;
    let stride: u32 = nwg.x * histogram_wg_size;
    var i: u32 = wid.x * histogram_wg_size + lid;
    loop {
        if (i >= total) { break; }
        atomicStore(&work[i], 0u);
        i = i + stride;
    }
}

// Accumulates the four per-pass digit histograms of one block of keyvals
// into shared memory, then flushes them to the global histograms.
@compute @workgroup_size(histogram_wg_size)
fn calculate_histogram(
    @builtin(workgroup_id) wid: vec3<u32>,
    @builtin(local_invocation_id) lid3: vec3<u32>,
) {
    let lid: u32 = lid3.x;
    var j: u32 = lid;
    loop {
        if (j >= histograms_dwords) { break; }
        atomicStore(&shared_hist[j], 0u);
        j = j + histogram_wg_size;
    }
    workgroupBarrier();
    let num_keys: u32 = info.num_keys;
    let base: u32 = wid.x * histo_block_kvs;
    var r: u32 = 0u;
    loop {
        if (r >= rs_histogram_block_rows) { break; }
        let idx: u32 = base + r * histogram_wg_size + lid;
        if (idx < num_keys) {
            let key: u32 = keys_a[idx];
            var p: u32 = 0u;
            loop {
                if (p >= rs_keyval_size) { break; }
                let digit: u32 = (key >> (p * rs_radix_log2)) & (rs_radix_size - 1u);
                atomicAdd(&shared_hist[p * rs_radix_size + digit], 1u);
                p = p + 1u;
            }
        }
        r = r + 1u;
    }
    workgroupBarrier();
    j = lid;
    loop {
        if (j >= histograms_dwords) { break; }
        let count: u32 = atomicLoad(&shared_hist[j]);
        if (count > 0u) {
            atomicAdd(&work[j], count);
        }
        j = j + histogram_wg_size;
    }
}

// One workgroup per pass: replaces the 256 histogram bins of its pass by
// their exclusive prefix sums.  Each thread handles two bins.
@compute @workgroup_size(prefix_wg_size)
fn prefix_histogram(
    @builtin(workgroup_id) wid: vec3<u32>,
    @builtin(local_invocation_id) lid3: vec3<u32>,
) {
    let lid: u32 = lid3.x;
    let base: u32 = wid.x * rs_radix_size;
    scan_src[lid] = atomicLoad(&work[base + lid]);
    scan_src[lid + prefix_wg_size] = atomicLoad(&work[base + lid + prefix_wg_size]);
    var from_src: bool = true;
    var d: u32 = 1u;
    loop {
        if (d >= rs_radix_size) { break; }
        workgroupBarrier();
        var e: u32 = 0u;
        loop {
            if (e >= 2u) { break; }
            let i: u32 = lid + e * prefix_wg_size;
            if (from_src) {
                var v: u32 = scan_src[i];
                if (i >= d) { v = v + scan_src[i - d]; }
                scan_dst[i] = v;
            } else {
                var v: u32 = scan_dst[i];
                if (i >= d) { v = v + scan_dst[i - d]; }
                scan_src[i] = v;
            }
            e = e + 1u;
        }
        from_src = !from_src;
        d = d << 1u;
    }
    workgroupBarrier();
    // eight doubling steps: the inclusive scan ended in scan_src
    var e2: u32 = 0u;
    loop {
        if (e2 >= 2u) { break; }
        let i: u32 = lid + e2 * prefix_wg_size;
        var exclusive: u32 = 0u;
        if (i > 0u) { exclusive = scan_src[i - 1u]; }
        atomicStore(&work[base + i], exclusive);
        e2 = e2 + 1u;
    }
}

// Even scatter pass: moves each keyval of keys_a and payload_a to its
// digit-sorted position in keys_b and payload_b.  Blocks cooperate through
// the decoupled look-back descriptors in the work buffer.
@compute @workgroup_size(scatter_wg_size)
fn scatter_even(
    @builtin(local_invocation_id) lid3: vec3<u32>,
    @builtin(num_workgroups) nwg: vec3<u32>,
) {
    let lid: u32 = lid3.x;
    if (lid == 0u) {
        wg_broadcast = atomicAdd(&info.even_pass, 1u);
    }
    workgroupBarrier();
    let ticket: u32 = wg_broadcast;
    let blocks: u32 = nwg.x;
    let block: u32 = ticket % blocks;
    let pass_index: u32 = 2u * ((ticket / blocks) & 1u);
    let shift: u32 = pass_index * rs_radix_log2;
    let num_keys: u32 = info.num_keys;
    let base_idx: u32 = block * scatter_block_kvs;

    atomicStore(&rank_counter[lid], 0u);
    workgroupBarrier();

    var my_keys: array<u32, rs_scatter_block_rows>;
    var my_digits: array<u32, rs_scatter_block_rows>;
    var r: u32 = 0u;
    loop {
        if (r >= rs_scatter_block_rows) { break; }
        let idx: u32 = base_idx + lid * rs_scatter_block_rows + r;
        if (idx < num_keys) {
            let key: u32 = keys_a[idx];
            my_keys[r] = key;
            let digit: u32 = (key >> shift) & (rs_radix_size - 1u);
            my_digits[r] = digit;
            atomicAdd(&rank_counter[digit], 1u);
        } else {
            my_digits[r] = absent;
        }
        r = r + 1u;
    }
    workgroupBarrier();

    // from here on this thread owns digit lid
    let my_digit_count: u32 = atomicLoad(&rank_counter[lid]);
    let agg_status: u32 = 2u * pass_index + 1u;
    let pre_status: u32 = agg_status + 1u;
    let stripe_base: u32 = histograms_dwords + block * rs_radix_size;
    if (block + 1u < blocks) {
        atomicStore(&work[stripe_base + lid],
            (agg_status << status_shift) | (my_digit_count & value_mask));
    }

    // look back over earlier blocks for this digit's exclusive count
    var exclusive: u32 = 0u;
    if (block > 0u) {
        var jb: u32 = block;
        loop {
            var descriptor: u32 = 0u;
            loop {
                descriptor = atomicLoad(&work[histograms_dwords + (jb - 1u) * rs_radix_size + lid]);
                let status: u32 = descriptor >> status_shift;
                if (status == agg_status || status == pre_status) { break; }
            }
            exclusive = exclusive + (descriptor & value_mask);
            if ((descriptor >> status_shift) == pre_status) { break; }
            if (jb == 1u) { break; }
            jb = jb - 1u;
        }
    }
    if (block + 1u < blocks) {
        atomicStore(&work[stripe_base + lid],
            (pre_status << status_shift) | ((exclusive + my_digit_count) & value_mask));
    }
    digit_base[lid] = atomicLoad(&work[pass_index * rs_radix_size + lid]) + exclusive;

    // stable ranks: threads claim destination slots in element order
    atomicStore(&rank_counter[lid], 0u);
    workgroupBarrier();
    var my_ranks: array<u32, rs_scatter_block_rows>;
    var t: u32 = 0u;
    loop {
        if (t >= scatter_wg_size) { break; }
        if (lid == t) {
            var rr: u32 = 0u;
            loop {
                if (rr >= rs_scatter_block_rows) { break; }
                let digit: u32 = my_digits[rr];
                if (digit != absent) {
                    let claimed: u32 = atomicLoad(&rank_counter[digit]);
                    my_ranks[rr] = claimed;
                    atomicStore(&rank_counter[digit], claimed + 1u);
                }
                rr = rr + 1u;
            }
        }
        workgroupBarrier();
        t = t + 1u;
    }

    var r2: u32 = 0u;
    loop {
        if (r2 >= rs_scatter_block_rows) { break; }
        let digit: u32 = my_digits[r2];
        if (digit != absent) {
            let dst: u32 = digit_base[digit] + my_ranks[r2];
            keys_b[dst] = my_keys[r2];
            payload_b[dst] = payload_a[base_idx + lid * rs_scatter_block_rows + r2];
        }
        r2 = r2 + 1u;
    }
}

// Odd scatter pass: as scatter_even with source and destination families
// swapped, so the keyvals ping-pong back into keys_a and payload_a.
@compute @workgroup_size(scatter_wg_size)
fn scatter_odd(
    @builtin(local_invocation_id) lid3: vec3<u32>,
    @builtin(num_workgroups) nwg: vec3<u32>,
) {
    let lid: u32 = lid3.x;
    if (lid == 0u) {
        wg_broadcast = atomicAdd(&info.odd_pass, 1u);
    }
    workgroupBarrier();
    let ticket: u32 = wg_broadcast;
    let blocks: u32 = nwg.x;
    let block: u32 = ticket % blocks;
    let pass_index: u32 = 2u * ((ticket / blocks) & 1u) + 1u;
    let shift: u32 = pass_index * rs_radix_log2;
    let num_keys: u32 = info.num_keys;
    let base_idx: u32 = block * scatter_block_kvs;

    atomicStore(&rank_counter[lid], 0u);
    workgroupBarrier();

    var my_keys: array<u32, rs_scatter_block_rows>;
    var my_digits: array<u32, rs_scatter_block_rows>;
    var r: u32 = 0u;
    loop {
        if (r >= rs_scatter_block_rows) { break; }
        let idx: u32 = base_idx + lid * rs_scatter_block_rows + r;
        if (idx < num_keys) {
            let key: u32 = keys_b[idx];
            my_keys[r] = key;
            let digit: u32 = (key >> shift) & (rs_radix_size - 1u);
            my_digits[r] = digit;
            atomicAdd(&rank_counter[digit], 1u);
        } else {
            my_digits[r] = absent;
        }
        r = r + 1u;
    }
    workgroupBarrier();

    // from here on this thread owns digit lid
    let my_digit_count: u32 = atomicLoad(&rank_counter[lid]);
    let agg_status: u32 = 2u * pass_index + 1u;
    let pre_status: u32 = agg_status + 1u;
    let stripe_base: u32 = histograms_dwords + block * rs_radix_size;
    if (block + 1u < blocks) {
        atomicStore(&work[stripe_base + lid],
            (agg_status << status_shift) | (my_digit_count & value_mask));
    }

    // look back over earlier blocks for this digit's exclusive count
    var exclusive: u32 = 0u;
    if (block > 0u) {
        var jb: u32 = block;
        loop {
            var descriptor: u32 = 0u;
            loop {
                descriptor = atomicLoad(&work[histograms_dwords + (jb - 1u) * rs_radix_size + lid]);
                let status: u32 = descriptor >> status_shift;
                if (status == agg_status || status == pre_status) { break; }
            }
            exclusive = exclusive + (descriptor & value_mask);
            if ((descriptor >> status_shift) == pre_status) { break; }
            if (jb == 1u) { break; }
            jb = jb - 1u;
        }
    }
    if (block + 1u < blocks) {
        atomicStore(&work[stripe_base + lid],
            (pre_status << status_shift) | ((exclusive + my_digit_count) & value_mask));
    }
    digit_base[lid] = atomicLoad(&work[pass_index * rs_radix_size + lid]) + exclusive;

    // stable ranks: threads claim destination slots in element order
    atomicStore(&rank_counter[lid], 0u);
    workgroupBarrier();
    var my_ranks: array<u32, rs_scatter_block_rows>;
    var t: u32 = 0u;
    loop {
        if (t >= scatter_wg_size) { break; }
        if (lid == t) {
            var rr: u32 = 0u;
            loop {
                if (rr >= rs_scatter_block_rows) { break; }
                let digit: u32 = my_digits[rr];
                if (digit != absent) {
                    let claimed: u32 = atomicLoad(&rank_counter[digit]);
                    my_ranks[rr] = claimed;
                    atomicStore(&rank_counter[digit], claimed + 1u);
                }
                rr = rr + 1u;
            }
        }
        workgroupBarrier();
        t = t + 1u;
    }

    var r2: u32 = 0u;
    loop {
        if (r2 >= rs_scatter_block_rows) { break; }
        let digit: u32 = my_digits[r2];
        if (digit != absent) {
            let dst: u32 = digit_base[digit] + my_ranks[r2];
            keys_a[dst] = my_keys[r2];
            payload_a[dst] = payload_b[base_idx + lid * rs_scatter_block_rows + r2];
        }
        r2 = r2 + 1u;
    }
}
";

} // verus!
