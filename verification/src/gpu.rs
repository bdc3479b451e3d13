//! Trusted boundary to the `wgpu` graphics API.
//!
//! Everything the library knows about device objects is stated here: the
//! opaque type declarations, names for otherwise invisible creation-fixed
//! attributes of those objects, and one wrapper per API operation the sorter
//! performs.  The wrapper contracts say no more than the `wgpu` sources
//! show.

use vstd::prelude::*;
use wgpu::util::DeviceExt;

verus! {

#[verifier::external_type_specification]
#[verifier::external_body]
pub struct ExDevice(wgpu::Device);

#[verifier::external_type_specification]
#[verifier::external_body]
pub struct ExQueue(wgpu::Queue);

#[verifier::external_type_specification]
#[verifier::external_body]
pub struct ExCommandEncoder(wgpu::CommandEncoder);

#[verifier::external_type_specification]
#[verifier::external_body]
pub struct ExBuffer(wgpu::Buffer);

#[verifier::external_type_specification]
#[verifier::external_body]
pub struct ExBindGroup(wgpu::BindGroup);

#[verifier::external_type_specification]
#[verifier::external_body]
pub struct ExBindGroupLayout(wgpu::BindGroupLayout);

#[verifier::external_type_specification]
#[verifier::external_body]
pub struct ExBindGroupLayoutEntry(wgpu::BindGroupLayoutEntry);

#[verifier::external_type_specification]
#[verifier::external_body]
pub struct ExPipelineLayout(wgpu::PipelineLayout);

#[verifier::external_type_specification]
#[verifier::external_body]
pub struct ExShaderModule(wgpu::ShaderModule);

#[verifier::external_type_specification]
#[verifier::external_body]
pub struct ExComputePipeline(wgpu::ComputePipeline);

/// Allocation size in bytes of a buffer, fixed at creation;
/// `wgpu::Buffer::size` returns it.
pub uninterp spec fn buffer_len_bytes(b: wgpu::Buffer) -> u64;

/// Whether a buffer was created with the STORAGE usage.
pub uninterp spec fn buffer_usage_storage(b: wgpu::Buffer) -> bool;

/// Whether a buffer was created with the COPY_SRC usage, so the host can
/// read it back.
pub uninterp spec fn buffer_usage_copy_src(b: wgpu::Buffer) -> bool;

/// Whether a buffer was created with the COPY_DST usage, so the host can
/// write into it.
pub uninterp spec fn buffer_usage_copy_dst(b: wgpu::Buffer) -> bool;

/// The bytes a buffer was created holding; meaningful for buffers made
/// from initial contents, before any device work touches them.
pub uninterp spec fn initial_contents_of(b: wgpu::Buffer) -> Seq<u8>;

/// The binding slot a layout entry declares.
pub uninterp spec fn entry_binding_of(e: wgpu::BindGroupLayoutEntry) -> u32;

/// The minimum binding size a layout entry demands, when it demands one.
pub uninterp spec fn entry_min_size_of(e: wgpu::BindGroupLayoutEntry) -> Option<u64>;

/// Whether a layout entry declares a read-write storage buffer visible to
/// compute shaders.
pub uninterp spec fn entry_rw_storage_of(e: wgpu::BindGroupLayoutEntry) -> bool;

/// The entries a bind-group layout was created from, in order.
pub uninterp spec fn layout_entries_of(l: wgpu::BindGroupLayout) -> Seq<wgpu::BindGroupLayoutEntry>;

/// The WGSL text a shader module was compiled from.
pub uninterp spec fn module_source_of(m: wgpu::ShaderModule) -> Seq<char>;

/// The entry point a compute pipeline was created with.
pub uninterp spec fn entry_point_of(p: wgpu::ComputePipeline) -> Seq<char>;

/// The WGSL text of the module a compute pipeline was created from.
pub uninterp spec fn pipeline_source_of(p: wgpu::ComputePipeline) -> Seq<char>;

/// The whole buffer bound at a slot of a bind group.
pub uninterp spec fn bound_buffer_at(g: wgpu::BindGroup, slot: int) -> wgpu::Buffer;

/// The compute dispatches recorded into an encoder, in order: the entry
/// point of the pipeline dispatched, its x-axis workgroup count (or nothing
/// when the count comes from an indirect-args buffer at execution time),
/// the bind group bound at index 0, and the indirect-args buffer and offset
/// of an indirect dispatch.
pub uninterp spec fn dispatches_of(e: wgpu::CommandEncoder) -> Seq<
    (Seq<char>, Option<u32>, wgpu::BindGroup, Option<(wgpu::Buffer, u64)>),
>;

/// Relies on `wgpu::Device::create_buffer`: returns a storage-only buffer
/// whose `size` equals the requested size.
#[verifier::external_body]
pub(crate) fn create_storage_buffer(device: &wgpu::Device, label: &str, size: u64) -> (r:
    wgpu::Buffer)
    ensures
        buffer_len_bytes(r) == size,
        buffer_usage_storage(r),
        !buffer_usage_copy_src(r),
        !buffer_usage_copy_dst(r),
{
    device.create_buffer(&wgpu::BufferDescriptor {
        label: Some(label),
        size,
        usage: wgpu::BufferUsages::STORAGE,
        mapped_at_creation: false,
    })
}

/// Relies on `wgpu::Device::create_buffer`: as [`create_storage_buffer`],
/// additionally usable as a copy source and destination so the host can
/// upload and read back.
#[verifier::external_body]
pub(crate) fn create_storage_copy_buffer(device: &wgpu::Device, label: &str, size: u64) -> (r:
    wgpu::Buffer)
    ensures
        buffer_len_bytes(r) == size,
        buffer_usage_storage(r),
        buffer_usage_copy_src(r),
        buffer_usage_copy_dst(r),
{
    device.create_buffer(&wgpu::BufferDescriptor {
        label: Some(label),
        size,
        usage: wgpu::BufferUsages::STORAGE | wgpu::BufferUsages::COPY_DST
            | wgpu::BufferUsages::COPY_SRC,
        mapped_at_creation: false,
    })
}

/// Relies on `wgpu::util::DeviceExt::create_buffer_init`: the buffer is
/// created holding the given bytes, writable by the host, and its size
/// equals their number because that number is a positive multiple of the
/// copy alignment of 4.
#[verifier::external_body]
pub(crate) fn create_storage_buffer_init(device: &wgpu::Device, label: &str, contents: &Vec<
    u8,
>) -> (r: wgpu::Buffer)
    requires
        contents@.len() % 4 == 0,
        contents@.len() > 0,
    ensures
        buffer_len_bytes(r) == contents@.len(),
        initial_contents_of(r) == contents@,
        buffer_usage_storage(r),
        !buffer_usage_copy_src(r),
        buffer_usage_copy_dst(r),
{
    device.create_buffer_init(&wgpu::util::BufferInitDescriptor {
        label: Some(label),
        contents: contents.as_slice(),
        usage: wgpu::BufferUsages::STORAGE | wgpu::BufferUsages::COPY_DST,
    })
}

/// Relies on `wgpu::BindGroupLayoutEntry`: one read-write storage-buffer
/// entry for the compute stage at the given binding slot, with no minimum
/// binding size.
#[verifier::external_body]
pub(crate) fn storage_layout_entry(binding: u32) -> (r: wgpu::BindGroupLayoutEntry)
    ensures
        entry_binding_of(r) == binding,
        entry_min_size_of(r) == Option::<u64>::None,
        entry_rw_storage_of(r),
{
    wgpu::BindGroupLayoutEntry {
        binding,
        visibility: wgpu::ShaderStages::COMPUTE,
        ty: wgpu::BindingType::Buffer {
            ty: wgpu::BufferBindingType::Storage { read_only: false },
            has_dynamic_offset: false,
            min_binding_size: None,
        },
        count: None,
    }
}

/// Relies on `wgpu::BindGroupLayoutEntry`: as [`storage_layout_entry`],
/// with the given minimum binding size (`NonZeroU64::new(..).unwrap()`
/// needs it positive).
#[verifier::external_body]
pub(crate) fn storage_layout_entry_min_size(binding: u32, min_size: u64) -> (r:
    wgpu::BindGroupLayoutEntry)
    requires
        min_size > 0,
    ensures
        entry_binding_of(r) == binding,
        entry_min_size_of(r) == Option::Some(min_size),
        entry_rw_storage_of(r),
{
    wgpu::BindGroupLayoutEntry {
        binding,
        visibility: wgpu::ShaderStages::COMPUTE,
        ty: wgpu::BindingType::Buffer {
            ty: wgpu::BufferBindingType::Storage { read_only: false },
            has_dynamic_offset: false,
            min_binding_size: Some(std::num::NonZeroU64::new(min_size).unwrap()),
        },
        count: None,
    }
}

/// Relies on `wgpu::Device::create_bind_group_layout` over the given
/// entries, kept in order.  Two entries naming the same binding slot fail
/// wgpu's validation, which aborts by default, so they are excluded.
#[verifier::external_body]
pub(crate) fn create_bind_group_layout(
    device: &wgpu::Device,
    label: &str,
    entries: &Vec<wgpu::BindGroupLayoutEntry>,
) -> (r: wgpu::BindGroupLayout)
    requires
        forall|i: int, j: int|
            0 <= i < j < entries@.len() ==> entry_binding_of(#[trigger] entries@[i])
                != entry_binding_of(#[trigger] entries@[j]),
    ensures
        layout_entries_of(r) == entries@,
{
    device.create_bind_group_layout(&wgpu::BindGroupLayoutDescriptor {
        label: Some(label),
        entries: entries.as_slice(),
    })
}

/// Relies on `wgpu::Device::create_pipeline_layout` over the one bind-group
/// layout and no push constants.
#[verifier::external_body]
pub(crate) fn create_pipeline_layout(
    device: &wgpu::Device,
    label: &str,
    layout: &wgpu::BindGroupLayout,
) -> wgpu::PipelineLayout {
    device.create_pipeline_layout(&wgpu::PipelineLayoutDescriptor {
        label: Some(label),
        bind_group_layouts: &[layout],
        push_constant_ranges: &[],
    })
}

/// Relies on `wgpu::Device::create_shader_module` with WGSL source text.
#[verifier::external_body]
pub(crate) fn create_shader_module(device: &wgpu::Device, label: &str, source: &str) -> (r:
    wgpu::ShaderModule)
    ensures
        module_source_of(r) == source@,
{
    device.create_shader_module(wgpu::ShaderModuleDescriptor {
        label: Some(label),
        source: wgpu::ShaderSource::Wgsl(source.into()),
    })
}

/// Relies on `wgpu::Device::create_compute_pipeline`: the pipeline runs the
/// named entry point of the given module.
#[verifier::external_body]
pub(crate) fn create_compute_pipeline(
    device: &wgpu::Device,
    label: &str,
    layout: &wgpu::PipelineLayout,
    module: &wgpu::ShaderModule,
    entry: &str,
) -> (r: wgpu::ComputePipeline)
    ensures
        entry_point_of(r) == entry@,
        pipeline_source_of(r) == module_source_of(*module),
{
    device.create_compute_pipeline(&wgpu::ComputePipelineDescriptor {
        label: Some(label),
        layout: Some(layout),
        module,
        entry_point: entry,
    })
}

/// Relies on `wgpu::Device::create_bind_group` and `wgpu::BindGroupEntry`:
/// binds the six whole buffers at slots 0 to 5 in argument order.  wgpu's
/// validation aborts by default on a layout that does not declare exactly
/// the six slots, a bound buffer without the STORAGE usage or with no
/// bytes, or one smaller than its slot's declared minimum, so those are
/// excluded.
#[verifier::external_body]
pub(crate) fn create_bind_group_six(
    device: &wgpu::Device,
    label: &str,
    layout: &wgpu::BindGroupLayout,
    b0: &wgpu::Buffer,
    b1: &wgpu::Buffer,
    b2: &wgpu::Buffer,
    b3: &wgpu::Buffer,
    b4: &wgpu::Buffer,
    b5: &wgpu::Buffer,
) -> (r: wgpu::BindGroup)
    requires
        layout_entries_of(*layout).len() == 6,
        forall|i: int|
            0 <= i < 6 ==> entry_binding_of(#[trigger] layout_entries_of(*layout)[i]) == i
                && entry_rw_storage_of(layout_entries_of(*layout)[i]),
        buffer_usage_storage(*b0) && buffer_len_bytes(*b0) > 0,
        buffer_usage_storage(*b1) && buffer_len_bytes(*b1) > 0,
        buffer_usage_storage(*b2) && buffer_len_bytes(*b2) > 0,
        buffer_usage_storage(*b3) && buffer_len_bytes(*b3) > 0,
        buffer_usage_storage(*b4) && buffer_len_bytes(*b4) > 0,
        buffer_usage_storage(*b5) && buffer_len_bytes(*b5) > 0,
        entry_min_size_of(layout_entries_of(*layout)[0]) matches Option::Some(m)
            ==> buffer_len_bytes(*b0) >= m,
        entry_min_size_of(layout_entries_of(*layout)[1]) matches Option::Some(m)
            ==> buffer_len_bytes(*b1) >= m,
        entry_min_size_of(layout_entries_of(*layout)[2]) matches Option::Some(m)
            ==> buffer_len_bytes(*b2) >= m,
        entry_min_size_of(layout_entries_of(*layout)[3]) matches Option::Some(m)
            ==> buffer_len_bytes(*b3) >= m,
        entry_min_size_of(layout_entries_of(*layout)[4]) matches Option::Some(m)
            ==> buffer_len_bytes(*b4) >= m,
        entry_min_size_of(layout_entries_of(*layout)[5]) matches Option::Some(m)
            ==> buffer_len_bytes(*b5) >= m,
    ensures
        bound_buffer_at(r, 0) == *b0,
        bound_buffer_at(r, 1) == *b1,
        bound_buffer_at(r, 2) == *b2,
        bound_buffer_at(r, 3) == *b3,
        bound_buffer_at(r, 4) == *b4,
        bound_buffer_at(r, 5) == *b5,
{
    let entries = [
        wgpu::BindGroupEntry { binding: 0, resource: b0.as_entire_binding() },
        wgpu::BindGroupEntry { binding: 1, resource: b1.as_entire_binding() },
        wgpu::BindGroupEntry { binding: 2, resource: b2.as_entire_binding() },
        wgpu::BindGroupEntry { binding: 3, resource: b3.as_entire_binding() },
        wgpu::BindGroupEntry { binding: 4, resource: b4.as_entire_binding() },
        wgpu::BindGroupEntry { binding: 5, resource: b5.as_entire_binding() },
    ];
    device.create_bind_group(&wgpu::BindGroupDescriptor {
        label: Some(label),
        layout,
        entries: &entries,
    })
}

/// Relies on `wgpu::Queue::write_buffer`: schedules `data` to be written
/// into `buffer` at `offset` before the next submission on the queue; the
/// COPY_DST usage, the offset and size alignments and the bounds are what
/// its validation asks, aborting by default when violated.  The queue is
/// reached through a shared reference, so the write itself cannot be
/// stated here.
#[verifier::external_body]
pub(crate) fn queue_write_buffer(
    queue: &wgpu::Queue,
    buffer: &wgpu::Buffer,
    offset: u64,
    data: &Vec<u8>,
)
    requires
        buffer_usage_copy_dst(*buffer),
        offset % 4 == 0,
        data@.len() % 4 == 0,
        offset + data@.len() <= buffer_len_bytes(*buffer),
{
    queue.write_buffer(buffer, offset, data.as_slice());
}

/// Relies on `wgpu::CommandEncoder::begin_compute_pass` and
/// `wgpu::ComputePass::{set_pipeline, set_bind_group, dispatch_workgroups}`:
/// records one compute pass that binds `bind_group` at index 0, selects
/// `pipeline`, and dispatches `x` workgroups on the x axis.
#[verifier::external_body]
pub(crate) fn record_pass(
    encoder: &mut wgpu::CommandEncoder,
    label: &str,
    pipeline: &wgpu::ComputePipeline,
    bind_group: &wgpu::BindGroup,
    x: u32,
)
    ensures
        dispatches_of(*final(encoder)) == dispatches_of(*old(encoder)).push(
            (
                entry_point_of(*pipeline),
                Some(x),
                *bind_group,
                Option::<(wgpu::Buffer, u64)>::None,
            ),
        ),
{
    let mut pass = encoder.begin_compute_pass(&wgpu::ComputePassDescriptor {
        label: Some(label),
        timestamp_writes: None,
    });
    pass.set_pipeline(pipeline);
    pass.set_bind_group(0, bind_group, &[]);
    pass.dispatch_workgroups(x, 1, 1);
}

/// Relies on `wgpu::CommandEncoder::begin_compute_pass` and
/// `wgpu::ComputePass::{set_pipeline, set_bind_group,
/// dispatch_workgroups_indirect}`: as [`record_pass`], but the workgroup
/// count is read at execution time from `dispatch_buffer` at offset 0.
#[verifier::external_body]
pub(crate) fn record_pass_indirect(
    encoder: &mut wgpu::CommandEncoder,
    label: &str,
    pipeline: &wgpu::ComputePipeline,
    bind_group: &wgpu::BindGroup,
    dispatch_buffer: &wgpu::Buffer,
)
    ensures
        dispatches_of(*final(encoder)) == dispatches_of(*old(encoder)).push(
            (
                entry_point_of(*pipeline),
                Option::<u32>::None,
                *bind_group,
                Option::Some((*dispatch_buffer, 0u64)),
            ),
        ),
{
    let mut pass = encoder.begin_compute_pass(&wgpu::ComputePassDescriptor {
        label: Some(label),
        timestamp_writes: None,
    });
    pass.set_pipeline(pipeline);
    pass.set_bind_group(0, bind_group, &[]);
    pass.dispatch_workgroups_indirect(dispatch_buffer, 0);
}

} // verus!
