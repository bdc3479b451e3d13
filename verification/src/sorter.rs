//! The sorting pipeline and its buffer bundles.
//!
//! A [`GPUSorter`] owns the five compute pipelines of the radix sort; a
//! [`SortBuffers`] bundles the six device buffers of one sort instance with
//! the bind group that ties them to the pipelines.  Recording a sort appends
//! a fixed dispatch sequence to the caller's command encoder: zeroing,
//! histogram, prefix scan, and the four ping-pong scatter passes, whose even
//! count brings the sorted keyvals back to the `a` buffers.

use crate::config::{
    spec_histo_blocks_ru, spec_keys_buffer_size, spec_scatter_blocks_ru, MAX_SORT_COUNT,
    NUM_PASSES, RS_KEYVAL_SIZE, RS_RADIX_SIZE,
};
use crate::gpu::{
    bound_buffer_at, buffer_len_bytes, buffer_usage_copy_dst, buffer_usage_copy_src,
    buffer_usage_storage, create_bind_group_layout, create_bind_group_six,
    create_compute_pipeline, create_pipeline_layout, create_shader_module, create_storage_buffer,
    create_storage_buffer_init, create_storage_copy_buffer, dispatches_of, entry_binding_of,
    entry_min_size_of, entry_point_of, entry_rw_storage_of, initial_contents_of,
    layout_entries_of, pipeline_source_of, queue_write_buffer, record_pass, record_pass_indirect,
    storage_layout_entry, storage_layout_entry_min_size,
};
use crate::shader::{shader_source, spec_shader_source, spec_valid_subgroup_width};
use crate::state::{push_u32_le, spec_state_bytes, SorterState, SORTER_STATE_SIZE};
use vstd::prelude::*;

verus! {

/// The dispatch sequence of one direct sort of `n` keyvals with bind group
/// `bg`: each entry gives the entry point dispatched, its x-axis workgroup
/// count, the bind group, and no indirect-args buffer.
pub open spec fn spec_sort_dispatches(n: u32, bg: wgpu::BindGroup) -> Seq<
    (Seq<char>, Option<u32>, wgpu::BindGroup, Option<(wgpu::Buffer, u64)>),
> {
    let none = Option::<(wgpu::Buffer, u64)>::None;
    seq![
        ("zero_histograms"@, Option::Some(spec_histo_blocks_ru(n as int) as u32), bg, none),
        ("calculate_histogram"@, Option::Some(spec_histo_blocks_ru(n as int) as u32), bg, none),
        ("prefix_histogram"@, Option::Some(NUM_PASSES), bg, none),
        ("scatter_even"@, Option::Some(spec_scatter_blocks_ru(n as int) as u32), bg, none),
        ("scatter_odd"@, Option::Some(spec_scatter_blocks_ru(n as int) as u32), bg, none),
        ("scatter_even"@, Option::Some(spec_scatter_blocks_ru(n as int) as u32), bg, none),
        ("scatter_odd"@, Option::Some(spec_scatter_blocks_ru(n as int) as u32), bg, none),
    ]
}

/// The dispatch sequence of one indirect sort with bind group `bg`: the
/// same entry points in the same order, every count but the prefix scan's
/// read from the caller's indirect-args buffer at offset 0.
pub open spec fn spec_sort_dispatches_indirect(bg: wgpu::BindGroup, args: wgpu::Buffer) -> Seq<
    (Seq<char>, Option<u32>, wgpu::BindGroup, Option<(wgpu::Buffer, u64)>),
> {
    let from_args = Option::Some((args, 0u64));
    seq![
        ("zero_histograms"@, Option::<u32>::None, bg, from_args),
        ("calculate_histogram"@, Option::<u32>::None, bg, from_args),
        ("prefix_histogram"@, Option::Some(NUM_PASSES), bg, Option::<(wgpu::Buffer, u64)>::None),
        ("scatter_even"@, Option::<u32>::None, bg, from_args),
        ("scatter_odd"@, Option::<u32>::None, bg, from_args),
        ("scatter_even"@, Option::<u32>::None, bg, from_args),
        ("scatter_odd"@, Option::<u32>::None, bg, from_args),
    ]
}

/// The key count a sort call resolves to: the requested prefix, or the whole
/// bundle.
pub open spec fn spec_resolved_count(sort_first_n: Option<u32>, len: u32) -> u32 {
    match sort_first_n {
        Option::Some(n) => n,
        Option::None => len,
    }
}

/// Sorting pipeline; it can be used to sort key-value pairs stored in a
/// [`SortBuffers`] bundle.
pub struct GPUSorter {
    zero_p: wgpu::ComputePipeline,
    histogram_p: wgpu::ComputePipeline,
    prefix_p: wgpu::ComputePipeline,
    scatter_even_p: wgpu::ComputePipeline,
    scatter_odd_p: wgpu::ComputePipeline,
}

/// All buffers necessary for sorting, tied to a fixed capacity.  The keys
/// and values buffers can be read and written by the host.
pub struct SortBuffers {
    keys_a: wgpu::Buffer,
    keys_b: wgpu::Buffer,
    payload_a: wgpu::Buffer,
    payload_b: wgpu::Buffer,
    internal_mem_buffer: wgpu::Buffer,
    state_buffer: wgpu::Buffer,
    bind_group: wgpu::BindGroup,
    length: u32,
}

impl GPUSorter {
    #[verifier::type_invariant]
    spec fn wf(self) -> bool {
        &&& entry_point_of(self.zero_p) == "zero_histograms"@
        &&& entry_point_of(self.histogram_p) == "calculate_histogram"@
        &&& entry_point_of(self.prefix_p) == "prefix_histogram"@
        &&& entry_point_of(self.scatter_even_p) == "scatter_even"@
        &&& entry_point_of(self.scatter_odd_p) == "scatter_odd"@
    }

    /// The sorter's five pipelines run the entry points `zero_histograms`,
    /// `calculate_histogram`, `prefix_histogram`, `scatter_even` and
    /// `scatter_odd` — the names its recorded dispatch sequences carry —
    /// and every one was compiled from the one shader source specialized
    /// for subgroup width `w`, [`spec_shader_source`]`(w)`.
    pub closed spec fn spec_specialized_for(self, w: u32) -> bool {
        &&& self.wf()
        &&& pipeline_source_of(self.zero_p) == spec_shader_source(w)
        &&& pipeline_source_of(self.histogram_p) == spec_shader_source(w)
        &&& pipeline_source_of(self.prefix_p) == spec_shader_source(w)
        &&& pipeline_source_of(self.scatter_even_p) == spec_shader_source(w)
        &&& pipeline_source_of(self.scatter_odd_p) == spec_shader_source(w)
    }

    /// Builds the five pipelines, specialized for the given subgroup width
    /// through the shader prelude.
    pub fn new(device: &wgpu::Device, subgroup_size: u32) -> (r: Self)
        requires
            spec_valid_subgroup_width(subgroup_size),
        ensures
            r.spec_specialized_for(subgroup_size),
    {
        let bind_group_layout = Self::bind_group_layout(device);
        let pipeline_layout = create_pipeline_layout(
            device,
            "radix sort pipeline layout",
            &bind_group_layout,
        );
        let source = shader_source(subgroup_size);
        let shader = create_shader_module(device, "Radix sort shader", source.as_str());
        let zero_p = create_compute_pipeline(
            device,
            "Zero the histograms",
            &pipeline_layout,
            &shader,
            "zero_histograms",
        );
        let histogram_p = create_compute_pipeline(
            device,
            "calculate_histogram",
            &pipeline_layout,
            &shader,
            "calculate_histogram",
        );
        let prefix_p = create_compute_pipeline(
            device,
            "prefix_histogram",
            &pipeline_layout,
            &shader,
            "prefix_histogram",
        );
        let scatter_even_p = create_compute_pipeline(
            device,
            "scatter_even",
            &pipeline_layout,
            &shader,
            "scatter_even",
        );
        let scatter_odd_p = create_compute_pipeline(
            device,
            "scatter_odd",
            &pipeline_layout,
            &shader,
            "scatter_odd",
        );
        GPUSorter { zero_p, histogram_p, prefix_p, scatter_even_p, scatter_odd_p }
    }

    /// The shared layout of host and shaders: six read-write storage
    /// bindings at slots 0 to 5, the state record at slot 0 with its size
    /// as the minimum.
    fn bind_group_layout(device: &wgpu::Device) -> (r: wgpu::BindGroupLayout)
        ensures
            layout_entries_of(r).len() == 6,
            forall|i: int|
                0 <= i < 6 ==> entry_binding_of(#[trigger] layout_entries_of(r)[i]) == i
                    && entry_rw_storage_of(layout_entries_of(r)[i]),
            entry_min_size_of(layout_entries_of(r)[0]) == Option::Some(SORTER_STATE_SIZE),
            forall|i: int|
                1 <= i < 6 ==> entry_min_size_of(#[trigger] layout_entries_of(r)[i])
                    == Option::<u64>::None,
    {
        let mut entries: Vec<wgpu::BindGroupLayoutEntry> = Vec::new();
        entries.push(storage_layout_entry_min_size(0, SORTER_STATE_SIZE));
        entries.push(storage_layout_entry(1));
        entries.push(storage_layout_entry(2));
        entries.push(storage_layout_entry(3));
        entries.push(storage_layout_entry(4));
        entries.push(storage_layout_entry(5));
        create_bind_group_layout(device, "radix sort bind group layout", &entries)
    }

    /// Allocates the two keys buffers (padded to whole histogram blocks,
    /// the working one copyable by the host) and the two payload buffers
    /// (the working one copyable).
    fn create_keyval_buffers(device: &wgpu::Device, length: u32) -> (r: (
        wgpu::Buffer,
        wgpu::Buffer,
        wgpu::Buffer,
        wgpu::Buffer,
    ))
        requires
            1 <= length <= MAX_SORT_COUNT,
        ensures
            buffer_len_bytes(r.0) == spec_keys_buffer_size(length as int) * 4,
            buffer_len_bytes(r.1) == spec_keys_buffer_size(length as int) * 4,
            buffer_len_bytes(r.2) == length * 4,
            buffer_len_bytes(r.3) == length * 4,
            buffer_usage_storage(r.0) && buffer_usage_copy_src(r.0) && buffer_usage_copy_dst(r.0),
            buffer_usage_storage(r.1) && !buffer_usage_copy_src(r.1) && !buffer_usage_copy_dst(
                r.1,
            ),
            buffer_usage_storage(r.2) && buffer_usage_copy_src(r.2) && buffer_usage_copy_dst(r.2),
            buffer_usage_storage(r.3) && !buffer_usage_copy_src(r.3) && !buffer_usage_copy_dst(
                r.3,
            ),
    {
        let count_ru_histo = crate::config::keys_buffer_size(length);
        let keys_size: u64 = (count_ru_histo as u64) * 4;
        let keys = create_storage_copy_buffer(device, "radix sort keys buffer", keys_size);
        let keys_aux = create_storage_buffer(device, "radix sort keys auxiliary buffer", keys_size);
        let payload_size: u64 = (length as u64) * 4;
        let payload = create_storage_copy_buffer(device, "radix sort payload buffer", payload_size);
        let payload_aux = create_storage_buffer(
            device,
            "radix sort payload auxiliary buffer",
            payload_size,
        );
        (keys, keys_aux, payload, payload_aux)
    }

    /// Allocates the internal working buffer: four histograms followed by
    /// one partition-descriptor stripe per scatter block.
    fn create_internal_mem_buffer(&self, device: &wgpu::Device, length: u32) -> (r: wgpu::Buffer)
        requires
            length <= MAX_SORT_COUNT,
        ensures
            buffer_len_bytes(r) == (RS_KEYVAL_SIZE + spec_scatter_blocks_ru(length as int))
                * RS_RADIX_SIZE * 4,
            buffer_usage_storage(r),
    {
        let scatter_blocks = crate::config::scatter_blocks_ru(length);
        let histo_size: u64 = (RS_RADIX_SIZE as u64) * 4;
        let internal_size: u64 = ((RS_KEYVAL_SIZE + scatter_blocks) as u64) * histo_size;
        create_storage_buffer(device, "Internal radix sort buffer", internal_size)
    }

    /// The initial state record of a bundle of the given capacity.
    fn general_info_data(length: u32) -> (r: SorterState)
        requires
            length <= MAX_SORT_COUNT,
        ensures
            r.num_keys == length,
            r.padded_size == spec_keys_buffer_size(length as int),
            r.even_pass == 0,
            r.odd_pass == 0,
    {
        SorterState {
            num_keys: length,
            padded_size: crate::config::keys_buffer_size(length),
            even_pass: 0,
            odd_pass: 0,
        }
    }

    /// Records the histogram phase: one zeroing dispatch, then one counting
    /// dispatch, both sized to cover `length` keyvals.
    fn record_calculate_histogram(
        &self,
        bind_group: &wgpu::BindGroup,
        length: u32,
        encoder: &mut wgpu::CommandEncoder,
    )
        requires
            length <= MAX_SORT_COUNT,
        ensures
            dispatches_of(*final(encoder)) == dispatches_of(*old(encoder)) + seq![
                (
                    "zero_histograms"@,
                    Option::Some(spec_histo_blocks_ru(length as int) as u32),
                    *bind_group,
                    Option::<(wgpu::Buffer, u64)>::None,
                ),
                (
                    "calculate_histogram"@,
                    Option::Some(spec_histo_blocks_ru(length as int) as u32),
                    *bind_group,
                    Option::<(wgpu::Buffer, u64)>::None,
                ),
            ],
    {
        proof {
            use_type_invariant(self);
        }
        let hist_blocks_ru = crate::config::histo_blocks_ru(length);
        record_pass(encoder, "zeroing the histogram", &self.zero_p, bind_group, hist_blocks_ru);
        record_pass(encoder, "calculate histogram", &self.histogram_p, bind_group, hist_blocks_ru);
        proof {
            assert(dispatches_of(*encoder) =~= dispatches_of(*old(encoder)) + seq![
                (
                    "zero_histograms"@,
                    Option::Some(spec_histo_blocks_ru(length as int) as u32),
                    *bind_group,
                    Option::<(wgpu::Buffer, u64)>::None,
                ),
                (
                    "calculate_histogram"@,
                    Option::Some(spec_histo_blocks_ru(length as int) as u32),
                    *bind_group,
                    Option::<(wgpu::Buffer, u64)>::None,
                ),
            ]);
        }
    }

    /// Records the histogram phase with both workgroup counts read from the
    /// caller's indirect-args buffer at offset 0.
    fn record_calculate_histogram_indirect(
        &self,
        bind_group: &wgpu::BindGroup,
        dispatch_buffer: &wgpu::Buffer,
        encoder: &mut wgpu::CommandEncoder,
    )
        ensures
            dispatches_of(*final(encoder)) == dispatches_of(*old(encoder)) + seq![
                (
                    "zero_histograms"@,
                    Option::<u32>::None,
                    *bind_group,
                    Option::Some((*dispatch_buffer, 0u64)),
                ),
                (
                    "calculate_histogram"@,
                    Option::<u32>::None,
                    *bind_group,
                    Option::Some((*dispatch_buffer, 0u64)),
                ),
            ],
    {
        proof {
            use_type_invariant(self);
        }
        record_pass_indirect(
            encoder,
            "zeroing the histogram",
            &self.zero_p,
            bind_group,
            dispatch_buffer,
        );
        record_pass_indirect(
            encoder,
            "calculate histogram",
            &self.histogram_p,
            bind_group,
            dispatch_buffer,
        );
        proof {
            assert(dispatches_of(*encoder) =~= dispatches_of(*old(encoder)) + seq![
                (
                    "zero_histograms"@,
                    Option::<u32>::None,
                    *bind_group,
                    Option::Some((*dispatch_buffer, 0u64)),
                ),
                (
                    "calculate_histogram"@,
                    Option::<u32>::None,
                    *bind_group,
                    Option::Some((*dispatch_buffer, 0u64)),
                ),
            ]);
        }
    }

    /// Records the prefix scan: always one workgroup per pass, so no
    /// indirect variant exists.
    fn record_prefix_histogram(&self, bind_group: &wgpu::BindGroup, encoder: &mut wgpu::CommandEncoder)
        ensures
            dispatches_of(*final(encoder)) == dispatches_of(*old(encoder)).push(
                (
                    "prefix_histogram"@,
                    Option::Some(NUM_PASSES),
                    *bind_group,
                    Option::<(wgpu::Buffer, u64)>::None,
                ),
            ),
    {
        proof {
            use_type_invariant(self);
        }
        record_pass(encoder, "prefix histogram", &self.prefix_p, bind_group, NUM_PASSES);
    }

    /// Records the four scatter passes, alternating the even and the odd
    /// pipeline so the sorted keyvals end on the `a` side.
    fn record_scatter_keys(
        &self,
        bind_group: &wgpu::BindGroup,
        length: u32,
        encoder: &mut wgpu::CommandEncoder,
    )
        requires
            length <= MAX_SORT_COUNT,
        ensures
            dispatches_of(*final(encoder)) == dispatches_of(*old(encoder)) + seq![
                (
                    "scatter_even"@,
                    Option::Some(spec_scatter_blocks_ru(length as int) as u32),
                    *bind_group,
                    Option::<(wgpu::Buffer, u64)>::None,
                ),
                (
                    "scatter_odd"@,
                    Option::Some(spec_scatter_blocks_ru(length as int) as u32),
                    *bind_group,
                    Option::<(wgpu::Buffer, u64)>::None,
                ),
                (
                    "scatter_even"@,
                    Option::Some(spec_scatter_blocks_ru(length as int) as u32),
                    *bind_group,
                    Option::<(wgpu::Buffer, u64)>::None,
                ),
                (
                    "scatter_odd"@,
                    Option::Some(spec_scatter_blocks_ru(length as int) as u32),
                    *bind_group,
                    Option::<(wgpu::Buffer, u64)>::None,
                ),
            ],
    {
        proof {
            use_type_invariant(self);
        }
        let scatter_blocks = crate::config::scatter_blocks_ru(length);
        record_pass(encoder, "Scatter keyvals even", &self.scatter_even_p, bind_group, scatter_blocks);
        record_pass(encoder, "Scatter keyvals odd", &self.scatter_odd_p, bind_group, scatter_blocks);
        record_pass(encoder, "Scatter keyvals even", &self.scatter_even_p, bind_group, scatter_blocks);
        record_pass(encoder, "Scatter keyvals odd", &self.scatter_odd_p, bind_group, scatter_blocks);
        proof {
            assert(dispatches_of(*encoder) =~= dispatches_of(*old(encoder)) + seq![
                (
                    "scatter_even"@,
                    Option::Some(spec_scatter_blocks_ru(length as int) as u32),
                    *bind_group,
                    Option::<(wgpu::Buffer, u64)>::None,
                ),
                (
                    "scatter_odd"@,
                    Option::Some(spec_scatter_blocks_ru(length as int) as u32),
                    *bind_group,
                    Option::<(wgpu::Buffer, u64)>::None,
                ),
                (
                    "scatter_even"@,
                    Option::Some(spec_scatter_blocks_ru(length as int) as u32),
                    *bind_group,
                    Option::<(wgpu::Buffer, u64)>::None,
                ),
                (
                    "scatter_odd"@,
                    Option::Some(spec_scatter_blocks_ru(length as int) as u32),
                    *bind_group,
                    Option::<(wgpu::Buffer, u64)>::None,
                ),
            ]);
        }
    }

    /// Records the four scatter passes with their workgroup counts read from
    /// the caller's indirect-args buffer at offset 0.
    fn record_scatter_keys_indirect(
        &self,
        bind_group: &wgpu::BindGroup,
        dispatch_buffer: &wgpu::Buffer,
        encoder: &mut wgpu::CommandEncoder,
    )
        ensures
            dispatches_of(*final(encoder)) == dispatches_of(*old(encoder)) + seq![
                (
                    "scatter_even"@,
                    Option::<u32>::None,
                    *bind_group,
                    Option::Some((*dispatch_buffer, 0u64)),
                ),
                (
                    "scatter_odd"@,
                    Option::<u32>::None,
                    *bind_group,
                    Option::Some((*dispatch_buffer, 0u64)),
                ),
                (
                    "scatter_even"@,
                    Option::<u32>::None,
                    *bind_group,
                    Option::Some((*dispatch_buffer, 0u64)),
                ),
                (
                    "scatter_odd"@,
                    Option::<u32>::None,
                    *bind_group,
                    Option::Some((*dispatch_buffer, 0u64)),
                ),
            ],
    {
        proof {
            use_type_invariant(self);
        }
        record_pass_indirect(
            encoder,
            "radix sort scatter keyvals even",
            &self.scatter_even_p,
            bind_group,
            dispatch_buffer,
        );
        record_pass_indirect(
            encoder,
            "radix sort scatter keyvals odd",
            &self.scatter_odd_p,
            bind_group,
            dispatch_buffer,
        );
        record_pass_indirect(
            encoder,
            "radix sort scatter keyvals even",
            &self.scatter_even_p,
            bind_group,
            dispatch_buffer,
        );
        record_pass_indirect(
            encoder,
            "radix sort scatter keyvals odd",
            &self.scatter_odd_p,
            bind_group,
            dispatch_buffer,
        );
        proof {
            assert(dispatches_of(*encoder) =~= dispatches_of(*old(encoder)) + seq![
                (
                    "scatter_even"@,
                    Option::<u32>::None,
                    *bind_group,
                    Option::Some((*dispatch_buffer, 0u64)),
                ),
                (
                    "scatter_odd"@,
                    Option::<u32>::None,
                    *bind_group,
                    Option::Some((*dispatch_buffer, 0u64)),
                ),
                (
                    "scatter_even"@,
                    Option::<u32>::None,
                    *bind_group,
                    Option::Some((*dispatch_buffer, 0u64)),
                ),
                (
                    "scatter_odd"@,
                    Option::<u32>::None,
                    *bind_group,
                    Option::Some((*dispatch_buffer, 0u64)),
                ),
            ]);
        }
    }

    /// Writes the requested key count to the state buffer and records the
    /// whole sort into the caller's encoder, every dispatch bound to the
    /// bundle's bind group.  With `sort_first_n` of `n`, only the first `n`
    /// keyvals are sorted and the rest of the keys buffer is left
    /// unspecified; otherwise the whole bundle is sorted.
    pub fn sort(
        &self,
        encoder: &mut wgpu::CommandEncoder,
        queue: &wgpu::Queue,
        sort_buffers: &SortBuffers,
        sort_first_n: Option<u32>,
    )
        requires
            sort_first_n matches Option::Some(n) ==> n <= sort_buffers.len_spec(),
        ensures
            dispatches_of(*final(encoder)) == dispatches_of(*old(encoder)) + spec_sort_dispatches(
                spec_resolved_count(sort_first_n, sort_buffers.len_spec()),
                sort_buffers.bind_group_spec(),
            ),
    {
        proof {
            use_type_invariant(sort_buffers);
        }
        let bind_group = &sort_buffers.bind_group;
        let num_elements = match sort_first_n {
            Some(n) => n,
            None => sort_buffers.len(),
        };
        let mut count_bytes: Vec<u8> = Vec::new();
        push_u32_le(&mut count_bytes, num_elements);
        queue_write_buffer(queue, &sort_buffers.state_buffer, 0, &count_bytes);
        self.record_calculate_histogram(bind_group, num_elements, encoder);
        self.record_prefix_histogram(bind_group, encoder);
        self.record_scatter_keys(bind_group, num_elements, encoder);
        proof {
            assert(dispatches_of(*encoder) =~= dispatches_of(*old(encoder)) + spec_sort_dispatches(
                spec_resolved_count(sort_first_n, sort_buffers.len_spec()),
                sort_buffers.bind_group_spec(),
            ));
        }
    }

    /// Records the whole sort with the workgroup counts read from the
    /// caller's indirect-args buffer at offset 0, every dispatch bound to
    /// the bundle's bind group; the caller has already written the key
    /// count to the head of the state buffer and
    /// `ceil(n / HISTO_BLOCK_KVS)` to the buffer's `x` field.  One buffer
    /// serves the histogram and the scatter dispatches alike because their
    /// blocks cover the same number of keyvals.
    pub fn sort_indirect(
        &self,
        encoder: &mut wgpu::CommandEncoder,
        sort_buffers: &SortBuffers,
        dispatch_buffer: &wgpu::Buffer,
    )
        ensures
            dispatches_of(*final(encoder)) == dispatches_of(*old(encoder))
                + spec_sort_dispatches_indirect(sort_buffers.bind_group_spec(), *dispatch_buffer),
    {
        let bind_group = &sort_buffers.bind_group;
        self.record_calculate_histogram_indirect(bind_group, dispatch_buffer, encoder);
        self.record_prefix_histogram(bind_group, encoder);
        self.record_scatter_keys_indirect(bind_group, dispatch_buffer, encoder);
        proof {
            assert(dispatches_of(*encoder) =~= dispatches_of(*old(encoder))
                + spec_sort_dispatches_indirect(sort_buffers.bind_group_spec(), *dispatch_buffer));
        }
    }

    /// Creates all buffers necessary for sorting `length` keyvals: the six
    /// buffers bound at slots 0 to 5 in the fixed order, and the state
    /// buffer initialized with the packed record for this capacity.
    pub fn create_sort_buffers(&self, device: &wgpu::Device, length: u32) -> (r: SortBuffers)
        requires
            1 <= length <= MAX_SORT_COUNT,
        ensures
            r.len_spec() == length,
            initial_contents_of(bound_buffer_at(r.bind_group_spec(), 0)) == spec_state_bytes(
                (SorterState {
                    num_keys: length,
                    padded_size: spec_keys_buffer_size(length as int) as u32,
                    even_pass: 0,
                    odd_pass: 0,
                }),
            ),
    {
        let (keys_a, keys_b, payload_a, payload_b) = GPUSorter::create_keyval_buffers(
            device,
            length,
        );
        let internal_mem_buffer = self.create_internal_mem_buffer(device, length);
        let uniform_infos = Self::general_info_data(length);
        let state_bytes = uniform_infos.to_bytes();
        let uniform_buffer = create_storage_buffer_init(
            device,
            "radix sort uniform buffer",
            &state_bytes,
        );
        let bind_group = create_bind_group_six(
            device,
            "radix sort bind group",
            &Self::bind_group_layout(device),
            &uniform_buffer,
            &internal_mem_buffer,
            &keys_a,
            &keys_b,
            &payload_a,
            &payload_b,
        );
        SortBuffers {
            keys_a,
            keys_b,
            payload_a,
            payload_b,
            internal_mem_buffer,
            state_buffer: uniform_buffer,
            bind_group,
            length,
        }
    }
}

impl SortBuffers {
    #[verifier::type_invariant]
    spec fn wf(self) -> bool {
        &&& 1 <= self.length <= MAX_SORT_COUNT
        &&& buffer_len_bytes(self.keys_a) == spec_keys_buffer_size(self.length as int) * 4
        &&& buffer_len_bytes(self.keys_b) == spec_keys_buffer_size(self.length as int) * 4
        &&& buffer_len_bytes(self.payload_a) == self.length * 4
        &&& buffer_len_bytes(self.payload_b) == self.length * 4
        &&& buffer_len_bytes(self.state_buffer) == SORTER_STATE_SIZE
        &&& buffer_len_bytes(self.internal_mem_buffer) == (RS_KEYVAL_SIZE
            + spec_scatter_blocks_ru(self.length as int)) * RS_RADIX_SIZE * 4
        &&& buffer_usage_storage(self.keys_a) && buffer_usage_copy_src(self.keys_a)
            && buffer_usage_copy_dst(self.keys_a)
        &&& buffer_usage_storage(self.keys_b) && !buffer_usage_copy_src(self.keys_b)
            && !buffer_usage_copy_dst(self.keys_b)
        &&& buffer_usage_storage(self.payload_a) && buffer_usage_copy_src(self.payload_a)
            && buffer_usage_copy_dst(self.payload_a)
        &&& buffer_usage_storage(self.payload_b) && !buffer_usage_copy_src(self.payload_b)
            && !buffer_usage_copy_dst(self.payload_b)
        &&& buffer_usage_storage(self.state_buffer) && buffer_usage_copy_dst(self.state_buffer)
        &&& buffer_usage_storage(self.internal_mem_buffer)
        &&& initial_contents_of(self.state_buffer) == spec_state_bytes(
            (SorterState {
                num_keys: self.length,
                padded_size: spec_keys_buffer_size(self.length as int) as u32,
                even_pass: 0,
                odd_pass: 0,
            }),
        )
        &&& bound_buffer_at(self.bind_group, 0) == self.state_buffer
        &&& bound_buffer_at(self.bind_group, 1) == self.internal_mem_buffer
        &&& bound_buffer_at(self.bind_group, 2) == self.keys_a
        &&& bound_buffer_at(self.bind_group, 3) == self.keys_b
        &&& bound_buffer_at(self.bind_group, 4) == self.payload_a
        &&& bound_buffer_at(self.bind_group, 5) == self.payload_b
    }

    /// The capacity of the bundle in key-value pairs.
    pub closed spec fn len_spec(self) -> u32 {
        self.length
    }

    /// The bind group that every recorded dispatch of this bundle binds; the
    /// six buffers sit at its slots in the fixed order state, internal,
    /// keys_a, keys_b, payload_a, payload_b.
    pub closed spec fn bind_group_spec(self) -> wgpu::BindGroup {
        self.bind_group
    }

    /// Number of key-value pairs that can be stored in this bundle.
    pub fn len(&self) -> (r: u32)
        ensures
            r == self.len_spec(),
    {
        self.length
    }

    /// The keys buffer: the one bound at slot 2, readable and writable by
    /// the host.  It is padded at the end: [`Self::keys_valid_size`] gives
    /// the size of the meaningful prefix.
    pub fn keys(&self) -> (r: &wgpu::Buffer)
        ensures
            *r == bound_buffer_at(self.bind_group_spec(), 2),
            buffer_len_bytes(*r) == spec_keys_buffer_size(self.len_spec() as int) * 4,
            buffer_usage_storage(*r) && buffer_usage_copy_src(*r) && buffer_usage_copy_dst(*r),
    {
        proof {
            use_type_invariant(self);
        }
        &self.keys_a
    }

    /// Size in bytes of the keys that carry data, without the padding.
    pub fn keys_valid_size(&self) -> (r: u64)
        ensures
            r == self.len_spec() * RS_KEYVAL_SIZE,
    {
        (self.len() as u64) * (RS_KEYVAL_SIZE as u64)
    }

    /// The values buffer: the one bound at slot 4, readable and writable by
    /// the host.
    pub fn values(&self) -> (r: &wgpu::Buffer)
        ensures
            *r == bound_buffer_at(self.bind_group_spec(), 4),
            buffer_len_bytes(*r) == self.len_spec() * 4,
            buffer_usage_storage(*r) && buffer_usage_copy_src(*r) && buffer_usage_copy_dst(*r),
    {
        proof {
            use_type_invariant(self);
        }
        &self.payload_a
    }

    /// The buffer holding the packed [`SorterState`] record: the one bound
    /// at slot 0, writable by the host, created with the record for the
    /// bundle's capacity.
    pub fn state_buffer(&self) -> (r: &wgpu::Buffer)
        ensures
            *r == bound_buffer_at(self.bind_group_spec(), 0),
            buffer_len_bytes(*r) == SORTER_STATE_SIZE,
            buffer_usage_storage(*r) && buffer_usage_copy_dst(*r),
            initial_contents_of(*r) == spec_state_bytes(
                (SorterState {
                    num_keys: self.len_spec(),
                    padded_size: spec_keys_buffer_size(self.len_spec() as int) as u32,
                    even_pass: 0,
                    odd_pass: 0,
                }),
            ),
    {
        proof {
            use_type_invariant(self);
        }
        &self.state_buffer
    }
}

/// The indirect dispatch sequence mirrors the direct one: same entry points
/// in the same order with the same bind group; every indirect entry reads
/// the one args buffer at offset 0, and a single x count of
/// `histo_blocks_ru(n)` — which also equals `scatter_blocks_ru(n)` —
/// reproduces every count the direct sequence dispatches for `n` keyvals.
pub proof fn lemma_indirect_matches_direct(
    n: u32,
    bg: wgpu::BindGroup,
    args: wgpu::Buffer,
)
    requires
        n <= MAX_SORT_COUNT,
    ensures
        spec_sort_dispatches_indirect(bg, args).len() == spec_sort_dispatches(n, bg).len(),
        forall|i: int|
            0 <= i < spec_sort_dispatches(n, bg).len() ==> spec_sort_dispatches_indirect(
                bg,
                args,
            )[i].0 == spec_sort_dispatches(n, bg)[i].0 && spec_sort_dispatches_indirect(
                bg,
                args,
            )[i].2 == spec_sort_dispatches(n, bg)[i].2,
        forall|i: int|
            0 <= i < spec_sort_dispatches(n, bg).len() && spec_sort_dispatches_indirect(
                bg,
                args,
            )[i].1 is None ==> spec_sort_dispatches(n, bg)[i].1 == Option::Some(
                spec_histo_blocks_ru(n as int) as u32,
            ) && spec_sort_dispatches_indirect(bg, args)[i].3 == Option::Some((args, 0u64)),
        forall|i: int|
            0 <= i < spec_sort_dispatches(n, bg).len() && spec_sort_dispatches_indirect(
                bg,
                args,
            )[i].1 is Some ==> spec_sort_dispatches(n, bg)[i].1 == spec_sort_dispatches_indirect(
                bg,
                args,
            )[i].1,
{
    crate::config::lemma_histo_blocks_eq_scatter_blocks(n as int);
}

/// True when `passes` scatter passes leave the keyvals in the `a` buffers:
/// every pass flips the side, and the data starts on the `a` side.
pub open spec fn spec_keyvals_on_a_side(passes: int) -> bool {
    passes % 2 == 0
}

/// One sort performs exactly [`NUM_PASSES`] scatter dispatches — the last
/// four entries of the sequence, alternating even and odd, while the first
/// three entries dispatch no scatter pipeline — and that count is even: the
/// sorted keyvals are back in the `a` buffers when the sequence completes.
pub proof fn lemma_sorted_output_lands_on_a_side(n: u32, bg: wgpu::BindGroup)
    ensures
        spec_sort_dispatches(n, bg).len() == 3 + NUM_PASSES,
        spec_sort_dispatches(n, bg)[3].0 == "scatter_even"@,
        spec_sort_dispatches(n, bg)[4].0 == "scatter_odd"@,
        spec_sort_dispatches(n, bg)[5].0 == "scatter_even"@,
        spec_sort_dispatches(n, bg)[6].0 == "scatter_odd"@,
        forall|i: int|
            0 <= i < 3 ==> spec_sort_dispatches(n, bg)[i].0 != "scatter_even"@
                && spec_sort_dispatches(n, bg)[i].0 != "scatter_odd"@,
        spec_keyvals_on_a_side(NUM_PASSES as int),
{
    reveal_strlit("zero_histograms");
    reveal_strlit("calculate_histogram");
    reveal_strlit("prefix_histogram");
    reveal_strlit("scatter_even");
    reveal_strlit("scatter_odd");
    assert forall|i: int|
        0 <= i < 3 implies spec_sort_dispatches(n, bg)[i].0 != "scatter_even"@
        && spec_sort_dispatches(n, bg)[i].0 != "scatter_odd"@ by {
        assert("zero_histograms"@.len() == 15);
        assert("calculate_histogram"@.len() == 19);
        assert("prefix_histogram"@.len() == 16);
        assert("scatter_even"@.len() == 12);
        assert("scatter_odd"@.len() == 11);
    }
}

} // verus!
