//! The two contexts that the phases of a frame work on.

use crate::asset::{
    device_after_prepare, next_buffer, queue_after_prepare, slime_buffer_descriptor, Assets,
    GpuSlime, RenderAssets, SlimeHandle,
};
use crate::bind_group::SlimeBindGroup;
use crate::device::{
    BindGroupDescriptorView, BindGroupEntry, Buffer, BufferWriteView, RenderDevice,
    RenderDeviceView, RenderQueue,
};
use crate::pipeline::{
    slime_layout_entry, update_pipeline_descriptor, CachedPipelineView, PipelineCache,
    SlimePipeline,
};
use crate::record::{lemma_layout_len, Slime};
use vstd::prelude::*;

verus! {

/// The owning side: the asset table and the handle of the record that the
/// simulation currently runs on.
#[derive(Debug)]
pub struct World {
    pub slimes: Assets,
    pub slime_handle: Option<SlimeHandle>,
}

/// Mathematical content of a [`World`].
pub struct WorldView {
    pub slimes: Seq<Slime>,
    pub slime_handle: Option<SlimeHandle>,
}

impl View for World {
    type V = WorldView;

    open spec fn view(&self) -> WorldView {
        WorldView { slimes: self.slimes@, slime_handle: self.slime_handle }
    }
}

/// The render side: everything that the phases of a frame read and write.
#[derive(Debug)]
pub struct RenderWorld {
    pub render_device: RenderDevice,
    pub render_queue: RenderQueue,
    pub pipeline_cache: PipelineCache,
    /// The pipeline, once it has been set up.
    pub slime_pipeline: Option<SlimePipeline>,
    /// The handle as of the last extraction.
    pub slime_handle: Option<SlimeHandle>,
    /// The prepared records.
    pub slime_store: RenderAssets,
    /// The bind group as of the last frame that built one.
    pub slime_bind_group: Option<SlimeBindGroup>,
}

/// Mathematical content of a [`RenderWorld`].
pub struct RenderWorldView {
    pub render_device: RenderDeviceView,
    pub render_queue: Seq<BufferWriteView>,
    pub pipeline_cache: Seq<CachedPipelineView>,
    pub slime_pipeline: Option<SlimePipeline>,
    pub slime_handle: Option<SlimeHandle>,
    pub slime_store: Map<u64, GpuSlime>,
    pub slime_bind_group: Option<SlimeBindGroup>,
}

impl View for RenderWorld {
    type V = RenderWorldView;

    open spec fn view(&self) -> RenderWorldView {
        RenderWorldView {
            render_device: self.render_device@,
            render_queue: self.render_queue@,
            pipeline_cache: self.pipeline_cache@,
            slime_pipeline: self.slime_pipeline,
            slime_handle: self.slime_handle,
            slime_store: self.slime_store@,
            slime_bind_group: self.slime_bind_group,
        }
    }
}

impl World {
    /// A world without records and without a handle.
    pub fn new() -> (world: World)
        ensures
            world@ == (WorldView { slimes: Seq::empty(), slime_handle: None }),
    {
        World { slimes: Assets::new(), slime_handle: None }
    }
}

impl RenderWorld {
    /// A render world in which nothing has been created, queued, extracted,
    /// prepared or bound yet.
    pub fn new() -> (world: RenderWorld)
        ensures
            world@ == RenderWorldView::empty(),
            world@.wf(),
    {
        RenderWorld {
            render_device: RenderDevice::new(),
            render_queue: RenderQueue::new(),
            pipeline_cache: PipelineCache::new(),
            slime_pipeline: None,
            slime_handle: None,
            slime_store: RenderAssets::new(),
            slime_bind_group: None,
        }
    }
}

impl RenderWorldView {
    /// `buffer` is a buffer of the device, and one that was made to hold a
    /// record: as large as a record, usable as a storage buffer and as the
    /// destination of an upload.
    pub open spec fn holds_record(self, buffer: Buffer) -> bool {
        &&& buffer.id < self.render_device.buffers.len()
        &&& self.render_device.buffers[buffer.id as int] == slime_buffer_descriptor()
    }

    /// `write` goes to a buffer of the device and stays within it.
    pub open spec fn upload_fits(self, write: BufferWriteView) -> bool {
        &&& write.buffer.id < self.render_device.buffers.len()
        &&& write.offset + write.data.len()
            <= self.render_device.buffers[write.buffer.id as int].size
    }

    /// `entry` exposes a buffer of the device.
    pub open spec fn exposes_known_buffer(self, entry: BindGroupEntry) -> bool {
        entry.resource.buffer.id < self.render_device.buffers.len()
    }

    /// `bind_group` is laid out by a layout of the device and exposes
    /// buffers of the device only.
    pub open spec fn bind_group_resolves(self, bind_group: BindGroupDescriptorView) -> bool {
        &&& bind_group.layout.id < self.render_device.bind_group_layouts.len()
        &&& forall|j: int|
            0 <= j < bind_group.entries.len() ==> self.exposes_known_buffer(
                #[trigger] bind_group.entries[j],
            )
    }

    /// `pipeline` is laid out by layouts of the device only.
    pub open spec fn pipeline_resolves(self, pipeline: CachedPipelineView) -> bool {
        pipeline.descriptor.layout matches Some(layouts) ==> forall|j: int|
            0 <= j < layouts.len() ==> (#[trigger] layouts[j]).id
                < self.render_device.bind_group_layouts.len()
    }

    /// No handle dangles. Whatever the world holds or has recorded refers
    /// only to what the device and the cache have recorded:
    ///
    /// - every prepared record names a buffer that was made to hold a record;
    /// - every upload goes to a buffer of the device and stays within it;
    /// - every bind group and every queued pipeline is made of layouts and
    ///   buffers of the device;
    /// - the published bind group is one of the device's;
    /// - the pipeline, once set up, names the layout of the one storage slot
    ///   and the compilation of the kernel over that layout.
    pub open spec fn wf(self) -> bool {
        &&& forall|id: u64| #[trigger]
            self.slime_store.contains_key(id) ==> self.holds_record(self.slime_store[id].buffer)
        &&& forall|i: int|
            0 <= i < self.render_queue.len() ==> self.upload_fits(#[trigger] self.render_queue[i])
        &&& forall|i: int|
            0 <= i < self.render_device.bind_groups.len() ==> self.bind_group_resolves(
                #[trigger] self.render_device.bind_groups[i],
            )
        &&& forall|i: int|
            0 <= i < self.pipeline_cache.len() ==> self.pipeline_resolves(
                #[trigger] self.pipeline_cache[i],
            )
        &&& self.slime_bind_group matches Some(bind_group) ==> bind_group.0.id
            < self.render_device.bind_groups.len()
        &&& self.slime_pipeline matches Some(pipeline) ==> {
            &&& pipeline.texture_bind_group_layout.id < self.render_device.bind_group_layouts.len()
            &&& self.render_device.bind_group_layouts[pipeline.texture_bind_group_layout.id as int]
                == seq![slime_layout_entry()]
            &&& pipeline.update_pipeline.0 < self.pipeline_cache.len()
            &&& self.pipeline_cache[pipeline.update_pipeline.0 as int].descriptor
                == update_pipeline_descriptor(pipeline.texture_bind_group_layout)
        }
    }

    /// The render world in which nothing has happened yet.
    pub open spec fn empty() -> RenderWorldView {
        RenderWorldView {
            render_device: RenderDeviceView {
                buffers: Seq::empty(),
                bind_group_layouts: Seq::empty(),
                bind_groups: Seq::empty(),
            },
            render_queue: Seq::empty(),
            pipeline_cache: Seq::empty(),
            slime_pipeline: None,
            slime_handle: None,
            slime_store: Map::empty(),
            slime_bind_group: None,
        }
    }
}

/// `world` after [`setup`]: one more record, all zero, and the handle on it.
pub open spec fn world_after_setup(world: WorldView) -> WorldView {
    WorldView {
        slimes: world.slimes.push(Slime::zeroed()),
        slime_handle: Some(SlimeHandle(world.slimes.len() as u64)),
    }
}

/// Gives the simulation a record to start from: adds the default record to
/// the asset table and makes its handle the current one.
pub fn setup(world: &mut World)
    ensures
        final(world)@ == world_after_setup(old(world)@),
{
    let slime = world.slimes.add(Slime::default());
    world.slime_handle = Some(slime);
}

/// The handle that the render side holds after an extraction: the owning
/// side's current handle, or the one from before where the owning side has
/// none.
pub open spec fn extracted_handle(world: WorldView, render_world: RenderWorldView) -> Option<
    SlimeHandle,
> {
    match world.slime_handle {
        Some(handle) => Some(handle),
        None => render_world.slime_handle,
    }
}

/// `render_world` after [`extract_slime`].
pub open spec fn world_after_extract(
    world: WorldView,
    render_world: RenderWorldView,
) -> RenderWorldView {
    RenderWorldView { slime_handle: extracted_handle(world, render_world), ..render_world }
}

/// Copies the current handle to the render side. Only the identifier crosses
/// over; whether the record behind it has been prepared is a separate matter,
/// which extraction neither checks nor changes.
pub fn extract_slime(world: &World, render_world: &mut RenderWorld)
    ensures
        final(render_world)@ == world_after_extract(world@, old(render_world)@),
        old(render_world)@.wf() ==> final(render_world)@.wf(),
{
    match &world.slime_handle {
        Some(handle) => {
            render_world.slime_handle = Some(handle.extract_resource());
        },
        None => {},
    }
}

/// `render_world` after record number `id`, whose content is `image`, has
/// been seen by preparation: prepared if the cache had nothing for it, left
/// alone otherwise.
pub open spec fn world_after_prepare(
    render_world: RenderWorldView,
    id: u64,
    image: Slime,
) -> RenderWorldView {
    if render_world.slime_store.contains_key(id) {
        render_world
    } else {
        RenderWorldView {
            render_device: device_after_prepare(render_world.render_device),
            render_queue: queue_after_prepare(
                render_world.render_queue,
                next_buffer(render_world.render_device),
                image,
            ),
            slime_store: render_world.slime_store.insert(
                id,
                GpuSlime { buffer: next_buffer(render_world.render_device) },
            ),
            ..render_world
        }
    }
}

/// `render_world` after preparation has seen the first `n` records of
/// `slimes`, in the order of their identifiers.
pub open spec fn world_after_prepare_upto(
    slimes: Seq<Slime>,
    n: nat,
    render_world: RenderWorldView,
) -> RenderWorldView
    decreases n,
{
    if n == 0 {
        render_world
    } else {
        world_after_prepare(
            world_after_prepare_upto(slimes, (n - 1) as nat, render_world),
            (n - 1) as u64,
            slimes[n - 1],
        )
    }
}

/// `render_world` after [`prepare_assets`].
pub open spec fn world_after_prepare_all(
    world: WorldView,
    render_world: RenderWorldView,
) -> RenderWorldView {
    world_after_prepare_upto(world.slimes, world.slimes.len(), render_world)
}

/// Prepares every record of the asset table that the cache has nothing for
/// yet, in the order of their identifiers. A record is prepared once: what the
/// cache holds is never replaced.
pub fn prepare_assets(world: &World, render_world: &mut RenderWorld)
    ensures
        final(render_world)@ == world_after_prepare_all(world@, old(render_world)@),
        old(render_world)@.wf() ==> final(render_world)@.wf(),
{
    let count = world.slimes.len();
    let mut i: usize = 0;
    while i < count
        invariant
            i <= count,
            count == world@.slimes.len(),
            render_world@ == world_after_prepare_upto(world@.slimes, i as nat, old(render_world)@),
            old(render_world)@.wf() ==> render_world@.wf(),
        decreases count - i,
    {
        let handle = SlimeHandle(i as u64);
        match world.slimes.get(handle) {
            Some(slime) => prepare_slime(render_world, handle, &slime),
            None => {},
        }
        i += 1;
    }
}

/// Prepares the record `slime` of identifier `handle`, unless the cache holds
/// a prepared record for that identifier already. Preparation works on a copy
/// of the record.
pub fn prepare_slime(render_world: &mut RenderWorld, handle: SlimeHandle, slime: &Slime)
    ensures
        final(render_world)@ == world_after_prepare(old(render_world)@, handle.0, *slime),
        old(render_world)@.wf() ==> final(render_world)@.wf(),
{
    if render_world.slime_store.get(handle).is_none() {
        let image = slime.extract_asset();
        let prepared = Slime::prepare_asset(
            image,
            &mut render_world.render_device,
            &mut render_world.render_queue,
        );
        render_world.slime_store.insert(handle, prepared);
    }
    proof {
        if old(render_world)@.wf() {
            let count = old(render_world).render_device.buffers.len();
            assert(old(render_world)@.render_device.buffers.len() == count);
            lemma_prepare_keeps_wf(old(render_world)@, handle.0, *slime);
        }
    }
}

/// `after` has recorded everything that `before` has, at the same places.
pub open spec fn device_grew(before: RenderDeviceView, after: RenderDeviceView) -> bool {
    &&& before.buffers.is_prefix_of(after.buffers)
    &&& before.bind_group_layouts.is_prefix_of(after.bind_group_layouts)
    &&& before.bind_groups.is_prefix_of(after.bind_groups)
}

/// Handles outlive the growth of the device: a buffer, an upload, a bind
/// group or a pipeline that refers to what the device has recorded still
/// does so, and to the same things, after the device has recorded more.
pub proof fn lemma_growth_keeps_handles(before: RenderWorldView, after: RenderWorldView)
    requires
        device_grew(before.render_device, after.render_device),
    ensures
        forall|buffer: Buffer| #[trigger]
            before.holds_record(buffer) ==> after.holds_record(buffer),
        forall|write: BufferWriteView| #[trigger]
            before.upload_fits(write) ==> after.upload_fits(write),
        forall|bind_group: BindGroupDescriptorView| #[trigger]
            before.bind_group_resolves(bind_group) ==> after.bind_group_resolves(bind_group),
        forall|pipeline: CachedPipelineView| #[trigger]
            before.pipeline_resolves(pipeline) ==> after.pipeline_resolves(pipeline),
{
    let known = after.render_device.buffers.subrange(0, before.render_device.buffers.len() as int);
    assert forall|buffer: Buffer| #[trigger] before.holds_record(buffer) implies after.holds_record(
        buffer,
    ) by {
        assert(after.render_device.buffers[buffer.id as int] == known[buffer.id as int]);
    }
    assert forall|write: BufferWriteView| #[trigger]
        before.upload_fits(write) implies after.upload_fits(write) by {
        assert(after.render_device.buffers[write.buffer.id as int] == known[write.buffer.id as int]);
    }
}

/// Preparing one more record leaves no handle dangling, so long as the device
/// has room to name the new buffer.
pub proof fn lemma_prepare_keeps_wf(render_world: RenderWorldView, id: u64, image: Slime)
    requires
        render_world.wf(),
        render_world.render_device.buffers.len() <= usize::MAX,
    ensures
        world_after_prepare(render_world, id, image).wf(),
{
    let prepared = world_after_prepare(render_world, id, image);
    if !render_world.slime_store.contains_key(id) {
        lemma_layout_len(image);
        lemma_growth_keeps_handles(render_world, prepared);
        assert(prepared.holds_record(next_buffer(render_world.render_device)));
        assert forall|i: int| 0 <= i < prepared.render_queue.len() implies prepared.upload_fits(
            #[trigger] prepared.render_queue[i],
        ) by {
            if i < render_world.render_queue.len() {
                assert(render_world.upload_fits(render_world.render_queue[i]));
            }
        }
    }
}

/// Preparation touches the buffers, the uploads and the cache, and nothing
/// else: the pipeline, its cache, the extracted handle, the published bind
/// group and the device's layouts and bind groups stay as they were.
pub proof fn lemma_prepare_keeps_rest(slimes: Seq<Slime>, n: nat, render_world: RenderWorldView)
    ensures
        ({
            let prepared = world_after_prepare_upto(slimes, n, render_world);
            &&& prepared.slime_pipeline == render_world.slime_pipeline
            &&& prepared.pipeline_cache == render_world.pipeline_cache
            &&& prepared.slime_handle == render_world.slime_handle
            &&& prepared.slime_bind_group == render_world.slime_bind_group
            &&& prepared.render_device.bind_group_layouts
                == render_world.render_device.bind_group_layouts
            &&& prepared.render_device.bind_groups == render_world.render_device.bind_groups
        }),
    decreases n,
{
    if n > 0 {
        lemma_prepare_keeps_rest(slimes, (n - 1) as nat, render_world);
    }
}

/// A record is prepared once. What the cache held before preparation it
/// holds unchanged afterwards.
pub proof fn lemma_prepare_keeps_prepared(
    slimes: Seq<Slime>,
    n: nat,
    render_world: RenderWorldView,
    id: u64,
)
    requires
        render_world.slime_store.contains_key(id),
    ensures
        ({
            let prepared = world_after_prepare_upto(slimes, n, render_world);
            &&& prepared.slime_store.contains_key(id)
            &&& prepared.slime_store[id] == render_world.slime_store[id]
        }),
    decreases n,
{
    if n > 0 {
        lemma_prepare_keeps_prepared(slimes, (n - 1) as nat, render_world, id);
    }
}

/// After preparation has seen the first `n` records, the cache holds a
/// prepared record for each of them.
pub proof fn lemma_prepare_covers(
    slimes: Seq<Slime>,
    n: nat,
    render_world: RenderWorldView,
    id: u64,
)
    requires
        id < n <= u64::MAX,
    ensures
        world_after_prepare_upto(slimes, n, render_world).slime_store.contains_key(id),
    decreases n,
{
    if id < n - 1 {
        lemma_prepare_covers(slimes, (n - 1) as nat, render_world, id);
    }
}

} // verus!
