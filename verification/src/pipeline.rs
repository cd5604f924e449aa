//! The compute pipeline: its layout, its compilation request, and the cache
//! that tracks how far compilation has come.

use crate::device::{
    BindGroupLayout, BindGroupLayoutDescriptor, BindGroupLayoutEntry, BufferBindingType,
    RenderDeviceView, ShaderStages,
};
use crate::record::SLIME_SIZE;
use crate::world::{lemma_growth_keeps_handles, RenderWorld, RenderWorldView};
use vstd::prelude::*;

verus! {

/// Path of the shader that holds the compute kernel.
pub const SHADER_PATH: &'static str = "shaders/simple.wgsl";

/// Name of the kernel's entry point in that shader.
pub const ENTRY_POINT: &'static str = "update";

/// What the cache needs to know to compile a compute pipeline.
#[derive(Debug)]
pub struct ComputePipelineDescriptor {
    /// The bind group layouts of the pipeline, by group index; `None` leaves
    /// them to be derived from the shader.
    pub layout: Option<Vec<BindGroupLayout>>,
    /// Path of the shader source.
    pub shader: &'static str,
    /// Preprocessor definitions handed to the shader.
    pub shader_defs: Vec<String>,
    /// Name of the function that the pipeline runs.
    pub entry_point: &'static str,
}

/// Mathematical content of a [`ComputePipelineDescriptor`].
pub struct ComputePipelineDescriptorView {
    pub layout: Option<Seq<BindGroupLayout>>,
    pub shader: Seq<char>,
    pub shader_defs: Seq<Seq<char>>,
    pub entry_point: Seq<char>,
}

impl View for ComputePipelineDescriptor {
    type V = ComputePipelineDescriptorView;

    open spec fn view(&self) -> ComputePipelineDescriptorView {
        ComputePipelineDescriptorView {
            layout: match self.layout {
                Some(layout) => Some(layout@),
                None => None,
            },
            shader: self.shader@,
            shader_defs: Seq::new(self.shader_defs@.len(), |i: int| self.shader_defs@[i]@),
            entry_point: self.entry_point@,
        }
    }
}

/// A compiled pipeline, as the backend names it.
#[derive(Clone, Copy, Debug, PartialEq, Eq, Structural)]
pub struct ComputePipeline {
    pub id: u64,
}

/// How far the compilation of one pipeline has come.
#[derive(Debug)]
pub enum CachedPipelineState {
    /// Waiting to be compiled.
    Queued,
    /// Being compiled.
    Compiling,
    /// Compiled and ready to be bound.
    Ready(ComputePipeline),
    /// Compilation failed, for the reason given.
    Failed(String),
}

/// Mathematical content of a [`CachedPipelineState`].
pub enum CachedPipelineStateView {
    Queued,
    Compiling,
    Ready(ComputePipeline),
    Failed(Seq<char>),
}

impl View for CachedPipelineState {
    type V = CachedPipelineStateView;

    open spec fn view(&self) -> CachedPipelineStateView {
        match self {
            CachedPipelineState::Queued => CachedPipelineStateView::Queued,
            CachedPipelineState::Compiling => CachedPipelineStateView::Compiling,
            CachedPipelineState::Ready(pipeline) => CachedPipelineStateView::Ready(*pipeline),
            CachedPipelineState::Failed(reason) => CachedPipelineStateView::Failed(reason@),
        }
    }
}

/// Identifies one pipeline of a [`PipelineCache`]: its position in the cache.
#[derive(Clone, Copy, Debug, PartialEq, Eq, Structural)]
pub struct CachedComputePipelineId(pub usize);

/// One pipeline of the cache: what was asked for, and how far it has come.
#[derive(Debug)]
pub struct CachedPipeline {
    pub descriptor: ComputePipelineDescriptor,
    pub state: CachedPipelineState,
}

/// Mathematical content of a [`CachedPipeline`].
pub struct CachedPipelineView {
    pub descriptor: ComputePipelineDescriptorView,
    pub state: CachedPipelineStateView,
}

impl View for CachedPipeline {
    type V = CachedPipelineView;

    open spec fn view(&self) -> CachedPipelineView {
        CachedPipelineView { descriptor: self.descriptor@, state: self.state@ }
    }
}

/// Every pipeline that was queued for compilation, oldest first, each with
/// the latest state that was reported for it.
///
/// Compilation runs elsewhere, on its own schedule. The cache never waits for
/// it: a query answers with the state as last reported.
#[derive(Debug)]
pub struct PipelineCache {
    pub pipelines: Vec<CachedPipeline>,
}

impl View for PipelineCache {
    type V = Seq<CachedPipelineView>;

    open spec fn view(&self) -> Seq<CachedPipelineView> {
        Seq::new(self.pipelines@.len(), |i: int| self.pipelines@[i]@)
    }
}

/// The state of pipeline `id` in `cache`, if the cache holds such a pipeline.
pub open spec fn compilation_state(
    cache: Seq<CachedPipelineView>,
    id: CachedComputePipelineId,
) -> Option<CachedPipelineStateView> {
    if id.0 < cache.len() {
        Some(cache[id.0 as int].state)
    } else {
        None
    }
}

/// The compiled pipeline `id` of `cache`, if compilation has succeeded.
pub open spec fn compiled_pipeline(
    cache: Seq<CachedPipelineView>,
    id: CachedComputePipelineId,
) -> Option<ComputePipeline> {
    match compilation_state(cache, id) {
        Some(CachedPipelineStateView::Ready(pipeline)) => Some(pipeline),
        _ => None,
    }
}

/// `cache` with `state` reported for pipeline `id`; unchanged where it holds
/// no such pipeline.
pub open spec fn with_compilation_state(
    cache: Seq<CachedPipelineView>,
    id: CachedComputePipelineId,
    state: CachedPipelineStateView,
) -> Seq<CachedPipelineView> {
    if id.0 < cache.len() {
        cache.update(
            id.0 as int,
            CachedPipelineView { descriptor: cache[id.0 as int].descriptor, state },
        )
    } else {
        cache
    }
}

impl PipelineCache {
    /// A cache without pipelines.
    pub fn new() -> (cache: PipelineCache)
        ensures
            cache@ == Seq::<CachedPipelineView>::empty(),
    {
        PipelineCache { pipelines: Vec::new() }
    }

    /// Queues a pipeline for compilation and hands out its identifier.
    pub fn queue_compute_pipeline(&mut self, descriptor: ComputePipelineDescriptor) -> (id:
        CachedComputePipelineId)
        ensures
            id.0 == old(self)@.len(),
            final(self)@ == old(self)@.push(
                CachedPipelineView {
                    descriptor: descriptor@,
                    state: CachedPipelineStateView::Queued,
                },
            ),
    {
        let id = CachedComputePipelineId(self.pipelines.len());
        self.pipelines.push(CachedPipeline { descriptor, state: CachedPipelineState::Queued });
        assert(self@ =~= old(self)@.push(
            CachedPipelineView { descriptor: descriptor@, state: CachedPipelineStateView::Queued },
        ));
        id
    }

    /// The state last reported for pipeline `id`, or `None` where the cache
    /// holds no such pipeline. Never waits.
    pub fn get_compute_pipeline_state(&self, id: CachedComputePipelineId) -> (state: Option<
        &CachedPipelineState,
    >)
        ensures
            match state {
                Some(state) => compilation_state(self@, id) == Some(state@),
                None => compilation_state(self@, id) is None,
            },
    {
        if id.0 < self.pipelines.len() {
            Some(&self.pipelines[id.0].state)
        } else {
            None
        }
    }

    /// The compiled pipeline `id`, or `None` while there is none.
    pub fn get_compute_pipeline(&self, id: CachedComputePipelineId) -> (pipeline: Option<
        ComputePipeline,
    >)
        ensures
            pipeline == compiled_pipeline(self@, id),
    {
        match self.get_compute_pipeline_state(id) {
            Some(CachedPipelineState::Ready(pipeline)) => Some(*pipeline),
            _ => None,
        }
    }

    /// Reports `state` for pipeline `id`. A report for a pipeline that the
    /// cache does not hold is dropped.
    pub fn set_compute_pipeline_state(
        &mut self,
        id: CachedComputePipelineId,
        state: CachedPipelineState,
    )
        ensures
            final(self)@ == with_compilation_state(old(self)@, id, state@),
    {
        if id.0 < self.pipelines.len() {
            self.pipelines[id.0].state = state;
            assert(self@ =~= with_compilation_state(old(self)@, id, state@));
        }
    }
}

/// The pipeline of the simulation: the layout of its one bind group, and the
/// identifier under which its compilation was queued.
#[derive(Clone, Copy, Debug, PartialEq, Eq, Structural)]
pub struct SlimePipeline {
    pub texture_bind_group_layout: BindGroupLayout,
    pub update_pipeline: CachedComputePipelineId,
}

/// The one slot of the simulation's bind group: a read-write storage buffer
/// of at least one record, at binding 0, visible to the compute stage only.
pub open spec fn slime_layout_entry() -> BindGroupLayoutEntry {
    BindGroupLayoutEntry {
        binding: 0,
        visibility: ShaderStages { vertex: false, fragment: false, compute: true },
        ty: BufferBindingType::Storage { read_only: false },
        has_dynamic_offset: false,
        min_binding_size: Some(SLIME_SIZE),
        count: None,
    }
}

/// The compilation request of the simulation's pipeline over `layout`.
pub open spec fn update_pipeline_descriptor(
    layout: BindGroupLayout,
) -> ComputePipelineDescriptorView {
    ComputePipelineDescriptorView {
        layout: Some(seq![layout]),
        shader: SHADER_PATH@,
        shader_defs: Seq::empty(),
        entry_point: ENTRY_POINT@,
    }
}

/// The pipeline that [`SlimePipeline::from_world`] sets up in `world`.
pub open spec fn pipeline_in(world: RenderWorldView) -> SlimePipeline {
    SlimePipeline {
        texture_bind_group_layout: BindGroupLayout {
            id: world.render_device.bind_group_layouts.len() as usize,
        },
        update_pipeline: CachedComputePipelineId(world.pipeline_cache.len() as usize),
    }
}

/// `world` after [`SlimePipeline::from_world`]: one more layout on the device
/// and one more pipeline queued in the cache.
pub open spec fn world_with_pipeline(world: RenderWorldView) -> RenderWorldView {
    RenderWorldView {
        render_device: RenderDeviceView {
            bind_group_layouts: world.render_device.bind_group_layouts.push(
                seq![slime_layout_entry()],
            ),
            ..world.render_device
        },
        pipeline_cache: world.pipeline_cache.push(
            CachedPipelineView {
                descriptor: update_pipeline_descriptor(
                    pipeline_in(world).texture_bind_group_layout,
                ),
                state: CachedPipelineStateView::Queued,
            },
        ),
        ..world
    }
}

impl SlimePipeline {
    /// Sets the pipeline up in `world`: creates the bind group layout on the
    /// device and queues the compilation of the kernel over it. Nothing is
    /// compiled here; the cache reports progress later.
    pub fn from_world(world: &mut RenderWorld) -> (pipeline: SlimePipeline)
        ensures
            pipeline == pipeline_in(old(world)@),
            final(world)@ == world_with_pipeline(old(world)@),
            old(world)@.wf() ==> final(world)@.wf() && (RenderWorldView {
                slime_pipeline: Some(pipeline),
                ..final(world)@
            }).wf(),
    {
        let layout_descriptor = BindGroupLayoutDescriptor {
            entries: vec![
                BindGroupLayoutEntry {
                    binding: 0,
                    visibility: ShaderStages { vertex: false, fragment: false, compute: true },
                    ty: BufferBindingType::Storage { read_only: false },
                    has_dynamic_offset: false,
                    min_binding_size: Some(SLIME_SIZE),
                    count: None,
                },
            ],
        };
        assert(layout_descriptor@ =~= seq![slime_layout_entry()]);
        let texture_bind_group_layout = world.render_device.create_bind_group_layout(
            layout_descriptor,
        );
        let pipeline_descriptor = ComputePipelineDescriptor {
            layout: Some(vec![texture_bind_group_layout]),
            shader: SHADER_PATH,
            shader_defs: Vec::new(),
            entry_point: ENTRY_POINT,
        };
        assert(pipeline_descriptor@ == update_pipeline_descriptor(texture_bind_group_layout)) by {
            assert(pipeline_descriptor@.layout->0 =~= seq![texture_bind_group_layout]);
            assert(pipeline_descriptor@.shader_defs =~= Seq::<Seq<char>>::empty());
        }
        let update_pipeline = world.pipeline_cache.queue_compute_pipeline(pipeline_descriptor);
        let pipeline = SlimePipeline { texture_bind_group_layout, update_pipeline };
        proof {
            if old(world)@.wf() {
                lemma_pipeline_keeps_wf(*old(world));
            }
        }
        pipeline
    }
}

/// Setting the pipeline up leaves no handle dangling, whether or not the
/// new pipeline is then made the world's own.
pub proof fn lemma_pipeline_keeps_wf(world: RenderWorld)
    requires
        world@.wf(),
    ensures
        world_with_pipeline(world@).wf(),
        (RenderWorldView {
            slime_pipeline: Some(pipeline_in(world@)),
            ..world_with_pipeline(world@)
        }).wf(),
{
    let before = world@;
    let after = world_with_pipeline(before);
    let owned = RenderWorldView { slime_pipeline: Some(pipeline_in(before)), ..after };
    let layouts = world.render_device.bind_group_layouts.len();
    assert(before.render_device.bind_group_layouts.len() == layouts);
    let pipelines = world.pipeline_cache.pipelines.len();
    assert(before.pipeline_cache.len() == pipelines);
    lemma_growth_keeps_handles(before, after);
    lemma_growth_keeps_handles(before, owned);
    assert forall|i: int| 0 <= i < after.pipeline_cache.len() implies after.pipeline_resolves(
        #[trigger] after.pipeline_cache[i],
    ) && owned.pipeline_resolves(after.pipeline_cache[i]) by {
        if i < pipelines {
            assert(before.pipeline_resolves(before.pipeline_cache[i]));
        }
    }
    assert forall|i: int|
        0 <= i < after.render_device.bind_groups.len() implies after.bind_group_resolves(
        #[trigger] after.render_device.bind_groups[i],
    ) && owned.bind_group_resolves(after.render_device.bind_groups[i]) by {
        assert(before.bind_group_resolves(before.render_device.bind_groups[i]));
    }
}

/// A report on the state of a pipeline leaves no handle dangling: it changes
/// how far the pipeline has come, not what it is made of.
pub proof fn lemma_report_keeps_wf(
    world: RenderWorldView,
    id: CachedComputePipelineId,
    state: CachedPipelineStateView,
)
    requires
        world.wf(),
    ensures
        (RenderWorldView {
            pipeline_cache: with_compilation_state(world.pipeline_cache, id, state),
            ..world
        }).wf(),
{
    let after = RenderWorldView {
        pipeline_cache: with_compilation_state(world.pipeline_cache, id, state),
        ..world
    };
    lemma_growth_keeps_handles(world, after);
    assert forall|i: int| 0 <= i < after.pipeline_cache.len() implies after.pipeline_resolves(
        #[trigger] after.pipeline_cache[i],
    ) by {
        assert(world.pipeline_resolves(world.pipeline_cache[i]));
    }
}

} // verus!
