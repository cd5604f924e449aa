//! The application: both worlds, the render graph, the plugin that installs
//! the simulation, and the driver that runs one frame.

use crate::asset::SlimeHandle;
use crate::bind_group::{bind_group_current, bound_buffer, queue_bind_group, world_with_bind_group};
use crate::graph::{
    graph_after_update, graph_with_node, RenderGraph, RenderGraphView, CAMERA_DRIVER, GAME_OF_LIFE,
};
use crate::node::{
    dispatch, lemma_dispatch_iff_ready, pass_of, ready_pipeline, ComputePassCommand, NodeRunError,
    RenderContext, SlimeNode, SlimeState,
};
use crate::pipeline::{pipeline_in, world_with_pipeline, SlimePipeline};
use crate::world::{
    extract_slime, lemma_prepare_covers, lemma_prepare_keeps_rest, prepare_assets,
    world_after_extract, world_after_prepare_all, RenderWorld, RenderWorldView, World, WorldView,
};
use vstd::prelude::*;

verus! {

/// Everything that a frame works on.
#[derive(Debug)]
pub struct App {
    pub world: World,
    pub render_world: RenderWorld,
    pub render_graph: RenderGraph,
}

/// Mathematical content of an [`App`].
pub struct AppView {
    pub world: WorldView,
    pub render_world: RenderWorldView,
    pub render_graph: RenderGraphView,
}

impl View for App {
    type V = AppView;

    open spec fn view(&self) -> AppView {
        AppView {
            world: self.world@,
            render_world: self.render_world@,
            render_graph: self.render_graph@,
        }
    }
}

/// The render world as the nodes of a frame find it: after extraction, then
/// preparation, then the building of the bind group, in that order.
pub open spec fn render_world_after_phases(
    world: WorldView,
    render_world: RenderWorldView,
) -> RenderWorldView {
    world_with_bind_group(world_after_prepare_all(world, world_after_extract(world, render_world)))
}

/// `app` after one frame.
pub open spec fn app_after_frame(app: AppView) -> AppView {
    let render_world = render_world_after_phases(app.world, app.render_world);
    AppView {
        world: app.world,
        render_world,
        render_graph: graph_after_update(app.render_graph, render_world),
    }
}

/// What the execute phase of the frame that starts from `app` does: the
/// commands of the pass it records, if it records one, or the error it stops
/// with.
pub open spec fn pass_of_frame(app: AppView) -> Result<
    Option<Seq<ComputePassCommand>>,
    NodeRunError,
> {
    let after = app_after_frame(app);
    match after.render_graph.slime_node {
        Some(state) => match pass_of(state, after.render_world) {
            Ok(commands) => Ok(Some(commands)),
            Err(error) => Err(error),
        },
        None => Ok(None),
    }
}

impl App {
    /// An application in which nothing has happened yet. Its graph holds the
    /// host's camera driver and nothing else.
    pub fn new() -> (app: App)
        ensures
            app@ == (AppView {
                world: WorldView { slimes: Seq::empty(), slime_handle: None },
                render_world: RenderWorldView::empty(),
                render_graph: RenderGraphView { order: seq![CAMERA_DRIVER@], slime_node: None },
            }),
            app@.render_world.wf(),
            app@.render_graph.order.contains(CAMERA_DRIVER@),
            !app@.render_graph.order.contains(GAME_OF_LIFE@),
    {
        App {
            world: World::new(),
            render_world: RenderWorld::new(),
            render_graph: RenderGraph::new(),
        }
    }

    /// Runs one frame. The phases run in a fixed order, each to its end
    /// before the next: extraction, preparation, the building of the bind
    /// group, the update phase of the graph's nodes, their execute phase.
    /// None of them waits for anything. What the execute phase records goes
    /// to `render_context`.
    pub fn update(&mut self, render_context: &mut RenderContext) -> (result: Result<
        (),
        NodeRunError,
    >)
        ensures
            final(self)@ == app_after_frame(old(self)@),
            old(self)@.render_world.wf() ==> final(self)@.render_world.wf(),
            match pass_of_frame(old(self)@) {
                Ok(Some(commands)) => result is Ok
                    && final(render_context)@ == old(render_context)@.push(commands),
                Ok(None) => result is Ok && final(render_context)@ == old(render_context)@,
                Err(error) => result == Err::<(), NodeRunError>(error)
                    && final(render_context)@ == old(render_context)@,
            },
    {
        extract_slime(&self.world, &mut self.render_world);
        prepare_assets(&self.world, &mut self.render_world);
        queue_bind_group(&mut self.render_world);
        self.render_graph.update(&self.render_world);
        self.render_graph.run(render_context, &self.render_world)
    }
}

/// The phases ahead of the nodes leave the pipeline and its cache alone: the
/// nodes of a frame find the pipeline as ready as it was when the frame began.
pub proof fn lemma_phases_keep_pipeline(world: WorldView, render_world: RenderWorldView)
    ensures
        ready_pipeline(render_world_after_phases(world, render_world)) == ready_pipeline(
            render_world,
        ),
        render_world_after_phases(world, render_world).slime_pipeline
            == render_world.slime_pipeline,
{
    let extracted = world_after_extract(world, render_world);
    lemma_prepare_keeps_rest(world.slimes, world.slimes.len(), extracted);
}

/// In every frame of an application whose pipeline is set up, the nodes find
/// the bind group up to date: once the record behind the extracted handle has
/// been prepared, the published bind group exposes the buffer that
/// preparation produced for it, and the whole of it at binding 0.
pub proof fn lemma_frame_bind_group_current(app: App)
    requires
        app@.render_world.slime_pipeline is Some,
    ensures
        bind_group_current(app_after_frame(app@).render_world),
{
    let extracted = world_after_extract(app@.world, app@.render_world);
    let prepared = world_after_prepare_all(app@.world, extracted);
    lemma_prepare_keeps_rest(app@.world.slimes, app@.world.slimes.len(), extracted);
    let count = app.render_world.render_device.bind_groups.len();
    assert(prepared.render_device.bind_groups.len() == count);
}

/// In a frame of an application whose pipeline is set up and whose current
/// handle names a record of the asset table, the nodes find that record
/// prepared and bound, however many records were added since the last frame
/// and whichever handle was current before.
pub proof fn lemma_frame_binds_current_record(app: App, handle: SlimeHandle)
    requires
        app@.render_world.slime_pipeline is Some,
        app@.world.slime_handle == Some(handle),
        handle.0 < app@.world.slimes.len(),
    ensures
        ({
            let after = app_after_frame(app@).render_world;
            &&& after.slime_handle == Some(handle)
            &&& after.slime_store.contains_key(handle.0)
            &&& bound_buffer(after) == Some(after.slime_store[handle.0].buffer)
        }),
{
    let extracted = world_after_extract(app@.world, app@.render_world);
    app.world.slimes.lemma_len_bounded();
    lemma_prepare_keeps_rest(app@.world.slimes, app@.world.slimes.len(), extracted);
    lemma_prepare_covers(app@.world.slimes, app@.world.slimes.len(), extracted, handle.0);
    lemma_frame_bind_group_current(app);
}

/// In a frame in which the nodes find a bind group, the execute phase records
/// a dispatch exactly if the update phase found the pipeline ready.
pub proof fn lemma_frame_dispatches_iff_ready(app: AppView)
    requires
        app.render_graph.slime_node is Some,
        render_world_after_phases(app.world, app.render_world).slime_bind_group is Some,
    ensures
        (pass_of_frame(app) matches Ok(Some(commands)) && commands.contains(dispatch()))
            <==> ready_pipeline(app.render_world) is Some,
{
    let render_world = render_world_after_phases(app.world, app.render_world);
    lemma_phases_keep_pipeline(app.world, app.render_world);
    lemma_dispatch_iff_ready(app.render_graph.slime_node->0, render_world);
}

/// `app` after [`SlimeComputePlugin::build`].
pub open spec fn app_with_plugin(app: AppView) -> AppView {
    AppView {
        world: app.world,
        render_world: RenderWorldView {
            slime_pipeline: Some(pipeline_in(app.render_world)),
            ..world_with_pipeline(app.render_world)
        },
        render_graph: match graph_with_node(
            app.render_graph,
            GAME_OF_LIFE@,
            SlimeState::Loading,
            CAMERA_DRIVER@,
        ) {
            Ok(graph) => graph,
            Err(_) => app.render_graph,
        },
    }
}

/// Installs the simulation in an application.
#[derive(Clone, Copy, Debug, Default)]
pub struct SlimeComputePlugin;

impl SlimeComputePlugin {
    /// Sets up the pipeline in the render world and adds the simulation's
    /// node, loading, to the graph, so that it runs directly ahead of the
    /// camera driver.
    ///
    /// The graph must hold the camera driver, and no node of the simulation's
    /// name yet.
    pub fn build(&self, app: &mut App)
        requires
            old(app)@.render_graph.order.contains(CAMERA_DRIVER@),
            !old(app)@.render_graph.order.contains(GAME_OF_LIFE@),
        ensures
            final(app)@ == app_with_plugin(old(app)@),
            old(app)@.render_world.wf() ==> final(app)@.render_world.wf(),
    {
        let pipeline = SlimePipeline::from_world(&mut app.render_world);
        app.render_world.slime_pipeline = Some(pipeline);
        let added = app.render_graph.add_node_before(
            GAME_OF_LIFE,
            SlimeNode::default(),
            CAMERA_DRIVER,
        );
        assert(added is Ok);
    }
}

} // verus!
