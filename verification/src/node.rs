//! The graph node of the simulation: a two-state machine that waits for the
//! pipeline and then records one dispatch per frame.

use crate::device::BindGroup;
use crate::pipeline::{compiled_pipeline, ComputePipeline};
use crate::world::{RenderWorld, RenderWorldView};
use vstd::prelude::*;

verus! {

/// Number of simulated units. Declared for the kernel's sake; it does not
/// enter the size of the dispatch.
pub const NO_SLIMES: u32 = 100;

/// Threads per workgroup along each axis, as the kernel declares them. It does
/// not enter the size of the dispatch either.
pub const WORKGROUP_SIZE: u32 = 8;

/// Where the node stands.
#[derive(Clone, Copy, Debug, PartialEq, Eq, Structural)]
pub enum SlimeState {
    /// The pipeline has not been seen ready yet.
    Loading,
    /// The pipeline was seen ready; the node dispatches.
    Update,
}

/// One command of a compute pass.
#[derive(Clone, Copy, Debug, PartialEq, Eq, Structural)]
pub enum ComputePassCommand {
    SetBindGroup { index: u32, bind_group: BindGroup },
    SetPipeline { pipeline: ComputePipeline },
    DispatchWorkgroups { x: u32, y: u32, z: u32 },
}

/// A compute pass: its commands, in the order in which they were recorded.
#[derive(Debug)]
pub struct ComputePass {
    pub commands: Vec<ComputePassCommand>,
}

impl View for ComputePass {
    type V = Seq<ComputePassCommand>;

    open spec fn view(&self) -> Seq<ComputePassCommand> {
        self.commands@
    }
}

/// The command stream of one frame: its passes, in the order in which they
/// were opened.
#[derive(Debug)]
pub struct RenderContext {
    pub command_encoder: Vec<ComputePass>,
}

impl View for RenderContext {
    type V = Seq<Seq<ComputePassCommand>>;

    open spec fn view(&self) -> Seq<Seq<ComputePassCommand>> {
        Seq::new(self.command_encoder@.len(), |i: int| self.command_encoder@[i]@)
    }
}

impl RenderContext {
    /// A command stream without passes.
    pub fn new() -> (render_context: RenderContext)
        ensures
            render_context@ == Seq::<Seq<ComputePassCommand>>::empty(),
    {
        RenderContext { command_encoder: Vec::new() }
    }
}

/// Why the node could not record its pass.
#[derive(Clone, Copy, Debug, PartialEq, Eq, Structural)]
pub enum NodeRunError {
    /// The node is ready to dispatch and no bind group is published. The
    /// phases of the frame ran out of order; the host must not go on.
    MissingBindGroup,
}

/// The compiled pipeline of the simulation, if `world` has one: the pipeline
/// has been set up and the cache reports it ready.
pub open spec fn ready_pipeline(world: RenderWorldView) -> Option<ComputePipeline> {
    match world.slime_pipeline {
        Some(pipeline) => compiled_pipeline(world.pipeline_cache, pipeline.update_pipeline),
        None => None,
    }
}

/// The state that follows `state` when the node's update phase finds the
/// pipeline ready, or not.
pub open spec fn next_state(state: SlimeState, ready: bool) -> SlimeState {
    match state {
        SlimeState::Loading => if ready {
            SlimeState::Update
        } else {
            SlimeState::Loading
        },
        SlimeState::Update => SlimeState::Update,
    }
}

/// The size of the one dispatch that a frame records.
pub open spec fn dispatch() -> ComputePassCommand {
    ComputePassCommand::DispatchWorkgroups { x: 1, y: 1, z: 1 }
}

/// What the node's execute phase does in `state` over `world`: the commands
/// of the pass it records, or the error it stops with before recording
/// anything.
pub open spec fn pass_of(state: SlimeState, world: RenderWorldView) -> Result<
    Seq<ComputePassCommand>,
    NodeRunError,
> {
    match (state, world.slime_bind_group) {
        (SlimeState::Loading, None) => Ok(Seq::empty()),
        (SlimeState::Loading, Some(bind_group)) => Ok(
            seq![ComputePassCommand::SetBindGroup { index: 0, bind_group: bind_group.0 }],
        ),
        (SlimeState::Update, None) => Err(NodeRunError::MissingBindGroup),
        (SlimeState::Update, Some(bind_group)) => match ready_pipeline(world) {
            Some(pipeline) => Ok(
                seq![
                    ComputePassCommand::SetBindGroup { index: 0, bind_group: bind_group.0 },
                    ComputePassCommand::SetPipeline { pipeline },
                    dispatch(),
                ],
            ),
            None => Ok(
                seq![ComputePassCommand::SetBindGroup { index: 0, bind_group: bind_group.0 }],
            ),
        },
    }
}

/// Whether an execute phase in `state` over `world` records a dispatch.
pub open spec fn dispatches(state: SlimeState, world: RenderWorldView) -> bool {
    match pass_of(state, world) {
        Ok(commands) => commands.contains(dispatch()),
        Err(_) => false,
    }
}

/// The node of the simulation in the render graph.
#[derive(Debug)]
pub struct SlimeNode {
    state: SlimeState,
}

impl View for SlimeNode {
    type V = SlimeState;

    closed spec fn view(&self) -> SlimeState {
        self.state
    }
}

impl Default for SlimeNode {
    /// A node that waits for the pipeline.
    fn default() -> (node: SlimeNode)
        ensures
            node@ == SlimeState::Loading,
    {
        SlimeNode { state: SlimeState::Loading }
    }
}

impl SlimeNode {
    /// Where the node stands.
    pub fn state(&self) -> (state: SlimeState)
        ensures
            state == self@,
    {
        self.state
    }

    /// The update phase of a frame. While the node is loading it asks the
    /// cache, without waiting, whether the pipeline is ready, and moves on if
    /// it is. A node that has moved on stays where it is.
    pub fn update(&mut self, world: &RenderWorld)
        ensures
            final(self)@ == next_state(old(self)@, ready_pipeline(world@) is Some),
    {
        match self.state {
            SlimeState::Loading => {
                let ready = match &world.slime_pipeline {
                    Some(pipeline) => world.pipeline_cache.get_compute_pipeline(
                        pipeline.update_pipeline,
                    ).is_some(),
                    None => false,
                };
                if ready {
                    self.state = SlimeState::Update;
                }
            },
            SlimeState::Update => {},
        }
    }

    /// The execute phase of a frame. Opens a compute pass on the command
    /// stream, binds the published bind group at slot 0 and, if the node has
    /// seen the pipeline ready and the pipeline still is, binds it and
    /// dispatches one workgroup along each axis. A node that is ready to
    /// dispatch and finds no bind group records nothing and fails.
    pub fn run(&self, render_context: &mut RenderContext, world: &RenderWorld) -> (result: Result<
        (),
        NodeRunError,
    >)
        ensures
            match pass_of(self@, world@) {
                Ok(commands) => result is Ok && final(render_context)@ == old(render_context)@.push(
                    commands,
                ),
                Err(error) => result == Err::<(), NodeRunError>(error) && final(render_context)@
                    == old(render_context)@,
            },
    {
        let mut pass = ComputePass { commands: Vec::new() };
        match (&world.slime_bind_group, self.state) {
            (Some(bind_group), _) => {
                pass.commands.push(
                    ComputePassCommand::SetBindGroup { index: 0, bind_group: bind_group.0 },
                );
            },
            (None, SlimeState::Loading) => {},
            (None, SlimeState::Update) => {
                return Err(NodeRunError::MissingBindGroup);
            },
        }
        match self.state {
            SlimeState::Loading => {},
            SlimeState::Update => {
                let update_pipeline = match &world.slime_pipeline {
                    Some(pipeline) => world.pipeline_cache.get_compute_pipeline(
                        pipeline.update_pipeline,
                    ),
                    None => None,
                };
                match update_pipeline {
                    Some(pipeline) => {
                        pass.commands.push(ComputePassCommand::SetPipeline { pipeline });
                        pass.commands.push(
                            ComputePassCommand::DispatchWorkgroups { x: 1, y: 1, z: 1 },
                        );
                    },
                    None => {},
                }
            },
        }
        proof {
            assert(pass_of(self@, world@) is Ok);
            assert(pass@ =~= pass_of(self@, world@)->Ok_0);
        }
        render_context.command_encoder.push(pass);
        assert(render_context@ =~= old(render_context)@.push(pass@));
        Ok(())
    }
}

/// The state of a node that started in `state` and went through one update
/// phase over each world of `worlds`, in order.
pub open spec fn state_after(state: SlimeState, worlds: Seq<RenderWorldView>) -> SlimeState
    decreases worlds.len(),
{
    if worlds.len() == 0 {
        state
    } else {
        next_state(state_after(state, worlds.drop_last()), ready_pipeline(worlds.last()) is Some)
    }
}

/// A node never goes back. Whatever the cache reports from frame to frame, a
/// node that has reached `Update` after some frames is still there after any
/// number of further frames.
pub proof fn lemma_state_never_regresses(
    state: SlimeState,
    worlds: Seq<RenderWorldView>,
    i: int,
    j: int,
)
    requires
        0 <= i <= j <= worlds.len(),
    ensures
        state_after(state, worlds.take(i)) is Update ==> state_after(state, worlds.take(j))
            is Update,
    decreases j - i,
{
    if i < j {
        lemma_state_never_regresses(state, worlds, i, j - 1);
        assert(worlds.take(j).drop_last() =~= worlds.take(j - 1));
    }
}

/// A node that started loading has reached `Update` exactly if one of its
/// update phases found the pipeline ready.
pub proof fn lemma_update_iff_seen_ready(worlds: Seq<RenderWorldView>)
    ensures
        state_after(SlimeState::Loading, worlds) is Update <==> exists|k: int|
            0 <= k < worlds.len() && ready_pipeline(#[trigger] worlds[k]) is Some,
    decreases worlds.len(),
{
    if worlds.len() > 0 {
        let front = worlds.drop_last();
        lemma_update_iff_seen_ready(front);
        if state_after(SlimeState::Loading, front) is Update {
            let k = choose|k: int|
                0 <= k < front.len() && ready_pipeline(#[trigger] front[k]) is Some;
            assert(ready_pipeline(worlds[k]) is Some);
        } else if ready_pipeline(worlds.last()) is Some {
            assert(ready_pipeline(worlds[worlds.len() - 1]) is Some);
        } else {
            assert forall|k: int| 0 <= k < worlds.len() implies !(ready_pipeline(
                #[trigger] worlds[k],
            ) is Some) by {
                if k < front.len() {
                    assert(front[k] == worlds[k]);
                }
            }
        }
    }
}

/// Within one frame, with a bind group published, the execute phase records a
/// dispatch exactly if the update phase before it found the pipeline ready.
/// This holds from whatever state the node entered the frame in.
pub proof fn lemma_dispatch_iff_ready(state: SlimeState, world: RenderWorldView)
    requires
        world.slime_bind_group is Some,
    ensures
        dispatches(next_state(state, ready_pipeline(world) is Some), world) <==> ready_pipeline(
            world,
        ) is Some,
{
    let after = next_state(state, ready_pipeline(world) is Some);
    match pass_of(after, world) {
        Ok(commands) => {
            if ready_pipeline(world) is Some {
                assert(commands[2] == dispatch());
            }
        },
        Err(_) => {},
    }
}

/// A dispatch, where a frame records one, is the last command of the pass and
/// the only dispatch in it, and it asks for one workgroup along each axis.
pub proof fn lemma_one_dispatch(state: SlimeState, world: RenderWorldView)
    requires
        dispatches(state, world),
    ensures
        pass_of(state, world) matches Ok(commands) && commands.len() == 3 && commands[2]
            == (ComputePassCommand::DispatchWorkgroups { x: 1, y: 1, z: 1 }) && forall|k: int|
            0 <= k < 2 ==> !(#[trigger] commands[k] is DispatchWorkgroups),
{
}

} // verus!
