use slime_sim::bind_group::SlimeBindGroup;
use slime_sim::device::BindGroup;
use slime_sim::node::{
    ComputePassCommand, NodeRunError, RenderContext, SlimeNode, SlimeState, NO_SLIMES,
    WORKGROUP_SIZE,
};
use slime_sim::pipeline::{CachedPipelineState, ComputePipeline};
use slime_sim::world::RenderWorld;
use slime_sim::SlimePipeline;

fn world_with_pipeline() -> RenderWorld {
    let mut world = RenderWorld::new();
    let pipeline = SlimePipeline::from_world(&mut world);
    world.slime_pipeline = Some(pipeline);
    world
}

fn report(world: &mut RenderWorld, state: CachedPipelineState) {
    let id = world.slime_pipeline.unwrap().update_pipeline;
    world.pipeline_cache.set_compute_pipeline_state(id, state);
}

fn ready() -> CachedPipelineState {
    CachedPipelineState::Ready(ComputePipeline { id: 42 })
}

fn passes(render_context: &RenderContext) -> Vec<Vec<ComputePassCommand>> {
    render_context.command_encoder.iter().map(|pass| pass.commands.clone()).collect()
}

const BIND: ComputePassCommand =
    ComputePassCommand::SetBindGroup { index: 0, bind_group: BindGroup { id: 5 } };
const PIPELINE: ComputePassCommand =
    ComputePassCommand::SetPipeline { pipeline: ComputePipeline { id: 42 } };
const DISPATCH: ComputePassCommand = ComputePassCommand::DispatchWorkgroups { x: 1, y: 1, z: 1 };

#[test]
fn node_starts_loading() {
    assert_eq!(SlimeNode::default().state(), SlimeState::Loading);
}

#[test]
fn declared_constants() {
    assert_eq!(NO_SLIMES, 100);
    assert_eq!(WORKGROUP_SIZE, 8);
}

#[test]
fn node_waits_while_the_pipeline_is_not_ready() {
    let mut world = world_with_pipeline();
    let mut node = SlimeNode::default();
    node.update(&world);
    assert_eq!(node.state(), SlimeState::Loading);
    report(&mut world, CachedPipelineState::Compiling);
    node.update(&world);
    assert_eq!(node.state(), SlimeState::Loading);
    report(&mut world, CachedPipelineState::Failed("syntax error".to_string()));
    node.update(&world);
    assert_eq!(node.state(), SlimeState::Loading);
}

#[test]
fn node_moves_on_when_the_pipeline_is_ready() {
    let mut world = world_with_pipeline();
    let mut node = SlimeNode::default();
    report(&mut world, ready());
    node.update(&world);
    assert_eq!(node.state(), SlimeState::Update);
}

#[test]
fn node_never_goes_back() {
    let mut world = world_with_pipeline();
    let mut node = SlimeNode::default();
    report(&mut world, ready());
    node.update(&world);
    for state in [
        CachedPipelineState::Queued,
        CachedPipelineState::Compiling,
        CachedPipelineState::Failed("lost device".to_string()),
        ready(),
        CachedPipelineState::Queued,
    ] {
        report(&mut world, state);
        node.update(&world);
        assert_eq!(node.state(), SlimeState::Update);
    }
}

#[test]
fn node_without_a_pipeline_keeps_loading() {
    let world = RenderWorld::new();
    let mut node = SlimeNode::default();
    node.update(&world);
    assert_eq!(node.state(), SlimeState::Loading);
}

#[test]
fn loading_node_records_an_empty_pass() {
    let world = world_with_pipeline();
    let node = SlimeNode::default();
    let mut render_context = RenderContext::new();
    assert_eq!(node.run(&mut render_context, &world), Ok(()));
    assert_eq!(passes(&render_context), vec![vec![]]);
}

#[test]
fn loading_node_binds_without_dispatching() {
    let mut world = world_with_pipeline();
    world.slime_bind_group = Some(SlimeBindGroup(BindGroup { id: 5 }));
    report(&mut world, ready());
    let node = SlimeNode::default();
    let mut render_context = RenderContext::new();
    assert_eq!(node.run(&mut render_context, &world), Ok(()));
    assert_eq!(passes(&render_context), vec![vec![BIND]]);
}

#[test]
fn updating_node_dispatches_one_workgroup_per_axis() {
    let mut world = world_with_pipeline();
    world.slime_bind_group = Some(SlimeBindGroup(BindGroup { id: 5 }));
    report(&mut world, ready());
    let mut node = SlimeNode::default();
    node.update(&world);
    let mut render_context = RenderContext::new();
    assert_eq!(node.run(&mut render_context, &world), Ok(()));
    assert_eq!(passes(&render_context), vec![vec![BIND, PIPELINE, DISPATCH]]);
}

#[test]
fn updating_node_without_bind_group_fails_and_records_nothing() {
    let mut world = world_with_pipeline();
    report(&mut world, ready());
    let mut node = SlimeNode::default();
    node.update(&world);
    let mut render_context = RenderContext::new();
    assert_eq!(node.run(&mut render_context, &world), Err(NodeRunError::MissingBindGroup));
    assert!(render_context.command_encoder.is_empty());
}

#[test]
fn updating_node_never_dispatches_against_an_unready_pipeline() {
    let mut world = world_with_pipeline();
    world.slime_bind_group = Some(SlimeBindGroup(BindGroup { id: 5 }));
    report(&mut world, ready());
    let mut node = SlimeNode::default();
    node.update(&world);
    report(&mut world, CachedPipelineState::Queued);
    node.update(&world);
    let mut render_context = RenderContext::new();
    assert_eq!(node.run(&mut render_context, &world), Ok(()));
    assert_eq!(passes(&render_context), vec![vec![BIND]]);
}

#[test]
fn each_run_opens_a_pass_of_its_own() {
    let mut world = world_with_pipeline();
    world.slime_bind_group = Some(SlimeBindGroup(BindGroup { id: 5 }));
    let mut node = SlimeNode::default();
    let mut render_context = RenderContext::new();
    node.update(&world);
    node.run(&mut render_context, &world).unwrap();
    report(&mut world, ready());
    node.update(&world);
    node.run(&mut render_context, &world).unwrap();
    assert_eq!(passes(&render_context), vec![vec![BIND], vec![BIND, PIPELINE, DISPATCH]]);
}

#[test]
fn dispatch_follows_what_the_update_found() {
    for start_ready in [false, true] {
        for now_ready in [false, true] {
            let mut world = world_with_pipeline();
            world.slime_bind_group = Some(SlimeBindGroup(BindGroup { id: 5 }));
            let mut node = SlimeNode::default();
            if start_ready {
                report(&mut world, ready());
                node.update(&world);
            }
            report(&mut world, if now_ready { ready() } else { CachedPipelineState::Compiling });
            node.update(&world);
            let mut render_context = RenderContext::new();
            node.run(&mut render_context, &world).unwrap();
            let dispatched = render_context.command_encoder[0].commands.contains(&DISPATCH);
            assert_eq!(dispatched, now_ready);
        }
    }
}
