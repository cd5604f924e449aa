use slime_sim::device::{BindGroupLayout, BindGroupLayoutEntry, BufferBindingType, ShaderStages};
use slime_sim::pipeline::{
    CachedComputePipelineId, CachedPipelineState, ComputePipeline, ComputePipelineDescriptor,
    PipelineCache, ENTRY_POINT, SHADER_PATH,
};
use slime_sim::world::RenderWorld;
use slime_sim::SlimePipeline;

fn state_of(cache: &PipelineCache, id: usize) -> String {
    format!("{:?}", cache.get_compute_pipeline_state(CachedComputePipelineId(id)))
}

#[test]
fn pipeline_layout_is_one_storage_buffer_for_compute() {
    let mut world = RenderWorld::new();
    let pipeline = SlimePipeline::from_world(&mut world);
    assert_eq!(pipeline.texture_bind_group_layout, BindGroupLayout { id: 0 });
    assert_eq!(world.render_device.bind_group_layouts.len(), 1);
    assert_eq!(
        world.render_device.bind_group_layouts[0].entries,
        vec![BindGroupLayoutEntry {
            binding: 0,
            visibility: ShaderStages { vertex: false, fragment: false, compute: true },
            ty: BufferBindingType::Storage { read_only: false },
            has_dynamic_offset: false,
            min_binding_size: Some(16),
            count: None,
        }]
    );
}

#[test]
fn pipeline_is_queued_with_shader_and_entry_point() {
    let mut world = RenderWorld::new();
    let pipeline = SlimePipeline::from_world(&mut world);
    assert_eq!(pipeline.update_pipeline, CachedComputePipelineId(0));
    assert_eq!(SHADER_PATH, "shaders/simple.wgsl");
    assert_eq!(ENTRY_POINT, "update");
    assert_eq!(state_of(&world.pipeline_cache, 0), "Some(Queued)");
    assert_eq!(world.pipeline_cache.get_compute_pipeline(pipeline.update_pipeline), None);
}

#[test]
fn from_world_touches_the_layouts_and_the_cache_only() {
    let mut world = RenderWorld::new();
    SlimePipeline::from_world(&mut world);
    assert!(world.render_device.buffers.is_empty());
    assert!(world.render_device.bind_groups.is_empty());
    assert!(world.render_queue.writes.is_empty());
    assert_eq!(world.slime_pipeline, None);
    assert_eq!(world.slime_handle, None);
    assert_eq!(world.slime_bind_group, None);
}

#[test]
fn second_pipeline_gets_the_next_identifiers() {
    let mut world = RenderWorld::new();
    let first = SlimePipeline::from_world(&mut world);
    let second = SlimePipeline::from_world(&mut world);
    assert_eq!(first.texture_bind_group_layout.id, 0);
    assert_eq!(second.texture_bind_group_layout.id, 1);
    assert_eq!(second.update_pipeline, CachedComputePipelineId(1));
}

#[test]
fn cache_reports_the_latest_state() {
    let mut cache = PipelineCache::new();
    let id = cache.queue_compute_pipeline(ComputePipelineDescriptor {
        layout: Some(vec![BindGroupLayout { id: 4 }]),
        shader: "shaders/other.wgsl",
        shader_defs: vec!["FAST".to_string()],
        entry_point: "main",
    });
    assert_eq!(id, CachedComputePipelineId(0));
    assert_eq!(state_of(&cache, 0), "Some(Queued)");
    cache.set_compute_pipeline_state(id, CachedPipelineState::Compiling);
    assert_eq!(state_of(&cache, 0), "Some(Compiling)");
    assert_eq!(cache.get_compute_pipeline(id), None);
    cache.set_compute_pipeline_state(id, CachedPipelineState::Ready(ComputePipeline { id: 9 }));
    assert_eq!(cache.get_compute_pipeline(id), Some(ComputePipeline { id: 9 }));
    cache.set_compute_pipeline_state(
        id,
        CachedPipelineState::Failed("no such entry point".to_string()),
    );
    assert_eq!(state_of(&cache, 0), "Some(Failed(\"no such entry point\"))");
    assert_eq!(cache.get_compute_pipeline(id), None);
}

#[test]
fn cache_knows_nothing_of_unqueued_pipelines() {
    let mut cache = PipelineCache::new();
    assert_eq!(state_of(&cache, 0), "None");
    assert_eq!(cache.get_compute_pipeline(CachedComputePipelineId(0)), None);
    cache.set_compute_pipeline_state(
        CachedComputePipelineId(3),
        CachedPipelineState::Ready(ComputePipeline { id: 1 }),
    );
    assert_eq!(state_of(&cache, 3), "None");
    assert_eq!(cache.get_compute_pipeline(CachedComputePipelineId(3)), None);
}

#[test]
fn report_for_one_pipeline_leaves_the_others() {
    let mut world = RenderWorld::new();
    let first = SlimePipeline::from_world(&mut world);
    let second = SlimePipeline::from_world(&mut world);
    world.pipeline_cache.set_compute_pipeline_state(
        second.update_pipeline,
        CachedPipelineState::Ready(ComputePipeline { id: 2 }),
    );
    assert_eq!(world.pipeline_cache.get_compute_pipeline(first.update_pipeline), None);
    assert_eq!(
        world.pipeline_cache.get_compute_pipeline(second.update_pipeline),
        Some(ComputePipeline { id: 2 })
    );
}
