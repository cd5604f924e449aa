//! The bind group that connects the pipeline's layout to the prepared buffer.

use crate::device::{
    BindGroup, BindGroupDescriptor, BindGroupDescriptorView, BindGroupEntry, BindGroupLayout,
    Buffer, BufferBinding, RenderDeviceView,
};
use crate::world::{lemma_growth_keeps_handles, RenderWorld, RenderWorldView};
use vstd::prelude::*;

verus! {

/// The bind group that the compute pass binds at slot 0.
#[derive(Clone, Copy, Debug, PartialEq, Eq, Structural)]
pub struct SlimeBindGroup(pub BindGroup);

/// The one entry of the simulation's bind group: the whole of `buffer`, at
/// binding 0.
pub open spec fn slime_bind_group_entry(buffer: Buffer) -> BindGroupEntry {
    BindGroupEntry { binding: 0, resource: BufferBinding { buffer, offset: 0, size: None } }
}

/// What this frame's bind group is built from: the pipeline's layout and the
/// buffer prepared for the extracted handle. `None` while the pipeline has
/// not been set up, no handle has been extracted, or the record behind the
/// handle has not been prepared.
pub open spec fn bind_group_source(world: RenderWorldView) -> Option<(BindGroupLayout, Buffer)> {
    match (world.slime_pipeline, world.slime_handle) {
        (Some(pipeline), Some(handle)) => if world.slime_store.contains_key(handle.0) {
            Some((pipeline.texture_bind_group_layout, world.slime_store[handle.0].buffer))
        } else {
            None
        },
        _ => None,
    }
}

/// `world` after [`queue_bind_group`]: with a new bind group published where
/// there is something to build it from, unchanged otherwise.
pub open spec fn world_with_bind_group(world: RenderWorldView) -> RenderWorldView {
    match bind_group_source(world) {
        Some((layout, buffer)) => RenderWorldView {
            render_device: RenderDeviceView {
                bind_groups: world.render_device.bind_groups.push(
                    BindGroupDescriptorView {
                        layout,
                        entries: seq![slime_bind_group_entry(buffer)],
                    },
                ),
                ..world.render_device
            },
            slime_bind_group: Some(
                SlimeBindGroup(BindGroup { id: world.render_device.bind_groups.len() as usize }),
            ),
            ..world
        },
        None => world,
    }
}

/// Builds this frame's bind group and publishes it in place of the previous
/// one. Where the pipeline, the handle or the prepared record is missing, the
/// frame builds nothing and the previous bind group, if any, stays.
pub fn queue_bind_group(world: &mut RenderWorld)
    ensures
        final(world)@ == world_with_bind_group(old(world)@),
        old(world)@.wf() ==> final(world)@.wf(),
{
    let (pipeline, slime) = match (&world.slime_pipeline, &world.slime_handle) {
        (Some(pipeline), Some(slime)) => (pipeline, slime),
        _ => { return ; },
    };
    let slime = match world.slime_store.get(*slime) {
        Some(slime) => slime,
        None => { return ; },
    };
    let descriptor = BindGroupDescriptor {
        layout: pipeline.texture_bind_group_layout,
        entries: vec![
            BindGroupEntry {
                binding: 0,
                resource: BufferBinding { buffer: slime.buffer, offset: 0, size: None },
            },
        ],
    };
    assert(descriptor@.entries =~= seq![slime_bind_group_entry(slime.buffer)]);
    let bind_group = world.render_device.create_bind_group(descriptor);
    world.slime_bind_group = Some(SlimeBindGroup(bind_group));
    proof {
        if old(world)@.wf() {
            lemma_queue_keeps_wf(*old(world));
        }
    }
}

/// Building the bind group leaves no handle dangling.
pub proof fn lemma_queue_keeps_wf(world: RenderWorld)
    requires
        world@.wf(),
    ensures
        world_with_bind_group(world@).wf(),
{
    let before = world@;
    let after = world_with_bind_group(before);
    let count = world.render_device.bind_groups.len();
    assert(before.render_device.bind_groups.len() == count);
    match bind_group_source(before) {
        Some((layout, buffer)) => {
            lemma_growth_keeps_handles(before, after);
            let handle = before.slime_handle->0;
            assert(before.slime_store.contains_key(handle.0));
            assert(before.holds_record(buffer));
            assert forall|i: int|
                0 <= i < after.render_device.bind_groups.len() implies after.bind_group_resolves(
                #[trigger] after.render_device.bind_groups[i],
            ) by {
                if i < count {
                    assert(before.bind_group_resolves(before.render_device.bind_groups[i]));
                }
            }
        },
        None => {},
    }
}

/// A bind group that a frame builds in a world without dangling handles
/// matches the layout it is built over. It fills the layout's one slot, at the
/// slot's binding, with a buffer that may be used the way the slot uses it
/// and that is no smaller than the slot asks.
pub proof fn lemma_bind_group_matches_layout(world: RenderWorld)
    requires
        world@.wf(),
        bind_group_source(world@) is Some,
    ensures
        ({
            let after = world_with_bind_group(world@);
            let published = after.slime_bind_group->0;
            let bind_group = after.render_device.bind_groups[published.0.id as int];
            let layout = after.render_device.bind_group_layouts[bind_group.layout.id as int];
            let exposed = bind_group.entries[0].resource;
            let buffer = after.render_device.buffers[exposed.buffer.id as int];
            &&& layout.len() == 1
            &&& bind_group.entries.len() == 1
            &&& bind_group.entries[0].binding == layout[0].binding
            &&& layout[0].ty is Storage
            &&& buffer.usage.storage
            &&& layout[0].min_binding_size matches Some(least)
            &&& exposed.offset + least <= buffer.size
        }),
{
    let before = world@;
    let count = world.render_device.bind_groups.len();
    assert(before.render_device.bind_groups.len() == count);
    let handle = before.slime_handle->0;
    assert(before.slime_store.contains_key(handle.0));
    assert(before.holds_record(before.slime_store[handle.0].buffer));
}

/// The buffer that the published bind group exposes at binding 0, if a bind
/// group is published and the device knows it as one with that single entry.
pub open spec fn bound_buffer(world: RenderWorldView) -> Option<Buffer> {
    match world.slime_bind_group {
        Some(bind_group) => {
            let id = bind_group.0.id as int;
            if id < world.render_device.bind_groups.len()
                && world.render_device.bind_groups[id].entries.len() == 1
                && world.render_device.bind_groups[id].entries[0] == slime_bind_group_entry(
                world.render_device.bind_groups[id].entries[0].resource.buffer,
            ) {
                Some(world.render_device.bind_groups[id].entries[0].resource.buffer)
            } else {
                None
            }
        },
        None => None,
    }
}

/// The buffer that preparation last produced for the extracted handle, once
/// it has produced one.
pub open spec fn prepared_buffer(world: RenderWorldView) -> Option<Buffer> {
    match world.slime_handle {
        Some(handle) => if world.slime_store.contains_key(handle.0) {
            Some(world.slime_store[handle.0].buffer)
        } else {
            None
        },
        None => None,
    }
}

/// The published bind group is up to date: once the extracted handle's record
/// has been prepared, the bind group exposes exactly the prepared buffer.
pub open spec fn bind_group_current(world: RenderWorldView) -> bool {
    prepared_buffer(world) is Some ==> bound_buffer(world) == prepared_buffer(world)
}

/// After the bind group was queued in a world whose pipeline is set up, the
/// published bind group exposes the buffer that preparation last produced for
/// the extracted handle, whatever was published before.
pub proof fn lemma_queue_makes_bind_group_current(world: RenderWorld)
    requires
        world@.slime_pipeline is Some,
    ensures
        bind_group_current(world_with_bind_group(world@)),
{
    let count = world.render_device.bind_groups.len();
    assert(world@.render_device.bind_groups.len() == count);
}

} // verus!
