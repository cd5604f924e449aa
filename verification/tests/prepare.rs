use slime_sim::asset::{Assets, GpuSlime, RenderAssets, SlimeHandle};
use slime_sim::device::{Buffer, BufferDescriptor, BufferUsages, RenderDevice, RenderQueue};
use slime_sim::record::Slime;
use slime_sim::world::{
    extract_slime, prepare_assets, prepare_slime, setup, RenderWorld, World,
};

#[test]
fn prepared_buffer_holds_one_record() {
    let mut render_device = RenderDevice::new();
    let mut render_queue = RenderQueue::new();
    let image = Slime::new(0.5f32.to_bits());
    let prepared = Slime::prepare_asset(image, &mut render_device, &mut render_queue);
    assert_eq!(prepared, GpuSlime { buffer: Buffer { id: 0 } });
    assert_eq!(
        render_device.buffers,
        vec![BufferDescriptor {
            usage: BufferUsages { storage: true, copy_dst: true },
            size: 16,
            mapped_at_creation: true,
        }]
    );
    assert!(render_device.bind_group_layouts.is_empty());
    assert!(render_device.bind_groups.is_empty());
}

#[test]
fn prepared_record_is_uploaded_whole_at_offset_zero() {
    let mut render_device = RenderDevice::new();
    let mut render_queue = RenderQueue::new();
    let image = Slime::new(0.5f32.to_bits());
    Slime::prepare_asset(image, &mut render_device, &mut render_queue);
    assert_eq!(render_queue.writes.len(), 1);
    let write = &render_queue.writes[0];
    assert_eq!(write.buffer, Buffer { id: 0 });
    assert_eq!(write.offset, 0);
    assert_eq!(write.data, image.to_bytes());
    assert_eq!(write.data.len() as u64, render_device.buffers[0].size);
}

#[test]
fn each_preparation_gets_a_buffer_of_its_own() {
    let mut render_device = RenderDevice::new();
    let mut render_queue = RenderQueue::new();
    let first = Slime::prepare_asset(Slime::new(1), &mut render_device, &mut render_queue);
    let second = Slime::prepare_asset(Slime::new(2), &mut render_device, &mut render_queue);
    assert_eq!(first.buffer, Buffer { id: 0 });
    assert_eq!(second.buffer, Buffer { id: 1 });
    assert_eq!(render_queue.writes[0].data, Slime::new(1).to_bytes());
    assert_eq!(render_queue.writes[1].data, Slime::new(2).to_bytes());
    assert_eq!(render_queue.writes[1].buffer, second.buffer);
}

#[test]
fn asset_table_generates_identifiers_in_order() {
    let mut slimes = Assets::new();
    assert_eq!(slimes.len(), 0);
    assert_eq!(slimes.add(Slime::new(10)), SlimeHandle(0));
    assert_eq!(slimes.add(Slime::new(20)), SlimeHandle(1));
    assert_eq!(slimes.len(), 2);
    assert_eq!(slimes.get(SlimeHandle(0)), Some(Slime::new(10)));
    assert_eq!(slimes.get(SlimeHandle(1)), Some(Slime::new(20)));
    assert_eq!(slimes.get(SlimeHandle(2)), None);
    assert_eq!(slimes.get(SlimeHandle(u64::MAX)), None);
}

#[test]
fn cache_answers_absence_with_none() {
    let mut slime_store = RenderAssets::new();
    assert_eq!(slime_store.get(SlimeHandle(0)), None);
    slime_store.insert(SlimeHandle(3), GpuSlime { buffer: Buffer { id: 5 } });
    assert_eq!(slime_store.get(SlimeHandle(3)), Some(GpuSlime { buffer: Buffer { id: 5 } }));
    assert_eq!(slime_store.get(SlimeHandle(0)), None);
    slime_store.insert(SlimeHandle(3), GpuSlime { buffer: Buffer { id: 6 } });
    assert_eq!(slime_store.get(SlimeHandle(3)), Some(GpuSlime { buffer: Buffer { id: 6 } }));
}

#[test]
fn setup_adds_the_default_record_and_points_at_it() {
    let mut world = World::new();
    assert_eq!(world.slime_handle, None);
    setup(&mut world);
    assert_eq!(world.slime_handle, Some(SlimeHandle(0)));
    assert_eq!(world.slimes.len(), 1);
    assert_eq!(world.slimes.get(SlimeHandle(0)), Some(Slime::default()));
}

#[test]
fn extraction_copies_the_handle_only() {
    let mut world = World::new();
    let mut render_world = RenderWorld::new();
    setup(&mut world);
    extract_slime(&world, &mut render_world);
    assert_eq!(render_world.slime_handle, Some(SlimeHandle(0)));
    assert_eq!(render_world.slime_store.get(SlimeHandle(0)), None);
    assert!(render_world.render_device.buffers.is_empty());
    assert!(render_world.render_queue.writes.is_empty());
    assert_eq!(render_world.slime_bind_group, None);
}

#[test]
fn extraction_without_a_handle_keeps_the_last_one() {
    let mut world = World::new();
    let mut render_world = RenderWorld::new();
    extract_slime(&world, &mut render_world);
    assert_eq!(render_world.slime_handle, None);
    setup(&mut world);
    extract_slime(&world, &mut render_world);
    world.slime_handle = None;
    extract_slime(&world, &mut render_world);
    assert_eq!(render_world.slime_handle, Some(SlimeHandle(0)));
}

#[test]
fn extraction_follows_the_latest_handle() {
    let mut world = World::new();
    let mut render_world = RenderWorld::new();
    let first = world.slimes.add(Slime::new(1));
    let second = world.slimes.add(Slime::new(2));
    world.slime_handle = Some(first);
    extract_slime(&world, &mut render_world);
    assert_eq!(render_world.slime_handle, Some(first));
    world.slime_handle = Some(second);
    extract_slime(&world, &mut render_world);
    assert_eq!(render_world.slime_handle, Some(second));
}

#[test]
fn preparation_covers_every_record_once() {
    let mut world = World::new();
    let mut render_world = RenderWorld::new();
    world.slimes.add(Slime::new(0.5f32.to_bits()));
    world.slimes.add(Slime::new(1.5f32.to_bits()));
    prepare_assets(&world, &mut render_world);
    let store = &render_world.slime_store;
    assert_eq!(store.get(SlimeHandle(0)), Some(GpuSlime { buffer: Buffer { id: 0 } }));
    assert_eq!(store.get(SlimeHandle(1)), Some(GpuSlime { buffer: Buffer { id: 1 } }));
    assert_eq!(render_world.render_device.buffers.len(), 2);
    assert_eq!(render_world.render_queue.writes.len(), 2);
    assert_eq!(render_world.render_queue.writes[0].data, Slime::new(0.5f32.to_bits()).to_bytes());
    assert_eq!(render_world.render_queue.writes[1].data, Slime::new(1.5f32.to_bits()).to_bytes());

    // A second round finds nothing to do; a third record gets the next buffer.
    prepare_assets(&world, &mut render_world);
    assert_eq!(render_world.render_device.buffers.len(), 2);
    assert_eq!(render_world.render_queue.writes.len(), 2);
    world.slimes.add(Slime::new(7));
    prepare_assets(&world, &mut render_world);
    let store = &render_world.slime_store;
    assert_eq!(store.get(SlimeHandle(0)), Some(GpuSlime { buffer: Buffer { id: 0 } }));
    assert_eq!(store.get(SlimeHandle(2)), Some(GpuSlime { buffer: Buffer { id: 2 } }));
    assert_eq!(render_world.render_queue.writes.len(), 3);
    assert_eq!(render_world.render_queue.writes[2].buffer, Buffer { id: 2 });
}

#[test]
fn preparation_of_an_empty_table_does_nothing() {
    let world = World::new();
    let mut render_world = RenderWorld::new();
    prepare_assets(&world, &mut render_world);
    assert!(render_world.render_device.buffers.is_empty());
    assert!(render_world.render_queue.writes.is_empty());
    assert_eq!(render_world.slime_store.get(SlimeHandle(0)), None);
}

#[test]
fn record_is_prepared_once() {
    let mut render_world = RenderWorld::new();
    prepare_slime(&mut render_world, SlimeHandle(4), &Slime::new(1));
    assert_eq!(
        render_world.slime_store.get(SlimeHandle(4)),
        Some(GpuSlime { buffer: Buffer { id: 0 } })
    );
    // The cache keeps what it has, whatever the record holds by now.
    prepare_slime(&mut render_world, SlimeHandle(4), &Slime::new(2));
    assert_eq!(
        render_world.slime_store.get(SlimeHandle(4)),
        Some(GpuSlime { buffer: Buffer { id: 0 } })
    );
    assert_eq!(render_world.render_device.buffers.len(), 1);
    assert_eq!(render_world.render_queue.writes.len(), 1);
    assert_eq!(render_world.render_queue.writes[0].data, Slime::new(1).to_bytes());
}
