//! The asset table, the cache of prepared device resources, and the step that
//! turns a record into one.

use crate::device::{
    Buffer, BufferDescriptor, BufferUsages, BufferWriteView, RenderDevice, RenderDeviceView,
    RenderQueue,
};
use crate::record::{Slime, SLIME_SIZE};
use std::collections::HashMap;
use vstd::prelude::*;

verus! {

/// Identifies one record of the asset table. Copying a handle copies the
/// identifier, never the record.
#[derive(Clone, Copy, Debug, PartialEq, Eq, Structural)]
pub struct SlimeHandle(pub u64);

impl SlimeHandle {
    /// The handle as the render side receives it.
    pub fn extract_resource(&self) -> (handle: SlimeHandle)
        ensures
            handle == *self,
    {
        *self
    }
}

/// The asset table: every record that was added, under the identifier that
/// [`Assets::add`] generated for it.
#[derive(Debug)]
pub struct Assets {
    slimes: Vec<Slime>,
}

impl View for Assets {
    type V = Seq<Slime>;

    closed spec fn view(&self) -> Seq<Slime> {
        self.slimes@
    }
}

impl Assets {
    /// An empty table.
    pub fn new() -> (assets: Assets)
        ensures
            assets@ == Seq::<Slime>::empty(),
    {
        Assets { slimes: Vec::new() }
    }

    /// A table holds no more records than can be counted.
    pub proof fn lemma_len_bounded(&self)
        ensures
            self@.len() <= usize::MAX,
    {
        assert(self@.len() == self.slimes.len());
    }

    /// Number of records in the table.
    pub fn len(&self) -> (len: usize)
        ensures
            len == self@.len(),
    {
        self.slimes.len()
    }

    /// Stores `slime` and generates its identifier: the number of records that
    /// were there before.
    pub fn add(&mut self, slime: Slime) -> (handle: SlimeHandle)
        ensures
            handle.0 == old(self)@.len(),
            final(self)@ == old(self)@.push(slime),
    {
        let id = self.slimes.len() as u64;
        self.slimes.push(slime);
        SlimeHandle(id)
    }

    /// The record that `handle` identifies, if the table holds one.
    pub fn get(&self, handle: SlimeHandle) -> (slime: Option<Slime>)
        ensures
            slime == (if handle.0 < self@.len() {
                Some(self@[handle.0 as int])
            } else {
                None
            }),
    {
        if handle.0 < self.slimes.len() as u64 {
            Some(self.slimes[handle.0 as usize])
        } else {
            None
        }
    }
}

/// A record as it lives on the device.
#[derive(Clone, Copy, Debug, PartialEq, Eq, Structural)]
pub struct GpuSlime {
    pub buffer: Buffer,
}

/// The buffer that holds one record: exactly as large as the record, usable as
/// a storage buffer and as the destination of an upload.
pub open spec fn slime_buffer_descriptor() -> BufferDescriptor {
    BufferDescriptor {
        usage: BufferUsages { storage: true, copy_dst: true },
        size: SLIME_SIZE,
        mapped_at_creation: true,
    }
}

/// The device after it has allocated the buffer of one more record.
pub open spec fn device_after_prepare(device: RenderDeviceView) -> RenderDeviceView {
    RenderDeviceView { buffers: device.buffers.push(slime_buffer_descriptor()), ..device }
}

/// The buffer that the next prepared record will get on `device`.
pub open spec fn next_buffer(device: RenderDeviceView) -> Buffer {
    Buffer { id: device.buffers.len() as usize }
}

/// The queue after the whole of `image` was uploaded to the start of `buffer`.
pub open spec fn queue_after_prepare(
    queue: Seq<BufferWriteView>,
    buffer: Buffer,
    image: Slime,
) -> Seq<BufferWriteView> {
    queue.push(BufferWriteView { buffer, offset: 0, data: image.layout() })
}

impl Slime {
    /// The copy of this record that preparation works on. Later changes to the
    /// source do not reach it.
    pub fn extract_asset(&self) -> (image: Slime)
        ensures
            image == *self,
    {
        self.clone()
    }

    /// Brings `image` onto the device: allocates a buffer for it and uploads
    /// the record's bytes to the buffer's start. There is no way for this to
    /// fail short of the device giving out, which is the host's to deal with.
    pub fn prepare_asset(
        image: Slime,
        render_device: &mut RenderDevice,
        render_queue: &mut RenderQueue,
    ) -> (prepared: GpuSlime)
        ensures
            prepared == (GpuSlime { buffer: next_buffer(old(render_device)@) }),
            final(render_device)@ == device_after_prepare(old(render_device)@),
            final(render_queue)@ == queue_after_prepare(
                old(render_queue)@,
                next_buffer(old(render_device)@),
                image,
            ),
    {
        let buffer = render_device.create_buffer(
            BufferDescriptor {
                usage: BufferUsages { storage: true, copy_dst: true },
                size: SLIME_SIZE,
                mapped_at_creation: true,
            },
        );
        render_queue.write_buffer(buffer, 0, image.to_bytes());
        GpuSlime { buffer }
    }
}

/// The cache of prepared records, keyed by the identifier of the record each
/// was prepared from.
#[derive(Debug)]
pub struct RenderAssets {
    prepared: HashMap<u64, GpuSlime>,
}

impl View for RenderAssets {
    type V = Map<u64, GpuSlime>;

    closed spec fn view(&self) -> Map<u64, GpuSlime> {
        self.prepared@
    }
}

impl RenderAssets {
    /// An empty cache.
    pub fn new() -> (store: RenderAssets)
        ensures
            store@ == Map::<u64, GpuSlime>::empty(),
    {
        RenderAssets { prepared: HashMap::new() }
    }

    /// Stores `prepared` under `handle`, replacing what was there.
    pub fn insert(&mut self, handle: SlimeHandle, prepared: GpuSlime)
        ensures
            final(self)@ == old(self)@.insert(handle.0, prepared),
    {
        self.prepared.insert(handle.0, prepared);
    }

    /// The prepared record of `handle`, or `None` while there is none.
    pub fn get(&self, handle: SlimeHandle) -> (prepared: Option<GpuSlime>)
        ensures
            prepared == (if self@.contains_key(handle.0) {
                Some(self@[handle.0])
            } else {
                None
            }),
    {
        match self.prepared.get(&handle.0) {
            Some(prepared) => Some(*prepared),
            None => None,
        }
    }
}

} // verus!
