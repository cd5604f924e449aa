//! Device resources as plain data.
//!
//! A [`RenderDevice`] keeps, in order, the description of every resource it was
//! asked for, and a [`RenderQueue`] every upload. A resource's handle is its
//! position in that record, so a backend that carries the record out in order
//! knows which object a handle stands for.

use vstd::prelude::*;

verus! {

/// What a buffer may be used for.
#[derive(Clone, Copy, Debug, PartialEq, Eq, Structural)]
pub struct BufferUsages {
    /// Readable and writable from a shader as a storage buffer.
    pub storage: bool,
    /// May be the destination of a copy or of a queue write.
    pub copy_dst: bool,
}

/// What the device needs to know to allocate a buffer.
#[derive(Clone, Copy, Debug, PartialEq, Eq, Structural)]
pub struct BufferDescriptor {
    pub usage: BufferUsages,
    /// Size in bytes.
    pub size: u64,
    pub mapped_at_creation: bool,
}

/// Handle to a buffer: its position among the buffers of one device.
#[derive(Clone, Copy, Debug, PartialEq, Eq, Structural)]
pub struct Buffer {
    pub id: usize,
}

/// The shader stages that can see a binding.
#[derive(Clone, Copy, Debug, PartialEq, Eq, Structural)]
pub struct ShaderStages {
    pub vertex: bool,
    pub fragment: bool,
    pub compute: bool,
}

/// How a shader reads a bound buffer.
#[derive(Clone, Copy, Debug, PartialEq, Eq, Structural)]
pub enum BufferBindingType {
    Uniform,
    Storage { read_only: bool },
}

/// One buffer slot of a bind group layout.
#[derive(Clone, Copy, Debug, PartialEq, Eq, Structural)]
pub struct BindGroupLayoutEntry {
    pub binding: u32,
    pub visibility: ShaderStages,
    pub ty: BufferBindingType,
    pub has_dynamic_offset: bool,
    /// Least size in bytes of a buffer bound here, if the layout sets one.
    pub min_binding_size: Option<u64>,
    /// Length of the binding array, if the slot is one.
    pub count: Option<u32>,
}

/// The slots of a bind group layout.
#[derive(Debug)]
pub struct BindGroupLayoutDescriptor {
    pub entries: Vec<BindGroupLayoutEntry>,
}

impl View for BindGroupLayoutDescriptor {
    type V = Seq<BindGroupLayoutEntry>;

    open spec fn view(&self) -> Seq<BindGroupLayoutEntry> {
        self.entries@
    }
}

/// Handle to a bind group layout: its position among the layouts of one device.
#[derive(Clone, Copy, Debug, PartialEq, Eq, Structural)]
pub struct BindGroupLayout {
    pub id: usize,
}

/// The part of a buffer that a bind group entry exposes.
#[derive(Clone, Copy, Debug, PartialEq, Eq, Structural)]
pub struct BufferBinding {
    pub buffer: Buffer,
    /// Offset in bytes of the first exposed byte.
    pub offset: u64,
    /// Number of exposed bytes; `None` exposes the buffer's remainder.
    pub size: Option<u64>,
}

/// One filled slot of a bind group.
#[derive(Clone, Copy, Debug, PartialEq, Eq, Structural)]
pub struct BindGroupEntry {
    pub binding: u32,
    pub resource: BufferBinding,
}

/// A layout together with the resources that fill its slots.
#[derive(Debug)]
pub struct BindGroupDescriptor {
    pub layout: BindGroupLayout,
    pub entries: Vec<BindGroupEntry>,
}

/// Mathematical content of a [`BindGroupDescriptor`].
pub struct BindGroupDescriptorView {
    pub layout: BindGroupLayout,
    pub entries: Seq<BindGroupEntry>,
}

impl View for BindGroupDescriptor {
    type V = BindGroupDescriptorView;

    open spec fn view(&self) -> BindGroupDescriptorView {
        BindGroupDescriptorView { layout: self.layout, entries: self.entries@ }
    }
}

/// Handle to a bind group: its position among the bind groups of one device.
#[derive(Clone, Copy, Debug, PartialEq, Eq, Structural)]
pub struct BindGroup {
    pub id: usize,
}

/// Every resource a device was asked to create, oldest first.
#[derive(Debug)]
pub struct RenderDevice {
    pub buffers: Vec<BufferDescriptor>,
    pub bind_group_layouts: Vec<BindGroupLayoutDescriptor>,
    pub bind_groups: Vec<BindGroupDescriptor>,
}

/// Mathematical content of a [`RenderDevice`].
pub struct RenderDeviceView {
    pub buffers: Seq<BufferDescriptor>,
    pub bind_group_layouts: Seq<Seq<BindGroupLayoutEntry>>,
    pub bind_groups: Seq<BindGroupDescriptorView>,
}

impl View for RenderDevice {
    type V = RenderDeviceView;

    open spec fn view(&self) -> RenderDeviceView {
        RenderDeviceView {
            buffers: self.buffers@,
            bind_group_layouts: Seq::new(
                self.bind_group_layouts@.len(),
                |i: int| self.bind_group_layouts@[i]@,
            ),
            bind_groups: Seq::new(self.bind_groups@.len(), |i: int| self.bind_groups@[i]@),
        }
    }
}

impl RenderDevice {
    /// A device that has created nothing yet.
    pub fn new() -> (device: RenderDevice)
        ensures
            device@.buffers == Seq::<BufferDescriptor>::empty(),
            device@.bind_group_layouts == Seq::<Seq<BindGroupLayoutEntry>>::empty(),
            device@.bind_groups == Seq::<BindGroupDescriptorView>::empty(),
    {
        RenderDevice {
            buffers: Vec::new(),
            bind_group_layouts: Vec::new(),
            bind_groups: Vec::new(),
        }
    }

    /// Records a buffer and hands out its handle.
    pub fn create_buffer(&mut self, descriptor: BufferDescriptor) -> (buffer: Buffer)
        ensures
            buffer.id == old(self)@.buffers.len(),
            final(self)@ == (RenderDeviceView {
                buffers: old(self)@.buffers.push(descriptor),
                ..old(self)@
            }),
    {
        let id = self.buffers.len();
        self.buffers.push(descriptor);
        Buffer { id }
    }

    /// Records a bind group layout and hands out its handle.
    pub fn create_bind_group_layout(&mut self, descriptor: BindGroupLayoutDescriptor) -> (layout:
        BindGroupLayout)
        ensures
            layout.id == old(self)@.bind_group_layouts.len(),
            final(self)@ == (RenderDeviceView {
                bind_group_layouts: old(self)@.bind_group_layouts.push(descriptor@),
                ..old(self)@
            }),
    {
        let id = self.bind_group_layouts.len();
        self.bind_group_layouts.push(descriptor);
        assert(self@.bind_group_layouts =~= old(self)@.bind_group_layouts.push(descriptor@));
        BindGroupLayout { id }
    }

    /// Records a bind group and hands out its handle.
    pub fn create_bind_group(&mut self, descriptor: BindGroupDescriptor) -> (bind_group: BindGroup)
        ensures
            bind_group.id == old(self)@.bind_groups.len(),
            final(self)@ == (RenderDeviceView {
                bind_groups: old(self)@.bind_groups.push(descriptor@),
                ..old(self)@
            }),
    {
        let id = self.bind_groups.len();
        self.bind_groups.push(descriptor);
        assert(self@.bind_groups =~= old(self)@.bind_groups.push(descriptor@));
        BindGroup { id }
    }
}

/// One upload: `data` goes into `buffer`, starting `offset` bytes in.
#[derive(Debug)]
pub struct BufferWrite {
    pub buffer: Buffer,
    pub offset: u64,
    pub data: Vec<u8>,
}

/// Mathematical content of a [`BufferWrite`].
pub struct BufferWriteView {
    pub buffer: Buffer,
    pub offset: u64,
    pub data: Seq<u8>,
}

impl View for BufferWrite {
    type V = BufferWriteView;

    open spec fn view(&self) -> BufferWriteView {
        BufferWriteView { buffer: self.buffer, offset: self.offset, data: self.data@ }
    }
}

/// Every upload a queue was asked for, oldest first.
#[derive(Debug)]
pub struct RenderQueue {
    pub writes: Vec<BufferWrite>,
}

impl View for RenderQueue {
    type V = Seq<BufferWriteView>;

    open spec fn view(&self) -> Seq<BufferWriteView> {
        Seq::new(self.writes@.len(), |i: int| self.writes@[i]@)
    }
}

impl RenderQueue {
    /// A queue that has uploaded nothing yet.
    pub fn new() -> (queue: RenderQueue)
        ensures
            queue@ == Seq::<BufferWriteView>::empty(),
    {
        RenderQueue { writes: Vec::new() }
    }

    /// Records the upload of `data` into `buffer` at `offset`.
    pub fn write_buffer(&mut self, buffer: Buffer, offset: u64, data: Vec<u8>)
        ensures
            final(self)@ == old(self)@.push(BufferWriteView { buffer, offset, data: data@ }),
    {
        self.writes.push(BufferWrite { buffer, offset, data });
        assert(self@ =~= old(self)@.push(BufferWriteView { buffer, offset, data: data@ }));
    }
}

} // verus!
