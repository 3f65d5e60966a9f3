//! Buffers, textures and bind sets, as far as the core has to know
//! them: what each buffer holds, and which resources a bind set names.

use crate::pipeline::{BindGroupLayout, LayoutEntry};
use vstd::prelude::*;

verus! {

/// Names a buffer of a [`ResourceBinder`] by its place among them.
#[derive(Clone, Copy, Debug, PartialEq, Eq, Structural)]
pub struct BufferHandle(pub usize);

/// Names a texture of a [`ResourceBinder`] by its place among them.
#[derive(Clone, Copy, Debug, PartialEq, Eq, Structural)]
pub struct TextureHandle(pub usize);

/// Why a buffer could not be written. Each of them is a mistake in the
/// order of construction and ends the program.
#[derive(Clone, Copy, Debug, PartialEq, Eq, Structural)]
pub enum BindError {
    /// The bytes written are not as many as the buffer holds.
    SizeMismatch,
    /// The buffer was not created for copies from the processor.
    NotWritable,
    /// The binder has no buffer under the handle.
    UnknownBuffer,
}

/// One vertex of a textured quad. Positions and texture coordinates
/// are in hundredths of a unit.
#[derive(Clone, Copy, Debug, PartialEq, Eq, Structural)]
pub struct Vertex {
    pub x: i32,
    pub y: i32,
    pub z: i32,
    pub u: i32,
    pub v: i32,
}

/// What the binder holds for one buffer.
#[derive(Debug, PartialEq, Eq)]
pub enum Buffer {
    /// A uniform buffer. It alone takes copies from the processor.
    Uniform { bytes: Vec<u8> },
    /// A vertex buffer.
    Vertices { vertices: Vec<Vertex> },
    /// An index buffer: the indices, and the bytes that go to the
    /// device for them.
    Indices { indices: Vec<u16>, bytes: Vec<u8> },
}

/// What a buffer holds, as mathematics. Of an index buffer it keeps the
/// indices; their bytes follow from them and from the machine.
pub enum BufferView {
    Uniform { bytes: Seq<u8> },
    Vertices { vertices: Seq<Vertex> },
    Indices { indices: Seq<u16> },
}

impl View for Buffer {
    type V = BufferView;

    open spec fn view(&self) -> BufferView {
        match *self {
            Buffer::Uniform { bytes } => BufferView::Uniform { bytes: bytes@ },
            Buffer::Vertices { vertices } => BufferView::Vertices { vertices: vertices@ },
            Buffer::Indices { indices, bytes } => BufferView::Indices { indices: indices@ },
        }
    }
}

impl Buffer {
    /// The bytes of an index buffer are its indices as they lie in
    /// memory, in one of the two byte orders.
    pub open spec fn wf(&self) -> bool {
        match *self {
            Buffer::Indices { indices, bytes } => bytes@ == low_byte_first(indices@) || bytes@
                == high_byte_first(indices@),
            _ => true,
        }
    }
}

/// A resource that a bind set names.
#[derive(Clone, Copy, Debug, PartialEq, Eq, Structural)]
pub enum ResourceRef {
    Buffer(BufferHandle),
    TextureView(TextureHandle),
    Sampler(TextureHandle),
    /// The view of the depth target of the surface.
    DepthView,
    /// The sampler of the depth target of the surface.
    DepthSampler,
}

/// A layout together with the resources bound to its slots, in slot
/// order. Nothing changes a bind set: to bind another resource, make
/// another bind set. Several bind sets may name one resource.
#[derive(Debug, PartialEq, Eq)]
pub struct BindSet {
    layout: Vec<LayoutEntry>,
    resources: Vec<ResourceRef>,
}

/// A bind set as mathematics: the slots of its layout, and the resources
/// bound to them, in slot order.
pub struct BindSetView {
    pub layout: Seq<LayoutEntry>,
    pub resources: Seq<ResourceRef>,
}

impl View for BindSet {
    type V = BindSetView;

    closed spec fn view(&self) -> BindSetView {
        BindSetView { layout: self.layout@, resources: self.resources@ }
    }
}

/// The bind sets of a list, as mathematics.
pub open spec fn set_views(sets: Seq<BindSet>) -> Seq<BindSetView> {
    sets.map_values(|set: BindSet| set@)
}

impl BindSet {
    /// The slots of the layout that the set was made for.
    pub fn layout(&self) -> (layout: &Vec<LayoutEntry>)
        ensures
            layout@ == self@.layout,
    {
        &self.layout
    }

    /// The resources bound, in slot order.
    pub fn resources(&self) -> (resources: &Vec<ResourceRef>)
        ensures
            resources@ == self@.resources,
    {
        &self.resources
    }
}

/// The bytes of `indices` with the low byte of each index first.
pub open spec fn low_byte_first(indices: Seq<u16>) -> Seq<u8> {
    Seq::new(
        2 * indices.len(),
        |i: int|
            if i % 2 == 0 {
                (indices[i / 2] % 256) as u8
            } else {
                (indices[i / 2] / 256) as u8
            },
    )
}

/// The bytes of `indices` with the high byte of each index first.
pub open spec fn high_byte_first(indices: Seq<u16>) -> Seq<u8> {
    Seq::new(
        2 * indices.len(),
        |i: int|
            if i % 2 == 0 {
                (indices[i / 2] / 256) as u8
            } else {
                (indices[i / 2] % 256) as u8
            },
    )
}

/// Calls `bytemuck::cast_slice` from `u16` to `u8`: the same memory
/// read as bytes. Believed of it, not proved: the result holds two
/// bytes for each index, in the order of the indices, and within each
/// index in the byte order of the machine, which is one of two. A cast
/// to bytes has no alignment or size to miss, so it does not fail.
#[verifier::external_body]
fn index_bytes(indices: &Vec<u16>) -> (bytes: Vec<u8>)
    ensures
        bytes@ == low_byte_first(indices@) || bytes@ == high_byte_first(indices@),
{
    bytemuck::cast_slice::<u16, u8>(indices.as_slice()).to_vec()
}

/// A binder as mathematics: what each buffer holds, by handle, and the
/// image that each texture is made from, by handle, as the number
/// under which the host keeps it.
pub struct BinderView {
    pub buffers: Seq<BufferView>,
    pub textures: Seq<u32>,
}

/// Keeps what each buffer and texture of the program holds, and hands
/// out the handles by which commands and bind sets name them.
#[derive(Debug, PartialEq, Eq)]
pub struct ResourceBinder {
    buffers: Vec<Buffer>,
    textures: Vec<u32>,
}

impl View for ResourceBinder {
    type V = BinderView;

    closed spec fn view(&self) -> BinderView {
        BinderView {
            buffers: self.buffers@.map_values(|b: Buffer| b@),
            textures: self.textures@,
        }
    }
}

impl ResourceBinder {
    /// The invariant: every buffer held is well formed.
    pub closed spec fn wf(&self) -> bool {
        forall|i: int| 0 <= i < self.buffers@.len() ==> (#[trigger] self.buffers@[i]).wf()
    }

    /// A binder holds no more buffers and no more textures than a
    /// handle can name.
    pub proof fn handles_suffice(&self)
        ensures
            self@.buffers.len() <= usize::MAX,
            self@.textures.len() <= usize::MAX,
    {
        assert(self.buffers@.len() == self.buffers.len());
        assert(self.textures@.len() == self.textures.len());
    }

    /// A binder without resources.
    pub fn new() -> (binder: ResourceBinder)
        ensures
            binder.wf(),
            binder@ == (BinderView {
                buffers: Seq::<BufferView>::empty(),
                textures: Seq::<u32>::empty(),
            }),
    {
        let binder = ResourceBinder { buffers: Vec::new(), textures: Vec::new() };
        assert(binder@.buffers =~= Seq::<BufferView>::empty());
        binder
    }

    /// A new uniform buffer that holds `initial`. Its size stays what
    /// it is now.
    pub fn create_uniform(&mut self, initial: Vec<u8>) -> (handle: BufferHandle)
        ensures
            handle.0 == old(self)@.buffers.len(),
            final(self)@ == (BinderView {
                buffers: old(self)@.buffers.push(BufferView::Uniform { bytes: initial@ }),
                ..old(self)@
            }),
            old(self).wf() ==> final(self).wf(),
    {
        let handle = BufferHandle(self.buffers.len());
        self.buffers.push(Buffer::Uniform { bytes: initial });
        assert(self@.buffers =~= old(self)@.buffers.push(BufferView::Uniform { bytes: initial@ }));
        handle
    }

    /// Replaces what a uniform buffer holds. The buffer must exist,
    /// must be a uniform buffer, and must hold as many bytes as are
    /// written; the three are tested in this order, and a refused
    /// write changes nothing.
    pub fn update_uniform(&mut self, handle: BufferHandle, bytes: Vec<u8>) -> (written: Result<
        (),
        BindError,
    >)
        ensures
            written == update_verdict(old(self)@, handle, bytes@),
            written is Ok ==> final(self)@ == (BinderView {
                buffers: old(self)@.buffers.update(
                    handle.0 as int,
                    BufferView::Uniform { bytes: bytes@ },
                ),
                ..old(self)@
            }),
            written is Err ==> final(self)@ == old(self)@,
            old(self).wf() ==> final(self).wf(),
    {
        if handle.0 >= self.buffers.len() {
            return Err(BindError::UnknownBuffer);
        }
        let held_len = match &self.buffers[handle.0] {
            Buffer::Uniform { bytes: held } => held.len(),
            _ => {
                return Err(BindError::NotWritable);
            },
        };
        if held_len != bytes.len() {
            return Err(BindError::SizeMismatch);
        }
        self.buffers.set(handle.0, Buffer::Uniform { bytes });
        assert(self@.buffers =~= old(self)@.buffers.update(
            handle.0 as int,
            BufferView::Uniform { bytes: bytes@ },
        ));
        Ok(())
    }

    /// A new vertex buffer that holds `vertices`.
    pub fn create_vertex_buffer(&mut self, vertices: Vec<Vertex>) -> (handle: BufferHandle)
        ensures
            handle.0 == old(self)@.buffers.len(),
            final(self)@ == (BinderView {
                buffers: old(self)@.buffers.push(BufferView::Vertices { vertices: vertices@ }),
                ..old(self)@
            }),
            old(self).wf() ==> final(self).wf(),
    {
        let handle = BufferHandle(self.buffers.len());
        self.buffers.push(Buffer::Vertices { vertices });
        assert(self@.buffers =~= old(self)@.buffers.push(
            BufferView::Vertices { vertices: vertices@ },
        ));
        handle
    }

    /// Puts other vertices in the place of a vertex buffer, which the
    /// host then creates anew. Says whether it did: it does so exactly
    /// if the handle names a vertex buffer, and changes nothing
    /// otherwise.
    pub fn rebuild_vertex_buffer(&mut self, handle: BufferHandle, vertices: Vec<Vertex>) -> (rebuilt:
        bool)
        ensures
            rebuilt == (handle.0 < old(self)@.buffers.len() && old(self)@.buffers[handle.0 as int]
                is Vertices),
            rebuilt ==> final(self)@ == (BinderView {
                buffers: old(self)@.buffers.update(
                    handle.0 as int,
                    BufferView::Vertices { vertices: vertices@ },
                ),
                ..old(self)@
            }),
            !rebuilt ==> final(self)@ == old(self)@,
            old(self).wf() ==> final(self).wf(),
    {
        if handle.0 >= self.buffers.len() {
            return false;
        }
        match &self.buffers[handle.0] {
            Buffer::Vertices { .. } => {},
            _ => {
                return false;
            },
        }
        self.buffers.set(handle.0, Buffer::Vertices { vertices });
        assert(self@.buffers =~= old(self)@.buffers.update(
            handle.0 as int,
            BufferView::Vertices { vertices: vertices@ },
        ));
        true
    }

    /// A new index buffer for `indices`. The bytes kept for it are the
    /// indices as they lie in memory, two bytes each.
    pub fn create_index_buffer(&mut self, indices: Vec<u16>) -> (handle: BufferHandle)
        ensures
            handle.0 == old(self)@.buffers.len(),
            final(self)@ == (BinderView {
                buffers: old(self)@.buffers.push(BufferView::Indices { indices: indices@ }),
                ..old(self)@
            }),
            old(self).wf() ==> final(self).wf(),
    {
        let bytes = index_bytes(&indices);
        let handle = BufferHandle(self.buffers.len());
        self.buffers.push(Buffer::Indices { indices, bytes });
        assert(self@.buffers =~= old(self)@.buffers.push(
            BufferView::Indices { indices: indices@ },
        ));
        handle
    }

    /// A new texture, to be made from the image that the host keeps
    /// under `image`.
    pub fn create_texture(&mut self, image: u32) -> (handle: TextureHandle)
        ensures
            handle.0 == old(self)@.textures.len(),
            final(self)@ == (BinderView {
                textures: old(self)@.textures.push(image),
                ..old(self)@
            }),
            old(self).wf() ==> final(self).wf(),
    {
        let handle = TextureHandle(self.textures.len());
        self.textures.push(image);
        handle
    }

    /// A bind set of `layout` that binds `views` to its slots, in slot
    /// order.
    pub fn create_texture_binding(&self, layout: &BindGroupLayout, views: Vec<ResourceRef>) -> (set:
        BindSet)
        ensures
            set@ == (BindSetView { layout: layout@, resources: views@ }),
    {
        let mut slots: Vec<LayoutEntry> = Vec::new();
        let mut i: usize = 0;
        while i < layout.entries.len()
            invariant
                i <= layout.entries.len(),
                slots@ == layout@.take(i as int),
            decreases layout.entries.len() - i,
        {
            slots.push(layout.entries[i]);
            i += 1;
        }
        assert(slots@ =~= layout@);
        BindSet { layout: slots, resources: views }
    }

    /// What the binder holds for the buffer under `handle`, if any.
    pub fn buffer(&self, handle: BufferHandle) -> (buffer: Option<&Buffer>)
        ensures
            handle.0 >= self@.buffers.len() ==> buffer is None,
            handle.0 < self@.buffers.len() ==> (buffer matches Some(held) && held@
                == self@.buffers[handle.0 as int] && (self.wf() ==> held.wf())),
    {
        if handle.0 < self.buffers.len() {
            Some(&self.buffers[handle.0])
        } else {
            None
        }
    }

    /// How many buffers the binder holds.
    pub fn buffer_count(&self) -> (count: usize)
        ensures
            count == self@.buffers.len(),
    {
        self.buffers.len()
    }

    /// The image of the texture under `handle`, if any.
    pub fn texture(&self, handle: TextureHandle) -> (image: Option<u32>)
        ensures
            handle.0 >= self@.textures.len() ==> image is None,
            handle.0 < self@.textures.len() ==> image == Some(self@.textures[handle.0 as int]),
    {
        if handle.0 < self.textures.len() {
            Some(self.textures[handle.0])
        } else {
            None
        }
    }

    /// How many textures the binder holds.
    pub fn texture_count(&self) -> (count: usize)
        ensures
            count == self@.textures.len(),
    {
        self.textures.len()
    }
}

/// What a write of `bytes` to the buffer under `handle` comes to.
pub open spec fn update_verdict(binder: BinderView, handle: BufferHandle, bytes: Seq<u8>) -> Result<
    (),
    BindError,
> {
    if handle.0 >= binder.buffers.len() {
        Err(BindError::UnknownBuffer)
    } else {
        match binder.buffers[handle.0 as int] {
            BufferView::Uniform { bytes: held } => if held.len() == bytes.len() {
                Ok(())
            } else {
                Err(BindError::SizeMismatch)
            },
            _ => Err(BindError::NotWritable),
        }
    }
}

} // verus!
