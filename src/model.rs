use vstd::prelude::*;

use crate::mesh::{Mesh, MAX_VERTICES};

verus! {

/// What the GPU reads a buffer as.
#[derive(Clone, Copy, Debug, PartialEq, Eq, Structural)]
pub enum BufferUsage {
    Vertex,
    Index,
    Uniform,
}

/// Creates write-once GPU buffers from slices of `E`, handing back handles
/// of type `H`. A renderer implements it over its GPU device.
pub trait BufferDevice<E, H> {
    fn create_buffer(&mut self, usage: BufferUsage, contents: &[E]) -> H;
}

/// One GPU buffer and the number of elements that were uploaded into it.
/// It is never written again: new contents take a new buffer.
pub struct GeometryBuffer<H> {
    handle: H,
    len: usize,
    usage: BufferUsage,
}

impl<H> GeometryBuffer<H> {
    pub closed spec fn count(&self) -> nat {
        self.len as nat
    }

    pub closed spec fn spec_usage(&self) -> BufferUsage {
        self.usage
    }

    /// Uploads `contents` through `device` as one buffer for `usage`.
    pub fn new<E, D: BufferDevice<E, H>>(device: &mut D, usage: BufferUsage, contents: &[E]) -> (r:
        Self)
        ensures
            r.count() == contents@.len(),
            r.spec_usage() == usage,
    {
        let handle = device.create_buffer(usage, contents);
        GeometryBuffer { handle, len: contents.len(), usage }
    }

    /// The number of elements uploaded.
    pub fn len(&self) -> (r: usize)
        ensures
            r == self.count(),
    {
        self.len
    }

    pub fn usage(&self) -> (r: BufferUsage)
        ensures
            r == self.spec_usage(),
    {
        self.usage
    }

    /// The GPU buffer itself.
    pub fn handle(&self) -> &H {
        &self.handle
    }
}

/// A mesh uploaded to the GPU: its vertex buffer, its index buffer, and the
/// number of indices one draw covers.
pub struct Model<H> {
    vbuf: GeometryBuffer<H>,
    ibuf: GeometryBuffer<H>,
    num_indices: u32,
}

impl<H> Model<H> {
    pub closed spec fn vertex_count(&self) -> nat {
        self.vbuf.count()
    }

    pub closed spec fn index_count(&self) -> nat {
        self.ibuf.count()
    }

    /// The number of indices one draw covers.
    pub closed spec fn spec_num_indices(&self) -> u32 {
        self.num_indices
    }

    /// The vertex count fits 16-bit indices and the index count is what
    /// one draw covers.
    pub closed spec fn wf(&self) -> bool {
        &&& self.vertex_count() <= MAX_VERTICES
        &&& self.num_indices == self.index_count()
    }

    /// Uploads `mesh` as a vertex buffer and an index buffer. A mesh without
    /// vertices or without indices has nothing to draw: the result is then
    /// `None` and `device` is not touched.
    pub fn new<T, D: BufferDevice<T, H> + BufferDevice<u16, H>>(device: &mut D, mesh: &Mesh<T>) -> (r:
        Option<Self>)
        requires
            mesh.wf(),
            mesh.indices_view().len() <= u32::MAX,
        ensures
            r is None <==> (mesh.verts_view().len() == 0 || mesh.indices_view().len() == 0),
            r is None ==> *final(device) == *old(device),
            r matches Some(m) ==> {
                &&& m.wf()
                &&& m.spec_num_indices() == mesh.indices_view().len()
                &&& m.vertex_count() == mesh.verts_view().len()
                &&& m.index_count() == mesh.indices_view().len()
            },
    {
        let verts = mesh.vertices();
        let indices = mesh.indices();
        if verts.len() == 0 || indices.len() == 0 {
            return None;
        }
        let vbuf = GeometryBuffer::new(device, BufferUsage::Vertex, verts);
        let ibuf = GeometryBuffer::new(device, BufferUsage::Index, indices);
        Some(Model { vbuf, ibuf, num_indices: indices.len() as u32 })
    }

    /// The number of indices one draw covers.
    pub fn num_indices(&self) -> (r: u32)
        ensures
            r == self.spec_num_indices(),
    {
        self.num_indices
    }

    /// The number of vertices uploaded.
    pub fn len(&self) -> (r: u32)
        requires
            self.wf(),
        ensures
            r == self.vertex_count(),
    {
        self.vbuf.len() as u32
    }

    /// The vertex buffer.
    pub fn vbuf(&self) -> &H {
        self.vbuf.handle()
    }

    /// The index buffer, of 16-bit indices.
    pub fn ibuf(&self) -> &H {
        self.ibuf.handle()
    }
}

} // verus!
