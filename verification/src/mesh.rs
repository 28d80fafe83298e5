//! Meshes, primitives, and per-node mesh instances.

use std::rc::Rc;

use vstd::prelude::*;

use crate::allocator::VertexBuffer;
use crate::data::Transform;
use crate::material::Material;
use crate::pipeline::RenderPipeline;

verus! {

/// The element width of an index buffer.
#[derive(Clone, Copy, Debug, PartialEq, Eq, Structural)]
pub enum IndexFormat {
    Uint16,
    Uint32,
}

/// An index buffer ready for upload: its element format and raw bytes.
pub struct IndexBuffer {
    pub format: IndexFormat,
    pub data: Vec<u8>,
}

/// One draw-call unit: a vertex buffer with named segments, an optional
/// index buffer, a shared material, the number of vertices or indices to
/// draw, and the shared pipeline compiled for its attribute layout.
pub struct Primitive {
    pub vertex_buffer: VertexBuffer,
    pub index_buffer: Option<IndexBuffer>,
    pub material: Rc<Material>,
    pub count: usize,
    pub render_pipeline: Rc<RenderPipeline>,
}

/// An ordered list of primitives, shared across the mesh instances of
/// every node that references the same source mesh.
pub struct Mesh {
    pub primitives: Vec<Rc<Primitive>>,
}

/// One node's binding of a shared mesh to its global transform.  The
/// global transform is the composition of `transform_chain` in order,
/// root first; the rendering shell multiplies the chain into the
/// per-instance uniform.
pub struct MeshInstance {
    pub mesh: Rc<Mesh>,
    pub transform_chain: Vec<Transform>,
}

impl MeshInstance {
    /// Binds a shared mesh to the transform chain of the node that
    /// instantiates it.
    pub fn new(mesh: Rc<Mesh>, transform_chain: Vec<Transform>) -> (r: MeshInstance)
        ensures
            r.mesh == mesh,
            r.transform_chain == transform_chain,
    {
        MeshInstance { mesh, transform_chain }
    }
}

} // verus!
