//! Scene-graph nodes as loaded into the registry.

use vstd::prelude::*;

use crate::data::Transform;
use crate::mesh::MeshInstance;

verus! {

/// A camera bound to a node.  The data model carries it, but the loader
/// never produces one: scene cameras have no load-time producer here.
pub struct CameraInstance {
    /// The chain of local transforms from the root to the camera's node.
    pub transform_chain: Vec<Transform>,
}

/// One loaded node: its source index, its local transform, the source
/// indices of its children (each loaded before this node was
/// registered), and its optional mesh and camera instances.
pub struct RenderNode {
    pub id: u64,
    pub local_transform: Transform,
    pub children: Vec<u64>,
    pub mesh: Option<MeshInstance>,
    pub camera: Option<CameraInstance>,
}

impl RenderNode {
    /// Assembles a node record.
    pub fn new(
        id: u64,
        local_transform: Transform,
        children: Vec<u64>,
        mesh: Option<MeshInstance>,
        camera: Option<CameraInstance>,
    ) -> (r: RenderNode)
        ensures
            r.id == id,
            r.local_transform == local_transform,
            r.children == children,
            r.mesh == mesh,
            r.camera == camera,
    {
        RenderNode { id, local_transform, children, mesh, camera }
    }
}

} // verus!
