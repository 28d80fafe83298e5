//! The scene-facing face of the resource builder.
//!
//! The system owns one storage, scoped to the currently loaded scene.
//! Loading a scene is all-or-nothing: the new storage is built from
//! empty — no entry of a prior load can contaminate it — and on any
//! failure the system's storage is reset to empty, never left partially
//! applied.

use vstd::prelude::*;

use crate::asset::Document;
use crate::error::{Error, ErrorKind};
use crate::loader::GltfLoader;
use crate::scene::{spec_caches_wf, spec_children_registered, SceneLoader};
use crate::storage::RenderSystemSceneStorage;

verus! {

/// Owns the render-ready representation of the one loaded scene.
pub struct RenderSystem {
    pub storage: RenderSystemSceneStorage,
}

impl RenderSystem {
    /// A system with nothing loaded.
    pub fn new() -> (r: RenderSystem)
        ensures
            r.storage.spec_is_empty(),
    {
        RenderSystem { storage: RenderSystemSceneStorage::new() }
    }

    /// Replaces the loaded scene: the registries are rebuilt from empty
    /// out of the document and the loader alone.  On failure — a missing
    /// scene, a graph-integrity violation, an invalid primitive, or a
    /// collaborator error — the storage is reset to empty, and the error
    /// propagates unchanged.
    pub fn load_scene<L: GltfLoader>(
        &mut self,
        doc: &Document,
        scene_id: usize,
        gltf_loader: &mut L,
    ) -> (r: Result<(), Error>)
        ensures
            final(gltf_loader).accessor_bytes() == old(gltf_loader).accessor_bytes(),
            final(gltf_loader).image_pixels() == old(gltf_loader).image_pixels(),
            r is Err ==> final(self).storage.spec_is_empty(),
            scene_id >= doc.scenes@.len() ==> (r matches Err(e) && e.spec_kind()
                == ErrorKind::MissingScene),
            scene_id < doc.scenes@.len() && doc.scenes@[scene_id as int].nodes@.len() == 0
                ==> r is Ok,
            r is Ok ==> {
                &&& scene_id < doc.scenes@.len()
                &&& spec_caches_wf(final(self).storage)
                &&& spec_children_registered(final(self).storage)
                &&& forall|j: int|
                    0 <= j < doc.scenes@[scene_id as int].nodes@.len()
                        ==> final(self).storage.node_registry@.contains_key(
                        (#[trigger] doc.scenes@[scene_id as int].nodes@[j]) as u64,
                    )
            },
    {
        match SceneLoader::load(doc, scene_id, gltf_loader) {
            Ok(storage) => {
                self.storage = storage;
                Ok(())
            },
            Err(e) => {
                self.storage = RenderSystemSceneStorage::new();
                Err(e)
            },
        }
    }
}

} // verus!
