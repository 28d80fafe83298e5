//! The per-scene resource registries.
//!
//! Storage owns every entity loaded for one scene, keyed by its source
//! index (or by configuration, for the two shader caches).  It is built
//! from empty on every load and discarded whole on failure: tearing the
//! registries down is the only invalidation mechanism.

use std::collections::HashMap;
use std::rc::Rc;

use vstd::prelude::*;

use crate::image::Image;
use crate::material::Material;
use crate::mesh::Mesh;
use crate::node::RenderNode;
use crate::pipeline::RenderPipeline;
use crate::shader::ShaderModulePackage;
use crate::texture::{Sampler, Texture2DPackage};

verus! {

/// Every registry of one loaded scene.  Registries keyed by a source
/// index use it as the key; the two cache registries are keyed by the
/// injective cache key of their configuration.  Entities that the
/// document addresses optionally (the material and sampler a primitive
/// or texture may omit) have a separate default slot, built lazily.
pub struct RenderSystemSceneStorage {
    pub node_registry: HashMap<u64, RenderNode>,
    pub mesh_registry: HashMap<u64, Rc<Mesh>>,
    pub material_registry: HashMap<u64, Rc<Material>>,
    pub default_material: Option<Rc<Material>>,
    pub texture_registry: HashMap<u64, Rc<Texture2DPackage>>,
    pub image_registry: HashMap<u64, Rc<Image>>,
    pub sampler_registry: HashMap<u64, Rc<Sampler>>,
    pub default_sampler: Option<Rc<Sampler>>,
    pub render_pipeline_registry: HashMap<u64, Rc<RenderPipeline>>,
    pub shader_module_package_registry: HashMap<u64, Rc<ShaderModulePackage>>,
    pub default_texture: Option<Rc<Texture2DPackage>>,
}

impl RenderSystemSceneStorage {
    /// True of a storage with no entries at all: the state every load
    /// starts from, and the state a failed load leaves behind.
    pub open spec fn spec_is_empty(&self) -> bool {
        &&& self.node_registry@ == Map::<u64, RenderNode>::empty()
        &&& self.mesh_registry@ == Map::<u64, Rc<Mesh>>::empty()
        &&& self.material_registry@ == Map::<u64, Rc<Material>>::empty()
        &&& self.default_material is None
        &&& self.texture_registry@ == Map::<u64, Rc<Texture2DPackage>>::empty()
        &&& self.image_registry@ == Map::<u64, Rc<Image>>::empty()
        &&& self.sampler_registry@ == Map::<u64, Rc<Sampler>>::empty()
        &&& self.default_sampler is None
        &&& self.render_pipeline_registry@ == Map::<u64, Rc<RenderPipeline>>::empty()
        &&& self.shader_module_package_registry@ == Map::<u64, Rc<ShaderModulePackage>>::empty()
        &&& self.default_texture is None
    }

    /// A storage with no entries.
    pub fn new() -> (r: RenderSystemSceneStorage)
        ensures
            r.spec_is_empty(),
    {
        RenderSystemSceneStorage {
            node_registry: HashMap::new(),
            mesh_registry: HashMap::new(),
            material_registry: HashMap::new(),
            default_material: None,
            texture_registry: HashMap::new(),
            image_registry: HashMap::new(),
            sampler_registry: HashMap::new(),
            default_sampler: None,
            render_pipeline_registry: HashMap::new(),
            shader_module_package_registry: HashMap::new(),
            default_texture: None,
        }
    }
}

/// True when `new` holds every entry `old` holds, unchanged, and keeps
/// every default slot that was already built.  Every loader step extends
/// the storage this way: entries are only ever added.
pub open spec fn spec_storage_extends(
    new: RenderSystemSceneStorage,
    old: RenderSystemSceneStorage,
) -> bool {
    &&& old.node_registry@.submap_of(new.node_registry@)
    &&& old.mesh_registry@.submap_of(new.mesh_registry@)
    &&& old.material_registry@.submap_of(new.material_registry@)
    &&& (old.default_material is Some ==> new.default_material == old.default_material)
    &&& old.texture_registry@.submap_of(new.texture_registry@)
    &&& old.image_registry@.submap_of(new.image_registry@)
    &&& old.sampler_registry@.submap_of(new.sampler_registry@)
    &&& (old.default_sampler is Some ==> new.default_sampler == old.default_sampler)
    &&& old.render_pipeline_registry@.submap_of(new.render_pipeline_registry@)
    &&& old.shader_module_package_registry@.submap_of(new.shader_module_package_registry@)
    &&& (old.default_texture is Some ==> new.default_texture == old.default_texture)
}

/// Extending a storage is transitive: a step that extends an already
/// extended storage still extends the original.
pub broadcast proof fn lemma_storage_extends_trans(
    c: RenderSystemSceneStorage,
    b: RenderSystemSceneStorage,
    a: RenderSystemSceneStorage,
)
    requires
        #[trigger] spec_storage_extends(c, b),
        #[trigger] spec_storage_extends(b, a),
    ensures
        spec_storage_extends(c, a),
{
    lemma_submap_trans(a.node_registry@, b.node_registry@, c.node_registry@);
    lemma_submap_trans(a.mesh_registry@, b.mesh_registry@, c.mesh_registry@);
    lemma_submap_trans(a.material_registry@, b.material_registry@, c.material_registry@);
    lemma_submap_trans(a.texture_registry@, b.texture_registry@, c.texture_registry@);
    lemma_submap_trans(a.image_registry@, b.image_registry@, c.image_registry@);
    lemma_submap_trans(a.sampler_registry@, b.sampler_registry@, c.sampler_registry@);
    lemma_submap_trans(
        a.render_pipeline_registry@,
        b.render_pipeline_registry@,
        c.render_pipeline_registry@,
    );
    lemma_submap_trans(
        a.shader_module_package_registry@,
        b.shader_module_package_registry@,
        c.shader_module_package_registry@,
    );
}

/// A submap of a submap is a submap.
proof fn lemma_submap_trans<K, V>(a: Map<K, V>, b: Map<K, V>, c: Map<K, V>)
    requires
        a.submap_of(b),
        b.submap_of(c),
    ensures
        a.submap_of(c),
{
    assert forall|k: K| a.dom().contains(k) implies #[trigger] c.dom().contains(k) && a[k]
        == c[k] by {
        assert(b.dom().contains(k));
    }
}

} // verus!
