//! The scene-graph loader.
//!
//! It walks a document's node tree pre-order depth-first, composing each
//! node's transform chain from its ancestors' local transforms, and
//! instantiates meshes, materials, textures, samplers and images with
//! per-entity deduplication through the storage registries.  A node may
//! be visited at most once per load; a second visit is a fatal
//! asset-integrity error.  On any failure the caller discards the whole
//! storage: a load is all-or-nothing.

use std::collections::HashMap;
use std::rc::Rc;

use vstd::prelude::*;

use crate::asset::{DataType, Document, MaterialDesc, PrimitiveDesc, PrimitiveMode, SamplerDesc,
    Semantic};
use crate::allocator::{spec_buffer_laid_out, VertexBufferAllocator, VertexBufferSegmentAllocationDescriptor,
    VertexBufferSegmentDataSource};
use crate::data::Transform;
use crate::error::{Error, ErrorKind};
use crate::image::Image;
use crate::loader::GltfLoader;
use crate::material::Material;
use crate::mesh::{IndexBuffer, IndexFormat, Mesh, MeshInstance, Primitive};
use crate::node::RenderNode;
use crate::pipeline::{RenderPipeline, RenderPipelineConfiguration};
use crate::shader::{spec_template_of, ShaderModulePackage, ShaderTemplateConfiguration};
use crate::shared::rc_clone;
use crate::storage::{lemma_storage_extends_trans, spec_storage_extends, RenderSystemSceneStorage};
use crate::texture::{Sampler, Texture2DPackage, TextureFormat};

verus! {

broadcast use vstd::std_specs::hash::group_hash_axioms, lemma_storage_extends_trans;

/// The sampler a primitive's texture falls back to when the document
/// names none: repeat wrapping with linear filtering throughout.
pub open spec fn spec_default_sampler_desc() -> SamplerDesc {
    SamplerDesc {
        wrap_s: crate::asset::WrappingMode::Repeat,
        wrap_t: crate::asset::WrappingMode::Repeat,
        mag_filter: None,
        min_filter: None,
    }
}

/// True when some attribute of the list carries this semantic.
pub open spec fn spec_has_semantic(attrs: Seq<(Semantic, usize)>, s: Semantic) -> bool {
    exists|i: int| 0 <= i < attrs.len() && attrs[i].0 == s
}

/// A texture-coordinate index above 1 or a color index above 0: the
/// semantics the loader rejects.
pub open spec fn spec_attr_invalid(s: Semantic) -> bool {
    match s {
        Semantic::TexCoords(k) => k > 1,
        Semantic::Colors(k) => k > 0,
        _ => false,
    }
}

/// True when some attribute of the list is rejected.
pub open spec fn spec_has_invalid_attr(attrs: Seq<(Semantic, usize)>) -> bool {
    exists|i: int| 0 <= i < attrs.len() && spec_attr_invalid(attrs[i].0)
}

/// The pipeline configuration a primitive's attribute list determines:
/// one presence flag per supported optional attribute, and the triangle
/// list topology every accepted primitive uses.
pub open spec fn spec_prim_config(attrs: Seq<(Semantic, usize)>) -> RenderPipelineConfiguration {
    RenderPipelineConfiguration {
        has_normal: spec_has_semantic(attrs, Semantic::Normals),
        has_tangent: spec_has_semantic(attrs, Semantic::Tangents),
        has_tex_coord_0: spec_has_semantic(attrs, Semantic::TexCoords(0)),
        has_tex_coord_1: spec_has_semantic(attrs, Semantic::TexCoords(1)),
        has_color_0: spec_has_semantic(attrs, Semantic::Colors(0)),
        topology: crate::pipeline::PrimitiveTopology::TriangleList,
    }
}

/// True when every vertex attribute names an accessor the document has.
pub open spec fn spec_vertex_accessors_in_range(
    attrs: Seq<(Semantic, usize)>,
    accessors: Seq<crate::asset::AccessorDesc>,
) -> bool {
    forall|i: int|
        0 <= i < attrs.len() && spec_is_vertex_semantic((#[trigger] attrs[i]).0) ==> attrs[i].1
            < accessors.len()
}

/// True when every vertex attribute's byte length fits the machine.
pub open spec fn spec_vertex_lengths_fit(
    attrs: Seq<(Semantic, usize)>,
    accessors: Seq<crate::asset::AccessorDesc>,
) -> bool {
    forall|i: int|
        0 <= i < attrs.len() && spec_is_vertex_semantic((#[trigger] attrs[i]).0) && attrs[i].1
            < accessors.len() ==> accessors[attrs[i].1 as int].count * accessors[
            attrs[i].1 as int].element_size <= usize::MAX
}

/// The semantics whose bytes go into the vertex buffer.
pub open spec fn spec_is_vertex_semantic(s: Semantic) -> bool {
    match s {
        Semantic::Positions | Semantic::Normals | Semantic::Tangents => true,
        Semantic::TexCoords(_) | Semantic::Colors(_) => true,
        _ => false,
    }
}

/// The allocator segments a primitive's attribute list yields: one
/// accessor-sourced segment per vertex attribute, in declaration order,
/// each declaring the accessor's byte length.
pub open spec fn spec_prim_segments(
    attrs: Seq<(Semantic, usize)>,
    accessors: Seq<crate::asset::AccessorDesc>,
) -> Seq<VertexBufferSegmentAllocationDescriptor>
    decreases attrs.len(),
{
    if attrs.len() == 0 {
        Seq::<VertexBufferSegmentAllocationDescriptor>::empty()
    } else {
        spec_prim_segments(attrs.drop_last(), accessors) + (if spec_is_vertex_semantic(
            attrs.last().0,
        ) {
            seq![
                VertexBufferSegmentAllocationDescriptor {
                    semantic: attrs.last().0,
                    data_source: VertexBufferSegmentDataSource::Accessor {
                        id: attrs.last().1,
                        length: (accessors[attrs.last().1 as int].count * accessors[
                            attrs.last().1 as int].element_size) as u64,
                    },
                },
            ]
        } else {
            Seq::<VertexBufferSegmentAllocationDescriptor>::empty()
        })
    }
}

/// Appending one attribute adds its semantic to the list's semantics.
proof fn lemma_has_semantic_push(prefix: Seq<(Semantic, usize)>, x: (Semantic, usize), s: Semantic)
    ensures
        spec_has_semantic(prefix.push(x), s) == (spec_has_semantic(prefix, s) || x.0 == s),
{
    let post = prefix.push(x);
    if spec_has_semantic(prefix, s) {
        let j = choose|j: int| 0 <= j < prefix.len() && prefix[j].0 == s;
        assert(post[j].0 == s);
    }
    if x.0 == s {
        assert(post[prefix.len() as int].0 == s);
    }
    if spec_has_semantic(post, s) {
        let j = choose|j: int| 0 <= j < post.len() && post[j].0 == s;
        if j < prefix.len() {
            assert(prefix[j].0 == s);
        }
    }
}

/// Appending one attribute adds its validity to the list's validity.
proof fn lemma_invalid_attr_push(prefix: Seq<(Semantic, usize)>, x: (Semantic, usize))
    ensures
        spec_has_invalid_attr(prefix.push(x)) == (spec_has_invalid_attr(prefix)
            || spec_attr_invalid(x.0)),
{
    let post = prefix.push(x);
    if spec_has_invalid_attr(prefix) {
        let j = choose|j: int| 0 <= j < prefix.len() && spec_attr_invalid(prefix[j].0);
        assert(spec_attr_invalid(post[j].0));
    }
    if spec_attr_invalid(x.0) {
        assert(spec_attr_invalid(post[prefix.len() as int].0));
    }
    if spec_has_invalid_attr(post) {
        let j = choose|j: int| 0 <= j < post.len() && spec_attr_invalid(post[j].0);
        if j < prefix.len() {
            assert(spec_attr_invalid(prefix[j].0));
        }
    }
}

/// True when the two cache registries hold only entries that match
/// their key: each shader package's template follows the
/// slot-assignment rule and is stored under its own key, and each
/// pipeline carries exactly the state its configuration calls for and
/// is stored under its configuration's key.
pub open spec fn spec_caches_wf(s: RenderSystemSceneStorage) -> bool {
    &&& forall|k: u64|
        s.shader_module_package_registry@.contains_key(k) ==> {
            let t = (#[trigger] s.shader_module_package_registry@[k]).config;
            crate::shader::spec_template_wf(t) && ShaderTemplateConfiguration::spec_cache_key(t)
                == k
        }
    &&& forall|k: u64|
        s.render_pipeline_registry@.contains_key(k) ==> {
            let p = #[trigger] s.render_pipeline_registry@[k];
            RenderPipeline::spec_built_for(*p, p.config)
                && RenderPipelineConfiguration::spec_cache_key(p.config) == k
        }
}

/// True when the node registry is closed under children: every child
/// index a registered node lists is itself registered.  Together with
/// the registered scene roots this pins every node reachable from the
/// scene down as loaded.
pub open spec fn spec_children_registered(s: RenderSystemSceneStorage) -> bool {
    forall|k: u64, c: int|
        s.node_registry@.contains_key(k) && 0 <= c < s.node_registry@[k].children@.len()
            ==> s.node_registry@.contains_key(#[trigger] s.node_registry@[k].children@[c])
}

/// Walks one scene of a document and fills a storage built from empty.
pub struct SceneLoader {
    /// The registries being filled for this load.
    pub storage: RenderSystemSceneStorage,
    /// The node source indices already visited in this load.
    pub visited: HashMap<u64, bool>,
}

impl SceneLoader {
    /// A loader over an empty storage with no node visited.
    pub fn new() -> (r: SceneLoader)
        ensures
            r.storage.spec_is_empty(),
            r.visited@ == Map::<u64, bool>::empty(),
    {
        SceneLoader { storage: RenderSystemSceneStorage::new(), visited: HashMap::new() }
    }

    /// Looks the shader variant for a template configuration up in the
    /// cache, generating and recording it on the first request.  Two
    /// requests with equal configurations return the same package.
    pub fn get_shader_module_package(
        &mut self,
        shader_template_config: &ShaderTemplateConfiguration,
    ) -> (r: Rc<ShaderModulePackage>)
        requires
            spec_caches_wf(old(self).storage),
            crate::shader::spec_template_wf(*shader_template_config),
        ensures
            spec_caches_wf(final(self).storage),
            r.config == *shader_template_config,
            final(self).storage.shader_module_package_registry@.contains_key(
                ShaderTemplateConfiguration::spec_cache_key(*shader_template_config),
            ),
            r == final(self).storage.shader_module_package_registry@[
                ShaderTemplateConfiguration::spec_cache_key(*shader_template_config)],
            old(self).storage.shader_module_package_registry@.contains_key(
                ShaderTemplateConfiguration::spec_cache_key(*shader_template_config),
            ) ==> *final(self) == *old(self),
            final(self).storage.shader_module_package_registry@
                == old(self).storage.shader_module_package_registry@.insert(
                ShaderTemplateConfiguration::spec_cache_key(*shader_template_config),
                r,
            ),
            final(self).storage == (RenderSystemSceneStorage {
                shader_module_package_registry: final(self).storage.shader_module_package_registry,
                ..old(self).storage
            }),
            final(self).visited == old(self).visited,
            spec_storage_extends(final(self).storage, old(self).storage),
    {
        let key: u64 = shader_template_config.cache_key();
        let next_id: usize = self.storage.shader_module_package_registry.len();

        if let Some(shader_module_package) = self.storage.shader_module_package_registry.get(&key) {
            let r = rc_clone(shader_module_package);
            proof {
                assert(old(self).storage.shader_module_package_registry@.insert(key, r)
                    =~= old(self).storage.shader_module_package_registry@);
            }
            return r;
        }

        let shader_module_package = Rc::new(
            ShaderModulePackage::from_template_config(next_id as u64, *shader_template_config),
        );

        let r = rc_clone(&shader_module_package);
        self.storage.shader_module_package_registry.insert(key, shader_module_package);
        r
    }

    /// Looks the pipeline for a configuration up in the cache, compiling
    /// and recording it on the first request.  The pipeline always
    /// carries exactly the state its configuration calls for, with its
    /// shader variant derived by the slot-assignment rule.
    pub fn get_render_pipeline(
        &mut self,
        render_pipeline_config: &RenderPipelineConfiguration,
    ) -> (r: Rc<RenderPipeline>)
        requires
            spec_caches_wf(old(self).storage),
        ensures
            spec_caches_wf(final(self).storage),
            RenderPipeline::spec_built_for(*r, *render_pipeline_config),
            final(self).storage.render_pipeline_registry@.contains_key(
                RenderPipelineConfiguration::spec_cache_key(*render_pipeline_config),
            ),
            r == final(self).storage.render_pipeline_registry@[
                RenderPipelineConfiguration::spec_cache_key(*render_pipeline_config)],
            old(self).storage.render_pipeline_registry@.contains_key(
                RenderPipelineConfiguration::spec_cache_key(*render_pipeline_config),
            ) ==> *final(self) == *old(self),
            final(self).storage.render_pipeline_registry@
                == old(self).storage.render_pipeline_registry@.insert(
                RenderPipelineConfiguration::spec_cache_key(*render_pipeline_config),
                r,
            ),
            final(self).storage == (RenderSystemSceneStorage {
                render_pipeline_registry: final(self).storage.render_pipeline_registry,
                shader_module_package_registry: final(self).storage.shader_module_package_registry,
                ..old(self).storage
            }),
            spec_storage_extends(final(self).storage, old(self).storage),
            final(self).visited == old(self).visited,
    {
        let key: u64 = render_pipeline_config.cache_key();
        let next_id: usize = self.storage.render_pipeline_registry.len();

        if let Some(render_pipeline) = self.storage.render_pipeline_registry.get(&key) {
            let r = rc_clone(render_pipeline);
            proof {
                assert(old(self).storage.render_pipeline_registry@.insert(key, r)
                    =~= old(self).storage.render_pipeline_registry@);
            }
            return r;
        }

        let shader_template_config = ShaderTemplateConfiguration::from_render_pipeline_config(
            render_pipeline_config,
        );
        let shader_module_package = self.get_shader_module_package(&shader_template_config);

        let render_pipeline = Rc::new(
            RenderPipeline::from_config(
                next_id as u64,
                *render_pipeline_config,
                shader_module_package,
            ),
        );

        let r = rc_clone(&render_pipeline);
        self.storage.render_pipeline_registry.insert(key, render_pipeline);
        r
    }
}

impl SceneLoader {
    /// Resolves a sampler reference: the registry entry for an indexed
    /// sampler, the shared default entry for an absent one, built on
    /// first use from the document (or from the default description).
    pub fn load_sampler(&mut self, doc: &Document, sampler_index: Option<usize>) -> (r: Result<
        Rc<Sampler>,
        Error,
    >)
        ensures
            final(self).storage == (RenderSystemSceneStorage {
                sampler_registry: final(self).storage.sampler_registry,
                default_sampler: final(self).storage.default_sampler,
                ..old(self).storage
            }),
            final(self).visited == old(self).visited,
            spec_storage_extends(final(self).storage, old(self).storage),
            r matches Err(e) ==> *final(self) == *old(self) && (sampler_index matches Some(si)
                && si >= doc.samplers@.len() && e.spec_kind() == ErrorKind::InvalidReference),
            r matches Ok(s) ==> match sampler_index {
                Some(si) => {
                    &&& final(self).storage.sampler_registry@.contains_key(si as u64)
                    &&& s == final(self).storage.sampler_registry@[si as u64]
                    &&& (old(self).storage.sampler_registry@.contains_key(si as u64) ==> *final(self) == *old(self))
                    &&& (!old(self).storage.sampler_registry@.contains_key(si as u64) ==> {
                        &&& si < doc.samplers@.len()
                        &&& *s == crate::texture::spec_sampler_of(doc.samplers@[si as int])
                        &&& final(self).storage.sampler_registry@ == old(self).storage.sampler_registry@.insert(si as u64, s)
                    })
                },
                None => {
                    &&& final(self).storage.default_sampler == Some(s)
                    &&& (old(self).storage.default_sampler is Some ==> *final(self) == *old(self))
                    &&& (old(self).storage.default_sampler is None ==> *s
                        == crate::texture::spec_sampler_of(spec_default_sampler_desc()))
                },
            },
    {
        match sampler_index {
            Some(si) => {
                if let Some(sampler) = self.storage.sampler_registry.get(&(si as u64)) {
                    return Ok(rc_clone(sampler));
                }
                let desc = match doc.samplers.get(si) {
                    Some(desc) => desc,
                    None => {
                        return Err(
                            Error::of_kind(
                                ErrorKind::InvalidReference,
                                "The given sampler index is not in the document".to_string(),
                            ),
                        );
                    },
                };
                let loaded_sampler = Rc::new(Sampler::from_desc(desc));
                let r = rc_clone(&loaded_sampler);
                self.storage.sampler_registry.insert(si as u64, loaded_sampler);
                Ok(r)
            },
            None => {
                if let Some(sampler) = &self.storage.default_sampler {
                    return Ok(rc_clone(sampler));
                }
                let desc = SamplerDesc {
                    wrap_s: crate::asset::WrappingMode::Repeat,
                    wrap_t: crate::asset::WrappingMode::Repeat,
                    mag_filter: None,
                    min_filter: None,
                };
                let loaded_sampler = Rc::new(Sampler::from_desc(&desc));
                let r = rc_clone(&loaded_sampler);
                self.storage.default_sampler = Some(loaded_sampler);
                Ok(r)
            },
        }
    }

    /// Resolves an image index to its registry entry, decoding it
    /// through the loader on first use.
    pub fn load_image<L: GltfLoader>(&mut self, image_index: usize, gltf_loader: &mut L) -> (r:
        Result<Rc<Image>, Error>)
        ensures
            final(self).storage == (RenderSystemSceneStorage {
                image_registry: final(self).storage.image_registry,
                ..old(self).storage
            }),
            final(self).visited == old(self).visited,
            spec_storage_extends(final(self).storage, old(self).storage),
            final(gltf_loader).accessor_bytes() == old(gltf_loader).accessor_bytes(),
            final(gltf_loader).image_pixels() == old(gltf_loader).image_pixels(),
            old(self).storage.image_registry@.contains_key(image_index as u64) ==> r is Ok,
            r matches Err(e) ==> *final(self) == *old(self),
            r matches Ok(img) ==> {
                &&& final(self).storage.image_registry@.contains_key(image_index as u64)
                &&& img == final(self).storage.image_registry@[image_index as u64]
                &&& (old(self).storage.image_registry@.contains_key(image_index as u64) ==> *final(self) == *old(self))
                &&& (!old(self).storage.image_registry@.contains_key(image_index as u64) ==> {
                    &&& old(gltf_loader).image_pixels().contains_key(image_index as int)
                    &&& img.wf()
                    &&& img.spec_dimensions().0 == old(gltf_loader).image_pixels()[
                        image_index as int].0
                    &&& img.spec_dimensions().1 == old(gltf_loader).image_pixels()[
                        image_index as int].1
                    &&& img.spec_data() == old(gltf_loader).image_pixels()[image_index as int].2
                    &&& final(self).storage.image_registry@ == old(self).storage.image_registry@.insert(image_index as u64, img)
                })
            },
    {
        if let Some(image) = self.storage.image_registry.get(&(image_index as u64)) {
            return Ok(rc_clone(image));
        }

        let decoded = match gltf_loader.load_image(image_index) {
            Ok(decoded) => decoded,
            Err(e) => {
                return Err(e);
            },
        };

        let loaded_image = Rc::new(decoded);
        let r = rc_clone(&loaded_image);
        self.storage.image_registry.insert(image_index as u64, loaded_image);
        Ok(r)
    }

    /// Resolves a texture index to its registry entry: on first use the
    /// source image is decoded, the sampler resolved, and the package
    /// recorded under the texture's index.
    pub fn load_texture<L: GltfLoader>(
        &mut self,
        doc: &Document,
        texture_index: usize,
        format: TextureFormat,
        gltf_loader: &mut L,
    ) -> (r: Result<Rc<Texture2DPackage>, Error>)
        ensures
            final(self).storage == (RenderSystemSceneStorage {
                texture_registry: final(self).storage.texture_registry,
                image_registry: final(self).storage.image_registry,
                sampler_registry: final(self).storage.sampler_registry,
                default_sampler: final(self).storage.default_sampler,
                ..old(self).storage
            }),
            final(self).visited == old(self).visited,
            spec_storage_extends(final(self).storage, old(self).storage),
            final(gltf_loader).accessor_bytes() == old(gltf_loader).accessor_bytes(),
            final(gltf_loader).image_pixels() == old(gltf_loader).image_pixels(),
            old(self).storage.texture_registry@.contains_key(texture_index as u64) ==> r is Ok,
            !old(self).storage.texture_registry@.contains_key(texture_index as u64)
                && texture_index >= doc.textures@.len() ==> (r matches Err(e) && e.spec_kind()
                == ErrorKind::InvalidReference && *final(self) == *old(self)),
            r is Err ==> final(self).storage.texture_registry
                == old(self).storage.texture_registry,
            r matches Ok(t) ==> {
                &&& final(self).storage.texture_registry@.contains_key(texture_index as u64)
                &&& t == final(self).storage.texture_registry@[texture_index as u64]
                &&& (old(self).storage.texture_registry@.contains_key(texture_index as u64)
                    ==> *final(self) == *old(self))
                &&& (!old(self).storage.texture_registry@.contains_key(texture_index as u64) ==> {
                    &&& texture_index < doc.textures@.len()
                    &&& t.format == format
                    &&& final(self).storage.image_registry@.contains_key(
                        doc.textures@[texture_index as int].source as u64,
                    )
                    &&& t.image == final(self).storage.image_registry@[
                        doc.textures@[texture_index as int].source as u64]
                    &&& final(self).storage.texture_registry@ == old(self).storage.texture_registry@.insert(texture_index as u64, t)
                })
            },
    {
        if let Some(texture) = self.storage.texture_registry.get(&(texture_index as u64)) {
            return Ok(rc_clone(texture));
        }

        let desc = match doc.textures.get(texture_index) {
            Some(desc) => *desc,
            None => {
                return Err(
                    Error::of_kind(
                        ErrorKind::InvalidReference,
                        "The given texture index is not in the document".to_string(),
                    ),
                );
            },
        };

        let loaded_image = match self.load_image(desc.source, gltf_loader) {
            Ok(loaded_image) => loaded_image,
            Err(e) => {
                return Err(e);
            },
        };

        let sampler = match self.load_sampler(doc, desc.sampler) {
            Ok(sampler) => sampler,
            Err(e) => {
                return Err(e);
            },
        };

        let loaded_texture = Rc::new(Texture2DPackage { image: loaded_image, format, sampler });
        let r = rc_clone(&loaded_texture);
        self.storage.texture_registry.insert(texture_index as u64, loaded_texture);
        Ok(r)
    }

    /// The shared default texture: a single white pixel with a clamped
    /// nearest-filtering sampler, built once per scene and cached.
    pub fn load_default_texture(&mut self) -> (r: Rc<Texture2DPackage>)
        ensures
            final(self).storage == (RenderSystemSceneStorage {
                default_texture: final(self).storage.default_texture,
                ..old(self).storage
            }),
            final(self).visited == old(self).visited,
            spec_storage_extends(final(self).storage, old(self).storage),
            final(self).storage.default_texture == Some(r),
            old(self).storage.default_texture is Some ==> *final(self) == *old(self),
            old(self).storage.default_texture is None ==> {
                &&& r.format == TextureFormat::Rgba8Unorm
                &&& r.image.spec_dimensions() == (1u32, 1u32)
                &&& r.image.spec_data() == seq![255u8, 255u8, 255u8, 255u8]
                &&& *r.sampler == Sampler::spec_default_texture_sampler()
            },
    {
        if let Some(default_texture) = &self.storage.default_texture {
            return rc_clone(default_texture);
        }

        let image_data: Vec<u8> = vec![255u8, 255u8, 255u8, 255u8];
        proof {
            assert(image_data@ =~= seq![255u8, 255u8, 255u8, 255u8]);
        }
        let image = Rc::new(Image::from_rgba_image(1, 1, image_data));
        let sampler = Rc::new(Sampler::default_texture_sampler());

        let default_texture = Rc::new(
            Texture2DPackage { image, format: TextureFormat::Rgba8Unorm, sampler },
        );
        let r = rc_clone(&default_texture);
        self.storage.default_texture = Some(default_texture);
        r
    }

    /// Resolves a material reference: the registry entry for an indexed
    /// material, the shared default entry for an absent one.  On first
    /// use the factors come from the document (or the default factors),
    /// the two textures are resolved — the base color texture in sRGB,
    /// the metallic-roughness texture linear, the default texture where
    /// the material names none — and the material is recorded.
    pub fn load_material<L: GltfLoader>(
        &mut self,
        doc: &Document,
        material_index: Option<usize>,
        gltf_loader: &mut L,
    ) -> (r: Result<Rc<Material>, Error>)
        ensures
            final(self).storage == (RenderSystemSceneStorage {
                material_registry: final(self).storage.material_registry,
                default_material: final(self).storage.default_material,
                texture_registry: final(self).storage.texture_registry,
                image_registry: final(self).storage.image_registry,
                sampler_registry: final(self).storage.sampler_registry,
                default_sampler: final(self).storage.default_sampler,
                default_texture: final(self).storage.default_texture,
                ..old(self).storage
            }),
            final(self).visited == old(self).visited,
            spec_storage_extends(final(self).storage, old(self).storage),
            final(gltf_loader).accessor_bytes() == old(gltf_loader).accessor_bytes(),
            final(gltf_loader).image_pixels() == old(gltf_loader).image_pixels(),
            material_index matches Some(mi)
                && old(self).storage.material_registry@.contains_key(mi as u64) ==> r is Ok,
            material_index is None ==> r is Ok,
            material_index matches Some(mi)
                && !old(self).storage.material_registry@.contains_key(mi as u64) && mi
                >= doc.materials@.len() ==> (r matches Err(e) && e.spec_kind()
                == ErrorKind::InvalidReference && *final(self) == *old(self)),
            material_index matches Some(mi)
                && !old(self).storage.material_registry@.contains_key(mi as u64) && mi
                < doc.materials@.len() && doc.materials@[mi as int].base_color_texture is None
                && doc.materials@[mi as int].metallic_roughness_texture is None ==> r is Ok,
            r matches Ok(m) ==> match material_index {
                Some(mi) => {
                    &&& final(self).storage.material_registry@.contains_key(mi as u64)
                    &&& m == final(self).storage.material_registry@[mi as u64]
                    &&& (old(self).storage.material_registry@.contains_key(mi as u64)
                        ==> *final(self) == *old(self))
                    &&& (!old(self).storage.material_registry@.contains_key(mi as u64) ==> {
                        &&& mi < doc.materials@.len()
                        &&& m.base_color_factor == doc.materials@[mi as int].base_color_factor
                        &&& m.metallic_factor == doc.materials@[mi as int].metallic_factor
                        &&& m.roughness_factor == doc.materials@[mi as int].roughness_factor
                        &&& match doc.materials@[mi as int].base_color_texture {
                            Some(ti) => final(self).storage.texture_registry@.contains_key(
                                ti as u64,
                            ) && m.base_color_texture == final(self).storage.texture_registry@[
                                ti as u64],
                            None => final(self).storage.default_texture == Some(
                                m.base_color_texture,
                            ),
                        }
                        &&& match doc.materials@[mi as int].metallic_roughness_texture {
                            Some(ti) => final(self).storage.texture_registry@.contains_key(
                                ti as u64,
                            ) && m.metallic_roughness_texture
                                == final(self).storage.texture_registry@[ti as u64],
                            None => final(self).storage.default_texture == Some(
                                m.metallic_roughness_texture,
                            ),
                        }
                        &&& final(self).storage.material_registry@ == old(
                            self,
                        ).storage.material_registry@.insert(mi as u64, m)
                    })
                },
                None => {
                    &&& final(self).storage.default_material == Some(m)
                    &&& (old(self).storage.default_material is Some ==> *final(self) == *old(
                        self,
                    ))
                    &&& (old(self).storage.default_material is None ==> {
                        &&& m.base_color_factor
                            == MaterialDesc::spec_default_material().base_color_factor
                        &&& m.metallic_factor
                            == MaterialDesc::spec_default_material().metallic_factor
                        &&& m.roughness_factor
                            == MaterialDesc::spec_default_material().roughness_factor
                        &&& final(self).storage.default_texture == Some(m.base_color_texture)
                        &&& m.metallic_roughness_texture == m.base_color_texture
                        &&& final(self).storage.material_registry
                            == old(self).storage.material_registry
                    })
                },
            },
            r matches Err(e) ==> final(self).storage.material_registry
                == old(self).storage.material_registry && final(self).storage.default_material
                == old(self).storage.default_material,
    {
        match material_index {
            Some(mi) => {
                if let Some(material) = self.storage.material_registry.get(&(mi as u64)) {
                    return Ok(rc_clone(material));
                }
            },
            None => {
                if let Some(material) = &self.storage.default_material {
                    return Ok(rc_clone(material));
                }
            },
        }

        let desc: MaterialDesc = match material_index {
            Some(mi) => {
                match doc.materials.get(mi) {
                    Some(desc) => *desc,
                    None => {
                        return Err(
                            Error::of_kind(
                                ErrorKind::InvalidReference,
                                "The given material index is not in the document".to_string(),
                            ),
                        );
                    },
                }
            },
            None => MaterialDesc::default_material(),
        };

        let base_color_texture = match desc.base_color_texture {
            Some(ti) => {
                match self.load_texture(doc, ti, TextureFormat::Rgba8UnormSrgb, gltf_loader) {
                    Ok(t) => t,
                    Err(e) => {
                        return Err(e);
                    },
                }
            },
            None => self.load_default_texture(),
        };

        let metallic_roughness_texture = match desc.metallic_roughness_texture {
            Some(ti) => {
                match self.load_texture(doc, ti, TextureFormat::Rgba8Unorm, gltf_loader) {
                    Ok(t) => t,
                    Err(e) => {
                        return Err(e);
                    },
                }
            },
            None => self.load_default_texture(),
        };

        let loaded_material = Rc::new(
            Material::new(&desc, base_color_texture, metallic_roughness_texture),
        );
        let r = rc_clone(&loaded_material);

        match material_index {
            Some(mi) => {
                self.storage.material_registry.insert(mi as u64, loaded_material);
            },
            None => {
                self.storage.default_material = Some(loaded_material);
            },
        }

        Ok(r)
    }

    /// Loads one primitive: validates its topology and attributes, packs
    /// the vertex attributes into one buffer in declaration order, loads
    /// the optional index buffer, resolves the material, determines the
    /// draw count, and takes the pipeline its attribute layout needs
    /// from the cache.
    #[verifier::loop_isolation(false)]
    #[verifier::rlimit(60)]
    pub fn load_primitive<L: GltfLoader>(
        &mut self,
        doc: &Document,
        prim: &PrimitiveDesc,
        gltf_loader: &mut L,
    ) -> (r: Result<Primitive, Error>)
        requires
            spec_caches_wf(old(self).storage),
        ensures
            spec_caches_wf(final(self).storage),
            final(self).storage.node_registry == old(self).storage.node_registry,
            final(self).storage.mesh_registry == old(self).storage.mesh_registry,
            final(self).visited == old(self).visited,
            spec_storage_extends(final(self).storage, old(self).storage),
            final(gltf_loader).accessor_bytes() == old(gltf_loader).accessor_bytes(),
            final(gltf_loader).image_pixels() == old(gltf_loader).image_pixels(),
            prim.mode != PrimitiveMode::Triangles ==> (r matches Err(e) && e.spec_kind()
                == ErrorKind::UnsupportedTopology && *final(self) == *old(self)),
            prim.mode == PrimitiveMode::Triangles && spec_has_invalid_attr(prim.attributes@) ==> (
            r matches Err(e) && e.spec_kind() == ErrorKind::AttributeIndexOutOfRange
                && *final(self) == *old(self)),
            prim.mode == PrimitiveMode::Triangles && !spec_has_invalid_attr(prim.attributes@)
                && !spec_has_semantic(prim.attributes@, Semantic::Positions) ==> (r matches Err(e)
                && e.spec_kind() == ErrorKind::MissingPositions && *final(self) == *old(self)),
            prim.mode == PrimitiveMode::Triangles && !spec_has_invalid_attr(prim.attributes@)
                && spec_has_semantic(prim.attributes@, Semantic::Positions)
                && !spec_vertex_accessors_in_range(prim.attributes@, doc.accessors@)
                && spec_vertex_lengths_fit(prim.attributes@, doc.accessors@) ==> (r matches Err(e)
                && e.spec_kind() == ErrorKind::InvalidReference && *final(self) == *old(self)),
            prim.mode == PrimitiveMode::Triangles && !spec_has_invalid_attr(prim.attributes@)
                && spec_has_semantic(prim.attributes@, Semantic::Positions)
                && spec_vertex_accessors_in_range(prim.attributes@, doc.accessors@)
                && !spec_vertex_lengths_fit(prim.attributes@, doc.accessors@) ==> (r matches Err(
            e,
            ) && e.spec_kind() == ErrorKind::SizeOverflow && *final(self) == *old(self)),
            prim.mode == PrimitiveMode::Triangles && !spec_has_invalid_attr(prim.attributes@)
                && spec_has_semantic(prim.attributes@, Semantic::Positions) && !(
            spec_vertex_accessors_in_range(prim.attributes@, doc.accessors@)
                && spec_vertex_lengths_fit(prim.attributes@, doc.accessors@)) ==> (r matches Err(
            e,
            ) && (e.spec_kind() == ErrorKind::InvalidReference || e.spec_kind()
                == ErrorKind::SizeOverflow) && *final(self) == *old(self)),
            r matches Ok(p) ==> {
                &&& prim.mode == PrimitiveMode::Triangles
                &&& spec_has_semantic(prim.attributes@, Semantic::Positions)
                &&& !spec_has_invalid_attr(prim.attributes@)
                &&& spec_buffer_laid_out(
                    p.vertex_buffer,
                    spec_prim_segments(prim.attributes@, doc.accessors@),
                    old(gltf_loader).accessor_bytes(),
                )
                &&& match prim.indices {
                    Some(ia) => {
                        &&& ia < doc.accessors@.len()
                        &&& p.count == doc.accessors@[ia as int].count
                        &&& p.index_buffer matches Some(ib) && (ib.format == (
                        if doc.accessors@[ia as int].data_type == DataType::U16 {
                            IndexFormat::Uint16
                        } else {
                            IndexFormat::Uint32
                        })) && (doc.accessors@[ia as int].data_type == DataType::U16
                            || doc.accessors@[ia as int].data_type == DataType::U32)
                            && ib.data@ == old(gltf_loader).accessor_bytes()[ia as int]
                    },
                    None => {
                        &&& p.index_buffer is None
                        &&& prim.attributes@.len() > 0
                        &&& prim.attributes@[0].1 < doc.accessors@.len()
                        &&& p.count == doc.accessors@[prim.attributes@[0].1 as int].count
                    },
                }
                &&& RenderPipeline::spec_built_for(
                    *p.render_pipeline,
                    spec_prim_config(prim.attributes@),
                )
                &&& match prim.material {
                    Some(mi) => final(self).storage.material_registry@.contains_key(mi as u64)
                        && p.material == final(self).storage.material_registry@[mi as u64],
                    None => final(self).storage.default_material == Some(p.material),
                }
            },
    {
        let ghost attrs = prim.attributes@;

        match prim.mode {
            PrimitiveMode::Triangles => {},
            _ => {
                return Err(
                    Error::of_kind(
                        ErrorKind::UnsupportedTopology,
                        "The given primitive uses an unsupported topology".to_string(),
                    ),
                );
            },
        }

        let mut has_position: bool = false;
        let mut has_normal: bool = false;
        let mut has_tangent: bool = false;
        let mut has_tex_coord_0: bool = false;
        let mut has_tex_coord_1: bool = false;
        let mut has_color_0: bool = false;

        let mut i: usize = 0;
        while i < prim.attributes.len()
            invariant
                0 <= i <= attrs.len(),
                prim.attributes@ == attrs,
                prim.mode == PrimitiveMode::Triangles,
                *self == *old(self),
                *gltf_loader == *old(gltf_loader),
                has_position == spec_has_semantic(attrs.take(i as int), Semantic::Positions),
                has_normal == spec_has_semantic(attrs.take(i as int), Semantic::Normals),
                has_tangent == spec_has_semantic(attrs.take(i as int), Semantic::Tangents),
                has_tex_coord_0 == spec_has_semantic(attrs.take(i as int), Semantic::TexCoords(0)),
                has_tex_coord_1 == spec_has_semantic(attrs.take(i as int), Semantic::TexCoords(1)),
                has_color_0 == spec_has_semantic(attrs.take(i as int), Semantic::Colors(0)),
                !spec_has_invalid_attr(attrs.take(i as int)),
            decreases attrs.len() - i,
        {
            let (semantic, _accessor): (Semantic, usize) = prim.attributes[i];
            proof {
                assert(attrs.take(i + 1) =~= attrs.take(i as int).push(attrs[i as int]));
                lemma_has_semantic_push(attrs.take(i as int), attrs[i as int], Semantic::Positions);
                lemma_has_semantic_push(attrs.take(i as int), attrs[i as int], Semantic::Normals);
                lemma_has_semantic_push(attrs.take(i as int), attrs[i as int], Semantic::Tangents);
                lemma_has_semantic_push(
                    attrs.take(i as int),
                    attrs[i as int],
                    Semantic::TexCoords(0),
                );
                lemma_has_semantic_push(
                    attrs.take(i as int),
                    attrs[i as int],
                    Semantic::TexCoords(1),
                );
                lemma_has_semantic_push(attrs.take(i as int), attrs[i as int], Semantic::Colors(0));
                lemma_invalid_attr_push(attrs.take(i as int), attrs[i as int]);
            }
            match semantic {
                Semantic::Positions => {
                    has_position = true;
                },
                Semantic::Normals => {
                    has_normal = true;
                },
                Semantic::Tangents => {
                    has_tangent = true;
                },
                Semantic::TexCoords(index) => {
                    if index == 0 {
                        has_tex_coord_0 = true;
                    } else if index == 1 {
                        has_tex_coord_1 = true;
                    } else {
                        return Err(
                            Error::of_kind(
                                ErrorKind::AttributeIndexOutOfRange,
                                "The given primitive has a texture coordinate attribute with an index greater than 1".to_string(),
                            ),
                        );
                    }
                },
                Semantic::Colors(index) => {
                    if index == 0 {
                        has_color_0 = true;
                    } else {
                        return Err(
                            Error::of_kind(
                                ErrorKind::AttributeIndexOutOfRange,
                                "The given primitive has a vertex color attribute with an index greater than 0".to_string(),
                            ),
                        );
                    }
                },
                _ => {},
            }
            i = i + 1;
        }
        proof {
            assert(attrs.take(attrs.len() as int) =~= attrs);
        }

        if !has_position {
            return Err(
                Error::of_kind(
                    ErrorKind::MissingPositions,
                    "The given primitive has no position attribute".to_string(),
                ),
            );
        }

        let mut vertex_buffer_allocator = VertexBufferAllocator::new();
        let mut j: usize = 0;
        while j < prim.attributes.len()
            invariant
                0 <= j <= attrs.len(),
                prim.attributes@ == attrs,
                prim.mode == PrimitiveMode::Triangles,
                *self == *old(self),
                *gltf_loader == *old(gltf_loader),
                spec_vertex_accessors_in_range(attrs.take(j as int), doc.accessors@),
                spec_vertex_lengths_fit(attrs.take(j as int), doc.accessors@),
                vertex_buffer_allocator.spec_segments() == spec_prim_segments(
                    attrs.take(j as int),
                    doc.accessors@,
                ),
            decreases attrs.len() - j,
        {
            let (semantic, accessor_id): (Semantic, usize) = prim.attributes[j];
            let is_vertex: bool = match semantic {
                Semantic::Positions | Semantic::Normals | Semantic::Tangents => true,
                Semantic::TexCoords(_) | Semantic::Colors(_) => true,
                _ => false,
            };
            proof {
                assert(attrs.take(j + 1).drop_last() =~= attrs.take(j as int));
                assert(attrs.take(j + 1).last() == attrs[j as int]);
            }
            if is_vertex {
                let accessor = match doc.accessors.get(accessor_id) {
                    Some(accessor) => *accessor,
                    None => {
                        return Err(
                            Error::of_kind(
                                ErrorKind::InvalidReference,
                                "An attribute names an accessor the document does not have".to_string(),
                            ),
                        );
                    },
                };
                let length: usize = match accessor.count.checked_mul(accessor.element_size) {
                    Some(length) => length,
                    None => {
                        return Err(
                            Error::of_kind(
                                ErrorKind::SizeOverflow,
                                "An accessor's byte length does not fit the machine".to_string(),
                            ),
                        );
                    },
                };
                vertex_buffer_allocator.add_segment(
                    semantic,
                    VertexBufferSegmentDataSource::Accessor {
                        id: accessor_id,
                        length: length as u64,
                    },
                );
            }
            j = j + 1;
        }
        proof {
            assert(attrs.take(attrs.len() as int) =~= attrs);
        }

        let vertex_buffer = match vertex_buffer_allocator.finish(gltf_loader) {
            Ok(vertex_buffer) => vertex_buffer,
            Err(e) => {
                return Err(e);
            },
        };

        let index_buffer: Option<IndexBuffer> = match prim.indices {
            Some(ia) => {
                let accessor = match doc.accessors.get(ia) {
                    Some(accessor) => *accessor,
                    None => {
                        return Err(
                            Error::of_kind(
                                ErrorKind::InvalidReference,
                                "The index buffer names an accessor the document does not have".to_string(),
                            ),
                        );
                    },
                };
                let format: IndexFormat = match accessor.data_type {
                    DataType::U16 => IndexFormat::Uint16,
                    DataType::U32 => IndexFormat::Uint32,
                    _ => {
                        return Err(
                            Error::of_kind(
                                ErrorKind::InvalidIndexType,
                                "The index buffer for the given primitive uses an invalid data type".to_string(),
                            ),
                        );
                    },
                };
                let data = match gltf_loader.load_bytes_from_accessor(ia) {
                    Ok(data) => data,
                    Err(e) => {
                        return Err(e);
                    },
                };
                Some(IndexBuffer { format, data })
            },
            None => None,
        };

        let material = match self.load_material(doc, prim.material, gltf_loader) {
            Ok(material) => material,
            Err(e) => {
                return Err(e);
            },
        };

        let count: usize = match prim.indices {
            Some(ia) => {
                match doc.accessors.get(ia) {
                    Some(accessor) => accessor.count,
                    None => {
                        return Err(
                            Error::of_kind(
                                ErrorKind::InvalidReference,
                                "The index buffer names an accessor the document does not have".to_string(),
                            ),
                        );
                    },
                }
            },
            None => {
                if prim.attributes.len() == 0 {
                    return Err(
                        Error::of_kind(
                            ErrorKind::MissingVertexCount,
                            "Unable to determine the number of vertices to render for the given primitive".to_string(),
                        ),
                    );
                }
                let (_semantic, accessor_id): (Semantic, usize) = prim.attributes[0];
                match doc.accessors.get(accessor_id) {
                    Some(accessor) => accessor.count,
                    None => {
                        return Err(
                            Error::of_kind(
                                ErrorKind::InvalidReference,
                                "An attribute names an accessor the document does not have".to_string(),
                            ),
                        );
                    },
                }
            },
        };

        let render_pipeline_config = RenderPipelineConfiguration {
            has_normal,
            has_tangent,
            has_tex_coord_0,
            has_tex_coord_1,
            has_color_0,
            topology: crate::pipeline::PrimitiveTopology::TriangleList,
        };
        let render_pipeline = self.get_render_pipeline(&render_pipeline_config);

        Ok(Primitive { vertex_buffer, index_buffer, material, count, render_pipeline })
    }

    /// Loads a mesh by source index, reusing the registry entry when the
    /// mesh was already loaded — a shared mesh is uploaded once however
    /// many nodes reference it — and otherwise loading every primitive
    /// and registering the result.
    #[verifier::loop_isolation(false)]
    pub fn load_mesh<L: GltfLoader>(
        &mut self,
        doc: &Document,
        mesh_index: usize,
        gltf_loader: &mut L,
    ) -> (r: Result<Rc<Mesh>, Error>)
        requires
            spec_caches_wf(old(self).storage),
        ensures
            spec_caches_wf(final(self).storage),
            final(self).storage.node_registry == old(self).storage.node_registry,
            final(self).visited == old(self).visited,
            spec_storage_extends(final(self).storage, old(self).storage),
            final(gltf_loader).accessor_bytes() == old(gltf_loader).accessor_bytes(),
            final(gltf_loader).image_pixels() == old(gltf_loader).image_pixels(),
            old(self).storage.mesh_registry@.contains_key(mesh_index as u64) ==> r is Ok,
            !old(self).storage.mesh_registry@.contains_key(mesh_index as u64) && mesh_index
                >= doc.meshes@.len() ==> (r matches Err(e) && e.spec_kind()
                == ErrorKind::InvalidReference && *final(self) == *old(self)),
            !old(self).storage.mesh_registry@.contains_key(mesh_index as u64) && mesh_index
                < doc.meshes@.len() && doc.meshes@[mesh_index as int].primitives@.len() == 0
                ==> r is Ok,
            r matches Ok(m) ==> {
                &&& final(self).storage.mesh_registry@.contains_key(mesh_index as u64)
                &&& m == final(self).storage.mesh_registry@[mesh_index as u64]
                &&& (old(self).storage.mesh_registry@.contains_key(mesh_index as u64)
                    ==> *final(self) == *old(self))
                &&& (!old(self).storage.mesh_registry@.contains_key(mesh_index as u64) ==> {
                    &&& mesh_index < doc.meshes@.len()
                    &&& m.primitives@.len() == doc.meshes@[
                        mesh_index as int].primitives@.len()
                    &&& final(self).storage.mesh_registry@ == old(
                        self,
                    ).storage.mesh_registry@.insert(mesh_index as u64, m)
                })
            },
            r is Err ==> final(self).storage.mesh_registry == old(self).storage.mesh_registry,
    {
        if let Some(mesh) = self.storage.mesh_registry.get(&(mesh_index as u64)) {
            return Ok(rc_clone(mesh));
        }

        let mesh_desc = match doc.meshes.get(mesh_index) {
            Some(mesh_desc) => mesh_desc,
            None => {
                return Err(
                    Error::of_kind(
                        ErrorKind::InvalidReference,
                        "The given mesh index is not in the document".to_string(),
                    ),
                );
            },
        };

        let mut loaded_primitives: Vec<Rc<Primitive>> = Vec::new();
        let mut k: usize = 0;
        while k < mesh_desc.primitives.len()
            invariant
                0 <= k <= mesh_desc.primitives@.len(),
                loaded_primitives@.len() == k,
                spec_caches_wf(self.storage),
                self.storage.node_registry == old(self).storage.node_registry,
                self.storage.mesh_registry == old(self).storage.mesh_registry,
                self.visited == old(self).visited,
                spec_storage_extends(self.storage, old(self).storage),
                gltf_loader.accessor_bytes() == old(gltf_loader).accessor_bytes(),
                gltf_loader.image_pixels() == old(gltf_loader).image_pixels(),
            decreases mesh_desc.primitives@.len() - k,
        {
            let loaded = match self.load_primitive(doc, &mesh_desc.primitives[k], gltf_loader) {
                Ok(loaded) => loaded,
                Err(e) => {
                    return Err(e);
                },
            };
            loaded_primitives.push(Rc::new(loaded));
            k = k + 1;
        }

        let loaded_mesh = Rc::new(Mesh { primitives: loaded_primitives });
        let r = rc_clone(&loaded_mesh);
        self.storage.mesh_registry.insert(mesh_index as u64, loaded_mesh);
        Ok(r)
    }

    /// True when every visited node index names a node of the document,
    /// so the number of unvisited nodes bounds the traversal.
    pub open spec fn spec_visited_wf(&self, doc: &Document) -> bool {
        forall|k: u64| self.visited@.contains_key(k) ==> (k as int) < doc.nodes@.len()
    }

    /// True when every registered node was visited: registrations come
    /// only from visits, so a fresh visit can never overwrite an entry.
    pub open spec fn spec_registry_in_visited(&self) -> bool {
        forall|k: u64|
            self.storage.node_registry@.contains_key(k) ==> self.visited@.contains_key(k)
    }

    /// Loads one node and, before registering it, its whole subtree:
    /// each node may be visited at most once per load (a second visit is
    /// a fatal graph-integrity error), children compose their transform
    /// chains from the parent's chain extended by this node's local
    /// transform, and a node with a mesh reference gets its own mesh
    /// instance bound to that chain.
    #[verifier::loop_isolation(false)]
    pub fn load_node<L: GltfLoader>(
        &mut self,
        doc: &Document,
        node_index: usize,
        parent_chain: &Vec<Transform>,
        gltf_loader: &mut L,
    ) -> (r: Result<u64, Error>)
        requires
            spec_caches_wf(old(self).storage),
            old(self).spec_visited_wf(doc),
            old(self).spec_registry_in_visited(),
            spec_children_registered(old(self).storage),
        ensures
            spec_caches_wf(final(self).storage),
            final(self).spec_visited_wf(doc),
            final(self).spec_registry_in_visited(),
            spec_children_registered(final(self).storage),
            old(self).visited@.dom().subset_of(final(self).visited@.dom()),
            forall|k: u64|
                final(self).storage.node_registry@.contains_key(k) && !old(
                    self,
                ).storage.node_registry@.contains_key(k) ==> !old(self).visited@.contains_key(k),
            spec_storage_extends(final(self).storage, old(self).storage),
            final(gltf_loader).accessor_bytes() == old(gltf_loader).accessor_bytes(),
            final(gltf_loader).image_pixels() == old(gltf_loader).image_pixels(),
            node_index >= doc.nodes@.len() ==> (r matches Err(e) && e.spec_kind()
                == ErrorKind::InvalidReference && *final(self) == *old(self)),
            node_index < doc.nodes@.len() && old(self).visited@.contains_key(node_index as u64)
                ==> (r matches Err(e) && e.spec_kind() == ErrorKind::DuplicateNode && *final(self)
                == *old(self)),
            node_index < doc.nodes@.len() && !old(self).visited@.contains_key(node_index as u64)
                && doc.nodes@[node_index as int].children@.len() == 0 && doc.nodes@[
                node_index as int].mesh is None ==> r is Ok,
            r matches Ok(id) ==> {
                &&& id == node_index as u64
                &&& node_index < doc.nodes@.len()
                &&& !old(self).visited@.contains_key(node_index as u64)
                &&& final(self).storage.node_registry@.contains_key(id)
                &&& {
                    let n = final(self).storage.node_registry@[id];
                    &&& n.id == id
                    &&& n.local_transform == doc.nodes@[node_index as int].transform
                    &&& n.children@.len() == doc.nodes@[node_index as int].children@.len()
                    &&& (forall|c: int|
                        0 <= c < n.children@.len() ==> n.children@[c] == (#[trigger] doc.nodes@[
                            node_index as int].children@[c]) as u64)
                    &&& (n.mesh is Some <==> doc.nodes@[node_index as int].mesh is Some)
                    &&& (doc.nodes@[node_index as int].mesh matches Some(mi) ==> {
                        let inst = n.mesh->Some_0;
                        &&& inst.transform_chain@ == parent_chain@.push(
                            doc.nodes@[node_index as int].transform,
                        )
                        &&& final(self).storage.mesh_registry@.contains_key(mi as u64)
                        &&& inst.mesh == final(self).storage.mesh_registry@[mi as u64]
                    })
                    &&& n.camera is None
                }
            },
        decreases doc.nodes@.len() - self.visited@.dom().len(),
    {
        proof {
            lemma_visited_card_bound(self.visited@.dom(), doc.nodes@.len() as int);
        }

        if node_index >= doc.nodes.len() {
            return Err(
                Error::of_kind(
                    ErrorKind::InvalidReference,
                    "A scene or node references a node the document does not have".to_string(),
                ),
            );
        }
        let idx64: u64 = node_index as u64;

        if self.visited.contains_key(&idx64) {
            return Err(
                Error::of_kind(
                    ErrorKind::DuplicateNode,
                    "A node with the given ID has already been registered".to_string(),
                ),
            );
        }
        self.visited.insert(idx64, true);
        proof {
            assert(self.visited@.dom() =~= old(self).visited@.dom().insert(idx64));
            assert(self.visited@.dom().len() == old(self).visited@.dom().len() + 1);
        }

        let node_desc = &doc.nodes[node_index];
        let local_transform: Transform = node_desc.transform;

        let mut chain: Vec<Transform> = vstd::slice::slice_to_vec(parent_chain.as_slice());
        chain.push(local_transform);

        let ghost visited_after_mark = self.visited@.dom();

        let mut children: Vec<u64> = Vec::new();
        let mut c: usize = 0;
        while c < node_desc.children.len()
            invariant
                0 <= c <= node_desc.children@.len(),
                children@.len() == c,
                forall|j: int|
                    0 <= j < c ==> children@[j] == (#[trigger] node_desc.children@[j]) as u64,
                spec_caches_wf(self.storage),
                self.spec_visited_wf(doc),
                self.spec_registry_in_visited(),
                spec_children_registered(self.storage),
                visited_after_mark.subset_of(self.visited@.dom()),
                !self.storage.node_registry@.contains_key(idx64),
                forall|j: int|
                    0 <= j < c ==> self.storage.node_registry@.contains_key(
                        #[trigger] children@[j],
                    ),
                forall|k: u64|
                    self.storage.node_registry@.contains_key(k) && !old(
                        self,
                    ).storage.node_registry@.contains_key(k) ==> !old(self).visited@.contains_key(
                        k,
                    ),
                spec_storage_extends(self.storage, old(self).storage),
                gltf_loader.accessor_bytes() == old(gltf_loader).accessor_bytes(),
                gltf_loader.image_pixels() == old(gltf_loader).image_pixels(),
            decreases node_desc.children@.len() - c,
        {
            proof {
                lemma_visited_card_bound(self.visited@.dom(), doc.nodes@.len() as int);
                vstd::set_lib::lemma_len_subset(visited_after_mark, self.visited@.dom());
            }
            let child_index: usize = node_desc.children[c];
            let ghost pre_child = *self;
            let outcome = self.load_node(doc, child_index, &chain, gltf_loader);
            proof {
                assert forall|k: u64|
                    self.storage.node_registry@.contains_key(k) && !old(
                        self,
                    ).storage.node_registry@.contains_key(k) implies !old(
                    self,
                ).visited@.contains_key(k) by {
                    if !pre_child.storage.node_registry@.contains_key(k) {
                        assert(!pre_child.visited@.contains_key(k));
                        assert(pre_child.visited@.dom().contains(idx64));
                    }
                }
                assert(pre_child.visited@.contains_key(idx64));
                assert(!self.storage.node_registry@.contains_key(idx64));
            }
            let id = match outcome {
                Ok(id) => id,
                Err(e) => {
                    return Err(e);
                },
            };
            children.push(id);
            c = c + 1;
        }

        let mesh_instance: Option<MeshInstance> = match node_desc.mesh {
            Some(mi) => {
                let mesh = match self.load_mesh(doc, mi, gltf_loader) {
                    Ok(mesh) => mesh,
                    Err(e) => {
                        return Err(e);
                    },
                };
                Some(MeshInstance::new(mesh, chain))
            },
            None => None,
        };

        let node = RenderNode::new(idx64, local_transform, children, mesh_instance, None);
        let ghost registry_before = self.storage.node_registry@;
        self.storage.node_registry.insert(idx64, node);
        proof {
            let ghost registry_now = self.storage.node_registry@;
            assert forall|k: u64, ch: int|
                registry_now.contains_key(k) && 0 <= ch
                    < registry_now[k].children@.len() implies self.storage.node_registry@.contains_key(
                #[trigger] self.storage.node_registry@[k].children@[ch],
            ) by {
                if k != idx64 {
                    assert(registry_before.contains_key(k));
                    assert(registry_before.contains_key(registry_before[k].children@[ch]));
                } else {
                    assert(registry_before.contains_key(
                        self.storage.node_registry@[k].children@[ch],
                    ));
                }
            }
        }
        Ok(idx64)
    }

    /// Loads every root node of one scene, pre-order depth-first, each
    /// with an empty ancestor chain.
    #[verifier::loop_isolation(false)]
    pub fn load_scene<L: GltfLoader>(
        &mut self,
        doc: &Document,
        scene: &crate::asset::SceneDesc,
        gltf_loader: &mut L,
    ) -> (r: Result<(), Error>)
        requires
            spec_caches_wf(old(self).storage),
            old(self).spec_visited_wf(doc),
            old(self).spec_registry_in_visited(),
            spec_children_registered(old(self).storage),
        ensures
            spec_caches_wf(final(self).storage),
            spec_children_registered(final(self).storage),
            spec_storage_extends(final(self).storage, old(self).storage),
            final(gltf_loader).accessor_bytes() == old(gltf_loader).accessor_bytes(),
            final(gltf_loader).image_pixels() == old(gltf_loader).image_pixels(),
            scene.nodes@.len() == 0 ==> r is Ok,
            r is Ok ==> forall|j: int|
                0 <= j < scene.nodes@.len() ==> final(self).storage.node_registry@.contains_key(
                    (#[trigger] scene.nodes@[j]) as u64,
                ),
    {
        let root_chain: Vec<Transform> = Vec::new();
        let mut i: usize = 0;
        while i < scene.nodes.len()
            invariant
                0 <= i <= scene.nodes@.len(),
                spec_caches_wf(self.storage),
                self.spec_visited_wf(doc),
                self.spec_registry_in_visited(),
                spec_children_registered(self.storage),
                spec_storage_extends(self.storage, old(self).storage),
                gltf_loader.accessor_bytes() == old(gltf_loader).accessor_bytes(),
                gltf_loader.image_pixels() == old(gltf_loader).image_pixels(),
                forall|j: int|
                    0 <= j < i ==> self.storage.node_registry@.contains_key(
                        (#[trigger] scene.nodes@[j]) as u64,
                    ),
            decreases scene.nodes@.len() - i,
        {
            let root_index: usize = scene.nodes[i];
            match self.load_node(doc, root_index, &root_chain, gltf_loader) {
                Ok(_) => {},
                Err(e) => {
                    return Err(e);
                },
            }
            i = i + 1;
        }
        Ok(())
    }

    /// Loads one scene of a document into a storage built from empty:
    /// the result depends only on the document and the loader's content,
    /// never on previously loaded state.  Fails when the scene
    /// identifier is missing, and propagates every node, primitive and
    /// collaborator failure; no partial storage is returned.
    pub fn load<L: GltfLoader>(
        doc: &Document,
        scene_id: usize,
        gltf_loader: &mut L,
    ) -> (r: Result<RenderSystemSceneStorage, Error>)
        ensures
            final(gltf_loader).accessor_bytes() == old(gltf_loader).accessor_bytes(),
            final(gltf_loader).image_pixels() == old(gltf_loader).image_pixels(),
            scene_id >= doc.scenes@.len() ==> (r matches Err(e) && e.spec_kind()
                == ErrorKind::MissingScene),
            scene_id < doc.scenes@.len() && doc.scenes@[scene_id as int].nodes@.len() == 0
                ==> r is Ok,
            r matches Ok(s) ==> {
                &&& scene_id < doc.scenes@.len()
                &&& spec_caches_wf(s)
                &&& spec_children_registered(s)
                &&& forall|j: int|
                    0 <= j < doc.scenes@[scene_id as int].nodes@.len()
                        ==> s.node_registry@.contains_key(
                        (#[trigger] doc.scenes@[scene_id as int].nodes@[j]) as u64,
                    )
            },
    {
        let scene = match doc.get_scene(scene_id) {
            Ok(scene) => scene,
            Err(e) => {
                return Err(e);
            },
        };

        let mut scene_loader = SceneLoader::new();
        match scene_loader.load_scene(doc, scene, gltf_loader) {
            Ok(_) => {},
            Err(e) => {
                return Err(e);
            },
        }

        Ok(scene_loader.storage)
    }
}

/// A finite set of indices below a bound has at most that many
/// elements.
proof fn lemma_visited_card_bound(dom: Set<u64>, n: int)
    requires
        dom.finite(),
        n >= 0,
        forall|k: u64| dom.contains(k) ==> (k as int) < n,
    ensures
        dom.len() <= n,
{
    let f = |k: u64| k as int;
    let mapped = dom.map(f);
    vstd::set_lib::lemma_map_size(dom, mapped, f);
    vstd::set_lib::lemma_int_range(0, n);
    assert(mapped.subset_of(vstd::set_lib::set_int_range(0, n)));
    vstd::set_lib::lemma_len_subset(mapped, vstd::set_lib::set_int_range(0, n));
}

/// The law of the two-level cache: whatever order requests arrive in,
/// two requests with equal configurations resolve to the same recorded
/// pipeline — the second request finds the first one's entry and returns
/// it unchanged.
pub proof fn lemma_identical_configs_share_pipeline(
    first: RenderSystemSceneStorage,
    second: RenderSystemSceneStorage,
    a: RenderPipelineConfiguration,
    b: RenderPipelineConfiguration,
    r1: Rc<RenderPipeline>,
    r2: Rc<RenderPipeline>,
)
    requires
        a == b,
        // What the first request ensures:
        second.render_pipeline_registry@ == first.render_pipeline_registry@.insert(
            RenderPipelineConfiguration::spec_cache_key(a),
            r1,
        ),
        // What a second request against `second` ensures:
        second.render_pipeline_registry@.contains_key(
            RenderPipelineConfiguration::spec_cache_key(b),
        ),
        r2 == second.render_pipeline_registry@[RenderPipelineConfiguration::spec_cache_key(b)],
    ensures
        r1 == r2,
{
}

} // verus!
