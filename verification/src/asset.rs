//! A read-only view over a parsed scene description.
//!
//! The document holds, as plain values, exactly what the resource
//! builder reads from a scene-interchange file: scenes, nodes, meshes,
//! materials, textures, samplers and accessors, each addressed by index.
//! The shell that parses the interchange format fills a `Document`; the
//! loader then works on it without touching the parser again.

use vstd::prelude::*;

use crate::data::Transform;
use crate::error::{Error, ErrorKind};

verus! {

/// The meaning of one vertex-attribute byte range.
#[derive(Clone, Copy, Debug, PartialEq, Eq, Structural)]
pub enum Semantic {
    Positions,
    Normals,
    Tangents,
    TexCoords(u32),
    Colors(u32),
    Joints(u32),
    Weights(u32),
}

/// The drawing mode a primitive declares.
#[derive(Clone, Copy, Debug, PartialEq, Eq, Structural)]
pub enum PrimitiveMode {
    Points,
    Lines,
    LineLoop,
    LineStrip,
    Triangles,
    TriangleStrip,
    TriangleFan,
}

/// The component type of an accessor's elements.
#[derive(Clone, Copy, Debug, PartialEq, Eq, Structural)]
pub enum DataType {
    I8,
    U8,
    I16,
    U16,
    U32,
    F32,
}

/// A typed, offset-addressed view into a binary buffer: `count` elements
/// of `element_size` bytes each.
#[derive(Clone, Copy, Debug)]
pub struct AccessorDesc {
    pub count: usize,
    pub element_size: usize,
    pub data_type: DataType,
}

impl AccessorDesc {
    /// The number of bytes this accessor spans.
    pub open spec fn spec_byte_length(&self) -> int {
        self.count * self.element_size
    }
}

/// One drawable geometry unit of a mesh.
pub struct PrimitiveDesc {
    pub mode: PrimitiveMode,
    /// Attribute semantics with the accessor index holding their bytes,
    /// in declaration order.
    pub attributes: Vec<(Semantic, usize)>,
    /// Accessor index of the index buffer, if the primitive is indexed.
    pub indices: Option<usize>,
    /// Material index; absent means the shared default material.
    pub material: Option<usize>,
}

/// An ordered list of primitives.
pub struct MeshDesc {
    pub primitives: Vec<PrimitiveDesc>,
}

/// One node of the scene graph.
pub struct NodeDesc {
    pub children: Vec<usize>,
    pub mesh: Option<usize>,
    pub camera: Option<usize>,
    pub transform: Transform,
}

/// The root node indices of one scene.
pub struct SceneDesc {
    pub nodes: Vec<usize>,
}

/// A texture: an image index paired with an optional sampler index.
#[derive(Clone, Copy, Debug)]
pub struct TextureDesc {
    pub source: usize,
    pub sampler: Option<usize>,
}

/// How a sampler wraps coordinates outside the unit interval.
#[derive(Clone, Copy, Debug, PartialEq, Eq, Structural)]
pub enum WrappingMode {
    ClampToEdge,
    MirroredRepeat,
    Repeat,
}

/// Magnification filtering a sampler declares.
#[derive(Clone, Copy, Debug, PartialEq, Eq, Structural)]
pub enum MagFilter {
    Nearest,
    Linear,
}

/// Minification filtering a sampler declares.
#[derive(Clone, Copy, Debug, PartialEq, Eq, Structural)]
pub enum MinFilter {
    Nearest,
    Linear,
    NearestMipmapNearest,
    LinearMipmapNearest,
    NearestMipmapLinear,
    LinearMipmapLinear,
}

/// One sampler of the document.
#[derive(Clone, Copy, Debug)]
pub struct SamplerDesc {
    pub wrap_s: WrappingMode,
    pub wrap_t: WrappingMode,
    pub mag_filter: Option<MagFilter>,
    pub min_filter: Option<MinFilter>,
}

/// Scalar factors and texture references of one material.  Factors are
/// 32-bit patterns of the scene file's values.
#[derive(Clone, Copy, Debug)]
pub struct MaterialDesc {
    pub base_color_factor: [u32; 4],
    pub metallic_factor: u32,
    pub roughness_factor: u32,
    pub base_color_texture: Option<usize>,
    pub metallic_roughness_texture: Option<usize>,
}

impl MaterialDesc {
    /// The factors of the shared default material: white base color and
    /// unit metallic and roughness factors, with no textures.
    pub fn default_material() -> (r: MaterialDesc)
        ensures
            r == MaterialDesc::spec_default_material(),
    {
        MaterialDesc {
            base_color_factor: [
                crate::data::ONE_BITS,
                crate::data::ONE_BITS,
                crate::data::ONE_BITS,
                crate::data::ONE_BITS,
            ],
            metallic_factor: crate::data::ONE_BITS,
            roughness_factor: crate::data::ONE_BITS,
            base_color_texture: None,
            metallic_roughness_texture: None,
        }
    }

    /// What `default_material` returns.
    pub open spec fn spec_default_material() -> MaterialDesc {
        MaterialDesc {
            base_color_factor: [
                crate::data::ONE_BITS,
                crate::data::ONE_BITS,
                crate::data::ONE_BITS,
                crate::data::ONE_BITS,
            ],
            metallic_factor: crate::data::ONE_BITS,
            roughness_factor: crate::data::ONE_BITS,
            base_color_texture: None,
            metallic_roughness_texture: None,
        }
    }
}

/// A parsed scene-interchange document, consumed read-only by index.
pub struct Document {
    pub scenes: Vec<SceneDesc>,
    pub nodes: Vec<NodeDesc>,
    pub meshes: Vec<MeshDesc>,
    pub materials: Vec<MaterialDesc>,
    pub textures: Vec<TextureDesc>,
    pub samplers: Vec<SamplerDesc>,
    pub accessors: Vec<AccessorDesc>,
    /// How many images the document declares; their pixels come from the
    /// byte-resolving collaborator.
    pub image_count: usize,
}

impl Document {
    /// Looks a scene up by identifier.  Succeeds exactly when the
    /// document has a scene with that index.
    pub fn get_scene(&self, scene_id: usize) -> (r: Result<&SceneDesc, Error>)
        ensures
            match r {
                Ok(s) => scene_id < self.scenes@.len() && *s == self.scenes@[scene_id as int],
                Err(e) => scene_id >= self.scenes@.len() && e.spec_kind() == ErrorKind::MissingScene,
            },
    {
        match self.scenes.get(scene_id) {
            Some(s) => Ok(s),
            None => Err(
                Error::of_kind(
                    ErrorKind::MissingScene,
                    "No scene exists with the given ID".to_string(),
                ),
            ),
        }
    }
}

} // verus!
