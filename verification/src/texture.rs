//! Sampler and texture entities of a loaded scene.

use std::rc::Rc;

use vstd::prelude::*;

use crate::asset::{MagFilter, MinFilter, SamplerDesc, WrappingMode};
use crate::image::Image;

verus! {

/// How the GPU addresses texture coordinates outside the unit interval.
#[derive(Clone, Copy, Debug, PartialEq, Eq, Structural)]
pub enum AddressMode {
    ClampToEdge,
    Repeat,
    MirrorRepeat,
}

/// A GPU filtering mode.
#[derive(Clone, Copy, Debug, PartialEq, Eq, Structural)]
pub enum FilterMode {
    Nearest,
    Linear,
}

/// The GPU format a scene texture is uploaded in.
#[derive(Clone, Copy, Debug, PartialEq, Eq, Structural)]
pub enum TextureFormat {
    Rgba8Unorm,
    Rgba8UnormSrgb,
}

/// A GPU sampler's complete configuration.
#[derive(Clone, Copy, Debug, PartialEq, Eq, Structural)]
pub struct Sampler {
    pub address_mode_u: AddressMode,
    pub address_mode_v: AddressMode,
    pub address_mode_w: AddressMode,
    pub mag_filter: FilterMode,
    pub min_filter: FilterMode,
    pub mipmap_filter: FilterMode,
}

/// The address mode a document wrapping mode maps to.
pub open spec fn spec_address_mode(w: WrappingMode) -> AddressMode {
    match w {
        WrappingMode::ClampToEdge => AddressMode::ClampToEdge,
        WrappingMode::Repeat => AddressMode::Repeat,
        WrappingMode::MirroredRepeat => AddressMode::MirrorRepeat,
    }
}

/// The magnification filter a document filter maps to; linear when the
/// document leaves it open.
pub open spec fn spec_mag_filter(m: Option<MagFilter>) -> FilterMode {
    match m {
        Some(MagFilter::Linear) => FilterMode::Linear,
        Some(MagFilter::Nearest) => FilterMode::Nearest,
        None => FilterMode::Linear,
    }
}

/// The minification filter a document filter maps to: linear for the
/// three linear-sampling modes, nearest otherwise, linear when open.
pub open spec fn spec_min_filter(m: Option<MinFilter>) -> FilterMode {
    match m {
        Some(MinFilter::Linear) | Some(MinFilter::LinearMipmapLinear) | Some(
            MinFilter::LinearMipmapNearest,
        ) => FilterMode::Linear,
        Some(_) => FilterMode::Nearest,
        None => FilterMode::Linear,
    }
}

/// The mipmap filter a document filter maps to: linear for the modes
/// that blend between mip levels, nearest otherwise, linear when open.
pub open spec fn spec_mipmap_filter(m: Option<MinFilter>) -> FilterMode {
    match m {
        Some(MinFilter::Linear) | Some(MinFilter::LinearMipmapLinear) | Some(
            MinFilter::NearestMipmapLinear,
        ) => FilterMode::Linear,
        Some(_) => FilterMode::Nearest,
        None => FilterMode::Linear,
    }
}

/// The sampler a document sampler description maps to.  The third
/// coordinate always clamps: scene textures are two-dimensional.
pub open spec fn spec_sampler_of(d: SamplerDesc) -> Sampler {
    Sampler {
        address_mode_u: spec_address_mode(d.wrap_s),
        address_mode_v: spec_address_mode(d.wrap_t),
        address_mode_w: AddressMode::ClampToEdge,
        mag_filter: spec_mag_filter(d.mag_filter),
        min_filter: spec_min_filter(d.min_filter),
        mipmap_filter: spec_mipmap_filter(d.min_filter),
    }
}

impl Sampler {
    /// Builds the sampler a document sampler description calls for.
    pub fn from_desc(d: &SamplerDesc) -> (r: Sampler)
        ensures
            r == spec_sampler_of(*d),
    {
        let address_mode_u: AddressMode = match d.wrap_s {
            WrappingMode::ClampToEdge => AddressMode::ClampToEdge,
            WrappingMode::Repeat => AddressMode::Repeat,
            WrappingMode::MirroredRepeat => AddressMode::MirrorRepeat,
        };

        let address_mode_v: AddressMode = match d.wrap_t {
            WrappingMode::ClampToEdge => AddressMode::ClampToEdge,
            WrappingMode::Repeat => AddressMode::Repeat,
            WrappingMode::MirroredRepeat => AddressMode::MirrorRepeat,
        };

        let mag_filter: FilterMode = match d.mag_filter {
            Some(mag_filter) => match mag_filter {
                MagFilter::Linear => FilterMode::Linear,
                MagFilter::Nearest => FilterMode::Nearest,
            },
            None => FilterMode::Linear,
        };

        let min_filter: FilterMode = match d.min_filter {
            Some(min_filter) => match min_filter {
                MinFilter::Linear | MinFilter::LinearMipmapLinear
                    | MinFilter::LinearMipmapNearest => FilterMode::Linear,
                _ => FilterMode::Nearest,
            },
            None => FilterMode::Linear,
        };

        let mipmap_filter: FilterMode = match d.min_filter {
            Some(min_filter) => match min_filter {
                MinFilter::Linear | MinFilter::LinearMipmapLinear
                    | MinFilter::NearestMipmapLinear => FilterMode::Linear,
                _ => FilterMode::Nearest,
            },
            None => FilterMode::Linear,
        };

        Sampler {
            address_mode_u,
            address_mode_v,
            address_mode_w: AddressMode::ClampToEdge,
            mag_filter,
            min_filter,
            mipmap_filter,
        }
    }

    /// The sampler paired with the lazily built default texture: clamped
    /// addressing with nearest filtering throughout.
    pub fn default_texture_sampler() -> (r: Sampler)
        ensures
            r == Sampler::spec_default_texture_sampler(),
    {
        Sampler {
            address_mode_u: AddressMode::ClampToEdge,
            address_mode_v: AddressMode::ClampToEdge,
            address_mode_w: AddressMode::ClampToEdge,
            mag_filter: FilterMode::Nearest,
            min_filter: FilterMode::Nearest,
            mipmap_filter: FilterMode::Nearest,
        }
    }

    /// What `default_texture_sampler` returns.
    pub open spec fn spec_default_texture_sampler() -> Sampler {
        Sampler {
            address_mode_u: AddressMode::ClampToEdge,
            address_mode_v: AddressMode::ClampToEdge,
            address_mode_w: AddressMode::ClampToEdge,
            mag_filter: FilterMode::Nearest,
            min_filter: FilterMode::Nearest,
            mipmap_filter: FilterMode::Nearest,
        }
    }
}

/// A scene texture ready for GPU upload: the decoded image, the format
/// it is uploaded in, and the sampler it is bound with.
pub struct Texture2DPackage {
    pub image: Rc<Image>,
    pub format: TextureFormat,
    pub sampler: Rc<Sampler>,
}

} // verus!
