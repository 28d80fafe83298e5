//! Cubemap assembly: six faces per mip level, packed into one upload
//! plan for a single six-layer texture.

use vstd::prelude::*;

use crate::cubeloader::{spec_mip_dim, CubeMapLoader};
use crate::error::{Error, ErrorKind};
use crate::texture::{AddressMode, FilterMode, Sampler};

verus! {

/// One face upload: the target mip level and array layer, the face
/// dimensions at that level, and the texel bytes.
pub struct FaceWrite {
    pub mip_level: u32,
    pub face_index: u32,
    pub width: u32,
    pub height: u32,
    pub data: Vec<u8>,
}

/// A cubemap ready for upload: level-0 face dimensions, a mip level
/// count, the face writes in mip-major order (+X, −X, +Y, −Y, +Z, −Z
/// within each level), and the linear clamped sampler every cubemap is
/// bound with.
pub struct CubeMap {
    pub width: u32,
    pub height: u32,
    pub mip_level_count: u32,
    pub writes: Vec<FaceWrite>,
    pub sampler: Sampler,
}

/// A cubemap is assembled from a loader when its dimensions, level
/// count and sampler come from the container and its writes cover the
/// six faces of every mip level in mip-major fixed order, each carrying
/// the loader's bytes for that face at the level's halved dimensions.
pub open spec fn spec_cubemap_from<C: CubeMapLoader>(c: CubeMap, loader: C) -> bool {
    &&& (c.width, c.height) == loader.spec_face_dimensions()
    &&& c.mip_level_count == loader.spec_mip_level_count()
    &&& c.sampler == spec_cubemap_sampler()
    &&& c.writes@.len() == 6 * (c.mip_level_count as int)
    &&& forall|w: int|
        0 <= w < c.writes@.len() ==> {
            let entry = #[trigger] c.writes@[w];
            &&& entry.mip_level as int == w / 6
            &&& entry.face_index as int == w % 6
            &&& entry.width as int == spec_mip_dim(c.width, entry.mip_level)
            &&& entry.height as int == spec_mip_dim(c.height, entry.mip_level)
            &&& loader.spec_face_bytes(w % 6, w / 6) == Some(entry.data@)
        }
}

/// The sampler every cubemap is bound with: clamped addressing, linear
/// filtering throughout.
pub open spec fn spec_cubemap_sampler() -> Sampler {
    Sampler {
        address_mode_u: AddressMode::ClampToEdge,
        address_mode_v: AddressMode::ClampToEdge,
        address_mode_w: AddressMode::ClampToEdge,
        mag_filter: FilterMode::Linear,
        min_filter: FilterMode::Linear,
        mipmap_filter: FilterMode::Linear,
    }
}

impl CubeMap {
    /// Assembles a cubemap from a container: for every mip level the six
    /// faces are taken from the loader in the fixed order +X, −X, +Y,
    /// −Y, +Z, −Z and recorded against their mip level and array layer.
    /// Fails — returning no partial plan — when the loader cannot hand a
    /// face out.
    #[verifier::loop_isolation(false)]
    pub fn from_loader<C: CubeMapLoader>(loader: &C) -> (r: Result<CubeMap, Error>)
        ensures
            r matches Ok(c) ==> spec_cubemap_from(c, *loader),
    {
        let (width, height): (u32, u32) = loader.face_dimensions();
        let mip_level_count: u32 = loader.mip_level_count();

        let mut writes: Vec<FaceWrite> = Vec::new();
        let mut mip_level: u32 = 0;
        while mip_level < mip_level_count
            invariant
                0 <= mip_level <= mip_level_count,
                writes@.len() == 6 * (mip_level as int),
                forall|w: int|
                    0 <= w < writes@.len() ==> {
                        let entry = #[trigger] writes@[w];
                        &&& entry.mip_level as int == w / 6
                        &&& entry.face_index as int == w % 6
                        &&& entry.width as int == spec_mip_dim(width, entry.mip_level)
                        &&& entry.height as int == spec_mip_dim(height, entry.mip_level)
                        &&& loader.spec_face_bytes(w % 6, w / 6) == Some(entry.data@)
                    },
            decreases mip_level_count - mip_level,
        {
            let face_width: u32 = if mip_level < 32 {
                width >> mip_level
            } else {
                0
            };
            let face_height: u32 = if mip_level < 32 {
                height >> mip_level
            } else {
                0
            };
            proof {
                lemma_mip_dim_matches_shift(width, mip_level);
                lemma_mip_dim_matches_shift(height, mip_level);
            }

            let positive_x = match loader.load_positive_x_face(mip_level) {
                Ok(data) => data,
                Err(e) => {
                    return Err(e);
                },
            };
            let negative_x = match loader.load_negative_x_face(mip_level) {
                Ok(data) => data,
                Err(e) => {
                    return Err(e);
                },
            };
            let positive_y = match loader.load_positive_y_face(mip_level) {
                Ok(data) => data,
                Err(e) => {
                    return Err(e);
                },
            };
            let negative_y = match loader.load_negative_y_face(mip_level) {
                Ok(data) => data,
                Err(e) => {
                    return Err(e);
                },
            };
            let positive_z = match loader.load_positive_z_face(mip_level) {
                Ok(data) => data,
                Err(e) => {
                    return Err(e);
                },
            };
            let negative_z = match loader.load_negative_z_face(mip_level) {
                Ok(data) => data,
                Err(e) => {
                    return Err(e);
                },
            };

            writes.push(
                FaceWrite {
                    mip_level,
                    face_index: 0,
                    width: face_width,
                    height: face_height,
                    data: positive_x,
                },
            );
            writes.push(
                FaceWrite {
                    mip_level,
                    face_index: 1,
                    width: face_width,
                    height: face_height,
                    data: negative_x,
                },
            );
            writes.push(
                FaceWrite {
                    mip_level,
                    face_index: 2,
                    width: face_width,
                    height: face_height,
                    data: positive_y,
                },
            );
            writes.push(
                FaceWrite {
                    mip_level,
                    face_index: 3,
                    width: face_width,
                    height: face_height,
                    data: negative_y,
                },
            );
            writes.push(
                FaceWrite {
                    mip_level,
                    face_index: 4,
                    width: face_width,
                    height: face_height,
                    data: positive_z,
                },
            );
            writes.push(
                FaceWrite {
                    mip_level,
                    face_index: 5,
                    width: face_width,
                    height: face_height,
                    data: negative_z,
                },
            );

            mip_level = mip_level + 1;
        }

        Ok(
            CubeMap {
                width,
                height,
                mip_level_count,
                writes,
                sampler: Sampler {
                    address_mode_u: AddressMode::ClampToEdge,
                    address_mode_v: AddressMode::ClampToEdge,
                    address_mode_w: AddressMode::ClampToEdge,
                    mag_filter: FilterMode::Linear,
                    min_filter: FilterMode::Linear,
                    mipmap_filter: FilterMode::Linear,
                },
            },
        )
    }

    /// The fallback cubemap: one mip level of six single-pixel white
    /// faces.
    pub fn create_default_cubemap() -> (r: CubeMap)
        ensures
            r.width == 1 && r.height == 1 && r.mip_level_count == 1,
            r.sampler == spec_cubemap_sampler(),
            r.writes@.len() == 6,
            forall|w: int|
                0 <= w < 6 ==> {
                    let entry = #[trigger] r.writes@[w];
                    &&& entry.mip_level == 0
                    &&& entry.face_index as int == w
                    &&& entry.data@ == seq![255u8, 255u8, 255u8, 255u8]
                },
    {
        let mut writes: Vec<FaceWrite> = Vec::new();
        let mut layer: u32 = 0;
        while layer < 6
            invariant
                0 <= layer <= 6,
                writes@.len() == layer as int,
                forall|w: int|
                    0 <= w < layer as int ==> {
                        let entry = #[trigger] writes@[w];
                        &&& entry.mip_level == 0
                        &&& entry.face_index as int == w
                        &&& entry.data@ == seq![255u8, 255u8, 255u8, 255u8]
                    },
            decreases 6 - layer,
        {
            let image_data: Vec<u8> = vec![255u8, 255u8, 255u8, 255u8];
            proof {
                assert(image_data@ =~= seq![255u8, 255u8, 255u8, 255u8]);
            }
            writes.push(
                FaceWrite { mip_level: 0, face_index: layer, width: 1, height: 1, data: image_data },
            );
            layer = layer + 1;
        }

        CubeMap {
            width: 1,
            height: 1,
            mip_level_count: 1,
            writes,
            sampler: Sampler {
                address_mode_u: AddressMode::ClampToEdge,
                address_mode_v: AddressMode::ClampToEdge,
                address_mode_w: AddressMode::ClampToEdge,
                mag_filter: FilterMode::Linear,
                min_filter: FilterMode::Linear,
                mipmap_filter: FilterMode::Linear,
            },
        }
    }
}

/// The halved dimension of a mip level equals the right shift the code
/// computes: division by a power of two, and zero once the divisor
/// exceeds every 32-bit value.
proof fn lemma_mip_dim_matches_shift(d: u32, mip_level: u32)
    ensures
        mip_level < 32 ==> (d >> mip_level) as int == spec_mip_dim(d, mip_level),
        mip_level >= 32 ==> spec_mip_dim(d, mip_level) == 0,
{
    if mip_level < 32 {
        vstd::bits::lemma_u32_shr_is_div(d, mip_level);
    } else {
        vstd::arithmetic::power2::lemma2_to64();
        vstd::arithmetic::power2::lemma_pow2_adds(32, (mip_level - 32) as nat);
        vstd::arithmetic::power2::lemma_pow2_pos((mip_level - 32) as nat);
        assert(vstd::arithmetic::power2::pow2(mip_level as nat) >= 0x1_0000_0000)
            by (nonlinear_arith)
            requires
                vstd::arithmetic::power2::pow2(mip_level as nat)
                    == vstd::arithmetic::power2::pow2(32) * vstd::arithmetic::power2::pow2(
                    (mip_level - 32) as nat,
                ),
                vstd::arithmetic::power2::pow2(32) == 0x1_0000_0000,
                vstd::arithmetic::power2::pow2((mip_level - 32) as nat) >= 1,
        ;
        assert((d as int) / (vstd::arithmetic::power2::pow2(mip_level as nat) as int) == 0)
            by (nonlinear_arith)
            requires
                0 <= d < vstd::arithmetic::power2::pow2(mip_level as nat),
        ;
    }
}

/// The dimension of a texture handed in to be wrapped as a cubemap.
#[derive(Clone, Copy, Debug, PartialEq, Eq, Structural)]
pub enum TextureDimension {
    D1,
    D2,
    D3,
}

/// Checks that a texture can serve as a cubemap: it must be
/// two-dimensional with exactly six array layers.  Succeeds on exactly
/// those textures.
pub fn validate_cube_texture(dimension: TextureDimension, depth_or_array_layers: u32) -> (r: Result<
    (),
    Error,
>)
    ensures
        r is Ok <==> (dimension == TextureDimension::D2 && depth_or_array_layers == 6),
        r matches Err(e) ==> e.spec_kind() == ErrorKind::InvalidCubeTexture,
{
    match dimension {
        TextureDimension::D2 => {},
        _ => {
            return Err(
                Error::of_kind(
                    ErrorKind::InvalidCubeTexture,
                    "The given texture does not have the required dimension".to_string(),
                ),
            );
        },
    }

    if depth_or_array_layers != 6 {
        return Err(
            Error::of_kind(
                ErrorKind::InvalidCubeTexture,
                "The given texture does not have the required number of depth/array layers".to_string(),
            ),
        );
    }

    Ok(())
}

} // verus!
