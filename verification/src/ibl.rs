//! Image-based-lighting assets: the atomic environment bundle and its
//! loader interface.

use vstd::prelude::*;

use crate::cubeloader::CubeMapLoader;
use crate::cubemap::{spec_cubemap_from, spec_cubemap_sampler, CubeMap};
use crate::error::Error;
use crate::skybox::Skybox;

verus! {

/// A high-dynamic-range image: four 32-bit channels per pixel, each held
/// as its bit pattern.
pub struct HdrImage {
    pub width: u32,
    pub height: u32,
    pub data: Vec<u32>,
}

impl HdrImage {
    /// A well-formed image holds four channel values per pixel.
    pub open spec fn wf(&self) -> bool {
        self.data@.len() == 4 * (self.width as int) * (self.height as int)
    }
}

/// The BRDF lookup texture of an environment.
pub struct GgxLut {
    pub image: HdrImage,
}

/// One lighting environment, assembled off to the side and swapped in as
/// a unit: skybox cubemap, diffuse irradiance cubemap, specular
/// prefiltered cubemap, and the BRDF lookup texture.
pub struct IblEnvironment {
    pub skybox: Skybox,
    pub diffuse_cubemap: CubeMap,
    pub specular_cubemap: CubeMap,
    pub ggx_lut: GgxLut,
}

/// Supplies the parts an environment is assembled from: a panorama for
/// the skybox, two cubemap containers, and the BRDF lookup image.
pub trait IblEnvironmentLoader: Sized {
    /// The cubemap container type this loader hands out.
    type Cube: CubeMapLoader;

    /// The equirectangular panorama the skybox is projected from.
    fn load_equirectangular_skybox(&self) -> (r: Result<HdrImage, Error>)
        ensures
            r matches Ok(img) ==> img.wf(),
    ;

    /// The diffuse irradiance cubemap container.
    fn get_diffuse_cubemap_loader(&self) -> Result<Self::Cube, Error>;

    /// The specular prefiltered cubemap container.
    fn get_specular_cubemap_loader(&self) -> Result<Self::Cube, Error>;

    /// The BRDF lookup image.
    fn load_ggx_lut(&self) -> (r: Result<HdrImage, Error>)
        ensures
            r matches Ok(img) ==> img.wf(),
    ;
}

/// Assembles the two lighting cubemaps of an environment from their
/// containers.  Fails — assembling nothing — when a container cannot be
/// had or cannot hand a face out; the caller then keeps its previous
/// environment.  Each returned cubemap is the faithful assembly of a
/// container the collaborator handed out.
pub fn load_ibl_cubemaps<I: IblEnvironmentLoader>(ibl_environment_loader: &I) -> (r: Result<
    (CubeMap, CubeMap),
    Error,
>)
    ensures
        r matches Ok(maps) ==> {
            &&& (exists|diffuse: I::Cube| spec_cubemap_from(maps.0, diffuse))
            &&& (exists|specular: I::Cube| spec_cubemap_from(maps.1, specular))
            &&& maps.0.writes@.len() == 6 * (maps.0.mip_level_count as int)
            &&& maps.1.writes@.len() == 6 * (maps.1.mip_level_count as int)
            &&& maps.0.sampler == spec_cubemap_sampler()
            &&& maps.1.sampler == spec_cubemap_sampler()
        },
{
    let diffuse_loader = match ibl_environment_loader.get_diffuse_cubemap_loader() {
        Ok(diffuse_loader) => diffuse_loader,
        Err(e) => {
            return Err(e);
        },
    };
    let diffuse_cubemap = match CubeMap::from_loader(&diffuse_loader) {
        Ok(diffuse_cubemap) => diffuse_cubemap,
        Err(e) => {
            return Err(e);
        },
    };

    let specular_loader = match ibl_environment_loader.get_specular_cubemap_loader() {
        Ok(specular_loader) => specular_loader,
        Err(e) => {
            return Err(e);
        },
    };
    let specular_cubemap = match CubeMap::from_loader(&specular_loader) {
        Ok(specular_cubemap) => specular_cubemap,
        Err(e) => {
            return Err(e);
        },
    };

    proof {
        assert(spec_cubemap_from(diffuse_cubemap, diffuse_loader));
        assert(spec_cubemap_from(specular_cubemap, specular_loader));
    }
    Ok((diffuse_cubemap, specular_cubemap))
}

} // verus!
