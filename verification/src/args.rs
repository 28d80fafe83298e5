//! Startup arguments the shell hands the library's loaders.

use vstd::prelude::*;

verus! {

/// Paths to the three assets of one lighting environment.
#[derive(Clone, Debug)]
pub struct IblEnvironmentPaths {
    pub skybox: String,
    pub diffuse: String,
    pub specular: String,
}

/// What the viewer was asked to display: an optional scene file and an
/// optional lighting environment.
#[derive(Debug)]
pub struct Args {
    pub gltf: Option<String>,
    pub ibl_environment: Option<IblEnvironmentPaths>,
}

} // verus!
