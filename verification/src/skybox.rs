//! The skybox and its view-projection state.
//!
//! A skybox must appear infinitely distant: whatever camera transform it
//! is updated from, its view matrix zeroes the translation and forces
//! unit scale, keeping only the rotation.

use vstd::prelude::*;

use crate::cubemap::CubeMap;
use crate::data::{Transform, ONE_BITS, ZERO_BITS};

verus! {

/// The transform a skybox view is built from: the camera's rotation with
/// the translation discarded and the scale forced to one.
pub open spec fn spec_skybox_view_transform(camera: Transform) -> Transform {
    Transform {
        translation: [ZERO_BITS, ZERO_BITS, ZERO_BITS],
        rotation: camera.rotation,
        scale: [ONE_BITS, ONE_BITS, ONE_BITS],
    }
}

/// A skybox: its cubemap and the transform its view-projection uniform
/// was last built from.
pub struct Skybox {
    pub cubemap: CubeMap,
    pub view_transform: Transform,
}

impl Skybox {
    /// Wraps a cubemap with an identity view orientation.
    pub fn new(cubemap: CubeMap) -> (r: Skybox)
        ensures
            r.cubemap == cubemap,
            r.view_transform == Transform::spec_identity(),
    {
        Skybox { cubemap, view_transform: Transform::identity() }
    }

    /// Rebuilds the view-projection state from a camera transform,
    /// deliberately discarding its translation and scale.
    pub fn update_view_projection(&mut self, transform: Transform)
        ensures
            final(self).cubemap == old(self).cubemap,
            final(self).view_transform == spec_skybox_view_transform(transform),
    {
        self.view_transform = Transform {
            translation: [ZERO_BITS, ZERO_BITS, ZERO_BITS],
            rotation: transform.rotation,
            scale: [ONE_BITS, ONE_BITS, ONE_BITS],
        };
    }
}

} // verus!
