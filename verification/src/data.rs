//! Plain-value carriers for the floating-point quantities of a scene.
//!
//! The resource builder never computes with real arithmetic: every scalar
//! that is ultimately an IEEE 754 value (translations, rotations, scale
//! factors, material factors, aspect ratios) is carried through the
//! library as its 32-bit pattern.  Composition of transforms into
//! matrices is left to the rendering shell, which receives the exact
//! chain of local transforms to compose, in order.

use vstd::prelude::*;

verus! {

/// The bit pattern of the 32-bit value `1.0`.
pub const ONE_BITS: u32 = 0x3F80_0000;

/// The bit pattern of the 32-bit value `0.0`.
pub const ZERO_BITS: u32 = 0;

/// A local transform: translation, rotation quaternion and non-uniform
/// scale, each component held as a 32-bit pattern.
#[derive(Clone, Copy, Debug)]
pub struct Transform {
    pub translation: [u32; 3],
    pub rotation: [u32; 4],
    pub scale: [u32; 3],
}

/// True when two three-component vectors hold the same bit patterns.
pub open spec fn spec_vec3_eq(a: [u32; 3], b: [u32; 3]) -> bool {
    a[0] == b[0] && a[1] == b[1] && a[2] == b[2]
}

/// True when two quaternions hold the same bit patterns.
pub open spec fn spec_quat_eq(a: [u32; 4], b: [u32; 4]) -> bool {
    a[0] == b[0] && a[1] == b[1] && a[2] == b[2] && a[3] == b[3]
}

/// Compares two quaternions component by component, as bit patterns.
pub fn quat_eq(a: &[u32; 4], b: &[u32; 4]) -> (r: bool)
    ensures
        r == spec_quat_eq(*a, *b),
{
    a[0] == b[0] && a[1] == b[1] && a[2] == b[2] && a[3] == b[3]
}

impl PartialEq for Transform {
    fn eq(&self, other: &Transform) -> (r: bool) {
        self.translation[0] == other.translation[0] && self.translation[1]
            == other.translation[1] && self.translation[2] == other.translation[2]
            && self.rotation[0] == other.rotation[0] && self.rotation[1] == other.rotation[1]
            && self.rotation[2] == other.rotation[2] && self.rotation[3] == other.rotation[3]
            && self.scale[0] == other.scale[0] && self.scale[1] == other.scale[1] && self.scale[2]
            == other.scale[2]
    }
}

impl vstd::std_specs::cmp::PartialEqSpecImpl for Transform {
    open spec fn obeys_eq_spec() -> bool {
        true
    }

    open spec fn eq_spec(&self, other: &Transform) -> bool {
        spec_vec3_eq(self.translation, other.translation) && spec_quat_eq(
            self.rotation,
            other.rotation,
        ) && spec_vec3_eq(self.scale, other.scale)
    }
}

impl Transform {
    /// The identity transform: zero translation, zero rotation data and
    /// unit scale, mirroring the default a node without a transform gets.
    pub fn identity() -> (r: Transform)
        ensures
            r == Transform::spec_identity(),
    {
        Transform {
            translation: [ZERO_BITS, ZERO_BITS, ZERO_BITS],
            rotation: [ZERO_BITS, ZERO_BITS, ZERO_BITS, ZERO_BITS],
            scale: [ONE_BITS, ONE_BITS, ONE_BITS],
        }
    }

    /// What `identity` returns.
    pub open spec fn spec_identity() -> Transform {
        Transform {
            translation: [ZERO_BITS, ZERO_BITS, ZERO_BITS],
            rotation: [ZERO_BITS, ZERO_BITS, ZERO_BITS, ZERO_BITS],
            scale: [ONE_BITS, ONE_BITS, ONE_BITS],
        }
    }
}

impl Default for Transform {
    /// The default transform is the identity transform.
    fn default() -> (r: Transform)
        ensures
            r == Transform::spec_identity(),
    {
        Transform::identity()
    }
}

} // verus!
