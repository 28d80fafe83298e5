//! Shared-ownership support for registry entries.
//!
//! Registries hand entries out as reference-counted pointers, so meshes,
//! materials, textures and pipelines stay alive exactly as long as some
//! node or primitive uses them.

use std::rc::Rc;

use vstd::prelude::*;

verus! {

/// Relies on `std::rc::Rc::clone`: cloning a reference-counted pointer
/// yields a pointer to the same allocation, hence to the same value.
#[verifier::external_body]
pub fn rc_clone<T>(rc: &Rc<T>) -> (r: Rc<T>)
    ensures
        r == *rc,
{
    Rc::clone(rc)
}

} // verus!
