//! Materials and the uniform-buffer image of their factors.

use std::rc::Rc;

use vstd::bytes::{spec_u32_to_le_bytes, u32_to_le_bytes};
use vstd::prelude::*;

use crate::asset::MaterialDesc;
use crate::texture::Texture2DPackage;

verus! {

/// A loaded material: the document's scalar and vector factors (32-bit
/// patterns), and the two shared textures it samples.  Immutable after
/// construction; primitives share it through its registry entry.
pub struct Material {
    pub base_color_factor: [u32; 4],
    pub metallic_factor: u32,
    pub roughness_factor: u32,
    pub base_color_texture: Rc<Texture2DPackage>,
    pub metallic_roughness_texture: Rc<Texture2DPackage>,
}

/// The 32-byte uniform image of a material's factors: the base color
/// components, then the metallic and roughness factors, all little
/// endian, padded to 32 bytes with eight zero bytes.
pub open spec fn spec_uniform_bytes(
    base_color_factor: [u32; 4],
    metallic_factor: u32,
    roughness_factor: u32,
) -> Seq<u8> {
    spec_u32_to_le_bytes(base_color_factor[0]) + spec_u32_to_le_bytes(base_color_factor[1])
        + spec_u32_to_le_bytes(base_color_factor[2]) + spec_u32_to_le_bytes(base_color_factor[3])
        + spec_u32_to_le_bytes(metallic_factor) + spec_u32_to_le_bytes(roughness_factor) + seq![
        0u8,
        0u8,
        0u8,
        0u8,
        0u8,
        0u8,
        0u8,
        0u8,
    ]
}

impl Material {
    /// Builds a material from its document description and the two
    /// textures resolved for it.
    pub fn new(
        desc: &MaterialDesc,
        base_color_texture: Rc<Texture2DPackage>,
        metallic_roughness_texture: Rc<Texture2DPackage>,
    ) -> (r: Material)
        ensures
            r.base_color_factor == desc.base_color_factor,
            r.metallic_factor == desc.metallic_factor,
            r.roughness_factor == desc.roughness_factor,
            r.base_color_texture == base_color_texture,
            r.metallic_roughness_texture == metallic_roughness_texture,
    {
        Material {
            base_color_factor: desc.base_color_factor,
            metallic_factor: desc.metallic_factor,
            roughness_factor: desc.roughness_factor,
            base_color_texture,
            metallic_roughness_texture,
        }
    }

    /// The bytes written into this material's uniform buffer.
    pub fn uniform_bytes(&self) -> (r: Vec<u8>)
        ensures
            r@ == spec_uniform_bytes(
                self.base_color_factor,
                self.metallic_factor,
                self.roughness_factor,
            ),
    {
        let mut out: Vec<u8> = Vec::new();
        let mut part: Vec<u8> = u32_to_le_bytes(self.base_color_factor[0]);
        out.append(&mut part);
        let mut part: Vec<u8> = u32_to_le_bytes(self.base_color_factor[1]);
        out.append(&mut part);
        let mut part: Vec<u8> = u32_to_le_bytes(self.base_color_factor[2]);
        out.append(&mut part);
        let mut part: Vec<u8> = u32_to_le_bytes(self.base_color_factor[3]);
        out.append(&mut part);
        let mut part: Vec<u8> = u32_to_le_bytes(self.metallic_factor);
        out.append(&mut part);
        let mut part: Vec<u8> = u32_to_le_bytes(self.roughness_factor);
        out.append(&mut part);
        let mut pad: Vec<u8> = vec![0u8, 0u8, 0u8, 0u8, 0u8, 0u8, 0u8, 0u8];
        out.append(&mut pad);
        proof {
            assert(out@ =~= spec_uniform_bytes(
                self.base_color_factor,
                self.metallic_factor,
                self.roughness_factor,
            ));
        }
        out
    }
}

} // verus!
