//! The equirectangular-to-cubemap projection plan.
//!
//! Six independent passes, one per cube face, each drawing a fullscreen
//! triangle into a distinct array layer of one six-layer texture.  Each
//! pass binds a per-face direction and U/V basis; the six orthonormal
//! basis triples are fixed at construction time.

use vstd::bytes::{spec_u32_to_le_bytes, u32_to_le_bytes};
use vstd::prelude::*;

use crate::data::{ONE_BITS, ZERO_BITS};

verus! {

/// The bit pattern of the 32-bit value `-1.0`.
pub const NEG_ONE_BITS: u32 = 0xBF80_0000;

/// One face's sampling basis: the face direction and the two axes that
/// span its texture plane, each component a 32-bit pattern.
#[derive(Clone, Copy, Debug)]
pub struct FaceDirectionUVMappingUniform {
    pub direction: [u32; 3],
    pub u_mapping: [u32; 3],
    pub v_mapping: [u32; 3],
}

/// The fixed basis of each face, in the order +X, −X, +Y, −Y, +Z, −Z.
pub open spec fn spec_face_mapping(face_index: int) -> FaceDirectionUVMappingUniform {
    if face_index == 0 {
        FaceDirectionUVMappingUniform {
            direction: [ONE_BITS, ZERO_BITS, ZERO_BITS],
            u_mapping: [ZERO_BITS, ZERO_BITS, ONE_BITS],
            v_mapping: [ZERO_BITS, ONE_BITS, ZERO_BITS],
        }
    } else if face_index == 1 {
        FaceDirectionUVMappingUniform {
            direction: [NEG_ONE_BITS, ZERO_BITS, ZERO_BITS],
            u_mapping: [ZERO_BITS, ZERO_BITS, NEG_ONE_BITS],
            v_mapping: [ZERO_BITS, ONE_BITS, ZERO_BITS],
        }
    } else if face_index == 2 {
        FaceDirectionUVMappingUniform {
            direction: [ZERO_BITS, NEG_ONE_BITS, ZERO_BITS],
            u_mapping: [NEG_ONE_BITS, ZERO_BITS, ZERO_BITS],
            v_mapping: [ZERO_BITS, ZERO_BITS, ONE_BITS],
        }
    } else if face_index == 3 {
        FaceDirectionUVMappingUniform {
            direction: [ZERO_BITS, ONE_BITS, ZERO_BITS],
            u_mapping: [NEG_ONE_BITS, ZERO_BITS, ZERO_BITS],
            v_mapping: [ZERO_BITS, ZERO_BITS, NEG_ONE_BITS],
        }
    } else if face_index == 4 {
        FaceDirectionUVMappingUniform {
            direction: [ZERO_BITS, ZERO_BITS, ONE_BITS],
            u_mapping: [NEG_ONE_BITS, ZERO_BITS, ZERO_BITS],
            v_mapping: [ZERO_BITS, ONE_BITS, ZERO_BITS],
        }
    } else {
        FaceDirectionUVMappingUniform {
            direction: [ZERO_BITS, ZERO_BITS, NEG_ONE_BITS],
            u_mapping: [ONE_BITS, ZERO_BITS, ZERO_BITS],
            v_mapping: [ZERO_BITS, ONE_BITS, ZERO_BITS],
        }
    }
}

/// The 48-byte uniform image of a face basis: each vector's three
/// components little endian, padded to 16 bytes.
pub open spec fn spec_mapping_uniform_bytes(m: FaceDirectionUVMappingUniform) -> Seq<u8> {
    spec_u32_to_le_bytes(m.direction[0]) + spec_u32_to_le_bytes(m.direction[1])
        + spec_u32_to_le_bytes(m.direction[2]) + seq![0u8, 0u8, 0u8, 0u8] + spec_u32_to_le_bytes(
        m.u_mapping[0],
    ) + spec_u32_to_le_bytes(m.u_mapping[1]) + spec_u32_to_le_bytes(m.u_mapping[2]) + seq![
        0u8,
        0u8,
        0u8,
        0u8,
    ] + spec_u32_to_le_bytes(m.v_mapping[0]) + spec_u32_to_le_bytes(m.v_mapping[1])
        + spec_u32_to_le_bytes(m.v_mapping[2]) + seq![0u8, 0u8, 0u8, 0u8]
}

impl FaceDirectionUVMappingUniform {
    /// The basis of the face at `face_index` in the fixed order.
    pub fn for_face(face_index: u32) -> (r: FaceDirectionUVMappingUniform)
        requires
            face_index < 6,
        ensures
            r == spec_face_mapping(face_index as int),
    {
        if face_index == 0 {
            FaceDirectionUVMappingUniform::positive_x()
        } else if face_index == 1 {
            FaceDirectionUVMappingUniform::negative_x()
        } else if face_index == 2 {
            FaceDirectionUVMappingUniform::positive_y()
        } else if face_index == 3 {
            FaceDirectionUVMappingUniform::negative_y()
        } else if face_index == 4 {
            FaceDirectionUVMappingUniform::positive_z()
        } else {
            FaceDirectionUVMappingUniform::negative_z()
        }
    }

    /// The +X face basis.
    pub fn positive_x() -> (r: FaceDirectionUVMappingUniform)
        ensures
            r == spec_face_mapping(0),
    {
        FaceDirectionUVMappingUniform {
            direction: [ONE_BITS, ZERO_BITS, ZERO_BITS],
            u_mapping: [ZERO_BITS, ZERO_BITS, ONE_BITS],
            v_mapping: [ZERO_BITS, ONE_BITS, ZERO_BITS],
        }
    }

    /// The −X face basis.
    pub fn negative_x() -> (r: FaceDirectionUVMappingUniform)
        ensures
            r == spec_face_mapping(1),
    {
        FaceDirectionUVMappingUniform {
            direction: [NEG_ONE_BITS, ZERO_BITS, ZERO_BITS],
            u_mapping: [ZERO_BITS, ZERO_BITS, NEG_ONE_BITS],
            v_mapping: [ZERO_BITS, ONE_BITS, ZERO_BITS],
        }
    }

    /// The +Y face basis.
    pub fn positive_y() -> (r: FaceDirectionUVMappingUniform)
        ensures
            r == spec_face_mapping(2),
    {
        FaceDirectionUVMappingUniform {
            direction: [ZERO_BITS, NEG_ONE_BITS, ZERO_BITS],
            u_mapping: [NEG_ONE_BITS, ZERO_BITS, ZERO_BITS],
            v_mapping: [ZERO_BITS, ZERO_BITS, ONE_BITS],
        }
    }

    /// The −Y face basis.
    pub fn negative_y() -> (r: FaceDirectionUVMappingUniform)
        ensures
            r == spec_face_mapping(3),
    {
        FaceDirectionUVMappingUniform {
            direction: [ZERO_BITS, ONE_BITS, ZERO_BITS],
            u_mapping: [NEG_ONE_BITS, ZERO_BITS, ZERO_BITS],
            v_mapping: [ZERO_BITS, ZERO_BITS, NEG_ONE_BITS],
        }
    }

    /// The +Z face basis.
    pub fn positive_z() -> (r: FaceDirectionUVMappingUniform)
        ensures
            r == spec_face_mapping(4),
    {
        FaceDirectionUVMappingUniform {
            direction: [ZERO_BITS, ZERO_BITS, ONE_BITS],
            u_mapping: [NEG_ONE_BITS, ZERO_BITS, ZERO_BITS],
            v_mapping: [ZERO_BITS, ONE_BITS, ZERO_BITS],
        }
    }

    /// The −Z face basis.
    pub fn negative_z() -> (r: FaceDirectionUVMappingUniform)
        ensures
            r == spec_face_mapping(5),
    {
        FaceDirectionUVMappingUniform {
            direction: [ZERO_BITS, ZERO_BITS, NEG_ONE_BITS],
            u_mapping: [ONE_BITS, ZERO_BITS, ZERO_BITS],
            v_mapping: [ZERO_BITS, ONE_BITS, ZERO_BITS],
        }
    }

    /// The bytes written into this basis's uniform buffer.
    pub fn uniform_bytes(&self) -> (r: Vec<u8>)
        ensures
            r@ == spec_mapping_uniform_bytes(*self),
    {
        let mut out: Vec<u8> = Vec::new();
        let mut part: Vec<u8> = u32_to_le_bytes(self.direction[0]);
        out.append(&mut part);
        let mut part: Vec<u8> = u32_to_le_bytes(self.direction[1]);
        out.append(&mut part);
        let mut part: Vec<u8> = u32_to_le_bytes(self.direction[2]);
        out.append(&mut part);
        let mut pad: Vec<u8> = vec![0u8, 0u8, 0u8, 0u8];
        out.append(&mut pad);
        let mut part: Vec<u8> = u32_to_le_bytes(self.u_mapping[0]);
        out.append(&mut part);
        let mut part: Vec<u8> = u32_to_le_bytes(self.u_mapping[1]);
        out.append(&mut part);
        let mut part: Vec<u8> = u32_to_le_bytes(self.u_mapping[2]);
        out.append(&mut part);
        let mut pad: Vec<u8> = vec![0u8, 0u8, 0u8, 0u8];
        out.append(&mut pad);
        let mut part: Vec<u8> = u32_to_le_bytes(self.v_mapping[0]);
        out.append(&mut part);
        let mut part: Vec<u8> = u32_to_le_bytes(self.v_mapping[1]);
        out.append(&mut part);
        let mut part: Vec<u8> = u32_to_le_bytes(self.v_mapping[2]);
        out.append(&mut part);
        let mut pad: Vec<u8> = vec![0u8, 0u8, 0u8, 0u8];
        out.append(&mut pad);
        proof {
            assert(out@ =~= spec_mapping_uniform_bytes(*self));
        }
        out
    }
}

/// One face's render pass: it targets the face's own array layer of the
/// shared six-layer texture, binds the face's basis, and draws one
/// fullscreen triangle.
#[derive(Clone, Copy, Debug)]
pub struct CubeFacePass {
    pub face_index: u32,
    pub base_array_layer: u32,
    pub mapping: FaceDirectionUVMappingUniform,
    pub vertex_count: u32,
}

/// The edge length, in pixels, of each rendered cube face.
pub const CUBEMAP_FACE_SIZE: u32 = 1024;

/// The six face passes of one projection, in face order.  Each pass is
/// independent of the others: any submission order draws the same
/// cubemap.
pub fn render_cubemap_passes() -> (r: Vec<CubeFacePass>)
    ensures
        r@.len() == 6,
        forall|i: int|
            0 <= i < 6 ==> {
                let pass = #[trigger] r@[i];
                &&& pass.face_index as int == i
                &&& pass.base_array_layer as int == i
                &&& pass.mapping == spec_face_mapping(i)
                &&& pass.vertex_count == 3
            },
{
    let mut passes: Vec<CubeFacePass> = Vec::new();
    let mut face_index: u32 = 0;
    while face_index < 6
        invariant
            0 <= face_index <= 6,
            passes@.len() == face_index as int,
            forall|i: int|
                0 <= i < face_index as int ==> {
                    let pass = #[trigger] passes@[i];
                    &&& pass.face_index as int == i
                    &&& pass.base_array_layer as int == i
                    &&& pass.mapping == spec_face_mapping(i)
                    &&& pass.vertex_count == 3
                },
        decreases 6 - face_index,
    {
        passes.push(
            CubeFacePass {
                face_index,
                base_array_layer: face_index,
                mapping: FaceDirectionUVMappingUniform::for_face(face_index),
                vertex_count: 3,
            },
        );
        face_index = face_index + 1;
    }
    passes
}

} // verus!
