use gltf_viewer::cubeloader::{CubeMapLoader, KtxContainer, Ktx2CubeMapLoader};
use gltf_viewer::cubemap::{validate_cube_texture, CubeMap, TextureDimension};
use gltf_viewer::error::{Error, ErrorKind};
use gltf_viewer::ibl::{load_ibl_cubemaps, HdrImage, IblEnvironmentLoader};
use gltf_viewer::texture::{AddressMode, FilterMode};

struct MemoryIblLoader {
    diffuse: Vec<u8>,
    specular: Vec<u8>,
}

impl IblEnvironmentLoader for MemoryIblLoader {
    type Cube = Ktx2CubeMapLoader;

    fn load_equirectangular_skybox(&self) -> Result<HdrImage, Error> {
        Ok(HdrImage {
            width: 1,
            height: 1,
            data: vec![0; 4],
        })
    }

    fn get_diffuse_cubemap_loader(&self) -> Result<Ktx2CubeMapLoader, Error> {
        Ok(Ktx2CubeMapLoader::from_reader(KtxContainer::parse(
            self.diffuse.clone(),
        )?))
    }

    fn get_specular_cubemap_loader(&self) -> Result<Ktx2CubeMapLoader, Error> {
        Ok(Ktx2CubeMapLoader::from_reader(KtxContainer::parse(
            self.specular.clone(),
        )?))
    }

    fn load_ggx_lut(&self) -> Result<HdrImage, Error> {
        Ok(HdrImage {
            width: 1,
            height: 1,
            data: vec![0; 4],
        })
    }
}

/// Builds a KTX2 cubemap container: `width` x `height` faces, one mip
/// level holding `level` bytes, and the given data-format-descriptor
/// block (header and data).
fn ktx2_container_with_dfd(width: u32, height: u32, level: &[u8], dfd_block: &[u8]) -> Vec<u8> {
    let magic: [u8; 12] = [
        0xAB, 0x4B, 0x54, 0x58, 0x20, 0x32, 0x30, 0xBB, 0x0D, 0x0A, 0x1A, 0x0A,
    ];
    let level_index_offset = 80usize;
    let dfd_offset = level_index_offset + 24;
    let dfd_length = (4 + dfd_block.len()) as u32; // 4-byte total-length field
    let level_offset = dfd_offset + dfd_length as usize;

    let mut out = Vec::new();
    out.extend_from_slice(&magic);
    out.extend_from_slice(&0u32.to_le_bytes()); // format: undefined
    out.extend_from_slice(&1u32.to_le_bytes()); // type_size
    out.extend_from_slice(&width.to_le_bytes());
    out.extend_from_slice(&height.to_le_bytes());
    out.extend_from_slice(&0u32.to_le_bytes()); // pixel_depth
    out.extend_from_slice(&0u32.to_le_bytes()); // layer_count
    out.extend_from_slice(&6u32.to_le_bytes()); // face_count
    out.extend_from_slice(&1u32.to_le_bytes()); // level_count
    out.extend_from_slice(&0u32.to_le_bytes()); // supercompression
    out.extend_from_slice(&(dfd_offset as u32).to_le_bytes());
    out.extend_from_slice(&dfd_length.to_le_bytes());
    out.extend_from_slice(&0u32.to_le_bytes()); // kvd offset
    out.extend_from_slice(&0u32.to_le_bytes()); // kvd length
    out.extend_from_slice(&0u64.to_le_bytes()); // sgd offset
    out.extend_from_slice(&0u64.to_le_bytes()); // sgd length
    assert_eq!(out.len(), 80);

    // Level index: one entry of byte offset, byte length, uncompressed
    // byte length.
    out.extend_from_slice(&(level_offset as u64).to_le_bytes());
    out.extend_from_slice(&(level.len() as u64).to_le_bytes());
    out.extend_from_slice(&(level.len() as u64).to_le_bytes());

    out.extend_from_slice(&dfd_length.to_le_bytes());
    out.extend_from_slice(dfd_block);

    out.extend_from_slice(level);
    out
}

/// A minimal valid container with an opaque (vendor-specific)
/// header-only descriptor block.
fn ktx2_container(width: u32, height: u32, level: &[u8]) -> Vec<u8> {
    let mut block = Vec::new();
    let first_word: u32 = 1; // vendor 1, descriptor type 0
    block.extend_from_slice(&first_word.to_le_bytes());
    block.extend_from_slice(&1u16.to_le_bytes()); // version
    block.extend_from_slice(&8u16.to_le_bytes()); // block size
    ktx2_container_with_dfd(width, height, level, &block)
}

/// A basic descriptor block (vendor 0, type 0, version 2) with the given
/// texel-block-dimension bytes.
fn basic_dfd_block(dims: [u8; 4]) -> Vec<u8> {
    let mut block = Vec::new();
    block.extend_from_slice(&0u32.to_le_bytes()); // vendor 0, type 0
    block.extend_from_slice(&2u16.to_le_bytes()); // version 2: basic
    block.extend_from_slice(&24u16.to_le_bytes()); // header + 16 data bytes
    block.extend_from_slice(&[0u8; 4]); // model, primaries, transfer, flags
    block.extend_from_slice(&dims);
    block.extend_from_slice(&[0u8; 8]); // bytes planes
    block
}

fn one_by_one_level() -> Vec<u8> {
    // Six 1x1 faces of 8 bytes each, each filled with its face index.
    let mut level = Vec::new();
    for face in 0u8..6 {
        level.extend_from_slice(&[face; 8]);
    }
    level
}

#[test]
fn ktx2_loader_reports_dimensions_and_levels() {
    let data = ktx2_container(1, 1, &one_by_one_level());
    let container = KtxContainer::parse(data).unwrap();
    let loader = Ktx2CubeMapLoader::from_reader(container);
    assert_eq!(loader.face_dimensions(), (1, 1));
    assert_eq!(loader.mip_level_count(), 1);
}

#[test]
fn ktx2_loader_slices_faces_in_fixed_order() {
    let data = ktx2_container(1, 1, &one_by_one_level());
    let container = KtxContainer::parse(data).unwrap();
    let loader = Ktx2CubeMapLoader::from_reader(container);

    assert_eq!(loader.load_positive_x_face(0).unwrap(), vec![0u8; 8]);
    assert_eq!(loader.load_negative_x_face(0).unwrap(), vec![1u8; 8]);
    assert_eq!(loader.load_positive_y_face(0).unwrap(), vec![2u8; 8]);
    assert_eq!(loader.load_negative_y_face(0).unwrap(), vec![3u8; 8]);
    assert_eq!(loader.load_positive_z_face(0).unwrap(), vec![4u8; 8]);
    assert_eq!(loader.load_negative_z_face(0).unwrap(), vec![5u8; 8]);
}

#[test]
fn ktx2_loader_rejects_missing_level() {
    let data = ktx2_container(1, 1, &one_by_one_level());
    let container = KtxContainer::parse(data).unwrap();
    let loader = Ktx2CubeMapLoader::from_reader(container);
    let e = loader.load_positive_x_face(1).unwrap_err();
    assert_eq!(e.kind(), ErrorKind::MissingLevel);
}

#[test]
fn ktx2_loader_rejects_short_level() {
    // The level holds only five faces' worth of bytes.
    let data = ktx2_container(1, 1, &vec![0u8; 40]);
    let container = KtxContainer::parse(data).unwrap();
    let loader = Ktx2CubeMapLoader::from_reader(container);
    assert!(loader.load_positive_x_face(0).is_ok());
    let e = loader.load_negative_z_face(0).unwrap_err();
    assert_eq!(e.kind(), ErrorKind::MalformedLevel);
}

#[test]
fn ktx2_parse_rejects_broken_containers() {
    assert!(KtxContainer::parse(vec![0u8; 16]).is_err());
}

#[test]
fn cubemap_plan_covers_every_face_of_every_level() {
    let data = ktx2_container(1, 1, &one_by_one_level());
    let container = KtxContainer::parse(data).unwrap();
    let loader = Ktx2CubeMapLoader::from_reader(container);

    let cubemap = CubeMap::from_loader(&loader).unwrap();
    assert_eq!((cubemap.width, cubemap.height), (1, 1));
    assert_eq!(cubemap.mip_level_count, 1);
    assert_eq!(cubemap.writes.len(), 6);
    for (i, write) in cubemap.writes.iter().enumerate() {
        assert_eq!(write.mip_level, 0);
        assert_eq!(write.face_index as usize, i);
        assert_eq!(write.data, vec![i as u8; 8]);
        assert_eq!((write.width, write.height), (1, 1));
    }
    assert_eq!(cubemap.sampler.mag_filter, FilterMode::Linear);
    assert_eq!(cubemap.sampler.address_mode_u, AddressMode::ClampToEdge);
}

#[test]
fn cubemap_plan_fails_whole_on_a_bad_face() {
    // Five faces only: assembling the cubemap must fail as a unit.
    let data = ktx2_container(1, 1, &vec![0u8; 40]);
    let container = KtxContainer::parse(data).unwrap();
    let loader = Ktx2CubeMapLoader::from_reader(container);
    assert!(CubeMap::from_loader(&loader).is_err());
}

#[test]
fn default_cubemap_is_six_white_pixels() {
    let cubemap = CubeMap::create_default_cubemap();
    assert_eq!((cubemap.width, cubemap.height), (1, 1));
    assert_eq!(cubemap.mip_level_count, 1);
    assert_eq!(cubemap.writes.len(), 6);
    for (i, write) in cubemap.writes.iter().enumerate() {
        assert_eq!(write.face_index as usize, i);
        assert_eq!(write.data, vec![255, 255, 255, 255]);
    }
}

#[test]
fn cube_texture_validation_requires_six_layer_2d() {
    assert!(validate_cube_texture(TextureDimension::D2, 6).is_ok());
    let e = validate_cube_texture(TextureDimension::D3, 6).unwrap_err();
    assert_eq!(e.kind(), ErrorKind::InvalidCubeTexture);
    let e = validate_cube_texture(TextureDimension::D2, 5).unwrap_err();
    assert_eq!(e.kind(), ErrorKind::InvalidCubeTexture);
}

#[test]
fn ibl_cubemaps_assemble_from_both_containers() {
    let loader = MemoryIblLoader {
        diffuse: ktx2_container(1, 1, &one_by_one_level()),
        specular: ktx2_container(1, 1, &one_by_one_level()),
    };
    let (diffuse, specular) = load_ibl_cubemaps(&loader).unwrap();
    assert_eq!(diffuse.writes.len(), 6);
    assert_eq!(specular.writes.len(), 6);
}

#[test]
fn ibl_cubemaps_fail_as_a_unit() {
    let loader = MemoryIblLoader {
        diffuse: ktx2_container(1, 1, &one_by_one_level()),
        specular: vec![0u8; 8],
    };
    assert!(load_ibl_cubemaps(&loader).is_err());
}

#[test]
fn ktx2_parse_accepts_a_basic_descriptor_block() {
    let data = ktx2_container_with_dfd(1, 1, &one_by_one_level(), &basic_dfd_block([0, 0, 0, 0]));
    let container = KtxContainer::parse(data).unwrap();
    let loader = Ktx2CubeMapLoader::from_reader(container);
    assert_eq!(loader.face_dimensions(), (1, 1));
    assert_eq!(loader.load_positive_x_face(0).unwrap(), vec![0u8; 8]);
}

#[test]
fn ktx2_parse_rejects_the_dimension_bytes_the_parser_cannot_take() {
    // A texel-block-dimension byte of 255 would abort the parser's
    // increment; the library rejects the container instead.
    for dims in [[255, 0, 0, 0], [0, 0, 0, 255], [255, 255, 255, 255]] {
        let data = ktx2_container_with_dfd(1, 1, &one_by_one_level(), &basic_dfd_block(dims));
        assert!(KtxContainer::parse(data).is_err());
    }
}
