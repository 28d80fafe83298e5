//! Cubemap containers: the loader interface and its KTX2-backed
//! implementation.
//!
//! A cubemap source exposes face dimensions, a mip level count, and one
//! byte slice per face per mip level, faces ordered +X, −X, +Y, −Y, +Z,
//! −Z.  The KTX2 implementation slices each parsed mip level into six
//! equal face ranges of 8 bytes per texel (four 16-bit channels).

use vstd::arithmetic::power2::pow2;
use vstd::prelude::*;

use crate::error::{Error, ErrorKind};

verus! {

/// A parsed cubemap container.
pub trait CubeMapLoader: Sized {
    /// The level-0 face dimensions the container declares.
    spec fn spec_face_dimensions(&self) -> (u32, u32);

    /// The mip level count the container declares.
    spec fn spec_mip_level_count(&self) -> u32;

    /// The bytes of one face of one mip level, when the container has
    /// them: face 0 is +X, 1 is −X, 2 is +Y, 3 is −Y, 4 is +Z, 5 is −Z.
    spec fn spec_face_bytes(&self, face_index: int, mip_level: int) -> Option<Seq<u8>>;

    /// The level-0 face dimensions.
    fn face_dimensions(&self) -> (r: (u32, u32))
        ensures
            r == self.spec_face_dimensions(),
    ;

    /// The number of mip levels.
    fn mip_level_count(&self) -> (r: u32)
        ensures
            r == self.spec_mip_level_count(),
    ;

    /// The +X face of a mip level.
    fn load_positive_x_face(&self, mip_level: u32) -> (r: Result<Vec<u8>, Error>)
        ensures
            r matches Ok(b) ==> self.spec_face_bytes(0, mip_level as int) == Some(b@),
    ;

    /// The −X face of a mip level.
    fn load_negative_x_face(&self, mip_level: u32) -> (r: Result<Vec<u8>, Error>)
        ensures
            r matches Ok(b) ==> self.spec_face_bytes(1, mip_level as int) == Some(b@),
    ;

    /// The +Y face of a mip level.
    fn load_positive_y_face(&self, mip_level: u32) -> (r: Result<Vec<u8>, Error>)
        ensures
            r matches Ok(b) ==> self.spec_face_bytes(2, mip_level as int) == Some(b@),
    ;

    /// The −Y face of a mip level.
    fn load_negative_y_face(&self, mip_level: u32) -> (r: Result<Vec<u8>, Error>)
        ensures
            r matches Ok(b) ==> self.spec_face_bytes(3, mip_level as int) == Some(b@),
    ;

    /// The +Z face of a mip level.
    fn load_positive_z_face(&self, mip_level: u32) -> (r: Result<Vec<u8>, Error>)
        ensures
            r matches Ok(b) ==> self.spec_face_bytes(4, mip_level as int) == Some(b@),
    ;

    /// The −Z face of a mip level.
    fn load_negative_z_face(&self, mip_level: u32) -> (r: Result<Vec<u8>, Error>)
        ensures
            r matches Ok(b) ==> self.spec_face_bytes(5, mip_level as int) == Some(b@),
    ;
}

/// The little-endian reading of two bytes at `p`.
pub open spec fn spec_le16(b: Seq<u8>, p: int) -> int {
    b[p] + 0x100 * b[p + 1]
}

/// The little-endian reading of four bytes at `p`.
pub open spec fn spec_le32(b: Seq<u8>, p: int) -> int {
    b[p] + 0x100 * b[p + 1] + 0x1_0000 * b[p + 2] + 0x100_0000 * b[p + 3]
}

/// True when no block of the data-format-descriptor region `[p, end)`
/// can abort the parser.  The parser walks 8-byte block headers (a
/// 17-bit vendor, a 15-bit type, a version, a block size) and parses a
/// block with vendor 0, type 0, version 2 as a basic descriptor, whose
/// four texel-block-dimension bytes it increments into non-zero values:
/// a byte of 255 there overflows that increment.  Every other shape —
/// a short header, a zero size, a block past the region, another block
/// type — the parser rejects as an error of its own.
pub open spec fn spec_dfd_blocks_parse_safe(b: Seq<u8>, p: int, end: int) -> bool
    decreases end - p,
{
    if p + 8 > end {
        true
    } else {
        let word0 = spec_le32(b, p);
        let version = spec_le16(b, p + 4);
        let size = spec_le16(b, p + 6);
        if size == 0 {
            true
        } else {
            &&& (word0 % 0x20000 != 0 || word0 / 0x20000 != 0 || version != 2 || p + 16 > end || (
            b[p + 12] != 255 && b[p + 13] != 255 && b[p + 14] != 255 && b[p + 15] != 255))
            &&& (if p + size > end {
                true
            } else {
                spec_dfd_blocks_parse_safe(b, p + size, end)
            })
        }
    }
}

/// True of exactly the byte buffers on which the parser runs to
/// completion (accepting or rejecting) instead of aborting: either the
/// container is malformed early enough that the parser never reaches its
/// descriptor blocks, or every descriptor block is abort-free.
pub open spec fn spec_ktx2_parse_aborts_excluded(data: Seq<u8>) -> bool {
    if data.len() < 80 {
        true
    } else {
        let off = spec_le32(data, 48);
        let len = spec_le32(data, 52);
        if off + len < off + 4 || off + len >= data.len() {
            true
        } else {
            spec_dfd_blocks_parse_safe(data, off + 4, off + len)
        }
    }
}

/// A parsed KTX2 container.  The parser's reader type cannot be spoken
/// of directly here, so it is held opaquely; the two functions below
/// name what it holds.
#[verifier::external_body]
pub struct KtxContainer {
    reader: ktx2::Reader<Vec<u8>>,
}

/// The mip levels a parsed KTX2 container holds, largest first.
pub uninterp spec fn ktx2_reader_levels(r: KtxContainer) -> Seq<Seq<u8>>;

/// The (pixel width, pixel height, level count) of a parsed KTX2
/// container's header.
pub uninterp spec fn ktx2_reader_header(r: KtxContainer) -> (u32, u32, u32);

/// The little-endian reading of two bytes at `p`.
fn le16(data: &Vec<u8>, p: usize) -> (r: u32)
    requires
        p + 2 <= data@.len(),
    ensures
        r as int == spec_le16(data@, p as int),
{
    let n: usize = data.len();
    proof {
        assert(p + 2 <= n);
    }
    data[p] as u32 + 0x100 * (data[p + 1] as u32)
}

/// The little-endian reading of four bytes at `p`.
fn le32(data: &Vec<u8>, p: usize) -> (r: u32)
    requires
        p + 4 <= data@.len(),
    ensures
        r as int == spec_le32(data@, p as int),
{
    let n: usize = data.len();
    proof {
        assert(p + 4 <= n);
    }
    data[p] as u32 + 0x100 * (data[p + 1] as u32) + 0x1_0000 * (data[p + 2] as u32) + 0x100_0000
        * (data[p + 3] as u32)
}

/// Walks the descriptor blocks of `[start, end)` and decides
/// `spec_dfd_blocks_parse_safe`.
#[verifier::loop_isolation(false)]
fn dfd_blocks_parse_safe(data: &Vec<u8>, start: usize, end: usize) -> (r: bool)
    requires
        start <= end <= data@.len(),
    ensures
        r == spec_dfd_blocks_parse_safe(data@, start as int, end as int),
{
    let mut p: usize = start;
    loop
        invariant
            spec_dfd_blocks_parse_safe(data@, start as int, end as int)
                == spec_dfd_blocks_parse_safe(data@, p as int, end as int),
            p <= end <= data@.len(),
        decreases end - p,
    {
        if end - p < 8 {
            return true;
        }
        let word0: u32 = le32(data, p);
        let version: u32 = le16(data, p + 4);
        let size: u32 = le16(data, p + 6);
        if size == 0 {
            return true;
        }
        if word0 % 0x20000 == 0 && word0 / 0x20000 == 0 && version == 2 && end - p >= 16 {
            if data[p + 12] == 255 || data[p + 13] == 255 || data[p + 14] == 255 || data[p + 15]
                == 255 {
                return false;
            }
        }
        if size as usize > end - p {
            return true;
        }
        p = p + size as usize;
    }
}

/// Decides `spec_ktx2_parse_aborts_excluded` for a byte buffer.
fn ktx2_parse_aborts_excluded(data: &Vec<u8>) -> (r: bool)
    ensures
        r == spec_ktx2_parse_aborts_excluded(data@),
{
    if data.len() < 80 {
        return true;
    }
    let off: u64 = le32(data, 48) as u64;
    let len: u64 = le32(data, 52) as u64;
    if off + len < off + 4 || off + len >= data.len() as u64 {
        return true;
    }
    dfd_blocks_parse_safe(data, (off + 4) as usize, (off + len) as usize)
}

impl KtxContainer {
    /// Parses and validates a KTX2 buffer.  A buffer whose descriptor
    /// blocks would abort the parser is rejected up front; every other
    /// buffer is handed to the parser, which accepts it or reports a
    /// structural error.
    pub fn parse(data: Vec<u8>) -> Result<KtxContainer, Error> {
        if !ktx2_parse_aborts_excluded(&data) {
            return Err(
                Error::new(
                    "The given data holds a texel block dimension the KTX2 parser cannot accept".to_string(),
                ),
            );
        }
        KtxContainer::parse_validated(data)
    }

    /// Relies on `ktx2::Reader::new`: it parses and validates a KTX2
    /// buffer, and rejects any structurally broken container.  Its one
    /// abort — incrementing a texel-block-dimension byte of 255 in a
    /// basic descriptor block — is excluded by the precondition.
    #[verifier::external_body]
    fn parse_validated(data: Vec<u8>) -> Result<KtxContainer, Error>
        requires
            spec_ktx2_parse_aborts_excluded(data@),
    {
        match ktx2::Reader::new(data) {
            Ok(reader) => Ok(KtxContainer { reader }),
            Err(_) => Err(
                Error::new("The given data is not a structurally valid KTX2 container".to_string()),
            ),
        }
    }
}

/// Relies on `ktx2::Reader::header`: the header's pixel width, pixel
/// height and level count are fixed by the parsed container.
#[verifier::external_body]
fn reader_header(container: &KtxContainer) -> (r: (u32, u32, u32))
    ensures
        r == ktx2_reader_header(*container),
{
    let header = container.reader.header();
    (header.pixel_width, header.pixel_height, header.level_count)
}

/// Relies on `ktx2::Reader::levels`: the iterator hands each stored mip
/// level's bytes out in order, largest level first.
#[verifier::external_body]
fn reader_level(container: &KtxContainer, mip_level: usize) -> (r: Option<Vec<u8>>)
    ensures
        (if mip_level < ktx2_reader_levels(*container).len() {
            r matches Some(b) && b@ == ktx2_reader_levels(*container)[mip_level as int]
        } else {
            r is None
        }),
{
    container.reader.levels().nth(mip_level).map(|level| level.data.to_vec())
}

/// The dimension of one mip level: the level-0 dimension halved once per
/// level.
pub open spec fn spec_mip_dim(d: u32, mip_level: u32) -> int {
    (d as int) / (pow2(mip_level as nat) as int)
}

/// The byte size of one face of one mip level: eight bytes per texel
/// (four 16-bit channels).
pub open spec fn spec_face_byte_size(width: u32, height: u32, mip_level: u32) -> int {
    8 * spec_mip_dim(width, mip_level) * spec_mip_dim(height, mip_level)
}

/// A cubemap source backed by a parsed KTX2 container of 16-bit float
/// RGBA texels.
pub struct Ktx2CubeMapLoader {
    reader: KtxContainer,
}

impl Ktx2CubeMapLoader {
    /// The parsed container this loader slices.
    pub closed spec fn spec_reader(&self) -> KtxContainer {
        self.reader
    }

    /// Wraps a parsed container.
    pub fn from_reader(reader: KtxContainer) -> (r: Ktx2CubeMapLoader)
        ensures
            r.spec_reader() == reader,
    {
        Ktx2CubeMapLoader { reader }
    }

    /// What `load_face` returns for a face of a mip level: the face's
    /// slice of the level's bytes, when the level exists, its face size
    /// is computable, and the level holds enough bytes.
    pub open spec fn spec_face_slice(
        reader: KtxContainer,
        face_index: u32,
        mip_level: u32,
    ) -> Option<Seq<u8>> {
        let header = ktx2_reader_header(reader);
        let levels = ktx2_reader_levels(reader);
        let size = spec_face_byte_size(header.0, header.1, mip_level);
        if mip_level < levels.len() && mip_level < 32 && size * ((face_index + 1) as int) <= levels[
            mip_level as int].len() {
            Some(levels[mip_level as int].subrange(size * face_index, size * (face_index + 1)))
        } else {
            None
        }
    }

    /// Slices one face out of one mip level.  Succeeds exactly when the
    /// container has the level, the level's dimensions are meaningful,
    /// and the level holds the face's byte range.
    fn load_face(&self, face_index: u32, mip_level: u32) -> (r: Result<Vec<u8>, Error>)
        requires
            face_index < 6,
        ensures
            match r {
                Ok(b) => Ktx2CubeMapLoader::spec_face_slice(
                    self.spec_reader(),
                    face_index,
                    mip_level,
                ) == Some(b@),
                Err(_) => Ktx2CubeMapLoader::spec_face_slice(
                    self.spec_reader(),
                    face_index,
                    mip_level,
                ) is None,
            },
    {
        let (width, height, _level_count): (u32, u32, u32) = reader_header(&self.reader);

        let level_data: Vec<u8> = match reader_level(&self.reader, mip_level as usize) {
            Some(level_data) => level_data,
            None => {
                return Err(
                    Error::of_kind(
                        ErrorKind::MissingLevel,
                        "The given cubemap does not have a mip level that matches the specified index".to_string(),
                    ),
                );
            },
        };

        if mip_level >= 32 {
            return Err(
                Error::of_kind(
                    ErrorKind::MalformedLevel,
                    "The given cubemap declares more mip levels than its dimensions allow".to_string(),
                ),
            );
        }

        let mip_width: u32 = width >> mip_level;
        let mip_height: u32 = height >> mip_level;
        proof {
            vstd::bits::lemma_u32_shr_is_div(width, mip_level);
            vstd::bits::lemma_u32_shr_is_div(height, mip_level);
        }

        proof {
            assert(8 * (mip_width as int) * (mip_height as int) <= 8 * 0xFFFF_FFFF * 0xFFFF_FFFF)
                by (nonlinear_arith)
                requires
                    mip_width <= 0xFFFF_FFFF,
                    mip_height <= 0xFFFF_FFFF,
            ;
        }
        let face_size: u128 = 8u128 * (mip_width as u128) * (mip_height as u128);
        proof {
            assert((face_size as int) * (face_index as int) <= (face_size as int) * 6 && (
            face_size as int) * ((face_index + 1) as int) <= (face_size as int) * 6 && (
            face_size as int) * (face_index as int) <= (face_size as int) * ((face_index
                + 1) as int) && 0 <= (face_size as int) * (face_index as int))
                by (nonlinear_arith)
                requires
                    face_index < 6,
                    0 <= (face_size as int),
            ;
        }
        let range_begin: u128 = face_size * (face_index as u128);
        let range_end: u128 = face_size * ((face_index + 1) as u128);

        if range_end > level_data.len() as u128 {
            return Err(
                Error::of_kind(
                    ErrorKind::MalformedLevel,
                    "A mip level holds fewer bytes than its six faces need".to_string(),
                ),
            );
        }

        let face = vstd::slice::slice_to_vec(
            vstd::slice::slice_subrange(
                level_data.as_slice(),
                range_begin as usize,
                range_end as usize,
            ),
        );
        Ok(face)
    }
}

impl CubeMapLoader for Ktx2CubeMapLoader {
    closed spec fn spec_face_dimensions(&self) -> (u32, u32) {
        (ktx2_reader_header(self.reader).0, ktx2_reader_header(self.reader).1)
    }

    closed spec fn spec_mip_level_count(&self) -> u32 {
        ktx2_reader_header(self.reader).2
    }

    closed spec fn spec_face_bytes(&self, face_index: int, mip_level: int) -> Option<Seq<u8>> {
        if 0 <= face_index < 6 && 0 <= mip_level <= u32::MAX {
            Ktx2CubeMapLoader::spec_face_slice(self.reader, face_index as u32, mip_level as u32)
        } else {
            None
        }
    }

    fn face_dimensions(&self) -> (r: (u32, u32)) {
        let (width, height, _level_count): (u32, u32, u32) = reader_header(&self.reader);
        (width, height)
    }

    fn mip_level_count(&self) -> (r: u32) {
        let (_width, _height, level_count): (u32, u32, u32) = reader_header(&self.reader);
        level_count
    }

    fn load_positive_x_face(&self, mip_level: u32) -> (r: Result<Vec<u8>, Error>) {
        self.load_face(0, mip_level)
    }

    fn load_negative_x_face(&self, mip_level: u32) -> (r: Result<Vec<u8>, Error>) {
        self.load_face(1, mip_level)
    }

    fn load_positive_y_face(&self, mip_level: u32) -> (r: Result<Vec<u8>, Error>) {
        self.load_face(2, mip_level)
    }

    fn load_negative_y_face(&self, mip_level: u32) -> (r: Result<Vec<u8>, Error>) {
        self.load_face(3, mip_level)
    }

    fn load_positive_z_face(&self, mip_level: u32) -> (r: Result<Vec<u8>, Error>) {
        self.load_face(4, mip_level)
    }

    fn load_negative_z_face(&self, mip_level: u32) -> (r: Result<Vec<u8>, Error>) {
        self.load_face(5, mip_level)
    }
}

} // verus!
