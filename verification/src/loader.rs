//! The byte- and image-resolving collaborator interface.
//!
//! A loader resolves accessor indices to raw bytes and image indices to
//! decoded pixels, fetching and caching source buffers however it likes
//! (file system, archive, memory).  Its logical content — which accessor
//! has which bytes, which image has which pixels — never changes while
//! it is used, whatever it caches internally.

use std::collections::HashMap;

use vstd::prelude::*;

use crate::error::{Error, ErrorKind};
use crate::image::Image;

verus! {

broadcast use vstd::std_specs::hash::group_hash_axioms;

/// Resolves accessor and image indices for the scene loader.
pub trait GltfLoader: Sized {
    /// The bytes each resolvable accessor index stands for.
    spec fn accessor_bytes(&self) -> Map<int, Seq<u8>>;

    /// The decoded pixels (width, height, RGBA bytes) each resolvable
    /// image index stands for.
    spec fn image_pixels(&self) -> Map<int, (u32, u32, Seq<u8>)>;

    /// Resolves an accessor to its raw bytes, fetching and caching the
    /// backing buffer if needed.
    fn load_bytes_from_accessor(&mut self, accessor_id: usize) -> (r: Result<Vec<u8>, Error>)
        ensures
            final(self).accessor_bytes() == old(self).accessor_bytes(),
            final(self).image_pixels() == old(self).image_pixels(),
            r matches Ok(b) ==> old(self).accessor_bytes().contains_key(accessor_id as int) && b@
                == old(self).accessor_bytes()[accessor_id as int],
    ;

    /// Re-reads an accessor's bytes without fetching anything new.
    fn read_bytes_from_accessor(&self, accessor_id: usize) -> (r: Result<Vec<u8>, Error>)
        ensures
            r matches Ok(b) ==> self.accessor_bytes().contains_key(accessor_id as int) && b@
                == self.accessor_bytes()[accessor_id as int],
    ;

    /// Resolves an image to its decoded RGBA pixels.
    fn load_image(&mut self, image_id: usize) -> (r: Result<Image, Error>)
        ensures
            final(self).accessor_bytes() == old(self).accessor_bytes(),
            final(self).image_pixels() == old(self).image_pixels(),
            r matches Ok(img) ==> {
                &&& old(self).image_pixels().contains_key(image_id as int)
                &&& img.wf()
                &&& img.spec_dimensions().0 == old(self).image_pixels()[image_id as int].0
                &&& img.spec_dimensions().1 == old(self).image_pixels()[image_id as int].1
                &&& img.spec_data() == old(self).image_pixels()[image_id as int].2
            },
    ;
}

/// An in-memory loader: accessor bytes and decoded images handed over up
/// front, keyed by index.  It backs tests and any caller that has already
/// gathered its sources.
pub struct MemoryGltfLoader {
    accessors: HashMap<u64, Vec<u8>>,
    images: HashMap<u64, (u32, u32, Vec<u8>)>,
}

impl MemoryGltfLoader {
    /// A loader that resolves nothing yet.
    pub fn new() -> (r: MemoryGltfLoader)
        ensures
            r.accessor_bytes() == Map::<int, Seq<u8>>::empty(),
            r.image_pixels() == Map::<int, (u32, u32, Seq<u8>)>::empty(),
    {
        let r = MemoryGltfLoader { accessors: HashMap::new(), images: HashMap::new() };
        proof {
            assert(r.accessor_bytes() =~= Map::<int, Seq<u8>>::empty());
            assert(r.image_pixels() =~= Map::<int, (u32, u32, Seq<u8>)>::empty());
        }
        r
    }

    /// Registers the bytes an accessor index resolves to.
    pub fn insert_accessor(&mut self, accessor_id: usize, data: Vec<u8>)
        ensures
            final(self).accessor_bytes() == old(self).accessor_bytes().insert(
                accessor_id as int,
                data@,
            ),
            final(self).image_pixels() == old(self).image_pixels(),
    {
        let ghost before = self.accessor_bytes();
        self.accessors.insert(accessor_id as u64, data);
        proof {
            assert(self.accessor_bytes() =~= before.insert(accessor_id as int, data@));
            assert(self.image_pixels() =~= old(self).image_pixels());
        }
    }

    /// Registers the decoded pixels an image index resolves to.
    pub fn insert_image(&mut self, image_id: usize, width: u32, height: u32, data: Vec<u8>)
        requires
            data@.len() == 4 * (width as int) * (height as int),
        ensures
            final(self).image_pixels() == old(self).image_pixels().insert(
                image_id as int,
                (width, height, data@),
            ),
            final(self).accessor_bytes() == old(self).accessor_bytes(),
    {
        let ghost before = self.image_pixels();
        self.images.insert(image_id as u64, (width, height, data));
        proof {
            assert(self.image_pixels() =~= before.insert(image_id as int, (width, height, data@)));
            assert(self.accessor_bytes() =~= old(self).accessor_bytes());
        }
    }
}

impl GltfLoader for MemoryGltfLoader {
    closed spec fn accessor_bytes(&self) -> Map<int, Seq<u8>> {
        Map::new(
            |i: int| 0 <= i <= u64::MAX && self.accessors@.contains_key(i as u64),
            |i: int| self.accessors@[i as u64]@,
        )
    }

    closed spec fn image_pixels(&self) -> Map<int, (u32, u32, Seq<u8>)> {
        Map::new(
            |i: int| 0 <= i <= u64::MAX && self.images@.contains_key(i as u64),
            |i: int|
                (
                    self.images@[i as u64].0,
                    self.images@[i as u64].1,
                    self.images@[i as u64].2@,
                ),
        )
    }

    fn load_bytes_from_accessor(&mut self, accessor_id: usize) -> (r: Result<Vec<u8>, Error>) {
        match self.accessors.get(&(accessor_id as u64)) {
            Some(data) => Ok(data.clone()),
            None => Err(
                Error::of_kind(
                    ErrorKind::InvalidReference,
                    "No bytes are registered for the given accessor ID".to_string(),
                ),
            ),
        }
    }

    fn read_bytes_from_accessor(&self, accessor_id: usize) -> (r: Result<Vec<u8>, Error>) {
        match self.accessors.get(&(accessor_id as u64)) {
            Some(data) => Ok(data.clone()),
            None => Err(
                Error::of_kind(
                    ErrorKind::InvalidReference,
                    "No bytes are registered for the given accessor ID".to_string(),
                ),
            ),
        }
    }

    fn load_image(&mut self, image_id: usize) -> (r: Result<Image, Error>) {
        match self.images.get(&(image_id as u64)) {
            Some(entry) => {
                let (width, height, data): (u32, u32, Vec<u8>) = (
                    entry.0,
                    entry.1,
                    entry.2.clone(),
                );
                proof {
                    assert(4 * (width as int) * (height as int) <= 4 * 0xFFFF_FFFF
                        * 0xFFFF_FFFF) by (nonlinear_arith)
                        requires
                            width <= 0xFFFF_FFFF,
                            height <= 0xFFFF_FFFF,
                    ;
                }
                let expected: u128 = 4u128 * (width as u128) * (height as u128);
                if data.len() as u128 == expected {
                    Ok(Image::from_rgba_image(width, height, data))
                } else {
                    Err(
                        Error::of_kind(
                            ErrorKind::InvalidReference,
                            "The registered pixels do not match the registered dimensions".to_string(),
                        ),
                    )
                }
            },
            None => Err(
                Error::of_kind(
                    ErrorKind::InvalidReference,
                    "No pixels are registered for the given image ID".to_string(),
                ),
            ),
        }
    }
}

} // verus!
