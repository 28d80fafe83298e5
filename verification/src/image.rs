//! A decoded RGBA image held as plain bytes.

use vstd::prelude::*;

verus! {

/// A decoded image: tightly packed 8-bit RGBA rows, four bytes per
/// pixel.
pub struct Image {
    data: Vec<u8>,
    width: u32,
    height: u32,
}

impl Image {
    /// A well-formed image holds exactly four bytes for each of its
    /// `width * height` pixels.
    pub closed spec fn wf(&self) -> bool {
        self.data@.len() == 4 * (self.width as int) * (self.height as int)
    }

    /// The pixel bytes of this image.
    pub closed spec fn spec_data(&self) -> Seq<u8> {
        self.data@
    }

    /// The width and height of this image in pixels.
    pub closed spec fn spec_dimensions(&self) -> (u32, u32) {
        (self.width, self.height)
    }

    /// Wraps a decoded RGBA pixel buffer with its dimensions.
    pub fn from_rgba_image(width: u32, height: u32, data: Vec<u8>) -> (r: Image)
        requires
            data@.len() == 4 * (width as int) * (height as int),
        ensures
            r.wf(),
            r.spec_data() == data@,
            r.spec_dimensions() == (width, height),
    {
        Image { data, width, height }
    }

    /// The raw pixel bytes.
    pub fn data(&self) -> (r: &Vec<u8>)
        ensures
            r@ == self.spec_data(),
    {
        &self.data
    }

    /// The width and height in pixels.
    pub fn dimensions(&self) -> (r: (u32, u32))
        ensures
            r == self.spec_dimensions(),
    {
        (self.width, self.height)
    }
}

} // verus!
