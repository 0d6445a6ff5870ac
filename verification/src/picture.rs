//! The finished picture, held by the image crate.

use vstd::prelude::*;

verus! {

/// A picture of three bytes a pixel: an `RgbImage` of the image crate.
#[verifier::external_body]
pub struct Picture {
    image: image::RgbImage,
}

/// The bytes that a picture holds.
pub uninterp spec fn picture_bytes(picture: Picture) -> Seq<u8>;

/// The width and the height that a picture was made with.
pub uninterp spec fn picture_size(picture: Picture) -> (u32, u32);

/// The place among a picture's bytes where the pixel in column `x` of row `y`
/// begins: three bytes for each pixel (red, green, blue), the pixels of a row
/// from left to right, the rows from the top down.
pub open spec fn pixel_offset(width: u32, x: u32, y: u32) -> int {
    3 * (y * width + x)
}

impl Picture {
    /// The bytes of the picture.
    pub open spec fn bytes(self) -> Seq<u8> {
        picture_bytes(self)
    }

    /// The width of the picture.
    pub open spec fn width(self) -> u32 {
        picture_size(self).0
    }

    /// The height of the picture.
    pub open spec fn height(self) -> u32 {
        picture_size(self).1
    }

    /// The three bytes of the pixel in column `x` of row `y`.
    pub open spec fn pixel(self, x: u32, y: u32) -> Seq<u8> {
        self.bytes().subrange(
            pixel_offset(self.width(), x, y),
            pixel_offset(self.width(), x, y) + 3,
        )
    }

    /// `ImageBuffer::from_raw` of the image crate. It makes a picture of the
    /// given size that holds `buf` as it is, and gives nothing if `buf` is too
    /// short for that size: shorter than three bytes for each pixel, or if that
    /// count does not fit the machine's word at either step of working it out.
    #[verifier::external_body]
    pub(crate) fn from_raw(width: u32, height: u32, buf: Vec<u8>) -> (r: Option<Picture>)
        ensures
            r.is_some() == (3 * width <= usize::MAX && 3 * width * height <= buf@.len()),
            r.is_some() ==> picture_bytes(r.unwrap()) == buf@,
            r.is_some() ==> picture_size(r.unwrap()).0 == width,
            r.is_some() ==> picture_size(r.unwrap()).1 == height,
    {
        match image::RgbImage::from_raw(width, height, buf) {
            Some(image) => Some(Picture { image }),
            None => None,
        }
    }

    /// `ImageBuffer::dimensions` of the image crate: the width and the height
    /// that the picture was made with. A picture holds at least three bytes
    /// for each of its pixels, since nothing makes one that does not.
    #[verifier::external_body]
    pub(crate) fn size(&self) -> (r: (u32, u32))
        ensures
            r == picture_size(*self),
            3 * r.0 * r.1 <= picture_bytes(*self).len(),
    {
        self.image.dimensions()
    }

    /// `ImageBuffer::get_pixel` of the image crate: the three bytes that begin
    /// at `3 * (y * width + x)`. Outside the picture it panics, so such a
    /// place may not be asked for.
    #[verifier::external_body]
    pub(crate) fn read_pixel(&self, x: u32, y: u32) -> (r: [u8; 3])
        requires
            x < picture_size(*self).0,
            y < picture_size(*self).1,
        ensures
            r@ == picture_bytes(*self).subrange(
                pixel_offset(picture_size(*self).0, x, y),
                pixel_offset(picture_size(*self).0, x, y) + 3,
            ),
    {
        self.image.get_pixel(x, y).0
    }

    /// `ImageBuffer::into_raw` of the image crate: the bytes that the picture
    /// holds, as they are.
    #[verifier::external_body]
    pub(crate) fn take_raw(self) -> (r: Vec<u8>)
        ensures
            r@ == picture_bytes(self),
    {
        self.image.into_raw()
    }

    /// The width and the height of the picture.
    pub fn dimensions(&self) -> (r: (u32, u32))
        ensures
            r == (self.width(), self.height()),
            3 * self.width() * self.height() <= self.bytes().len(),
    {
        self.size()
    }

    /// The pixel in column `x` of row `y`, or nothing where the picture has no
    /// such column or row.
    pub fn get_pixel(&self, x: u32, y: u32) -> (r: Option<[u8; 3]>)
        ensures
            r is Some <==> x < self.width() && y < self.height(),
            r matches Some(px) ==> px@ == self.pixel(x, y),
    {
        let (width, height) = self.size();
        if x < width && y < height {
            Some(self.read_pixel(x, y))
        } else {
            None
        }
    }

    /// The bytes of the picture, row by row from the top, three for a pixel.
    pub fn into_raw(self) -> (r: Vec<u8>)
        ensures
            r@ == self.bytes(),
    {
        self.take_raw()
    }
}

} // verus!
