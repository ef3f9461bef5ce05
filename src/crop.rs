//! The padded, clamped crop box around an accepted face, and the crop itself.
use vstd::prelude::*;
use crate::region::Region;

verus! {

/// A rectangle inside an image: top-left corner and size, in pixels.
#[derive(Clone, Copy, Debug, PartialEq, Eq)]
pub struct CropBox {
    pub x: u32,
    pub y: u32,
    pub width: u32,
    pub height: u32,
}

/// Context added on each side of a face: an eighth of the sum of its sides,
/// rounded down (12.5% of the mean side, on each side).
pub open spec fn padding_spec(face: Region) -> int {
    (face.width as int + face.height as int) / 8
}

/// `v` forced into `[lo, hi]` (`lo <= hi`).
pub open spec fn clamp(v: int, lo: int, hi: int) -> int {
    if v < lo {
        lo
    } else if v > hi {
        hi
    } else {
        v
    }
}

/// The face's box grown by the padding on every side, intersected with the
/// image `[0, image_width] x [0, image_height]`. A box that misses the image
/// entirely comes out empty.
pub open spec fn crop_box_of(face: Region, image_width: u32, image_height: u32) -> CropBox {
    let p = padding_spec(face);
    let left = clamp(face.x - p, 0, image_width as int);
    let top = clamp(face.y - p, 0, image_height as int);
    let right = clamp(face.x + face.width + p, left, image_width as int);
    let bottom = clamp(face.y + face.height + p, top, image_height as int);
    CropBox {
        x: left as u32,
        y: top as u32,
        width: (right - left) as u32,
        height: (bottom - top) as u32,
    }
}

/// The padding, in pixels, added on each side of a face before cropping.
pub fn padding_of(face: &Region) -> (r: u32)
    ensures
        r == padding_spec(*face),
{
    ((face.width as u64 + face.height as u64) / 8) as u32
}

/// Forces `v` into `[lo, hi]`.
fn clamp_i64(v: i64, lo: i64, hi: i64) -> (r: i64)
    requires
        lo <= hi,
    ensures
        r == clamp(v as int, lo as int, hi as int),
{
    if v < lo {
        lo
    } else if v > hi {
        hi
    } else {
        v
    }
}

/// The box to cut out of an image of the given size for an accepted face.
pub fn crop_box(face: &Region, image_width: u32, image_height: u32) -> (r: CropBox)
    ensures
        r == crop_box_of(*face, image_width, image_height),
        r.x as int + r.width as int <= image_width,
        r.y as int + r.height as int <= image_height,
{
    let p = padding_of(face) as i64;
    let w = image_width as i64;
    let h = image_height as i64;
    let left = clamp_i64(face.x as i64 - p, 0, w);
    let top = clamp_i64(face.y as i64 - p, 0, h);
    let right = clamp_i64(face.x as i64 + face.width as i64 + p, left, w);
    let bottom = clamp_i64(face.y as i64 + face.height as i64 + p, top, h);
    CropBox {
        x: left as u32,
        y: top as u32,
        width: (right - left) as u32,
        height: (bottom - top) as u32,
    }
}

/// The decoded image type of the `image` crate, carried through opaque.
#[verifier::external_type_specification]
#[verifier::external_body]
pub struct ExDynamicImage(image::DynamicImage);

/// The width and height, in pixels, of a decoded image: the shape of the
/// pixel grid it holds.
pub uninterp spec fn image_size(image: image::DynamicImage) -> (u32, u32);

/// Relies on `image::GenericImageView::dimensions` for `DynamicImage`:
/// the image's width and height in pixels.
#[verifier::external_body]
fn image_dimensions(image: &image::DynamicImage) -> (r: (u32, u32))
    ensures
        r == image_size(*image),
{
    image::GenericImageView::dimensions(image)
}

/// Relies on `image::DynamicImage::crop_imm`: a copy of the part of the image
/// inside the rectangle, which is exactly the rectangle's size when the
/// rectangle lies inside the image.
#[verifier::external_body]
fn crop_image(image: &image::DynamicImage, b: &CropBox) -> (r: image::DynamicImage)
    requires
        b.x + b.width <= image_size(*image).0,
        b.y + b.height <= image_size(*image).1,
    ensures
        image_size(r) == (b.width, b.height),
{
    image.crop_imm(b.x, b.y, b.width, b.height)
}

/// Cuts the padded face out of a decoded image. Returns the cut-out and the
/// box it was cut from: the clamped box for the image's own size, and the
/// cut-out has that box's size.
pub fn crop_face(image: &image::DynamicImage, face: &Region) -> (r: (image::DynamicImage, CropBox))
    ensures
        r.1 == crop_box_of(*face, image_size(*image).0, image_size(*image).1),
        image_size(r.0) == (r.1.width, r.1.height),
{
    let (w, h) = image_dimensions(image);
    let b = crop_box(face, w, h);
    (crop_image(image, &b), b)
}

} // verus!
