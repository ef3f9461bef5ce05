//! Candidate face regions and the acceptance filter applied to them.
use vstd::prelude::*;

verus! {

/// Smallest accepted width and height of a face, in pixels.
pub const MIN_FACE_SIDE: u32 = 40;

/// Bit pattern of the IEEE-754 double `2.0`: a face's confidence must be
/// strictly above it.
pub const MIN_CONFIDENCE_BITS: u64 = 0x4000_0000_0000_0000;

/// A candidate face region as reported by a detector.
///
/// The confidence score is a double-precision float; the library carries it
/// as its IEEE-754 bit pattern (`f64::to_bits`) and compares it exactly.
#[derive(Clone, Copy, Debug, PartialEq, Eq)]
pub struct Region {
    pub x: i32,
    pub y: i32,
    pub width: u32,
    pub height: u32,
    pub score_bits: u64,
}

/// The sign bit of a double.
pub open spec fn sign_bit() -> int {
    0x8000_0000_0000_0000
}

/// Whether the bit pattern encodes a NaN.
pub open spec fn is_nan_bits(b: u64) -> bool {
    b as int % sign_bit() > 0x7FF0_0000_0000_0000
}

/// A key under which the order of non-NaN doubles is the order of integers:
/// the magnitude bits, negated for negative values (so both zeros map to 0).
pub open spec fn order_key(b: u64) -> int {
    let magnitude = b as int % sign_bit();
    if b as int >= sign_bit() {
        -magnitude
    } else {
        magnitude
    }
}

/// `a > b` on the doubles that the two bit patterns encode
/// (false whenever either is NaN).
pub open spec fn float_gt(a: u64, b: u64) -> bool {
    !is_nan_bits(a) && !is_nan_bits(b) && order_key(a) > order_key(b)
}

/// The face covers strictly between 2% and 40% of the image:
/// `0.02 < w*h / (W*H) < 0.4`, written without division.
/// An image of area zero accepts nothing.
pub open spec fn area_ok(face: Region, image_width: u32, image_height: u32) -> bool {
    let area = face.width as int * face.height as int;
    let image_area = image_width as int * image_height as int;
    &&& 2 * image_area < 100 * area
    &&& 10 * area < 4 * image_area
}

/// The aspect ratio `w/h` lies strictly between 0.5 and 2.0,
/// written without division (a zero height accepts nothing).
pub open spec fn aspect_ok(face: Region) -> bool {
    &&& face.height < 2 * face.width
    &&& face.width < 2 * face.height
}

/// The confidence is strictly above 2.0.
pub open spec fn confidence_ok(face: Region) -> bool {
    float_gt(face.score_bits, MIN_CONFIDENCE_BITS)
}

/// Both sides are at least the minimum face side.
pub open spec fn size_ok(face: Region) -> bool {
    face.width >= MIN_FACE_SIDE && face.height >= MIN_FACE_SIDE
}

/// The acceptance predicate of the region filter.
pub open spec fn face_accepted(face: Region, image_width: u32, image_height: u32) -> bool {
    &&& area_ok(face, image_width, image_height)
    &&& confidence_ok(face)
    &&& aspect_ok(face)
    &&& size_ok(face)
}

/// The accepted regions, in the order given.
pub open spec fn valid_faces(faces: Seq<Region>, image_width: u32, image_height: u32) -> Seq<Region> {
    faces.filter(|f: Region| face_accepted(f, image_width, image_height))
}

/// Decides `a > b` on the doubles that two bit patterns encode.
pub fn score_greater(a: u64, b: u64) -> (r: bool)
    ensures
        r == float_gt(a, b),
{
    let magnitude_mask: u64 = 0x7FFF_FFFF_FFFF_FFFF;
    let a_mag = a & magnitude_mask;
    let b_mag = b & magnitude_mask;
    assert(a_mag == a % 0x8000_0000_0000_0000) by (bit_vector)
        requires a_mag == a & 0x7FFF_FFFF_FFFF_FFFF;
    assert(b_mag == b % 0x8000_0000_0000_0000) by (bit_vector)
        requires b_mag == b & 0x7FFF_FFFF_FFFF_FFFF;
    if a_mag > 0x7FF0_0000_0000_0000 || b_mag > 0x7FF0_0000_0000_0000 {
        return false;
    }
    let a_key: i64 = if a > magnitude_mask { -(a_mag as i64) } else { a_mag as i64 };
    let b_key: i64 = if b > magnitude_mask { -(b_mag as i64) } else { b_mag as i64 };
    a_key > b_key
}

/// Whether a region passes every test of the filter.
pub fn is_valid_face(face: &Region, image_width: u32, image_height: u32) -> (r: bool)
    ensures
        r == face_accepted(*face, image_width, image_height),
{
    let w = face.width as u128;
    let h = face.height as u128;
    let iw = image_width as u128;
    let ih = image_height as u128;
    assert(w * h <= 0xFFFF_FFFF * 0xFFFF_FFFF && iw * ih <= 0xFFFF_FFFF * 0xFFFF_FFFF)
        by (nonlinear_arith)
        requires w <= 0xFFFF_FFFF, h <= 0xFFFF_FFFF, iw <= 0xFFFF_FFFF, ih <= 0xFFFF_FFFF;
    let area = w * h;
    let image_area = iw * ih;
    let area_in_range = 2 * image_area < 100 * area && 10 * area < 4 * image_area;
    let confident = score_greater(face.score_bits, MIN_CONFIDENCE_BITS);
    let aspect_in_range = h < 2 * w && w < 2 * h;
    let large_enough = face.width >= MIN_FACE_SIDE && face.height >= MIN_FACE_SIDE;
    area_in_range && confident && aspect_in_range && large_enough
}

/// Keeps the regions that pass the filter, in the order given.
pub fn filter_valid_faces(faces: &Vec<Region>, image_width: u32, image_height: u32) -> (r: Vec<Region>)
    ensures
        r@ == valid_faces(faces@, image_width, image_height),
{
    let mut out: Vec<Region> = Vec::new();
    let mut i: usize = 0;
    while i < faces.len()
        invariant
            i <= faces@.len(),
            out@ == valid_faces(faces@.take(i as int), image_width, image_height),
        decreases faces@.len() - i,
    {
        let face = faces[i];
        proof {
            faces@.take(i as int).lemma_filter_push(
                face,
                |f: Region| face_accepted(f, image_width, image_height),
            );
            assert(faces@.take(i as int + 1) == faces@.take(i as int).push(face));
        }
        if is_valid_face(&face, image_width, image_height) {
            out.push(face);
        }
        i = i + 1;
    }
    assert(faces@.take(faces@.len() as int) == faces@);
    out
}

/// Every region in the filter's output passes the acceptance predicate.
pub proof fn lemma_valid_faces_accepted(faces: Seq<Region>, image_width: u32, image_height: u32)
    ensures
        forall|i: int|
            0 <= i < valid_faces(faces, image_width, image_height).len() ==> face_accepted(
                #[trigger] valid_faces(faces, image_width, image_height)[i],
                image_width,
                image_height,
            ),
{
    let pred = |f: Region| face_accepted(f, image_width, image_height);
    assert forall|i: int| 0 <= i < valid_faces(faces, image_width, image_height).len() implies
        face_accepted(#[trigger] valid_faces(faces, image_width, image_height)[i], image_width, image_height) by {
        faces.lemma_filter_pred(pred, i);
    }
}

/// The filter never returns a region narrower or lower than the minimum face side.
pub proof fn lemma_filtered_faces_meet_min_side(faces: Seq<Region>, image_width: u32, image_height: u32)
    ensures
        forall|i: int|
            0 <= i < valid_faces(faces, image_width, image_height).len() ==> {
                let f = #[trigger] valid_faces(faces, image_width, image_height)[i];
                f.width >= MIN_FACE_SIDE && f.height >= MIN_FACE_SIDE
            },
{
    lemma_valid_faces_accepted(faces, image_width, image_height);
}

/// Every returned region covers strictly more than 2% and less than 40% of
/// the image, and its aspect ratio `w/h` is strictly between 0.5 and 2.0
/// (the boundary values themselves are excluded).
pub proof fn lemma_filtered_faces_in_ratio_bounds(faces: Seq<Region>, image_width: u32, image_height: u32)
    ensures
        forall|i: int|
            0 <= i < valid_faces(faces, image_width, image_height).len() ==> {
                let f = #[trigger] valid_faces(faces, image_width, image_height)[i];
                let area = f.width as int * f.height as int;
                let image_area = image_width as int * image_height as int;
                &&& image_area * 2 < area * 100
                &&& area * 10 < image_area * 4
                &&& f.width as int * 2 > f.height as int
                &&& (f.width as int) < f.height as int * 2
                &&& f.height > 0
            },
{
    lemma_valid_faces_accepted(faces, image_width, image_height);
}

/// A region whose confidence is not above 2.0 is never returned, whatever its
/// geometry.
pub proof fn lemma_low_confidence_excluded(
    faces: Seq<Region>,
    image_width: u32,
    image_height: u32,
    face: Region,
)
    requires
        !float_gt(face.score_bits, MIN_CONFIDENCE_BITS),
    ensures
        !valid_faces(faces, image_width, image_height).contains(face),
{
    lemma_valid_faces_accepted(faces, image_width, image_height);
}

/// Filtering is idempotent: filtering the filter's output changes nothing.
pub proof fn lemma_filter_idempotent(faces: Seq<Region>, image_width: u32, image_height: u32)
    ensures
        valid_faces(valid_faces(faces, image_width, image_height), image_width, image_height)
            == valid_faces(faces, image_width, image_height),
    decreases faces.len(),
{
    let pred = |f: Region| face_accepted(f, image_width, image_height);
    if faces.len() > 0 {
        let rest = faces.drop_last();
        let last = faces.last();
        lemma_filter_idempotent(rest, image_width, image_height);
        assert(faces == rest.push(last));
        rest.lemma_filter_push(last, pred);
        valid_faces(rest, image_width, image_height).lemma_filter_push(last, pred);
    } else {
        reveal(Seq::filter);
    }
}

} // verus!
