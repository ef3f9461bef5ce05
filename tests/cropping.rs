use face_dataset_generator::crop::{crop_box, crop_face, padding_of, CropBox};
use face_dataset_generator::region::Region;

fn face(x: i32, y: i32, width: u32, height: u32) -> Region {
    Region { x, y, width, height, score_bits: 3.0f64.to_bits() }
}

#[test]
fn padding_is_an_eighth_of_the_sides() {
    assert_eq!(padding_of(&face(0, 0, 50, 50)), 12);
    assert_eq!(padding_of(&face(0, 0, 40, 40)), 10);
    assert_eq!(padding_of(&face(0, 0, 3, 4)), 0);
}

#[test]
fn box_at_top_left_corner_is_clamped() {
    let b = crop_box(&face(0, 0, 50, 50), 200, 200);
    assert_eq!(b, CropBox { x: 0, y: 0, width: 62, height: 62 });
    assert!(b.x + b.width <= 200 && b.y + b.height <= 200);
}

#[test]
fn box_inside_the_image_is_padded_on_all_sides() {
    assert_eq!(crop_box(&face(50, 60, 40, 40), 200, 200), CropBox { x: 40, y: 50, width: 60, height: 60 });
}

#[test]
fn box_at_bottom_right_corner_is_clamped() {
    assert_eq!(crop_box(&face(180, 170, 40, 40), 200, 200), CropBox { x: 170, y: 160, width: 30, height: 40 });
}

#[test]
fn box_with_negative_origin_is_clamped() {
    assert_eq!(crop_box(&face(-20, 10, 40, 40), 200, 200), CropBox { x: 0, y: 0, width: 30, height: 60 });
}

#[test]
fn box_outside_the_image_is_empty() {
    let b = crop_box(&face(300, 20, 40, 40), 200, 200);
    assert_eq!(b, CropBox { x: 200, y: 10, width: 0, height: 60 });
}

#[test]
fn crop_face_cuts_the_clamped_box() {
    let image = image::DynamicImage::new_rgb8(200, 100);
    let (cut, b) = crop_face(&image, &face(0, 0, 50, 50));
    assert_eq!(b, CropBox { x: 0, y: 0, width: 62, height: 62 });
    assert_eq!((cut.width(), cut.height()), (62, 62));
    let (cut, b) = crop_face(&image, &face(170, 70, 40, 40));
    assert_eq!(b, CropBox { x: 160, y: 60, width: 40, height: 40 });
    assert_eq!((cut.width(), cut.height()), (40, 40));
}
