use face_dataset_generator::naming::{face_file_name, is_image_extension, stem_or_unknown};

#[test]
fn file_name_pads_the_sequence_to_four_digits() {
    assert_eq!(face_file_name("photo", 1, "345"), "photo_0001_345.jpg");
    assert_eq!(face_file_name("photo", 0, "0"), "photo_0000_0.jpg");
    assert_eq!(face_file_name("img", 999, "210"), "img_0999_210.jpg");
    assert_eq!(face_file_name("img", 1000, "210"), "img_1000_210.jpg");
}

#[test]
fn file_name_keeps_long_sequence_numbers() {
    assert_eq!(face_file_name("a b", 123456, "-5"), "a b_123456_-5.jpg");
}

#[test]
fn missing_stem_becomes_unknown() {
    assert_eq!(stem_or_unknown(None), "unknown");
    assert_eq!(stem_or_unknown(Some("portrait")), "portrait");
}

#[test]
fn image_extensions_ignore_case() {
    for ext in ["jpg", "jpeg", "png", "bmp", "JPG", "JpEg", "PNG", "Bmp"] {
        assert!(is_image_extension(ext), "{}", ext);
    }
    for ext in ["gif", "jp", "jpgx", "", "tiff", "jpég", "txt"] {
        assert!(!is_image_extension(ext), "{}", ext);
    }
}

#[test]
fn names_of_one_run_are_distinct() {
    let names: Vec<String> = (1..=1200).map(|n| face_file_name("photo", n, "250")).collect();
    let mut sorted = names.clone();
    sorted.sort();
    sorted.dedup();
    assert_eq!(sorted.len(), names.len());
    assert_ne!(face_file_name("a", 7, "1"), face_file_name("a", 70, "1"));
}
