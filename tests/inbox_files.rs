use api_codegen::inbox::{is_photo, is_photo_extension};

#[test]
fn jpeg_files_are_photos() {
    assert!(is_photo("/data/inbox/a.jpg"));
    assert!(is_photo("b.JPEG"));
    assert!(is_photo("dir.x/c.JpG"));
}

#[test]
fn other_files_are_not_photos() {
    assert!(!is_photo("a.png"));
    assert!(!is_photo("noext"));
    assert!(!is_photo(".jpg"));
    assert!(!is_photo("a.jpg.gif"));
    assert!(!is_photo("dir.jpg/file"));
}

#[test]
fn photo_extensions_ignore_ascii_case() {
    assert!(is_photo_extension("jpg"));
    assert!(is_photo_extension("JPEG"));
    assert!(!is_photo_extension("jpe"));
    assert!(!is_photo_extension("jpgg"));
    assert!(!is_photo_extension(""));
}
