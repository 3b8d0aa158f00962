use std::path::Path;
use zongflow::document_object::{
    date_label, display_author, display_path, extension, file_stem, format_date, format_subtitle,
    grid_meta_label,
    path_label, size_unit, SizeUnit,
};

#[test]
fn test_document_object_display_path() {
    let display = display_path("/home/user/documents/test.txt");
    // Should show just the filename
    assert_eq!(display, "test.txt");
}

#[test]
fn test_document_object_format_date() {
    let formatted = format_date("2025-05-23T22:44:00+00:00");
    // Should contain date components
    assert!(!formatted.is_empty());
    assert!(formatted.contains("23") || formatted.contains("May") || formatted.contains("2025"));
}

#[test]
fn test_document_object_format_size() {
    assert_eq!(size_unit(Some(1024)), SizeUnit::Kilobytes);
    assert_eq!(size_unit(Some(1024 * 1024)), SizeUnit::Megabytes);
    assert_eq!(size_unit(Some(1024 * 1024 * 1024)), SizeUnit::Gigabytes);
}

#[test]
fn format_date_exact_and_fallbacks() {
    assert_eq!(format_date("2025-05-23T22:44:00+00:00"), "23 May 2025 22:44");
    assert_eq!(format_date(""), "");
    assert_eq!(format_date("yesterday"), "yesterday");
    assert_eq!(date_label("x", Some("y".to_string())), "y");
    assert_eq!(date_label("x", None), "x");
    assert_eq!(date_label("", Some("y".to_string())), "");
}

#[test]
fn display_path_fallbacks() {
    assert_eq!(display_path("/"), "/");
    assert_eq!(display_path("docs/.."), "docs/..");
    assert_eq!(display_path("notes.md"), "notes.md");
    assert_eq!(path_label("/a/b", Some("b".to_string())), "b");
    assert_eq!(path_label("/a/b", None), "/a/b");
}

#[test]
fn display_author_keeps_given_author() {
    assert_eq!(display_author(Some("Author Name"), "Unknown"), "Author Name");
    assert_eq!(display_author(Some(""), "Unknown"), "Unknown");
    assert_eq!(display_author(None, "不明"), "不明");
}

#[test]
fn size_unit_thresholds() {
    assert_eq!(size_unit(None), SizeUnit::Hidden);
    assert_eq!(size_unit(Some(0)), SizeUnit::Hidden);
    assert_eq!(size_unit(Some(-5)), SizeUnit::Hidden);
    assert_eq!(size_unit(Some(1)), SizeUnit::Bytes);
    assert_eq!(size_unit(Some(1023)), SizeUnit::Bytes);
    assert_eq!(size_unit(Some(1024 * 1024 - 1)), SizeUnit::Kilobytes);
    assert_eq!(size_unit(Some(i64::MAX)), SizeUnit::Gigabytes);
}

#[test]
fn subtitle_joins_present_parts() {
    assert_eq!(format_subtitle("Plain Text", "1.0 KB", Some("UTF-8")), "Plain Text · 1.0 KB · UTF-8");
    assert_eq!(format_subtitle("EPUB", "", None), "EPUB");
    assert_eq!(format_subtitle("", "12 B", None), "12 B");
    assert_eq!(format_subtitle("", "", None), "");
    assert_eq!(format_subtitle("", "", Some("")), "");
    assert_eq!(format_subtitle("md", "", Some("UTF-8")), "md · UTF-8");
}

#[test]
fn grid_meta_label_with_and_without_size() {
    assert_eq!(grid_meta_label("2.0 MB", "EPUB"), "2.0 MB · EPUB");
    assert_eq!(grid_meta_label("", "EPUB"), "EPUB");
}

#[test]
fn file_stem_and_extension_like_std() {
    for p in [
        "/home/u/book.tar.EPUB",
        "/home/u/.bashrc",
        "/home/u/.config.md",
        "notes",
        "a.",
        "/",
        "",
        "docs/..",
        "docs/.",
        "/x/...",
        "/x/日本語.txt",
        "dir/",
    ] {
        let path = Path::new(p);
        assert_eq!(
            file_stem(p),
            path.file_stem().map(|s| s.to_str().unwrap().to_string()),
            "stem of {:?}",
            p
        );
        assert_eq!(
            extension(p),
            path.extension().map(|s| s.to_str().unwrap().to_string()),
            "extension of {:?}",
            p
        );
    }
}
