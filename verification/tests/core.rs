use zongflow::corelib::{DocumentScanner, Settings};
use zongflow::corelib::settings_file::default_language;

#[test]
fn normalize_format_names_known_formats() {
    assert_eq!(DocumentScanner::normalize_format("txt"), "Plain Text");
    assert_eq!(DocumentScanner::normalize_format("TXT"), "Plain Text");
    assert_eq!(DocumentScanner::normalize_format("md"), "Markdown");
    assert_eq!(DocumentScanner::normalize_format("Markdown"), "Markdown");
    assert_eq!(DocumentScanner::normalize_format("markdown"), "Markdown");
    assert_eq!(DocumentScanner::normalize_format("EpUb"), "EPUB");
}

#[test]
fn normalize_format_lowercases_other_formats() {
    assert_eq!(DocumentScanner::normalize_format("PDF"), "pdf");
    assert_eq!(DocumentScanner::normalize_format(""), "");
    assert_eq!(DocumentScanner::normalize_format("ÉPUB"), "épub");
}

#[test]
fn format_name_takes_lowercase_extension() {
    assert_eq!(DocumentScanner::format_name("txt"), "Plain Text");
    assert_eq!(DocumentScanner::format_name("TXT"), "TXT");
    assert_eq!(DocumentScanner::format_name("epub"), "EPUB");
}

#[test]
fn candidate_extension_selects_document_files() {
    assert_eq!(DocumentScanner::candidate_extension(true, Some("txt")), Some("txt".to_string()));
    assert_eq!(DocumentScanner::candidate_extension(true, Some("MD")), Some("md".to_string()));
    assert_eq!(
        DocumentScanner::candidate_extension(true, Some("Markdown")),
        Some("markdown".to_string())
    );
    assert_eq!(DocumentScanner::candidate_extension(true, Some("epub")), Some("epub".to_string()));
    assert_eq!(DocumentScanner::candidate_extension(true, Some("jpg")), None);
    assert_eq!(DocumentScanner::candidate_extension(true, Some("mp4")), None);
    assert_eq!(DocumentScanner::candidate_extension(true, Some("zip")), None);
    assert_eq!(DocumentScanner::candidate_extension(true, None), None);
    assert_eq!(DocumentScanner::candidate_extension(false, Some("txt")), None);
}

#[test]
fn text_encoding_only_for_text_formats() {
    assert_eq!(DocumentScanner::text_encoding("txt"), Some("UTF-8".to_string()));
    assert_eq!(DocumentScanner::text_encoding("md"), Some("UTF-8".to_string()));
    assert_eq!(DocumentScanner::text_encoding("markdown"), Some("UTF-8".to_string()));
    assert_eq!(DocumentScanner::text_encoding("epub"), None);
    assert_eq!(DocumentScanner::text_encoding("pdf"), None);
}

#[test]
fn new_document_for_scanned_epub() {
    let doc = DocumentScanner::new_document(
        Some("book"),
        "epub",
        "/tmp/book.epub",
        "2025-05-23T22:44:00+00:00".to_string(),
        Some(9),
    );
    assert_eq!(doc.id, 0);
    assert_eq!(doc.title, "book");
    assert_eq!(doc.author, Some("Unknown".to_string()));
    assert_eq!(doc.format, "EPUB");
    assert_eq!(doc.path, "/tmp/book.epub");
    assert_eq!(doc.date_added, "2025-05-23T22:44:00+00:00");
    assert_eq!(doc.last_opened, None);
    assert_eq!(doc.cover_path, None);
    assert_eq!(doc.file_size_bytes, Some(9));
    assert_eq!(doc.text_encoding, None);
}

#[test]
fn new_document_without_stem_is_unknown() {
    let doc = DocumentScanner::new_document(None, "txt", "/x/.txt", String::new(), None);
    assert_eq!(doc.title, "Unknown");
    assert_eq!(doc.format, "Plain Text");
    assert_eq!(doc.text_encoding, Some("UTF-8".to_string()));
    let doc = doc.with_id(42);
    assert_eq!(doc.id, 42);
    assert_eq!(doc.title, "Unknown");
}

#[test]
fn lowercase_extension_of_paths() {
    assert_eq!(DocumentScanner::lowercase_extension(Some("MD")), "md");
    assert_eq!(DocumentScanner::lowercase_extension(None), "");
}

#[test]
fn default_settings() {
    let s = Settings::with_defaults("/home/u/Downloads".to_string());
    assert_eq!(s.language, "en_US");
    assert!(!s.dark_mode);
    assert_eq!(s.output_folder, "/home/u/Downloads");
    assert_eq!(s.export_format, "txt");
    assert_eq!(default_language(), "en_US");
}

#[test]
fn stored_settings_take_defaults_for_missing_fields() {
    let s = Settings::from_stored(Some("ja_JP".to_string()), None, None, None, "/d".to_string());
    assert_eq!(s.language, "ja_JP");
    assert!(!s.dark_mode);
    assert_eq!(s.output_folder, "/d");
    assert_eq!(s.export_format, "txt");
    let s = Settings::from_stored(
        None,
        Some(true),
        Some("/out".to_string()),
        Some("epub".to_string()),
        "/d".to_string(),
    );
    assert_eq!(s.language, "en_US");
    assert!(s.dark_mode);
    assert_eq!(s.output_folder, "/out");
    assert_eq!(s.export_format, "epub");
}

#[test]
fn gettext_language_replaces_hyphens() {
    let mut s = Settings::with_defaults(".".to_string());
    assert_eq!(s.gettext_language(), "en_US");
    s.language = "zh-CN".to_string();
    assert_eq!(s.gettext_language(), "zh_CN");
    s.language = "a-b-c".to_string();
    assert_eq!(s.gettext_language(), "a_b_c");
}
