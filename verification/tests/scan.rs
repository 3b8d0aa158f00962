use zongflow::corelib::{DirectoryScan, DocumentScanner, ImportDecision, ScanAction, ScanEntry, ScanEvent};
use zongflow::database::Document;

fn entry(is_file: bool, path: &str, stem: Option<&str>, ext: Option<&str>, size: Option<i64>) -> ScanEvent {
    ScanEvent::Entry(
        ScanEntry {
            is_file,
            path: path.to_string(),
            stem: stem.map(str::to_string),
            extension: ext.map(str::to_string),
            file_size_bytes: size,
        },
        "2025-05-23T22:44:00+00:00".to_string(),
    )
}

fn existing(id: i64, path: &str) -> Document {
    Document {
        id,
        title: "Old".to_string(),
        author: None,
        format: "Markdown".to_string(),
        path: path.to_string(),
        date_added: "2024-01-01T00:00:00+00:00".to_string(),
        last_opened: None,
        cover_path: None,
        file_size_bytes: None,
        text_encoding: None,
    }
}

#[test]
fn scan_skips_non_documents() {
    let mut scan = DirectoryScan::new();
    assert!(matches!(scan.step(entry(true, "/d/image.jpg", Some("image"), Some("jpg"), Some(5))), ScanAction::NextEntry));
    assert!(matches!(scan.step(entry(false, "/d/sub.txt", Some("sub"), Some("txt"), None)), ScanAction::NextEntry));
    assert!(matches!(scan.step(entry(true, "/d/README", Some("README"), None, Some(5))), ScanAction::NextEntry));
    assert!(scan.into_documents().is_empty());
}

#[test]
fn scan_inserts_new_documents() {
    let mut scan = DirectoryScan::new();
    match scan.step(entry(true, "/d/book.EPUB", Some("book"), Some("EPUB"), Some(9))) {
        ScanAction::LookUp(p) => assert_eq!(p, "/d/book.EPUB"),
        _ => panic!("expected a lookup"),
    }
    match scan.step(ScanEvent::Found(None)) {
        ScanAction::Insert(doc) => {
            assert_eq!(doc.id, 0);
            assert_eq!(doc.title, "book");
            assert_eq!(doc.format, "EPUB");
            assert_eq!(doc.author, Some("Unknown".to_string()));
            assert_eq!(doc.text_encoding, None);
            assert_eq!(doc.file_size_bytes, Some(9));
        }
        _ => panic!("expected an insert"),
    }
    assert!(matches!(scan.step(ScanEvent::Inserted(7)), ScanAction::NextEntry));
    let docs = scan.into_documents();
    assert_eq!(docs.len(), 1);
    assert_eq!(docs[0].id, 7);
    assert_eq!(docs[0].title, "book");
}

#[test]
fn scan_takes_existing_documents() {
    let mut scan = DirectoryScan::new();
    assert!(matches!(scan.step(entry(true, "/d/a.md", Some("a"), Some("md"), Some(3))), ScanAction::LookUp(_)));
    assert!(matches!(scan.step(ScanEvent::Found(Some(existing(3, "/d/a.md")))), ScanAction::NextEntry));
    assert!(matches!(scan.step(entry(true, "/d/b.txt", Some("b"), Some("txt"), Some(3))), ScanAction::LookUp(_)));
    assert!(matches!(scan.step(ScanEvent::Found(None)), ScanAction::Insert(_)));
    assert!(matches!(scan.step(ScanEvent::Inserted(4)), ScanAction::NextEntry));
    let docs = scan.into_documents();
    assert_eq!(docs.len(), 2);
    assert_eq!(docs[0].id, 3);
    assert_eq!(docs[0].title, "Old");
    assert_eq!(docs[1].id, 4);
    assert_eq!(docs[1].format, "Plain Text");
    assert_eq!(docs[1].text_encoding, Some("UTF-8".to_string()));
}

#[test]
fn scan_repeats_request_on_unexpected_event() {
    let mut scan = DirectoryScan::new();
    assert!(matches!(scan.step(ScanEvent::Inserted(1)), ScanAction::NextEntry));
    assert!(matches!(scan.step(entry(true, "/d/a.txt", Some("a"), Some("txt"), None)), ScanAction::LookUp(_)));
    match scan.step(ScanEvent::Inserted(1)) {
        ScanAction::LookUp(p) => assert_eq!(p, "/d/a.txt"),
        _ => panic!("expected the lookup again"),
    }
    assert!(matches!(scan.step(ScanEvent::Found(None)), ScanAction::Insert(_)));
    assert!(matches!(scan.step(entry(true, "/d/b.txt", Some("b"), Some("txt"), None)), ScanAction::Insert(_)));
    assert!(matches!(scan.step(ScanEvent::Inserted(2)), ScanAction::NextEntry));
    assert_eq!(scan.into_documents().len(), 1);
}

#[test]
fn scan_entry_for_path_takes_stem_and_extension() {
    let e = ScanEntry::for_path("/d/Book.Md", true, Some(4));
    assert_eq!(e.path, "/d/Book.Md");
    assert_eq!(e.stem, Some("Book".to_string()));
    assert_eq!(e.extension, Some("Md".to_string()));
    assert!(e.is_file);
    let mut scan = DirectoryScan::new();
    assert!(matches!(scan.step(ScanEvent::Entry(e, "t".to_string())), ScanAction::LookUp(_)));
    match scan.step(ScanEvent::Found(None)) {
        ScanAction::Insert(doc) => {
            assert_eq!(doc.title, "Book");
            assert_eq!(doc.format, "Markdown");
        }
        _ => panic!("expected an insert"),
    }
    let e = ScanEntry::for_path("/d/.md", true, None);
    assert_eq!(e.stem, Some(".md".to_string()));
    assert_eq!(e.extension, None);
}

#[test]
fn import_decision_reuses_or_builds() {
    match DocumentScanner::import_decision(Some(existing(5, "/d/a.md")), "/d/a.md", "t".to_string(), None) {
        ImportDecision::UseExisting(d) => assert_eq!(d.id, 5),
        _ => panic!("expected the stored record"),
    }
    match DocumentScanner::import_decision(None, "/d/Report.PDF", "t".to_string(), Some(10)) {
        ImportDecision::Insert(d) => {
            assert_eq!(d.id, 0);
            assert_eq!(d.title, "Report");
            assert_eq!(d.format, "pdf");
            assert_eq!(d.text_encoding, None);
            assert_eq!(d.file_size_bytes, Some(10));
            assert_eq!(d.path, "/d/Report.PDF");
        }
        _ => panic!("expected a new record"),
    }
    match DocumentScanner::import_decision(None, "/d/README", "t".to_string(), None) {
        ImportDecision::Insert(d) => {
            assert_eq!(d.title, "README");
            assert_eq!(d.format, "");
        }
        _ => panic!("expected a new record"),
    }
    match DocumentScanner::import_decision_with(None, None, Some("TXT"), "", "t".to_string(), None) {
        ImportDecision::Insert(d) => {
            assert_eq!(d.title, "Unknown");
            assert_eq!(d.format, "Plain Text");
            assert_eq!(d.text_encoding, Some("UTF-8".to_string()));
        }
        _ => panic!("expected a new record"),
    }
}
