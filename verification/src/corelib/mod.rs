//! Scanning for documents: which files are documents, what their format is
//! called and what record a new one gets.

use vstd::prelude::*;

use crate::database::{Document, DocumentView};
use crate::document_object::{extension, file_stem, spec_extension, spec_file_stem};
use crate::text::{lowercase_of, str_eq, to_lowercase};

pub mod scan;
pub mod settings_file;

pub use scan::{DirectoryScan, ScanAction, ScanEntry, ScanEvent};
pub use settings_file::Settings;

verus! {

broadcast use vstd::string::group_string_axioms;

pub open spec fn ext_txt() -> Seq<char> {
    seq!['t', 'x', 't']
}

pub open spec fn ext_md() -> Seq<char> {
    seq!['m', 'd']
}

pub open spec fn ext_markdown() -> Seq<char> {
    seq!['m', 'a', 'r', 'k', 'd', 'o', 'w', 'n']
}

pub open spec fn ext_epub() -> Seq<char> {
    seq!['e', 'p', 'u', 'b']
}

pub open spec fn name_plain_text() -> Seq<char> {
    seq!['P', 'l', 'a', 'i', 'n', ' ', 'T', 'e', 'x', 't']
}

pub open spec fn name_markdown() -> Seq<char> {
    seq!['M', 'a', 'r', 'k', 'd', 'o', 'w', 'n']
}

pub open spec fn name_epub() -> Seq<char> {
    seq!['E', 'P', 'U', 'B']
}

pub open spec fn utf8_name() -> Seq<char> {
    seq!['U', 'T', 'F', '-', '8']
}

pub open spec fn unknown_name() -> Seq<char> {
    seq!['U', 'n', 'k', 'n', 'o', 'w', 'n']
}

/// The (lowercase) extensions of the files the library takes in.
pub open spec fn is_supported_ext(lower: Seq<char>) -> bool {
    lower == ext_txt() || lower == ext_epub() || lower == ext_md() || lower == ext_markdown()
}

/// The human-readable name of the format with the given lowercase extension;
/// an extension without a name is shown as it is.
pub open spec fn spec_format_name(lower: Seq<char>) -> Seq<char> {
    if lower == ext_txt() {
        name_plain_text()
    } else if lower == ext_md() || lower == ext_markdown() {
        name_markdown()
    } else if lower == ext_epub() {
        name_epub()
    } else {
        lower
    }
}

/// The text encoding recorded for a file with the given lowercase extension:
/// UTF-8 for the text formats, none for binary ones such as EPUB.
pub open spec fn spec_text_encoding(lower: Seq<char>) -> Option<Seq<char>> {
    if lower == ext_txt() || lower == ext_md() || lower == ext_markdown() {
        Some(utf8_name())
    } else {
        None
    }
}

/// The record of a file newly taken into the library, from the file's stem
/// (its name without extension), its lowercase extension, its path, the
/// time it is added and its size.
pub open spec fn spec_new_document(
    stem: Option<Seq<char>>,
    ext_lower: Seq<char>,
    path: Seq<char>,
    date_added: Seq<char>,
    file_size_bytes: Option<i64>,
) -> DocumentView {
    DocumentView {
        id: 0,
        title: match stem {
            Some(t) => t,
            None => unknown_name(),
        },
        author: Some(unknown_name()),
        format: spec_format_name(lowercase_of(ext_lower)),
        path,
        date_added,
        last_opened: None,
        cover_path: None,
        file_size_bytes,
        text_encoding: spec_text_encoding(ext_lower),
    }
}

/// The documents are exactly the files with one of the four extensions
/// txt, epub, md and markdown (compared in lowercase); each gets its format
/// name and, for the text formats, the UTF-8 encoding; any other extension
/// keeps its (lowercase) name as its format and has no encoding.
pub proof fn lemma_document_extensions(lower: Seq<char>)
    ensures
        is_supported_ext(lower) <==> (lower == seq!['t', 'x', 't'] || lower == seq!['e', 'p', 'u', 'b']
            || lower == seq!['m', 'd'] || lower == seq!['m', 'a', 'r', 'k', 'd', 'o', 'w', 'n']),
        lower == seq!['t', 'x', 't'] ==> spec_format_name(lower) == seq![
            'P',
            'l',
            'a',
            'i',
            'n',
            ' ',
            'T',
            'e',
            'x',
            't',
        ] && spec_text_encoding(lower) == Some(seq!['U', 'T', 'F', '-', '8']),
        (lower == seq!['m', 'd'] || lower == seq!['m', 'a', 'r', 'k', 'd', 'o', 'w', 'n'])
            ==> spec_format_name(lower) == seq!['M', 'a', 'r', 'k', 'd', 'o', 'w', 'n']
            && spec_text_encoding(lower) == Some(seq!['U', 'T', 'F', '-', '8']),
        lower == seq!['e', 'p', 'u', 'b'] ==> spec_format_name(lower) == seq!['E', 'P', 'U', 'B']
            && spec_text_encoding(lower) is None,
        !(lower == seq!['t', 'x', 't'] || lower == seq!['e', 'p', 'u', 'b'] || lower == seq!['m', 'd']
            || lower == seq!['m', 'a', 'r', 'k', 'd', 'o', 'w', 'n']) ==> spec_format_name(lower)
            == lower && spec_text_encoding(lower) is None,
{
}

/// The characters of an optional string, or none.
pub open spec fn or_empty(o: Option<Seq<char>>) -> Seq<char> {
    match o {
        Some(s) => s,
        None => Seq::empty(),
    }
}

/// What importing one chosen file comes to.
pub enum ImportDecision {
    /// The database already holds the file: show its stored record.
    UseExisting(Document),
    /// Insert this new record.
    Insert(Document),
}

/// The characters of an optional string.
pub open spec fn opt_view(o: Option<String>) -> Option<Seq<char>> {
    match o {
        Some(s) => Some(s@),
        None => None,
    }
}

/// The characters of an optional string slice.
pub open spec fn opt_str_view(o: Option<&str>) -> Option<Seq<char>> {
    match o {
        Some(s) => Some(s@),
        None => None,
    }
}

fn known_extension(lower: &str) -> (res: u8)
    ensures
        res == 0 <==> lower@ == ext_txt(),
        res == 1 <==> (lower@ == ext_md() || lower@ == ext_markdown()),
        res == 2 <==> lower@ == ext_epub(),
        res == 3 <==> !is_supported_ext(lower@),
{
    proof {
        reveal_strlit("txt");
        reveal_strlit("md");
        reveal_strlit("markdown");
        reveal_strlit("epub");
    }
    if str_eq(lower, "txt") {
        assert("txt"@ =~= ext_txt());
        0
    } else if str_eq(lower, "md") || str_eq(lower, "markdown") {
        assert("md"@ =~= ext_md());
        assert("markdown"@ =~= ext_markdown());
        1
    } else if str_eq(lower, "epub") {
        assert("epub"@ =~= ext_epub());
        2
    } else {
        assert("txt"@ =~= ext_txt());
        assert("md"@ =~= ext_md());
        assert("markdown"@ =~= ext_markdown());
        assert("epub"@ =~= ext_epub());
        3
    }
}

/// Scans directories for documents.
pub struct DocumentScanner;

impl DocumentScanner {
    /// Normalize format name to human-readable form.
    pub fn normalize_format(ext: &str) -> (res: String)
        ensures
            res@ == spec_format_name(lowercase_of(ext@)),
    {
        let lower = to_lowercase(ext);
        Self::format_name(lower.as_str())
    }

    /// The human-readable name of the format with the lowercase extension
    /// `lower`.
    pub fn format_name(lower: &str) -> (res: String)
        ensures
            res@ == spec_format_name(lower@),
    {
        let which = known_extension(lower);
        if which == 0 {
            proof {
                reveal_strlit("Plain Text");
            }
            assert("Plain Text"@ =~= name_plain_text());
            String::from_str("Plain Text")
        } else if which == 1 {
            proof {
                reveal_strlit("Markdown");
            }
            assert("Markdown"@ =~= name_markdown());
            String::from_str("Markdown")
        } else if which == 2 {
            proof {
                reveal_strlit("EPUB");
            }
            assert("EPUB"@ =~= name_epub());
            String::from_str("EPUB")
        } else {
            String::from_str(lower)
        }
    }

    /// Whether the lowercase extension `lower` is one of a document.
    pub fn is_supported_extension(lower: &str) -> (res: bool)
        ensures
            res == is_supported_ext(lower@),
    {
        known_extension(lower) != 3
    }

    /// For a directory entry, the lowercased extension when the entry is a
    /// file whose extension is one of a document; `None` for anything else.
    pub fn candidate_extension(is_file: bool, extension: Option<&str>) -> (res: Option<String>)
        ensures
            res is Some <==> (is_file && extension is Some && is_supported_ext(
                lowercase_of(extension->0@),
            )),
            res matches Some(l) ==> l@ == lowercase_of(extension->0@),
    {
        if !is_file {
            return None;
        }
        match extension {
            Some(ext) => {
                let lower = to_lowercase(ext);
                if Self::is_supported_extension(lower.as_str()) {
                    Some(lower)
                } else {
                    None
                }
            },
            None => None,
        }
    }

    /// The lowercased extension of a path, empty when it has none.
    pub fn lowercase_extension(extension: Option<&str>) -> (res: String)
        ensures
            res@ == lowercase_of(or_empty(opt_str_view(extension))),
    {
        proof {
            reveal_strlit("");
        }
        assert(""@ =~= Seq::<char>::empty());
        match extension {
            Some(e) => to_lowercase(e),
            None => to_lowercase(""),
        }
    }

    /// What importing one chosen file comes to, given the database's record
    /// for its path, if any, and its stem and extension: the stored record
    /// when there is one, else a new record to insert, whose format comes
    /// from the lowercased extension (empty when there is none).
    pub fn import_decision_with(
        existing: Option<Document>,
        stem: Option<&str>,
        extension: Option<&str>,
        path: &str,
        date_added: String,
        file_size_bytes: Option<i64>,
    ) -> (res: ImportDecision)
        ensures
            match existing {
                Some(d) => res == ImportDecision::UseExisting(d),
                None => res matches ImportDecision::Insert(doc) && doc@ == spec_new_document(
                    opt_str_view(stem),
                    lowercase_of(or_empty(opt_str_view(extension))),
                    path@,
                    date_added@,
                    file_size_bytes,
                ),
            },
    {
        match existing {
            Some(d) => ImportDecision::UseExisting(d),
            None => {
                let ext = Self::lowercase_extension(extension);
                ImportDecision::Insert(
                    Self::new_document(stem, ext.as_str(), path, date_added, file_size_bytes),
                )
            },
        }
    }

    /// What importing the file at `path` comes to: `import_decision_with`
    /// with the stem and extension of the path's file name.
    pub fn import_decision(
        existing: Option<Document>,
        path: &str,
        date_added: String,
        file_size_bytes: Option<i64>,
    ) -> (res: ImportDecision)
        ensures
            match existing {
                Some(d) => res == ImportDecision::UseExisting(d),
                None => res matches ImportDecision::Insert(doc) && doc@ == spec_new_document(
                    spec_file_stem(path@),
                    lowercase_of(or_empty(spec_extension(path@))),
                    path@,
                    date_added@,
                    file_size_bytes,
                ),
            },
    {
        let stem = file_stem(path);
        let ext = extension(path);
        let stem_str = match &stem {
            Some(t) => Some(t.as_str()),
            None => None,
        };
        let ext_str = match &ext {
            Some(e) => Some(e.as_str()),
            None => None,
        };
        Self::import_decision_with(existing, stem_str, ext_str, path, date_added, file_size_bytes)
    }

    /// The text encoding recorded for a file with the lowercase extension
    /// `lower`.
    pub fn text_encoding(lower: &str) -> (res: Option<String>)
        ensures
            opt_view(res) == spec_text_encoding(lower@),
    {
        let which = known_extension(lower);
        if which == 0 || which == 1 {
            proof {
                reveal_strlit("UTF-8");
            }
            assert("UTF-8"@ =~= utf8_name());
            Some(String::from_str("UTF-8"))
        } else {
            None
        }
    }

    /// The record of a file newly taken into the library: the title is the
    /// file name without its extension ("Unknown" when there is none), the
    /// author is "Unknown", and the id is 0 until the database assigns one.
    pub fn new_document(
        stem: Option<&str>,
        ext_lower: &str,
        path: &str,
        date_added: String,
        file_size_bytes: Option<i64>,
    ) -> (res: Document)
        ensures
            res@ == spec_new_document(opt_str_view(stem), ext_lower@, path@, date_added@, file_size_bytes),
    {
        proof {
            reveal_strlit("Unknown");
        }
        assert("Unknown"@ =~= unknown_name());
        let title = match stem {
            Some(t) => String::from_str(t),
            None => String::from_str("Unknown"),
        };
        Document {
            id: 0,
            title,
            author: Some(String::from_str("Unknown")),
            format: Self::normalize_format(ext_lower),
            path: String::from_str(path),
            date_added,
            last_opened: None,
            cover_path: None,
            file_size_bytes,
            text_encoding: Self::text_encoding(ext_lower),
        }
    }
}

} // verus!
