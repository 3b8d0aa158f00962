//! The records of the document library.

use vstd::prelude::*;

use crate::corelib::opt_view;

verus! {

/// A document of the library, as the database stores it.
#[derive(Debug, Clone, PartialEq, Eq)]
pub struct Document {
    pub id: i64,
    pub title: String,
    pub author: Option<String>,
    pub format: String,
    pub path: String,
    pub date_added: String,
    pub last_opened: Option<String>,
    pub cover_path: Option<String>,
    pub file_size_bytes: Option<i64>,
    pub text_encoding: Option<String>,
}

/// A document, each string taken by its characters.
pub ghost struct DocumentView {
    pub id: i64,
    pub title: Seq<char>,
    pub author: Option<Seq<char>>,
    pub format: Seq<char>,
    pub path: Seq<char>,
    pub date_added: Seq<char>,
    pub last_opened: Option<Seq<char>>,
    pub cover_path: Option<Seq<char>>,
    pub file_size_bytes: Option<i64>,
    pub text_encoding: Option<Seq<char>>,
}

impl View for Document {
    type V = DocumentView;

    open spec fn view(&self) -> DocumentView {
        DocumentView {
            id: self.id,
            title: self.title@,
            author: opt_view(self.author),
            format: self.format@,
            path: self.path@,
            date_added: self.date_added@,
            last_opened: opt_view(self.last_opened),
            cover_path: opt_view(self.cover_path),
            file_size_bytes: self.file_size_bytes,
            text_encoding: opt_view(self.text_encoding),
        }
    }
}

impl Document {
    /// The record with the id the database assigned to it.
    pub fn with_id(self, id: i64) -> (res: Document)
        ensures
            res@ == (DocumentView { id, ..self@ }),
    {
        Document { id, ..self }
    }
}

} // verus!
