//! Scanning a directory into the library, one step at a time: each entry of
//! the directory is offered to the scan, which says whether to look its path
//! up in the database, to insert a new record, or to go on with the next
//! entry.

use vstd::prelude::*;

use crate::corelib::{is_supported_ext, opt_view, spec_new_document, DocumentScanner};
use crate::database::{Document, DocumentView};
use crate::document_object::{extension, file_stem, spec_extension, spec_file_stem};
use crate::text::lowercase_of;

verus! {

/// A directory entry as the scan sees it.
pub struct ScanEntry {
    pub is_file: bool,
    pub path: String,
    /// The file name without its extension, where it is valid UTF-8.
    pub stem: Option<String>,
    /// The extension, where there is one and it is valid UTF-8.
    pub extension: Option<String>,
    pub file_size_bytes: Option<i64>,
}

impl ScanEntry {
    /// The entry for the file at `path`: its stem and extension are those
    /// of the path's file name.
    pub fn for_path(path: &str, is_file: bool, file_size_bytes: Option<i64>) -> (res: ScanEntry)
        ensures
            res.is_file == is_file,
            res.path@ == path@,
            opt_view(res.stem) == spec_file_stem(path@),
            opt_view(res.extension) == spec_extension(path@),
            res.file_size_bytes == file_size_bytes,
    {
        ScanEntry {
            is_file,
            path: String::from_str(path),
            stem: file_stem(path),
            extension: extension(path),
            file_size_bytes,
        }
    }
}

/// What the scan is told.
pub enum ScanEvent {
    /// The next directory entry, with the time at which it is scanned.
    Entry(ScanEntry, String),
    /// The database's answer to the lookup the scan asked for.
    Found(Option<Document>),
    /// The id the database gave the record the scan asked to insert.
    Inserted(i64),
}

/// What the scan asks for.
pub enum ScanAction {
    /// Offer the next directory entry (or finish when there is none).
    NextEntry,
    /// Look up the document with this path.
    LookUp(String),
    /// Insert this record.
    Insert(Document),
}

enum Phase {
    Idle,
    LookingUp(Document),
    Inserting(Document),
}

/// The scan of one directory.
pub struct DirectoryScan {
    documents: Vec<Document>,
    phase: Phase,
}

pub ghost enum ScanEventView {
    Entry {
        is_file: bool,
        path: Seq<char>,
        stem: Option<Seq<char>>,
        extension: Option<Seq<char>>,
        file_size_bytes: Option<i64>,
        now: Seq<char>,
    },
    Found(Option<DocumentView>),
    Inserted(i64),
}

pub ghost enum ScanActionView {
    NextEntry,
    LookUp(Seq<char>),
    Insert(DocumentView),
}

pub ghost enum ScanPhase {
    /// Waiting for the next directory entry.
    Idle,
    /// Waiting for the lookup of this record's path.
    LookingUp(DocumentView),
    /// Waiting for the id of this inserted record.
    Inserting(DocumentView),
}

pub open spec fn opt_doc_view(o: Option<Document>) -> Option<DocumentView> {
    match o {
        Some(d) => Some(d@),
        None => None,
    }
}

impl View for ScanEvent {
    type V = ScanEventView;

    open spec fn view(&self) -> ScanEventView {
        match self {
            ScanEvent::Entry(e, now) => ScanEventView::Entry {
                is_file: e.is_file,
                path: e.path@,
                stem: opt_view(e.stem),
                extension: opt_view(e.extension),
                file_size_bytes: e.file_size_bytes,
                now: now@,
            },
            ScanEvent::Found(d) => ScanEventView::Found(opt_doc_view(*d)),
            ScanEvent::Inserted(id) => ScanEventView::Inserted(*id),
        }
    }
}

impl View for ScanAction {
    type V = ScanActionView;

    open spec fn view(&self) -> ScanActionView {
        match self {
            ScanAction::NextEntry => ScanActionView::NextEntry,
            ScanAction::LookUp(p) => ScanActionView::LookUp(p@),
            ScanAction::Insert(d) => ScanActionView::Insert(d@),
        }
    }
}

/// Whether a directory entry is taken into the library: a file whose
/// lowercased extension is one of a document.
pub open spec fn is_scan_candidate(is_file: bool, extension: Option<Seq<char>>) -> bool {
    is_file && extension is Some && is_supported_ext(lowercase_of(extension->0))
}

/// One step of a scan: from the records found so far, the phase and an
/// event, the records and phase after it and what the scan asks for next.
/// An event that does not answer what the scan asked for changes nothing,
/// and the scan asks again.
pub open spec fn spec_scan_step(docs: Seq<DocumentView>, phase: ScanPhase, event: ScanEventView) -> (
    Seq<DocumentView>,
    ScanPhase,
    ScanActionView,
) {
    match phase {
        ScanPhase::Idle => match event {
            ScanEventView::Entry { is_file, path, stem, extension, file_size_bytes, now } => {
                if is_scan_candidate(is_file, extension) {
                    let doc = spec_new_document(
                        stem,
                        lowercase_of(extension->0),
                        path,
                        now,
                        file_size_bytes,
                    );
                    (docs, ScanPhase::LookingUp(doc), ScanActionView::LookUp(path))
                } else {
                    (docs, ScanPhase::Idle, ScanActionView::NextEntry)
                }
            },
            _ => (docs, ScanPhase::Idle, ScanActionView::NextEntry),
        },
        ScanPhase::LookingUp(doc) => match event {
            ScanEventView::Found(Some(existing)) => (
                docs.push(existing),
                ScanPhase::Idle,
                ScanActionView::NextEntry,
            ),
            ScanEventView::Found(None) => (docs, ScanPhase::Inserting(doc), ScanActionView::Insert(doc)),
            _ => (docs, ScanPhase::LookingUp(doc), ScanActionView::LookUp(doc.path)),
        },
        ScanPhase::Inserting(doc) => match event {
            ScanEventView::Inserted(id) => (
                docs.push(DocumentView { id, ..doc }),
                ScanPhase::Idle,
                ScanActionView::NextEntry,
            ),
            _ => (docs, ScanPhase::Inserting(doc), ScanActionView::Insert(doc)),
        },
    }
}

/// A whole entry's round: the entry is offered; if the scan asks for a
/// lookup, `found` is the answer; if it then asks for an insert, `id` is the
/// new record's id. Gives the records and phase at the end and whether an
/// insert was asked for.
pub open spec fn spec_scan_entry(
    docs: Seq<DocumentView>,
    entry: ScanEventView,
    found: Option<DocumentView>,
    id: i64,
) -> (Seq<DocumentView>, ScanPhase, bool) {
    let (d1, p1, a1) = spec_scan_step(docs, ScanPhase::Idle, entry);
    match a1 {
        ScanActionView::LookUp(_) => {
            let (d2, p2, a2) = spec_scan_step(d1, p1, ScanEventView::Found(found));
            match a2 {
                ScanActionView::Insert(_) => {
                    let (d3, p3, _a3) = spec_scan_step(d2, p2, ScanEventView::Inserted(id));
                    (d3, p3, true)
                },
                _ => (d2, p2, false),
            }
        },
        _ => (d1, p1, false),
    }
}

/// Each directory entry adds one record when it is a document file and none
/// otherwise, and the scan then waits for the next entry. A document the
/// database already holds is taken from there and not inserted again, so
/// scanning a directory a second time inserts nothing; a new one is
/// inserted, and its record carries the id the database gave it.
pub proof fn lemma_scan_entry(
    docs: Seq<DocumentView>,
    is_file: bool,
    path: Seq<char>,
    stem: Option<Seq<char>>,
    extension: Option<Seq<char>>,
    file_size_bytes: Option<i64>,
    now: Seq<char>,
    found: Option<DocumentView>,
    id: i64,
)
    ensures
        ({
            let entry = ScanEventView::Entry { is_file, path, stem, extension, file_size_bytes, now };
            let (d, p, inserted) = spec_scan_entry(docs, entry, found, id);
            &&& p == ScanPhase::Idle
            &&& !is_scan_candidate(is_file, extension) ==> d == docs && !inserted
            &&& is_scan_candidate(is_file, extension) ==> {
                &&& d.len() == docs.len() + 1
                &&& d.take(docs.len() as int) == docs
                &&& inserted == (found is None)
                &&& found matches Some(x) ==> d.last() == x
                &&& found is None ==> d.last() == DocumentView {
                    id,
                    ..spec_new_document(
                        stem,
                        lowercase_of(extension->0),
                        path,
                        now,
                        file_size_bytes,
                    )
                }
            }
        }),
{
    let entry = ScanEventView::Entry { is_file, path, stem, extension, file_size_bytes, now };
    let (d, p, inserted) = spec_scan_entry(docs, entry, found, id);
    if is_scan_candidate(is_file, extension) {
        assert(d.take(docs.len() as int) =~= docs);
    }
}

/// The record one entry adds to a scan, given the database's answer to the
/// lookup and the id it would give a new record: none for an entry that is
/// not a document file, the stored record when the database holds one, the
/// new record with its id otherwise.
pub open spec fn entry_record(entry: ScanEventView, found: Option<DocumentView>, id: i64) -> Seq<
    DocumentView,
> {
    match entry {
        ScanEventView::Entry { is_file, path, stem, extension, file_size_bytes, now } => {
            if is_scan_candidate(is_file, extension) {
                match found {
                    Some(x) => seq![x],
                    None => seq![
                        DocumentView {
                            id,
                            ..spec_new_document(
                                stem,
                                lowercase_of(extension->0),
                                path,
                                now,
                                file_size_bytes,
                            )
                        },
                    ],
                }
            } else {
                Seq::empty()
            }
        },
        _ => Seq::empty(),
    }
}

/// Whether the entry makes the scan insert a new record: a document file
/// the database does not hold.
pub open spec fn entry_inserts(entry: ScanEventView, found: Option<DocumentView>) -> bool {
    match entry {
        ScanEventView::Entry { is_file, extension, .. } => is_scan_candidate(is_file, extension)
            && found is None,
        _ => false,
    }
}

/// Scanning a whole directory: the entries one after the other, each with
/// the database's answer and the id a new record would get. Gives the
/// records at the end and the number of inserts asked for.
pub open spec fn spec_scan_entries(
    docs: Seq<DocumentView>,
    entries: Seq<ScanEventView>,
    answers: Seq<(Option<DocumentView>, i64)>,
) -> (Seq<DocumentView>, nat)
    decreases entries.len(),
{
    if entries.len() == 0 {
        (docs, 0)
    } else {
        let (d, _p, inserted) = spec_scan_entry(docs, entries[0], answers[0].0, answers[0].1);
        let (rest, n) = spec_scan_entries(d, entries.drop_first(), answers.drop_first());
        (rest, n + if inserted { 1nat } else { 0nat })
    }
}

/// The records the entries add, in order.
pub open spec fn entries_records(
    entries: Seq<ScanEventView>,
    answers: Seq<(Option<DocumentView>, i64)>,
) -> Seq<DocumentView>
    decreases entries.len(),
{
    if entries.len() == 0 {
        Seq::empty()
    } else {
        entry_record(entries[0], answers[0].0, answers[0].1) + entries_records(
            entries.drop_first(),
            answers.drop_first(),
        )
    }
}

/// The number of entries that make the scan insert a new record.
pub open spec fn entries_inserts(
    entries: Seq<ScanEventView>,
    answers: Seq<(Option<DocumentView>, i64)>,
) -> nat
    decreases entries.len(),
{
    if entries.len() == 0 {
        0
    } else {
        (if entry_inserts(entries[0], answers[0].0) {
            1nat
        } else {
            0nat
        }) + entries_inserts(entries.drop_first(), answers.drop_first())
    }
}

/// Whether every event is a directory entry.
pub open spec fn all_entries(entries: Seq<ScanEventView>) -> bool {
    forall|i: int| 0 <= i < entries.len() ==> #[trigger] entries[i] is Entry
}

proof fn lemma_scan_one_entry(docs: Seq<DocumentView>, entry: ScanEventView, found: Option<DocumentView>, id: i64)
    requires
        entry is Entry,
    ensures
        ({
            let (d, p, inserted) = spec_scan_entry(docs, entry, found, id);
            &&& d == docs + entry_record(entry, found, id)
            &&& p == ScanPhase::Idle
            &&& inserted == entry_inserts(entry, found)
        }),
{
    match entry {
        ScanEventView::Entry { is_file, path, stem, extension, file_size_bytes, now } => {
            lemma_scan_entry(docs, is_file, path, stem, extension, file_size_bytes, now, found, id);
            let (d, p, inserted) = spec_scan_entry(docs, entry, found, id);
            if is_scan_candidate(is_file, extension) {
                assert(d =~= docs + entry_record(entry, found, id));
            } else {
                assert(docs + entry_record(entry, found, id) =~= docs);
            }
        },
        _ => {},
    }
}

/// Scanning a directory adds, after the records gathered before, exactly
/// the records of its document files in the order of the entries: the
/// stored record for each file the database holds and a new record with
/// its new id for each other one; it asks for one insert per document file
/// the database does not hold, and ends waiting for the next entry.
pub proof fn lemma_scan_entries(
    docs: Seq<DocumentView>,
    entries: Seq<ScanEventView>,
    answers: Seq<(Option<DocumentView>, i64)>,
)
    requires
        all_entries(entries),
        answers.len() >= entries.len(),
    ensures
        spec_scan_entries(docs, entries, answers) == (
            docs + entries_records(entries, answers),
            entries_inserts(entries, answers),
        ),
    decreases entries.len(),
{
    if entries.len() == 0 {
        assert(docs + entries_records(entries, answers) =~= docs);
    } else {
        assert(entries[0] is Entry);
        lemma_scan_one_entry(docs, entries[0], answers[0].0, answers[0].1);
        let d = docs + entry_record(entries[0], answers[0].0, answers[0].1);
        let rest = entries.drop_first();
        assert forall|i: int| 0 <= i < rest.len() implies #[trigger] rest[i] is Entry by {
            assert(rest[i] == entries[i + 1]);
        }
        lemma_scan_entries(d, rest, answers.drop_first());
        assert(d + entries_records(rest, answers.drop_first()) =~= docs + entries_records(
            entries,
            answers,
        ));
    }
}

/// Scanning a directory whose document files the database all holds inserts
/// nothing: a second scan of the same directory adds no row.
pub proof fn lemma_rescan_inserts_nothing(
    docs: Seq<DocumentView>,
    entries: Seq<ScanEventView>,
    answers: Seq<(Option<DocumentView>, i64)>,
)
    requires
        all_entries(entries),
        answers.len() >= entries.len(),
        forall|i: int| 0 <= i < entries.len() ==> (#[trigger] answers[i]).0 is Some,
    ensures
        spec_scan_entries(docs, entries, answers).1 == 0,
    decreases entries.len(),
{
    lemma_scan_entries(docs, entries, answers);
    lemma_no_inserts(entries, answers);
}

proof fn lemma_no_inserts(entries: Seq<ScanEventView>, answers: Seq<(Option<DocumentView>, i64)>)
    requires
        answers.len() >= entries.len(),
        forall|i: int| 0 <= i < entries.len() ==> (#[trigger] answers[i]).0 is Some,
    ensures
        entries_inserts(entries, answers) == 0,
    decreases entries.len(),
{
    if entries.len() > 0 {
        assert(answers[0].0 is Some);
        let ra = answers.drop_first();
        assert forall|i: int| 0 <= i < entries.len() - 1 implies (#[trigger] ra[i]).0 is Some by {
            assert(ra[i] == answers[i + 1]);
        }
        lemma_no_inserts(entries.drop_first(), ra);
    }
}

/// A document file the database does not hold yet is looked up under its
/// path and then inserted under that same path: the record the scan asks to
/// insert carries the entry's path, its stem (or "Unknown") as title, the
/// scan time, the entry's size and "Unknown" as author, with no id, no
/// last-opened date and no cover; once the database gives its id, exactly
/// that record with that id is gathered, and the scan waits for the next
/// entry. So the next scan finds the record by its path.
pub proof fn lemma_new_file_inserted_under_its_path(
    docs: Seq<DocumentView>,
    path: Seq<char>,
    stem: Option<Seq<char>>,
    ext: Seq<char>,
    file_size_bytes: Option<i64>,
    now: Seq<char>,
    id: i64,
)
    requires
        is_supported_ext(lowercase_of(ext)),
    ensures
        ({
            let entry = ScanEventView::Entry {
                is_file: true,
                path,
                stem,
                extension: Some(ext),
                file_size_bytes,
                now,
            };
            let (d1, p1, a1) = spec_scan_step(docs, ScanPhase::Idle, entry);
            let (d2, p2, a2) = spec_scan_step(d1, p1, ScanEventView::Found(None));
            &&& d1 == docs
            &&& a1 == ScanActionView::LookUp(path)
            &&& d2 == docs
            &&& a2 is Insert
            &&& a2 matches ScanActionView::Insert(r) ==> {
                &&& r.path == path
                &&& r.id == 0
                &&& r.title == (match stem {
                    Some(t) => t,
                    None => seq!['U', 'n', 'k', 'n', 'o', 'w', 'n'],
                })
                &&& r.author == Some(seq!['U', 'n', 'k', 'n', 'o', 'w', 'n'])
                &&& r.date_added == now
                &&& r.file_size_bytes == file_size_bytes
                &&& r.last_opened is None
                &&& r.cover_path is None
                &&& ({
                    let (d3, p3, a3) = spec_scan_step(d2, p2, ScanEventView::Inserted(id));
                    &&& d3 == docs.push(DocumentView { id, ..r })
                    &&& d3.last().path == path
                    &&& p3 == ScanPhase::Idle
                    &&& a3 == ScanActionView::NextEntry
                })
            }
        }),
{
}

/// A document file the database already holds is not inserted again: the
/// stored record is gathered as it is and the scan goes on with the next
/// entry.
pub proof fn lemma_stored_file_reused(
    docs: Seq<DocumentView>,
    path: Seq<char>,
    stem: Option<Seq<char>>,
    ext: Seq<char>,
    file_size_bytes: Option<i64>,
    now: Seq<char>,
    stored: DocumentView,
)
    requires
        is_supported_ext(lowercase_of(ext)),
    ensures
        ({
            let entry = ScanEventView::Entry {
                is_file: true,
                path,
                stem,
                extension: Some(ext),
                file_size_bytes,
                now,
            };
            let (d1, p1, a1) = spec_scan_step(docs, ScanPhase::Idle, entry);
            let (d2, p2, a2) = spec_scan_step(d1, p1, ScanEventView::Found(Some(stored)));
            &&& a1 == ScanActionView::LookUp(path)
            &&& d2 == docs.push(stored)
            &&& p2 == ScanPhase::Idle
            &&& a2 == ScanActionView::NextEntry
        }),
{
}

/// A directory, or a file whose extension is not one of a document, adds
/// nothing and asks for nothing.
pub proof fn lemma_other_entries_skipped(
    docs: Seq<DocumentView>,
    is_file: bool,
    path: Seq<char>,
    stem: Option<Seq<char>>,
    extension: Option<Seq<char>>,
    file_size_bytes: Option<i64>,
    now: Seq<char>,
)
    requires
        !is_file || extension is None || !is_supported_ext(lowercase_of(extension->0)),
    ensures
        spec_scan_step(
            docs,
            ScanPhase::Idle,
            ScanEventView::Entry { is_file, path, stem, extension, file_size_bytes, now },
        ) == (docs, ScanPhase::Idle, ScanActionView::NextEntry),
{
}

fn copy_opt_string(o: &Option<String>) -> (res: Option<String>)
    ensures
        opt_view(res) == opt_view(*o),
{
    match o {
        Some(s) => Some(s.clone()),
        None => None,
    }
}

/// A copy of a record.
pub fn copy_document(d: &Document) -> (res: Document)
    ensures
        res@ == d@,
{
    Document {
        id: d.id,
        title: d.title.clone(),
        author: copy_opt_string(&d.author),
        format: d.format.clone(),
        path: d.path.clone(),
        date_added: d.date_added.clone(),
        last_opened: copy_opt_string(&d.last_opened),
        cover_path: copy_opt_string(&d.cover_path),
        file_size_bytes: d.file_size_bytes,
        text_encoding: copy_opt_string(&d.text_encoding),
    }
}

impl DirectoryScan {
    /// The records the scan has gathered, in the order of the entries.
    pub closed spec fn documents(self) -> Seq<DocumentView> {
        self.documents@.map_values(|d: Document| d@)
    }

    /// What the scan waits for.
    pub closed spec fn phase(self) -> ScanPhase {
        match self.phase {
            Phase::Idle => ScanPhase::Idle,
            Phase::LookingUp(d) => ScanPhase::LookingUp(d@),
            Phase::Inserting(d) => ScanPhase::Inserting(d@),
        }
    }

    /// A scan that has gathered nothing and waits for the first entry.
    pub fn new() -> (res: Self)
        ensures
            res.documents() == Seq::<DocumentView>::empty(),
            res.phase() == ScanPhase::Idle,
    {
        let res = DirectoryScan { documents: Vec::new(), phase: Phase::Idle };
        assert(res.documents() =~= Seq::<DocumentView>::empty());
        res
    }

    fn push_document(&mut self, d: Document)
        ensures
            final(self).documents() == old(self).documents().push(d@),
            final(self).phase == old(self).phase,
    {
        self.documents.push(d);
        assert(self.documents() =~= old(self).documents().push(d@));
    }

    /// Takes one event and says what the scan asks for next.
    pub fn step(&mut self, event: ScanEvent) -> (action: ScanAction)
        ensures
            ({
                let (docs, phase, act) = spec_scan_step(old(self).documents(), old(self).phase(), event@);
                &&& final(self).documents() == docs
                &&& final(self).phase() == phase
                &&& action@ == act
            }),
    {
        let mut phase = Phase::Idle;
        std::mem::swap(&mut phase, &mut self.phase);
        match phase {
            Phase::Idle => match event {
                ScanEvent::Entry(entry, now) => {
                    let ScanEntry { is_file, path, stem, extension, file_size_bytes } = entry;
                    let ext = match &extension {
                        Some(e) => Some(e.as_str()),
                        None => None,
                    };
                    match DocumentScanner::candidate_extension(is_file, ext) {
                        Some(ext_lower) => {
                            let stem_str = match &stem {
                                Some(s) => Some(s.as_str()),
                                None => None,
                            };
                            let doc = DocumentScanner::new_document(
                                stem_str,
                                ext_lower.as_str(),
                                path.as_str(),
                                now,
                                file_size_bytes,
                            );
                            self.phase = Phase::LookingUp(doc);
                            ScanAction::LookUp(path)
                        },
                        None => ScanAction::NextEntry,
                    }
                },
                _ => ScanAction::NextEntry,
            },
            Phase::LookingUp(doc) => match event {
                ScanEvent::Found(Some(existing)) => {
                    self.push_document(existing);
                    ScanAction::NextEntry
                },
                ScanEvent::Found(None) => {
                    let copy = copy_document(&doc);
                    self.phase = Phase::Inserting(doc);
                    ScanAction::Insert(copy)
                },
                _ => {
                    let path = doc.path.clone();
                    self.phase = Phase::LookingUp(doc);
                    ScanAction::LookUp(path)
                },
            },
            Phase::Inserting(doc) => match event {
                ScanEvent::Inserted(id) => {
                    self.push_document(doc.with_id(id));
                    ScanAction::NextEntry
                },
                _ => {
                    let copy = copy_document(&doc);
                    self.phase = Phase::Inserting(doc);
                    ScanAction::Insert(copy)
                },
            },
        }
    }

    /// The records the scan has gathered.
    pub fn into_documents(self) -> (res: Vec<Document>)
        ensures
            res@.map_values(|d: Document| d@) == self.documents(),
    {
        self.documents
    }
}

} // verus!
