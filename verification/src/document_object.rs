//! What the library views show of a document: its author, its file name,
//! the date it was added, its size class and the one-line summaries.

use vstd::prelude::*;

use crate::corelib::{opt_str_view, opt_view};
use crate::text::{chars_of, join_strings, seq_join, string_from_chars};

verus! {

broadcast use vstd::string::group_string_axioms;

/// The separator between the parts of a summary line: ` · `.
pub open spec fn part_separator() -> Seq<char> {
    seq![' ', '\u{b7}', ' ']
}

// ------------------------------------------------------------------
// Author
// ------------------------------------------------------------------

/// Get display author: the author when there is one, else `unknown`, the
/// (translated) word for an unknown author.
pub fn display_author(author: Option<&str>, unknown: &str) -> (res: String)
    ensures
        res@ == (match author {
            Some(a) => if a@.len() > 0 {
                a@
            } else {
                unknown@
            },
            None => unknown@,
        }),
{
    match author {
        Some(a) => if a.unicode_len() > 0 {
            String::from_str(a)
        } else {
            String::from_str(unknown)
        },
        None => String::from_str(unknown),
    }
}

// ------------------------------------------------------------------
// File name of a path
// ------------------------------------------------------------------

/// What `std::path::Path::file_name` gives for a path: its final component,
/// if there is one (none for a path that ends in `..` or is a root).
pub uninterp spec fn file_name_of(path: Seq<char>) -> Option<Seq<char>>;

/// Trusted: `std::path::Path::new(path).file_name()`, the name taken as a
/// string (a final component of a `&str` is valid UTF-8). Its result is a
/// function of the path alone, named `file_name_of`.
#[verifier::external_body]
fn path_file_name(path: &str) -> (res: Option<String>)
    ensures
        opt_view(res) == file_name_of(path@),
{
    std::path::Path::new(path).file_name().map(|n| n.to_string_lossy().to_string())
}

/// The label for a path: its file name when it has one, else the path.
pub fn path_label(path: &str, file_name: Option<String>) -> (res: String)
    ensures
        res@ == (match opt_view(file_name) {
            Some(n) => n,
            None => path@,
        }),
{
    match file_name {
        Some(n) => n,
        None => String::from_str(path),
    }
}

/// Get path display label: just the file name.
pub fn display_path(path: &str) -> (res: String)
    ensures
        res@ == (match file_name_of(path@) {
            Some(n) => n,
            None => path@,
        }),
{
    let name = path_file_name(path);
    path_label(path, name)
}

// ------------------------------------------------------------------
// Stem and extension of a path
// ------------------------------------------------------------------

/// The position of the last `.` in `s`, or -1 when there is none.
pub open spec fn last_dot(s: Seq<char>) -> int
    decreases s.len(),
{
    if s.len() == 0 {
        -1
    } else if s.last() == '.' {
        s.len() - 1
    } else {
        last_dot(s.drop_last())
    }
}

/// The stem of a file name, as `Path::file_stem` documents it: the whole
/// name when it holds no `.`, when its only `.` is its first character, or
/// when it is `..`; otherwise the part before the last `.`.
pub open spec fn stem_of_name(name: Seq<char>) -> Seq<char> {
    let i = last_dot(name);
    if name == seq!['.', '.'] || i <= 0 {
        name
    } else {
        name.take(i)
    }
}

/// The extension of a file name, as `Path::extension` documents it: none
/// when the name holds no `.`, when its only `.` is its first character, or
/// when it is `..`; otherwise the part after the last `.`.
pub open spec fn extension_of_name(name: Seq<char>) -> Option<Seq<char>> {
    let i = last_dot(name);
    if name == seq!['.', '.'] || i <= 0 {
        None
    } else {
        Some(name.skip(i + 1))
    }
}

/// What `Path::file_stem` gives for a path: the stem of its file name.
pub open spec fn spec_file_stem(path: Seq<char>) -> Option<Seq<char>> {
    match file_name_of(path) {
        Some(n) => Some(stem_of_name(n)),
        None => None,
    }
}

/// What `Path::extension` gives for a path: the extension of its file name.
pub open spec fn spec_extension(path: Seq<char>) -> Option<Seq<char>> {
    match file_name_of(path) {
        Some(n) => extension_of_name(n),
        None => None,
    }
}

proof fn lemma_last_dot_at(s: Seq<char>, k: int)
    requires
        -1 <= k < s.len(),
        forall|j: int| k < j < s.len() ==> #[trigger] s[j] != '.',
        k == -1 || s[k] == '.',
    ensures
        last_dot(s) == k,
    decreases s.len(),
{
    if s.len() > 0 {
        if s.last() != '.' {
            let t = s.drop_last();
            assert(k < s.len() - 1);
            assert forall|j: int| k < j < t.len() implies #[trigger] t[j] != '.' by {
                assert(t[j] == s[j]);
            }
            if k >= 0 {
                assert(t[k] == s[k]);
            }
            lemma_last_dot_at(t, k);
        }
    }
}

/// The stem and the extension of a file name.
fn split_file_name(name: &str) -> (res: (String, Option<String>))
    ensures
        res.0@ == stem_of_name(name@),
        opt_view(res.1) == extension_of_name(name@),
{
    let v = chars_of(name);
    let mut i: usize = v.len();
    while i > 0 && v[i - 1] != '.'
        invariant
            v@ == name@,
            i <= v@.len(),
            forall|j: int| i <= j < v@.len() ==> #[trigger] v@[j] != '.',
        decreases i,
    {
        i -= 1;
    }
    proof {
        lemma_last_dot_at(v@, i - 1);
    }
    let dots = v.len() == 2 && v[0] == '.' && v[1] == '.';
    assert(dots <==> name@ == seq!['.', '.']) by {
        if name@ == seq!['.', '.'] {
            assert(v@[0] == '.' && v@[1] == '.');
        }
        if dots {
            assert(v@ =~= seq!['.', '.']);
        }
    }
    if dots || i <= 1 {
        (String::from_str(name), None)
    } else {
        let mut stem_chars: Vec<char> = Vec::new();
        let mut ext_chars: Vec<char> = Vec::new();
        let mut j: usize = 0;
        while j < v.len()
            invariant
                v@ == name@,
                1 < i <= v@.len(),
                j <= v@.len(),
                stem_chars@ == v@.take(if j < i - 1 { j as int } else { i - 1 }),
                ext_chars@ == (if j <= i { Seq::<char>::empty() } else { v@.subrange(i as int, j as int) }),
            decreases v.len() - j,
        {
            if j < i - 1 {
                stem_chars.push(v[j]);
                assert(v@.take(j + 1) =~= v@.take(j as int).push(v@[j as int]));
            } else if j >= i {
                ext_chars.push(v[j]);
                if j == i {
                    assert(v@.subrange(i as int, j + 1) =~= seq![v@[j as int]]);
                } else {
                    assert(v@.subrange(i as int, j + 1) =~= v@.subrange(i as int, j as int).push(
                        v@[j as int],
                    ));
                }
            }
            j += 1;
        }
        assert(v@.skip(i as int) =~= ext_chars@) by {
            if v@.len() == i {
                assert(ext_chars@ =~= Seq::<char>::empty());
            }
        }
        (string_from_chars(&stem_chars), Some(string_from_chars(&ext_chars)))
    }
}

/// The stem of a path's file name, as `Path::file_stem` gives it.
pub fn file_stem(path: &str) -> (res: Option<String>)
    ensures
        opt_view(res) == spec_file_stem(path@),
{
    match path_file_name(path) {
        Some(n) => Some(split_file_name(n.as_str()).0),
        None => None,
    }
}

/// The extension of a path's file name, as `Path::extension` gives it.
pub fn extension(path: &str) -> (res: Option<String>)
    ensures
        opt_view(res) == spec_extension(path@),
{
    match path_file_name(path) {
        Some(n) => split_file_name(n.as_str()).1,
        None => None,
    }
}

// ------------------------------------------------------------------
// Date
// ------------------------------------------------------------------

/// What chrono gives for a date string: `None` when
/// `DateTime::parse_from_rfc3339` rejects it, else the parsed date formatted
/// as `"%d %b %Y %H:%M"` (such as `23 May 2025 22:44`).
pub uninterp spec fn rfc3339_short_date(date: Seq<char>) -> Option<Seq<char>>;

/// Trusted: `chrono::DateTime::parse_from_rfc3339(date)`, and on success the
/// parsed value's `format("%d %b %Y %H:%M")`; the parsed value is chrono's
/// own type and only serves that formatting. The result is a function of
/// the date string alone, named `rfc3339_short_date`.
#[verifier::external_body]
fn short_date(date: &str) -> (res: Option<String>)
    ensures
        opt_view(res) == rfc3339_short_date(date@),
{
    match chrono::DateTime::parse_from_rfc3339(date) {
        Ok(dt) => Some(dt.format("%d %b %Y %H:%M").to_string()),
        Err(_) => None,
    }
}

/// The label for a date: its short form when it could be read, else the
/// date string as it is; empty for an empty date.
pub fn date_label(date: &str, short: Option<String>) -> (res: String)
    ensures
        res@ == (if date@.len() == 0 {
            Seq::empty()
        } else {
            match opt_view(short) {
                Some(s) => s,
                None => date@,
            }
        }),
{
    if date.unicode_len() == 0 {
        return String::new();
    }
    match short {
        Some(s) => s,
        None => String::from_str(date),
    }
}

/// Format date to human-readable: "23 May 2025 22:44".
pub fn format_date(date_added: &str) -> (res: String)
    ensures
        res@ == (if date_added@.len() == 0 {
            Seq::empty()
        } else {
            match rfc3339_short_date(date_added@) {
                Some(s) => s,
                None => date_added@,
            }
        }),
{
    if date_added.unicode_len() == 0 {
        return String::new();
    }
    let short = short_date(date_added);
    date_label(date_added, short)
}

// ------------------------------------------------------------------
// File size
// ------------------------------------------------------------------

/// The unit a file size is shown in.
#[derive(Debug, Clone, Copy, PartialEq, Eq)]
pub enum SizeUnit {
    /// No size is shown (unknown, zero or negative).
    Hidden,
    Bytes,
    Kilobytes,
    Megabytes,
    Gigabytes,
}

pub open spec fn kib() -> int {
    1024
}

/// The unit a size of `bytes` is shown in: gigabytes from 1024^3 bytes on,
/// megabytes from 1024^2, kilobytes from 1024, bytes below that, and none
/// for a size that is unknown or not positive.
pub open spec fn spec_size_unit(bytes: Option<i64>) -> SizeUnit {
    match bytes {
        Some(b) => if b <= 0 {
            SizeUnit::Hidden
        } else if b >= kib() * kib() * kib() {
            SizeUnit::Gigabytes
        } else if b >= kib() * kib() {
            SizeUnit::Megabytes
        } else if b >= kib() {
            SizeUnit::Kilobytes
        } else {
            SizeUnit::Bytes
        },
        None => SizeUnit::Hidden,
    }
}

/// The unit a file size is shown in.
pub fn size_unit(bytes: Option<i64>) -> (res: SizeUnit)
    ensures
        res == spec_size_unit(bytes),
{
    match bytes {
        Some(b) => if b <= 0 {
            SizeUnit::Hidden
        } else if b >= 1024 * 1024 * 1024 {
            SizeUnit::Gigabytes
        } else if b >= 1024 * 1024 {
            SizeUnit::Megabytes
        } else if b >= 1024 {
            SizeUnit::Kilobytes
        } else {
            SizeUnit::Bytes
        },
        None => SizeUnit::Hidden,
    }
}

/// A larger size is never shown in a smaller unit.
pub proof fn lemma_size_unit_monotonic(a: i64, b: i64)
    requires
        0 < a <= b,
    ensures
        unit_rank(spec_size_unit(Some(a))) <= unit_rank(spec_size_unit(Some(b))),
{
}

/// The units in increasing order.
pub open spec fn unit_rank(u: SizeUnit) -> int {
    match u {
        SizeUnit::Hidden => 0,
        SizeUnit::Bytes => 1,
        SizeUnit::Kilobytes => 2,
        SizeUnit::Megabytes => 3,
        SizeUnit::Gigabytes => 4,
    }
}

// ------------------------------------------------------------------
// Summary lines
// ------------------------------------------------------------------

/// The parts of a document's subtitle: its format and its size label when
/// they are not empty, and its text encoding when it has one.
pub open spec fn subtitle_parts(format: Seq<char>, size: Seq<char>, encoding: Option<Seq<char>>) -> Seq<
    Seq<char>,
> {
    let a: Seq<Seq<char>> = if format.len() > 0 {
        seq![format]
    } else {
        Seq::empty()
    };
    let b: Seq<Seq<char>> = if size.len() > 0 {
        seq![size]
    } else {
        Seq::empty()
    };
    let c: Seq<Seq<char>> = match encoding {
        Some(e) => seq![e],
        None => Seq::empty(),
    };
    a + b + c
}

fn separator() -> (res: &'static str)
    ensures
        res@ == part_separator(),
{
    proof {
        reveal_strlit(" \u{b7} ");
    }
    let s = " \u{b7} ";
    assert(s@ =~= part_separator());
    s
}

/// A document's subtitle: its format, size label and text encoding, the
/// empty ones left out, joined by ` · `.
pub fn format_subtitle(format: &str, size_label: &str, text_encoding: Option<&str>) -> (res: String)
    ensures
        res@ == seq_join(subtitle_parts(format@, size_label@, opt_str_view(text_encoding)), part_separator()),
{
    let mut parts: Vec<String> = Vec::new();
    if format.unicode_len() > 0 {
        parts.push(String::from_str(format));
    }
    if size_label.unicode_len() > 0 {
        parts.push(String::from_str(size_label));
    }
    if let Some(enc) = text_encoding {
        parts.push(String::from_str(enc));
    }
    let res = join_strings(&parts, separator());
    assert(parts@.map_values(|v: String| v@) =~= subtitle_parts(
        format@,
        size_label@,
        opt_str_view(text_encoding),
    ));
    res
}

/// The line under a document's title in the grid: `size · format`, or just
/// the format when no size is shown.
pub fn grid_meta_label(size_label: &str, format: &str) -> (res: String)
    ensures
        res@ == (if size_label@.len() > 0 {
            size_label@ + part_separator() + format@
        } else {
            format@
        }),
{
    if size_label.unicode_len() > 0 {
        let mut res = String::from_str(size_label);
        res.append(separator());
        res.append(format);
        res
    } else {
        String::from_str(format)
    }
}

} // verus!
