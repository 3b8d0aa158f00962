//! Character-level string helpers shared by the library: reading the
//! characters of a string, building strings, comparing them and replacing
//! every occurrence of a pattern.

use vstd::prelude::*;

verus! {

broadcast use vstd::string::group_string_axioms;

/// The characters of `s`, in order.
pub fn chars_of(s: &str) -> (res: Vec<char>)
    ensures
        res@ == s@,
{
    let mut res: Vec<char> = Vec::new();
    for c in it: s.chars()
        invariant
            it.seq() == s@,
            res@ == it.seq().take(it.index() as int),
    {
        res.push(c);
    }
    res
}

/// Appends one character to a string.
///
/// Trusted: `String::push`, which std documents as appending the given
/// character to the end of the string.
#[verifier::external_body]
pub(crate) fn push_char(s: &mut String, c: char)
    ensures
        final(s)@ == old(s)@.push(c),
{
    s.push(c);
}

/// Appends the characters `v[from..to]` to `s`.
pub fn push_chars(s: &mut String, v: &Vec<char>, from: usize, to: usize)
    requires
        from <= to <= v@.len(),
    ensures
        final(s)@ == old(s)@ + v@.subrange(from as int, to as int),
{
    let mut i = from;
    while i < to
        invariant
            from <= i <= to <= v@.len(),
            s@ == old(s)@ + v@.subrange(from as int, i as int),
        decreases to - i,
    {
        push_char(s, v[i]);
        assert(v@.subrange(from as int, i + 1) =~= v@.subrange(from as int, i as int).push(v@[i as int]));
        i += 1;
    }
}

/// A string made of the characters of `v`.
pub fn string_from_chars(v: &Vec<char>) -> (res: String)
    ensures
        res@ == v@,
{
    let mut res = String::new();
    push_chars(&mut res, v, 0, v.len());
    assert(v@.subrange(0, v@.len() as int) =~= v@);
    res
}

/// Whether two strings hold the same characters.
pub fn str_eq(a: &str, b: &str) -> (res: bool)
    ensures
        res == (a@ == b@),
{
    let av = chars_of(a);
    let bv = chars_of(b);
    if av.len() != bv.len() {
        return false;
    }
    let mut i: usize = 0;
    while i < av.len()
        invariant
            av@ == a@,
            bv@ == b@,
            av@.len() == bv@.len(),
            i <= av@.len(),
            forall|j: int| 0 <= j < i ==> av@[j] == bv@[j],
        decreases av.len() - i,
    {
        if av[i] != bv[i] {
            return false;
        }
        i += 1;
    }
    assert(av@ =~= bv@);
    true
}

/// Whether `p` occurs in `s` starting at position `i`.
pub open spec fn occurs_at(s: Seq<char>, p: Seq<char>, i: int) -> bool {
    0 <= i && i + p.len() <= s.len() && s.subrange(i, i + p.len()) == p
}

/// Whether `p` occurs anywhere in `s`.
pub open spec fn contains_seq(s: Seq<char>, p: Seq<char>) -> bool {
    exists|i: int| occurs_at(s, p, i)
}

/// The part of `s` from position `i` on, with every occurrence of `p` replaced
/// by `r`: occurrences are taken from left to right and do not overlap.
pub open spec fn replace_from(s: Seq<char>, p: Seq<char>, r: Seq<char>, i: int) -> Seq<char>
    decreases s.len() - i,
{
    if i < 0 || p.len() == 0 || i + p.len() > s.len() {
        s.subrange(i, s.len() as int)
    } else if s.subrange(i, i + p.len()) == p {
        r + replace_from(s, p, r, i + p.len())
    } else {
        seq![s[i]] + replace_from(s, p, r, i + 1)
    }
}

/// `s` with every non-overlapping occurrence of `p`, found from left to
/// right, replaced by `r` (the meaning of `str::replace` for a non-empty `p`).
pub open spec fn replace_all(s: Seq<char>, p: Seq<char>, r: Seq<char>) -> Seq<char> {
    replace_from(s, p, r, 0)
}

/// Whether `p` occurs in `v` at position `i`.
fn matches_at(v: &Vec<char>, i: usize, p: &Vec<char>) -> (res: bool)
    requires
        i + p@.len() <= v@.len(),
    ensures
        res == (v@.subrange(i as int, i + p@.len()) == p@),
{
    let mut j: usize = 0;
    while j < p.len()
        invariant
            i + p@.len() <= v@.len(),
            j <= p@.len(),
            forall|k: int| 0 <= k < j ==> v@[i + k] == p@[k],
        decreases p.len() - j,
    {
        assert(i + j < v.len());
        if v[i + j] != p[j] {
            assert(v@.subrange(i as int, i + p@.len())[j as int] != p@[j as int]);
            return false;
        }
        j += 1;
    }
    assert(v@.subrange(i as int, i + p@.len()) =~= p@);
    true
}

/// `s` with every occurrence of the non-empty pattern `p` replaced by `r`,
/// as `str::replace` does.
pub fn replace_str(s: &str, p: &str, r: &str) -> (res: String)
    requires
        p@.len() > 0,
    ensures
        res@ == replace_all(s@, p@, r@),
{
    let sv = chars_of(s);
    let pv = chars_of(p);
    let n = sv.len();
    let m = pv.len();
    let mut res = String::new();
    let mut i: usize = 0;
    while i <= n && m <= n - i
        invariant
            sv@ == s@,
            pv@ == p@,
            n == sv@.len(),
            m == pv@.len(),
            m > 0,
            i <= n,
            res@ + replace_from(s@, p@, r@, i as int) == replace_all(s@, p@, r@),
        decreases n - i,
    {
        if matches_at(&sv, i, &pv) {
            let ghost before = res@;
            res.append(r);
            assert(before + replace_from(s@, p@, r@, i as int)
                =~= res@ + replace_from(s@, p@, r@, i + m));
            i = i + m;
        } else {
            let ghost before = res@;
            push_char(&mut res, sv[i]);
            assert(before + replace_from(s@, p@, r@, i as int)
                =~= res@ + replace_from(s@, p@, r@, i + 1));
            i = i + 1;
        }
    }
    let ghost before = res@;
    push_chars(&mut res, &sv, i, n);
    assert(replace_from(s@, p@, r@, i as int) == s@.subrange(i as int, n as int));
    res
}

/// Replacing a pattern that does not occur leaves the text as it is.
pub proof fn lemma_replace_absent(s: Seq<char>, p: Seq<char>, r: Seq<char>)
    requires
        p.len() > 0,
        !contains_seq(s, p),
    ensures
        replace_all(s, p, r) == s,
{
    lemma_replace_from_absent(s, p, r, 0);
    assert(s.subrange(0, s.len() as int) =~= s);
}

proof fn lemma_replace_from_absent(s: Seq<char>, p: Seq<char>, r: Seq<char>, i: int)
    requires
        p.len() > 0,
        0 <= i <= s.len(),
        !contains_seq(s, p),
    ensures
        replace_from(s, p, r, i) == s.subrange(i, s.len() as int),
    decreases s.len() - i,
{
    if i + p.len() <= s.len() {
        assert(!occurs_at(s, p, i));
        lemma_replace_from_absent(s, p, r, i + 1);
        assert(replace_from(s, p, r, i) =~= s.subrange(i, s.len() as int));
    }
}

/// Where `p` occurs in `s`, the replacement `r` occurs in the result.
pub proof fn lemma_replace_present(s: Seq<char>, p: Seq<char>, r: Seq<char>, j: int)
    requires
        p.len() > 0,
        occurs_at(s, p, j),
    ensures
        contains_seq(replace_all(s, p, r), r),
{
    lemma_replace_from_present(s, p, r, 0, j);
}

proof fn lemma_replace_from_present(s: Seq<char>, p: Seq<char>, r: Seq<char>, i: int, j: int)
    requires
        p.len() > 0,
        0 <= i <= j,
        occurs_at(s, p, j),
    ensures
        contains_seq(replace_from(s, p, r, i), r),
    decreases j - i,
{
    let out = replace_from(s, p, r, i);
    if s.subrange(i, i + p.len()) == p {
        assert(out.subrange(0, r.len() as int) =~= r);
        assert(occurs_at(out, r, 0));
    } else {
        assert(i != j);
        lemma_replace_from_present(s, p, r, i + 1, j);
        let rest = replace_from(s, p, r, i + 1);
        let k = choose|k: int| occurs_at(rest, r, k);
        assert(out == seq![s[i]] + rest);
        assert(out.subrange(k + 1, k + 1 + r.len()) =~= rest.subrange(k, k + r.len()));
        assert(occurs_at(out, r, k + 1));
    }
}

/// What `str::to_lowercase` gives for a string: its Unicode lowercase
/// mapping (context-sensitive for the final sigma).
pub uninterp spec fn lowercase_of(s: Seq<char>) -> Seq<char>;

/// Trusted: `str::to_lowercase`. Its result is a function of the string
/// alone, named `lowercase_of`.
#[verifier::external_body]
pub(crate) fn to_lowercase(s: &str) -> (res: String)
    ensures
        res@ == lowercase_of(s@),
{
    s.to_lowercase()
}

/// The strings of `list` with `sep` between each two of them.
pub open spec fn seq_join(list: Seq<Seq<char>>, sep: Seq<char>) -> Seq<char>
    decreases list.len(),
{
    if list.len() == 0 {
        Seq::empty()
    } else if list.len() == 1 {
        list[0]
    } else {
        seq_join(list.drop_last(), sep) + sep + list.last()
    }
}

/// Joins the strings of `list` with `sep` between each two of them.
pub fn join_strings(list: &Vec<String>, sep: &str) -> (res: String)
    ensures
        res@ == seq_join(list@.map_values(|v: String| v@), sep@),
{
    let ghost views = list@.map_values(|v: String| v@);
    let mut res = String::new();
    let mut i: usize = 0;
    assert(views.take(0) =~= Seq::<Seq<char>>::empty());
    while i < list.len()
        invariant
            views == list@.map_values(|v: String| v@),
            i <= list@.len(),
            res@ == seq_join(views.take(i as int), sep@),
        decreases list.len() - i,
    {
        if i != 0 {
            res.append(sep);
        }
        res.append(list[i].as_str());
        assert(views.take(i + 1).drop_last() =~= views.take(i as int));
        assert(views.take(i + 1).last() == list@[i as int]@);
        i += 1;
    }
    assert(views.take(i as int) =~= views);
    res
}

/// Each `from` replaced by `to`, character by character.
pub open spec fn replace_char(s: Seq<char>, from: char, to: char) -> Seq<char> {
    s.map_values(|c: char| if c == from { to } else { c })
}

/// Replacing a one-character pattern is replacing that character wherever
/// it stands.
pub proof fn lemma_replace_single_char(s: Seq<char>, from: char, to: char)
    ensures
        replace_all(s, seq![from], seq![to]) == replace_char(s, from, to),
{
    lemma_replace_from_single_char(s, from, to, 0);
    assert(s.subrange(0, s.len() as int) =~= s);
}

proof fn lemma_replace_from_single_char(s: Seq<char>, from: char, to: char, i: int)
    requires
        0 <= i <= s.len(),
    ensures
        replace_from(s, seq![from], seq![to], i) == replace_char(s.subrange(i, s.len() as int), from, to),
    decreases s.len() - i,
{
    let p = seq![from];
    if i + 1 <= s.len() {
        lemma_replace_from_single_char(s, from, to, i + 1);
        let tail = s.subrange(i, s.len() as int);
        assert(s.subrange(i, i + 1) == p <==> s[i] == from) by {
            if s[i] == from {
                assert(s.subrange(i, i + 1) =~= p);
            }
            if s.subrange(i, i + 1) == p {
                assert(s.subrange(i, i + 1)[0] == p[0]);
            }
        }
        assert(replace_from(s, p, seq![to], i) =~= replace_char(tail, from, to));
    } else {
        assert(replace_char(s.subrange(i, s.len() as int), from, to) =~= Seq::<char>::empty());
    }
}

} // verus!
