//! Locale selection and message translation.
//!
//! The supported locales are `zh_CN`, `ja_JP` and `en_US`. A system locale
//! string such as `zh_CN.UTF-8` or a colon-separated `LANGUAGE` list such as
//! `ja_JP:en_US` is mapped to one of them; messages are looked up through
//! gettext, and `{ $name }` placeholders in them are filled in.

use vstd::prelude::*;

use crate::config::gettext_package;
use crate::gettext::{
    bind_text_domain, bind_text_domain_utf8, gettext_lookup, set_process_locale, set_text_domain,
    Utf8Messages,
};
use crate::text::{chars_of, contains_seq, occurs_at, replace_all, replace_str};

verus! {

broadcast use vstd::string::group_string_axioms;

// ------------------------------------------------------------------
// Mapping a system locale to a supported locale
// ------------------------------------------------------------------

pub open spec fn zh_cn() -> Seq<char> {
    seq!['z', 'h', '_', 'C', 'N']
}

pub open spec fn ja_jp() -> Seq<char> {
    seq!['j', 'a', '_', 'J', 'P']
}

pub open spec fn en_us() -> Seq<char> {
    seq!['e', 'n', '_', 'U', 'S']
}

/// One of the locales that the application ships translations for.
pub open spec fn is_supported_locale(s: Seq<char>) -> bool {
    s == zh_cn() || s == ja_jp() || s == en_us()
}

/// The part of `s` before the first `c` (all of `s` if there is none):
/// what `s.split(c).next()` gives.
pub open spec fn prefix_before(s: Seq<char>, c: char) -> Seq<char>
    decreases s.len(),
{
    if s.len() == 0 {
        s
    } else if s[0] == c {
        Seq::empty()
    } else {
        seq![s[0]] + prefix_before(s.drop_first(), c)
    }
}

/// The language part of a system locale: the first entry of a
/// colon-separated list, without its `.encoding` suffix.
pub open spec fn locale_base(s: Seq<char>) -> Seq<char> {
    prefix_before(prefix_before(s, ':'), '.')
}

/// Whether `c` equals the ASCII letter given in its lower and upper case.
pub open spec fn is_letter_ci(c: char, lower: char, upper: char) -> bool {
    c == lower || c == upper
}

/// Whether the lowercased `base` starts with the two letters `a` and `b`
/// (given in both cases). For the letters this is asked of (z, h, j and a),
/// the only characters whose lowercase form starts with the letter are the
/// letter itself and its ASCII capital, so comparing the first two
/// characters with either case is the same as lowercasing `base` first.
pub open spec fn starts_with_ci(base: Seq<char>, a: char, a_up: char, b: char, b_up: char) -> bool {
    base.len() >= 2 && is_letter_ci(base[0], a, a_up) && is_letter_ci(base[1], b, b_up)
}

/// The supported locale that a system locale maps to.
pub open spec fn spec_map_system_locale(s: Seq<char>) -> Seq<char> {
    let base = locale_base(s);
    if starts_with_ci(base, 'z', 'Z', 'h', 'H') {
        zh_cn()
    } else if starts_with_ci(base, 'j', 'J', 'a', 'A') {
        ja_jp()
    } else {
        en_us()
    }
}

pub open spec fn is_locale_sep(c: char) -> bool {
    c == ':' || c == '.'
}

/// The position of the first `:` or `.` in `s`, or its length.
pub open spec fn sep_index(s: Seq<char>) -> nat
    decreases s.len(),
{
    if s.len() == 0 {
        0
    } else if is_locale_sep(s[0]) {
        0
    } else {
        1 + sep_index(s.drop_first())
    }
}

pub proof fn lemma_sep_index_at(s: Seq<char>, k: int)
    requires
        0 <= k <= s.len(),
        forall|j: int| 0 <= j < k ==> !is_locale_sep(#[trigger] s[j]),
        k == s.len() || is_locale_sep(s[k]),
    ensures
        sep_index(s) == k,
    decreases k,
{
    if k > 0 {
        let t = s.drop_first();
        assert forall|j: int| 0 <= j < k - 1 implies !is_locale_sep(#[trigger] t[j]) by {
            assert(t[j] == s[j + 1]);
        }
        if k < s.len() {
            assert(t[k - 1] == s[k]);
        }
        lemma_sep_index_at(t, k - 1);
    }
}

proof fn lemma_prefix_before_cons(x: char, rest: Seq<char>, c: char)
    requires
        x != c,
    ensures
        prefix_before(seq![x] + rest, c) == seq![x] + prefix_before(rest, c),
{
    assert((seq![x] + rest).drop_first() =~= rest);
}

/// The language part of `s` is `s` up to its first `:` or `.`.
pub proof fn lemma_locale_base(s: Seq<char>)
    ensures
        sep_index(s) <= s.len(),
        locale_base(s) == s.take(sep_index(s) as int),
    decreases s.len(),
{
    if s.len() == 0 {
        assert(s.take(0) =~= s);
    } else if s[0] == ':' {
        assert(s.take(0) =~= Seq::<char>::empty());
    } else {
        let t = s.drop_first();
        lemma_locale_base(t);
        assert(prefix_before(s, ':') == seq![s[0]] + prefix_before(t, ':'));
        if s[0] == '.' {
            assert(s.take(0) =~= Seq::<char>::empty());
        } else {
            lemma_prefix_before_cons(s[0], prefix_before(t, ':'), '.');
            assert(s.take((1 + sep_index(t)) as int) =~= seq![s[0]] + t.take(sep_index(t) as int));
        }
    }
}

fn locale_literal(which: u8) -> (res: String)
    requires
        which < 3,
    ensures
        which == 0 ==> res@ == zh_cn(),
        which == 1 ==> res@ == ja_jp(),
        which == 2 ==> res@ == en_us(),
{
    if which == 0 {
        proof {
            reveal_strlit("zh_CN");
        }
        String::from_str("zh_CN")
    } else if which == 1 {
        proof {
            reveal_strlit("ja_JP");
        }
        String::from_str("ja_JP")
    } else {
        proof {
            reveal_strlit("en_US");
        }
        String::from_str("en_US")
    }
}

/// Map system locale to our supported locales.
pub fn map_system_locale(system_locale: &str) -> (res: String)
    ensures
        res@ == spec_map_system_locale(system_locale@),
        is_supported_locale(res@),
{
    let v = chars_of(system_locale);
    let mut k: usize = 0;
    while k < v.len() && v[k] != ':' && v[k] != '.'
        invariant
            v@ == system_locale@,
            k <= v@.len(),
            forall|j: int| 0 <= j < k ==> !is_locale_sep(#[trigger] v@[j]),
        decreases v.len() - k,
    {
        k += 1;
    }
    proof {
        lemma_sep_index_at(v@, k as int);
        lemma_locale_base(v@);
    }
    let ghost base = locale_base(system_locale@);
    assert(base == v@.take(k as int));
    if k >= 2 && (v[0] == 'z' || v[0] == 'Z') && (v[1] == 'h' || v[1] == 'H') {
        locale_literal(0)
    } else if k >= 2 && (v[0] == 'j' || v[0] == 'J') && (v[1] == 'a' || v[1] == 'A') {
        locale_literal(1)
    } else {
        locale_literal(2)
    }
}

proof fn lemma_base_of_supported(s: Seq<char>)
    requires
        is_supported_locale(s),
    ensures
        locale_base(s) == s,
{
    assert(forall|j: int| 0 <= j < 5 ==> !is_locale_sep(#[trigger] s[j]));
    lemma_sep_index_at(s, 5);
    lemma_locale_base(s);
    assert(s.take(5) =~= s);
}

/// Mapping is idempotent: a supported locale maps to itself, so mapping a
/// mapped locale again changes nothing.
pub proof fn lemma_map_system_locale_idempotent(s: Seq<char>)
    ensures
        spec_map_system_locale(spec_map_system_locale(s)) == spec_map_system_locale(s),
{
    let m = spec_map_system_locale(s);
    lemma_supported_maps_to_itself(m);
}

/// How a system locale is mapped, in terms of its characters: with `k` the
/// position of its first `:` or `.` (or its length), the part before `k`
/// maps to `zh_CN` when it starts with z and h in either case, to `ja_JP`
/// when it starts with j and a in either case, and to `en_US` in every
/// other case.
pub proof fn lemma_map_system_locale_by_prefix(s: Seq<char>, k: int)
    requires
        0 <= k <= s.len(),
        forall|j: int| 0 <= j < k ==> #[trigger] s[j] != ':' && s[j] != '.',
        k == s.len() || s[k] == ':' || s[k] == '.',
    ensures
        k >= 2 && (s[0] == 'z' || s[0] == 'Z') && (s[1] == 'h' || s[1] == 'H')
            ==> spec_map_system_locale(s) == seq!['z', 'h', '_', 'C', 'N'],
        k >= 2 && (s[0] == 'j' || s[0] == 'J') && (s[1] == 'a' || s[1] == 'A')
            ==> spec_map_system_locale(s) == seq!['j', 'a', '_', 'J', 'P'],
        !(k >= 2 && (s[0] == 'z' || s[0] == 'Z') && (s[1] == 'h' || s[1] == 'H')) && !(k >= 2 && (s[0]
            == 'j' || s[0] == 'J') && (s[1] == 'a' || s[1] == 'A')) ==> spec_map_system_locale(s)
            == seq!['e', 'n', '_', 'U', 'S'],
{
    assert forall|j: int| 0 <= j < k implies !is_locale_sep(#[trigger] s[j]) by {
        assert(s[j] != ':' && s[j] != '.');
    }
    lemma_sep_index_at(s, k);
    lemma_locale_base(s);
    let base = locale_base(s);
    assert(base == s.take(k));
    if k >= 2 {
        assert(base[0] == s[0] && base[1] == s[1]);
    }
}

/// Every supported locale maps to itself.
pub proof fn lemma_supported_maps_to_itself(s: Seq<char>)
    requires
        is_supported_locale(s),
    ensures
        spec_map_system_locale(s) == s,
{
    lemma_base_of_supported(s);
}

// ------------------------------------------------------------------
// Where the system locale and the message catalogs are found
// ------------------------------------------------------------------

/// The system locale named by the environment: the first of `LANGUAGE`,
/// `LANG`, `LC_ALL` and `LC_MESSAGES` that is set, else `en_US`.
pub open spec fn spec_system_locale(
    language: Option<Seq<char>>,
    lang: Option<Seq<char>>,
    lc_all: Option<Seq<char>>,
    lc_messages: Option<Seq<char>>,
) -> Seq<char> {
    match language {
        Some(v) => v,
        None => match lang {
            Some(v) => v,
            None => match lc_all {
                Some(v) => v,
                None => match lc_messages {
                    Some(v) => v,
                    None => en_us(),
                },
            },
        },
    }
}

/// The system locale named by the values of the environment variables
/// `LANGUAGE`, `LANG`, `LC_ALL` and `LC_MESSAGES` (`None` where one is not
/// set).
pub fn system_locale(
    language: Option<String>,
    lang: Option<String>,
    lc_all: Option<String>,
    lc_messages: Option<String>,
) -> (res: String)
    ensures
        res@ == spec_system_locale(
            crate::corelib::opt_view(language),
            crate::corelib::opt_view(lang),
            crate::corelib::opt_view(lc_all),
            crate::corelib::opt_view(lc_messages),
        ),
{
    match language {
        Some(v) => v,
        None => match lang {
            Some(v) => v,
            None => match lc_all {
                Some(v) => v,
                None => match lc_messages {
                    Some(v) => v,
                    None => locale_literal(2),
                },
            },
        },
    }
}

/// The first of the candidate directories that exists, else the configured
/// directory.
pub open spec fn spec_pick_locale_dir(configured: Seq<char>, candidates: Seq<(Seq<char>, bool)>) -> Seq<
    char,
>
    decreases candidates.len(),
{
    if candidates.len() == 0 {
        configured
    } else if candidates[0].1 {
        candidates[0].0
    } else {
        spec_pick_locale_dir(configured, candidates.drop_first())
    }
}

/// The candidate directories, each name taken by its characters.
pub open spec fn candidate_views(c: Seq<(String, bool)>) -> Seq<(Seq<char>, bool)> {
    c.map_values(|e: (String, bool)| (e.0@, e.1))
}

/// The directory of the message catalogs: the configured one when it
/// exists, else the first of the candidates (each given with whether it
/// exists) that exists, else the configured one all the same.
pub fn pick_locale_dir(configured: &str, configured_exists: bool, candidates: &Vec<(String, bool)>) -> (res:
    String)
    ensures
        res@ == (if configured_exists {
            configured@
        } else {
            spec_pick_locale_dir(
                configured@,
                candidate_views(candidates@),
            )
        }),
{
    if configured_exists {
        return String::from_str(configured);
    }
    let ghost cs = candidate_views(candidates@);
    let mut i: usize = 0;
    assert(cs.skip(0) =~= cs);
    while i < candidates.len()
        invariant
            !configured_exists,
            cs == candidate_views(candidates@),
            i <= candidates@.len(),
            spec_pick_locale_dir(configured@, cs) == spec_pick_locale_dir(configured@, cs.skip(i as int)),
        decreases candidates.len() - i,
    {
        assert(cs.skip(i as int)[0] == cs[i as int]);
        assert(cs[i as int] == (candidates@[i as int].0@, candidates@[i as int].1));
        let entry = &candidates[i];
        if entry.1 {
            let found = entry.0.clone();
            assert(found@ == cs.skip(i as int)[0].0);
            return found;
        }
        assert(cs.skip(i as int).drop_first() =~= cs.skip(i + 1));
        i += 1;
    }
    assert(cs.skip(i as int) =~= Seq::<(Seq<char>, bool)>::empty());
    String::from_str(configured)
}

// ------------------------------------------------------------------
// The current locale
// ------------------------------------------------------------------

/// The locale the application currently shows its messages in, and whether
/// gettext has been set up to hand out its messages in UTF-8.
pub struct LocaleState {
    current: String,
    utf8_messages: Option<Utf8Messages>,
}

impl LocaleState {
    #[verifier::type_invariant]
    spec fn inv(self) -> bool {
        is_supported_locale(self.current@)
    }

    /// The current locale.
    pub closed spec fn current(self) -> Seq<char> {
        self.current@
    }

    /// Whether the text domain has been made gettext's current domain and
    /// bound to the UTF-8 codeset, both with success, by the last locale
    /// change. gettext-rs requires this for its lookups: without it gettext
    /// hands out messages in the locale's codeset, and gettext-rs panics on
    /// one that is not UTF-8.
    pub closed spec fn gettext_ready(self) -> bool {
        self.utf8_messages is Some
    }

    /// A state whose current locale is `en_US`, the default, and in which
    /// gettext has not been set up yet.
    pub fn new() -> (res: Self)
        ensures
            res.current() == en_us(),
            !res.gettext_ready(),
    {
        LocaleState { current: locale_literal(2), utf8_messages: None }
    }

    /// Whether messages can be looked up (see `gettext_ready`).
    pub fn can_translate(&self) -> (res: bool)
        ensures
            res == self.gettext_ready(),
    {
        self.utf8_messages.is_some()
    }
}

/// Get current locale.
pub fn get_current_locale(state: &LocaleState) -> (res: String)
    ensures
        res@ == state.current(),
        is_supported_locale(res@),
{
    proof {
        use_type_invariant(state);
    }
    state.current.clone()
}

/// Set locale: the given locale is mapped to a supported one, which becomes
/// current, and the process locale and the gettext text domain are set up
/// for it with the message catalogs under `locale_dir`. Whether gettext then
/// hands out UTF-8 messages is recorded in the state.
pub fn set_current_locale(state: &mut LocaleState, locale: &str, locale_dir: &str)
    requires
        !locale_dir@.contains('\0'),
    ensures
        final(state).current() == spec_map_system_locale(locale@),
{
    let lang_id = map_system_locale(locale);
    let ready = activate_locale(&lang_id, locale_dir);
    state.current = lang_id;
    state.utf8_messages = ready;
}

/// The locale names handed to `setlocale` for a supported locale, in the
/// order in which they are tried.
pub open spec fn spec_setlocale_candidates(lang_id: Seq<char>) -> Seq<Seq<char>> {
    if lang_id.len() >= 2 && lang_id[0] == 'z' && lang_id[1] == 'h' {
        seq![zh_cn() + seq!['.', 'U', 'T', 'F', '-', '8'], zh_cn()]
    } else if lang_id.len() >= 2 && lang_id[0] == 'j' && lang_id[1] == 'a' {
        seq![ja_jp() + seq!['.', 'U', 'T', 'F', '-', '8'], ja_jp()]
    } else {
        Seq::empty()
    }
}

/// The locale names to try with `setlocale` for `lang_id`.
pub fn setlocale_candidates(lang_id: &str) -> (res: Vec<String>)
    ensures
        res@.len() == spec_setlocale_candidates(lang_id@).len(),
        forall|i: int| 0 <= i < res@.len() ==> #[trigger] res@[i]@ == spec_setlocale_candidates(lang_id@)[i],
{
    let v = chars_of(lang_id);
    let mut res: Vec<String> = Vec::new();
    if v.len() >= 2 && v[0] == 'z' && v[1] == 'h' {
        proof {
            reveal_strlit("zh_CN.UTF-8");
            reveal_strlit("zh_CN");
        }
        res.push(String::from_str("zh_CN.UTF-8"));
        res.push(String::from_str("zh_CN"));
        assert(zh_cn() + seq!['.', 'U', 'T', 'F', '-', '8'] =~= "zh_CN.UTF-8"@);
    } else if v.len() >= 2 && v[0] == 'j' && v[1] == 'a' {
        proof {
            reveal_strlit("ja_JP.UTF-8");
            reveal_strlit("ja_JP");
        }
        res.push(String::from_str("ja_JP.UTF-8"));
        res.push(String::from_str("ja_JP"));
        assert(ja_jp() + seq!['.', 'U', 'T', 'F', '-', '8'] =~= "ja_JP.UTF-8"@);
    }
    res
}

/// Tries the locale names in order until `setlocale` accepts one; gives the
/// position of the accepted one, or `None` when none was accepted.
pub fn try_setlocale(candidates: &Vec<String>) -> (res: Option<usize>)
    requires
        forall|i: int| 0 <= i < candidates@.len() ==> !(#[trigger] candidates@[i])@.contains('\0'),
    ensures
        res matches Some(i) ==> i < candidates@.len(),
{
    let mut i: usize = 0;
    while i < candidates.len()
        invariant
            i <= candidates@.len(),
            forall|j: int| 0 <= j < candidates@.len() ==> !(#[trigger] candidates@[j])@.contains('\0'),
        decreases candidates.len() - i,
    {
        if set_process_locale(candidates[i].as_str()) {
            return Some(i);
        }
        i += 1;
    }
    None
}

/// Sets the process locale from the environment (`setlocale` with an empty
/// locale name), as a program does before it picks its own.
pub fn use_environment_locale() {
    proof {
        reveal_strlit("");
        assert(!""@.contains('\0'));
    }
    let _ = set_process_locale("");
}

/// Sets up the process locale and the gettext text domain for `lang_id`.
/// Gives the token that the text domain was both bound to the UTF-8 codeset
/// and made the current domain, when both calls succeeded. Failures are not
/// fatal: messages then stay untranslated.
fn activate_locale(lang_id: &String, locale_dir: &str) -> (utf8_messages: Option<Utf8Messages>)
    requires
        is_supported_locale(lang_id@),
        !locale_dir@.contains('\0'),
{
    let candidates = setlocale_candidates(lang_id.as_str());
    proof {
        reveal_strlit("zh_CN.UTF-8");
        reveal_strlit("ja_JP.UTF-8");
        assert forall|i: int| 0 <= i < candidates@.len() implies !(#[trigger] candidates@[i])@.contains('\0') by {
            let c = candidates@[i]@;
            assert(c == spec_setlocale_candidates(lang_id@)[i]);
            if c.contains('\0') {
                let k = choose|k: int| 0 <= k < c.len() && c[k] == '\0';
            }
        }
    }
    let _ = try_setlocale(&candidates);
    let domain = gettext_package();
    proof {
        assert(!domain@.contains('\0')) by {
            if domain@.contains('\0') {
                let k = choose|k: int| 0 <= k < domain@.len() && domain@[k] == '\0';
            }
        }
    }
    let _ = bind_text_domain(domain, locale_dir);
    let codeset_bound = bind_text_domain_utf8(domain);
    let domain_set = set_text_domain(domain);
    match (codeset_bound, domain_set) {
        (Some(codeset), Some(current)) => Utf8Messages::combine(codeset, current),
        _ => None,
    }
}

// ------------------------------------------------------------------
// Translation and placeholders
// ------------------------------------------------------------------

/// Translation helper function: the message for `key` in the current
/// locale, once gettext has been set up for UTF-8 messages.
pub fn translate(state: &LocaleState, key: &str) -> String
    requires
        !key@.contains('\0'),
        state.gettext_ready(),
{
    match &state.utf8_messages {
        Some(ready) => gettext_lookup(ready, key),
        None => {
            assert(false);
            String::new()
        },
    }
}

/// The message for `key` when gettext has been set up for UTF-8 messages,
/// else the key itself (messages are untranslated until then).
pub fn translate_or_key(state: &LocaleState, key: &str) -> (res: String)
    requires
        !key@.contains('\0'),
    ensures
        !state.gettext_ready() ==> res@ == key@,
{
    if state.can_translate() {
        translate(state, key)
    } else {
        String::from_str(key)
    }
}

/// The placeholder that stands for the parameter `name`: `{ $name }`.
pub open spec fn placeholder(name: Seq<char>) -> Seq<char> {
    seq!['{', ' ', '$'] + name + seq![' ', '}']
}

/// The parameters, each name and value taken by its characters.
pub open spec fn param_views(params: Seq<(&str, &str)>) -> Seq<(Seq<char>, Seq<char>)> {
    params.map_values(|p: (&str, &str)| (p.0@, p.1@))
}

/// `text` with the placeholder of each parameter replaced by its value, the
/// parameters taken in order.
pub open spec fn fill_params(text: Seq<char>, params: Seq<(Seq<char>, Seq<char>)>) -> Seq<char>
    decreases params.len(),
{
    if params.len() == 0 {
        text
    } else {
        fill_params(replace_all(text, placeholder(params[0].0), params[0].1), params.drop_first())
    }
}

fn placeholder_for(name: &str) -> (res: String)
    ensures
        res@ == placeholder(name@),
{
    proof {
        reveal_strlit("{ $");
        reveal_strlit(" }");
    }
    let mut res = String::from_str("{ $");
    res.append(name);
    res.append(" }");
    res
}

/// Replaces the placeholder `{ $name }` of each parameter by its value.
pub fn fill_placeholders(text: &str, params: &[(&str, &str)]) -> (res: String)
    ensures
        res@ == fill_params(text@, param_views(params@)),
{
    let ghost ps = param_views(params@);
    let mut result = String::from_str(text);
    let mut i: usize = 0;
    assert(ps.skip(0) =~= ps);
    while i < params.len()
        invariant
            ps == param_views(params@),
            i <= params@.len(),
            fill_params(result@, ps.skip(i as int)) == fill_params(text@, ps),
        decreases params.len() - i,
    {
        let (name, value) = params[i];
        let ph = placeholder_for(name);
        let next = replace_str(result.as_str(), ph.as_str(), value);
        assert(ps.skip(i as int)[0] == ps[i as int]);
        assert(ps.skip(i as int).drop_first() =~= ps.skip(i + 1));
        result = next;
        i += 1;
    }
    assert(ps.skip(i as int) =~= Seq::<(Seq<char>, Seq<char>)>::empty());
    result
}

/// Format a string with parameters (for gettext parameterized strings):
/// the key is translated, then each `{ $name }` placeholder in the
/// translation is replaced by the parameter's value.
pub fn translate_format(state: &LocaleState, key: &str, params: &[(&str, &str)]) -> (res: String)
    requires
        !key@.contains('\0'),
        state.gettext_ready(),
    ensures
        exists|translated: Seq<char>| res@ == #[trigger] fill_params(translated, param_views(params@)),
{
    let translated = translate(state, key);
    fill_placeholders(translated.as_str(), params)
}

proof fn lemma_fill_one(text: Seq<char>, name: Seq<char>, value: Seq<char>)
    ensures
        fill_params(text, seq![(name, value)]) == replace_all(text, placeholder(name), value),
{
    let ps = seq![(name, value)];
    assert(ps[0] == (name, value));
    assert(ps.drop_first() =~= Seq::<(Seq<char>, Seq<char>)>::empty());
    assert(fill_params(replace_all(text, placeholder(name), value), ps.drop_first())
        == replace_all(text, placeholder(name), value));
}

/// `translate_format` once gettext has been set up for UTF-8 messages; until
/// then the key itself, with its placeholders filled.
pub fn translate_format_or_key(state: &LocaleState, key: &str, params: &[(&str, &str)]) -> (res: String)
    requires
        !key@.contains('\0'),
    ensures
        !state.gettext_ready() ==> res@ == fill_params(key@, param_views(params@)),
{
    if state.can_translate() {
        translate_format(state, key, params)
    } else {
        fill_placeholders(key, params)
    }
}

/// With no parameters, the text is left as it is.
pub proof fn lemma_fill_no_params(text: Seq<char>)
    ensures
        fill_params(text, Seq::empty()) == text,
{
}

/// A parameter whose placeholder does not occur leaves the text as it is.
pub proof fn lemma_fill_absent_placeholder(text: Seq<char>, name: Seq<char>, value: Seq<char>)
    requires
        !contains_seq(text, placeholder(name)),
    ensures
        fill_params(text, seq![(name, value)]) == text,
{
    crate::text::lemma_replace_absent(text, placeholder(name), value);
    lemma_fill_one(text, name, value);
}

/// Where the placeholder of a parameter occurs, its value appears in the
/// filled text.
pub proof fn lemma_fill_present_placeholder(text: Seq<char>, name: Seq<char>, value: Seq<char>, at: int)
    requires
        occurs_at(text, placeholder(name), at),
    ensures
        contains_seq(fill_params(text, seq![(name, value)]), value),
{
    crate::text::lemma_replace_present(text, placeholder(name), value, at);
    lemma_fill_one(text, name, value);
}

} // verus!
