//! The calls into gettext. A successful UTF-8 codeset binding and a
//! successful switch of the current text domain each hand out a token that
//! only this module can make; a message lookup asks for both tokens, for the
//! same domain, so no lookup is made before gettext has been set up to hand
//! out UTF-8 messages.

use vstd::prelude::*;

verus! {

/// Proof that a text domain was bound to the UTF-8 codeset.
pub struct Utf8Codeset {
    domain: String,
}

/// Proof that a text domain was made gettext's current domain.
pub struct CurrentDomain {
    domain: String,
}

/// Proof that gettext's current domain is bound to the UTF-8 codeset.
pub struct Utf8Messages {
    codeset: Utf8Codeset,
    current: CurrentDomain,
}

impl Utf8Codeset {
    /// The text domain that was bound.
    pub closed spec fn domain(self) -> Seq<char> {
        self.domain@
    }
}

impl CurrentDomain {
    /// The text domain that was made current.
    pub closed spec fn domain(self) -> Seq<char> {
        self.domain@
    }
}

impl Utf8Messages {
    #[verifier::type_invariant]
    spec fn inv(self) -> bool {
        self.codeset.domain() == self.current.domain()
    }

    /// Both tokens, when they are for the same domain.
    pub fn combine(codeset: Utf8Codeset, current: CurrentDomain) -> (res: Option<Utf8Messages>)
        ensures
            res is Some <==> codeset.domain() == current.domain(),
    {
        if crate::text::str_eq(codeset.domain.as_str(), current.domain.as_str()) {
            Some(Utf8Messages { codeset, current })
        } else {
            None
        }
    }
}

/// Trusted: `gettextrs::setlocale(LocaleCategory::LcAll, locale)`; gives
/// whether the C library accepted the locale. Which locales are accepted
/// depends on the machine, so nothing is promised of the result.
#[verifier::external_body]
pub(crate) fn set_process_locale(locale: &str) -> (accepted: bool)
    requires
        !locale@.contains('\0'),
{
    gettextrs::setlocale(gettextrs::LocaleCategory::LcAll, locale).is_some()
}

/// Trusted: `gettextrs::bindtextdomain(domain, dir)`; gives whether the call
/// succeeded. Nothing is promised of the result.
#[verifier::external_body]
pub(crate) fn bind_text_domain(domain: &str, dir: &str) -> (ok: bool)
    requires
        !domain@.contains('\0'),
        !dir@.contains('\0'),
{
    gettextrs::bindtextdomain(domain, dir).is_ok()
}

/// Trusted: `gettextrs::bind_textdomain_codeset(domain, "UTF-8")`; on
/// success gives a token for `domain`, on failure none. Whether it succeeds
/// is not promised.
#[verifier::external_body]
pub(crate) fn bind_text_domain_utf8(domain: &str) -> (res: Option<Utf8Codeset>)
    requires
        !domain@.contains('\0'),
    ensures
        res matches Some(t) ==> t.domain() == domain@,
{
    match gettextrs::bind_textdomain_codeset(domain, "UTF-8") {
        Ok(_) => Some(Utf8Codeset { domain: domain.to_string() }),
        Err(_) => None,
    }
}

/// Trusted: `gettextrs::textdomain(domain)`; on success gives a token for
/// `domain`, on failure none. Whether it succeeds is not promised.
#[verifier::external_body]
pub(crate) fn set_text_domain(domain: &str) -> (res: Option<CurrentDomain>)
    requires
        !domain@.contains('\0'),
    ensures
        res matches Some(t) ==> t.domain() == domain@,
{
    match gettextrs::textdomain(domain) {
        Ok(_) => Some(CurrentDomain { domain: domain.to_string() }),
        Err(_) => None,
    }
}

/// Trusted: `gettextrs::gettext(key)`. The translation depends on the
/// message catalogs installed and on the current locale, so nothing is
/// promised of it (gettext gives the key back when it has no translation).
/// gettext-rs panics on a key with a NUL character, and on a message that
/// is not UTF-8; its documentation says that binding the text domain to the
/// UTF-8 codeset is what makes gettext hand out UTF-8, so the lookup asks
/// for the token that the current domain is so bound. `ready` is read by
/// nothing but this precondition.
#[verifier::external_body]
pub(crate) fn gettext_lookup(ready: &Utf8Messages, key: &str) -> String
    requires
        !key@.contains('\0'),
{
    gettextrs::gettext(key)
}

} // verus!
