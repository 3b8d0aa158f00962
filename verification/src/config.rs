//! Names that the application is configured with.

use vstd::prelude::*;

verus! {

/// The gettext package (text domain) of the application.
pub open spec fn spec_gettext_package() -> Seq<char> {
    seq!['z', 'o', 'n', 'g', 'f', 'l', 'o', 'w']
}

/// The directory that holds the compiled message catalogs.
pub open spec fn spec_localedir() -> Seq<char> {
    seq!['l', 'o', 'c', 'a', 'l', 'e', 's']
}

/// Get the gettext package name.
pub fn gettext_package() -> (res: &'static str)
    ensures
        res@ == spec_gettext_package(),
{
    let s = "zongflow";
    proof {
        reveal_strlit("zongflow");
    }
    s
}

/// Get the locale directory path.
pub fn localedir() -> (res: &'static str)
    ensures
        res@ == spec_localedir(),
{
    let s = "locales";
    proof {
        reveal_strlit("locales");
    }
    s
}

} // verus!
