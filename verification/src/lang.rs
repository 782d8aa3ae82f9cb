//! Resolving the effective language code, with strict precedence: an
//! explicit flag wins, else the first two characters of the locale value,
//! else the default `en`.
use vstd::prelude::*;
use vstd::string::StrSliceExecFns;

verus! {

/// The resolved language code for an optional explicit flag value and an
/// optional locale value. A present flag is taken whole and the locale is
/// not consulted; a locale value alone contributes its first two
/// characters; with neither, the code is `en`. A locale value is only
/// ever read when it has at least two characters: the caller that slices
/// a shorter one has already failed.
pub fn resolve_language(flag: Option<String>, locale: Option<String>) -> (r: String)
    requires
        flag is None ==> (locale matches Some(l) ==> l@.len() >= 2),
    ensures
        flag matches Some(f) ==> r@ == f@,
        flag is None ==> (locale matches Some(l) ==> r@ == l@.subrange(0, 2)),
        flag is None && locale is None ==> r@ == "en"@,
{
    match flag {
        Some(f) => f,
        None => match locale {
            Some(l) => l.as_str().substring_char(0, 2).to_owned(),
            None => "en".to_owned(),
        },
    }
}

} // verus!
