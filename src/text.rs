//! Text operations of std that lookups by name rely on.
use vstd::prelude::*;

verus! {

/// What `str::to_lowercase` makes of a string.
pub uninterp spec fn lower_of(s: Seq<char>) -> Seq<char>;

/// What `str::replace(s, pat, "")` makes of a string: `s` with each
/// occurrence of `pat` taken out.
pub uninterp spec fn removed_of(s: Seq<char>, pat: Seq<char>) -> Seq<char>;

/// Relies on `str::to_lowercase`: the lowercase form of `s`, which depends on
/// its characters alone.
#[verifier::external_body]
pub(crate) fn lowercase(s: &str) -> (r: String)
    ensures
        r@ == lower_of(s@),
{
    s.to_lowercase()
}

/// Relies on `str::replace` with an empty replacement: `s` without the
/// occurrences of `pat`, which depends on the two strings alone.
#[verifier::external_body]
pub(crate) fn remove_all(s: &str, pat: &str) -> (r: String)
    ensures
        r@ == removed_of(s@, pat@),
{
    s.replace(pat, "")
}

} // verus!
