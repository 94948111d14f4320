use vstd::prelude::*;

verus! {

/// What `strip_ansi_escapes::strip_str` leaves of a string: its
/// characters with ANSI escape sequences removed. The result depends on
/// the characters alone.
pub uninterp spec fn stripped_of(s: Seq<char>) -> Seq<char>;

/// Relies on `strip_ansi_escapes::strip_str`, which removes ANSI
/// terminal escape sequences from a string.
#[verifier::external_body]
pub(crate) fn strip_ansi(s: &str) -> (r: String)
    ensures
        r@ == stripped_of(s@),
{
    strip_ansi_escapes::strip_str(s)
}

} // verus!
