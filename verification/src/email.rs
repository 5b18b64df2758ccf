use vstd::prelude::*;

verus! {

/// Whether `s` is a well-formed e-mail address (`local-part@domain`) in
/// the eyes of the address parser the transport library uses. The
/// answer depends on the characters of `s` alone.
pub uninterp spec fn address_ok(s: Seq<char>) -> bool;

/// Relies on `lettre::Address`'s `FromStr` implementation: it checks the
/// string against the address grammar and nothing else, so whether
/// parsing succeeds is a function of the input string alone.
#[verifier::external_body]
pub(crate) fn address_is_valid(s: &str) -> (r: bool)
    ensures
        r == address_ok(s@),
{
    s.parse::<lettre::Address>().is_ok()
}

} // verus!
