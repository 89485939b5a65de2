use vstd::prelude::*;

verus! {

/// Whether `http`'s URI parser accepts exactly this sequence of characters.
/// The parser's verdict is a function of the characters alone, so it gets a
/// name here; nothing further is claimed about which strings it accepts.
pub uninterp spec fn uri_valid(s: Seq<char>) -> bool;

/// Relies on `http::Uri::try_from(&str)`: it checks the string against the
/// URI grammar and returns a diagnostic when it rejects, and its verdict
/// depends on the string's characters alone.
#[verifier::external_body]
pub(crate) fn check_uri(s: &str) -> (r: Result<(), http::uri::InvalidUri>)
    ensures
        r is Ok <==> uri_valid(s@),
{
    match http::Uri::try_from(s) {
        Ok(_) => Ok(()),
        Err(e) => Err(e),
    }
}

} // verus!
