use vstd::prelude::*;

verus! {

/// The diagnostic that `http`'s URI parser reports when it rejects a string.
/// The value is opaque here; it is only carried through to the caller.
#[verifier::external_type_specification]
#[verifier::external_body]
pub struct ExInvalidUri(http::uri::InvalidUri);

/// Everything that can go wrong when a collection of attributes is turned
/// into its final string.
#[derive(Debug)]
pub enum HtmxError {
    /// The collection held no attributes at all.
    EmptyAttrs,
    /// A request's URI was rejected by the URI parser; the parser's
    /// diagnostic is carried along unchanged.
    InvalidUri(http::uri::InvalidUri),
}

} // verus!
