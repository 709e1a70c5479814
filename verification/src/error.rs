//! The ways in which decoding fails.

use vstd::prelude::*;

verus! {

/// Why a token yielded no claims.
#[derive(Clone, Copy, Debug, PartialEq, Eq, Structural)]
pub enum ClaimsError {
    /// The token has no second segment.
    MalformedToken,
    /// The second segment is not unpadded URL-safe base64.
    InvalidEncoding,
    /// The decoded bytes are not JSON, or not a JSON object with every claim
    /// in its required shape.
    SchemaMismatch,
}

/// Why a wire value yielded no identifier.
#[derive(Clone, Copy, Debug, PartialEq, Eq, Structural)]
pub enum IdentifierError {
    /// The wire value holds no text that the identifier grammar reads as a
    /// table part and a key part.
    MalformedIdentifier,
}

} // verus!
