//! Two codecs for data that passes between an application and SurrealDB.
//!
//! The identifier codec ([`record_id_full`], [`record_id_naked`]) turns a
//! record identifier into the text that stands for it on the wire, with its
//! table or without, and reads the full form back.
//!
//! The claims extractor ([`decode_payload_insecurely`]) takes the claims out
//! of the payload of a token. It verifies no signature and no time: what it
//! returns is unauthenticated.
//!
//! SurrealDB renders and parses identifiers, `base64` decodes, `serde_json`
//! parses; what this crate adds around those calls is proved against the
//! contracts stated for them in [`record_id`], [`base64url`] and [`json`].

pub mod base64url;
pub mod claims;
pub mod error;
pub mod json;
pub mod record_id;
pub mod record_id_full;
pub mod record_id_naked;
pub mod token;
pub mod types;
pub mod wire;

use crate::base64url::{
    base64url_decoded, decode_base64url, lemma_well_formed_text, well_formed, well_formed_text,
};
use crate::claims::{parse_claims, payload_claims};
use crate::error::ClaimsError;
use crate::token::{
    free_of, lemma_payload_of_text, lemma_second_needs_separator, lemma_second_of_three,
    payload_segment, text_payload_of,
};
use crate::types::{outcome_view, ClaimsView, SurrealJWTClaims};
use serde_json::Value;
use vstd::prelude::*;
use vstd::utf8::encode_utf8;

verus! {

/// What the payload segment of a token yields: `InvalidEncoding` where it is
/// no URL-safe base64 without padding, and else what the decoded bytes hold.
pub open spec fn segment_claims(segment: Seq<u8>) -> Result<ClaimsView<Value>, ClaimsError> {
    match base64url_decoded(segment) {
        Some(bytes) => payload_claims(bytes),
        None => Err(ClaimsError::InvalidEncoding),
    }
}

/// What a token yields: `MalformedToken` where its text has no second
/// segment, and else what the UTF-8 bytes of that segment yield. The first
/// failure is the outcome.
pub open spec fn extracted(token: Seq<char>) -> Result<ClaimsView<Value>, ClaimsError> {
    match text_payload_of(token) {
        None => Err(ClaimsError::MalformedToken),
        Some(segment) => segment_claims(encode_utf8(segment)),
    }
}

/// Whether the second segment of a token shows at a glance that it is no
/// encoding: a character outside the URL-safe alphabet in it, `=` among
/// them, or a single symbol left over after the groups of four.
pub open spec fn misshapen(token: Seq<char>) -> bool {
    match text_payload_of(token) {
        Some(segment) => !well_formed_text(segment),
        None => false,
    }
}

/// Decodes the payload segment of a token from URL-safe base64 without
/// padding. A segment that is no such encoding fails with `InvalidEncoding`;
/// one with a byte outside the alphabet, or with a single symbol left over,
/// always does.
pub fn decode_segment(segment: &[u8]) -> (outcome: Result<Vec<u8>, ClaimsError>)
    ensures
        outcome matches Ok(bytes) ==> base64url_decoded(segment@) == Some(bytes@),
        outcome matches Err(e) ==> e == ClaimsError::InvalidEncoding && base64url_decoded(
            segment@,
        ) is None,
        !well_formed(segment@) ==> outcome is Err,
{
    match decode_base64url(segment) {
        Ok(bytes) => Ok(bytes),
        Err(_) => Err(ClaimsError::InvalidEncoding),
    }
}

/// Takes the claims out of a token's payload, and checks nothing: no
/// signature, no time, no issuer. What comes back is what the token says of
/// itself, and may be forged.
///
/// The token is split at `.`; only its second segment is read. The segments
/// before and after it may hold anything. A second segment that is
/// misshapen is an `InvalidEncoding`, whatever else it holds.
pub fn decode_payload_insecurely(token: &str) -> (outcome: Result<
    SurrealJWTClaims<Value>,
    ClaimsError,
>)
    ensures
        outcome_view(outcome) == extracted(token@),
        misshapen(token@) ==> outcome == Err::<SurrealJWTClaims<Value>, ClaimsError>(
            ClaimsError::InvalidEncoding,
        ),
{
    proof {
        lemma_payload_of_text(token@);
        if text_payload_of(token@) is Some {
            lemma_well_formed_text(text_payload_of(token@)->0);
        }
    }
    let segment = match payload_segment(token.as_bytes()) {
        Some(segment) => segment,
        None => {
            return Err(ClaimsError::MalformedToken);
        },
    };
    let bytes = match decode_segment(segment) {
        Ok(bytes) => bytes,
        Err(e) => {
            return Err(e);
        },
    };
    parse_claims(bytes.as_slice())
}

/// Nothing but the second segment decides the outcome: two tokens with the
/// same second segment, or both without one, yield the same.
pub proof fn lemma_only_payload_read(one: Seq<char>, other: Seq<char>)
    requires
        text_payload_of(one) == text_payload_of(other),
    ensures
        extracted(one) == extracted(other),
{
}

/// The segment before the payload and whatever follows it are accepted and
/// ignored: a token of three segments yields what its second segment yields,
/// and so does the same token without the third segment.
pub proof fn lemma_outer_segments_ignored(header: Seq<char>, payload: Seq<char>, rest: Seq<char>)
    requires
        free_of(header, '.'),
        free_of(payload, '.'),
    ensures
        extracted(header + seq!['.'] + payload + seq!['.'] + rest) == segment_claims(
            encode_utf8(payload),
        ),
        extracted(header + seq!['.'] + payload) == segment_claims(encode_utf8(payload)),
{
    lemma_second_of_three(header, payload, rest, '.');
}

/// A token is malformed exactly where its text holds no `.`: with one in it
/// there is a second segment, and every later failure has another name.
pub proof fn lemma_malformed_token(token: Seq<char>)
    ensures
        extracted(token) == Err::<ClaimsView<Value>, ClaimsError>(ClaimsError::MalformedToken)
            <==> free_of(token, '.'),
{
    lemma_second_needs_separator(token, '.');
}

} // verus!
