//! The claims in a JSON payload: which member is which claim, and what shape
//! each must have.

use crate::error::ClaimsError;
use crate::json::{json_members, json_parsed, json_text, json_uint, member, parse_json};
use crate::types::{
    outcome_view, text_view, Claim, ClaimsView, FoundClaims, FoundView, SurrealJWTClaims,
};
use serde_json::Value;
use vstd::prelude::*;

verus! {

/// The member of a JSON value under a claim's key, where the value is an
/// object that has one.
pub open spec fn value_claim(payload: Value, claim: Claim) -> Option<Value> {
    if json_members(payload).contains_key(claim.wire_name()) {
        Some(json_members(payload)[claim.wire_name()])
    } else {
        None
    }
}

/// The number under a claim's key, where the member is there and is an
/// integer from 0 to `u64::MAX`.
pub open spec fn uint_claim(payload: Value, claim: Claim) -> Option<u64> {
    match value_claim(payload, claim) {
        Some(m) => json_uint(m),
        None => None,
    }
}

/// The text under a claim's key, where the member is there and is a string.
pub open spec fn text_claim(payload: Value, claim: Claim) -> Option<Seq<char>> {
    match value_claim(payload, claim) {
        Some(m) => json_text(m),
        None => None,
    }
}

/// What a JSON value holds of the nine claims: the times as unsigned
/// integers, the access claims as any JSON value, the rest as strings.
/// Members under other keys are not looked at.
pub open spec fn found_in(payload: Value) -> FoundView<Value> {
    FoundView {
        iat: uint_claim(payload, Claim::IssuedAt),
        nbf: uint_claim(payload, Claim::NotBefore),
        exp: uint_claim(payload, Claim::ExpiresAt),
        iss: text_claim(payload, Claim::Issuer),
        jti: text_claim(payload, Claim::TokenId),
        ns: text_claim(payload, Claim::Namespace),
        db: text_claim(payload, Claim::Database),
        ac: value_claim(payload, Claim::AccessClaims),
        id: text_claim(payload, Claim::Subject),
    }
}

/// The record that a JSON value holds, or `SchemaMismatch` where a claim is
/// missing or has another shape than its own.
pub open spec fn claims_in(payload: Value) -> Result<ClaimsView<Value>, ClaimsError> {
    found_in(payload).completed()
}

/// The record that the bytes of a payload hold: the claims in the JSON value
/// that the bytes are, or `SchemaMismatch` where they are no JSON value or
/// the value holds no complete record.
pub open spec fn payload_claims(bytes: Seq<u8>) -> Result<ClaimsView<Value>, ClaimsError> {
    match json_parsed(bytes) {
        Some(payload) => claims_in(payload),
        None => Err(ClaimsError::SchemaMismatch),
    }
}

/// Reads the member under a claim's key.
pub fn read_value(payload: &Value, claim: Claim) -> (found: Option<Value>)
    ensures
        found == value_claim(*payload, claim),
{
    match member(payload, claim.key()) {
        Some(m) => Some(m.clone()),
        None => None,
    }
}

/// Reads a claim that is an unsigned integer.
pub fn read_uint(payload: &Value, claim: Claim) -> (found: Option<u64>)
    ensures
        found == uint_claim(*payload, claim),
{
    match member(payload, claim.key()) {
        Some(m) => m.as_u64(),
        None => None,
    }
}

/// Reads a claim that is a string.
pub fn read_text(payload: &Value, claim: Claim) -> (found: Option<String>)
    ensures
        text_view(found) == text_claim(*payload, claim),
{
    match member(payload, claim.key()) {
        Some(m) => match m.as_str() {
            Some(text) => Some(text.to_owned()),
            None => None,
        },
        None => None,
    }
}

/// Looks in a JSON value for each of the nine claims.
pub fn find_claims(payload: &Value) -> (found: FoundClaims<Value>)
    ensures
        found@ == found_in(*payload),
{
    FoundClaims {
        iat: read_uint(payload, Claim::IssuedAt),
        nbf: read_uint(payload, Claim::NotBefore),
        exp: read_uint(payload, Claim::ExpiresAt),
        iss: read_text(payload, Claim::Issuer),
        jti: read_text(payload, Claim::TokenId),
        ns: read_text(payload, Claim::Namespace),
        db: read_text(payload, Claim::Database),
        ac: read_value(payload, Claim::AccessClaims),
        id: read_text(payload, Claim::Subject),
    }
}

/// Makes a claims record out of a JSON value: a JSON object that holds all
/// nine claims, each in its shape, gives the record; anything else fails with
/// `SchemaMismatch`.
pub fn claims_from_json(payload: &Value) -> (outcome: Result<SurrealJWTClaims<Value>, ClaimsError>)
    ensures
        outcome_view(outcome) == claims_in(*payload),
{
    find_claims(payload).complete()
}

/// Reads the decoded bytes of a payload as JSON and makes a claims record
/// out of it. Bytes that are no JSON value fail with `SchemaMismatch`, as a
/// value without the nine claims does.
pub fn parse_claims(bytes: &[u8]) -> (outcome: Result<SurrealJWTClaims<Value>, ClaimsError>)
    ensures
        outcome_view(outcome) == payload_claims(bytes@),
{
    match parse_json(bytes) {
        Ok(payload) => claims_from_json(&payload),
        Err(_) => Err(ClaimsError::SchemaMismatch),
    }
}

} // verus!
