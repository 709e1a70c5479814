//! The full shape of an identifier on the wire: `table:key`, in both
//! directions.

use crate::error::IdentifierError;
use crate::record_id::{full_text, parse_full, parsed_text, render_full, table_text};
use crate::wire::WireValue;
use surrealdb::sql::Thing;
use vstd::prelude::*;

verus! {

/// The wire form of an identifier in the full shape: its full text where one
/// is present, `null` where none is.
pub open spec fn encoded(id: Option<Thing>) -> Option<Seq<char>> {
    match id {
        Some(id) => Some(full_text(id)),
        None => None,
    }
}

/// What the identifier grammar makes of a text: the identifier it reads, or
/// `MalformedIdentifier`.
pub open spec fn grammar_reads(text: Seq<char>) -> Result<Thing, IdentifierError> {
    match parsed_text(text) {
        Some(id) => Ok(id),
        None => Err(IdentifierError::MalformedIdentifier),
    }
}

/// What a wire value decodes to where an identifier is required: `null` is
/// an error like any text that the grammar refuses.
pub open spec fn decoded(wire: Option<Seq<char>>) -> Result<Thing, IdentifierError> {
    match wire {
        Some(text) => grammar_reads(text),
        None => Err(IdentifierError::MalformedIdentifier),
    }
}

/// What a wire value decodes to where the identifier is optional: `null` is
/// the absent identifier, and a text must still be one that the grammar reads.
pub open spec fn decoded_opt(wire: Option<Seq<char>>) -> Result<Option<Thing>, IdentifierError> {
    match wire {
        Some(text) => match grammar_reads(text) {
            Ok(id) => Ok(Some(id)),
            Err(e) => Err(e),
        },
        None => Ok(None),
    }
}

/// Turns the outcome of parsing into the codec's own result: the identifier
/// as it was read, or `MalformedIdentifier` where the grammar refused.
pub fn accept_parsed(outcome: Result<Thing, ()>) -> (r: Result<Thing, IdentifierError>)
    ensures
        r == (match outcome {
            Ok(id) => Ok::<Thing, IdentifierError>(id),
            Err(_) => Err(IdentifierError::MalformedIdentifier),
        }),
{
    match outcome {
        Ok(id) => Ok(id),
        Err(_) => Err(IdentifierError::MalformedIdentifier),
    }
}

/// Encodes an identifier as a JSON string with its full text, table and key.
/// Never fails.
pub fn serialize(id: &Thing) -> (wire: WireValue)
    ensures
        wire@ == encoded(Some(*id)),
{
    WireValue::Text(render_full(id))
}

/// Encodes an optional identifier in the full shape: a present one as
/// `serialize` does, an absent one as `null`. Never fails.
pub fn serialize_opt(id: &Option<Thing>) -> (wire: WireValue)
    ensures
        wire@ == encoded(*id),
{
    match id {
        Some(record_id) => WireValue::Text(render_full(record_id)),
        None => WireValue::Null,
    }
}

/// Decodes a required identifier from its full shape. `null` is refused, and
/// so is a text that the identifier grammar does not read; a text without a
/// colon is never read.
pub fn deserialize(wire: &WireValue) -> (r: Result<Thing, IdentifierError>)
    ensures
        r == decoded(wire@),
        wire@ matches Some(text) ==> (!text.contains(':') ==> r is Err),
{
    match wire {
        WireValue::Text(text) => accept_parsed(parse_full(text.as_str())),
        WireValue::Null => Err(IdentifierError::MalformedIdentifier),
    }
}

/// Decodes an optional identifier from its full shape: `null` gives the
/// absent identifier, a text is read as `deserialize` reads it.
pub fn deserialize_opt(wire: &WireValue) -> (r: Result<Option<Thing>, IdentifierError>)
    ensures
        r == decoded_opt(wire@),
        wire@ matches Some(text) ==> (!text.contains(':') ==> r is Err),
{
    match wire {
        WireValue::Text(text) => {
            match accept_parsed(parse_full(text.as_str())) {
                Ok(record_id) => Ok(Some(record_id)),
                Err(e) => Err(e),
            }
        },
        WireValue::Null => Ok(None),
    }
}

/// Decoding what was encoded gives the identifier back exactly where
/// SurrealDB's grammar reads the identifier's full text as that identifier:
/// the codec itself adds nothing to the text and takes nothing from it.
pub proof fn lemma_round_trip(id: Thing)
    ensures
        decoded(encoded(Some(id))) == Ok::<Thing, IdentifierError>(id) <==> parsed_text(
            full_text(id),
        ) == Some(id),
        decoded_opt(encoded(Some(id))) == Ok::<Option<Thing>, IdentifierError>(Some(id))
            <==> parsed_text(full_text(id)) == Some(id),
{
}

/// Every encoded identifier has the colon that decoding asks for: no text
/// that the codec wrote is refused for want of one.
pub proof fn lemma_encoded_has_colon(id: Thing)
    ensures
        encoded(Some(id)) matches Some(text) && text.contains(':'),
{
    let text = full_text(id);
    assert(text[table_text(id).len() as int] == ':');
}

/// Absence is kept in both directions: no identifier encodes to `null`, and
/// `null` decodes to no identifier where the identifier is optional.
pub proof fn lemma_absence_kept()
    ensures
        encoded(None) == None::<Seq<char>>,
        decoded_opt(None) == Ok::<Option<Thing>, IdentifierError>(None),
        decoded_opt(encoded(None)) == Ok::<Option<Thing>, IdentifierError>(None),
{
}

/// Where an identifier is required `null` is refused, whatever else holds.
pub proof fn lemma_null_refused()
    ensures
        decoded(None) == Err::<Thing, IdentifierError>(IdentifierError::MalformedIdentifier),
{
}

/// A text decodes alike whether the identifier is required or optional: the
/// two differ on `null` alone.
pub proof fn lemma_optional_agrees(text: Seq<char>)
    ensures
        decoded_opt(Some(text)) == (match decoded(Some(text)) {
            Ok(id) => Ok::<Option<Thing>, IdentifierError>(Some(id)),
            Err(e) => Err(e),
        }),
{
}

} // verus!
