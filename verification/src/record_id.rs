//! Record identifiers, as SurrealDB renders and parses them.

use std::str::FromStr;
use surrealdb::sql::Thing;
use vstd::prelude::*;

verus! {

/// A record identifier of SurrealDB: a table and a key. Opaque here; only
/// SurrealDB renders and parses it.
#[verifier::external_type_specification]
#[verifier::external_body]
pub struct ExThing(surrealdb::sql::Thing);

/// The text of an identifier's table, as SurrealDB writes it: the table's
/// name, set in brackets where it is no plain word.
pub uninterp spec fn table_text(id: Thing) -> Seq<char>;

/// The text of an identifier's key alone, as SurrealDB writes it.
pub uninterp spec fn key_text(id: Thing) -> Seq<char>;

/// The full text of an identifier: its table's text, a colon, its key's text.
pub open spec fn full_text(id: Thing) -> Seq<char> {
    table_text(id) + seq![':'] + key_text(id)
}

/// The identifier that SurrealDB's grammar reads from a text, if it reads one.
pub uninterp spec fn parsed_text(text: Seq<char>) -> Option<Thing>;

/// `Thing`'s `Display`, through `to_string`. Trusted: it writes the table's
/// text, then a colon, then what `Display` of the key writes, and the same
/// for the same identifier.
#[verifier::external_body]
pub(crate) fn render_full(id: &Thing) -> (text: String)
    ensures
        text@ == table_text(*id) + seq![':'] + key_text(*id),
{
    id.to_string()
}

/// `Display` of the identifier's `id` field, through `to_string`. Trusted:
/// the result is the key's text, the same for the same identifier.
#[verifier::external_body]
pub(crate) fn render_key(id: &Thing) -> (text: String)
    ensures
        text@ == key_text(*id),
{
    id.id.to_string()
}

/// `Thing::from_str`. Trusted: the outcome depends on the text alone; an
/// identifier comes back exactly when the grammar accepts the whole text; and
/// the grammar accepts no text without a colon, which parts table and key.
#[verifier::external_body]
pub(crate) fn parse_full(text: &str) -> (outcome: Result<Thing, ()>)
    ensures
        outcome matches Ok(id) ==> parsed_text(text@) == Some(id),
        outcome is Err ==> parsed_text(text@) is None,
        outcome is Ok ==> text@.contains(':'),
{
    Thing::from_str(text)
}

} // verus!
