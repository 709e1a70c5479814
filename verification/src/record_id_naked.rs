//! The naked shape of an identifier on the wire: the key alone. It is written
//! and never read: a key does not say which table it belongs to.

use crate::record_id::{key_text, render_key, table_text};
use crate::wire::WireValue;
use surrealdb::sql::Thing;
use vstd::prelude::*;

verus! {

/// The wire form of an identifier in the naked shape: the text of its key
/// where one is present, `null` where none is. The table is not in it.
pub open spec fn encoded(id: Option<Thing>) -> Option<Seq<char>> {
    match id {
        Some(id) => Some(key_text(id)),
        None => None,
    }
}

/// Encodes an identifier as a JSON string with the text of its key alone.
/// Never fails. The table is dropped, so nothing decodes this shape.
pub fn serialize(id: &Thing) -> (wire: WireValue)
    ensures
        wire@ == encoded(Some(*id)),
{
    WireValue::Text(render_key(id))
}

/// Encodes an optional identifier in the naked shape: a present one as
/// `serialize` does, an absent one as `null`. Never fails.
pub fn serialize_opt(id: &Option<Thing>) -> (wire: WireValue)
    ensures
        wire@ == encoded(*id),
{
    match id {
        Some(record_id) => WireValue::Text(render_key(record_id)),
        None => WireValue::Null,
    }
}

/// Absence is kept: no identifier encodes to `null` in the naked shape too.
pub proof fn lemma_absent_is_null()
    ensures
        encoded(None) == None::<Seq<char>>,
{
}

/// The naked shape is the end of the full shape: the full text of an
/// identifier is its table's text, a colon, and its naked text.
pub proof fn lemma_naked_ends_full(id: Thing)
    ensures
        crate::record_id_full::encoded(Some(id)) == Some(
            table_text(id) + seq![':'] + encoded(Some(id))->0,
        ),
{
}

} // verus!
