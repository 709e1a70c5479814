//! What an identifier field holds on the wire.

use vstd::prelude::*;

verus! {

/// What an identifier field holds on the wire: a JSON string, or JSON `null`
/// where no identifier is present.
#[derive(Clone, Debug)]
pub enum WireValue {
    /// JSON `null`: no identifier.
    Null,
    /// A JSON string with this text.
    Text(String),
}

impl View for WireValue {
    type V = Option<Seq<char>>;

    /// `None` for `null`, the characters of the string otherwise.
    open spec fn view(&self) -> Option<Seq<char>> {
        match self {
            WireValue::Null => None,
            WireValue::Text(text) => Some(text@),
        }
    }
}

impl WireValue {
    /// Whether this is `null`.
    pub fn is_null(&self) -> (null: bool)
        ensures
            null == (self@ is None),
    {
        match self {
            WireValue::Null => true,
            WireValue::Text(_) => false,
        }
    }

    /// The text of a string, `None` for `null`.
    pub fn as_text(&self) -> (text: Option<&str>)
        ensures
            text is Some == (self@ is Some),
            text matches Some(t) ==> self@ == Some(t@),
    {
        match self {
            WireValue::Null => None,
            WireValue::Text(text) => Some(text.as_str()),
        }
    }
}

} // verus!
