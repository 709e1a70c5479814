//! URL-safe base64 without padding, as the `base64` crate decodes it.

use base64::Engine;
use vstd::prelude::*;
use vstd::utf8::{char_is_scalar, encode_scalar, encode_utf8};

verus! {

/// Why the base64 engine refused a text. Opaque here.
#[verifier::external_type_specification]
#[verifier::external_body]
pub struct ExDecodeError(base64::DecodeError);

/// Whether a byte is one of the 64 symbols of the URL-safe alphabet: a
/// letter `A` to `Z` or `a` to `z`, a digit, `-` or `_`.
pub open spec fn is_symbol(byte: u8) -> bool {
    ||| 0x41 <= byte <= 0x5a
    ||| 0x61 <= byte <= 0x7a
    ||| 0x30 <= byte <= 0x39
    ||| byte == 0x2d
    ||| byte == 0x5f
}

/// Whether a text has the shape of an encoding without padding: nothing but
/// symbols of the alphabet in it, and not one symbol left over after the
/// groups of four. The padding byte `=` is no symbol.
pub open spec fn well_formed(text: Seq<u8>) -> bool {
    &&& forall|k: int| 0 <= k < text.len() ==> is_symbol(#[trigger] text[k])
    &&& text.len() % 4 != 1
}

/// The bytes that a text stands for in URL-safe base64 without padding, or
/// `None` where the text is no such encoding: a byte outside the alphabet, a
/// padding byte, an impossible length, or stray bits in the last symbol.
pub uninterp spec fn base64url_decoded(text: Seq<u8>) -> Option<Seq<u8>>;

/// `Engine::decode` of `URL_SAFE_NO_PAD`. Trusted: the outcome depends on
/// the text alone; the decoded bytes come back exactly when the text is a
/// valid encoding, and an error otherwise; a text with a byte outside the
/// alphabet, or with one symbol over after the groups of four, is never
/// decoded.
#[verifier::external_body]
pub(crate) fn decode_base64url(text: &[u8]) -> (outcome: Result<Vec<u8>, base64::DecodeError>)
    ensures
        outcome matches Ok(bytes) ==> base64url_decoded(text@) == Some(bytes@),
        outcome is Err ==> base64url_decoded(text@) is None,
        outcome is Ok ==> well_formed(text@),
{
    base64::engine::general_purpose::URL_SAFE_NO_PAD.decode(text)
}

/// Whether a character is one of the 64 symbols of the URL-safe alphabet.
pub open spec fn is_symbol_char(c: char) -> bool {
    ||| 'A' <= c <= 'Z'
    ||| 'a' <= c <= 'z'
    ||| '0' <= c <= '9'
    ||| c == '-'
    ||| c == '_'
}

/// Whether a text of characters has the shape of an encoding without
/// padding: symbols only, and not one left over after the groups of four.
pub open spec fn well_formed_text(text: Seq<char>) -> bool {
    &&& forall|k: int| 0 <= k < text.len() ==> is_symbol_char(#[trigger] text[k])
    &&& text.len() % 4 != 1
}

/// A symbol of the alphabet is one byte in UTF-8, itself a symbol; the first
/// byte of any other character is none.
pub proof fn lemma_symbol_in_utf8(c: char)
    ensures
        encode_scalar(c as u32).len() >= 1,
        is_symbol_char(c) ==> encode_scalar(c as u32).len() == 1,
        is_symbol(encode_scalar(c as u32)[0]) <==> is_symbol_char(c),
{
    let v = c as u32;
    char_is_scalar(c);
    assert(v <= 0x7f ==> (v & 0x7f) as u8 == v) by (bit_vector);
    assert((0xc0 | ((v >> 6) & 0x1f) as u8) >= 0xc0) by (bit_vector);
    assert((0xe0 | ((v >> 12) & 0x0f) as u8) >= 0xc0) by (bit_vector);
    assert((0xf0 | ((v >> 18) & 0x7) as u8) >= 0xc0) by (bit_vector);
}

/// The UTF-8 bytes of a text have the shape of an encoding exactly where the
/// text has it, character for character.
pub proof fn lemma_well_formed_text(text: Seq<char>)
    ensures
        well_formed(encode_utf8(text)) <==> well_formed_text(text),
{
    lemma_symbols_of_text(text);
}

/// The UTF-8 bytes of a text are symbols only exactly where its characters
/// are, and then there are as many bytes as characters.
proof fn lemma_symbols_of_text(text: Seq<char>)
    ensures
        (forall|k: int| 0 <= k < encode_utf8(text).len() ==> is_symbol(
            #[trigger] encode_utf8(text)[k],
        )) <==> (forall|k: int| 0 <= k < text.len() ==> is_symbol_char(#[trigger] text[k])),
        (forall|k: int| 0 <= k < text.len() ==> is_symbol_char(#[trigger] text[k]))
            ==> encode_utf8(text).len() == text.len(),
    decreases text.len(),
{
    let bytes = encode_utf8(text);
    if text.len() > 0 {
        let rest = text.drop_first();
        let first = encode_scalar(text[0] as u32);
        let tail = encode_utf8(rest);
        lemma_symbol_in_utf8(text[0]);
        lemma_symbols_of_text(rest);
        assert(bytes == first + tail);
        assert(bytes[0] == first[0]);
        if forall|k: int| 0 <= k < text.len() ==> is_symbol_char(#[trigger] text[k]) {
            assert(is_symbol_char(text[0]));
            assert forall|k: int| 0 <= k < rest.len() implies is_symbol_char(
                #[trigger] rest[k],
            ) by {
                assert(rest[k] == text[k + 1]);
            }
            assert forall|k: int| 0 <= k < bytes.len() implies is_symbol(#[trigger] bytes[k]) by {
                if k > 0 {
                    assert(bytes[k] == tail[k - 1]);
                }
            }
        }
        if forall|k: int| 0 <= k < bytes.len() ==> is_symbol(#[trigger] bytes[k]) {
            assert(is_symbol(bytes[0]));
            assert(first.len() == 1);
            assert forall|k: int| 0 <= k < tail.len() implies is_symbol(#[trigger] tail[k]) by {
                assert(tail[k] == bytes[k + 1]);
            }
            assert forall|k: int| 0 <= k < text.len() implies is_symbol_char(
                #[trigger] text[k],
            ) by {
                if k > 0 {
                    assert(text[k] == rest[k - 1]);
                }
            }
        }
    }
}

} // verus!
