//! The segments of a compound token, and the one that carries the payload.

use vstd::prelude::*;
use vstd::utf8::{char_is_scalar, encode_scalar, encode_utf8};

verus! {

/// The byte that parts the segments of a compound token: `.`.
pub const SEPARATOR: u8 = 0x2e;

/// Whether a sequence holds no separator.
pub open spec fn free_of<T>(s: Seq<T>, sep: T) -> bool {
    forall|k: int| 0 <= k < s.len() ==> s[k] != sep
}

/// A sequence split at every separator: the runs between the separators, in
/// order. A sequence with `n` separators has `n + 1` runs, some of them
/// possibly empty.
pub open spec fn split<T>(s: Seq<T>, sep: T) -> Seq<Seq<T>>
    decreases s.len(),
{
    if s.len() == 0 {
        seq![Seq::<T>::empty()]
    } else {
        let rest = split(s.drop_first(), sep);
        if s[0] == sep {
            seq![Seq::<T>::empty()] + rest
        } else {
            rest.update(0, seq![s[0]] + rest[0])
        }
    }
}

/// Whether a run of bytes holds no `.`.
pub open spec fn unbroken(bytes: Seq<u8>) -> bool {
    free_of(bytes, SEPARATOR)
}

/// The segments of a token's bytes: the runs between its `.` bytes.
pub open spec fn segments(token: Seq<u8>) -> Seq<Seq<u8>> {
    split(token, SEPARATOR)
}

/// The second run of a split sequence, where it has at least two.
pub open spec fn second<T>(s: Seq<T>, sep: T) -> Option<Seq<T>> {
    if split(s, sep).len() >= 2 {
        Some(split(s, sep)[1])
    } else {
        None
    }
}

/// The segment of a token's bytes that carries the payload: the second one,
/// where the token has at least two.
pub open spec fn payload_of(token: Seq<u8>) -> Option<Seq<u8>> {
    second(token, SEPARATOR)
}

/// The segments of a token's text: the runs between its `.` characters.
pub open spec fn text_segments(token: Seq<char>) -> Seq<Seq<char>> {
    split(token, '.')
}

/// The segment of a token's text that carries the payload: the second one,
/// where the token has at least two.
pub open spec fn text_payload_of(token: Seq<char>) -> Option<Seq<char>> {
    second(token, '.')
}

/// Every sequence has a first run.
pub proof fn lemma_split_nonempty<T>(s: Seq<T>, sep: T)
    ensures
        split(s, sep).len() >= 1,
    decreases s.len(),
{
    if s.len() > 0 {
        lemma_split_nonempty(s.drop_first(), sep);
    }
}

/// A run put in front of a sequence, with no separator in it, lengthens the
/// first run of the sequence and changes nothing else.
pub proof fn lemma_split_prefixed<T>(run: Seq<T>, s: Seq<T>, sep: T)
    requires
        free_of(run, sep),
    ensures
        split(run + s, sep) == split(s, sep).update(0, run + split(s, sep)[0]),
    decreases run.len(),
{
    lemma_split_nonempty(s, sep);
    let whole = run + s;
    if run.len() == 0 {
        assert(whole == s);
        assert(run + split(s, sep)[0] == split(s, sep)[0]);
    } else {
        let tail = run.drop_first();
        assert(free_of(tail, sep)) by {
            assert forall|k: int| 0 <= k < tail.len() implies tail[k] != sep by {
                assert(tail[k] == run[k + 1]);
            }
        }
        assert(whole.drop_first() == tail + s);
        assert(whole[0] == run[0]);
        lemma_split_prefixed(tail, s, sep);
        let inner = split(tail + s, sep);
        assert(seq![run[0]] + inner[0] == run + split(s, sep)[0]);
        assert(inner.update(0, seq![run[0]] + inner[0]) == split(s, sep).update(
            0,
            run + split(s, sep)[0],
        ));
    }
}

/// A sequence without a separator is its own single run.
pub proof fn lemma_split_unbroken<T>(s: Seq<T>, sep: T)
    requires
        free_of(s, sep),
    ensures
        split(s, sep) == seq![s],
{
    lemma_split_prefixed(s, Seq::<T>::empty(), sep);
    assert(s + Seq::<T>::empty() == s);
}

/// A separator between two sequences parts their runs: those of the left
/// sequence come first, those of the right one follow.
pub proof fn lemma_split_joined<T>(left: Seq<T>, right: Seq<T>, sep: T)
    ensures
        split(left + seq![sep] + right, sep) == split(left, sep) + split(right, sep),
    decreases left.len(),
{
    let whole = left + seq![sep] + right;
    if left.len() == 0 {
        assert(whole.drop_first() == right);
        assert(split(left, sep) == seq![Seq::<T>::empty()]);
    } else {
        let tail = left.drop_first();
        assert(whole.drop_first() == tail + seq![sep] + right);
        lemma_split_joined(tail, right, sep);
        lemma_split_nonempty(tail, sep);
        let rest = split(tail, sep) + split(right, sep);
        assert(whole[0] == left[0]);
        if left[0] != sep {
            let head = seq![left[0]] + split(tail, sep)[0];
            assert(rest[0] == split(tail, sep)[0]);
            assert(rest.update(0, head) == split(tail, sep).update(0, head) + split(right, sep));
        } else {
            assert(seq![Seq::<T>::empty()] + rest == (seq![Seq::<T>::empty()] + split(tail, sep))
                + split(right, sep));
        }
    }
}

/// A sequence has a second run exactly where it holds a separator.
pub proof fn lemma_second_needs_separator<T>(s: Seq<T>, sep: T)
    ensures
        second(s, sep) is Some <==> !free_of(s, sep),
{
    if free_of(s, sep) {
        lemma_split_unbroken(s, sep);
    } else {
        let at = choose|k: int| 0 <= k < s.len() && s[k] == sep;
        let left = s.take(at);
        let right = s.skip(at + 1);
        assert(s == left + seq![sep] + right);
        lemma_split_joined(left, right, sep);
        lemma_split_nonempty(left, sep);
        lemma_split_nonempty(right, sep);
    }
}

/// Only what stands between the first separator and the next is the second
/// run: whatever stands before the first separator, and whatever follows the
/// second, does not change it.
pub proof fn lemma_second_of_three<T>(header: Seq<T>, payload: Seq<T>, rest: Seq<T>, sep: T)
    requires
        free_of(header, sep),
        free_of(payload, sep),
    ensures
        second(header + seq![sep] + payload, sep) == Some(payload),
        second(header + seq![sep] + payload + seq![sep] + rest, sep) == Some(payload),
{
    lemma_split_unbroken(header, sep);
    lemma_split_unbroken(payload, sep);
    lemma_split_joined(header, payload, sep);
    lemma_split_joined(payload, rest, sep);
    lemma_split_joined(header, payload + seq![sep] + rest, sep);
    assert(header + seq![sep] + (payload + seq![sep] + rest) == header + seq![sep] + payload
        + seq![sep] + rest);
}

/// In UTF-8 the byte `.` stands for the character `.` and for nothing else:
/// the character is that one byte, and no byte of another character equals it.
pub proof fn lemma_separator_in_utf8(c: char)
    ensures
        c == '.' ==> encode_scalar(c as u32) == seq![SEPARATOR],
        c != '.' ==> unbroken(encode_scalar(c as u32)) && encode_scalar(c as u32).len() >= 1,
{
    let v = c as u32;
    char_is_scalar(c);
    assert(v <= 0x7f ==> ((v & 0x7f) as u8 == 0x2e <==> v == 0x2e)) by (bit_vector);
    assert((0xc0 | ((v >> 6) & 0x1f) as u8) != 0x2e) by (bit_vector);
    assert((0xe0 | ((v >> 12) & 0x0f) as u8) != 0x2e) by (bit_vector);
    assert((0xf0 | ((v >> 18) & 0x7) as u8) != 0x2e) by (bit_vector);
    assert((0x80 | (v & 0x3f) as u8) != 0x2e) by (bit_vector);
    assert((0x80 | ((v >> 6) & 0x3f) as u8) != 0x2e) by (bit_vector);
    assert((0x80 | ((v >> 12) & 0x3f) as u8) != 0x2e) by (bit_vector);
}

/// The bytes of a token split where its text splits: the segments of the
/// UTF-8 bytes are the UTF-8 bytes of the segments of the text, one for one.
pub proof fn lemma_segments_of_text(token: Seq<char>)
    ensures
        segments(encode_utf8(token)) == text_segments(token).map_values(
            |segment: Seq<char>| encode_utf8(segment),
        ),
    decreases token.len(),
{
    let bytes_of = |segment: Seq<char>| encode_utf8(segment);
    if token.len() > 0 {
        let c = token[0];
        let rest = token.drop_first();
        let first = encode_scalar(c as u32);
        let inner = text_segments(rest);
        lemma_segments_of_text(rest);
        lemma_separator_in_utf8(c);
        lemma_split_nonempty(rest, '.');
        assert(encode_utf8(token) == first + encode_utf8(rest));
        if c == '.' {
            assert(encode_utf8(token).drop_first() == encode_utf8(rest));
            assert(encode_utf8(token)[0] == SEPARATOR);
            assert(bytes_of(Seq::<char>::empty()) == Seq::<u8>::empty());
            assert((seq![Seq::<char>::empty()] + inner).map_values(bytes_of) == seq![
                Seq::<u8>::empty(),
            ] + inner.map_values(bytes_of));
        } else {
            lemma_split_prefixed(first, encode_utf8(rest), SEPARATOR);
            let longer = seq![c] + inner[0];
            assert(longer.drop_first() == inner[0]);
            assert(bytes_of(longer) == first + bytes_of(inner[0]));
            assert(inner.update(0, longer).map_values(bytes_of) == inner.map_values(
                bytes_of,
            ).update(0, first + bytes_of(inner[0])));
        }
    }
}

/// The payload segment of a token's bytes is the UTF-8 of the payload segment
/// of its text, and there is the one exactly where there is the other.
pub proof fn lemma_payload_of_text(token: Seq<char>)
    ensures
        payload_of(encode_utf8(token)) == (match text_payload_of(token) {
            Some(segment) => Some(encode_utf8(segment)),
            None => None,
        }),
{
    lemma_segments_of_text(token);
}

/// The place of the first separator at or after `from`, or the length of the
/// bytes where none follows.
fn find_separator(bytes: &[u8], from: usize) -> (at: usize)
    requires
        from <= bytes@.len(),
    ensures
        from <= at <= bytes@.len(),
        unbroken(bytes@.subrange(from as int, at as int)),
        at < bytes@.len() ==> bytes@[at as int] == SEPARATOR,
{
    let mut at: usize = from;
    while at < bytes.len() && bytes[at] != SEPARATOR
        invariant
            from <= at <= bytes@.len(),
            unbroken(bytes@.subrange(from as int, at as int)),
        decreases bytes@.len() - at,
    {
        at = at + 1;
        assert forall|k: int| 0 <= k < at - from implies bytes@.subrange(from as int, at as int)[k]
            != SEPARATOR by {
            if k < at - from - 1 {
                assert(bytes@.subrange(from as int, at - 1)[k] == bytes@[from + k]);
            }
        }
    }
    at
}

/// Splits a token at its separators and hands out the second segment, the
/// one that carries the payload. `None` where the token has no separator,
/// and so no second segment. The first segment and everything after the
/// second are passed over unread.
pub fn payload_segment(token: &[u8]) -> (segment: Option<&[u8]>)
    ensures
        segment is Some == (payload_of(token@) is Some),
        segment matches Some(s) ==> payload_of(token@) == Some(s@),
{
    let first = find_separator(token, 0);
    let ghost header = token@.subrange(0, first as int);
    if first == token.len() {
        proof {
            assert(header == token@);
            lemma_split_unbroken(token@, SEPARATOR);
        }
        None
    } else {
        let second = find_separator(token, first + 1);
        let segment = &token[first + 1..second];
        proof {
            let tail = token@.skip(first + 1);
            let payload = token@.subrange(first + 1, second as int);
            assert(token@ == header + seq![SEPARATOR] + tail);
            lemma_split_unbroken(header, SEPARATOR);
            lemma_split_joined(header, tail, SEPARATOR);
            lemma_split_unbroken(payload, SEPARATOR);
            if second < token.len() {
                let rest = token@.skip(second + 1);
                assert(tail == payload + seq![SEPARATOR] + rest);
                lemma_split_joined(payload, rest, SEPARATOR);
            } else {
                assert(tail == payload);
            }
        }
        Some(segment)
    }
}

} // verus!
