//! The boundary between native text buffers and validated text.
//!
//! A native text answer is modelled as `Option<&'static [u8]>`: `None` is the
//! null pointer, and `Some(buffer)` is the memory that a non-null pointer
//! refers to. The text of a buffer is what comes before its first NUL byte.
//! That the memory really is immutable and lives as long as the process is the
//! caller's promise, carried by the `'static` lifetime.

use vstd::prelude::*;
use vstd::string::*;
use vstd::slice::*;
use vstd::utf8::*;

verus! {

/// The position of the terminator of `buffer`: the index of its first NUL
/// byte, or its length where it holds none.
pub open spec fn terminator(buffer: Seq<u8>) -> int {
    match buffer.index_of_first(0u8) {
        Some(index) => index,
        None => buffer.len() as int,
    }
}

/// The bytes of the C string that starts `buffer`: everything before the
/// terminator.
pub open spec fn c_string_bytes(buffer: Seq<u8>) -> Seq<u8> {
    buffer.take(terminator(buffer))
}

/// The text that a native answer stands for, if any.
///
/// A null answer carries no text. Neither does a buffer whose C string is
/// empty or is not valid UTF-8. Every other buffer carries the characters that
/// its C string encodes.
pub open spec fn static_text(raw: Option<Seq<u8>>) -> Option<Seq<char>> {
    match raw {
        None => None,
        Some(buffer) => {
            let bytes = c_string_bytes(buffer);
            if bytes.len() > 0 && valid_utf8(bytes) {
                Some(decode_utf8(bytes))
            } else {
                None
            }
        },
    }
}

/// The contents of a native text answer.
pub open spec fn buffer_view(raw: Option<&[u8]>) -> Option<Seq<u8>> {
    match raw {
        Some(buffer) => Some(buffer@),
        None => None,
    }
}

/// The characters of an optional text.
pub open spec fn text_view(text: Option<&str>) -> Option<Seq<char>> {
    match text {
        Some(s) => Some(s@),
        None => None,
    }
}

/// The terminator lies within the buffer or at its end, no byte before it is
/// NUL, and the byte at it, if there is one, is NUL.
pub proof fn lemma_terminator(buffer: Seq<u8>)
    ensures
        0 <= terminator(buffer) <= buffer.len(),
        forall|i: int| 0 <= i < terminator(buffer) ==> buffer[i] != 0,
        terminator(buffer) < buffer.len() ==> buffer[terminator(buffer)] == 0,
{
    buffer.index_of_first_ensures(0u8);
}

/// A position that is NUL or the end of the buffer, with no NUL before it, is
/// the terminator.
pub proof fn lemma_terminator_unique(buffer: Seq<u8>, end: int)
    requires
        0 <= end <= buffer.len(),
        forall|i: int| 0 <= i < end ==> buffer[i] != 0,
        end < buffer.len() ==> buffer[end] == 0,
    ensures
        terminator(buffer) == end,
{
    lemma_terminator(buffer);
    let found = terminator(buffer);
    if found < end {
        assert(buffer[found] == 0);
    }
    if end < found {
        assert(buffer[end] != 0);
    }
}

/// A character sequence is empty exactly when its UTF-8 encoding is.
pub proof fn lemma_encoding_empty(chars: Seq<char>)
    ensures
        encode_utf8(chars).len() == 0 <==> chars.len() == 0,
{
    if chars.len() > 0 {
        assert(encode_scalar(chars[0] as u32).len() > 0);
    }
}

/// Finds the terminator of a buffer.
fn find_terminator(buffer: &[u8]) -> (end: usize)
    ensures
        end == terminator(buffer@),
{
    let mut end: usize = 0;
    while end < buffer.len() && buffer[end] != 0
        invariant
            end <= buffer@.len(),
            forall|i: int| 0 <= i < end ==> buffer@[i] != 0,
        decreases buffer@.len() - end,
    {
        end += 1;
    }
    proof {
        lemma_terminator_unique(buffer@, end as int);
    }
    end
}

/// `core::str::from_utf8`, with its error folded into `None`.
///
/// Believed of it: the call succeeds exactly on valid UTF-8, and the text it
/// returns consists of the very bytes it was given.
#[verifier::external_body]
fn str_from_utf8<'a>(bytes: &'a [u8]) -> (text: Option<&'a str>)
    ensures
        text is Some <==> valid_utf8(bytes@),
        text matches Some(s) ==> s.spec_bytes() == bytes@,
{
    match core::str::from_utf8(bytes) {
        Ok(text) => Some(text),
        Err(_) => None,
    }
}

/// Converts a native text answer into validated text.
///
/// The answer is absent for a null pointer, for a C string that is not valid
/// UTF-8, and for an empty C string. Otherwise it is the text of the C string,
/// borrowed from the buffer byte for byte.
pub fn convert_to_rust_str(static_c_str: Option<&'static [u8]>) -> (text: Option<&'static str>)
    ensures
        text_view(text) == static_text(buffer_view(static_c_str)),
        static_c_str is None ==> text is None,
        text matches Some(s) ==> s@.len() > 0 && s.spec_bytes() == c_string_bytes(
            static_c_str.unwrap()@,
        ),
{
    let buffer = match static_c_str {
        Some(buffer) => buffer,
        None => {
            return None;
        },
    };
    let end = find_terminator(buffer);
    proof {
        lemma_terminator(buffer@);
    }
    let bytes = slice_subrange(buffer, 0, end);
    match str_from_utf8(bytes) {
        Some(s) => {
            proof {
                lemma_encoding_empty(s@);
                encode_utf8_decode_utf8(s@);
            }
            if s.is_empty() {
                None
            } else {
                Some(s)
            }
        },
        None => None,
    }
}

/// The encoding of a single character other than NUL holds no NUL byte.
proof fn lemma_scalar_encoding_has_no_nul(scalar: u32)
    requires
        is_scalar(scalar),
        scalar != 0,
    ensures
        forall|i: int| 0 <= i < encode_scalar(scalar).len() ==> encode_scalar(scalar)[i] != 0,
{
    assert(scalar <= 0x7F ==> (scalar & 0x7F) as u8 != 0) by (bit_vector)
        requires
            scalar != 0,
    ;
    assert(0xC0u8 | ((scalar >> 6) & 0x1F) as u8 != 0) by (bit_vector);
    assert(0xE0u8 | ((scalar >> 12) & 0x0F) as u8 != 0) by (bit_vector);
    assert(0xF0u8 | ((scalar >> 18) & 0x7) as u8 != 0) by (bit_vector);
    assert(0x80u8 | (scalar & 0x3F) as u8 != 0) by (bit_vector);
    assert(0x80u8 | ((scalar >> 6) & 0x3F) as u8 != 0) by (bit_vector);
    assert(0x80u8 | ((scalar >> 12) & 0x3F) as u8 != 0) by (bit_vector);
}

/// Text without a NUL character is encoded without a NUL byte.
pub proof fn lemma_encoding_has_no_nul(chars: Seq<char>)
    requires
        forall|i: int| 0 <= i < chars.len() ==> chars[i] != '\0',
    ensures
        forall|i: int| 0 <= i < encode_utf8(chars).len() ==> encode_utf8(chars)[i] != 0,
    decreases chars.len(),
{
    if chars.len() > 0 {
        let head = encode_scalar(chars[0] as u32);
        let tail = encode_utf8(chars.drop_first());
        char_is_scalar(chars[0]);
        assert(chars[0] as u32 != 0) by {
            char_u32_cast(chars[0], chars[0] as u32);
            char_u32_cast('\0', 0u32);
        }
        lemma_scalar_encoding_has_no_nul(chars[0] as u32);
        lemma_encoding_has_no_nul(chars.drop_first());
        assert(encode_utf8(chars) == head + tail);
    }
}

/// Absence has three sources and no other: a null answer, an empty C string,
/// and a C string that is not valid UTF-8.
pub proof fn lemma_static_text_absent(raw: Option<Seq<u8>>)
    ensures
        static_text(raw) is None <==> {
            ||| raw is None
            ||| c_string_bytes(raw.unwrap()).len() == 0
            ||| !valid_utf8(c_string_bytes(raw.unwrap()))
        },
        raw matches Some(buffer) && (buffer.len() == 0 || buffer[0] == 0) ==> static_text(raw)
            is None,
{
    if let Some(buffer) = raw {
        lemma_terminator(buffer);
    }
}

/// Text that is present is never empty, holds no NUL character, and is encoded
/// by exactly the bytes of the C string it was read from.
pub proof fn lemma_static_text_present(buffer: Seq<u8>)
    requires
        static_text(Some(buffer)) is Some,
    ensures
        static_text(Some(buffer)).unwrap().len() > 0,
        encode_utf8(static_text(Some(buffer)).unwrap()) == c_string_bytes(buffer),
        forall|i: int|
            0 <= i < static_text(Some(buffer)).unwrap().len() ==> static_text(
                Some(buffer),
            ).unwrap()[i] != '\0',
{
    let bytes = c_string_bytes(buffer);
    let text = decode_utf8(bytes);
    decode_utf8_encode_utf8(bytes);
    lemma_encoding_empty(text);
    lemma_terminator(buffer);
    assert forall|i: int| 0 <= i < text.len() implies text[i] != '\0' by {
        if text[i] == '\0' {
            lemma_nul_char_is_encoded(text, i);
        }
    }
}

/// A NUL character shows as a NUL byte in the encoding.
proof fn lemma_nul_char_is_encoded(chars: Seq<char>, at: int)
    requires
        0 <= at < chars.len(),
        chars[at] == '\0',
    ensures
        exists|i: int| 0 <= i < encode_utf8(chars).len() && encode_utf8(chars)[i] == 0,
    decreases chars.len(),
{
    let head = encode_scalar(chars[0] as u32);
    let tail = encode_utf8(chars.drop_first());
    assert(encode_utf8(chars) == head + tail);
    if at == 0 {
        assert((0u32 & 0x7F) as u8 == 0) by (bit_vector);
        assert(encode_utf8(chars)[0] == 0);
    } else {
        lemma_nul_char_is_encoded(chars.drop_first(), at - 1);
        let i = choose|i: int| 0 <= i < tail.len() && tail[i] == 0;
        assert(encode_utf8(chars)[head.len() + i] == 0);
    }
}

/// Valid, non-empty text in front of a terminator is returned exactly,
/// whatever follows the terminator.
pub proof fn lemma_valid_text_is_kept(bytes: Seq<u8>, rest: Seq<u8>)
    requires
        bytes.len() > 0,
        valid_utf8(bytes),
        forall|i: int| 0 <= i < bytes.len() ==> bytes[i] != 0,
    ensures
        static_text(Some(bytes.push(0) + rest)) == Some(decode_utf8(bytes)),
        static_text(Some(bytes)) == Some(decode_utf8(bytes)),
        encode_utf8(decode_utf8(bytes)) == bytes,
{
    let buffer = bytes.push(0) + rest;
    lemma_terminator_unique(buffer, bytes.len() as int);
    assert(c_string_bytes(buffer) =~= bytes);
    lemma_terminator_unique(bytes, bytes.len() as int);
    assert(c_string_bytes(bytes) =~= bytes);
    decode_utf8_encode_utf8(bytes);
}

/// Every non-empty text without a NUL character comes back unchanged from its
/// own NUL-terminated encoding.
pub proof fn lemma_text_round_trip(text: Seq<char>)
    requires
        text.len() > 0,
        forall|i: int| 0 <= i < text.len() ==> text[i] != '\0',
    ensures
        static_text(Some(encode_utf8(text).push(0))) == Some(text),
{
    let bytes = encode_utf8(text);
    lemma_encoding_has_no_nul(text);
    lemma_encoding_empty(text);
    encode_utf8_valid_utf8(text);
    encode_utf8_decode_utf8(text);
    lemma_valid_text_is_kept(bytes, Seq::empty());
    assert(bytes.push(0) + Seq::<u8>::empty() =~= bytes.push(0));
}

/// Converting again changes nothing: the encoding of a text that was read
/// from a native answer is read as that same text.
pub proof fn lemma_static_text_idempotent(raw: Option<Seq<u8>>)
    requires
        static_text(raw) is Some,
    ensures
        static_text(Some(encode_utf8(static_text(raw).unwrap()))) == static_text(raw),
{
    let buffer = raw.unwrap();
    let bytes = c_string_bytes(buffer);
    lemma_terminator(buffer);
    lemma_valid_text_is_kept(bytes, Seq::empty());
}

} // verus!
