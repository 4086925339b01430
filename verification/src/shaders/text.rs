//! Text at the boundary with the engine.
//!
//! Towards the engine, source fragments travel as terminated byte buffers.
//! From the engine, text arrives as bytes that claim to be UTF-8.
use core::str::Utf8Error;
use vstd::prelude::*;
use vstd::string::*;
use vstd::utf8::*;

verus! {

/// The terminator of a byte buffer handed to the engine.
pub const NUL: u8 = 0;

/// Whether `text`, encoded for the engine, holds a terminator byte.
pub open spec fn has_nul(text: Seq<char>) -> bool {
    encode_utf8(text).contains(NUL)
}

/// The buffer that carries `text` to the engine: its UTF-8 encoding followed
/// by one terminator.
pub open spec fn c_string(text: Seq<char>) -> Seq<u8> {
    encode_utf8(text).push(NUL)
}

/// Whether one of `fragments` holds a terminator byte.
pub open spec fn any_has_nul(fragments: Seq<&str>) -> bool {
    exists|i: int| 0 <= i < fragments.len() && has_nul(#[trigger] fragments[i]@)
}

/// The buffers that carry `fragments` to the engine, one each, in order.
pub open spec fn c_strings(fragments: Seq<&str>) -> Seq<Seq<u8>> {
    Seq::new(fragments.len(), |i: int| c_string(fragments[i]@))
}

proof fn lemma_single_byte_zero(scalar: u32)
    by (bit_vector)
    requires
        scalar <= 0x7F,
    ensures
        ((scalar & 0x7F) as u8 == 0u8) == (scalar == 0u32),
{
}

proof fn lemma_marked_bytes_not_zero(scalar: u32)
    by (bit_vector)
    ensures
        0xC0u8 | ((scalar >> 6) & 0x1F) as u8 != 0u8,
        0xE0u8 | ((scalar >> 12) & 0x0F) as u8 != 0u8,
        0xF0u8 | ((scalar >> 18) & 0x7) as u8 != 0u8,
        0x80u8 | (scalar & 0x3F) as u8 != 0u8,
        0x80u8 | ((scalar >> 6) & 0x3F) as u8 != 0u8,
        0x80u8 | ((scalar >> 12) & 0x3F) as u8 != 0u8,
{
}

proof fn lemma_scalar_nul(scalar: u32)
    requires
        is_scalar(scalar),
    ensures
        encode_scalar(scalar).contains(NUL) <==> scalar == 0,
{
    lemma_marked_bytes_not_zero(scalar);
    let bytes = encode_scalar(scalar);
    if has_width_1_encoding(scalar) {
        lemma_single_byte_zero(scalar);
        assert(bytes[0] == leading_byte_width_1(scalar));
    }
    if bytes.contains(NUL) {
        let i = choose|i: int| 0 <= i < bytes.len() && bytes[i] == NUL;
        assert(bytes[i] == NUL);
    }
}

/// A text holds a terminator byte exactly where it holds the character
/// U+0000: no other character has a zero byte in its encoding.
pub proof fn lemma_nul_byte_is_nul_char(text: Seq<char>)
    ensures
        has_nul(text) <==> text.contains('\0'),
    decreases text.len(),
{
    if text.len() == 0 {
        assert(encode_utf8(text) =~= Seq::<u8>::empty());
    } else {
        let first = encode_scalar(text[0] as u32);
        let rest = text.drop_first();
        let tail = encode_utf8(rest);
        lemma_nul_byte_is_nul_char(rest);
        char_is_scalar(text[0]);
        lemma_scalar_nul(text[0] as u32);
        char_u32_cast('\0', 0u32);
        char_u32_cast(text[0], text[0] as u32);
        assert(encode_utf8(text) == first + tail);
        if first.contains(NUL) {
            let i = choose|i: int| 0 <= i < first.len() && first[i] == NUL;
            assert((first + tail)[i] == NUL);
            assert(text[0] == '\0');
        }
        if tail.contains(NUL) {
            let i = choose|i: int| 0 <= i < tail.len() && tail[i] == NUL;
            assert((first + tail)[first.len() + i] == NUL);
            let j = choose|j: int| 0 <= j < rest.len() && rest[j] == '\0';
            assert(text[j + 1] == '\0');
        }
        if (first + tail).contains(NUL) {
            let i = choose|i: int| 0 <= i < (first + tail).len() && (first + tail)[i] == NUL;
            if i < first.len() {
                assert(first[i] == NUL);
            } else {
                assert(tail[i - first.len()] == NUL);
            }
        }
        if text.contains('\0') {
            let j = choose|j: int| 0 <= j < text.len() && text[j] == '\0';
            if j == 0 {
                assert(first.contains(NUL));
            } else {
                assert(rest[j - 1] == '\0');
                assert(tail.contains(NUL));
            }
        }
    }
}

/// What the engine reads from a buffer: the bytes before its first
/// terminator.
pub open spec fn until_nul(buffer: Seq<u8>) -> Seq<u8>
    decreases buffer.len(),
{
    if buffer.len() == 0 || buffer[0] == NUL {
        Seq::empty()
    } else {
        seq![buffer[0]] + until_nul(buffer.drop_first())
    }
}

proof fn lemma_until_nul(bytes: Seq<u8>)
    ensures
        !bytes.contains(NUL) ==> until_nul(bytes.push(NUL)) == bytes,
        bytes.contains(NUL) ==> until_nul(bytes.push(NUL)).len() < bytes.len(),
    decreases bytes.len(),
{
    let buffer = bytes.push(NUL);
    if bytes.len() > 0 {
        let rest = bytes.drop_first();
        lemma_until_nul(rest);
        assert(buffer.drop_first() =~= rest.push(NUL));
        if bytes[0] != NUL {
            if bytes.contains(NUL) {
                let i = choose|i: int| 0 <= i < bytes.len() && bytes[i] == NUL;
                assert(rest[i - 1] == NUL);
            } else {
                assert forall|i: int| 0 <= i < rest.len() implies rest[i] != NUL by {
                    assert(bytes[i + 1] == rest[i]);
                }
                assert(until_nul(buffer) =~= bytes);
            }
        }
    } else {
        assert(until_nul(buffer) =~= bytes);
    }
}

/// A text without a terminator byte reaches the engine whole: what the
/// engine reads from its buffer is the text's encoding, and decodes to the
/// text. A text with one would be cut short, which is why it is refused.
pub proof fn lemma_c_string_reads_back(text: Seq<char>)
    ensures
        !has_nul(text) ==> until_nul(c_string(text)) == encode_utf8(text) && decode_utf8(
            until_nul(c_string(text)),
        ) == text,
        has_nul(text) ==> until_nul(c_string(text)).len() < encode_utf8(text).len(),
{
    lemma_until_nul(encode_utf8(text));
    encode_utf8_decode_utf8(text);
}

/// What a list of byte buffers holds, buffer by buffer.
pub open spec fn contents(buffers: Seq<Vec<u8>>) -> Seq<Seq<u8>> {
    Seq::new(buffers.len(), |i: int| buffers[i]@)
}

/// The terminated buffer for `text`, or `None` where `text` holds a
/// terminator byte and so cannot be told from a shorter text.
pub fn to_c_string(text: &str) -> (buffer: Option<Vec<u8>>)
    ensures
        buffer is None <==> has_nul(text@),
        buffer matches Some(bytes) ==> bytes@ == c_string(text@),
{
    let bytes = text.as_bytes();
    let mut buffer: Vec<u8> = Vec::new();
    let mut i: usize = 0;
    while i < bytes.len()
        invariant
            i <= bytes@.len(),
            bytes@ == encode_utf8(text@),
            buffer@ == bytes@.subrange(0, i as int),
            forall|j: int| 0 <= j < i ==> bytes@[j] != NUL,
        decreases bytes@.len() - i,
    {
        let byte = bytes[i];
        if byte == NUL {
            return None;
        }
        buffer.push(byte);
        i += 1;
    }
    assert(buffer@ == bytes@);
    buffer.push(NUL);
    Some(buffer)
}

/// The terminated buffers for `fragments`, or `None` where one of them
/// holds a terminator byte.
pub fn to_c_strings(fragments: &[&str]) -> (buffers: Option<Vec<Vec<u8>>>)
    ensures
        buffers is None <==> any_has_nul(fragments@),
        buffers matches Some(list) ==> contents(list@) == c_strings(fragments@),
{
    let mut list: Vec<Vec<u8>> = Vec::new();
    let mut i: usize = 0;
    while i < fragments.len()
        invariant
            i <= fragments@.len(),
            list@.len() == i,
            forall|j: int| 0 <= j < i ==> !has_nul(#[trigger] fragments@[j]@),
            forall|j: int| 0 <= j < i ==> (#[trigger] list@[j])@ == c_string(fragments@[j]@),
        decreases fragments@.len() - i,
    {
        match to_c_string(fragments[i]) {
            None => {
                return None;
            },
            Some(buffer) => {
                list.push(buffer);
            },
        }
        i += 1;
    }
    assert(contents(list@) =~= c_strings(fragments@));
    Some(list)
}

/// What `String::from_utf8_lossy` makes of `bytes`: their text, with each
/// malformed stretch replaced by U+FFFD.
pub uninterp spec fn utf8_lossy(bytes: Seq<u8>) -> Seq<char>;

/// Text as this layer reads it from the engine's buffers: decoded as UTF-8,
/// with what is malformed replaced rather than refused.
pub open spec fn is_lossy_text(text: Seq<char>, bytes: Seq<u8>) -> bool {
    &&& text == utf8_lossy(bytes)
    &&& valid_utf8(bytes) ==> text == decode_utf8(bytes)
}

/// `String::from_utf8_lossy`, made into an owned string. Well-formed UTF-8
/// comes back as the text it encodes; for anything else the result is only
/// named.
#[verifier::external_body]
pub(crate) fn from_utf8_lossy(bytes: &[u8]) -> (text: String)
    ensures
        text@ == utf8_lossy(bytes@),
        valid_utf8(bytes@) ==> text@ == decode_utf8(bytes@),
{
    String::from_utf8_lossy(bytes).into_owned()
}

/// What `core::str::from_utf8` says of bytes that it refuses. Nothing is
/// known of it here: it is carried to the caller as it came.
#[verifier::external_type_specification]
#[verifier::external_body]
pub struct ExUtf8Error(core::str::Utf8Error);

/// `core::str::from_utf8` accepts exactly the well-formed UTF-8 sequences,
/// and the string slice it hands back then holds the bytes it was given.
pub assume_specification[ core::str::from_utf8 ](v: &[u8]) -> (decoded: Result<&str, Utf8Error>)
    ensures
        decoded is Ok <==> valid_utf8(v@),
        decoded matches Ok(text) ==> text.spec_bytes() == v@,
;

/// The text that `bytes` encode, or the decoding error where they are not
/// well-formed UTF-8.
pub fn decode(bytes: &[u8]) -> (decoded: Result<String, Utf8Error>)
    ensures
        decoded is Ok <==> valid_utf8(bytes@),
        decoded matches Ok(text) ==> text@ == decode_utf8(bytes@),
{
    match core::str::from_utf8(bytes) {
        Ok(text) => {
            proof {
                encode_utf8_decode_utf8(text@);
            }
            Ok(text.to_owned())
        },
        Err(error) => Err(error),
    }
}

} // verus!
