use vstd::prelude::*;
use vstd::utf8::*;

use crate::native::{is_success, NativeReply};

verus! {

/// The fixed text written in place of bytes that are not UTF-8.
pub open spec fn placeholder_text() -> Seq<char> {
    seq!['1', '2', '3']
}

/// The text that a write of `bytes` emits: their characters where they are
/// well-formed UTF-8, the placeholder otherwise.
pub open spec fn source_text(bytes: Seq<u8>) -> Seq<char> {
    if valid_utf8(bytes) {
        decode_utf8(bytes)
    } else {
        placeholder_text()
    }
}

/// The UTF-16 units of one character: one unit in the basic multilingual
/// plane, a high and a low surrogate above it.
pub open spec fn utf16_of_char(c: char) -> Seq<u16> {
    let v = c as u32 as int;
    if v < 0x10000 {
        seq![v as u16]
    } else {
        let w = v - 0x10000;
        seq![(0xD800 + w / 0x400) as u16, (0xDC00 + w % 0x400) as u16]
    }
}

/// The UTF-16 encoding of a character sequence.
pub open spec fn utf16_of(chars: Seq<char>) -> Seq<u16>
    decreases chars.len(),
{
    if chars.len() == 0 {
        seq![]
    } else {
        utf16_of(chars.drop_last()) + utf16_of_char(chars.last())
    }
}

/// What a text write reports: the byte length of the source text when the
/// native write succeeded, zero when it failed.
pub open spec fn reported_length(source_len: int, status: i32) -> int {
    if status != 0 {
        source_len
    } else {
        0
    }
}

/// Relies on std::str::from_utf8: it accepts exactly the well-formed UTF-8
/// byte sequences and returns the text that they encode.
#[verifier::external_body]
fn decode_utf8_text<'a>(bytes: &'a [u8]) -> (r: Option<&'a str>)
    ensures
        r is Some <==> valid_utf8(bytes@),
        r matches Some(s) ==> encode_utf8(s@) == bytes@,
{
    std::str::from_utf8(bytes).ok()
}

/// Relies on str::encode_utf16: the UTF-16 units of the text, character by
/// character.
#[verifier::external_body]
fn encode_wide(s: &str) -> (r: Vec<u16>)
    ensures
        r@ == utf16_of(s@),
{
    s.encode_utf16().collect()
}

/// A text write prepared for the native wide-character write call.
pub struct TextWrite {
    /// The source text in UTF-16.
    pub units: Vec<u16>,
    /// The unit count handed to the native call.
    pub unit_count: u32,
    /// The byte length of the source text in UTF-8.
    pub source_len: usize,
}

/// Prepares the write of a UTF-8 buffer: bytes that are not UTF-8 are not an
/// error but are replaced by the placeholder; the text is transcoded to
/// UTF-16. A text longer than the native count can express is written up to
/// that count.
pub fn encode_char_buffer(buf: &[u8]) -> (r: TextWrite)
    ensures
        r.units@ == utf16_of(source_text(buf@)),
        r.units@.len() <= u32::MAX ==> r.unit_count == r.units@.len(),
        r.units@.len() > u32::MAX ==> r.unit_count == u32::MAX,
        r.source_len == encode_utf8(source_text(buf@)).len(),
{
    let (text, source_len): (&str, usize) = match decode_utf8_text(buf) {
        Some(s) => {
            proof {
                encode_utf8_decode_utf8(s@);
            }
            (s, buf.len())
        },
        None => {
            proof {
                reveal_strlit("123");
                assert("123"@ =~= placeholder_text());
                assert(is_ascii_chars(placeholder_text()));
                is_ascii_chars_encode_utf8(placeholder_text());
            }
            let p = "123";
            (p, p.len())
        },
    };
    assert(text@ == source_text(buf@));
    let units = encode_wide(text);
    let unit_count: u32 = if units.len() <= u32::MAX as usize {
        units.len() as u32
    } else {
        u32::MAX
    };
    TextWrite { units, unit_count, source_len }
}

/// Finishes a text write from the native reply: the byte length of the
/// source text on success, zero on failure. A failed write is reported this
/// way, never raised.
pub fn write_char_buffer(text: &TextWrite, reply: NativeReply) -> (r: usize)
    ensures
        r == reported_length(text.source_len as int, reply.status),
{
    if is_success(reply.status) {
        text.source_len
    } else {
        0
    }
}

/// For well-formed UTF-8 input, a text write reports exactly the input's
/// byte length when the native write succeeds and zero when it fails; never
/// a partial length.
pub proof fn lemma_valid_text_reports_input_length(bytes: Seq<u8>, status: i32)
    requires
        valid_utf8(bytes),
    ensures
        reported_length(encode_utf8(source_text(bytes)).len() as int, status) == if status != 0 {
            bytes.len() as int
        } else {
            0
        },
{
    decode_utf8_encode_utf8(bytes);
}

/// Every input that is not UTF-8 is written as the same placeholder,
/// whatever its bytes.
pub proof fn lemma_invalid_text_same_placeholder(a: Seq<u8>, b: Seq<u8>)
    requires
        !valid_utf8(a),
        !valid_utf8(b),
    ensures
        source_text(a) == source_text(b),
        source_text(a) == placeholder_text(),
{
}

} // verus!
