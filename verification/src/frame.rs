//! Line framing: a command goes to the wire as its UTF-8 bytes followed
//! by the CR-LF terminator; a response is read as raw bytes up to and
//! including a LF, after which the trailing terminator is stripped and
//! the remainder decoded as text.

use vstd::prelude::*;
use vstd::utf8::decode_utf8;
use vstd::utf8::encode_scalar;
use vstd::utf8::encode_utf8;
use vstd::utf8::has_width_1_encoding;
use vstd::utf8::valid_utf8;

verus! {

/// Carriage return, the first terminator byte.
pub const CR: u8 = 13;

/// Line feed, the last terminator byte; reading stops after it.
pub const LF: u8 = 10;

/// A line as written to the wire: the payload bytes followed by the
/// CR-LF terminator.
pub open spec fn framed(payload: Seq<u8>) -> Seq<u8> {
    payload + seq![CR, LF]
}

/// What stripping one trailing terminator leaves: a final LF is
/// removed, and a CR immediately before that LF is removed with it; a
/// line that does not end in LF — including one that ends in a lone CR
/// — is kept as it is.
pub open spec fn strip_terminator(line: Seq<u8>) -> Seq<u8> {
    if line.len() > 0 && line.last() == LF {
        let rest = line.drop_last();
        if rest.len() > 0 && rest.last() == CR {
            rest.drop_last()
        } else {
            rest
        }
    } else {
        line
    }
}

/// Remove one trailing line terminator: pop a final LF, then a CR that
/// stood immediately before it; a byte popped by mistake is pushed
/// back.
pub fn remove_newline(text: &mut Vec<u8>)
    ensures
        final(text)@ == strip_terminator(old(text)@),
{
    match text.pop() {
        Some(last) => {
            if last == LF {
                match text.pop() {
                    Some(prev) => {
                        if prev == CR {
                            assert(text@ =~= strip_terminator(old(text)@));
                        } else {
                            text.push(prev);
                            assert(text@ =~= strip_terminator(old(text)@));
                        }
                    },
                    None => {},
                }
            } else {
                text.push(last);
                assert(text@ =~= strip_terminator(old(text)@));
            }
        },
        None => {},
    }
}

/// Frame one line for sending: the UTF-8 bytes of the text followed by
/// CR and LF.
pub fn frame_line(text: &str) -> (r: Vec<u8>)
    ensures
        r@ == framed(encode_utf8(text@)),
{
    let mut out = vstd::slice::slice_to_vec(text.as_bytes());
    out.push(CR);
    out.push(LF);
    assert(out@ =~= framed(encode_utf8(text@)));
    out
}

/// The text that lossy UTF-8 decoding yields for the given bytes; a
/// fixed function of the bytes alone.
pub uninterp spec fn lossy_decoded(bytes: Seq<u8>) -> Seq<char>;

/// Relies on `String::from_utf8_lossy`: the result depends on the
/// bytes alone, and bytes that are valid UTF-8 decode to exactly the
/// character sequence they encode.
#[verifier::external_body]
fn utf8_lossy(bytes: &Vec<u8>) -> (r: String)
    ensures
        r@ == lossy_decoded(bytes@),
        valid_utf8(bytes@) ==> r@ == decode_utf8(bytes@),
{
    String::from_utf8_lossy(bytes).into_owned()
}

/// Decode one received line: strip the trailing terminator, then turn
/// the remaining bytes into text, substituting the replacement
/// character for invalid sequences rather than failing.  CR and LF are
/// single bytes in UTF-8 and never occur inside a longer encoding, so
/// stripping them before decoding leaves the same line as stripping
/// the characters afterwards.
pub fn decode_line(buf: Vec<u8>) -> (r: String)
    ensures
        r@ == lossy_decoded(strip_terminator(buf@)),
        valid_utf8(strip_terminator(buf@)) ==> r@ == decode_utf8(strip_terminator(buf@)),
{
    let mut line = buf;
    remove_newline(&mut line);
    utf8_lossy(&line)
}

/// Stripping one terminator from a framed line gives the payload back,
/// whatever bytes the payload holds.
pub proof fn lemma_strip_framed(payload: Seq<u8>)
    ensures
        strip_terminator(framed(payload)) == payload,
{
    assert(strip_terminator(framed(payload)) =~= payload);
}

/// Round trip: a line framed for sending and echoed back decodes to
/// exactly the text it was built from — the terminator is fully
/// stripped and the payload untouched.
pub proof fn lemma_line_round_trip(text: Seq<char>)
    ensures
        strip_terminator(framed(encode_utf8(text))) == encode_utf8(text),
        valid_utf8(encode_utf8(text)),
        decode_utf8(encode_utf8(text)) == text,
{
    broadcast use vstd::utf8::encode_utf8_valid_utf8;
    broadcast use vstd::utf8::encode_utf8_decode_utf8;

    lemma_strip_framed(encode_utf8(text));
}

/// The UTF-8 encoding of one character other than CR and LF contains
/// neither the CR byte nor the LF byte: a one-byte encoding is the
/// code point itself, and every byte of a longer encoding has its
/// high bit set.
proof fn lemma_encode_scalar_no_terminator(c: char)
    requires
        c != '\r',
        c != '\n',
    ensures
        forall|i: int|
            0 <= i < encode_scalar(c as u32).len() ==> #[trigger] encode_scalar(c as u32)[i] != CR
                && encode_scalar(c as u32)[i] != LF,
{
    vstd::utf8::char_is_scalar(c);
    vstd::utf8::char_u32_cast(c, c as u32);
    let s = c as u32;
    assert('\r' as u32 == 13 && '\n' as u32 == 10);
    assert(s != 13 && s != 10);
    if has_width_1_encoding(s) {
        assert((s & 0x7F) as u8 != 13 && (s & 0x7F) as u8 != 10) by (bit_vector)
            requires
                s <= 0x7F && s != 13 && s != 10,
        ;
    } else {
        assert forall|b: u8|
            (0x80u8 | b) >= 0x80 && (0xC0u8 | b) >= 0xC0 && (0xE0u8 | b) >= 0xE0 && (0xF0u8 | b)
                >= 0xF0 by {
            assert((0x80u8 | b) >= 0x80 && (0xC0u8 | b) >= 0xC0 && (0xE0u8 | b) >= 0xE0 && (0xF0u8
                | b) >= 0xF0) by (bit_vector);
        }
    }
}

/// A line without CR or LF characters encodes to bytes without the CR
/// or LF byte, so the terminator written after it is the first LF on
/// the wire and a reader that stops at LF sees exactly this frame.
pub proof fn lemma_clean_text_clean_bytes(text: Seq<char>)
    requires
        forall|i: int| 0 <= i < text.len() ==> text[i] != '\r' && text[i] != '\n',
    ensures
        forall|i: int|
            0 <= i < encode_utf8(text).len() ==> #[trigger] encode_utf8(text)[i] != CR
                && encode_utf8(text)[i] != LF,
    decreases text.len(),
{
    if text.len() > 0 {
        lemma_encode_scalar_no_terminator(text[0]);
        lemma_clean_text_clean_bytes(text.drop_first());
        let head = encode_scalar(text[0] as u32);
        let tail = encode_utf8(text.drop_first());
        assert forall|i: int|
            0 <= i < encode_utf8(text).len() implies encode_utf8(text)[i] != CR && encode_utf8(
            text,
        )[i] != LF by {
            if i < head.len() {
                assert(encode_utf8(text)[i] == head[i]);
            } else {
                assert(encode_utf8(text)[i] == tail[i - head.len()]);
            }
        }
    }
}

} // verus!
