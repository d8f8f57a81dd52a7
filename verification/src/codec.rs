//! Framing codec: a chat message and the fixed-size byte frame that carries
//! it on the wire.
//!
//! A frame is exactly [`FRAME_LEN`] bytes: the UTF-8 bytes of the JSON object
//! `{"name":<name>,"message":<text>}` followed by zero-byte padding. The end
//! of the content is the first zero byte, so an encoded message must be
//! strictly shorter than the frame; [`encode`] rejects anything longer
//! instead of truncating it.

use vstd::prelude::*;
use vstd::string::StrSliceExecFns;
use vstd::string::StringExecFns;
use vstd::utf8::char_u32_cast;
use vstd::utf8::decode_utf8;
use vstd::utf8::encode_scalar;
use vstd::utf8::encode_utf8;
use vstd::utf8::encode_utf8_decode_utf8;
use vstd::utf8::encode_utf8_valid_utf8;
use vstd::utf8::has_width_1_encoding;
use vstd::utf8::last_continuation_byte;
use vstd::utf8::leading_byte_width_1;
use vstd::utf8::leading_byte_width_2;
use vstd::utf8::leading_byte_width_3;
use vstd::utf8::leading_byte_width_4;
use vstd::utf8::second_last_continuation_byte;
use vstd::utf8::third_last_continuation_byte;
use vstd::utf8::valid_utf8;

verus! {

/// Number of bytes in every frame, in both directions.
pub const FRAME_LEN: usize = 256;

/// One chat message: who said it and what was said.
#[derive(Clone, Debug, PartialEq, Eq)]
pub struct ChatMessage {
    /// Display name of the sender.
    pub name: String,
    /// The text of the message.
    pub text: String,
}

/// Why a message could not be encoded into a frame.
#[derive(Clone, Copy, Debug, PartialEq, Eq, Structural)]
pub enum EncodeError {
    /// The serialized message fills or exceeds the frame, leaving no room
    /// for the terminating zero byte.
    Oversize,
}

/// Why an inbound frame could not be decoded.
#[derive(Clone, Copy, Debug, PartialEq, Eq, Structural)]
pub enum DecodeError {
    /// The bytes before the first zero byte are not valid UTF-8.
    NotUtf8,
    /// The content is not a well-formed JSON document.
    NotJson,
    /// The document lacks a string field `name` or `message`.
    MissingField,
}

/// The JSON string literal (quotes and escapes included) that serde_json
/// produces for a string with these characters.
pub uninterp spec fn quoted(s: Seq<char>) -> Seq<char>;

/// Whether serde_json accepts this text as a JSON document.
pub uninterp spec fn is_json_doc(s: Seq<char>) -> bool;

/// The `name` and `message` string fields that serde_json recovers from this
/// text, or `None` when the text is not a JSON document carrying both.
pub uninterp spec fn msg_fields(s: Seq<char>) -> Option<(Seq<char>, Seq<char>)>;

/// The JSON text of a message: an object with the sender under `name` and
/// the text under `message`, in that order.
pub open spec fn msg_text(name: Seq<char>, text: Seq<char>) -> Seq<char> {
    "{\"name\":"@ + quoted(name) + ",\"message\":"@ + quoted(text) + "}"@
}

/// Relies on `serde_json::to_string` on a string slice: it returns the JSON
/// string literal for it, never fails for a string, and escapes every
/// control character, so the result contains no NUL character.
#[verifier::external_body]
fn quote_str(s: &str) -> (r: String)
    ensures
        r@ == quoted(s@),
        forall|i: int| 0 <= i < r@.len() ==> r@[i] != '\0',
{
    serde_json::to_string(s).unwrap()
}

/// Index of the first zero byte, or the length when there is none.
pub open spec fn first_zero(b: Seq<u8>) -> int
    decreases b.len(),
{
    if b.len() == 0 {
        0
    } else if b[0] == 0 {
        0
    } else {
        1 + first_zero(b.drop_first())
    }
}

/// The content of a frame: the bytes before the first zero byte.
pub open spec fn content_of(b: Seq<u8>) -> Seq<u8> {
    b.take(first_zero(b))
}

/// Any position that is preceded only by non-zero bytes and is either a zero
/// byte or the end is exactly `first_zero`.
proof fn lemma_first_zero_is(b: Seq<u8>, i: int)
    requires
        0 <= i <= b.len(),
        forall|j: int| 0 <= j < i ==> b[j] != 0,
        i < b.len() ==> b[i] == 0,
    ensures
        first_zero(b) == i,
    decreases b.len(),
{
    if b.len() == 0 {
    } else if i == 0 {
    } else {
        assert(b[0] != 0);
        lemma_first_zero_is(b.drop_first(), i - 1);
    }
}

/// The round trip of the framing layer itself: content free of zero bytes,
/// right-padded with any number of zero bytes, is recovered exactly by the
/// first-zero scan.
pub proof fn lemma_zero_padding_round_trip(c: Seq<u8>, k: nat)
    requires
        forall|i: int| 0 <= i < c.len() ==> c[i] != 0,
    ensures
        content_of(c + Seq::new(k, |i: int| 0u8)) == c,
{
    let b = c + Seq::new(k, |i: int| 0u8);
    lemma_first_zero_is(b, c.len() as int);
    assert(content_of(b) =~= c);
}

/// None of the bytes that can appear in the UTF-8 encoding of a character
/// other than NUL is zero.
proof fn lemma_scalar_bytes_nonzero(c: u32)
    by (bit_vector)
    requires
        c != 0,
    ensures
        has_width_1_encoding(c) ==> leading_byte_width_1(c) != 0,
        leading_byte_width_2(c) != 0,
        leading_byte_width_3(c) != 0,
        leading_byte_width_4(c) != 0,
        last_continuation_byte(c) != 0,
        second_last_continuation_byte(c) != 0,
        third_last_continuation_byte(c) != 0,
{
}

/// The UTF-8 encoding of a text without NUL characters contains no zero
/// byte, so such a text survives zero-padded framing intact.
proof fn lemma_encode_utf8_nonzero(s: Seq<char>)
    requires
        forall|i: int| 0 <= i < s.len() ==> s[i] != '\0',
    ensures
        forall|j: int| 0 <= j < encode_utf8(s).len() ==> encode_utf8(s)[j] != 0,
    decreases s.len(),
{
    if s.len() > 0 {
        let c = s[0] as u32;
        assert(c != 0) by {
            if c == 0 {
                char_u32_cast(s[0], c);
                assert('\0' as u32 == 0);
                char_u32_cast('\0', 0);
            }
        }
        lemma_scalar_bytes_nonzero(c);
        assert(forall|i: int| 0 <= i < s.drop_first().len() ==> s.drop_first()[i] != '\0');
        lemma_encode_utf8_nonzero(s.drop_first());
        assert forall|j: int| 0 <= j < encode_utf8(s).len() implies encode_utf8(s)[j] != 0 by {
            if j < encode_scalar(c).len() {
                assert(encode_utf8(s)[j] == encode_scalar(c)[j]);
            } else {
                assert(encode_utf8(s)[j] == encode_utf8(s.drop_first())[j - encode_scalar(
                    c,
                ).len()]);
            }
        }
    }
}

/// Relies on `serde_json::from_str` and `serde_json::Value::get`: the text is
/// parsed as a JSON document and the string fields `name` and `message` are
/// taken from it. On the text that [`msg_text`] describes — the object that
/// serde_json itself serialized — parsing recovers exactly the two original
/// strings (serde_json's serialize/deserialize round trip).
#[verifier::external_body]
fn parse_msg_text(s: &str) -> (r: Result<ChatMessage, DecodeError>)
    ensures
        match r {
            Ok(m) => is_json_doc(s@) && msg_fields(s@) == Some((m.name@, m.text@)) && (forall|
                n: Seq<char>,
                t: Seq<char>,
            |
                s@ == #[trigger] msg_text(n, t) ==> m.name@ == n && m.text@ == t),
            Err(DecodeError::NotJson) => !is_json_doc(s@) && msg_fields(s@) is None && (forall|
                n: Seq<char>,
                t: Seq<char>,
            | s@ != #[trigger] msg_text(n, t)),
            Err(DecodeError::MissingField) => is_json_doc(s@) && msg_fields(s@) is None && (forall|
                n: Seq<char>,
                t: Seq<char>,
            | s@ != #[trigger] msg_text(n, t)),
            Err(DecodeError::NotUtf8) => false,
        },
{
    let v: serde_json::Value = match serde_json::from_str(s) {
        Ok(v) => v,
        Err(_) => return Err(DecodeError::NotJson),
    };
    let name = match v.get("name") {
        Some(serde_json::Value::String(p)) => p.clone(),
        _ => return Err(DecodeError::MissingField),
    };
    let text = match v.get("message") {
        Some(serde_json::Value::String(p)) => p.clone(),
        _ => return Err(DecodeError::MissingField),
    };
    Ok(ChatMessage { name, text })
}

/// Relies on `String::from_utf8` of std: it succeeds exactly on valid UTF-8
/// input and then returns the decoded characters.
#[verifier::external_body]
fn bytes_to_string(b: Vec<u8>) -> (r: Option<String>)
    ensures
        r matches Some(s) ==> valid_utf8(b@) && s@ == decode_utf8(b@),
        r is None ==> !valid_utf8(b@),
{
    match String::from_utf8(b) {
        Ok(s) => Some(s),
        Err(_) => None,
    }
}

/// The bytes of the frame carrying this message: the UTF-8 bytes of its JSON
/// text, padded with zero bytes to [`FRAME_LEN`]. Meaningful only when the
/// text fits, i.e. its encoding is shorter than [`FRAME_LEN`].
pub open spec fn frame_bytes(name: Seq<char>, text: Seq<char>) -> Seq<u8> {
    encode_utf8(msg_text(name, text)) + Seq::new(
        (FRAME_LEN - encode_utf8(msg_text(name, text)).len()) as nat,
        |i: int| 0u8,
    )
}

/// What an inbound frame decodes to: the two string fields of the JSON
/// document held by the bytes before the first zero byte, when those bytes
/// are valid UTF-8 and the document carries both fields.
pub open spec fn frame_fields(f: Seq<u8>) -> Option<(Seq<char>, Seq<char>)> {
    if valid_utf8(content_of(f)) {
        msg_fields(decode_utf8(content_of(f)))
    } else {
        None
    }
}

/// Serialize a message into a frame: its JSON text as UTF-8, right-padded
/// with zero bytes to exactly [`FRAME_LEN`] bytes. Fails — instead of
/// silently truncating — exactly when the encoded text has no room left for
/// a terminating zero byte, and the produced frame always decodes back to
/// the JSON text it was built from.
pub fn encode(m: &ChatMessage) -> (r: Result<Vec<u8>, EncodeError>)
    ensures
        ({
            let jb = encode_utf8(msg_text(m.name@, m.text@));
            match r {
                Ok(f) => jb.len() < FRAME_LEN && f@ == frame_bytes(m.name@, m.text@)
                    && f@.len() == FRAME_LEN && content_of(f@) == jb && valid_utf8(jb)
                    && decode_utf8(jb) == msg_text(m.name@, m.text@),
                Err(EncodeError::Oversize) => jb.len() >= FRAME_LEN,
            }
        }),
{
    let quoted_name = quote_str(m.name.as_str());
    let quoted_text = quote_str(m.text.as_str());
    let mut s = "{\"name\":".to_owned();
    s.append(quoted_name.as_str());
    s.append(",\"message\":");
    s.append(quoted_text.as_str());
    s.append("}");
    proof {
        assert(s@ =~= msg_text(m.name@, m.text@));
        reveal_strlit("{\"name\":");
        reveal_strlit(",\"message\":");
        reveal_strlit("}");
        assert forall|i: int| 0 <= i < s@.len() implies s@[i] != '\0' by {}
        lemma_encode_utf8_nonzero(s@);
        encode_utf8_valid_utf8(s@);
        encode_utf8_decode_utf8(s@);
    }
    let mut f = s.as_str().as_bytes_vec();
    let ghost jb = f@;
    if f.len() >= FRAME_LEN {
        return Err(EncodeError::Oversize);
    }
    proof {
        assert(f@ =~= jb + Seq::new((f@.len() - jb.len()) as nat, |i: int| 0u8));
    }
    while f.len() < FRAME_LEN
        invariant
            jb.len() <= f@.len() <= FRAME_LEN,
            f@ == jb + Seq::new((f@.len() - jb.len()) as nat, |i: int| 0u8),
        decreases FRAME_LEN - f@.len(),
    {
        f.push(0u8);
        proof {
            assert(f@ =~= jb + Seq::new((f@.len() - jb.len()) as nat, |i: int| 0u8));
        }
    }
    proof {
        lemma_zero_padding_round_trip(jb, (f@.len() - jb.len()) as nat);
    }
    Ok(f)
}

/// Decode a frame: take the bytes before the first zero byte, read them as
/// UTF-8 JSON, and return the `name` and `message` string fields. Success
/// certifies the content as a JSON document; each error names the first
/// check that failed; and any frame whose content is the JSON text of a
/// message decodes back to exactly that message.
pub fn decode(frame: &Vec<u8>) -> (r: Result<ChatMessage, DecodeError>)
    ensures
        ({
            let c = content_of(frame@);
            match r {
                Ok(m) => frame_fields(frame@) == Some((m.name@, m.text@)),
                Err(DecodeError::NotUtf8) => !valid_utf8(c),
                Err(DecodeError::NotJson) => valid_utf8(c) && !is_json_doc(decode_utf8(c))
                    && msg_fields(decode_utf8(c)) is None,
                Err(DecodeError::MissingField) => valid_utf8(c) && is_json_doc(decode_utf8(c))
                    && msg_fields(decode_utf8(c)) is None,
            }
        }),
        r is Err ==> frame_fields(frame@) is None,
        r is Ok ==> is_json_doc(decode_utf8(content_of(frame@))),
        forall|n: Seq<char>, t: Seq<char>|
            (valid_utf8(content_of(frame@)) && decode_utf8(content_of(frame@)) == #[trigger] msg_text(
                n,
                t,
            )) ==> (r matches Ok(m) && m.name@ == n && m.text@ == t),
{
    let end = frame.len();
    let mut i: usize = 0;
    while i < end && frame[i] != 0u8
        invariant
            0 <= i <= end == frame@.len(),
            forall|j: int| 0 <= j < i ==> frame@[j] != 0,
        decreases end - i,
    {
        i += 1;
    }
    proof {
        lemma_first_zero_is(frame@, i as int);
    }
    let mut content: Vec<u8> = Vec::new();
    let mut j: usize = 0;
    while j < i
        invariant
            0 <= j <= i <= frame@.len(),
            content@ == frame@.take(j as int),
        decreases i - j,
    {
        content.push(frame[j]);
        proof {
            assert(content@ =~= frame@.take(j + 1 as int));
        }
        j += 1;
    }
    assert(content@ == content_of(frame@));
    match bytes_to_string(content) {
        None => Err(DecodeError::NotUtf8),
        Some(s) => parse_msg_text(s.as_str()),
    }
}

} // verus!
