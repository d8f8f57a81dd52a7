use chatui::codec::ChatMessage;
use chatui::codec::DecodeError;
use chatui::codec::EncodeError;
use chatui::codec::FRAME_LEN;
use chatui::codec::decode;
use chatui::codec::encode;

fn msg(name: &str, text: &str) -> ChatMessage {
    ChatMessage { name: name.to_string(), text: text.to_string() }
}

fn frame_of(content: &[u8]) -> Vec<u8> {
    let mut f = content.to_vec();
    f.resize(FRAME_LEN, 0);
    f
}

#[test]
fn encode_scenario_exact_bytes() {
    let frame = encode(&msg("Alice", "hello")).unwrap();
    let expected = frame_of(b"{\"name\":\"Alice\",\"message\":\"hello\"}");
    assert_eq!(frame, expected);
}

#[test]
fn round_trip_simple() {
    let m = msg("Alice", "hello");
    let back = decode(&encode(&m).unwrap()).unwrap();
    assert_eq!(back, m);
}

#[test]
fn round_trip_empty_fields() {
    let m = msg("", "");
    let back = decode(&encode(&m).unwrap()).unwrap();
    assert_eq!(back, m);
}

#[test]
fn round_trip_escapes_and_unicode() {
    let m = msg("a\"b\\c", "line\nbreak\ttab \u{0} nul caf\u{e9} \u{1F600}");
    let back = decode(&encode(&m).unwrap()).unwrap();
    assert_eq!(back, m);
}

#[test]
fn round_trip_largest_fitting_message() {
    // {"name":"A","message":""} is 25 bytes, so 230 more fill 255: one byte
    // of padding is left for the terminating zero.
    let m = msg("A", &"a".repeat(230));
    let frame = encode(&m).unwrap();
    assert_eq!(frame.len(), FRAME_LEN);
    assert_eq!(frame[254], b'}');
    assert_eq!(frame[255], 0);
    let back = decode(&frame).unwrap();
    assert_eq!(back, m);
}

#[test]
fn encode_rejects_oversize() {
    // One more byte than above: the encoded text reaches 256 bytes.
    let m = msg("A", &"a".repeat(231));
    assert_eq!(encode(&m), Err(EncodeError::Oversize));
    let far_too_long = msg("A", &"a".repeat(1000));
    assert_eq!(encode(&far_too_long), Err(EncodeError::Oversize));
}

#[test]
fn decode_rejects_bad_utf8() {
    let frame = frame_of(&[0xFF, 0xFE, 0x80]);
    assert_eq!(decode(&frame), Err(DecodeError::NotUtf8));
}

#[test]
fn decode_rejects_bad_json() {
    let frame = frame_of(b"hello there");
    assert_eq!(decode(&frame), Err(DecodeError::NotJson));
}

#[test]
fn decode_rejects_empty_content() {
    let frame = frame_of(b"");
    assert_eq!(decode(&frame), Err(DecodeError::NotJson));
}

#[test]
fn decode_rejects_missing_message() {
    let frame = frame_of(b"{\"name\":\"a\"}");
    assert_eq!(decode(&frame), Err(DecodeError::MissingField));
}

#[test]
fn decode_rejects_missing_name() {
    let frame = frame_of(b"{\"message\":\"a\"}");
    assert_eq!(decode(&frame), Err(DecodeError::MissingField));
}

#[test]
fn decode_rejects_non_string_field() {
    let frame = frame_of(b"{\"name\":1,\"message\":\"x\"}");
    assert_eq!(decode(&frame), Err(DecodeError::MissingField));
}

#[test]
fn decode_rejects_non_object_document() {
    let frame = frame_of(b"[1,2]");
    assert_eq!(decode(&frame), Err(DecodeError::MissingField));
}

#[test]
fn decode_stops_at_first_zero() {
    let mut frame = frame_of(b"{\"name\":\"a\",\"message\":\"b\"}");
    // Garbage after the first zero byte must not matter.
    frame[100] = 0xFF;
    assert_eq!(decode(&frame).unwrap(), msg("a", "b"));
}

#[test]
fn decode_accepts_full_frame_without_padding() {
    // A frame whose content fills all 256 bytes has no zero byte; the whole
    // frame is the content.
    let text = "a".repeat(231);
    let mut content = b"{\"name\":\"A\",\"message\":\"".to_vec();
    content.extend_from_slice(text.as_bytes());
    content.extend_from_slice(b"\"}");
    assert_eq!(content.len(), FRAME_LEN);
    assert_eq!(decode(&content).unwrap(), msg("A", &text));
}
