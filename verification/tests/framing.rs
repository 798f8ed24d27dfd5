use lxi::frame::{decode_line, frame_line, remove_newline, CR, LF};

#[test]
fn frame_appends_terminator() {
    assert_eq!(frame_line("*IDN?"), b"*IDN?\r\n".to_vec());
}

#[test]
fn frame_empty_line() {
    assert_eq!(frame_line(""), vec![CR, LF]);
}

#[test]
fn frame_encodes_utf8() {
    assert_eq!(frame_line("hé"), vec![b'h', 0xC3, 0xA9, CR, LF]);
}

#[test]
fn strip_crlf() {
    let mut line = b"abc\r\n".to_vec();
    remove_newline(&mut line);
    assert_eq!(line, b"abc".to_vec());
}

#[test]
fn strip_bare_lf() {
    let mut line = b"abc\n".to_vec();
    remove_newline(&mut line);
    assert_eq!(line, b"abc".to_vec());
}

#[test]
fn strip_without_terminator_keeps_line() {
    let mut line = b"abc".to_vec();
    remove_newline(&mut line);
    assert_eq!(line, b"abc".to_vec());
}

#[test]
fn strip_empty_terminated_line() {
    let mut line = b"\n".to_vec();
    remove_newline(&mut line);
    assert_eq!(line, Vec::<u8>::new());
}

#[test]
fn strip_empty_line() {
    let mut line = Vec::<u8>::new();
    remove_newline(&mut line);
    assert_eq!(line, Vec::<u8>::new());
}

#[test]
fn strip_keeps_lone_cr() {
    let mut line = b"abc\r".to_vec();
    remove_newline(&mut line);
    assert_eq!(line, b"abc\r".to_vec());
}

#[test]
fn strip_keeps_cr_away_from_lf() {
    let mut line = b"ab\rc\n".to_vec();
    remove_newline(&mut line);
    assert_eq!(line, b"ab\rc".to_vec());
}

#[test]
fn strip_removes_one_terminator_only() {
    let mut line = b"abc\r\n\r\n".to_vec();
    remove_newline(&mut line);
    assert_eq!(line, b"abc\r\n".to_vec());
}

#[test]
fn decode_strips_crlf() {
    assert_eq!(decode_line(b"abc\r\n".to_vec()), "abc");
}

#[test]
fn decode_strips_bare_lf() {
    assert_eq!(decode_line(b"abc\n".to_vec()), "abc");
}

#[test]
fn decode_without_terminator() {
    assert_eq!(decode_line(b"abc".to_vec()), "abc");
}

#[test]
fn decode_empty_terminated_line() {
    assert_eq!(decode_line(b"\n".to_vec()), "");
}

#[test]
fn decode_replaces_invalid_bytes() {
    assert_eq!(decode_line(vec![0xFF, b'A', LF]), "\u{FFFD}A");
}

#[test]
fn echo_round_trip() {
    let text = "MEAS:VOLT:DC?";
    let echoed = frame_line(text);
    assert_eq!(decode_line(echoed), text);
}

#[test]
fn echo_round_trip_unicode() {
    let text = "temperatur 21,5 °C";
    let echoed = frame_line(text);
    assert_eq!(decode_line(echoed), text);
}

#[test]
fn identification_exchange_framing() {
    assert_eq!(frame_line("*IDN?"), b"*IDN?\r\n".to_vec());
    assert_eq!(decode_line(b"Emulator\r\n".to_vec()), "Emulator");
}
