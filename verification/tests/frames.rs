use cyclone::frames::{frame, LineReader, LINE_END};
use cyclone::lang_server::{DecodeError, LangServerQualificationCheckMessage};

#[test]
fn a_line_ends_with_a_line_feed() {
    assert_eq!(LINE_END, b'\n');
    assert_eq!(frame("{}"), b"{}\n".to_vec());
    assert_eq!(frame(""), b"\n".to_vec());
    assert_eq!(frame("\u{e9}"), vec![0xc3, 0xa9, b'\n']);
}

#[test]
fn a_reader_hands_out_whole_lines_only() {
    let mut reader = LineReader::new();
    assert_eq!(reader.next_line(), None);
    reader.feed(b"ab");
    assert_eq!(reader.next_line(), None);
    reader.feed(b"c\nde");
    assert_eq!(reader.next_line(), Some(b"abc".to_vec()));
    assert_eq!(reader.next_line(), None);
    reader.feed(b"\n\nf");
    assert_eq!(reader.next_line(), Some(b"de".to_vec()));
    assert_eq!(reader.next_line(), Some(Vec::new()));
    assert_eq!(reader.next_line(), None);
    assert_eq!(reader.take_rest(), Some(b"f".to_vec()));
    assert_eq!(reader.take_rest(), None);
    assert_eq!(reader.next_line(), None);
}

#[test]
fn a_frame_that_is_fed_comes_back_as_its_line() {
    let mut reader = LineReader::new();
    reader.feed(&frame("{\"executionId\":\"e1\"}"));
    assert_eq!(reader.next_line(), Some(b"{\"executionId\":\"e1\"}".to_vec()));
    assert_eq!(reader.take_rest(), None);
}

#[test]
fn nothing_fed_changes_nothing() {
    let mut reader = LineReader::new();
    reader.feed(b"x");
    reader.feed(b"");
    assert_eq!(reader.take_rest(), Some(b"x".to_vec()));
}

#[test]
fn a_record_is_read_from_bytes() {
    assert!(LangServerQualificationCheckMessage::deserialize_from_slice(
        b"{\"protocol\":\"result\",\"status\":\"failure\",\"error\":{\"kind\":\"k\",\"message\":\"m\"}}\r"
    )
    .is_ok());
    assert!(matches!(
        LangServerQualificationCheckMessage::deserialize_from_slice(&[0xc3, 0x28]),
        Err(DecodeError::Syntax(_))
    ));
    assert!(matches!(
        LangServerQualificationCheckMessage::deserialize_from_slice(b""),
        Err(DecodeError::Syntax(_))
    ));
}
