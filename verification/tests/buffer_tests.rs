use serial_expect::buffer::{contains_terminator, LineBuffer};
use serial_expect::text::slice_text;

#[test]
fn terminator_is_line_feed_or_carriage_return() {
    assert!(contains_terminator(b"\n"));
    assert!(contains_terminator(b"\r"));
    assert!(contains_terminator(b"abc\r\n"));
    assert!(contains_terminator(b"a\nb"));
    assert!(contains_terminator(&[0x00, 0x0D]));
}

#[test]
fn no_terminator_in_other_bytes() {
    assert!(!contains_terminator(b""));
    assert!(!contains_terminator(b"login: "));
    assert!(!contains_terminator(&[0x09, 0x0B, 0x0C, 0x0E, 0x00, 0xFF]));
}

#[test]
fn buffer_begins_empty_and_grows_in_order() {
    let mut buffer = LineBuffer::new();
    assert_eq!(buffer.len(), 0);
    assert_eq!(buffer.text(), "");
    buffer.absorb(b"ab");
    buffer.absorb(b"");
    buffer.absorb(b"c");
    assert_eq!(buffer.len(), 3);
    assert_eq!(buffer.text(), "abc");
    buffer.clear();
    assert_eq!(buffer.len(), 0);
}

#[test]
fn buffer_text_replaces_malformed_bytes() {
    let mut buffer = LineBuffer::new();
    buffer.absorb(&[b'a', 0xC3]);
    assert_eq!(buffer.text(), "a\u{FFFD}");
    buffer.absorb(&[0xA9]);
    assert_eq!(buffer.text(), "aé");
}

#[test]
fn settle_on_a_match_cuts_it_out_and_discards() {
    let mut buffer = LineBuffer::new();
    buffer.absorb(b"say login: now");
    let matched = buffer.settle(b"say login: now", "say login: now", Some((4, 10)));
    assert_eq!(matched, Some("login:".to_string()));
    assert_eq!(buffer.len(), 0);
}

#[test]
fn settle_without_match_keeps_an_open_line() {
    let mut buffer = LineBuffer::new();
    buffer.absorb(b"log");
    buffer.absorb(b"in");
    let matched = buffer.settle(b"in", "login", None);
    assert_eq!(matched, None);
    assert_eq!(buffer.len(), 5);
    assert_eq!(buffer.text(), "login");
}

#[test]
fn settle_without_match_discards_at_a_terminator() {
    let mut buffer = LineBuffer::new();
    buffer.absorb(b"foo");
    buffer.absorb(b"\nba");
    let matched = buffer.settle(b"\nba", "foo\nba", None);
    assert_eq!(matched, None);
    assert_eq!(buffer.len(), 0);
}

#[test]
fn settle_goes_by_the_last_chunk_only() {
    let mut buffer = LineBuffer::new();
    buffer.absorb(b"a\nb");
    buffer.absorb(b"c");
    let matched = buffer.settle(b"c", "a\nbc", None);
    assert_eq!(matched, None);
    assert_eq!(buffer.len(), 4);
}

#[test]
fn settle_takes_offsets_that_split_a_character_as_no_match() {
    let mut buffer = LineBuffer::new();
    buffer.absorb("é".as_bytes());
    let matched = buffer.settle("é".as_bytes(), "é", Some((0, 1)));
    assert_eq!(matched, None);
    assert_eq!(buffer.len(), 2);
}

#[test]
fn slice_text_cuts_by_byte_offsets() {
    assert_eq!(slice_text("Greek: αβγδ", 7, 15), Some("αβγδ".to_string()));
    assert_eq!(slice_text("Greek: αβγδ", 0, 5), Some("Greek".to_string()));
    assert_eq!(slice_text("abc", 1, 1), Some("".to_string()));
    assert_eq!(slice_text("abc", 0, 3), Some("abc".to_string()));
    assert_eq!(slice_text("", 0, 0), Some("".to_string()));
}

#[test]
fn slice_text_refuses_what_is_no_span() {
    assert_eq!(slice_text("abc", 2, 1), None);
    assert_eq!(slice_text("abc", 0, 4), None);
    assert_eq!(slice_text("abc", 4, 5), None);
    assert_eq!(slice_text("αβ", 1, 2), None);
    assert_eq!(slice_text("αβ", 0, 3), None);
}
