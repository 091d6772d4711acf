use rgbnode::serial::{DecodeError, InputLine, PortRead, LINE_CAPACITY};

#[test]
fn new_buffer_is_empty() {
    let input = InputLine::new();
    assert_eq!(input.as_bytes(), b"");
    assert_eq!(input.length(), 0);
    assert_eq!(input.term(), 0);
    assert_eq!(input.to_str(), Ok(""));
}

#[test]
fn three_chunks_give_two_lines() {
    let mut input = InputLine::new();
    assert!(input.push_data(b"on\n"));
    assert_eq!(input.to_str(), Ok("on\n"));
    assert_eq!(input.to_str().unwrap().trim_end(), "on");
    input.discard();
    assert_eq!(input.length(), 0);
    assert!(!input.push_data(b"of"));
    assert_eq!(input.length(), 2);
    assert_eq!(input.term(), 0);
    assert!(input.push_data(b"f\n"));
    assert_eq!(input.to_str(), Ok("off\n"));
    assert_eq!(input.to_str().unwrap().trim_end(), "off");
    input.discard();
    assert_eq!(input.length(), 0);
    assert_eq!(input.term(), 0);
}

#[test]
fn terminator_is_just_past_the_first_newline_of_the_chunk() {
    let mut input = InputLine::new();
    assert!(!input.push_data(b"ab"));
    assert!(input.push_data(b"cd\nef\ngh"));
    assert_eq!(input.term(), 5);
    assert_eq!(input.length(), 10);
    assert_eq!(input.as_bytes(), b"abcd\nef\ngh");
    assert_eq!(input.to_str(), Ok("abcd\n"));
}

#[test]
fn discard_keeps_what_follows_the_line() {
    let mut input = InputLine::new();
    assert!(input.push_data(b"red 1\nblue 2"));
    assert_eq!(input.to_str(), Ok("red 1\n"));
    input.discard();
    assert_eq!(input.length(), 6);
    assert_eq!(input.term(), 0);
    assert_eq!(input.as_bytes(), b"blue 2");
    assert!(input.push_data(b"\n"));
    assert_eq!(input.to_str(), Ok("blue 2\n"));
}

#[test]
fn only_the_new_chunk_is_searched() {
    let mut input = InputLine::new();
    assert!(input.push_data(b"a\nb\n"));
    assert_eq!(input.term(), 2);
    input.discard();
    assert_eq!(input.length(), 2);
    assert!(!input.push_data(b"c"));
    assert_eq!(input.term(), 0);
    assert!(input.push_data(b"\n"));
    assert_eq!(input.term(), 4);
    assert_eq!(input.to_str(), Ok("b\nc\n"));
}

#[test]
fn discard_without_a_line_changes_nothing() {
    let mut input = InputLine::new();
    assert!(!input.push_data(b"abc"));
    input.discard();
    assert_eq!(input.length(), 3);
    assert_eq!(input.term(), 0);
}

#[test]
fn clear_empties_the_buffer() {
    let mut input = InputLine::new();
    assert!(input.push_data(b"abc\nde"));
    input.clear();
    assert_eq!(input.length(), 0);
    assert_eq!(input.term(), 0);
    assert_eq!(input.to_str(), Ok(""));
}

#[test]
fn a_chunk_that_fills_the_buffer_is_taken() {
    let mut input = InputLine::new();
    let mut chunk = vec![b'x'; LINE_CAPACITY - 1];
    chunk.push(b'\n');
    assert!(input.push_data(&chunk));
    assert_eq!(input.length(), LINE_CAPACITY);
    assert_eq!(input.term(), LINE_CAPACITY);
}

#[test]
fn a_chunk_that_does_not_fit_is_rejected() {
    let mut input = InputLine::new();
    assert!(!input.push_data(&[b'x'; 100]));
    assert_eq!(input.length(), 100);
    assert!(!input.push_data(b"0123456789012345678901234567\n"));
    assert_eq!(input.length(), 0);
    assert_eq!(input.term(), 0);
    assert!(input.push_data(b"ok\n"));
    assert_eq!(input.to_str(), Ok("ok\n"));
}

#[test]
fn a_chunk_longer_than_the_buffer_is_rejected() {
    let mut input = InputLine::new();
    assert!(!input.push_data(&[b'\n'; LINE_CAPACITY + 1]));
    assert_eq!(input.length(), 0);
    assert_eq!(input.term(), 0);
}

#[test]
fn bytes_that_are_not_text_are_an_error() {
    let mut input = InputLine::new();
    assert!(input.push_data(&[b'r', 0xff, 0xfe, b'\n']));
    assert_eq!(input.to_str(), Err(DecodeError));
}

#[test]
fn text_beyond_ascii_is_accepted() {
    let mut input = InputLine::new();
    assert!(input.push_data("gr\u{fc}n\n".as_bytes()));
    assert_eq!(input.to_str(), Ok("gr\u{fc}n\n"));
}

#[test]
fn only_the_line_is_decoded() {
    let mut input = InputLine::new();
    assert!(input.push_data(&[b'o', b'k', b'\n', 0xff]));
    assert_eq!(input.to_str(), Ok("ok\n"));
}

#[test]
fn poll_read_pushes_data() {
    let mut input = InputLine::new();
    assert!(!input.poll_read(PortRead::Data(b"in")));
    assert!(input.poll_read(PortRead::Data(b"dexup\n")));
    assert_eq!(input.to_str(), Ok("indexup\n"));
}

#[test]
fn poll_read_of_a_quiet_port_changes_nothing() {
    let mut input = InputLine::new();
    assert!(!input.poll_read(PortRead::Data(b"abc")));
    assert!(!input.poll_read(PortRead::Quiet));
    assert!(!input.poll_read(PortRead::Data(b"")));
    assert_eq!(input.length(), 3);
    assert_eq!(input.term(), 0);
}

#[test]
fn poll_read_of_a_failed_port_clears() {
    let mut input = InputLine::new();
    assert!(!input.poll_read(PortRead::Data(b"abc")));
    assert!(!input.poll_read(PortRead::Failed));
    assert_eq!(input.length(), 0);
    assert_eq!(input.term(), 0);
}
