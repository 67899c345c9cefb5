use rtx::line_reader::{LineReader, Overflow};

#[test]
fn no_terminator_returns_none() {
    let mut r: LineReader<64> = LineReader::new();
    assert_eq!(r.feed(b"hello").unwrap(), None);
}

#[test]
fn simple_lf_line() {
    let mut r: LineReader<64> = LineReader::new();
    assert_eq!(r.feed(b"hello\n").unwrap(), Some(&b"hello"[..]));
}

#[test]
fn simple_crlf_line() {
    let mut r: LineReader<64> = LineReader::new();
    assert_eq!(r.feed(b"hello\r\n").unwrap(), Some(&b"hello"[..]));
}

#[test]
fn line_accumulated_over_multiple_feeds() {
    let mut r: LineReader<64> = LineReader::new();
    assert_eq!(r.feed(b"hel").unwrap(), None);
    assert_eq!(r.feed(b"lo").unwrap(), None);
    assert_eq!(r.feed(b"\n").unwrap(), Some(&b"hello"[..]));
}

#[test]
fn crlf_split_across_feed_calls() {
    // \r and \n arrive in separate feed() calls; this should still
    // yield exactly one line, with the \r stripped.
    let mut r: LineReader<64> = LineReader::new();
    assert_eq!(r.feed(b"hello\r").unwrap(), None);
    assert_eq!(r.feed(b"\n").unwrap(), Some(&b"hello"[..]));
}

#[test]
fn empty_line() {
    let mut r: LineReader<64> = LineReader::new();
    assert_eq!(r.feed(b"\n").unwrap(), Some(&b""[..]));
}

#[test]
fn empty_crlf_line() {
    let mut r: LineReader<64> = LineReader::new();
    assert_eq!(r.feed(b"\r\n").unwrap(), Some(&b""[..]));
}

#[test]
fn reader_resets_after_line_and_starts_new_line() {
    let mut r: LineReader<64> = LineReader::new();
    assert_eq!(r.feed(b"first\n").unwrap(), Some(&b"first"[..]));
    // Next feed should start a fresh buffer, not append to the old one.
    assert_eq!(r.feed(b"second").unwrap(), None);
    assert_eq!(r.feed(b"\n").unwrap(), Some(&b"second"[..]));
}

#[test]
fn bare_cr_without_lf_does_not_terminate() {
    // Only \n terminates a line; a lone \r is retained in the buffer
    // (and stripped later if followed by \n).
    let mut r: LineReader<64> = LineReader::new();
    assert_eq!(r.feed(b"a\rb").unwrap(), None);
    assert_eq!(r.feed(b"\n").unwrap(), Some(&b"a\rb"[..]));
}

#[test]
fn buffer_overflow_returns_err() {
    let mut r: LineReader<4> = LineReader::new();
    assert_eq!(r.feed(b"12345"), Err(Overflow));
}

#[test]
fn buffer_exact_capacity_then_terminator_ok() {
    let mut r: LineReader<4> = LineReader::new();
    assert_eq!(r.feed(b"1234").unwrap(), None);
    assert_eq!(r.feed(b"\n").unwrap(), Some(&b"1234"[..]));
}

#[test]
fn multiple_lines_one_at_a_time() {
    let mut r: LineReader<64> = LineReader::new();
    assert_eq!(r.feed(b"one\n").unwrap(), Some(&b"one"[..]));
    assert_eq!(r.feed(b"two\n").unwrap(), Some(&b"two"[..]));
    assert_eq!(r.feed(b"three\n").unwrap(), Some(&b"three"[..]));
}

#[test]
fn new_reader_is_not_ended() {
    let r: LineReader<64> = LineReader::new();
    assert_eq!(r.ended(), false);
    assert_eq!(r.len(), 0);
}

#[test]
fn default_reader_is_empty() {
    let r: LineReader<8> = LineReader::default();
    assert!(!r.ended());
    assert_eq!(r.len(), 0);
}

#[test]
fn bytes_after_the_line_feed_are_not_read() {
    let mut r: LineReader<64> = LineReader::new();
    assert_eq!(r.feed(b"one\ntwo").unwrap(), Some(&b"one"[..]));
    assert!(r.ended());
    assert_eq!(r.len(), 3);
    assert_eq!(r.feed(b"\n").unwrap(), Some(&b""[..]));
}

#[test]
fn overflow_keeps_the_first_bytes_and_a_line_feed_ends_them() {
    let mut r: LineReader<4> = LineReader::new();
    assert_eq!(r.feed(b"123456"), Err(Overflow));
    assert_eq!(r.len(), 4);
    assert!(!r.ended());
    assert_eq!(r.feed(b"7"), Err(Overflow));
    assert_eq!(r.feed(b"\n").unwrap(), Some(&b"1234"[..]));
}

#[test]
fn overflow_across_feeds() {
    let mut r: LineReader<4> = LineReader::new();
    assert_eq!(r.feed(b"123").unwrap(), None);
    assert_eq!(r.feed(b"45\n"), Err(Overflow));
}

#[test]
fn zero_capacity_reader_only_takes_empty_lines() {
    let mut r: LineReader<0> = LineReader::new();
    assert_eq!(r.feed(b"\n").unwrap(), Some(&b""[..]));
    assert_eq!(r.feed(b"a"), Err(Overflow));
}

#[test]
fn only_one_carriage_return_is_stripped() {
    let mut r: LineReader<64> = LineReader::new();
    assert_eq!(r.feed(b"x\r\r\n").unwrap(), Some(&b"x\r"[..]));
}

#[test]
fn split_feed_law_on_values() {
    let mut a: LineReader<16> = LineReader::new();
    let mut b: LineReader<16> = LineReader::new();
    assert_eq!(a.feed(b"G1 ").unwrap(), None);
    let split = a.feed(b"X5\nrest").unwrap().map(|l| l.to_vec());
    let whole = b.feed(b"G1 X5\nrest").unwrap().map(|l| l.to_vec());
    assert_eq!(split, whole);
    assert_eq!(split, Some(b"G1 X5".to_vec()));
}

#[test]
fn fresh_after_line_law_on_values() {
    let mut used: LineReader<16> = LineReader::new();
    assert_eq!(used.feed(b"old line\n").unwrap(), Some(&b"old line"[..]));
    let mut fresh: LineReader<16> = LineReader::new();
    let a = used.feed(b"new\n").unwrap().map(|l| l.to_vec());
    let b = fresh.feed(b"new\n").unwrap().map(|l| l.to_vec());
    assert_eq!(a, b);
}

#[test]
fn overflow_message() {
    assert_eq!(Overflow.message(), "Line length overflow");
}
