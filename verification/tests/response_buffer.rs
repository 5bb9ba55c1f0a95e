use mpvsock::io::{IoErrorKind, IoFailure};
use mpvsock::response_buffer::{ResponseBuffer, LINE_DELIM};

fn drain(buffer: &mut ResponseBuffer) -> Vec<Vec<u8>> {
    let mut lines = Vec::new();
    while let Some(line) = buffer.consume_line() {
        lines.push(line.to_vec());
    }
    lines
}

#[test]
fn line_delimiter_is_newline() {
    assert_eq!(LINE_DELIM, b'\n');
}

#[test]
fn consume_line_yields_nothing_on_empty_buffer() {
    let mut buffer = ResponseBuffer::new();
    assert!(buffer.consume_line().is_none());
}

#[test]
fn consume_line_yields_lines_in_order() {
    let mut buffer = ResponseBuffer::new();
    buffer.read_nonblocking(b"first\nsecond\nthi", Ok(())).unwrap();
    assert_eq!(buffer.consume_line(), Some(&b"first"[..]));
    assert_eq!(buffer.consume_line(), Some(&b"second"[..]));
    assert_eq!(buffer.consume_line(), None);
    buffer.read_nonblocking(b"rd\n", Ok(())).unwrap();
    assert_eq!(buffer.consume_line(), Some(&b"third"[..]));
    assert_eq!(buffer.consume_line(), None);
}

#[test]
fn consume_line_yields_empty_lines() {
    let mut buffer = ResponseBuffer::new();
    buffer.read_nonblocking(b"\n\na\n", Ok(())).unwrap();
    assert_eq!(drain(&mut buffer), vec![b"".to_vec(), b"".to_vec(), b"a".to_vec()]);
}

#[test]
fn partial_line_yields_nothing_and_is_kept() {
    let mut buffer = ResponseBuffer::new();
    buffer.read_nonblocking(b"{\"event\":", Ok(())).unwrap();
    assert_eq!(buffer.consume_line(), None);
    assert_eq!(buffer.consume_line(), None);
    buffer.read_nonblocking(b"\"seek\"}\n", Ok(())).unwrap();
    assert_eq!(buffer.consume_line(), Some(&b"{\"event\":\"seek\"}"[..]));
}

#[test]
fn lines_do_not_depend_on_chunking() {
    let stream = b"alpha\nbeta\n\ngamma delta\nrest";
    let expected = vec![b"alpha".to_vec(), b"beta".to_vec(), b"".to_vec(), b"gamma delta".to_vec()];
    for size in 1..=stream.len() {
        let mut buffer = ResponseBuffer::new();
        let mut lines = Vec::new();
        for chunk in stream.chunks(size) {
            buffer.read_nonblocking(chunk, Ok(())).unwrap();
            lines.extend(drain(&mut buffer));
        }
        assert_eq!(lines, expected, "chunks of {}", size);
        assert_eq!(buffer.consume_line(), None);
    }
}

#[test]
fn shift_keeps_unconsumed_bytes() {
    let mut buffer = ResponseBuffer::new();
    buffer.read_nonblocking(b"one\ntwo\nthr", Ok(())).unwrap();
    assert_eq!(buffer.consume_line(), Some(&b"one"[..]));
    buffer.shift();
    assert_eq!(buffer.consume_line(), Some(&b"two"[..]));
    buffer.shift();
    buffer.shift();
    assert_eq!(buffer.consume_line(), None);
    buffer.read_nonblocking(b"ee\n", Ok(())).unwrap();
    assert_eq!(buffer.consume_line(), Some(&b"three"[..]));
}

#[test]
fn shift_gives_the_same_lines_as_no_shift() {
    let stream = b"a\nbb\nccc\ndddd\n";
    let mut plain = ResponseBuffer::new();
    let mut shifted = ResponseBuffer::new();
    plain.read_nonblocking(stream, Ok(())).unwrap();
    shifted.read_nonblocking(stream, Ok(())).unwrap();
    loop {
        shifted.shift();
        let left = plain.consume_line().map(|line| line.to_vec());
        let right = shifted.consume_line().map(|line| line.to_vec());
        assert_eq!(left, right);
        if left.is_none() {
            break;
        }
    }
}

#[test]
fn would_block_is_not_an_error() {
    let mut buffer = ResponseBuffer::new();
    let outcome = Err(IoFailure { kind: IoErrorKind::WouldBlock, code: Some(11) });
    assert!(buffer.read_nonblocking(b"a\n", outcome).is_ok());
    assert_eq!(buffer.consume_line(), Some(&b"a"[..]));
}

#[test]
fn other_read_failures_are_handed_back_and_bytes_kept() {
    let mut buffer = ResponseBuffer::new();
    let failure = IoFailure { kind: IoErrorKind::Other, code: Some(104) };
    assert_eq!(buffer.read_nonblocking(b"a\n", Err(failure)), Err(failure));
    assert_eq!(buffer.consume_line(), Some(&b"a"[..]));
}

/// Reads from `source` byte by byte for as long as the buffer says to read on.
fn read_line_blocking(buffer: &mut ResponseBuffer, source: &mut std::slice::Iter<u8>) {
    while buffer.read_blocking(source.next().map(|byte| Ok(*byte))).unwrap() {}
}

#[test]
fn read_blocking_stops_at_delimiter() {
    let mut buffer = ResponseBuffer::new();
    assert_eq!(buffer.read_blocking(Some(Ok(b'h'))), Ok(true));
    assert_eq!(buffer.consume_line(), None);
    assert_eq!(buffer.read_blocking(Some(Ok(b'i'))), Ok(true));
    assert_eq!(buffer.read_blocking(Some(Ok(b'\n'))), Ok(false));
    assert_eq!(buffer.consume_line(), Some(&b"hi"[..]));
    assert_eq!(buffer.consume_line(), None);
}

#[test]
fn read_blocking_keeps_lines_apart() {
    let mut buffer = ResponseBuffer::new();
    let mut source = b"ab\ncd\n\nrest".iter();
    read_line_blocking(&mut buffer, &mut source);
    assert_eq!(buffer.consume_line(), Some(&b"ab"[..]));
    assert_eq!(buffer.consume_line(), None);
    read_line_blocking(&mut buffer, &mut source);
    assert_eq!(buffer.consume_line(), Some(&b"cd"[..]));
    read_line_blocking(&mut buffer, &mut source);
    assert_eq!(buffer.consume_line(), Some(&b""[..]));
    read_line_blocking(&mut buffer, &mut source);
    assert_eq!(buffer.consume_line(), None);
    buffer.read_nonblocking(b"\n", Ok(())).unwrap();
    assert_eq!(buffer.consume_line(), Some(&b"rest"[..]));
}

#[test]
fn read_from_appends_what_one_read_gave() {
    let mut buffer = ResponseBuffer::new();
    assert_eq!(buffer.read_from(b"on", Ok(())), Ok(()));
    assert_eq!(buffer.consume_line(), None);
    assert_eq!(buffer.read_from(b"e\ntw", Ok(())), Ok(()));
    assert_eq!(buffer.consume_line(), Some(&b"one"[..]));
    let would_block = IoFailure { kind: IoErrorKind::WouldBlock, code: None };
    assert_eq!(buffer.read_from(b"", Err(would_block)), Ok(()));
    let broken = IoFailure { kind: IoErrorKind::Other, code: Some(5) };
    assert_eq!(buffer.read_from(b"o\n", Err(broken)), Err(broken));
    assert_eq!(buffer.consume_line(), Some(&b"two"[..]));
    assert_eq!(buffer.consume_line(), None);
}

#[test]
fn read_blocking_stops_at_end_and_would_block() {
    let mut buffer = ResponseBuffer::new();
    assert_eq!(buffer.read_blocking(None), Ok(false));
    let would_block = IoFailure { kind: IoErrorKind::WouldBlock, code: None };
    assert_eq!(buffer.read_blocking(Some(Err(would_block))), Ok(false));
    let broken = IoFailure { kind: IoErrorKind::Other, code: Some(32) };
    assert_eq!(buffer.read_blocking(Some(Err(broken))), Err(broken));
}
