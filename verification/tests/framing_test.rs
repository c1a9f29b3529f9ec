use dart_re_analyzer::lsp::framing::{
    classify_header_line, find_line_end, header_step, read_body, read_message, write_message,
    HeaderLine, HeaderState, HeaderStep, ProtocolError,
};

fn decode_one(input: &[u8]) -> (String, usize, usize) {
    let frame = read_message(input).unwrap().unwrap();
    (frame.message.content, frame.message.content_length, frame.consumed)
}

#[test]
fn write_message_writes_header_and_payload() {
    assert_eq!(write_message("{}"), b"Content-Length: 2\r\n\r\n{}".to_vec());
    assert_eq!(write_message(""), b"Content-Length: 0\r\n\r\n".to_vec());
    assert_eq!(
        write_message("0123456789"),
        b"Content-Length: 10\r\n\r\n0123456789".to_vec()
    );
}

#[test]
fn length_is_counted_in_bytes() {
    let out = write_message("héllo€");
    assert_eq!(out, "Content-Length: 9\r\n\r\nhéllo€".as_bytes().to_vec());
}

#[test]
fn round_trip_gives_the_payload_back() {
    for payload in [
        "",
        "{}",
        "{\"jsonrpc\":\"2.0\",\"method\":\"initialized\"}",
        "héllo wörld € 日本語 🎉",
        "line one\r\n\r\nline three\n\n",
        "Content-Length: 5\r\n\r\nhello",
    ] {
        let bytes = write_message(payload);
        let (content, declared, consumed) = decode_one(&bytes);
        assert_eq!(content, payload);
        assert_eq!(declared, payload.len());
        assert_eq!(consumed, bytes.len());
    }
}

#[test]
fn decoding_takes_one_frame_and_leaves_the_rest() {
    let mut stream = write_message("first");
    let second = write_message("second one");
    stream.extend_from_slice(&second);
    let (content, _, consumed) = decode_one(&stream);
    assert_eq!(content, "first");
    assert_eq!(consumed, stream.len() - second.len());
    let (content, _, consumed2) = decode_one(&stream[consumed..]);
    assert_eq!(content, "second one");
    assert_eq!(consumed2, second.len());
    assert!(read_message(&stream[consumed + consumed2..]).unwrap().is_none());
}

#[test]
fn empty_input_is_the_end_of_the_stream() {
    assert!(read_message(b"").unwrap().is_none());
}

#[test]
fn truncated_payload_is_an_error() {
    let bytes = write_message("hello world");
    for cut in 1..=11 {
        let short = &bytes[..bytes.len() - cut];
        assert_eq!(read_message(short).unwrap_err(), ProtocolError::TruncatedPayload);
    }
    assert_eq!(
        read_message(b"Content-Length: 5\r\n\r\nabc").unwrap_err(),
        ProtocolError::TruncatedPayload
    );
}

#[test]
fn truncated_header_is_an_error() {
    assert_eq!(read_message(b"Content-Length: 5").unwrap_err(), ProtocolError::TruncatedHeader);
    assert_eq!(read_message(b"Content-Length: 5\r\n").unwrap_err(), ProtocolError::TruncatedHeader);
    assert_eq!(read_message(b"Content-").unwrap_err(), ProtocolError::TruncatedHeader);
}

#[test]
fn missing_length_is_an_error() {
    assert_eq!(read_message(b"\r\n{}").unwrap_err(), ProtocolError::MissingContentLength);
    assert_eq!(
        read_message(b"Content-Type: text\r\n\r\n{}").unwrap_err(),
        ProtocolError::MissingContentLength
    );
}

#[test]
fn unparsable_length_is_an_error() {
    for header in [
        "Content-Length: abc\r\n\r\n",
        "Content-Length: -1\r\n\r\n",
        "Content-Length: 1 2\r\n\r\n",
        "Content-Length:  5\r\n\r\nhello",
        "Content-Length: +\r\n\r\n",
        "Content-Length: 5x\r\n\r\nhello",
        "Content-Length: 99999999999999999999999999\r\n\r\n",
    ] {
        assert_eq!(
            read_message(header.as_bytes()).unwrap_err(),
            ProtocolError::InvalidContentLength,
            "{}",
            header
        );
    }
}

#[test]
fn header_that_is_not_text_is_an_error() {
    assert_eq!(
        read_message(b"X: \xff\xfe\r\nContent-Length: 2\r\n\r\n{}").unwrap_err(),
        ProtocolError::InvalidHeader
    );
}

#[test]
fn payload_that_is_not_text_is_an_error() {
    assert_eq!(
        read_message(b"Content-Length: 2\r\n\r\n\xff\xfe").unwrap_err(),
        ProtocolError::InvalidPayload
    );
}

#[test]
fn other_headers_are_ignored_and_the_last_length_counts() {
    let input = b"Content-Type: application/vscode-jsonrpc\r\nContent-Length: 9\r\nX-Other: 1\r\nContent-Length: +2\r\n\r\n{}rest";
    let (content, declared, consumed) = decode_one(input);
    assert_eq!(content, "{}");
    assert_eq!(declared, 2);
    assert_eq!(consumed, input.len() - 4);
}

#[test]
fn lines_may_end_in_a_bare_line_feed_and_carry_white_space() {
    let (content, _, _) = decode_one(b"  Content-Length: 3 \t\n \t \nabc");
    assert_eq!(content, "abc");
    let (content, _, _) = decode_one("\u{a0}Content-Length: 1\u{2003}\n\u{3000}\nx".as_bytes());
    assert_eq!(content, "x");
}

#[test]
fn header_lines_are_classified() {
    assert_eq!(classify_header_line(b"\r\n"), HeaderLine::Blank);
    assert_eq!(classify_header_line(b""), HeaderLine::Blank);
    assert_eq!(classify_header_line(b"Content-Length: 42\r\n"), HeaderLine::ContentLength(42));
    assert_eq!(classify_header_line(b"Content-Length: 007\n"), HeaderLine::ContentLength(7));
    assert_eq!(classify_header_line(b"content-length: 42\r\n"), HeaderLine::Other);
    assert_eq!(classify_header_line(b"Content-Length:42\r\n"), HeaderLine::Other);
    assert_eq!(
        classify_header_line(b"Content-Length: \r\n"),
        HeaderLine::Other
    );
    assert_eq!(
        classify_header_line(b"Content-Length: x\r\n"),
        HeaderLine::Malformed(ProtocolError::InvalidContentLength)
    );
    assert_eq!(
        classify_header_line(b"\xc3\x28\r\n"),
        HeaderLine::Malformed(ProtocolError::InvalidHeader)
    );
}

#[test]
fn line_ends_after_the_line_feed() {
    assert_eq!(find_line_end(b"ab\ncd\n", 0), 3);
    assert_eq!(find_line_end(b"ab\ncd\n", 3), 6);
    assert_eq!(find_line_end(b"ab\ncd", 3), 5);
    assert_eq!(find_line_end(b"ab", 2), 2);
}

#[test]
fn body_is_read_from_its_start() {
    let frame = read_body(b"xxhello!", 2, 5).unwrap();
    assert_eq!(frame.message.content, "hello");
    assert_eq!(frame.message.content_length, 5);
    assert_eq!(frame.consumed, 7);
    assert_eq!(read_body(b"xxhello", 2, 6).unwrap_err(), ProtocolError::TruncatedPayload);
    assert_eq!(read_body(b"ab", 2, usize::MAX).unwrap_err(), ProtocolError::TruncatedPayload);
}

fn state(length: Option<usize>, started: bool) -> HeaderState {
    HeaderState { length, started }
}

fn same(a: HeaderStep, b: HeaderStep) -> bool {
    match (a, b) {
        (HeaderStep::More(x), HeaderStep::More(y)) => x.length == y.length && x.started == y.started,
        (HeaderStep::Body(x), HeaderStep::Body(y)) => x == y,
        (HeaderStep::End, HeaderStep::End) => true,
        (HeaderStep::Failed(x), HeaderStep::Failed(y)) => x == y,
        _ => false,
    }
}

#[test]
fn a_reader_is_told_what_to_read_next() {
    let start = HeaderState::new();
    assert!(start.length.is_none() && !start.started);
    assert!(same(header_step(start, b""), HeaderStep::End));
    assert!(same(
        header_step(state(None, true), b""),
        HeaderStep::Failed(ProtocolError::TruncatedHeader)
    ));
    assert!(same(
        header_step(state(Some(3), true), b""),
        HeaderStep::Failed(ProtocolError::TruncatedHeader)
    ));
    assert!(same(
        header_step(start, b"Content-Length: 12\r\n"),
        HeaderStep::More(state(Some(12), true))
    ));
    assert!(same(
        header_step(state(Some(12), true), b"Content-Length: 7\n"),
        HeaderStep::More(state(Some(7), true))
    ));
    assert!(same(
        header_step(state(Some(12), true), b"Content-Type: x\r\n"),
        HeaderStep::More(state(Some(12), true))
    ));
    assert!(same(header_step(start, b"X: y\r\n"), HeaderStep::More(state(None, true))));
    assert!(same(header_step(state(Some(12), true), b"\r\n"), HeaderStep::Body(12)));
    assert!(same(header_step(state(Some(0), true), b"\r"), HeaderStep::Body(0)));
    assert!(same(
        header_step(start, b"\r\n"),
        HeaderStep::Failed(ProtocolError::MissingContentLength)
    ));
    assert!(same(
        header_step(start, b"Content-Length: x\r\n"),
        HeaderStep::Failed(ProtocolError::InvalidContentLength)
    ));
    assert!(same(
        header_step(state(Some(1), true), b"\xff\n"),
        HeaderStep::Failed(ProtocolError::InvalidHeader)
    ));
}

#[test]
fn reading_by_steps_gives_what_decoding_the_buffer_gives() {
    for input in [
        &b""[..],
        b"Content-Length: 2\r\n\r\n{}rest",
        b"Content-Length: 2\r\n\r\n{",
        b"Content-Length: 2\r\n",
        b"Content-Length: 2",
        b"\r\n",
        b"A: b\nContent-Length: 1\nContent-Length: 3\n\nabcd",
        b"Content-Length: 1\r\n\r\n\xff",
        b"Content-Length: z\r\n\r\n",
    ] {
        let mut reader = std::io::Cursor::new(input);
        let mut state = HeaderState::new();
        let by_steps: Result<Option<(String, usize)>, ProtocolError> = loop {
            let mut line = Vec::new();
            std::io::BufRead::read_until(&mut reader, b'\n', &mut line).unwrap();
            match header_step(state, &line) {
                HeaderStep::More(next) => state = next,
                HeaderStep::End => break Ok(None),
                HeaderStep::Failed(e) => break Err(e),
                HeaderStep::Body(n) => {
                    let mut content = Vec::new();
                    let mut part = std::io::Read::take(&mut reader, n as u64);
                    std::io::Read::read_to_end(&mut part, &mut content).unwrap();
                    break read_body(&content, 0, n)
                        .map(|f| Some((f.message.content, reader.position() as usize)));
                }
            }
        };
        let at_once = read_message(input).map(|f| f.map(|f| (f.message.content, f.consumed)));
        assert_eq!(by_steps, at_once, "{:?}", input);
    }
}
