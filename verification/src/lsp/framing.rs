//! Framing of protocol messages: a header block that declares the payload's
//! length in bytes, a blank line, then exactly that many bytes of UTF-8 text.

use crate::text::{
    chars_of, decimal, lemma_encode_utf8_concat, parse_usize, parse_usize_at, push_decimal,
    starts_with_at, str_from_utf8, string_of_all, trim, trim_end_index, trim_start_index,
};
use vstd::prelude::*;
use vstd::slice::slice_subrange;
use vstd::utf8::*;

verus! {

/// Why a byte stream is not a frame.
#[derive(Debug, Clone, Copy, PartialEq, Eq, Structural)]
pub enum ProtocolError {
    /// A header line is not UTF-8 text.
    InvalidHeader,
    /// The value of the length field is not an unsigned number.
    InvalidContentLength,
    /// The header block ended without a length field.
    MissingContentLength,
    /// The stream ended inside the header block.
    TruncatedHeader,
    /// The stream ended before the declared number of payload bytes.
    TruncatedPayload,
    /// The payload is not UTF-8 text.
    InvalidPayload,
}

/// A decoded message: the payload and the length its header declared.
#[derive(Debug)]
pub struct LspMessage {
    pub content_length: usize,
    pub content: String,
}

impl LspMessage {
    /// The declared length is the payload's length in bytes.
    pub open spec fn well_formed(&self) -> bool {
        self.content_length == encode_utf8(self.content@).len()
    }
}

/// A message read from the front of a buffer, and the number of bytes that
/// the frame took.
#[derive(Debug)]
pub struct Frame {
    pub message: LspMessage,
    pub consumed: usize,
}

/// What one header line says.
#[derive(Debug, Clone, Copy, PartialEq, Eq, Structural)]
pub enum HeaderLine {
    /// The line is empty but for white space: the header block ends here.
    Blank,
    /// The line declares the payload's length.
    ContentLength(usize),
    /// Some other header, which is ignored.
    Other,
    /// The line cannot be accepted.
    Malformed(ProtocolError),
}

/// The result of decoding a buffer.
pub ghost enum Decoded {
    /// The buffer is empty: the stream was closed in good order.
    End,
    /// The buffer starts with a frame of `consumed` bytes.
    Frame { payload: Seq<char>, consumed: int },
    /// The buffer does not start with a frame.
    Failed(ProtocolError),
}

/// The name of the length field with its separator: `Content-Length: `.
pub open spec fn length_field() -> Seq<char> {
    seq!['C', 'o', 'n', 't', 'e', 'n', 't', '-', 'L', 'e', 'n', 'g', 't', 'h', ':', ' ']
}

/// The end of the only header line and the blank line after it.
pub open spec fn header_end() -> Seq<char> {
    seq!['\r', '\n', '\r', '\n']
}

/// The header block that declares a payload of `n` bytes.
pub open spec fn frame_header(n: nat) -> Seq<char> {
    length_field() + decimal(n) + header_end()
}

/// The frame that carries `payload`.
pub open spec fn encode(payload: Seq<char>) -> Seq<u8> {
    encode_utf8(frame_header(encode_utf8(payload).len())) + encode_utf8(payload)
}

/// What the header line `line` says. The line may still carry its line
/// terminator.
pub open spec fn classify_header(line: Seq<u8>) -> HeaderLine {
    if !valid_utf8(line) {
        HeaderLine::Malformed(ProtocolError::InvalidHeader)
    } else {
        let text = trim(decode_utf8(line));
        if text.len() == 0 {
            HeaderLine::Blank
        } else if length_field().is_prefix_of(text) {
            match parse_usize(text.skip(length_field().len() as int)) {
                Some(n) => HeaderLine::ContentLength(n),
                None => HeaderLine::Malformed(ProtocolError::InvalidContentLength),
            }
        } else {
            HeaderLine::Other
        }
    }
}

/// The index just after the first line feed at or after `from`, or the
/// length of `input` where there is none.
pub open spec fn line_end(input: Seq<u8>, from: int) -> int
    decreases input.len() - from,
{
    if from >= input.len() {
        input.len() as int
    } else if input[from] == 10u8 {
        from + 1
    } else {
        line_end(input, from + 1)
    }
}

/// The payload of `n` bytes that starts at `start`.
pub open spec fn decode_body(input: Seq<u8>, start: int, n: usize) -> Decoded {
    if input.len() - start < n {
        Decoded::Failed(ProtocolError::TruncatedPayload)
    } else {
        let body = input.subrange(start, start + n);
        if valid_utf8(body) {
            Decoded::Frame { payload: decode_utf8(body), consumed: start + n }
        } else {
            Decoded::Failed(ProtocolError::InvalidPayload)
        }
    }
}

/// Decodes the header lines from `pos` on, `length` being the length
/// declared so far, and then the payload. A later length field overrides an
/// earlier one.
pub open spec fn decode_headers(input: Seq<u8>, pos: int, length: Option<usize>) -> Decoded
    decreases input.len() - pos,
{
    if pos < 0 || pos >= input.len() {
        Decoded::Failed(ProtocolError::TruncatedHeader)
    } else {
        let end = line_end(input, pos);
        if end <= pos || end > input.len() {
            Decoded::Failed(ProtocolError::TruncatedHeader)
        } else {
            match classify_header(input.subrange(pos, end)) {
                HeaderLine::Malformed(e) => Decoded::Failed(e),
                HeaderLine::Other => decode_headers(input, end, length),
                HeaderLine::ContentLength(n) => decode_headers(input, end, Some(n)),
                HeaderLine::Blank => match length {
                    Some(n) => decode_body(input, end, n),
                    None => Decoded::Failed(ProtocolError::MissingContentLength),
                },
            }
        }
    }
}

/// Decodes the frame at the front of `input`.
pub open spec fn decode(input: Seq<u8>) -> Decoded {
    if input.len() == 0 {
        Decoded::End
    } else {
        decode_headers(input, 0, None)
    }
}

/// A line ends after its start, and within the input.
pub proof fn lemma_line_end_bounds(input: Seq<u8>, from: int)
    requires
        0 <= from <= input.len(),
    ensures
        from <= line_end(input, from) <= input.len(),
        from < input.len() ==> from < line_end(input, from),
    decreases input.len() - from,
{
    if from < input.len() && input[from] != 10u8 {
        lemma_line_end_bounds(input, from + 1);
    }
}

/// The characters of the length field's name.
fn length_field_chars() -> (v: Vec<char>)
    ensures
        v@ == length_field(),
{
    let v = vec!['C', 'o', 'n', 't', 'e', 'n', 't', '-', 'L', 'e', 'n', 'g', 't', 'h', ':', ' '];
    assert(v@ =~= length_field());
    v
}

/// Says what one header line means. The line may still carry its line
/// terminator; a reader hands each line over as it arrives.
pub fn classify_header_line(line: &[u8]) -> (r: HeaderLine)
    ensures
        r == classify_header(line@),
{
    match str_from_utf8(line) {
        None => HeaderLine::Malformed(ProtocolError::InvalidHeader),
        Some(s) => {
            let chars = chars_of(s);
            let n = chars.len();
            assert(chars@.subrange(0, n as int) =~= chars@);
            let lo = trim_start_index(chars.as_slice(), 0, n);
            let hi = trim_end_index(chars.as_slice(), lo, n);
            let ghost text = chars@.subrange(lo as int, hi as int);
            assert(text == trim(chars@));
            if lo == hi {
                HeaderLine::Blank
            } else {
                let field = length_field_chars();
                if starts_with_at(chars.as_slice(), lo, hi, field.as_slice()) {
                    assert(text.skip(length_field().len() as int) =~= chars@.subrange(
                        lo + 16,
                        hi as int,
                    ));
                    match parse_usize_at(chars.as_slice(), lo + 16, hi) {
                        Some(value) => HeaderLine::ContentLength(value),
                        None => HeaderLine::Malformed(ProtocolError::InvalidContentLength),
                    }
                } else {
                    HeaderLine::Other
                }
            }
        },
    }
}

/// Finds where the line that starts at `from` ends.
pub fn find_line_end(input: &[u8], from: usize) -> (end: usize)
    requires
        from <= input@.len(),
    ensures
        end == line_end(input@, from as int),
        from <= end <= input@.len(),
        from < input@.len() ==> from < end,
{
    let mut i: usize = from;
    while i < input.len() && input[i] != 10u8
        invariant
            from <= i <= input@.len(),
            line_end(input@, i as int) == line_end(input@, from as int),
        decreases input@.len() - i,
    {
        i += 1;
    }
    if i < input.len() {
        i + 1
    } else {
        i
    }
}

/// Reads the payload of `n` bytes that starts at `start`.
pub fn read_body(input: &[u8], start: usize, n: usize) -> (r: Result<Frame, ProtocolError>)
    requires
        start <= input@.len(),
    ensures
        match decode_body(input@, start as int, n) {
            Decoded::Frame { payload, consumed } => r matches Ok(f) && f.message.content@ == payload
                && f.message.content_length == n && f.message.well_formed() && f.consumed
                == consumed,
            Decoded::Failed(e) => r matches Err(x) && x == e,
            Decoded::End => false,
        },
{
    if input.len() - start < n {
        return Err(ProtocolError::TruncatedPayload);
    }
    let body = slice_subrange(input, start, start + n);
    match str_from_utf8(body) {
        Some(s) => {
            proof {
                decode_utf8_encode_utf8(body@);
            }
            Ok(
                Frame {
                    message: LspMessage { content_length: n, content: s.to_owned() },
                    consumed: start + n,
                },
            )
        },
        None => Err(ProtocolError::InvalidPayload),
    }
}

/// How far the header block of a frame was read: the length declared so
/// far, and whether a line was read.
#[derive(Debug, Clone, Copy)]
pub struct HeaderState {
    pub length: Option<usize>,
    pub started: bool,
}

/// What a reader does after it handed over a header line or the end of the
/// stream.
#[derive(Debug, Clone, Copy)]
pub enum HeaderStep {
    /// Read the next header line.
    More(HeaderState),
    /// Read the payload of this many bytes.
    Body(usize),
    /// The stream was closed in good order before a frame began.
    End,
    /// The stream does not hold a frame.
    Failed(ProtocolError),
}

/// The state before any line of a frame is read.
pub open spec fn header_start() -> HeaderState {
    HeaderState { length: None, started: false }
}

/// What follows in the state `state` on `line`, which is a header line with
/// its terminator, or empty at the end of the stream. The end of the stream
/// is in order before the first line and an error after it. A blank line
/// ends the header block, which must have declared a length by then; a
/// later length field overrides an earlier one.
pub open spec fn next_step(state: HeaderState, line: Seq<u8>) -> HeaderStep {
    if line.len() == 0 {
        if state.started {
            HeaderStep::Failed(ProtocolError::TruncatedHeader)
        } else {
            HeaderStep::End
        }
    } else {
        match classify_header(line) {
            HeaderLine::Malformed(e) => HeaderStep::Failed(e),
            HeaderLine::Other => HeaderStep::More(
                HeaderState { length: state.length, started: true },
            ),
            HeaderLine::ContentLength(n) => HeaderStep::More(
                HeaderState { length: Some(n), started: true },
            ),
            HeaderLine::Blank => match state.length {
                Some(n) => HeaderStep::Body(n),
                None => HeaderStep::Failed(ProtocolError::MissingContentLength),
            },
        }
    }
}

/// What a reader decodes that hands the lines of `input` from `pos` on to
/// `next_step`, one after the other, and then the payload.
pub open spec fn read_by_steps(input: Seq<u8>, pos: int, state: HeaderState) -> Decoded
    decreases input.len() - pos,
{
    if pos < 0 || pos > input.len() {
        Decoded::Failed(ProtocolError::TruncatedHeader)
    } else {
        let end = line_end(input, pos);
        match next_step(state, input.subrange(pos, end)) {
            HeaderStep::End => Decoded::End,
            HeaderStep::Failed(e) => Decoded::Failed(e),
            HeaderStep::Body(n) => decode_body(input, end, n),
            HeaderStep::More(next) => if pos < end <= input.len() {
                read_by_steps(input, end, next)
            } else {
                Decoded::Failed(ProtocolError::TruncatedHeader)
            },
        }
    }
}

/// Reading line by line decodes the header block: after the first line,
/// and before it where the input is not empty, the steps give what
/// `decode_headers` gives.
pub proof fn lemma_steps_decode_headers(input: Seq<u8>, pos: int, state: HeaderState)
    requires
        0 <= pos <= input.len(),
        pos == input.len() ==> state.started,
    ensures
        read_by_steps(input, pos, state) == decode_headers(input, pos, state.length),
    decreases input.len() - pos,
{
    lemma_line_end_bounds(input, pos);
    if pos < input.len() {
        let end = line_end(input, pos);
        match next_step(state, input.subrange(pos, end)) {
            HeaderStep::More(next) => {
                lemma_steps_decode_headers(input, end, next);
            },
            _ => {},
        }
    } else {
        assert(input.subrange(pos, line_end(input, pos)).len() == 0);
    }
}

/// Reading line by line from the start decodes the frame at the front of
/// the input.
pub proof fn lemma_steps_decode(input: Seq<u8>)
    ensures
        read_by_steps(input, 0, header_start()) == decode(input),
{
    lemma_line_end_bounds(input, 0);
    if input.len() > 0 {
        let end = line_end(input, 0);
        match next_step(header_start(), input.subrange(0, end)) {
            HeaderStep::More(next) => {
                lemma_steps_decode_headers(input, end, next);
            },
            _ => {},
        }
    } else {
        assert(input.subrange(0, line_end(input, 0)).len() == 0);
    }
}

impl HeaderState {
    /// The state before any line of a frame is read.
    pub fn new() -> (r: Self)
        ensures
            r == header_start(),
    {
        HeaderState { length: None, started: false }
    }
}

/// Takes one header line with its terminator, or the empty line that a
/// reader gets at the end of the stream, and says what the reader does
/// next.
pub fn header_step(state: HeaderState, line: &[u8]) -> (r: HeaderStep)
    ensures
        r == next_step(state, line@),
{
    if line.len() == 0 {
        if state.started {
            HeaderStep::Failed(ProtocolError::TruncatedHeader)
        } else {
            HeaderStep::End
        }
    } else {
        match classify_header_line(line) {
            HeaderLine::Malformed(e) => HeaderStep::Failed(e),
            HeaderLine::Other => HeaderStep::More(
                HeaderState { length: state.length, started: true },
            ),
            HeaderLine::ContentLength(n) => HeaderStep::More(
                HeaderState { length: Some(n), started: true },
            ),
            HeaderLine::Blank => match state.length {
                Some(n) => HeaderStep::Body(n),
                None => HeaderStep::Failed(ProtocolError::MissingContentLength),
            },
        }
    }
}

/// Decodes the frame at the front of `input`: `Ok(None)` where the input is
/// empty, the message and the frame's length where a whole frame is there,
/// and an error otherwise. It reads as a reader of a stream does: line by
/// line through `header_step`, then the payload through `read_body`.
pub fn read_message(input: &[u8]) -> (r: Result<Option<Frame>, ProtocolError>)
    ensures
        match decode(input@) {
            Decoded::End => r matches Ok(None),
            Decoded::Frame { payload, consumed } => r matches Ok(Some(f)) && f.message.content@
                == payload && f.message.well_formed() && f.consumed == consumed,
            Decoded::Failed(e) => r matches Err(x) && x == e,
        },
{
    let mut pos: usize = 0;
    let mut state = HeaderState::new();
    proof {
        lemma_steps_decode(input@);
    }
    loop
        invariant
            pos <= input@.len(),
            read_by_steps(input@, pos as int, state) == decode(input@),
        decreases input@.len() - pos,
    {
        let end = find_line_end(input, pos);
        let line = slice_subrange(input, pos, end);
        match header_step(state, line) {
            HeaderStep::End => {
                return Ok(None);
            },
            HeaderStep::Failed(e) => {
                return Err(e);
            },
            HeaderStep::Body(n) => {
                return match read_body(input, end, n) {
                    Ok(f) => Ok(Some(f)),
                    Err(e) => Err(e),
                };
            },
            HeaderStep::More(next) => {
                pos = end;
                state = next;
            },
        }
    }
}

/// The frame that carries `content`: the header with the payload's length
/// in bytes, then the payload as it is.
pub fn write_message(content: &str) -> (out: Vec<u8>)
    ensures
        out@ == encode(content@),
{
    let payload = content.as_bytes();
    let mut header = length_field_chars();
    push_decimal(&mut header, payload.len());
    header.push('\r');
    header.push('\n');
    header.push('\r');
    header.push('\n');
    assert(header@ =~= frame_header(payload@.len()));
    let text = string_of_all(header.as_slice());
    let mut out = text.as_str().as_bytes_vec();
    let mut i: usize = 0;
    while i < payload.len()
        invariant
            i <= payload@.len(),
            out@ == encode_utf8(frame_header(payload@.len())) + payload@.take(i as int),
        decreases payload@.len() - i,
    {
        out.push(payload[i]);
        i += 1;
        assert(payload@.take(i as int) =~= payload@.take(i - 1).push(payload@[i - 1]));
    }
    assert(payload@.take(i as int) =~= payload@);
    out
}

/// Where the first line feed at or after `from` stands at `at`, the line
/// ends just after it.
pub proof fn lemma_line_end_at(input: Seq<u8>, from: int, at: int)
    requires
        0 <= from <= at < input.len(),
        forall|j: int| from <= j < at ==> input[j] != 10u8,
        input[at] == 10u8,
    ensures
        line_end(input, from) == at + 1,
    decreases at - from,
{
    if from < at {
        lemma_line_end_at(input, from + 1, at);
    }
}

/// The line that declares a length of `n` bytes, with its terminator.
pub open spec fn length_line(n: nat) -> Seq<char> {
    length_field() + decimal(n) + seq!['\r', '\n']
}

/// The blank line that ends a header block.
pub open spec fn blank_line() -> Seq<char> {
    seq!['\r', '\n']
}

/// The length line is plain ASCII without a line feed before its end.
proof fn lemma_length_line_shape(n: nat)
    ensures
        is_ascii_chars(length_line(n)),
        length_line(n).len() == 18 + decimal(n).len(),
        forall|j: int| 0 <= j < length_line(n).len() - 1 ==> length_line(n)[j] != '\n',
        length_line(n).last() == '\n',
{
    crate::text::lemma_decimal_digits(n);
    let d = decimal(n);
    let l = length_line(n);
    assert forall|j: int| 0 <= j < l.len() implies '\0' <= #[trigger] l[j] <= '\u{7f}' && (j < l.len()
        - 1 ==> l[j] != '\n') by {
        if j < 16 {
            assert(l[j] == length_field()[j]);
        } else if j < 16 + d.len() {
            assert(l[j] == d[j - 16]);
            assert(crate::text::is_digit(d[j - 16]));
        } else {
        }
    }
}

/// The length line is read as the length it declares.
proof fn lemma_classify_length_line(n: nat)
    requires
        n <= usize::MAX,
    ensures
        classify_header(encode_utf8(length_line(n))) == HeaderLine::ContentLength(n as usize),
{
    let l = length_line(n);
    let d = decimal(n);
    let core = length_field() + d;
    crate::text::lemma_decimal_digits(n);
    crate::text::lemma_parse_decimal(n);
    encode_utf8_valid_utf8(l);
    encode_utf8_decode_utf8(l);
    assert(!crate::text::is_whitespace(l[0])) by {
        assert(l[0] == 'C');
    }
    assert(crate::text::trim_start(l) == l);
    let l1 = l.drop_last();
    let l2 = l1.drop_last();
    assert(l2 =~= core);
    assert(l.last() == '\n');
    assert(l1.last() == '\r');
    assert(crate::text::is_digit(core.last())) by {
        assert(core.last() == d.last());
    }
    assert(!crate::text::is_whitespace(core.last()));
    assert(crate::text::trim_end(core) == core);
    assert(crate::text::trim_end(l1) == core);
    assert(crate::text::trim_end(l) == core);
    assert(trim(l) == core);
    assert(length_field().is_prefix_of(core)) by {
        assert(core.subrange(0, 16) =~= length_field());
    }
    assert(core.skip(16) =~= d);
}

/// The blank line is read as the end of the header block.
proof fn lemma_classify_blank_line()
    ensures
        classify_header(encode_utf8(blank_line())) == HeaderLine::Blank,
{
    let l = blank_line();
    encode_utf8_valid_utf8(l);
    encode_utf8_decode_utf8(l);
    let l1 = l.skip(1);
    let l2 = l1.skip(1);
    assert(l2.len() == 0);
    assert(crate::text::is_whitespace(l[0]));
    assert(crate::text::is_whitespace(l1[0]));
    assert(crate::text::trim_start(l2) == l2);
    assert(crate::text::trim_start(l1) == l2);
    assert(crate::text::trim_start(l) == l2);
    assert(crate::text::trim_end(l2) == l2);
}

/// After the header block that `write_message` writes, decoding goes on
/// with the payload of the declared length.
pub proof fn lemma_decode_header(n: nat, tail: Seq<u8>)
    requires
        n <= usize::MAX,
    ensures
        decode(encode_utf8(frame_header(n)) + tail) == decode_body(
            encode_utf8(frame_header(n)) + tail,
            encode_utf8(frame_header(n)).len() as int,
            n as usize,
        ),
        encode_utf8(frame_header(n)).len() == 20 + decimal(n).len(),
{
    let l = length_line(n);
    let b = blank_line();
    let e1 = encode_utf8(l);
    let e2 = encode_utf8(b);
    let input = encode_utf8(frame_header(n)) + tail;
    assert(frame_header(n) =~= l + b);
    lemma_encode_utf8_concat(l, b);
    lemma_length_line_shape(n);
    is_ascii_chars_encode_utf8(l);
    assert(is_ascii_chars(b));
    is_ascii_chars_encode_utf8(b);
    let m = l.len() as int;
    assert(input.len() == m + 2 + tail.len());
    assert forall|j: int| 0 <= j < m implies input[j] == l[j] as u8 by {
        assert(input[j] == e1[j]);
    }
    assert(input[m] == 13u8) by {
        assert(input[m] == e2[0]);
        assert(b[0] == '\r');
    }
    assert(input[m + 1] == 10u8) by {
        assert(input[m + 1] == e2[1]);
        assert(b[1] == '\n');
    }
    assert forall|j: int| 0 <= j < m - 1 implies input[j] != 10u8 by {
        assert(l[j] != '\n');
        assert(input[j] == l[j] as u8);
    }
    assert(input[m - 1] == 10u8) by {
        assert(l[m - 1] == '\n');
    }
    lemma_line_end_at(input, 0, m - 1);
    lemma_line_end_at(input, m, m + 1);
    assert(input.subrange(0, m) =~= e1);
    assert(input.subrange(m, m + 2) =~= e2);
    lemma_classify_length_line(n);
    lemma_classify_blank_line();
    assert(decode_headers(input, m, Some(n as usize)) == decode_body(input, m + 2, n as usize));
    assert(decode_headers(input, 0, None) == decode_headers(input, m, Some(n as usize)));
}

/// Decoding what `write_message` wrote gives the payload back, whatever
/// follows the frame in the stream, and takes exactly the frame's bytes.
pub proof fn lemma_decode_encode(payload: Seq<char>, rest: Seq<u8>)
    requires
        encode_utf8(payload).len() <= usize::MAX,
    ensures
        decode(encode(payload) + rest) == (Decoded::Frame {
            payload,
            consumed: encode(payload).len() as int,
        }),
{
    let body = encode_utf8(payload);
    let n = body.len();
    let head = encode_utf8(frame_header(n));
    let input = encode(payload) + rest;
    assert(input =~= head + (body + rest));
    lemma_decode_header(n, body + rest);
    let start = head.len() as int;
    assert(input.subrange(start, start + n) =~= body);
    encode_utf8_valid_utf8(payload);
    encode_utf8_decode_utf8(payload);
}

/// A frame whose payload is cut short is not decoded as a shorter message:
/// with fewer bytes after the header block than it declares, decoding fails.
pub proof fn lemma_truncated_payload(payload: Seq<char>, kept: int)
    requires
        encode_utf8(payload).len() <= usize::MAX,
        0 <= kept < encode_utf8(payload).len(),
    ensures
        decode(
            encode(payload).take(encode_utf8(frame_header(encode_utf8(payload).len())).len() + kept),
        ) == Decoded::Failed(ProtocolError::TruncatedPayload),
{
    let body = encode_utf8(payload);
    let n = body.len();
    let head = encode_utf8(frame_header(n));
    let input = encode(payload).take(head.len() + kept);
    assert(input =~= head + body.take(kept));
    lemma_decode_header(n, body.take(kept));
}

/// A decoded message is never shorter than declared: its payload is the
/// bytes of the input that end where the frame ends.
pub proof fn lemma_decoded_payload_is_whole(input: Seq<u8>, pos: int, length: Option<usize>)
    requires
        0 <= pos <= input.len(),
    ensures
        decode_headers(input, pos, length) matches Decoded::Frame { payload, consumed } ==> {
            let n = encode_utf8(payload).len() as int;
            &&& pos + n <= consumed <= input.len()
            &&& input.subrange(consumed - n, consumed) == encode_utf8(payload)
        },
    decreases input.len() - pos,
{
    if pos < input.len() {
        let end = line_end(input, pos);
        lemma_line_end_bounds(input, pos);
        match classify_header(input.subrange(pos, end)) {
            HeaderLine::Malformed(e) => {},
            HeaderLine::Other => {
                lemma_decoded_payload_is_whole(input, end, length);
            },
            HeaderLine::ContentLength(n) => {
                lemma_decoded_payload_is_whole(input, end, Some(n));
            },
            HeaderLine::Blank => {
                match length {
                    Some(n) => {
                        let body = input.subrange(end, end + n);
                        if input.len() - end >= n && valid_utf8(body) {
                            decode_utf8_encode_utf8(body);
                        }
                    },
                    None => {},
                }
            },
        }
    }
}

} // verus!
