//! The request framer: it finds one request in the bytes that a connection
//! has delivered so far, the request line, the header lines up to the blank
//! line, and a body of exactly the declared length.

use crate::number::{parse_bounded, parse_unsigned};
use crate::text::{
    bytes_between, chars_between, chars_of, decode_text, find_byte, find_from, lemma_find_from,
    lemma_find_from_unique, same_chars,
};
use vstd::prelude::*;
use vstd::utf8::{decode_utf8, valid_utf8};

verus! {

/// Where the framer stands. It moves from the request line to the headers,
/// from there to the body if one is declared, and ends in `Done`.
#[derive(Clone, Copy, Debug, PartialEq, Eq)]
pub enum FramerState {
    AwaitingRequestLine,
    AwaitingHeaders,
    ReadingBody,
    Done,
}

/// One framed request.
pub struct Frame {
    /// The first line; empty if the input began with a blank line or with a
    /// line that is no text.
    pub request_line: String,
    /// The body: as many bytes as the headers declared, read as text.
    pub body: String,
    /// How many bytes of the input the request takes.
    pub consumed: usize,
}

/// What the framer makes of the bytes so far.
pub enum Framed {
    /// The input ends before the request does: the framer waits in this state.
    Pending(FramerState),
    /// The request is complete, but its body is not UTF-8 text.
    BodyNotText,
    /// The request is complete.
    Done(Frame),
}

/// A frame as contracts see it: its texts as sequences of characters.
pub struct FrameView {
    pub request_line: Seq<char>,
    pub body: Seq<char>,
    pub consumed: nat,
}

/// A framer's result as contracts see it.
pub enum FramedView {
    Pending(FramerState),
    BodyNotText,
    Done(FrameView),
}

impl View for Frame {
    type V = FrameView;

    open spec fn view(&self) -> FrameView {
        FrameView {
            request_line: self.request_line@,
            body: self.body@,
            consumed: self.consumed as nat,
        }
    }
}

impl View for Framed {
    type V = FramedView;

    open spec fn view(&self) -> FramedView {
        match self {
            Framed::Pending(state) => FramedView::Pending(*state),
            Framed::BodyNotText => FramedView::BodyNotText,
            Framed::Done(frame) => FramedView::Done(frame@),
        }
    }
}

/// The state in which the framer stands: a finished request, readable or
/// not, leaves it in `Done`.
pub open spec fn state_of(framed: FramedView) -> FramerState {
    match framed {
        FramedView::Pending(state) => state,
        _ => FramerState::Done,
    }
}

/// How far a state is along the way from the request line to `Done`.
pub open spec fn progress(state: FramerState) -> nat {
    match state {
        FramerState::AwaitingRequestLine => 0,
        FramerState::AwaitingHeaders => 1,
        FramerState::ReadingBody => 2,
        FramerState::Done => 3,
    }
}

impl Framed {
    /// The state in which the framer stands after the input that gave this.
    pub fn state(&self) -> (state: FramerState)
        ensures
            state == state_of(self@),
    {
        match self {
            Framed::Pending(state) => *state,
            _ => FramerState::Done,
        }
    }
}

/// The line feed that ends every line.
pub open spec fn line_feed() -> u8 {
    10
}

/// The bytes of the line that begins at `from` and whose line feed stands at
/// `end`: a carriage return directly before the line feed is not part of it.
pub open spec fn line_bytes(bytes: Seq<u8>, from: int, end: int) -> Seq<u8> {
    if from < end && bytes[end - 1] == 13 {
        bytes.subrange(from, end - 1)
    } else {
        bytes.subrange(from, end)
    }
}

/// Whether a line ends the header section: the blank line does, and so does
/// a line that is no UTF-8 text.
pub open spec fn ends_head(line: Seq<u8>) -> bool {
    line.len() == 0 || !valid_utf8(line)
}

/// The name of the header that declares the body's length, with the colon and
/// the space behind it. Its letters must match exactly.
pub open spec fn length_header() -> Seq<char> {
    "Content-Length: "@
}

/// The body length that a header line declares, if it is a `Content-Length`
/// line: the number behind the name, or 0 where that is no number that fits
/// a `usize`.
pub open spec fn declared_length(line: Seq<char>) -> Option<nat> {
    let name = length_header();
    if line.len() >= name.len() && line.take(name.len() as int) == name {
        match parse_unsigned(line.skip(name.len() as int), usize::MAX as nat) {
            Some(n) => Some(n),
            None => Some(0),
        }
    } else {
        None
    }
}

/// Reads header lines from `pos` on, with `length` the body length declared so
/// far. Gives the index behind the line that ends the header section and the
/// length that the last `Content-Length` line declared; nothing if the input
/// ends first.
pub open spec fn headers_end(bytes: Seq<u8>, pos: int, length: nat) -> Option<(int, nat)>
    decreases bytes.len() - pos,
    via headers_end_decreases
{
    let end = find_from(bytes, line_feed(), pos);
    if pos < 0 || end >= bytes.len() {
        None
    } else {
        let line = line_bytes(bytes, pos, end);
        if ends_head(line) {
            Some((end + 1, length))
        } else {
            headers_end(
                bytes,
                end + 1,
                match declared_length(decode_utf8(line)) {
                    Some(n) => n,
                    None => length,
                },
            )
        }
    }
}

#[via_fn]
proof fn headers_end_decreases(bytes: Seq<u8>, pos: int, length: nat) {
    if 0 <= pos <= bytes.len() {
        lemma_find_from(bytes, line_feed(), pos);
    }
}

/// What the framer makes of `bytes`.
pub open spec fn framed(bytes: Seq<u8>) -> FramedView {
    let end = find_from(bytes, line_feed(), 0);
    if end >= bytes.len() {
        FramedView::Pending(FramerState::AwaitingRequestLine)
    } else if ends_head(line_bytes(bytes, 0, end)) {
        FramedView::Done(
            FrameView { request_line: Seq::empty(), body: Seq::empty(), consumed: (end + 1) as nat },
        )
    } else {
        match headers_end(bytes, end + 1, 0) {
            None => FramedView::Pending(FramerState::AwaitingHeaders),
            Some((start, length)) => {
                let body = bytes.subrange(start, start + length);
                if start + length > bytes.len() {
                    FramedView::Pending(FramerState::ReadingBody)
                } else if !valid_utf8(body) {
                    FramedView::BodyNotText
                } else {
                    FramedView::Done(
                        FrameView {
                            request_line: decode_utf8(line_bytes(bytes, 0, end)),
                            body: decode_utf8(body),
                            consumed: (start + length) as nat,
                        },
                    )
                }
            },
        }
    }
}

/// The text of the line that begins at `from` and whose line feed stands at
/// `end`; nothing if that line ends the header section.
fn read_line(input: &[u8], from: usize, end: usize) -> (line: Option<String>)
    requires
        from <= end < input@.len(),
    ensures
        line is None == ends_head(line_bytes(input@, from as int, end as int)),
        line matches Some(text) ==> text@ == decode_utf8(
            line_bytes(input@, from as int, end as int),
        ),
{
    let stop: usize = if from < end && input[end - 1] == 13 {
        end - 1
    } else {
        end
    };
    if stop == from {
        return None;
    }
    decode_text(bytes_between(input, from, stop))
}

/// The body length that a header line declares, if it declares one.
pub fn header_length(line: &str) -> (length: Option<usize>)
    ensures
        length is Some == declared_length(line@) is Some,
        length matches Some(n) ==> declared_length(line@) == Some(n as nat),
{
    let name = chars_of("Content-Length: ");
    let chars = chars_of(line);
    if chars.len() < name.len() || !same_chars(&chars_between(&chars, 0, name.len()), &name) {
        return None;
    }
    let rest = chars_between(&chars, name.len(), chars.len());
    match parse_bounded(&rest, usize::MAX as u64) {
        Some(n) => Some(n as usize),
        None => Some(0),
    }
}

/// Frames the request at the start of `input`, which holds what the
/// connection has delivered so far.
pub fn frame(input: &[u8]) -> (r: Framed)
    ensures
        r@ == framed(input@),
        r matches Framed::Pending(state) ==> state != FramerState::Done,
{
    let first_end = find_byte(input, 10, 0);
    if first_end >= input.len() {
        return Framed::Pending(FramerState::AwaitingRequestLine);
    }
    let request_line = match read_line(input, 0, first_end) {
        None => {
            return Framed::Done(
                Frame { request_line: String::new(), body: String::new(), consumed: first_end + 1 },
            );
        },
        Some(line) => line,
    };
    let mut pos: usize = first_end + 1;
    let mut length: usize = 0;
    loop
        invariant_except_break
            pos <= input@.len(),
            headers_end(input@, pos as int, length as nat) == headers_end(
                input@,
                first_end + 1,
                0,
            ),
        invariant
            first_end == find_from(input@, line_feed(), 0),
            first_end < input@.len(),
            !ends_head(line_bytes(input@, 0, first_end as int)),
        ensures
            pos <= input@.len(),
            headers_end(input@, first_end + 1, 0) == Some((pos as int, length as nat)),
        decreases input@.len() - pos,
    {
        let end = find_byte(input, 10, pos);
        if end >= input.len() {
            return Framed::Pending(FramerState::AwaitingHeaders);
        }
        match read_line(input, pos, end) {
            None => {
                pos = end + 1;
                break ;
            },
            Some(line) => {
                match header_length(line.as_str()) {
                    Some(n) => {
                        length = n;
                    },
                    None => {},
                }
                pos = end + 1;
            },
        }
    }
    if length > input.len() - pos {
        return Framed::Pending(FramerState::ReadingBody);
    }
    match decode_text(bytes_between(input, pos, pos + length)) {
        None => Framed::BodyNotText,
        Some(body) => Framed::Done(Frame { request_line, body, consumed: pos + length }),
    }
}

/// A line feed that the input holds is found at the same place when more
/// input follows.
proof fn lemma_line_feed_stays(bytes: Seq<u8>, more: Seq<u8>, from: int)
    requires
        0 <= from <= bytes.len(),
        find_from(bytes, line_feed(), from) < bytes.len(),
    ensures
        find_from(bytes + more, line_feed(), from) == find_from(bytes, line_feed(), from),
{
    lemma_find_from(bytes, line_feed(), from);
    lemma_find_from_unique(bytes + more, line_feed(), from, find_from(bytes, line_feed(), from));
}

/// A line that the input holds is the same line when more input follows.
proof fn lemma_line_stays(bytes: Seq<u8>, more: Seq<u8>, from: int, end: int)
    requires
        0 <= from <= end < bytes.len(),
    ensures
        line_bytes(bytes + more, from, end) == line_bytes(bytes, from, end),
{
    assert((bytes + more).subrange(from, end) == bytes.subrange(from, end));
    if from < end {
        assert((bytes + more).subrange(from, end - 1) == bytes.subrange(from, end - 1));
    }
}

/// A header section that the input holds in full ends at the same place, with
/// the same declared length, when more input follows.
proof fn lemma_headers_end_stays(bytes: Seq<u8>, more: Seq<u8>, pos: int, length: nat)
    requires
        0 <= pos <= bytes.len(),
        headers_end(bytes, pos, length) is Some,
    ensures
        headers_end(bytes + more, pos, length) == headers_end(bytes, pos, length),
        headers_end(bytes, pos, length) matches Some(found) && pos < found.0 <= bytes.len(),
    decreases bytes.len() - pos,
{
    let end = find_from(bytes, line_feed(), pos);
    lemma_find_from(bytes, line_feed(), pos);
    lemma_line_feed_stays(bytes, more, pos);
    lemma_line_stays(bytes, more, pos, end);
    let line = line_bytes(bytes, pos, end);
    if !ends_head(line) {
        lemma_headers_end_stays(
            bytes,
            more,
            end + 1,
            match declared_length(decode_utf8(line)) {
                Some(n) => n,
                None => length,
            },
        );
    }
}

/// A frame never takes more than the input holds.
pub proof fn lemma_frame_within_input(bytes: Seq<u8>)
    ensures
        framed(bytes) matches FramedView::Done(frame) ==> frame.consumed <= bytes.len(),
{
    let end = find_from(bytes, line_feed(), 0);
    lemma_find_from(bytes, line_feed(), 0);
    if end < bytes.len() && headers_end(bytes, end + 1, 0) is Some {
        lemma_headers_end_stays(bytes, Seq::empty(), end + 1, 0);
    }
}

/// Once the input holds a whole request, what follows it changes nothing: the
/// body is the declared number of bytes, no more and no less.
pub proof fn lemma_frame_ignores_what_follows(bytes: Seq<u8>, more: Seq<u8>)
    requires
        !(framed(bytes) is Pending),
    ensures
        framed(bytes + more) == framed(bytes),
{
    let end = find_from(bytes, line_feed(), 0);
    lemma_find_from(bytes, line_feed(), 0);
    lemma_line_feed_stays(bytes, more, 0);
    lemma_line_stays(bytes, more, 0, end);
    if !ends_head(line_bytes(bytes, 0, end)) {
        lemma_headers_end_stays(bytes, more, end + 1, 0);
        let (start, length) = headers_end(bytes, end + 1, 0)->0;
        assert((bytes + more).subrange(start, start + length) == bytes.subrange(
            start,
            start + length,
        ));
    }
}

/// Whether `head` is a request line and a header section, up to and with the
/// line that ends it, that declare a body of `length` bytes.
pub open spec fn declares(head: Seq<u8>, length: nat) -> bool {
    let end = find_from(head, line_feed(), 0);
    &&& end < head.len()
    &&& !ends_head(line_bytes(head, 0, end))
    &&& headers_end(head, end + 1, 0) == Some((head.len() as int, length))
}

/// A head that declares a body of as many bytes as `body` has, followed by
/// `body`, is one request with exactly that body, whatever follows it.
pub proof fn lemma_body_is_the_declared_bytes(head: Seq<u8>, body: Seq<u8>, more: Seq<u8>)
    requires
        declares(head, body.len()),
        valid_utf8(body),
    ensures
        framed(head + body + more) matches FramedView::Done(frame) && frame.body == decode_utf8(
            body,
        ) && frame.consumed == head.len() + body.len(),
{
    let end = find_from(head, line_feed(), 0);
    lemma_find_from(head, line_feed(), 0);
    lemma_line_feed_stays(head, body, 0);
    lemma_line_stays(head, body, 0, end);
    lemma_headers_end_stays(head, body, end + 1, 0);
    assert((head + body).subrange(head.len() as int, (head.len() + body.len()) as int) == body);
    lemma_frame_ignores_what_follows(head + body, more);
}

/// More input never sets the framer back: it stays in its state or moves on
/// towards `Done`.
pub proof fn lemma_framer_only_advances(bytes: Seq<u8>, more: Seq<u8>)
    ensures
        progress(state_of(framed(bytes))) <= progress(state_of(framed(bytes + more))),
{
    let end = find_from(bytes, line_feed(), 0);
    lemma_find_from(bytes, line_feed(), 0);
    if end < bytes.len() {
        lemma_line_feed_stays(bytes, more, 0);
        lemma_line_stays(bytes, more, 0, end);
        if !ends_head(line_bytes(bytes, 0, end)) && headers_end(bytes, end + 1, 0) is Some {
            lemma_headers_end_stays(bytes, more, end + 1, 0);
            if !(framed(bytes) is Pending) {
                lemma_frame_ignores_what_follows(bytes, more);
            }
        }
    }
}

} // verus!
