//! The two bridges to the native JSON codec. The codec itself is called from
//! outside this library; here stands what is decided before each call and
//! what is made of its result.

use crate::codec::unpacked;
use crate::text::{decode_text, find_byte, find_from, lemma_find_from, occurs};
use crate::text::bytes_between;
use crate::wt_types::Exercise;
use vstd::prelude::*;
use vstd::utf8::{decode_utf8, encode_utf8, valid_utf8};

verus! {

/// The size of the buffer that the native encoder writes into.
pub const OUTPUT_CAPACITY: usize = 8192;

/// The JSON text for no exercises at all.
pub open spec fn empty_array() -> Seq<char> {
    "[]"@
}

/// The text that stands for output of the native encoder that is no UTF-8.
pub open spec fn undecodable() -> Seq<char> {
    "Failed to parse JSON"@
}

/// How a sequence of exercises is turned into JSON.
pub enum Encoding {
    /// There is nothing to encode: this is the text.
    Text(String),
    /// The native encoder has to write into this buffer, which is zeroed and
    /// of the fixed capacity.
    Native(Vec<u8>),
}

/// Decides how `records` are encoded: an empty sequence is `[]` without a call
/// of the native encoder; anything else goes to it with a fresh buffer.
pub fn encode_exercises(records: &Vec<Exercise>) -> (how: Encoding)
    ensures
        match how {
            Encoding::Text(text) => records@.len() == 0 && text@ == empty_array(),
            Encoding::Native(buffer) => records@.len() > 0 && buffer@ == Seq::new(
                OUTPUT_CAPACITY as nat,
                |i: int| 0u8,
            ),
        },
{
    if records.len() == 0 {
        return Encoding::Text("[]".to_owned());
    }
    let mut buffer: Vec<u8> = Vec::new();
    let mut i: usize = 0;
    while i < OUTPUT_CAPACITY
        invariant
            i <= OUTPUT_CAPACITY,
            buffer@ == Seq::new(i as nat, |k: int| 0u8),
        decreases OUTPUT_CAPACITY - i,
    {
        buffer.push(0);
        i += 1;
    }
    Encoding::Native(buffer)
}

/// Why the output of the native encoder cannot be read.
#[derive(Clone, Copy, Debug, PartialEq, Eq)]
pub enum EncodeError {
    /// The buffer holds no zero byte: the JSON did not fit into it.
    Overflow,
}

/// The number of bytes that the native encoder has written into a buffer:
/// those before the first zero byte. A buffer without a zero byte holds no
/// whole output, so it has no such number.
pub open spec fn written(buffer: Seq<u8>) -> Option<nat> {
    if occurs(buffer, 0u8) {
        Some(find_from(buffer, 0u8, 0) as nat)
    } else {
        None
    }
}

/// Finds how many bytes the native encoder has written, or that its output
/// did not fit.
pub fn written_length(buffer: &[u8]) -> (r: Result<usize, EncodeError>)
    ensures
        match r {
            Ok(n) => n < buffer@.len() && written(buffer@) == Some(n as nat),
            Err(e) => e == EncodeError::Overflow && written(buffer@) is None,
        },
{
    let end = find_byte(buffer, 0, 0);
    if end < buffer.len() {
        Ok(end)
    } else {
        Err(EncodeError::Overflow)
    }
}

/// What a buffer that the native encoder has written holds: the bytes
/// before the first zero byte, read as UTF-8, or the fixed text for failure if
/// they are no UTF-8; an overflow if no byte of the buffer is zero.
pub open spec fn encoded(buffer: Seq<u8>) -> Result<Seq<char>, EncodeError> {
    if !occurs(buffer, 0u8) {
        Err(EncodeError::Overflow)
    } else if valid_utf8(unpacked(buffer)) {
        Ok(decode_utf8(unpacked(buffer)))
    } else {
        Ok(undecodable())
    }
}

/// Reads the JSON text out of the buffer that the native encoder has written.
pub fn encoded_text(buffer: Vec<u8>) -> (json: Result<String, EncodeError>)
    ensures
        match json {
            Ok(text) => encoded(buffer@) == Ok::<Seq<char>, EncodeError>(text@),
            Err(e) => encoded(buffer@) == Err::<Seq<char>, EncodeError>(e),
        },
{
    proof {
        lemma_find_from(buffer@, 0u8, 0);
    }
    match written_length(buffer.as_slice()) {
        Err(e) => Err(e),
        Ok(end) => match decode_text(bytes_between(buffer.as_slice(), 0, end)) {
            Some(json) => Ok(json),
            None => Ok("Failed to parse JSON".to_owned()),
        },
    }
}

/// The bytes that the native decoder is given for `body`: its UTF-8 bytes and
/// a zero byte behind them.
pub open spec fn terminated(body: Seq<char>) -> Seq<u8> {
    encode_utf8(body).push(0u8)
}

/// Makes the zero-terminated text that the native decoder reads. A body that
/// itself holds a zero byte has no such text.
pub fn c_text(body: &str) -> (text: Option<Vec<u8>>)
    ensures
        text is None == occurs(encode_utf8(body@), 0u8),
        text matches Some(bytes) ==> bytes@ == terminated(body@),
{
    let bytes = body.as_bytes();
    if find_byte(bytes, 0, 0) < bytes.len() {
        return None;
    }
    let mut text = bytes_between(bytes, 0, bytes.len());
    text.push(0);
    Some(text)
}

/// What is owed to the handle that the native decoder has returned.
#[derive(Clone, Copy, Debug, PartialEq, Eq)]
pub enum HandlePlan {
    /// It holds this many records: copy them out, then release it exactly once.
    CopyThenRelease(usize),
    /// It holds none: neither read nor release it.
    Leave,
}

/// Decides by the count that came back from the native decoder what is done
/// with its handle.
pub fn handle_plan(count: u32) -> (plan: HandlePlan)
    ensures
        count > 0 ==> plan == HandlePlan::CopyThenRelease(count as usize),
        count == 0 ==> plan == HandlePlan::Leave,
{
    if count > 0 {
        HandlePlan::CopyThenRelease(count as usize)
    } else {
        HandlePlan::Leave
    }
}

} // verus!
