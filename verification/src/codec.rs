//! Packing text into fields of fixed width and reading it back.

use crate::database_handler;
use crate::text::{find_byte, find_from, lemma_find_from, lemma_find_from_unique, occurs};
use crate::wt_types;
use vstd::prelude::*;
use vstd::utf8::encode_utf8;

verus! {

/// A field of `width` bytes that holds `src`: the first `width` bytes of `src`,
/// then zeros up to the width.
pub open spec fn packed(src: Seq<u8>, width: nat) -> Seq<u8> {
    Seq::new(
        width,
        |i: int|
            if i < src.len() {
                src[i]
            } else {
                0u8
            },
    )
}

/// The text that a field holds: its bytes before the first zero byte, or all of
/// them if none is zero.
pub open spec fn unpacked(field: Seq<u8>) -> Seq<u8> {
    field.take(find_from(field, 0u8, 0))
}

/// Packs the UTF-8 bytes of `src` into a field of `N` bytes. Text longer than
/// the field loses what does not fit; nothing reports it.
pub fn pack_text<const N: usize>(src: &str) -> (out: [u8; N])
    ensures
        out@ == packed(encode_utf8(src@), N as nat),
{
    let bytes = src.as_bytes();
    let mut out = [0u8;N];
    let mut i: usize = 0;
    while i < N && i < bytes.len()
        invariant
            i <= N,
            i <= bytes@.len(),
            bytes@ == encode_utf8(src@),
            forall|j: int| 0 <= j < i ==> out@[j] == bytes@[j],
            forall|j: int| i <= j < N ==> out@[j] == 0u8,
        decreases N - i,
    {
        out[i] = bytes[i];
        i += 1;
    }
    out
}

/// Reads the text of a field: up to the first zero byte, or the whole field.
pub fn unpack_text<const N: usize>(field: &[u8; N]) -> (out: Vec<u8>)
    ensures
        out@ == unpacked(field@),
{
    let end = find_byte(field.as_slice(), 0, 0);
    let mut out: Vec<u8> = Vec::new();
    let mut i: usize = 0;
    while i < end
        invariant
            i <= end <= N,
            out@ == field@.take(i as int),
        decreases end - i,
    {
        out.push(field[i]);
        i += 1;
    }
    out
}

/// Packs a text into a field of 64 bytes, as an exercise's name is held.
pub fn string_to_cstring_64(s: &str) -> (arr: [u8; 64])
    ensures
        arr@ == packed(encode_utf8(s@), 64),
{
    pack_text::<64>(s)
}

/// Packs a text into a field of 16 bytes, as an exercise's body part is held.
pub fn string_to_cstring_16(s: &str) -> (arr: [u8; 16])
    ensures
        arr@ == packed(encode_utf8(s@), 16),
{
    pack_text::<16>(s)
}

/// The bytes of an optional text; no text has no bytes.
pub open spec fn text_or_empty(t: Option<String>) -> Seq<u8> {
    match t {
        Some(s) => encode_utf8(s@),
        None => Seq::empty(),
    }
}

/// Whether `record` is what the native codec gets for `stored`: the same
/// identifier, the name in a field of 64 bytes, and the muscle group, or
/// nothing, in a field of 16.
pub open spec fn is_record_of(record: wt_types::Exercise, stored: database_handler::Exercise) -> bool {
    &&& record.id == stored.id
    &&& record.name@ == packed(encode_utf8(stored.name@), 64)
    &&& record.body_part@ == packed(text_or_empty(stored.muscle_group), 16)
}

/// The record that the native codec gets for a stored exercise.
pub fn convert_db_exercise(db_ex: &database_handler::Exercise) -> (ex: wt_types::Exercise)
    ensures
        is_record_of(ex, *db_ex),
{
    let body_part = match &db_ex.muscle_group {
        Some(group) => string_to_cstring_16(group.as_str()),
        None => string_to_cstring_16(""),
    };
    proof {
        reveal_strlit("");
    }
    wt_types::Exercise { id: db_ex.id, name: string_to_cstring_64(db_ex.name.as_str()), body_part }
}

/// Text that fits its field and holds no zero byte comes back from the field
/// as it went in.
pub proof fn lemma_unpack_pack(src: Seq<u8>, width: nat)
    requires
        src.len() <= width,
        forall|i: int| 0 <= i < src.len() ==> src[i] != 0,
    ensures
        unpacked(packed(src, width)) == src,
{
    let field = packed(src, width);
    lemma_find_from_unique(field, 0u8, 0, src.len() as int);
}

/// Text without a zero byte that is longer than its field comes back cut to
/// the field's width.
pub proof fn lemma_unpack_pack_long(src: Seq<u8>, width: nat)
    requires
        src.len() >= width,
        forall|i: int| 0 <= i < width ==> src[i] != 0,
    ensures
        unpacked(packed(src, width)) == src.take(width as int),
{
    let field = packed(src, width);
    lemma_find_from_unique(field, 0u8, 0, width as int);
}

/// An exercise whose name has at most 63 bytes and whose muscle group has at
/// most 15, neither with a zero byte, is read back from its record exactly:
/// the identifier, the name and the muscle group. Both fields of the record
/// end in a zero byte.
pub proof fn lemma_record_keeps_exercise(
    record: wt_types::Exercise,
    stored: database_handler::Exercise,
)
    requires
        is_record_of(record, stored),
        encode_utf8(stored.name@).len() <= 63,
        text_or_empty(stored.muscle_group).len() <= 15,
        !occurs(encode_utf8(stored.name@), 0u8),
        !occurs(text_or_empty(stored.muscle_group), 0u8),
    ensures
        record.id == stored.id,
        unpacked(record.name@) == encode_utf8(stored.name@),
        unpacked(record.body_part@) == text_or_empty(stored.muscle_group),
        record.name@[63] == 0,
        record.body_part@[15] == 0,
{
    let name = encode_utf8(stored.name@);
    let body_part = text_or_empty(stored.muscle_group);
    lemma_find_from(name, 0u8, 0);
    lemma_find_from(body_part, 0u8, 0);
    lemma_unpack_pack(name, 64);
    lemma_unpack_pack(body_part, 16);
}

} // verus!
