//! Reading gives back what was written.
//!
//! Each statement has the same shape: the bytes of a value, followed by
//! whatever else is in the stream, parse as that value and as nothing more
//! than its own bytes.

use vstd::prelude::*;
use vstd::utf8::{encode_utf8, encode_utf8_decode_utf8, encode_utf8_valid_utf8, valid_utf8};

use crate::bytes::{
    byte_range, lemma_byte_range_values, lemma_native_bytes_len, lemma_native_value_of_bytes,
    native_bytes, word_bytes,
};
use crate::err::Fault;
use crate::serialization::GenericValue;
use crate::wire::{
    parse_bool, parse_bytes, parse_i16, parse_i32, parse_i64, parse_i8, parse_isize, parse_n_values,
    parse_native, parse_string, parse_u16, parse_u32, parse_u64, parse_u8, parse_usize, parse_value,
    parse_values, sendable, wire_bool, wire_bytes, wire_each, wire_string, wire_value, wire_values,
    Value,
};

verus! {

/// A number that fits into `n` bytes is read back from its `n` bytes.
pub proof fn lemma_native_roundtrip(v: nat, n: nat, rest: Seq<u8>)
    requires
        v < byte_range(n),
    ensures
        parse_native(native_bytes(v, n) + rest, n) == Ok::<(nat, nat), Fault>((v, n)),
{
    lemma_native_bytes_len(v, n);
    lemma_native_value_of_bytes(v, n);
    assert((native_bytes(v, n) + rest).take(n as int) =~= native_bytes(v, n));
}

/// A byte is read back as it was written.
pub proof fn lemma_u8_roundtrip(v: u8, rest: Seq<u8>)
    ensures
        parse_u8(seq![v] + rest) == Ok::<(u8, nat), Fault>((v, 1)),
{
}

/// Every 16-bit unsigned integer is read back as it was written.
pub proof fn lemma_u16_roundtrip(v: u16, rest: Seq<u8>)
    ensures
        parse_u16(native_bytes(v as nat, 2) + rest) == Ok::<(u16, nat), Fault>((v, 2)),
{
    lemma_byte_range_values();
    lemma_native_roundtrip(v as nat, 2, rest);
}

/// Every 32-bit unsigned integer is read back as it was written.
pub proof fn lemma_u32_roundtrip(v: u32, rest: Seq<u8>)
    ensures
        parse_u32(native_bytes(v as nat, 4) + rest) == Ok::<(u32, nat), Fault>((v, 4)),
{
    lemma_byte_range_values();
    lemma_native_roundtrip(v as nat, 4, rest);
}

/// Every 64-bit unsigned integer is read back as it was written.
pub proof fn lemma_u64_roundtrip(v: u64, rest: Seq<u8>)
    ensures
        parse_u64(native_bytes(v as nat, 8) + rest) == Ok::<(u64, nat), Fault>((v, 8)),
{
    lemma_byte_range_values();
    lemma_native_roundtrip(v as nat, 8, rest);
}

/// Every unsigned machine word is read back as it was written.
pub proof fn lemma_usize_roundtrip(v: usize, rest: Seq<u8>)
    ensures
        parse_usize(native_bytes(v as nat, word_bytes()) + rest) == Ok::<(usize, nat), Fault>(
            (v, word_bytes()),
        ),
{
    lemma_byte_range_values();
    lemma_native_roundtrip(v as nat, word_bytes(), rest);
}

/// Every signed byte is read back as it was written.
pub proof fn lemma_i8_roundtrip(v: i8, rest: Seq<u8>)
    ensures
        parse_i8(seq![v as u8] + rest) == Ok::<(i8, nat), Fault>((v, 1)),
{
    assert((v as u8) as i8 == v) by (bit_vector);
}

/// Every 16-bit signed integer is read back as it was written.
pub proof fn lemma_i16_roundtrip(v: i16, rest: Seq<u8>)
    ensures
        parse_i16(native_bytes((v as u16) as nat, 2) + rest) == Ok::<(i16, nat), Fault>((v, 2)),
{
    assert((v as u16) as i16 == v) by (bit_vector);
    lemma_u16_roundtrip(v as u16, rest);
}

/// Every 32-bit signed integer is read back as it was written.
pub proof fn lemma_i32_roundtrip(v: i32, rest: Seq<u8>)
    ensures
        parse_i32(native_bytes((v as u32) as nat, 4) + rest) == Ok::<(i32, nat), Fault>((v, 4)),
{
    assert((v as u32) as i32 == v) by (bit_vector);
    lemma_u32_roundtrip(v as u32, rest);
}

/// Every 64-bit signed integer is read back as it was written.
pub proof fn lemma_i64_roundtrip(v: i64, rest: Seq<u8>)
    ensures
        parse_i64(native_bytes((v as u64) as nat, 8) + rest) == Ok::<(i64, nat), Fault>((v, 8)),
{
    assert((v as u64) as i64 == v) by (bit_vector);
    lemma_u64_roundtrip(v as u64, rest);
}

/// Every signed machine word is read back as it was written.
pub proof fn lemma_isize_roundtrip(v: isize, rest: Seq<u8>)
    ensures
        parse_isize(native_bytes((v as usize) as nat, word_bytes()) + rest) == Ok::<
            (isize, nat),
            Fault,
        >((v, word_bytes())),
{
    assert((v as usize) as isize == v) by (bit_vector);
    lemma_usize_roundtrip(v as usize, rest);
}

/// A boolean is read back as it was written.
pub proof fn lemma_bool_roundtrip(v: bool, rest: Seq<u8>)
    ensures
        parse_bool(wire_bool(v) + rest) == Ok::<(bool, nat), Fault>((v, 1)),
{
}

/// A byte string whose length a machine word can hold is read back.
pub proof fn lemma_bytes_roundtrip(b: Seq<u8>, rest: Seq<u8>)
    requires
        b.len() <= usize::MAX,
    ensures
        parse_bytes(wire_bytes(b) + rest) == Ok::<(Seq<u8>, nat), Fault>(
            (b, wire_bytes(b).len()),
        ),
        wire_bytes(b).len() == word_bytes() + b.len(),
{
    let w = word_bytes();
    let head = native_bytes(b.len(), w);
    lemma_native_bytes_len(b.len(), w);
    assert(wire_bytes(b) + rest =~= head + (b + rest));
    lemma_usize_roundtrip(b.len() as usize, b + rest);
    assert((head + (b + rest)).skip(w as int) =~= b + rest);
    assert((b + rest).take(b.len() as int) =~= b);
}

/// Any text is read back as the same text, provided that a machine word can
/// hold the length of its UTF-8 encoding.
pub proof fn lemma_string_roundtrip(s: Seq<char>, rest: Seq<u8>)
    requires
        encode_utf8(s).len() <= usize::MAX,
    ensures
        parse_string(wire_string(s) + rest) == Ok::<(Seq<char>, nat), Fault>(
            (s, wire_string(s).len()),
        ),
{
    lemma_bytes_roundtrip(encode_utf8(s), rest);
    encode_utf8_valid_utf8(s);
    encode_utf8_decode_utf8(s);
}

/// Bytes that are not UTF-8 are refused where a text is due; nothing is put
/// in their place.
pub proof fn lemma_string_rejects_invalid_utf8(b: Seq<u8>, rest: Seq<u8>)
    requires
        b.len() <= usize::MAX,
        !valid_utf8(b),
    ensures
        parse_string(wire_bytes(b) + rest) == Err::<(Seq<char>, nat), Fault>(Fault::InvalidUtf8),
{
    lemma_bytes_roundtrip(b, rest);
}

/// Every value of every variant is read back as it was written, the two
/// floating-point variants bit for bit.
pub proof fn lemma_value_roundtrip(v: Value, rest: Seq<u8>)
    requires
        sendable(v),
    ensures
        parse_value(wire_value(v) + rest) == Ok::<(Value, nat), Fault>((v, wire_value(v).len())),
        wire_value(v).len() > 0,
{
    reveal(parse_value);
    let body = crate::wire::wire_payload(v);
    let s = wire_value(v) + rest;
    assert(s.skip(1) =~= body + rest);
    match v {
        GenericValue::Vu8(x) => {
        },
        GenericValue::Vi8(x) => {
            lemma_i8_roundtrip(x, rest);
        },
        GenericValue::Vu16(x) => {
            lemma_u16_roundtrip(x, rest);
            lemma_native_bytes_len(x as nat, 2);
        },
        GenericValue::Vi16(x) => {
            lemma_i16_roundtrip(x, rest);
            lemma_native_bytes_len((x as u16) as nat, 2);
        },
        GenericValue::Vu32(x) => {
            lemma_u32_roundtrip(x, rest);
            lemma_native_bytes_len(x as nat, 4);
        },
        GenericValue::Vi32(x) => {
            lemma_i32_roundtrip(x, rest);
            lemma_native_bytes_len((x as u32) as nat, 4);
        },
        GenericValue::Vu64(x) => {
            lemma_u64_roundtrip(x, rest);
            lemma_native_bytes_len(x as nat, 8);
        },
        GenericValue::Vi64(x) => {
            lemma_i64_roundtrip(x, rest);
            lemma_native_bytes_len((x as u64) as nat, 8);
        },
        GenericValue::Vf32(x) => {
            lemma_u32_roundtrip(x, rest);
            lemma_native_bytes_len(x as nat, 4);
        },
        GenericValue::Vf64(x) => {
            lemma_u64_roundtrip(x, rest);
            lemma_native_bytes_len(x as nat, 8);
        },
        GenericValue::Vusize(x) => {
            lemma_usize_roundtrip(x, rest);
            lemma_native_bytes_len(x as nat, word_bytes());
        },
        GenericValue::Visize(x) => {
            lemma_isize_roundtrip(x, rest);
            lemma_native_bytes_len((x as usize) as nat, word_bytes());
        },
        GenericValue::Vbool(x) => {
        },
        GenericValue::Vstring(x) => {
            lemma_string_roundtrip(x, rest);
        },
        GenericValue::Vbytes(x) => {
            lemma_bytes_roundtrip(x, rest);
        },
        GenericValue::Token(x) => {
            lemma_u64_roundtrip(x.0, rest);
            lemma_native_bytes_len(x.0 as nat, 8);
        },
        GenericValue::Marker(x) => {
        },
    }
}

/// The bytes of some values begin with the bytes of the first of them.
pub proof fn lemma_wire_each_first(vs: Seq<Value>)
    requires
        vs.len() > 0,
    ensures
        wire_each(vs) == wire_value(vs[0]) + wire_each(vs.skip(1)),
    decreases vs.len(),
{
    if vs.len() == 1 {
        assert(vs.drop_last() =~= Seq::<Value>::empty());
        assert(vs.skip(1) =~= Seq::<Value>::empty());
    } else {
        lemma_wire_each_first(vs.drop_last());
        assert(vs.drop_last().skip(1) =~= vs.skip(1).drop_last());
    }
}

/// Values written one after the other are read back one after the other.
pub proof fn lemma_n_values_roundtrip(vs: Seq<Value>, rest: Seq<u8>)
    requires
        forall|i: int| 0 <= i < vs.len() ==> sendable(#[trigger] vs[i]),
    ensures
        parse_n_values(wire_each(vs) + rest, vs.len()) == Ok::<(Seq<Value>, nat), Fault>(
            (vs, wire_each(vs).len()),
        ),
    decreases vs.len(),
{
    if vs.len() == 0 {
        assert(vs =~= Seq::<Value>::empty());
    } else {
        let v = vs[0];
        let tail = vs.skip(1);
        lemma_wire_each_first(vs);
        let s = wire_each(vs) + rest;
        assert(s =~= wire_value(v) + (wire_each(tail) + rest));
        lemma_value_roundtrip(v, wire_each(tail) + rest);
        assert(s.skip(wire_value(v).len() as int) =~= wire_each(tail) + rest);
        assert forall|i: int| 0 <= i < tail.len() implies sendable(#[trigger] tail[i]) by {
        }
        lemma_n_values_roundtrip(tail, rest);
        assert(seq![v] + tail =~= vs);
    }
}

/// A sequence of values of any length, none included, is read back as it was
/// written.
pub proof fn lemma_values_roundtrip(vs: Seq<Value>, rest: Seq<u8>)
    requires
        vs.len() <= usize::MAX,
        forall|i: int| 0 <= i < vs.len() ==> sendable(#[trigger] vs[i]),
    ensures
        parse_values(wire_values(vs) + rest) == Ok::<(Seq<Value>, nat), Fault>(
            (vs, wire_values(vs).len()),
        ),
{
    reveal(parse_values);
    let w = word_bytes();
    let head = native_bytes(vs.len(), w);
    lemma_native_bytes_len(vs.len(), w);
    let s = wire_values(vs) + rest;
    assert(s =~= head + (wire_each(vs) + rest));
    lemma_usize_roundtrip(vs.len() as usize, wire_each(vs) + rest);
    assert(s.skip(w as int) =~= wire_each(vs) + rest);
    lemma_n_values_roundtrip(vs, rest);
}

} // verus!
