//! The wire format, stated over sequences of bytes.
//!
//! `wire_*` says which bytes stand for a value; `parse_*` says what a reader
//! makes of the bytes in front of it: a value and the number of bytes it took,
//! or the reason why there is none.

use vstd::prelude::*;
use vstd::utf8::{decode_utf8, encode_utf8, valid_utf8};

use crate::bytes::{native_bytes, native_value, word_bytes};
use crate::err::{Fault, ProtocolError, RemoteErrorType};
use crate::protocol::{DataToken, LogType, ProtocolConstant};
use crate::serialization::{GenericValue, SerializedType};

verus! {

/// A value of the interchange format as a mathematical value.
pub type Value = GenericValue<Seq<u8>, Seq<char>>;

/// What a reader makes of the bytes in front of it: the value read and the
/// number of bytes that it took, or the reason why there is none.
pub type Parse<T> = Result<(T, nat), Fault>;

/// The bytes of `s` from position `pos` on; none where `pos` lies behind the
/// end.
pub open spec fn unread(s: Seq<u8>, pos: int) -> Seq<u8> {
    if 0 <= pos <= s.len() {
        s.skip(pos)
    } else {
        Seq::empty()
    }
}

/// What is unread after `k` more bytes were taken.
pub proof fn lemma_unread_skip(s: Seq<u8>, pos: int, k: int)
    requires
        0 <= pos,
        0 <= k <= unread(s, pos).len(),
    ensures
        unread(s, pos + k) == unread(s, pos).skip(k),
{
}

/// A parse that took `k` bytes more than `p` says: the same value, found `k`
/// bytes further on.
pub open spec fn after<T>(k: nat, p: Parse<T>) -> Parse<T> {
    match p {
        Ok((v, n)) => Ok((v, k + n)),
        Err(e) => Err(e),
    }
}

/// The first `n` bytes. Where fewer are there, the number that is missing.
pub open spec fn parse_take(s: Seq<u8>, n: nat) -> Parse<Seq<u8>> {
    if s.len() < n {
        Err(Fault::Incomplete { needed: (n - s.len()) as nat })
    } else {
        Ok((s.take(n as int), n))
    }
}

/// The number that the first `n` bytes hold in the byte order of the host.
pub open spec fn parse_native(s: Seq<u8>, n: nat) -> Parse<nat> {
    match parse_take(s, n) {
        Ok((b, k)) => Ok((native_value(b), k)),
        Err(e) => Err(e),
    }
}

/// One byte.
pub open spec fn parse_u8(s: Seq<u8>) -> Parse<u8> {
    match parse_take(s, 1) {
        Ok((b, k)) => Ok((b[0], k)),
        Err(e) => Err(e),
    }
}

/// Two bytes in the byte order of the host.
pub open spec fn parse_u16(s: Seq<u8>) -> Parse<u16> {
    match parse_native(s, 2) {
        Ok((v, k)) => Ok((v as u16, k)),
        Err(e) => Err(e),
    }
}

/// Four bytes in the byte order of the host.
pub open spec fn parse_u32(s: Seq<u8>) -> Parse<u32> {
    match parse_native(s, 4) {
        Ok((v, k)) => Ok((v as u32, k)),
        Err(e) => Err(e),
    }
}

/// Eight bytes in the byte order of the host.
pub open spec fn parse_u64(s: Seq<u8>) -> Parse<u64> {
    match parse_native(s, 8) {
        Ok((v, k)) => Ok((v as u64, k)),
        Err(e) => Err(e),
    }
}

/// One machine word in the byte order of the host.
pub open spec fn parse_usize(s: Seq<u8>) -> Parse<usize> {
    match parse_native(s, word_bytes()) {
        Ok((v, k)) => Ok((v as usize, k)),
        Err(e) => Err(e),
    }
}

/// A signed integer travels as the unsigned integer with the same bits
/// (two's complement).
pub open spec fn parse_i8(s: Seq<u8>) -> Parse<i8> {
    match parse_u8(s) {
        Ok((v, k)) => Ok((v as i8, k)),
        Err(e) => Err(e),
    }
}

/// A 16-bit signed integer: the unsigned one with the same bits.
pub open spec fn parse_i16(s: Seq<u8>) -> Parse<i16> {
    match parse_u16(s) {
        Ok((v, k)) => Ok((v as i16, k)),
        Err(e) => Err(e),
    }
}

/// A 32-bit signed integer: the unsigned one with the same bits.
pub open spec fn parse_i32(s: Seq<u8>) -> Parse<i32> {
    match parse_u32(s) {
        Ok((v, k)) => Ok((v as i32, k)),
        Err(e) => Err(e),
    }
}

/// A 64-bit signed integer: the unsigned one with the same bits.
pub open spec fn parse_i64(s: Seq<u8>) -> Parse<i64> {
    match parse_u64(s) {
        Ok((v, k)) => Ok((v as i64, k)),
        Err(e) => Err(e),
    }
}

/// A signed machine word: the unsigned one with the same bits.
pub open spec fn parse_isize(s: Seq<u8>) -> Parse<isize> {
    match parse_usize(s) {
        Ok((v, k)) => Ok((v as isize, k)),
        Err(e) => Err(e),
    }
}

/// One byte: 0 is false, anything else true.
pub open spec fn parse_bool(s: Seq<u8>) -> Parse<bool> {
    match parse_u8(s) {
        Ok((v, k)) => Ok((v != 0, k)),
        Err(e) => Err(e),
    }
}

/// A byte string: its length as a machine word, then that many bytes.
pub open spec fn parse_bytes(s: Seq<u8>) -> Parse<Seq<u8>> {
    match parse_usize(s) {
        Ok((n, k)) => after(k, parse_take(s.skip(k as int), n as nat)),
        Err(e) => Err(e),
    }
}

/// A text: a byte string that holds UTF-8.
pub open spec fn parse_string(s: Seq<u8>) -> Parse<Seq<char>> {
    match parse_bytes(s) {
        Ok((b, k)) => if valid_utf8(b) {
            Ok((decode_utf8(b), k))
        } else {
            Err(Fault::InvalidUtf8)
        },
        Err(e) => Err(e),
    }
}

/// A value's type tag: one byte.
pub open spec fn parse_gtype(s: Seq<u8>) -> Parse<SerializedType> {
    match parse_u8(s) {
        Ok((b, k)) => match SerializedType::of_byte(b) {
            Some(t) => Ok((t, k)),
            None => Err(Fault::Protocol(ProtocolError::UnknownGenericType(b))),
        },
        Err(e) => Err(e),
    }
}

/// A protocol constant: one byte.
pub open spec fn parse_protocol(s: Seq<u8>) -> Parse<ProtocolConstant> {
    match parse_u8(s) {
        Ok((b, k)) => match ProtocolConstant::of_byte(b) {
            Some(c) => Ok((c, k)),
            None => Err(Fault::Protocol(ProtocolError::UnknownProtocolConstant(b))),
        },
        Err(e) => Err(e),
    }
}

/// A remote error type: one byte.
pub open spec fn parse_err_type(s: Seq<u8>) -> Parse<RemoteErrorType> {
    match parse_u8(s) {
        Ok((b, k)) => match RemoteErrorType::of_byte(b) {
            Some(c) => Ok((c, k)),
            None => Err(Fault::Protocol(ProtocolError::UnknownErrorType(b))),
        },
        Err(e) => Err(e),
    }
}

/// A log type: one byte.
pub open spec fn parse_log_type(s: Seq<u8>) -> Parse<LogType> {
    match parse_u8(s) {
        Ok((b, k)) => match LogType::of_byte(b) {
            Some(c) => Ok((c, k)),
            None => Err(Fault::Protocol(ProtocolError::UnknownLogType(b))),
        },
        Err(e) => Err(e),
    }
}

/// What follows the tag `t`: the value itself.
pub open spec fn parse_payload(t: SerializedType, s: Seq<u8>) -> Parse<Value> {
    match t {
        SerializedType::Su8 => match parse_u8(s) {
            Ok((v, k)) => Ok((GenericValue::Vu8(v), k)),
            Err(e) => Err(e),
        },
        SerializedType::Si8 => match parse_i8(s) {
            Ok((v, k)) => Ok((GenericValue::Vi8(v), k)),
            Err(e) => Err(e),
        },
        SerializedType::Su16 => match parse_u16(s) {
            Ok((v, k)) => Ok((GenericValue::Vu16(v), k)),
            Err(e) => Err(e),
        },
        SerializedType::Si16 => match parse_i16(s) {
            Ok((v, k)) => Ok((GenericValue::Vi16(v), k)),
            Err(e) => Err(e),
        },
        SerializedType::Su32 => match parse_u32(s) {
            Ok((v, k)) => Ok((GenericValue::Vu32(v), k)),
            Err(e) => Err(e),
        },
        SerializedType::Si32 => match parse_i32(s) {
            Ok((v, k)) => Ok((GenericValue::Vi32(v), k)),
            Err(e) => Err(e),
        },
        SerializedType::Su64 => match parse_u64(s) {
            Ok((v, k)) => Ok((GenericValue::Vu64(v), k)),
            Err(e) => Err(e),
        },
        SerializedType::Si64 => match parse_i64(s) {
            Ok((v, k)) => Ok((GenericValue::Vi64(v), k)),
            Err(e) => Err(e),
        },
        SerializedType::Sf32 => match parse_u32(s) {
            Ok((v, k)) => Ok((GenericValue::Vf32(v), k)),
            Err(e) => Err(e),
        },
        SerializedType::Sf64 => match parse_u64(s) {
            Ok((v, k)) => Ok((GenericValue::Vf64(v), k)),
            Err(e) => Err(e),
        },
        SerializedType::Susize => match parse_usize(s) {
            Ok((v, k)) => Ok((GenericValue::Vusize(v), k)),
            Err(e) => Err(e),
        },
        SerializedType::Sisize => match parse_isize(s) {
            Ok((v, k)) => Ok((GenericValue::Visize(v), k)),
            Err(e) => Err(e),
        },
        SerializedType::Sbool => match parse_bool(s) {
            Ok((v, k)) => Ok((GenericValue::Vbool(v), k)),
            Err(e) => Err(e),
        },
        SerializedType::Sstring => match parse_string(s) {
            Ok((v, k)) => Ok((GenericValue::Vstring(v), k)),
            Err(e) => Err(e),
        },
        SerializedType::Sbytes => match parse_bytes(s) {
            Ok((v, k)) => Ok((GenericValue::Vbytes(v), k)),
            Err(e) => Err(e),
        },
        SerializedType::Token => match parse_u64(s) {
            Ok((v, k)) => Ok((GenericValue::Token(DataToken(v)), k)),
            Err(e) => Err(e),
        },
        SerializedType::Marker => match parse_u8(s) {
            Ok((v, k)) => Ok((GenericValue::Marker(v), k)),
            Err(e) => Err(e),
        },
    }
}

/// One value: its type tag, then what the tag announces.
#[verifier::opaque]
pub open spec fn parse_value(s: Seq<u8>) -> Parse<Value> {
    match parse_gtype(s) {
        Ok((t, k)) => after(k, parse_payload(t, s.skip(k as int))),
        Err(e) => Err(e),
    }
}

/// A parse that found `vs` in the first `k` bytes and then goes on as `p`.
pub open spec fn join<T>(vs: Seq<T>, k: nat, p: Parse<Seq<T>>) -> Parse<Seq<T>> {
    match p {
        Ok((ws, m)) => Ok((vs + ws, k + m)),
        Err(e) => Err(e),
    }
}

/// `n` values, one after the other.
pub open spec fn parse_n_values(s: Seq<u8>, n: nat) -> Parse<Seq<Value>>
    decreases n,
{
    if n == 0 {
        Ok((Seq::empty(), 0))
    } else {
        match parse_value(s) {
            Ok((v, k)) => join(seq![v], k, parse_n_values(s.skip(k as int), (n - 1) as nat)),
            Err(e) => Err(e),
        }
    }
}

/// A sequence of values: their number as a machine word, then the values.
#[verifier::opaque]
pub open spec fn parse_values(s: Seq<u8>) -> Parse<Seq<Value>> {
    match parse_usize(s) {
        Ok((n, k)) => after(k, parse_n_values(s.skip(k as int), n as nat)),
        Err(e) => Err(e),
    }
}

/// The bytes of a byte string: its length as a machine word, then the bytes.
pub open spec fn wire_bytes(b: Seq<u8>) -> Seq<u8> {
    native_bytes(b.len(), word_bytes()) + b
}

/// The bytes of a text: the byte string of its UTF-8 encoding.
pub open spec fn wire_string(s: Seq<char>) -> Seq<u8> {
    wire_bytes(encode_utf8(s))
}

/// The bytes of a boolean: one byte, 1 for true and 0 for false.
pub open spec fn wire_bool(v: bool) -> Seq<u8> {
    seq![if v { 1u8 } else { 0u8 }]
}

/// The bytes of a value without its tag.
pub open spec fn wire_payload(v: Value) -> Seq<u8> {
    match v {
        GenericValue::Vu8(x) => seq![x],
        GenericValue::Vi8(x) => seq![x as u8],
        GenericValue::Vu16(x) => native_bytes(x as nat, 2),
        GenericValue::Vi16(x) => native_bytes((x as u16) as nat, 2),
        GenericValue::Vu32(x) => native_bytes(x as nat, 4),
        GenericValue::Vi32(x) => native_bytes((x as u32) as nat, 4),
        GenericValue::Vu64(x) => native_bytes(x as nat, 8),
        GenericValue::Vi64(x) => native_bytes((x as u64) as nat, 8),
        GenericValue::Vf32(x) => native_bytes(x as nat, 4),
        GenericValue::Vf64(x) => native_bytes(x as nat, 8),
        GenericValue::Vusize(x) => native_bytes(x as nat, word_bytes()),
        GenericValue::Visize(x) => native_bytes((x as usize) as nat, word_bytes()),
        GenericValue::Vbool(x) => wire_bool(x),
        GenericValue::Vstring(x) => wire_string(x),
        GenericValue::Vbytes(x) => wire_bytes(x),
        GenericValue::Token(x) => native_bytes(x.0 as nat, 8),
        GenericValue::Marker(x) => seq![x],
    }
}

/// The bytes of a value: its type tag, then the value.
pub open spec fn wire_value(v: Value) -> Seq<u8> {
    seq![v.spec_type_of().byte()] + wire_payload(v)
}

/// The bytes of some values, one after the other.
pub open spec fn wire_each(vs: Seq<Value>) -> Seq<u8>
    decreases vs.len(),
{
    if vs.len() == 0 {
        Seq::empty()
    } else {
        wire_each(vs.drop_last()) + wire_value(vs.last())
    }
}

/// The bytes of a sequence of values: their number as a machine word, then
/// the values.
pub open spec fn wire_values(vs: Seq<Value>) -> Seq<u8> {
    native_bytes(vs.len(), word_bytes()) + wire_each(vs)
}

/// A value can be sent: a machine word can hold the length of its text or of
/// its byte string. Every value that a program holds in memory can.
pub open spec fn sendable(v: Value) -> bool {
    match v {
        GenericValue::Vstring(s) => encode_utf8(s).len() <= usize::MAX,
        GenericValue::Vbytes(b) => b.len() <= usize::MAX,
        _ => true,
    }
}

/// A sequence of values can be sent: a machine word can hold its length, and
/// each of the values can be sent.
pub open spec fn all_sendable(vs: Seq<Value>) -> bool {
    &&& vs.len() <= usize::MAX
    &&& forall|i: int| 0 <= i < vs.len() ==> sendable(#[trigger] vs[i])
}

/// A text can be sent: a machine word can hold the length of its encoding.
pub open spec fn text_sendable(s: Seq<char>) -> bool {
    encode_utf8(s).len() <= usize::MAX
}

/// Reading `n` values is reading one and then the others.
pub proof fn lemma_parse_n_values_step(s: Seq<u8>, n: nat, done: Seq<Value>, j: nat)
    requires
        n > 0,
    ensures
        match parse_value(s) {
            Ok((v, k)) => join(done, j, parse_n_values(s, n)) == join(
                done.push(v),
                j + k,
                parse_n_values(s.skip(k as int), (n - 1) as nat),
            ),
            Err(e) => join(done, j, parse_n_values(s, n)) == Err::<(Seq<Value>, nat), Fault>(e),
        },
{
    match parse_value(s) {
        Ok((v, k)) => {
            match parse_n_values(s.skip(k as int), (n - 1) as nat) {
                Ok((ws, m)) => {
                    assert(done + (seq![v] + ws) =~= done.push(v) + ws);
                },
                Err(e) => {},
            }
        },
        Err(e) => {},
    }
}

/// A value that was read took at least its tag and no more bytes than were
/// there.
pub proof fn lemma_parse_value_used(s: Seq<u8>)
    ensures
        parse_value(s) matches Ok((v, k)) ==> 0 < k <= s.len(),
{
    reveal(parse_value);
}

/// Values that were read took no more bytes than were there.
pub proof fn lemma_parse_n_values_used(s: Seq<u8>, n: nat)
    ensures
        parse_n_values(s, n) matches Ok((vs, k)) ==> k <= s.len() && vs.len() == n,
    decreases n,
{
    if n > 0 {
        lemma_parse_value_used(s);
        if let Ok((v, k)) = parse_value(s) {
            lemma_parse_n_values_used(s.skip(k as int), (n - 1) as nat);
        }
    }
}

/// A sequence of values that was read took no more bytes than were there.
pub proof fn lemma_parse_values_used(s: Seq<u8>)
    ensures
        parse_values(s) matches Ok((vs, k)) ==> 0 < k <= s.len(),
{
    reveal(parse_values);
    if let Ok((n, k)) = parse_usize(s) {
        lemma_parse_n_values_used(s.skip(k as int), n as nat);
    }
}

} // verus!
