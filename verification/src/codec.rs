//! Writing values into a byte buffer and reading them back out of one.
//!
//! A writer appends to the bytes that are to be sent. A reader is handed the
//! bytes that have arrived and a position in them, and answers with the value
//! and the position behind it; where the bytes end too early it says how many
//! are missing and the caller asks again once they are there.

use vstd::prelude::*;
use vstd::slice::{slice_subrange, slice_to_vec};
use vstd::utf8::{decode_utf8, valid_utf8};

use crate::bytes::{
    bytes_of_u16, bytes_of_u32, bytes_of_u64, bytes_of_usize, native_bytes, u16_of_bytes, u32_of_bytes, u64_of_bytes,
    usize_of_bytes, word_bytes,
};
use crate::err::{IpcError, ProtocolError, RemoteErrorType};
use crate::protocol::{DataToken, LogType, ProtocolConstant};
use crate::serialization::{GenericValue, GenericValueBoxed, GenericValueRef, SerializedType};
use crate::wire::{
    all_sendable, join, lemma_parse_n_values_step, lemma_parse_value_used, parse_bool, parse_bytes,
    parse_err_type, parse_gtype, parse_i16, parse_i32, parse_i64, parse_i8, parse_isize,
    parse_log_type, parse_n_values, parse_protocol, parse_string, parse_take, parse_u16, parse_u32,
    parse_u64, parse_u8, parse_usize, parse_value, parse_values, sendable, text_sendable, unread,
    wire_bool, wire_bytes, wire_each, wire_string, wire_value, wire_values, Parse,
};

verus! {

/// `r` is what a reader that stands at `pos` returns where the bytes in
/// front of it parse as `p`.
pub open spec fn reads<T: DeepView>(
    r: Result<(T, usize), IpcError>,
    p: Parse<T::V>,
    pos: usize,
) -> bool {
    match p {
        Ok((v, used)) => r matches Ok((x, next)) && x.deep_view() == v && next == pos + used,
        Err(f) => r matches Err(e) && e@ == f,
    }
}

/// Appends `data` as it is.
pub fn write_all(out: &mut Vec<u8>, data: &[u8])
    ensures
        final(out)@ == old(out)@ + data@,
{
    out.extend_from_slice(data);
}

/// The `n` bytes at `pos`, and the position behind them. A position behind
/// the end counts as the end.
pub fn read_exact(data: &[u8], pos: usize, n: usize) -> (r: Result<(&[u8], usize), IpcError>)
    ensures
        match parse_take(unread(data@, pos as int), n as nat) {
            Ok((b, used)) => r matches Ok((x, next)) && x@ == b && next == pos + used,
            Err(f) => r matches Err(e) && e@ == f,
        },
{
    let len = data.len();
    let start = if pos <= len { pos } else { len };
    let avail = len - start;
    if avail < n {
        Err(IpcError::Incomplete { needed: n - avail })
    } else {
        let b = slice_subrange(data, start, start + n);
        Ok((b, pos + n))
    }
}

/// Writes one byte.
pub fn write_u8(out: &mut Vec<u8>, v: u8)
    ensures
        final(out)@ == old(out)@ + seq![v],
{
    out.push(v);
}

/// Reads one byte.
pub fn read_u8(data: &[u8], pos: usize) -> (r: Result<(u8, usize), IpcError>)
    ensures
        reads(r, parse_u8(unread(data@, pos as int)), pos),
{
    let (b, next) = read_exact(data, pos, 1)?;
    Ok((b[0], next))
}

/// Writes the two bytes of `v` in the byte order of the host.
pub fn write_u16(out: &mut Vec<u8>, v: u16)
    ensures
        final(out)@ == old(out)@ + native_bytes(v as nat, 2),
{
    write_all(out, bytes_of_u16(&v));
}

/// Reads two bytes as a number in the byte order of the host.
pub fn read_u16(data: &[u8], pos: usize) -> (r: Result<(u16, usize), IpcError>)
    ensures
        reads(r, parse_u16(unread(data@, pos as int)), pos),
{
    let (b, next) = read_exact(data, pos, 2)?;
    Ok((u16_of_bytes(b), next))
}

/// Writes the four bytes of `v` in the byte order of the host.
pub fn write_u32(out: &mut Vec<u8>, v: u32)
    ensures
        final(out)@ == old(out)@ + native_bytes(v as nat, 4),
{
    write_all(out, bytes_of_u32(&v));
}

/// Reads four bytes as a number in the byte order of the host.
pub fn read_u32(data: &[u8], pos: usize) -> (r: Result<(u32, usize), IpcError>)
    ensures
        reads(r, parse_u32(unread(data@, pos as int)), pos),
{
    let (b, next) = read_exact(data, pos, 4)?;
    Ok((u32_of_bytes(b), next))
}

/// Writes the eight bytes of `v` in the byte order of the host.
pub fn write_u64(out: &mut Vec<u8>, v: u64)
    ensures
        final(out)@ == old(out)@ + native_bytes(v as nat, 8),
{
    write_all(out, bytes_of_u64(&v));
}

/// Reads eight bytes as a number in the byte order of the host.
pub fn read_u64(data: &[u8], pos: usize) -> (r: Result<(u64, usize), IpcError>)
    ensures
        reads(r, parse_u64(unread(data@, pos as int)), pos),
{
    let (b, next) = read_exact(data, pos, 8)?;
    Ok((u64_of_bytes(b), next))
}

/// Writes `v` as one machine word in the byte order of the host.
pub fn write_usize(out: &mut Vec<u8>, v: usize)
    ensures
        final(out)@ == old(out)@ + native_bytes(v as nat, word_bytes()),
{
    write_all(out, bytes_of_usize(&v));
}

/// Reads one machine word as a number in the byte order of the host.
pub fn read_usize(data: &[u8], pos: usize) -> (r: Result<(usize, usize), IpcError>)
    ensures
        reads(r, parse_usize(unread(data@, pos as int)), pos),
{
    let (b, next) = read_exact(data, pos, (usize::BITS / 8) as usize)?;
    Ok((usize_of_bytes(b), next))
}

/// Writes a signed byte as the unsigned byte with the same bits.
pub fn write_i8(out: &mut Vec<u8>, v: i8)
    ensures
        final(out)@ == old(out)@ + seq![v as u8],
{
    write_u8(out, v as u8);
}

/// Reads a signed byte from the unsigned byte with the same bits.
pub fn read_i8(data: &[u8], pos: usize) -> (r: Result<(i8, usize), IpcError>)
    ensures
        reads(r, parse_i8(unread(data@, pos as int)), pos),
{
    let (v, next) = read_u8(data, pos)?;
    Ok((v as i8, next))
}

/// Writes a signed integer as the unsigned integer with the same bits.
pub fn write_i16(out: &mut Vec<u8>, v: i16)
    ensures
        final(out)@ == old(out)@ + native_bytes((v as u16) as nat, 2),
{
    write_u16(out, v as u16);
}

/// Reads a signed integer from the unsigned integer with the same bits.
pub fn read_i16(data: &[u8], pos: usize) -> (r: Result<(i16, usize), IpcError>)
    ensures
        reads(r, parse_i16(unread(data@, pos as int)), pos),
{
    let (v, next) = read_u16(data, pos)?;
    Ok((v as i16, next))
}

/// Writes a signed integer as the unsigned integer with the same bits.
pub fn write_i32(out: &mut Vec<u8>, v: i32)
    ensures
        final(out)@ == old(out)@ + native_bytes((v as u32) as nat, 4),
{
    write_u32(out, v as u32);
}

/// Reads a signed integer from the unsigned integer with the same bits.
pub fn read_i32(data: &[u8], pos: usize) -> (r: Result<(i32, usize), IpcError>)
    ensures
        reads(r, parse_i32(unread(data@, pos as int)), pos),
{
    let (v, next) = read_u32(data, pos)?;
    Ok((v as i32, next))
}

/// Writes a signed integer as the unsigned integer with the same bits.
pub fn write_i64(out: &mut Vec<u8>, v: i64)
    ensures
        final(out)@ == old(out)@ + native_bytes((v as u64) as nat, 8),
{
    write_u64(out, v as u64);
}

/// Reads a signed integer from the unsigned integer with the same bits.
pub fn read_i64(data: &[u8], pos: usize) -> (r: Result<(i64, usize), IpcError>)
    ensures
        reads(r, parse_i64(unread(data@, pos as int)), pos),
{
    let (v, next) = read_u64(data, pos)?;
    Ok((v as i64, next))
}

/// Writes a signed machine word as the unsigned one with the same bits.
pub fn write_isize(out: &mut Vec<u8>, v: isize)
    ensures
        final(out)@ == old(out)@ + native_bytes((v as usize) as nat, word_bytes()),
{
    write_usize(out, v as usize);
}

/// Reads a signed machine word from the unsigned one with the same bits.
pub fn read_isize(data: &[u8], pos: usize) -> (r: Result<(isize, usize), IpcError>)
    ensures
        reads(r, parse_isize(unread(data@, pos as int)), pos),
{
    let (v, next) = read_usize(data, pos)?;
    Ok((v as isize, next))
}

/// Writes a boolean as one byte: 1 for true, 0 for false.
pub fn write_bool(out: &mut Vec<u8>, value: bool)
    ensures
        final(out)@ == old(out)@ + wire_bool(value),
{
    write_u8(
        out,
        match value {
            false => 0,
            true => 1,
        },
    );
}

/// Reads a boolean from one byte: 0 is false, anything else true.
pub fn read_bool(data: &[u8], pos: usize) -> (r: Result<(bool, usize), IpcError>)
    ensures
        reads(r, parse_bool(unread(data@, pos as int)), pos),
{
    let (v, next) = read_u8(data, pos)?;
    Ok((v != 0, next))
}

/// Writes a byte string: its length as a machine word, then the bytes.
pub fn write_bytes(out: &mut Vec<u8>, value: &[u8])
    ensures
        final(out)@ == old(out)@ + wire_bytes(value@),
        value@.len() <= usize::MAX,
{
    write_usize(out, value.len());
    write_all(out, value);
}

/// Reads a byte string: its length as a machine word, then that many bytes.
/// The length is taken as it comes; it is checked against nothing but the
/// bytes that are there.
pub fn read_bytes(data: &[u8], pos: usize) -> (r: Result<(Vec<u8>, usize), IpcError>)
    ensures
        reads(r, parse_bytes(unread(data@, pos as int)), pos),
{
    let (size, at) = read_usize(data, pos)?;
    assert(unread(data@, at as int) =~= unread(data@, pos as int).skip(at - pos));
    let (b, next) = read_exact(data, at, size)?;
    let vec = slice_to_vec(b);
    assert(vec.deep_view() =~= b@);
    Ok((vec, next))
}

/// The text that some bytes hold. Calls `String::from_utf8`, which hands the
/// bytes back as a `String` where they are UTF-8 and refuses them otherwise.
#[verifier::external_body]
fn string_from_utf8(bytes: Vec<u8>) -> (r: Option<String>)
    ensures
        match r {
            Some(s) => valid_utf8(bytes@) && s@ == decode_utf8(bytes@),
            None => !valid_utf8(bytes@),
        },
{
    String::from_utf8(bytes).ok()
}

/// Writes a text as the byte string of its UTF-8 encoding.
pub fn write_string(out: &mut Vec<u8>, value: &str)
    ensures
        final(out)@ == old(out)@ + wire_string(value@),
        text_sendable(value@),
{
    write_bytes(out, value.as_bytes());
}

/// Reads a text: a byte string that must hold UTF-8.
pub fn read_string(data: &[u8], pos: usize) -> (r: Result<(String, usize), IpcError>)
    ensures
        reads(r, parse_string(unread(data@, pos as int)), pos),
{
    let (utf8, next) = read_bytes(data, pos)?;
    assert(utf8@ =~= utf8.deep_view());
    match string_from_utf8(utf8) {
        Some(s) => Ok((s, next)),
        None => Err(IpcError::InvalidUtf8),
    }
}

/// Writes the type tag of a value.
pub fn write_gtype(out: &mut Vec<u8>, p: SerializedType)
    ensures
        final(out)@ == old(out)@ + seq![p.byte()],
{
    write_u8(out, p.to_u8());
}

/// Reads the type tag of a value.
pub fn read_gtype(data: &[u8], pos: usize) -> (r: Result<(SerializedType, usize), IpcError>)
    ensures
        reads_plain(r, parse_gtype(unread(data@, pos as int)), pos),
{
    let (b, next) = read_u8(data, pos)?;
    match SerializedType::try_from(b) {
        Ok(t) => Ok((t, next)),
        Err(invalid_u8) => Err(IpcError::Protocol(ProtocolError::UnknownGenericType(invalid_u8))),
    }
}

/// `r` is what a reader that stands at `pos` returns where the bytes in
/// front of it parse as `p`, for a type that is its own mathematical value.
pub open spec fn reads_plain<T>(r: Result<(T, usize), IpcError>, p: Parse<T>, pos: usize) -> bool {
    match p {
        Ok((v, used)) => r matches Ok((x, next)) && x == v && next == pos + used,
        Err(f) => r matches Err(e) && e@ == f,
    }
}

/// Writes a protocol constant.
pub fn write_protocol(out: &mut Vec<u8>, v: ProtocolConstant)
    ensures
        final(out)@ == old(out)@ + seq![v.byte()],
{
    write_u8(out, v.to_u8());
}

/// Reads a protocol constant.
pub fn read_protocol(data: &[u8], pos: usize) -> (r: Result<(ProtocolConstant, usize), IpcError>)
    ensures
        reads_plain(r, parse_protocol(unread(data@, pos as int)), pos),
{
    let (b, next) = read_u8(data, pos)?;
    match ProtocolConstant::try_from(b) {
        Ok(c) => Ok((c, next)),
        Err(invalid_u8) => Err(
            IpcError::Protocol(ProtocolError::UnknownProtocolConstant(invalid_u8)),
        ),
    }
}

/// Writes the kind of a remote error.
pub fn write_err_type(out: &mut Vec<u8>, v: RemoteErrorType)
    ensures
        final(out)@ == old(out)@ + seq![v.byte()],
{
    write_u8(out, v.to_u8());
}

/// Reads the kind of a remote error.
pub fn read_err_type(data: &[u8], pos: usize) -> (r: Result<(RemoteErrorType, usize), IpcError>)
    ensures
        reads_plain(r, parse_err_type(unread(data@, pos as int)), pos),
{
    let (b, next) = read_u8(data, pos)?;
    match RemoteErrorType::try_from(b) {
        Ok(c) => Ok((c, next)),
        Err(invalid_u8) => Err(IpcError::Protocol(ProtocolError::UnknownErrorType(invalid_u8))),
    }
}

/// Writes the stream of a log line.
pub fn write_log_type(out: &mut Vec<u8>, v: LogType)
    ensures
        final(out)@ == old(out)@ + seq![v.byte()],
{
    write_u8(out, v.to_u8());
}

/// Reads the stream of a log line.
pub fn read_log_type(data: &[u8], pos: usize) -> (r: Result<(LogType, usize), IpcError>)
    ensures
        reads_plain(r, parse_log_type(unread(data@, pos as int)), pos),
{
    let (b, next) = read_u8(data, pos)?;
    match LogType::try_from(b) {
        Ok(c) => Ok((c, next)),
        Err(invalid_u8) => Err(IpcError::Protocol(ProtocolError::UnknownLogType(invalid_u8))),
    }
}

/// Reads one value: its type tag, then what the tag announces.
pub fn read_generic(data: &[u8], pos: usize) -> (r: Result<(GenericValueBoxed, usize), IpcError>)
    ensures
        reads(r, parse_value(unread(data@, pos as int)), pos),
{
    proof {
        reveal(parse_value);
    }
    let (g_type, at) = read_gtype(data, pos)?;
    assert(unread(data@, at as int) =~= unread(data@, pos as int).skip(at - pos));
    Ok(
        match g_type {
            SerializedType::Su8 => {
                let (v, next) = read_u8(data, at)?;
                (GenericValue::Vu8(v), next)
            },
            SerializedType::Si8 => {
                let (v, next) = read_i8(data, at)?;
                (GenericValue::Vi8(v), next)
            },
            SerializedType::Su16 => {
                let (v, next) = read_u16(data, at)?;
                (GenericValue::Vu16(v), next)
            },
            SerializedType::Si16 => {
                let (v, next) = read_i16(data, at)?;
                (GenericValue::Vi16(v), next)
            },
            SerializedType::Su32 => {
                let (v, next) = read_u32(data, at)?;
                (GenericValue::Vu32(v), next)
            },
            SerializedType::Si32 => {
                let (v, next) = read_i32(data, at)?;
                (GenericValue::Vi32(v), next)
            },
            SerializedType::Su64 => {
                let (v, next) = read_u64(data, at)?;
                (GenericValue::Vu64(v), next)
            },
            SerializedType::Si64 => {
                let (v, next) = read_i64(data, at)?;
                (GenericValue::Vi64(v), next)
            },
            SerializedType::Sf32 => {
                let (v, next) = read_u32(data, at)?;
                (GenericValue::Vf32(v), next)
            },
            SerializedType::Sf64 => {
                let (v, next) = read_u64(data, at)?;
                (GenericValue::Vf64(v), next)
            },
            SerializedType::Susize => {
                let (v, next) = read_usize(data, at)?;
                (GenericValue::Vusize(v), next)
            },
            SerializedType::Sisize => {
                let (v, next) = read_isize(data, at)?;
                (GenericValue::Visize(v), next)
            },
            SerializedType::Sbool => {
                let (v, next) = read_bool(data, at)?;
                (GenericValue::Vbool(v), next)
            },
            SerializedType::Sstring => {
                let (v, next) = read_string(data, at)?;
                (GenericValue::Vstring(v), next)
            },
            SerializedType::Marker => {
                let (v, next) = read_u8(data, at)?;
                (GenericValue::Marker(v), next)
            },
            SerializedType::Sbytes => {
                let (v, next) = read_bytes(data, at)?;
                assert(v@ =~= v.deep_view());
                (GenericValue::Vbytes(v), next)
            },
            SerializedType::Token => {
                let (v, next) = read_u64(data, at)?;
                (GenericValue::Token(DataToken(v)), next)
            },
        },
    )
}

/// Writes one value: its type tag, then the value. Whatever is written can
/// be read back: no value that a program holds is too long for its length to
/// be sent.
pub fn write_generic(out: &mut Vec<u8>, value: GenericValueRef<'_>)
    ensures
        final(out)@ == old(out)@ + wire_value(value@),
        sendable(value@),
{
    match value {
        GenericValue::Vu8(v) => {
            write_gtype(out, SerializedType::Su8);
            write_u8(out, v);
        },
        GenericValue::Vi8(v) => {
            write_gtype(out, SerializedType::Si8);
            write_i8(out, v);
        },
        GenericValue::Vu16(v) => {
            write_gtype(out, SerializedType::Su16);
            write_u16(out, v);
        },
        GenericValue::Vi16(v) => {
            write_gtype(out, SerializedType::Si16);
            write_i16(out, v);
        },
        GenericValue::Vu32(v) => {
            write_gtype(out, SerializedType::Su32);
            write_u32(out, v);
        },
        GenericValue::Vi32(v) => {
            write_gtype(out, SerializedType::Si32);
            write_i32(out, v);
        },
        GenericValue::Vu64(v) => {
            write_gtype(out, SerializedType::Su64);
            write_u64(out, v);
        },
        GenericValue::Vi64(v) => {
            write_gtype(out, SerializedType::Si64);
            write_i64(out, v);
        },
        GenericValue::Vf32(v) => {
            write_gtype(out, SerializedType::Sf32);
            write_u32(out, v);
        },
        GenericValue::Vf64(v) => {
            write_gtype(out, SerializedType::Sf64);
            write_u64(out, v);
        },
        GenericValue::Vusize(v) => {
            write_gtype(out, SerializedType::Susize);
            write_usize(out, v);
        },
        GenericValue::Visize(v) => {
            write_gtype(out, SerializedType::Sisize);
            write_isize(out, v);
        },
        GenericValue::Vbool(v) => {
            write_gtype(out, SerializedType::Sbool);
            write_bool(out, v);
        },
        GenericValue::Vstring(v) => {
            write_gtype(out, SerializedType::Sstring);
            write_string(out, v);
        },
        GenericValue::Vbytes(v) => {
            write_gtype(out, SerializedType::Sbytes);
            write_bytes(out, v);
        },
        GenericValue::Token(DataToken(v)) => {
            write_gtype(out, SerializedType::Token);
            write_u64(out, v);
        },
        GenericValue::Marker(v) => {
            write_gtype(out, SerializedType::Marker);
            write_u8(out, v);
        },
    }
}

/// Reads a sequence of values: their number, then the values.
pub fn read_generic_vec(data: &[u8], pos: usize) -> (r: Result<
    (Vec<GenericValueBoxed>, usize),
    IpcError,
>)
    ensures
        reads(r, parse_values(unread(data@, pos as int)), pos),
{
    proof {
        reveal(parse_values);
    }
    let (length, at) = read_usize(data, pos)?;
    let mut vec: Vec<GenericValueBoxed> = Vec::new();
    let mut p: usize = at;
    let mut i: usize = 0;
    while i < length
        invariant
            i <= length,
            pos <= at <= p,
            parse_usize(unread(data@, pos as int)) matches Ok((n, k)) && n == length && k == at
                - pos,
            unread(data@, at as int) == unread(data@, pos as int).skip(at - pos),
            parse_n_values(unread(data@, at as int), length as nat) == join(
                vec.deep_view(),
                (p - at) as nat,
                parse_n_values(unread(data@, p as int), (length - i) as nat),
            ),
        decreases length - i,
    {
        let ghost rest = unread(data@, p as int);
        let ghost before = vec.deep_view();
        proof {
            reveal(parse_values);
            lemma_parse_value_used(rest);
            lemma_parse_n_values_step(rest, (length - i) as nat, before, (p - at) as nat);
        }
        match read_generic(data, p) {
            Err(e) => {
                return Err(e);
            },
            Ok((v, q)) => {
                assert(unread(data@, q as int) =~= rest.skip(q - p));
                vec.push(v);
                assert(vec.deep_view() =~= before.push(v.deep_view()));
                p = q;
            },
        }
        i += 1;
    }
    Ok((vec, p))
}

/// Writes a sequence of values: their number, then the values. Whatever is
/// written can be read back.
pub fn write_generic_vec(out: &mut Vec<u8>, values: &[GenericValueRef<'_>])
    ensures
        final(out)@ == old(out)@ + wire_values(values.deep_view()),
        all_sendable(values.deep_view()),
{
    let ghost start = out@;
    let ghost all = values.deep_view();
    write_usize(out, values.len());
    let mut i: usize = 0;
    while i < values.len()
        invariant
            i <= values.len(),
            all == values.deep_view(),
            out@ == start + native_bytes(all.len(), word_bytes()) + wire_each(all.take(i as int)),
            forall|k: int| 0 <= k < i ==> sendable(#[trigger] all[k]),
        decreases values.len() - i,
    {
        write_generic(out, values[i]);
        proof {
            let next = all.take(i + 1);
            assert(next.drop_last() =~= all.take(i as int));
        }
        i += 1;
    }
    assert(all.take(i as int) =~= all);
}

} // verus!
