//! Fixed-width integers as bytes in the byte order of the host.
//!
//! The protocol is same-host only: every multi-byte field is written in the
//! order in which the host keeps it in memory. The order itself is left
//! abstract (`vstd::endian::endianness`), so everything proved here holds on
//! little-endian and on big-endian hosts alike.

use vstd::prelude::*;

verus! {

/// The `n` low-order base-256 digits of `v`, least significant first.
pub open spec fn le_bytes(v: nat, n: nat) -> Seq<u8>
    decreases n,
{
    if n == 0 {
        Seq::empty()
    } else {
        seq![(v % 256) as u8] + le_bytes(v / 256, (n - 1) as nat)
    }
}

/// The number whose base-256 digits, least significant first, are `s`.
pub open spec fn le_value(s: Seq<u8>) -> nat
    decreases s.len(),
{
    if s.len() == 0 {
        0
    } else {
        s[0] as nat + 256 * le_value(s.skip(1))
    }
}

/// 256 to the power `n`: the number of values that `n` bytes can hold.
pub open spec fn byte_range(n: nat) -> nat
    decreases n,
{
    if n == 0 {
        1
    } else {
        256 * byte_range((n - 1) as nat)
    }
}

/// `v` as `n` bytes in the byte order of the host.
pub open spec fn native_bytes(v: nat, n: nat) -> Seq<u8> {
    match vstd::endian::endianness() {
        vstd::endian::Endian::Little => le_bytes(v, n),
        vstd::endian::Endian::Big => le_bytes(v, n).reverse(),
    }
}

/// The number that the bytes `s` hold in the byte order of the host.
pub open spec fn native_value(s: Seq<u8>) -> nat {
    match vstd::endian::endianness() {
        vstd::endian::Endian::Little => le_value(s),
        vstd::endian::Endian::Big => le_value(s.reverse()),
    }
}

/// The number of bytes in a machine word.
pub open spec fn word_bytes() -> nat {
    (usize::BITS / 8) as nat
}

/// A number written as `n` digits takes `n` bytes.
pub proof fn lemma_le_bytes_len(v: nat, n: nat)
    ensures
        le_bytes(v, n).len() == n,
    decreases n,
{
    if n > 0 {
        lemma_le_bytes_len(v / 256, (n - 1) as nat);
    }
}

/// What `n` bytes hold is below 256 to the power `n`.
pub proof fn lemma_le_value_bound(s: Seq<u8>)
    ensures
        le_value(s) < byte_range(s.len()),
    decreases s.len(),
{
    if s.len() > 0 {
        lemma_le_value_bound(s.skip(1));
    }
}

/// Reading back the digits of a number that fits gives the number.
pub proof fn lemma_le_value_of_bytes(v: nat, n: nat)
    requires
        v < byte_range(n),
    ensures
        le_value(le_bytes(v, n)) == v,
    decreases n,
{
    if n > 0 {
        let rest = le_bytes(v / 256, (n - 1) as nat);
        lemma_le_value_of_bytes(v / 256, (n - 1) as nat);
        assert(le_bytes(v, n).skip(1) =~= rest);
    }
}

/// In the host's byte order too, a number written as `n` bytes takes `n` bytes.
pub proof fn lemma_native_bytes_len(v: nat, n: nat)
    ensures
        native_bytes(v, n).len() == n,
{
    lemma_le_bytes_len(v, n);
}

/// In the host's byte order too, what `n` bytes hold is below 256 to the
/// power `n`.
pub proof fn lemma_native_value_bound(s: Seq<u8>)
    ensures
        native_value(s) < byte_range(s.len()),
{
    lemma_le_value_bound(s);
    lemma_le_value_bound(s.reverse());
}

/// In the host's byte order, reading back what was written gives the number.
pub proof fn lemma_native_value_of_bytes(v: nat, n: nat)
    requires
        v < byte_range(n),
    ensures
        native_value(native_bytes(v, n)) == v,
{
    lemma_le_value_of_bytes(v, n);
    assert(le_bytes(v, n).reverse().reverse() =~= le_bytes(v, n));
}

/// How many values one, two, four and eight bytes and a machine word can
/// hold.
pub proof fn lemma_byte_range_values()
    ensures
        byte_range(1) == 0x100,
        byte_range(2) == 0x1_0000,
        byte_range(4) == 0x1_0000_0000,
        byte_range(8) == 0x1_0000_0000_0000_0000,
        byte_range(word_bytes()) == usize::MAX + 1,
{
    reveal_with_fuel(byte_range, 9);
}

/// The bytes that hold `v` in memory. Calls `bytemuck::bytes_of`, which hands
/// out the value's own storage as a byte slice; for a `u16` those are its two
/// bytes in the host's byte order.
#[verifier::external_body]
pub(crate) fn bytes_of_u16(v: &u16) -> (b: &[u8])
    ensures
        b@ == native_bytes(*v as nat, 2),
{
    bytemuck::bytes_of(v)
}

/// The bytes that hold `v` in memory. Calls `bytemuck::bytes_of`; for a `u32`
/// those are its four bytes in the host's byte order.
#[verifier::external_body]
pub(crate) fn bytes_of_u32(v: &u32) -> (b: &[u8])
    ensures
        b@ == native_bytes(*v as nat, 4),
{
    bytemuck::bytes_of(v)
}

/// The bytes that hold `v` in memory. Calls `bytemuck::bytes_of`; for a `u64`
/// those are its eight bytes in the host's byte order.
#[verifier::external_body]
pub(crate) fn bytes_of_u64(v: &u64) -> (b: &[u8])
    ensures
        b@ == native_bytes(*v as nat, 8),
{
    bytemuck::bytes_of(v)
}

/// The bytes that hold `v` in memory. Calls `bytemuck::bytes_of`; for a
/// `usize` those are the bytes of one machine word in the host's byte order.
#[verifier::external_body]
pub(crate) fn bytes_of_usize(v: &usize) -> (b: &[u8])
    ensures
        b@ == native_bytes(*v as nat, word_bytes()),
{
    bytemuck::bytes_of(v)
}

/// The `u16` that two bytes hold. Calls `bytemuck::pod_read_unaligned`, which
/// copies the bytes into a fresh value and panics unless the slice is exactly
/// as long as the value; hence the `requires`.
#[verifier::external_body]
pub(crate) fn u16_of_bytes(b: &[u8]) -> (v: u16)
    requires
        b@.len() == 2,
    ensures
        v as nat == native_value(b@),
{
    bytemuck::pod_read_unaligned::<u16>(b)
}

/// The `u32` that four bytes hold. Calls `bytemuck::pod_read_unaligned`, which
/// panics unless the slice is exactly as long as the value.
#[verifier::external_body]
pub(crate) fn u32_of_bytes(b: &[u8]) -> (v: u32)
    requires
        b@.len() == 4,
    ensures
        v as nat == native_value(b@),
{
    bytemuck::pod_read_unaligned::<u32>(b)
}

/// The `u64` that eight bytes hold. Calls `bytemuck::pod_read_unaligned`,
/// which panics unless the slice is exactly as long as the value.
#[verifier::external_body]
pub(crate) fn u64_of_bytes(b: &[u8]) -> (v: u64)
    requires
        b@.len() == 8,
    ensures
        v as nat == native_value(b@),
{
    bytemuck::pod_read_unaligned::<u64>(b)
}

/// The `usize` that one machine word of bytes holds. Calls
/// `bytemuck::pod_read_unaligned`, which panics unless the slice is exactly
/// as long as the value.
#[verifier::external_body]
pub(crate) fn usize_of_bytes(b: &[u8]) -> (v: usize)
    requires
        b@.len() == word_bytes(),
    ensures
        v as nat == native_value(b@),
{
    bytemuck::pod_read_unaligned::<usize>(b)
}

} // verus!
