//! Little-endian, fixed-width byte encoding of unsigned integers.
//!
//! The specification functions here define the encoding; the executable
//! functions call into `byteorder` and are trusted to implement it.

use vstd::arithmetic::div_mod::{lemma_div_pos_is_pos, lemma_fundamental_div_mod};
use vstd::prelude::*;

verus! {

/// `256^n`: the number of values `n` bytes can hold.
pub open spec fn spec_pow256(n: nat) -> int
    decreases n,
{
    if n == 0 {
        1
    } else {
        256 * spec_pow256((n - 1) as nat)
    }
}

/// The values of `256^n` for the widths the library encodes.
pub proof fn lemma_pow256_widths()
    ensures
        spec_pow256(1) == 0x100,
        spec_pow256(2) == 0x1_0000,
        spec_pow256(4) == 0x1_0000_0000,
        spec_pow256(8) == 0x1_0000_0000_0000_0000,
{
    reveal_with_fuel(spec_pow256, 9);
}

/// The `n` little-endian bytes of `v`: byte `i` holds `(v / 256^i) % 256`.
pub open spec fn spec_le_bytes(v: int, n: nat) -> Seq<u8>
    decreases n,
{
    if n == 0 {
        Seq::empty()
    } else {
        seq![(v % 256) as u8] + spec_le_bytes(v / 256, (n - 1) as nat)
    }
}

/// The unsigned integer a little-endian byte sequence denotes.
pub open spec fn spec_le_decode(bs: Seq<u8>) -> int
    decreases bs.len(),
{
    if bs.len() == 0 {
        0
    } else {
        bs[0] + 256 * spec_le_decode(bs.subrange(1, bs.len() as int))
    }
}

/// The encoding always yields exactly `n` bytes.
pub proof fn lemma_le_bytes_len(v: int, n: nat)
    ensures
        spec_le_bytes(v, n).len() == n,
    decreases n,
{
    if n > 0 {
        lemma_le_bytes_len(v / 256, (n - 1) as nat);
    }
}

/// Law: decoding the `n`-byte little-endian encoding of `v` gives `v` back,
/// for every `v` that `n` bytes can hold.
pub proof fn lemma_le_round_trip(v: int, n: nat)
    requires
        0 <= v < spec_pow256(n),
    ensures
        spec_le_decode(spec_le_bytes(v, n)) == v,
    decreases n,
{
    if n > 0 {
        let bs = spec_le_bytes(v, n);
        lemma_le_bytes_len(v / 256, (n - 1) as nat);
        assert(bs.subrange(1, bs.len() as int) =~= spec_le_bytes(v / 256, (n - 1) as nat));
        assert(v / 256 < spec_pow256((n - 1) as nat)) by {
            lemma_fundamental_div_mod(v, 256);
            assert(v == 256 * (v / 256) + v % 256);
        };
        assert(v / 256 >= 0) by {
            if v > 0 {
                lemma_div_pos_is_pos(v, 256);
            }
        };
        lemma_le_round_trip(v / 256, (n - 1) as nat);
        lemma_fundamental_div_mod(v, 256);
    }
}

/// The bytes of a stored C string: everything before the first zero byte,
/// or the whole sequence when no byte is zero.
pub open spec fn spec_cstr_prefix(bs: Seq<u8>) -> Seq<u8>
    decreases bs.len(),
{
    if bs.len() == 0 {
        Seq::empty()
    } else if bs[0] == 0u8 {
        Seq::empty()
    } else {
        seq![bs[0]] + spec_cstr_prefix(bs.subrange(1, bs.len() as int))
    }
}

/// When the first `k` bytes are nonzero and byte `k` (if present) is zero,
/// the stored C string is exactly those first `k` bytes.
pub proof fn lemma_cstr_prefix_characterize(bs: Seq<u8>, k: int)
    requires
        0 <= k <= bs.len(),
        forall|j: int| 0 <= j < k ==> bs[j] != 0u8,
        k < bs.len() ==> bs[k] == 0u8,
    ensures
        spec_cstr_prefix(bs) == bs.subrange(0, k),
    decreases bs.len(),
{
    if bs.len() == 0 {
        assert(spec_cstr_prefix(bs) =~= bs.subrange(0, k));
    } else if k == 0 {
        assert(bs[0] == 0u8);
        assert(spec_cstr_prefix(bs) =~= bs.subrange(0, 0));
    } else {
        let tail = bs.subrange(1, bs.len() as int);
        lemma_cstr_prefix_characterize(tail, k - 1);
        assert(spec_cstr_prefix(bs) =~= seq![bs[0]] + tail.subrange(0, k - 1));
        assert(seq![bs[0]] + tail.subrange(0, k - 1) =~= bs.subrange(0, k));
    }
}

/// Relies on the slice index operator of std: writes one byte of the slice
/// in place, leaving every other byte unchanged.
#[verifier::external_body]
pub(crate) fn set_byte(b: &mut [u8], i: usize, v: u8)
    requires
        i < old(b)@.len(),
    ensures
        final(b)@ == old(b)@.update(i as int, v),
{
    b[i] = v;
}

/// Relies on `byteorder::LittleEndian::read_u16` (of the `ByteOrder` trait):
/// reads an unsigned 16-bit integer in little-endian order from the two bytes
/// at `offset`.
#[verifier::external_body]
pub(crate) fn read_u16_le(b: &[u8], offset: usize) -> (r: u16)
    requires
        offset + 2 <= b@.len(),
    ensures
        r as int == spec_le_decode(b@.subrange(offset as int, offset + 2)),
{
    <byteorder::LittleEndian as byteorder::ByteOrder>::read_u16(&b[offset..offset + 2])
}

/// Relies on `byteorder::LittleEndian::read_u32` (of the `ByteOrder` trait):
/// reads an unsigned 32-bit integer in little-endian order from the four bytes
/// at `offset`.
#[verifier::external_body]
pub(crate) fn read_u32_le(b: &[u8], offset: usize) -> (r: u32)
    requires
        offset + 4 <= b@.len(),
    ensures
        r as int == spec_le_decode(b@.subrange(offset as int, offset + 4)),
{
    <byteorder::LittleEndian as byteorder::ByteOrder>::read_u32(&b[offset..offset + 4])
}

/// Relies on `byteorder::LittleEndian::read_u64` (of the `ByteOrder` trait):
/// reads an unsigned 64-bit integer in little-endian order from the eight
/// bytes at `offset`.
#[verifier::external_body]
pub(crate) fn read_u64_le(b: &[u8], offset: usize) -> (r: u64)
    requires
        offset + 8 <= b@.len(),
    ensures
        r as int == spec_le_decode(b@.subrange(offset as int, offset + 8)),
{
    <byteorder::LittleEndian as byteorder::ByteOrder>::read_u64(&b[offset..offset + 8])
}

/// Relies on `byteorder::LittleEndian::write_u16` (of the `ByteOrder` trait):
/// writes the two little-endian bytes of `v` at `offset`, leaving every other
/// byte unchanged.
#[verifier::external_body]
pub(crate) fn write_u16_le(b: &mut [u8], offset: usize, v: u16)
    requires
        offset + 2 <= old(b)@.len(),
    ensures
        final(b)@.len() == old(b)@.len(),
        final(b)@.subrange(offset as int, offset + 2) == spec_le_bytes(v as int, 2),
        forall|i: int|
            0 <= i < old(b)@.len() && !(offset <= i < offset + 2) ==> final(b)@[i] == old(b)@[i],
{
    <byteorder::LittleEndian as byteorder::ByteOrder>::write_u16(&mut b[offset..offset + 2], v)
}

/// Relies on `byteorder::LittleEndian::write_u32` (of the `ByteOrder` trait):
/// writes the four little-endian bytes of `v` at `offset`, leaving every other
/// byte unchanged.
#[verifier::external_body]
pub(crate) fn write_u32_le(b: &mut [u8], offset: usize, v: u32)
    requires
        offset + 4 <= old(b)@.len(),
    ensures
        final(b)@.len() == old(b)@.len(),
        final(b)@.subrange(offset as int, offset + 4) == spec_le_bytes(v as int, 4),
        forall|i: int|
            0 <= i < old(b)@.len() && !(offset <= i < offset + 4) ==> final(b)@[i] == old(b)@[i],
{
    <byteorder::LittleEndian as byteorder::ByteOrder>::write_u32(&mut b[offset..offset + 4], v)
}

/// Relies on `byteorder::LittleEndian::write_u64` (of the `ByteOrder` trait):
/// writes the eight little-endian bytes of `v` at `offset`, leaving every
/// other byte unchanged.
#[verifier::external_body]
pub(crate) fn write_u64_le(b: &mut [u8], offset: usize, v: u64)
    requires
        offset + 8 <= old(b)@.len(),
    ensures
        final(b)@.len() == old(b)@.len(),
        final(b)@.subrange(offset as int, offset + 8) == spec_le_bytes(v as int, 8),
        forall|i: int|
            0 <= i < old(b)@.len() && !(offset <= i < offset + 8) ==> final(b)@[i] == old(b)@[i],
{
    <byteorder::LittleEndian as byteorder::ByteOrder>::write_u64(&mut b[offset..offset + 8], v)
}

} // verus!
