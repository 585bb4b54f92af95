//! The unsigned number that a run of bytes stands for in either byte order.

use byteorder::{BigEndian, ByteOrder, LittleEndian};
use vstd::arithmetic::power2::{lemma_pow2_adds, lemma2_to64, pow2};
use vstd::prelude::*;
use crate::typing::Endianness;

verus! {

/// The number whose least significant byte comes first in `bytes`.
pub open spec fn le_value(bytes: Seq<u8>) -> nat
    decreases bytes.len(),
{
    if bytes.len() == 0 {
        0
    } else {
        bytes[0] as nat + 256 * le_value(bytes.drop_first())
    }
}

/// The number whose most significant byte comes first in `bytes`.
pub open spec fn be_value(bytes: Seq<u8>) -> nat
    decreases bytes.len(),
{
    if bytes.len() == 0 {
        0
    } else {
        256 * be_value(bytes.drop_last()) + bytes.last() as nat
    }
}

/// The number that `bytes` stands for in the given byte order.
pub open spec fn unsigned_value(order: Endianness, bytes: Seq<u8>) -> nat {
    match order {
        Endianness::Little => le_value(bytes),
        Endianness::Big => be_value(bytes),
    }
}

/// The two's complement reading, at a width of `bits` bits, of the unsigned
/// number `raw`: numbers with the top bit set stand for `raw - 2^bits`.
pub open spec fn signed_value(raw: nat, bits: nat) -> int {
    if bits > 0 && raw >= pow2((bits - 1) as nat) {
        raw - pow2(bits)
    } else {
        raw as int
    }
}

/// A run of `n` bytes stands for a number below `2^(8n)`, in either order.
pub proof fn lemma_value_bound(order: Endianness, bytes: Seq<u8>)
    ensures
        unsigned_value(order, bytes) < pow2(8 * bytes.len()),
    decreases bytes.len(),
{
    lemma2_to64();
    if bytes.len() > 0 {
        let rest = match order {
            Endianness::Little => bytes.drop_first(),
            Endianness::Big => bytes.drop_last(),
        };
        lemma_value_bound(order, rest);
        lemma_pow2_adds(8, 8 * rest.len());
        assert(pow2(8 * bytes.len()) == 256 * pow2(8 * rest.len()));
        assert(unsigned_value(order, rest) + 1 <= pow2(8 * rest.len()));
        assert(256 * (unsigned_value(order, rest) + 1) <= 256 * pow2(8 * rest.len()))
            by (nonlinear_arith)
            requires
                unsigned_value(order, rest) + 1 <= pow2(8 * rest.len()),
        ;
    }
}

/// Calls `byteorder::LittleEndian::read_uint`, which copies the first
/// `nbytes` bytes of the buffer into the low end of eight zeroed bytes and
/// reads those as a little-endian `u64`. It panics unless
/// `1 <= nbytes <= 8` and the buffer holds at least `nbytes` bytes.
#[verifier::external_body]
fn read_uint_le(data: &[u8], nbytes: usize) -> (v: u64)
    requires
        1 <= nbytes <= 8,
        nbytes <= data@.len(),
    ensures
        v == le_value(data@.subrange(0, nbytes as int)),
{
    LittleEndian::read_uint(data, nbytes)
}

/// Calls `byteorder::BigEndian::read_uint`, which copies the first `nbytes`
/// bytes of the buffer into the high end of eight zeroed bytes and reads
/// those as a big-endian `u64`. It panics unless `1 <= nbytes <= 8` and the
/// buffer holds at least `nbytes` bytes.
#[verifier::external_body]
fn read_uint_be(data: &[u8], nbytes: usize) -> (v: u64)
    requires
        1 <= nbytes <= 8,
        nbytes <= data@.len(),
    ensures
        v == be_value(data@.subrange(0, nbytes as int)),
{
    BigEndian::read_uint(data, nbytes)
}

/// Reads a whole buffer of one to eight bytes as an unsigned number in the
/// given byte order.
pub fn read_unsigned(order: Endianness, data: &[u8]) -> (v: u64)
    requires
        1 <= data@.len() <= 8,
    ensures
        v == unsigned_value(order, data@),
        v < pow2(8 * data@.len()),
{
    proof {
        assert(data@.subrange(0, data@.len() as int) == data@);
        lemma_value_bound(order, data@);
    }
    match order {
        Endianness::Little => read_uint_le(data, data.len()),
        Endianness::Big => read_uint_be(data, data.len()),
    }
}

} // verus!
