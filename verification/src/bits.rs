//! Bit-level reading of record fields, most significant bit first.
//!
//! The reading itself is done by the `bitreader` crate. This module states
//! what its reader does, in terms of the bits that a reader has not handed
//! out yet, and proves what the reads used by the record decoders amount to
//! in terms of bytes.

use vstd::prelude::*;
use bitreader::BitReader;
use bitreader::BitReaderError;

verus! {

/// `bitreader::BitReader`, a cursor over the bits of a byte slice.
#[verifier::external_type_specification]
#[verifier::external_body]
pub struct ExBitReader<'a>(BitReader<'a>);

/// `bitreader::BitReaderError`, the reason a read was refused.
#[verifier::external_type_specification]
#[verifier::external_body]
pub struct ExBitReaderError(BitReaderError);

/// The bits that `reader` has still to hand out, in the order in which it
/// hands them out.
pub uninterp spec fn unread_bits(reader: BitReader) -> Seq<bool>;

/// Bit `index` of `bytes`, counted from the most significant bit of the first
/// byte.
pub open spec fn bit_of(bytes: Seq<u8>, index: int) -> bool {
    (bytes[index / 8] >> ((7 - index % 8) as u8)) & 1 == 1
}

/// All bits of `bytes`, most significant bit of the first byte first.
pub open spec fn bits_of(bytes: Seq<u8>) -> Seq<bool> {
    Seq::new(8 * bytes.len(), |index: int| bit_of(bytes, index))
}

/// The number that `bits` spell, most significant bit first.
pub open spec fn bits_value(bits: Seq<bool>) -> nat
    decreases bits.len(),
{
    if bits.len() == 0 {
        0
    } else {
        2 * bits_value(bits.drop_last()) + if bits.last() {
            1nat
        } else {
            0nat
        }
    }
}

/// The number that `bytes` spell, most significant byte first.
pub open spec fn bytes_value(bytes: Seq<u8>) -> nat
    decreases bytes.len(),
{
    if bytes.len() == 0 {
        0
    } else {
        256 * bytes_value(bytes.drop_last()) + bytes.last() as nat
    }
}

/// Calls `BitReader::new`. The new reader has every bit of `bytes` still to
/// hand out. The crate counts the bits of the slice in a `u64`, which the
/// bound on the slice's length keeps from overflowing.
#[verifier::external_body]
pub(crate) fn reader_new<'a>(bytes: &'a [u8]) -> (reader: BitReader<'a>)
    requires
        bytes@.len() < 0x2000_0000_0000_0000,
    ensures
        unread_bits(reader) == bits_of(bytes@),
{
    BitReader::new(bytes)
}

/// Calls `BitReader::read_u8`. A read of at most 8 bits, and of no more bits
/// than are left, hands out the next `bit_count` bits as a number and moves
/// past them. Any other read is refused and leaves the reader where it was.
#[verifier::external_body]
pub(crate) fn reader_read_u8(reader: &mut BitReader, bit_count: u8) -> (result: Result<
    u8,
    BitReaderError,
>)
    ensures
        match result {
            Ok(value) => {
                &&& bit_count <= 8
                &&& bit_count <= unread_bits(*old(reader)).len()
                &&& value == bits_value(unread_bits(*old(reader)).take(bit_count as int))
                &&& unread_bits(*final(reader)) == unread_bits(*old(reader)).skip(bit_count as int)
            },
            Err(_) => {
                &&& bit_count > 8 || bit_count > unread_bits(*old(reader)).len()
                &&& unread_bits(*final(reader)) == unread_bits(*old(reader))
            },
        },
{
    reader.read_u8(bit_count)
}

/// Calls `BitReader::read_u16`: as `reader_read_u8`, for at most 16 bits.
#[verifier::external_body]
pub(crate) fn reader_read_u16(reader: &mut BitReader, bit_count: u8) -> (result: Result<
    u16,
    BitReaderError,
>)
    ensures
        match result {
            Ok(value) => {
                &&& bit_count <= 16
                &&& bit_count <= unread_bits(*old(reader)).len()
                &&& value == bits_value(unread_bits(*old(reader)).take(bit_count as int))
                &&& unread_bits(*final(reader)) == unread_bits(*old(reader)).skip(bit_count as int)
            },
            Err(_) => {
                &&& bit_count > 16 || bit_count > unread_bits(*old(reader)).len()
                &&& unread_bits(*final(reader)) == unread_bits(*old(reader))
            },
        },
{
    reader.read_u16(bit_count)
}

/// Calls `BitReader::read_u32`: as `reader_read_u8`, for at most 32 bits.
#[verifier::external_body]
pub(crate) fn reader_read_u32(reader: &mut BitReader, bit_count: u8) -> (result: Result<
    u32,
    BitReaderError,
>)
    ensures
        match result {
            Ok(value) => {
                &&& bit_count <= 32
                &&& bit_count <= unread_bits(*old(reader)).len()
                &&& value == bits_value(unread_bits(*old(reader)).take(bit_count as int))
                &&& unread_bits(*final(reader)) == unread_bits(*old(reader)).skip(bit_count as int)
            },
            Err(_) => {
                &&& bit_count > 32 || bit_count > unread_bits(*old(reader)).len()
                &&& unread_bits(*final(reader)) == unread_bits(*old(reader))
            },
        },
{
    reader.read_u32(bit_count)
}

/// One more bit doubles the number spelled so far and adds the bit.
pub proof fn lemma_value_step(bits: Seq<bool>, count: int)
    requires
        0 < count <= bits.len(),
    ensures
        bits_value(bits.take(count)) == 2 * bits_value(bits.take(count - 1)) + if bits[count - 1] {
            1nat
        } else {
            0nat
        },
{
    assert(bits.take(count).drop_last() == bits.take(count - 1));
}

/// The eight bits of a byte spell the byte; its upper six bits spell its
/// quotient by four and its lower two the remainder.
pub proof fn lemma_byte_value(bits: Seq<bool>, byte: u8)
    requires
        bits.len() >= 8,
        forall|i: int| 0 <= i < 8 ==> bits[i] == ((byte >> ((7 - i) as u8)) & 1 == 1),
    ensures
        bits_value(bits.take(8)) == byte,
        bits_value(bits.take(6)) == byte / 4,
        bits_value(bits.skip(6).take(2)) == byte % 4,
{
    lemma_value_step(bits, 1);
    lemma_value_step(bits, 2);
    lemma_value_step(bits, 3);
    lemma_value_step(bits, 4);
    lemma_value_step(bits, 5);
    lemma_value_step(bits, 6);
    lemma_value_step(bits, 7);
    lemma_value_step(bits, 8);
    assert(bits_value(bits.take(0)) == 0);
    let low = bits.skip(6);
    lemma_value_step(low, 1);
    lemma_value_step(low, 2);
    assert(bits_value(low.take(0)) == 0);
    let b7: nat = if (byte >> 7u8) & 1 == 1 { 1 } else { 0 };
    let b6: nat = if (byte >> 6u8) & 1 == 1 { 1 } else { 0 };
    let b5: nat = if (byte >> 5u8) & 1 == 1 { 1 } else { 0 };
    let b4: nat = if (byte >> 4u8) & 1 == 1 { 1 } else { 0 };
    let b3: nat = if (byte >> 3u8) & 1 == 1 { 1 } else { 0 };
    let b2: nat = if (byte >> 2u8) & 1 == 1 { 1 } else { 0 };
    let b1: nat = if (byte >> 1u8) & 1 == 1 { 1 } else { 0 };
    let b0: nat = if (byte >> 0u8) & 1 == 1 { 1 } else { 0 };
    assert(bits[0] == (b7 == 1) && bits[1] == (b6 == 1) && bits[2] == (b5 == 1) && bits[3] == (b4
        == 1));
    assert(bits[4] == (b3 == 1) && bits[5] == (b2 == 1) && bits[6] == (b1 == 1) && bits[7] == (b0
        == 1));
    assert(low[0] == bits[6] && low[1] == bits[7]);
    assert(byte == 128 * (if (byte >> 7u8) & 1 == 1 { 1int } else { 0int })
        + 64 * (if (byte >> 6u8) & 1 == 1 { 1int } else { 0int })
        + 32 * (if (byte >> 5u8) & 1 == 1 { 1int } else { 0int })
        + 16 * (if (byte >> 4u8) & 1 == 1 { 1int } else { 0int })
        + 8 * (if (byte >> 3u8) & 1 == 1 { 1int } else { 0int })
        + 4 * (if (byte >> 2u8) & 1 == 1 { 1int } else { 0int })
        + 2 * (if (byte >> 1u8) & 1 == 1 { 1int } else { 0int })
        + (if (byte >> 0u8) & 1 == 1 { 1int } else { 0int })) by (bit_vector);
}

/// Eight more bits multiply the number spelled so far by 256 and add the
/// number that the eight bits spell.
pub proof fn lemma_value_append_byte(bits: Seq<bool>, count: int)
    requires
        0 <= count,
        count + 8 <= bits.len(),
    ensures
        bits_value(bits.take(count + 8)) == 256 * bits_value(bits.take(count)) + bits_value(
            bits.skip(count).take(8),
        ),
{
    let tail = bits.skip(count);
    assert(bits_value(tail.take(0)) == 0);
    lemma_value_step(bits, count + 1);
    lemma_value_step(tail, 1);
    lemma_value_step(bits, count + 2);
    lemma_value_step(tail, 2);
    lemma_value_step(bits, count + 3);
    lemma_value_step(tail, 3);
    lemma_value_step(bits, count + 4);
    lemma_value_step(tail, 4);
    lemma_value_step(bits, count + 5);
    lemma_value_step(tail, 5);
    lemma_value_step(bits, count + 6);
    lemma_value_step(tail, 6);
    lemma_value_step(bits, count + 7);
    lemma_value_step(tail, 7);
    lemma_value_step(bits, count + 8);
    lemma_value_step(tail, 8);
}

/// Reading whole bytes: the `8 * count` bits that follow the first `start`
/// bytes spell the same number as those `count` bytes.
pub proof fn lemma_bytes_read(bytes: Seq<u8>, start: int, count: int)
    requires
        0 <= start,
        0 <= count,
        start + count <= bytes.len(),
    ensures
        bits_value(bits_of(bytes).skip(8 * start).take(8 * count)) == bytes_value(
            bytes.subrange(start, start + count),
        ),
    decreases count,
{
    let tail = bits_of(bytes).skip(8 * start);
    let field = bytes.subrange(start, start + count);
    if count == 0 {
        assert(tail.take(0).len() == 0);
    } else {
        lemma_bytes_read(bytes, start, count - 1);
        lemma_value_append_byte(tail, 8 * (count - 1));
        let last = tail.skip(8 * (count - 1));
        assert forall|i: int| 0 <= i < 8 implies last[i] == ((field.last() >> ((7 - i) as u8)) & 1
            == 1) by {
            let index = 8 * (start + count - 1) + i;
            assert(last[i] == bit_of(bytes, index));
            assert(index / 8 == start + count - 1);
            assert(index % 8 == i);
        }
        lemma_byte_value(last, field.last());
        assert(field.drop_last() == bytes.subrange(start, start + count - 1));
    }
}

} // verus!
