//! The single-byte checksum that closes every frame.

use vstd::prelude::*;

verus! {

/// Sum of all bytes of `bytes`, as a mathematical integer.
pub open spec fn byte_sum(bytes: Seq<u8>) -> int
    decreases bytes.len(),
{
    if bytes.len() == 0 {
        0
    } else {
        byte_sum(bytes.drop_last()) + bytes.last() as int
    }
}

/// The checksum of `bytes`: the two's complement of their sum modulo 256.
pub open spec fn checksum(bytes: Seq<u8>) -> u8 {
    ((256 - byte_sum(bytes) % 256) % 256) as u8
}

/// Whether the last byte of `frame` is the checksum of the bytes before it.
pub open spec fn checksum_ok(frame: Seq<u8>) -> bool {
    frame.len() > 0 && frame.last() == checksum(frame.drop_last())
}

/// Computes the checksum of `data`.
pub fn calculate_checksum(data: &[u8]) -> (result: u8)
    ensures
        result == checksum(data@),
{
    let mut sum: u8 = 0;
    let mut i: usize = 0;
    while i < data.len()
        invariant
            i <= data@.len(),
            sum as int == byte_sum(data@.take(i as int)) % 256,
        decreases data@.len() - i,
    {
        proof {
            let next = data@.take(i + 1);
            assert(next.drop_last() == data@.take(i as int));
            assert(next.last() == data@[i as int]);
        }
        sum = sum.wrapping_add(data[i]);
        i += 1;
    }
    proof {
        assert(data@.take(i as int) == data@);
        assert(!sum == 255 - sum) by (bit_vector);
    }
    (!sum).wrapping_add(1)
}

/// A sequence of bytes with its own checksum appended passes the check: the
/// checksum of all bytes but the last is the last byte.
pub proof fn lemma_checksum_appended(bytes: Seq<u8>)
    ensures
        checksum_ok(bytes.push(checksum(bytes))),
{
    assert(bytes.push(checksum(bytes)).drop_last() == bytes);
}

/// The bytes of a sequence that passes the check add up to a multiple of 256.
pub proof fn lemma_checked_sum(frame: Seq<u8>)
    requires
        checksum_ok(frame),
    ensures
        byte_sum(frame) % 256 == 0,
{
}

} // verus!
