//! Little-endian amounts: the eight bytes that stand for a `u64` on the wire
//! and in stored records.

use vstd::prelude::*;

verus! {

/// The number that eight little-endian bytes stand for.
pub open spec fn le_u64(bytes: Seq<u8>) -> int
    recommends
        bytes.len() == 8,
{
    bytes[0] as int + 0x100 * (bytes[1] as int) + 0x1_0000 * (bytes[2] as int) + 0x100_0000 * (
    bytes[3] as int) + 0x1_0000_0000 * (bytes[4] as int) + 0x100_0000_0000 * (bytes[5] as int)
        + 0x1_0000_0000_0000 * (bytes[6] as int) + 0x100_0000_0000_0000 * (bytes[7] as int)
}

/// The eight little-endian bytes of an amount.
pub open spec fn le_bytes(amount: u64) -> Seq<u8> {
    seq![
        (amount % 0x100) as u8,
        (amount / 0x100 % 0x100) as u8,
        (amount / 0x1_0000 % 0x100) as u8,
        (amount / 0x100_0000 % 0x100) as u8,
        (amount / 0x1_0000_0000 % 0x100) as u8,
        (amount / 0x100_0000_0000 % 0x100) as u8,
        (amount / 0x1_0000_0000_0000 % 0x100) as u8,
        (amount / 0x100_0000_0000_0000 % 0x100) as u8,
    ]
}

/// Eight bytes always stand for a number that fits in a `u64`.
pub proof fn lemma_le_u64_in_range(bytes: Seq<u8>)
    requires
        bytes.len() == 8,
    ensures
        0 <= le_u64(bytes) <= u64::MAX,
{
}

/// Reading back the bytes of an amount gives the amount.
pub proof fn lemma_le_bytes_then_le_u64(amount: u64)
    ensures
        le_bytes(amount).len() == 8,
        le_u64(le_bytes(amount)) == amount,
{
    assert(amount == amount % 0x100 + 0x100 * (amount / 0x100 % 0x100) + 0x1_0000 * (amount
        / 0x1_0000 % 0x100) + 0x100_0000 * (amount / 0x100_0000 % 0x100) + 0x1_0000_0000 * (amount
        / 0x1_0000_0000 % 0x100) + 0x100_0000_0000 * (amount / 0x100_0000_0000 % 0x100)
        + 0x1_0000_0000_0000 * (amount / 0x1_0000_0000_0000 % 0x100) + 0x100_0000_0000_0000 * (
    amount / 0x100_0000_0000_0000 % 0x100)) by (bit_vector);
}

/// Writing out the number that eight bytes stand for gives the same bytes.
pub proof fn lemma_le_u64_then_le_bytes(bytes: Seq<u8>)
    requires
        bytes.len() == 8,
    ensures
        le_bytes(le_u64(bytes) as u64) == bytes,
{
    let b0 = bytes[0];
    let b1 = bytes[1];
    let b2 = bytes[2];
    let b3 = bytes[3];
    let b4 = bytes[4];
    let b5 = bytes[5];
    let b6 = bytes[6];
    let b7 = bytes[7];
    let x = le_u64(bytes) as u64;
    assert(x % 0x100 == b0 && x / 0x100 % 0x100 == b1 && x / 0x1_0000 % 0x100 == b2 && x
        / 0x100_0000 % 0x100 == b3 && x / 0x1_0000_0000 % 0x100 == b4 && x / 0x100_0000_0000
        % 0x100 == b5 && x / 0x1_0000_0000_0000 % 0x100 == b6 && x / 0x100_0000_0000_0000 % 0x100
        == b7) by (bit_vector)
        requires
            x == b0 + 0x100 * b1 + 0x1_0000 * b2 + 0x100_0000 * b3 + 0x1_0000_0000 * b4
                + 0x100_0000_0000 * b5 + 0x1_0000_0000_0000 * b6 + 0x100_0000_0000_0000 * b7,
    ;
    assert(le_bytes(x) =~= bytes);
}

/// Reads a little-endian amount from eight bytes of `data`, starting at `offset`.
pub(crate) fn read_u64_le(data: &[u8], offset: usize) -> (amount: u64)
    requires
        offset + 8 <= data@.len(),
    ensures
        amount == le_u64(data@.subrange(offset as int, offset + 8)),
{
    let n: usize = data.len();
    let b0: u64 = data[offset] as u64;
    let b1: u64 = data[offset + 1] as u64;
    let b2: u64 = data[offset + 2] as u64;
    let b3: u64 = data[offset + 3] as u64;
    let b4: u64 = data[offset + 4] as u64;
    let b5: u64 = data[offset + 5] as u64;
    let b6: u64 = data[offset + 6] as u64;
    let b7: u64 = data[offset + 7] as u64;
    b0 + 0x100 * b1 + 0x1_0000 * b2 + 0x100_0000 * b3 + 0x1_0000_0000 * b4 + 0x100_0000_0000 * b5
        + 0x1_0000_0000_0000 * b6 + 0x100_0000_0000_0000 * b7
}

/// Appends the eight little-endian bytes of `amount` to `out`.
pub(crate) fn push_u64_le(out: &mut Vec<u8>, amount: u64)
    ensures
        final(out)@ == old(out)@ + le_bytes(amount),
{
    out.push((amount % 0x100) as u8);
    out.push((amount / 0x100 % 0x100) as u8);
    out.push((amount / 0x1_0000 % 0x100) as u8);
    out.push((amount / 0x100_0000 % 0x100) as u8);
    out.push((amount / 0x1_0000_0000 % 0x100) as u8);
    out.push((amount / 0x100_0000_0000 % 0x100) as u8);
    out.push((amount / 0x1_0000_0000_0000 % 0x100) as u8);
    out.push((amount / 0x100_0000_0000_0000 % 0x100) as u8);
    assert(out@ =~= old(out)@ + le_bytes(amount));
}

} // verus!
