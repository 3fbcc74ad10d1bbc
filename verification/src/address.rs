//! Ledger addresses: thirty-two bytes that name an account or a program.

use vstd::prelude::*;

verus! {

/// The identity of an account or of a program on the ledger.
pub type Address = [u8; 32];

/// Compares two addresses byte by byte.
pub fn same_address(a: &Address, b: &Address) -> (same: bool)
    ensures
        same == (a@ == b@),
        same == (*a == *b),
{
    let mut i: usize = 0;
    while i < 32
        invariant
            i <= 32,
            forall|j: int| 0 <= j < i ==> a@[j] == b@[j],
        decreases 32 - i,
    {
        if a[i] != b[i] {
            return false;
        }
        i += 1;
    }
    assert(a@ =~= b@);
    assert(*a =~= *b);
    true
}

/// The address whose bytes are the thirty-two bytes of `data` from `offset` on.
pub open spec fn address_at(data: Seq<u8>, offset: int) -> Address
    recommends
        0 <= offset,
        offset + 32 <= data.len(),
{
    choose|a: Address| a@ == data.subrange(offset, offset + 32)
}

/// Any thirty-two bytes are the bytes of some address.
pub proof fn lemma_address_exists(bytes: Seq<u8>)
    requires
        bytes.len() == 32,
    ensures
        exists|a: Address| a@ == bytes,
{
    let a: Address = [
        bytes[0], bytes[1], bytes[2], bytes[3], bytes[4], bytes[5], bytes[6], bytes[7],
        bytes[8], bytes[9], bytes[10], bytes[11], bytes[12], bytes[13], bytes[14], bytes[15],
        bytes[16], bytes[17], bytes[18], bytes[19], bytes[20], bytes[21], bytes[22], bytes[23],
        bytes[24], bytes[25], bytes[26], bytes[27], bytes[28], bytes[29], bytes[30], bytes[31],
    ];
    assert(a@ =~= bytes);
}

/// The address read at `offset` has exactly the thirty-two bytes found there.
pub proof fn lemma_address_at(data: Seq<u8>, offset: int)
    requires
        0 <= offset,
        offset + 32 <= data.len(),
    ensures
        address_at(data, offset)@ == data.subrange(offset, offset + 32),
{
    lemma_address_exists(data.subrange(offset, offset + 32));
}

/// Reads the address stored in `data` at `offset`.
pub(crate) fn read_address(data: &[u8], offset: usize) -> (a: Address)
    requires
        offset + 32 <= data@.len(),
    ensures
        a@ == data@.subrange(offset as int, offset + 32),
        a == address_at(data@, offset as int),
{
    let n: usize = data.len();
    let mut a: Address = [0u8; 32];
    let mut i: usize = 0;
    while i < 32
        invariant
            i <= 32,
            n == data@.len(),
            offset + 32 <= n,
            forall|j: int| 0 <= j < i ==> a@[j] == data@[offset + j],
        decreases 32 - i,
    {
        a[i] = data[offset + i];
        i += 1;
    }
    assert(a@ =~= data@.subrange(offset as int, offset + 32));
    let ghost c = address_at(data@, offset as int);
    assert(c@ == a@);
    assert(c =~= a);
    a
}

} // verus!
