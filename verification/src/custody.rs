//! The custody address: an address that no key signs for, derived from a
//! label, the initiator's identity and a seed byte, and bound to the program.
//!
//! The functions marked `external_body` call `solana_program::pubkey::Pubkey`;
//! their contracts are taken on trust from that crate's source.

use vstd::prelude::*;
use solana_program::pubkey::Pubkey;
use crate::address::Address;

verus! {

/// The label that sets the custody addresses of this protocol apart: the
/// ASCII bytes of "escrow".
pub open spec fn custody_label() -> Seq<u8> {
    seq![101u8, 115, 99, 114, 111, 119]
}

/// Two seeds, followed by a seed byte as the third.
pub open spec fn seeds_with_bump(first: Seq<u8>, second: Seq<u8>, bump: u8) -> Seq<Seq<u8>> {
    seq![first, second, seq![bump]]
}

/// The seeds from which the custody address of one trade is derived.
pub open spec fn custody_seeds(initiator: Address, bump: u8) -> Seq<Seq<u8>> {
    seeds_with_bump(custody_label(), initiator@, bump)
}

/// What `Pubkey::create_program_address` makes of a list of seeds and a
/// program: the address that the ledger derives for the program from the
/// seeds, if they derive one. It is a digest of the seeds and the program's
/// identity, and it counts only if it is no point of the signing curve, so
/// that no private key belongs to it.
pub uninterp spec fn program_address(seeds: Seq<Seq<u8>>, program_id: Address) -> Option<Address>;

/// The custody address of the trade that `initiator` started with seed byte
/// `bump`, if the seed byte yields one.
pub open spec fn custody_address(initiator: Address, bump: u8, program_id: Address) -> Option<
    Address,
> {
    program_address(custody_seeds(initiator, bump), program_id)
}

/// Whether `found` is what a search from seed byte 255 downwards to 1 gives:
/// the first seed byte that yields an address, with that address, or nothing
/// if none does.
spec fn is_first_custody_address(
    found: Option<(Address, u8)>,
    initiator: Address,
    program_id: Address,
) -> bool {
    match found {
        Some((address, bump)) => {
            &&& bump >= 1
            &&& custody_address(initiator, bump, program_id) == Some(address)
            &&& forall|higher: u8|
                bump < higher ==> (#[trigger] custody_address(initiator, higher, program_id))
                    is None
        },
        None => forall|bump: u8|
            bump >= 1 ==> (#[trigger] custody_address(initiator, bump, program_id)) is None,
    }
}

/// What a search from seed byte `from` downwards to 1 finds: the first seed
/// byte that yields a custody address, with that address.
pub open spec fn search_custody_address(initiator: Address, program_id: Address, from: u8) -> Option<
    (Address, u8),
>
    decreases from,
{
    if from == 0 {
        None
    } else {
        match custody_address(initiator, from, program_id) {
            Some(address) => Some((address, from)),
            None => search_custody_address(initiator, program_id, (from - 1) as u8),
        }
    }
}

/// What a search for the custody address of a trade that `initiator` starts
/// finds: the highest seed byte that yields an address, and the address.
pub open spec fn first_custody_address(initiator: Address, program_id: Address) -> Option<
    (Address, u8),
> {
    search_custody_address(initiator, program_id, 255)
}

/// Calls `Pubkey::create_program_address` on three seeds. Trusted: the result
/// is a function of the seeds and the program alone, named `program_address`.
#[verifier::external_body]
fn create_program_address(label: &[u8], owner: &[u8], bump: &[u8], program_id: &Address) -> (res:
    Option<Address>)
    ensures
        res == program_address(seq![label@, owner@, bump@], *program_id),
{
    Pubkey::create_program_address(&[label, owner, bump], &Pubkey::from(*program_id)).ok().map(
        |key| key.to_bytes(),
    )
}

/// Calls `Pubkey::try_find_program_address` on two seeds. Trusted: the search
/// appends one seed byte, tries 255 first and goes down to 1, and returns the
/// first byte for which `Pubkey::create_program_address` yields an address,
/// together with that address.
#[verifier::external_body]
fn try_find_program_address(label: &[u8], owner: &[u8], program_id: &Address) -> (res: Option<
    (Address, u8),
>)
    ensures
        match res {
            Some((address, bump)) => {
                &&& bump >= 1
                &&& program_address(seeds_with_bump(label@, owner@, bump), *program_id) == Some(
                    address,
                )
                &&& forall|higher: u8|
                    bump < higher ==> (#[trigger] program_address(
                        seeds_with_bump(label@, owner@, higher),
                        *program_id,
                    )) is None
            },
            None => forall|bump: u8|
                bump >= 1 ==> (#[trigger] program_address(
                    seeds_with_bump(label@, owner@, bump),
                    *program_id,
                )) is None,
        },
{
    Pubkey::try_find_program_address(&[label, owner], &Pubkey::from(*program_id)).map(
        |(key, bump)| (key.to_bytes(), bump),
    )
}

/// The label as bytes in memory.
pub fn custody_label_bytes() -> (label: [u8; 6])
    ensures
        label@ == custody_label(),
{
    let label: [u8; 6] = [101, 115, 99, 114, 111, 119];
    assert(label@ =~= custody_label());
    label
}

/// Searches for the custody address of a trade that `initiator` starts: the
/// highest seed byte that yields an address, and the address.
pub fn find_custody_address(initiator: &Address, program_id: &Address) -> (found: Option<
    (Address, u8),
>)
    ensures
        found == first_custody_address(*initiator, *program_id),
{
    let label = custody_label_bytes();
    let found = try_find_program_address(label.as_slice(), initiator.as_slice(), program_id);
    proof {
        lemma_first_is_searched(found, *initiator, *program_id, 255);
    }
    found
}

/// Derives the custody address again from a stored seed byte.
pub fn derive_custody_address(initiator: &Address, bump: u8, program_id: &Address) -> (derived:
    Option<Address>)
    ensures
        derived == custody_address(*initiator, bump, *program_id),
{
    let label = custody_label_bytes();
    let seed: [u8; 1] = [bump];
    assert(seed@ =~= seq![bump]);
    create_program_address(label.as_slice(), initiator.as_slice(), seed.as_slice(), program_id)
}

/// Whatever is first from 255 downwards is what the search from `from` finds,
/// as long as no seed byte above `from` yields an address.
proof fn lemma_first_is_searched(
    found: Option<(Address, u8)>,
    initiator: Address,
    program_id: Address,
    from: u8,
)
    requires
        is_first_custody_address(found, initiator, program_id),
        forall|higher: u8|
            from < higher ==> (#[trigger] custody_address(initiator, higher, program_id)) is None,
    ensures
        found == search_custody_address(initiator, program_id, from),
    decreases from,
{
    if from == 0 {
        if let Some((address, bump)) = found {
            assert(custody_address(initiator, bump, program_id) is None);
        }
    } else {
        match custody_address(initiator, from, program_id) {
            Some(address) => {
                match found {
                    Some((found_address, bump)) => {
                        if bump > from {
                            assert(custody_address(initiator, bump, program_id) is None);
                        }
                    },
                    None => {},
                }
            },
            None => {
                lemma_first_is_searched(found, initiator, program_id, (from - 1) as u8);
            },
        }
    }
}

/// A search that finds a custody address finds it with a seed byte of at
/// least 1 from which the same address is derived again.
pub proof fn lemma_searched_address_is_rederived(initiator: Address, program_id: Address, from: u8)
    ensures
        search_custody_address(initiator, program_id, from) matches Some((address, bump)) ==> 1
            <= bump <= from && custody_address(initiator, bump, program_id) == Some(address),
    decreases from,
{
    if from != 0 && custody_address(initiator, from, program_id) is None {
        lemma_searched_address_is_rederived(initiator, program_id, (from - 1) as u8);
    }
}

} // verus!
