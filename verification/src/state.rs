//! The escrow record: the one persisted entity, and its fixed layout in the
//! record account.

use vstd::prelude::*;
use crate::address::{address_at, lemma_address_at, read_address, Address};
use crate::encoding::{
    le_bytes, le_u64, lemma_le_bytes_then_le_u64, lemma_le_u64_in_range,
    lemma_le_u64_then_le_bytes, push_u64_le, read_u64_le,
};
use crate::error::EscrowError;

verus! {

/// The length of a stored record: a flag byte, three addresses, an amount and
/// a seed byte, with no padding.
pub const ESCROW_STATE_LEN: usize = 106;

/// The state of one trade. A record is either empty (`is_initialized` false)
/// or describes an active trade; once active it only ever goes away.
#[derive(Clone, Copy, Debug)]
pub struct EscrowState {
    /// Tells an active trade from an empty record.
    pub is_initialized: bool,
    /// The initiator: the party who locked the asset.
    pub alice_pubkey: Address,
    /// The temporary account that holds the locked asset, owned by the custody
    /// address while the trade is active.
    pub alice_temp_x_token_pubkey: Address,
    /// The initiator's payout account, to which the counterparty pays.
    pub alice_y_token_pubkey: Address,
    /// The amount of the payment asset that the initiator asks for.
    pub expected_y_token_amount: u64,
    /// The seed byte that reproduces the custody address of this trade.
    pub escrow_pda_bump: u8,
}

/// Whether `data` is the stored form of some record: the exact length, and a
/// flag byte that is 0 or 1.
pub open spec fn is_packed_state(data: Seq<u8>) -> bool {
    data.len() == ESCROW_STATE_LEN && data[0] <= 1
}

/// The record that `data` stores, read field by field in layout order.
pub open spec fn unpacked_state(data: Seq<u8>) -> EscrowState
    recommends
        is_packed_state(data),
{
    EscrowState {
        is_initialized: data[0] == 1,
        alice_pubkey: address_at(data, 1),
        alice_temp_x_token_pubkey: address_at(data, 33),
        alice_y_token_pubkey: address_at(data, 65),
        expected_y_token_amount: le_u64(data.subrange(97, 105)) as u64,
        escrow_pda_bump: data[105],
    }
}

/// Whether the contents of a record account describe no active trade: they
/// are no record at all, as after the closing of the account, or a record
/// that is empty.
pub open spec fn is_ended(data: Seq<u8>) -> bool {
    !is_packed_state(data) || !unpacked_state(data).is_initialized
}

impl EscrowState {
    /// The stored form of this record.
    pub open spec fn packed(self) -> Seq<u8> {
        seq![if self.is_initialized { 1u8 } else { 0u8 }] + self.alice_pubkey@
            + self.alice_temp_x_token_pubkey@ + self.alice_y_token_pubkey@ + le_bytes(
            self.expected_y_token_amount,
        ) + seq![self.escrow_pda_bump]
    }

    /// Whether this record describes an active trade.
    pub fn is_initialized(&self) -> (active: bool)
        ensures
            active == self.is_initialized,
    {
        self.is_initialized
    }

    /// Reads a record from the contents of its account. The contents must be
    /// exactly one stored record: no byte may be missing or left over.
    pub fn try_from_slice(data: &[u8]) -> (res: Result<EscrowState, EscrowError>)
        ensures
            match res {
                Ok(state) => is_packed_state(data@) && state == unpacked_state(data@),
                Err(e) => !is_packed_state(data@) && e == EscrowError::InvalidAccountData,
            },
    {
        if data.len() != ESCROW_STATE_LEN {
            return Err(EscrowError::InvalidAccountData);
        }
        let flag: u8 = data[0];
        if flag > 1 {
            return Err(EscrowError::InvalidAccountData);
        }
        proof {
            lemma_le_u64_in_range(data@.subrange(97, 105));
        }
        Ok(
            EscrowState {
                is_initialized: flag == 1,
                alice_pubkey: read_address(data, 1),
                alice_temp_x_token_pubkey: read_address(data, 33),
                alice_y_token_pubkey: read_address(data, 65),
                expected_y_token_amount: read_u64_le(data, 97),
                escrow_pda_bump: data[105],
            },
        )
    }

    /// Writes this record out in its stored form.
    pub fn serialize(&self) -> (data: Vec<u8>)
        ensures
            data@ == self.packed(),
            data@.len() == ESCROW_STATE_LEN,
    {
        let mut data: Vec<u8> = Vec::new();
        data.push(if self.is_initialized { 1u8 } else { 0u8 });
        push_address(&mut data, &self.alice_pubkey);
        push_address(&mut data, &self.alice_temp_x_token_pubkey);
        push_address(&mut data, &self.alice_y_token_pubkey);
        push_u64_le(&mut data, self.expected_y_token_amount);
        data.push(self.escrow_pda_bump);
        assert(data@ =~= self.packed());
        data
    }
}

/// Appends the bytes of an address to `out`.
fn push_address(out: &mut Vec<u8>, address: &Address)
    ensures
        final(out)@ == old(out)@ + address@,
{
    let mut i: usize = 0;
    while i < 32
        invariant
            i <= 32,
            out@ == old(out)@ + address@.subrange(0, i as int),
        decreases 32 - i,
    {
        out.push(address[i]);
        i += 1;
        assert(out@ =~= old(out)@ + address@.subrange(0, i as int));
    }
    assert(address@.subrange(0, 32) =~= address@);
}

/// Storing a record and reading it back gives the same record.
pub proof fn lemma_packed_then_unpacked(state: EscrowState)
    ensures
        is_packed_state(state.packed()),
        unpacked_state(state.packed()) == state,
{
    let data = state.packed();
    let back = unpacked_state(data);
    lemma_le_bytes_then_le_u64(state.expected_y_token_amount);
    assert(data.subrange(1, 33) =~= state.alice_pubkey@);
    assert(data.subrange(33, 65) =~= state.alice_temp_x_token_pubkey@);
    assert(data.subrange(65, 97) =~= state.alice_y_token_pubkey@);
    assert(data.subrange(97, 105) =~= le_bytes(state.expected_y_token_amount));
    assert(back.alice_pubkey@ == state.alice_pubkey@);
    assert(back.alice_pubkey =~= state.alice_pubkey);
    assert(back.alice_temp_x_token_pubkey@ == state.alice_temp_x_token_pubkey@);
    assert(back.alice_temp_x_token_pubkey =~= state.alice_temp_x_token_pubkey);
    assert(back.alice_y_token_pubkey@ == state.alice_y_token_pubkey@);
    assert(back.alice_y_token_pubkey =~= state.alice_y_token_pubkey);
}

/// Reading a stored record and storing it again gives the same bytes.
pub proof fn lemma_unpacked_then_packed(data: Seq<u8>)
    requires
        is_packed_state(data),
    ensures
        unpacked_state(data).packed() == data,
{
    let state = unpacked_state(data);
    lemma_address_at(data, 1);
    lemma_address_at(data, 33);
    lemma_address_at(data, 65);
    lemma_le_u64_in_range(data.subrange(97, 105));
    lemma_le_u64_then_le_bytes(data.subrange(97, 105));
    assert(state.packed() =~= data);
}

/// Two records with the same stored form are the same record.
pub proof fn lemma_packed_is_injective(a: EscrowState, b: EscrowState)
    requires
        a.packed() == b.packed(),
    ensures
        a == b,
{
    lemma_packed_then_unpacked(a);
    lemma_packed_then_unpacked(b);
}

} // verus!
