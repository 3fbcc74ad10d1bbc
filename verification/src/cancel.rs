//! The cancellation: the locked asset goes back to the initiator, and the
//! trade ends without a counterparty.

use vstd::prelude::*;
use crate::account::{
    AccountSnapshot, CANCEL_ACCOUNTS, CANCEL_CUSTODY, CANCEL_INITIATOR, CANCEL_LOCKED_ASSET,
    CANCEL_RECLAIM, CANCEL_RECORD, CANCEL_TOKEN_PROGRAM,
};
use crate::address::{same_address, Address};
use crate::custody::{custody_address, derive_custody_address};
use crate::error::EscrowError;
use crate::plan::{CancelPlan, CancelPlanView, CustodySeeds, Invocation, InvocationView, Settlement};
use crate::processor::EscrowProcessor;
use crate::state::{is_ended, is_packed_state, unpacked_state, EscrowState};
use crate::token::{
    close_account, close_account_call, readonly, token_account_amount, token_program_address,
    token_program_id, transfer, transfer_call, unpack_token_amount,
};

verus! {

/// The first check of a cancellation that fails, if one does, given the
/// stored record, the custody address derived again from the stored seed
/// byte, and what the custody-held account reads as. In order: the account
/// list is complete; the custody-held account is that of the record; the
/// seed byte derives an address, and it is the supplied custody address; the
/// custody-held account is a token account; the initiator is that of the
/// record; the record describes an active trade.
pub open spec fn cancel_rejection(
    state: EscrowState,
    derived: Option<Address>,
    custody_balance: Result<u64, EscrowError>,
    accounts: Seq<AccountSnapshot>,
) -> Option<EscrowError> {
    if accounts.len() < CANCEL_ACCOUNTS {
        Some(EscrowError::NotEnoughAccountKeys)
    } else if state.alice_temp_x_token_pubkey != accounts[CANCEL_LOCKED_ASSET as int].key {
        Some(EscrowError::InvalidAccountData)
    } else if derived is None {
        Some(EscrowError::InvalidSeeds)
    } else if derived != Some(accounts[CANCEL_CUSTODY as int].key) {
        Some(EscrowError::InvalidAccountData)
    } else if custody_balance is Err {
        Some(custody_balance->Err_0)
    } else if state.alice_pubkey != accounts[CANCEL_INITIATOR as int].key {
        Some(EscrowError::InvalidAccountData)
    } else if !state.is_initialized {
        Some(EscrowError::UninitializedAccount)
    } else {
        None
    }
}

/// What an accepted cancellation asks for: the program returns the whole
/// locked balance to the initiator's reclaim account and closes the
/// custody-held account in the initiator's favour, both as the custody
/// address, and the record's deposit goes to the initiator.
pub open spec fn cancel_plan(
    state: EscrowState,
    custody_balance: u64,
    accounts: Seq<AccountSnapshot>,
) -> CancelPlanView
    recommends
        accounts.len() >= CANCEL_ACCOUNTS,
{
    let initiator = accounts[CANCEL_INITIATOR as int].key;
    let locked_asset = accounts[CANCEL_LOCKED_ASSET as int].key;
    let custody = accounts[CANCEL_CUSTODY as int].key;
    let seeds = CustodySeeds { initiator, bump: state.escrow_pda_bump };
    CancelPlanView {
        return_asset: InvocationView {
            call: transfer_call(
                token_program_address(),
                locked_asset,
                accounts[CANCEL_RECLAIM as int].key,
                custody,
                custody,
                custody_balance,
            ),
            accounts: seq![
                CANCEL_LOCKED_ASSET,
                CANCEL_RECLAIM,
                CANCEL_CUSTODY,
                CANCEL_TOKEN_PROGRAM,
            ],
            signer_seeds: Some(seeds),
        },
        close_custody: InvocationView {
            call: close_account_call(
                token_program_address(),
                locked_asset,
                initiator,
                custody,
                custody,
            ),
            accounts: seq![CANCEL_LOCKED_ASSET, CANCEL_INITIATOR, CANCEL_CUSTODY],
            signer_seeds: Some(seeds),
        },
        settlement: Settlement { record: CANCEL_RECORD, recipient: CANCEL_INITIATOR },
    }
}

/// The reason for which a cancellation on these accounts is rejected, if it
/// is: too few accounts, a record account that this program does not own, a
/// record that does not decode, or the first failed check of
/// `cancel_rejection`.
pub open spec fn process_cancel_rejection(
    program_id: Address,
    accounts: Seq<AccountSnapshot>,
) -> Option<EscrowError> {
    if accounts.len() < CANCEL_ACCOUNTS {
        Some(EscrowError::NotEnoughAccountKeys)
    } else if accounts[CANCEL_RECORD as int].owner != program_id {
        Some(EscrowError::WrongProgramOwner)
    } else {
        let record = accounts[CANCEL_RECORD as int].data@;
        if !is_packed_state(record) {
            Some(EscrowError::InvalidAccountData)
        } else {
            let state = unpacked_state(record);
            cancel_rejection(
                state,
                custody_address(
                    accounts[CANCEL_INITIATOR as int].key,
                    state.escrow_pda_bump,
                    program_id,
                ),
                token_account_amount(accounts[CANCEL_LOCKED_ASSET as int].data@),
                accounts,
            )
        }
    }
}

/// What a cancellation on these accounts asks for, where it is accepted.
pub open spec fn process_cancel_plan(accounts: Seq<AccountSnapshot>) -> CancelPlanView
    recommends
        accounts.len() >= CANCEL_ACCOUNTS,
{
    cancel_plan(
        unpacked_state(accounts[CANCEL_RECORD as int].data@),
        token_account_amount(accounts[CANCEL_LOCKED_ASSET as int].data@)->Ok_0,
        accounts,
    )
}

impl EscrowProcessor {
    /// Decides a cancellation once the record is decoded, the custody address
    /// derived again and the custody-held account read: makes the checks in
    /// order and, if all pass, puts the plan together.
    pub fn cancel_escrow(
        state: &EscrowState,
        derived: Option<Address>,
        custody_balance: Result<u64, EscrowError>,
        accounts: &[AccountSnapshot],
    ) -> (res: Result<CancelPlan, EscrowError>)
        ensures
            match res {
                Ok(plan) => {
                    &&& cancel_rejection(*state, derived, custody_balance, accounts@) is None
                    &&& custody_balance is Ok
                    &&& plan@ == cancel_plan(*state, custody_balance->Ok_0, accounts@)
                },
                Err(e) => cancel_rejection(*state, derived, custody_balance, accounts@) == Some(e),
            },
    {
        if accounts.len() < CANCEL_ACCOUNTS {
            return Err(EscrowError::NotEnoughAccountKeys);
        }
        let initiator = &accounts[CANCEL_INITIATOR];
        let locked_asset = &accounts[CANCEL_LOCKED_ASSET];
        let reclaim = &accounts[CANCEL_RECLAIM];
        let custody = &accounts[CANCEL_CUSTODY];

        if !same_address(&state.alice_temp_x_token_pubkey, &locked_asset.key) {
            return Err(EscrowError::InvalidAccountData);
        }
        match derived {
            None => {
                return Err(EscrowError::InvalidSeeds);
            },
            Some(address) => {
                if !same_address(&address, &custody.key) {
                    return Err(EscrowError::InvalidAccountData);
                }
            },
        }
        let amount = match custody_balance {
            Ok(amount) => amount,
            Err(e) => {
                return Err(e);
            },
        };
        if !same_address(&state.alice_pubkey, &initiator.key) {
            return Err(EscrowError::InvalidAccountData);
        }
        if !state.is_initialized() {
            return Err(EscrowError::UninitializedAccount);
        }
        let token_program = token_program_id();
        let seeds = CustodySeeds { initiator: initiator.key, bump: state.escrow_pda_bump };
        let return_asset = match transfer(
            &token_program,
            &locked_asset.key,
            &reclaim.key,
            &custody.key,
            &custody.key,
            amount,
        ) {
            Ok(call) => Invocation {
                call,
                accounts: vec![
                    CANCEL_LOCKED_ASSET,
                    CANCEL_RECLAIM,
                    CANCEL_CUSTODY,
                    CANCEL_TOKEN_PROGRAM,
                ],
                signer_seeds: Some(seeds),
            },
            Err(e) => {
                return Err(e);
            },
        };
        let close_custody = match close_account(
            &token_program,
            &locked_asset.key,
            &initiator.key,
            &custody.key,
            &custody.key,
        ) {
            Ok(call) => Invocation {
                call,
                accounts: vec![CANCEL_LOCKED_ASSET, CANCEL_INITIATOR, CANCEL_CUSTODY],
                signer_seeds: Some(seeds),
            },
            Err(e) => {
                return Err(e);
            },
        };
        let plan = CancelPlan {
            return_asset,
            close_custody,
            settlement: Settlement { record: CANCEL_RECORD, recipient: CANCEL_INITIATOR },
        };
        proof {
            let want = cancel_plan(*state, amount, accounts@);
            assert(plan.return_asset@.accounts =~= want.return_asset.accounts);
            assert(plan.close_custody@.accounts =~= want.close_custody.accounts);
        }
        Ok(plan)
    }

    /// Handles a cancellation: checks that this program owns the record
    /// account, reads the record, derives the custody address again from the
    /// stored seed byte, reads the custody-held account, and decides as
    /// `cancel_escrow` does.
    pub fn process_cancel_escrow(program_id: &Address, accounts: &[AccountSnapshot]) -> (res:
        Result<CancelPlan, EscrowError>)
        ensures
            match res {
                Ok(plan) => {
                    &&& process_cancel_rejection(*program_id, accounts@) is None
                    &&& plan@ == process_cancel_plan(accounts@)
                },
                Err(e) => process_cancel_rejection(*program_id, accounts@) == Some(e),
            },
    {
        if accounts.len() < CANCEL_ACCOUNTS {
            return Err(EscrowError::NotEnoughAccountKeys);
        }
        if !same_address(&accounts[CANCEL_RECORD].owner, program_id) {
            return Err(EscrowError::WrongProgramOwner);
        }
        let state = match EscrowState::try_from_slice(accounts[CANCEL_RECORD].data.as_slice()) {
            Ok(state) => state,
            Err(e) => {
                return Err(e);
            },
        };
        let derived = derive_custody_address(
            &accounts[CANCEL_INITIATOR].key,
            state.escrow_pda_bump,
            program_id,
        );
        let custody_balance = unpack_token_amount(accounts[CANCEL_LOCKED_ASSET].data.as_slice());
        Self::cancel_escrow(&state, derived, custody_balance, accounts)
    }
}

/// Once a record is closed or empty, no cancellation on it is accepted:
/// contents that are no record, and a record that describes no active trade,
/// are both turned down.
pub proof fn lemma_cancel_rejects_ended_trade(program_id: Address, accounts: Seq<AccountSnapshot>)
    requires
        accounts.len() >= CANCEL_ACCOUNTS ==> is_ended(accounts[CANCEL_RECORD as int].data@),
    ensures
        process_cancel_rejection(program_id, accounts) is Some,
{
}

/// In an accepted cancellation the program signs for the address it derived
/// itself: the seeds that go with the two calls derive the custody address,
/// which the calls name as authority and as signer.
pub proof fn lemma_cancel_signs_as_custody(program_id: Address, accounts: Seq<AccountSnapshot>)
    requires
        process_cancel_rejection(program_id, accounts) is None,
    ensures
        ({
            let plan = process_cancel_plan(accounts);
            let custody = accounts[CANCEL_CUSTODY as int].key;
            &&& plan.return_asset.signer_seeds matches Some(seeds) && custody_address(
                seeds.initiator,
                seeds.bump,
                program_id,
            ) == Some(custody)
            &&& plan.close_custody.signer_seeds == plan.return_asset.signer_seeds
            &&& plan.return_asset.call.accounts[2] == readonly(custody, false)
            &&& plan.return_asset.call.accounts[3] == readonly(custody, true)
            &&& plan.close_custody.call.accounts[2] == readonly(custody, false)
            &&& plan.close_custody.call.accounts[3] == readonly(custody, true)
        }),
{
}

/// A cancellation is accepted exactly when the account list is complete,
/// this program owns the record account, the record decodes to an active
/// trade of the supplied initiator, the custody-held account and the custody
/// address are those of the record, and the custody-held account reads as a
/// token account.
pub proof fn lemma_cancel_accepted_iff(program_id: Address, accounts: Seq<AccountSnapshot>)
    ensures
        process_cancel_rejection(program_id, accounts) is None <==> {
            let state = unpacked_state(accounts[CANCEL_RECORD as int].data@);
            &&& accounts.len() >= CANCEL_ACCOUNTS
            &&& accounts[CANCEL_RECORD as int].owner == program_id
            &&& is_packed_state(accounts[CANCEL_RECORD as int].data@)
            &&& state.alice_temp_x_token_pubkey == accounts[CANCEL_LOCKED_ASSET as int].key
            &&& custody_address(
                accounts[CANCEL_INITIATOR as int].key,
                state.escrow_pda_bump,
                program_id,
            ) == Some(accounts[CANCEL_CUSTODY as int].key)
            &&& token_account_amount(accounts[CANCEL_LOCKED_ASSET as int].data@) is Ok
            &&& state.alice_pubkey == accounts[CANCEL_INITIATOR as int].key
            &&& state.is_initialized
        },
{
}

/// A cancellation reports a cross-check that fails whether or not the record
/// is active: a custody-held account other than the stored one, and a
/// derived custody address other than the supplied one, both count as
/// invalid account data; a seed byte that derives nothing gives the reason
/// of its own.
pub proof fn lemma_cancel_reports_mismatches(program_id: Address, accounts: Seq<AccountSnapshot>)
    requires
        accounts.len() >= CANCEL_ACCOUNTS,
        accounts[CANCEL_RECORD as int].owner == program_id,
        is_packed_state(accounts[CANCEL_RECORD as int].data@),
    ensures
        ({
            let state = unpacked_state(accounts[CANCEL_RECORD as int].data@);
            let derived = custody_address(
                accounts[CANCEL_INITIATOR as int].key,
                state.escrow_pda_bump,
                program_id,
            );
            let locked_asset_matches = state.alice_temp_x_token_pubkey
                == accounts[CANCEL_LOCKED_ASSET as int].key;
            &&& !locked_asset_matches ==> process_cancel_rejection(program_id, accounts) == Some(
                EscrowError::InvalidAccountData,
            )
            &&& locked_asset_matches && derived is None ==> process_cancel_rejection(
                program_id,
                accounts,
            ) == Some(EscrowError::InvalidSeeds)
            &&& locked_asset_matches && derived is Some && derived != Some(
                accounts[CANCEL_CUSTODY as int].key,
            ) ==> process_cancel_rejection(program_id, accounts) == Some(
                EscrowError::InvalidAccountData,
            )
        }),
{
}

} // verus!
