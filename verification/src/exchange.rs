//! The exchange: the counterparty pays, receives the locked asset, and the
//! trade ends.

use vstd::prelude::*;
use crate::account::{
    AccountSnapshot, EXCHANGE_ACCOUNTS, EXCHANGE_COUNTERPARTY, EXCHANGE_CUSTODY,
    EXCHANGE_INITIATOR, EXCHANGE_LOCKED_ASSET, EXCHANGE_PAYMENT, EXCHANGE_PAYOUT,
    EXCHANGE_RECEIVING, EXCHANGE_RECORD, EXCHANGE_TOKEN_PROGRAM,
};
use crate::address::{same_address, Address};
use crate::custody::{custody_address, derive_custody_address};
use crate::error::EscrowError;
use crate::processor::EscrowProcessor;
use crate::plan::{
    CustodySeeds, ExchangePlan, ExchangePlanView, Invocation, InvocationView, Settlement,
};
use crate::state::{is_ended, is_packed_state, unpacked_state, EscrowState};
use crate::token::{
    close_account, close_account_call, readonly, token_account_amount, token_program_address,
    token_program_id, transfer, transfer_call, unpack_token_amount,
};

verus! {

/// The first check of an exchange that fails, if one does, given the stored
/// record, the balance of the custody-held account and the custody address
/// derived again from the stored seed byte. In order: the account list is
/// complete; the counterparty signed; the initiator and the payout account
/// are those of the record; the seed byte derives an address, and it is the
/// supplied custody address; the custody-held account is that of the record;
/// the declared amount is the custody balance; the record describes an
/// active trade.
pub open spec fn exchange_rejection(
    state: EscrowState,
    custody_balance: u64,
    derived: Option<Address>,
    accounts: Seq<AccountSnapshot>,
    expected_x_token_amount: u64,
) -> Option<EscrowError> {
    if accounts.len() < EXCHANGE_ACCOUNTS {
        Some(EscrowError::NotEnoughAccountKeys)
    } else if !accounts[EXCHANGE_COUNTERPARTY as int].is_signer {
        Some(EscrowError::MissingSignature)
    } else if state.alice_pubkey != accounts[EXCHANGE_INITIATOR as int].key {
        Some(EscrowError::InvalidAccountData)
    } else if state.alice_y_token_pubkey != accounts[EXCHANGE_PAYOUT as int].key {
        Some(EscrowError::InvalidAccountData)
    } else if derived is None {
        Some(EscrowError::InvalidSeeds)
    } else if derived != Some(accounts[EXCHANGE_CUSTODY as int].key) {
        Some(EscrowError::InvalidAccountData)
    } else if state.alice_temp_x_token_pubkey != accounts[EXCHANGE_LOCKED_ASSET as int].key {
        Some(EscrowError::InvalidAccountData)
    } else if expected_x_token_amount != custody_balance {
        Some(EscrowError::InsufficientFunds)
    } else if !state.is_initialized {
        Some(EscrowError::UninitializedAccount)
    } else {
        None
    }
}

/// What an accepted exchange asks for: the counterparty pays the initiator
/// what the record asks for, the program releases the whole locked balance
/// to the counterparty and closes the custody-held account in the
/// initiator's favour, both as the custody address, and the record's deposit
/// goes to the initiator.
pub open spec fn exchange_plan(
    state: EscrowState,
    custody_balance: u64,
    accounts: Seq<AccountSnapshot>,
) -> ExchangePlanView
    recommends
        accounts.len() >= EXCHANGE_ACCOUNTS,
{
    let counterparty = accounts[EXCHANGE_COUNTERPARTY as int].key;
    let locked_asset = accounts[EXCHANGE_LOCKED_ASSET as int].key;
    let initiator = accounts[EXCHANGE_INITIATOR as int].key;
    let custody = accounts[EXCHANGE_CUSTODY as int].key;
    let seeds = CustodySeeds { initiator, bump: state.escrow_pda_bump };
    ExchangePlanView {
        pay_initiator: InvocationView {
            call: transfer_call(
                token_program_address(),
                accounts[EXCHANGE_PAYMENT as int].key,
                accounts[EXCHANGE_PAYOUT as int].key,
                counterparty,
                counterparty,
                state.expected_y_token_amount,
            ),
            accounts: seq![
                EXCHANGE_PAYMENT,
                EXCHANGE_PAYOUT,
                EXCHANGE_COUNTERPARTY,
                EXCHANGE_TOKEN_PROGRAM,
            ],
            signer_seeds: None,
        },
        release_asset: InvocationView {
            call: transfer_call(
                token_program_address(),
                locked_asset,
                accounts[EXCHANGE_RECEIVING as int].key,
                custody,
                custody,
                custody_balance,
            ),
            accounts: seq![
                EXCHANGE_LOCKED_ASSET,
                EXCHANGE_RECEIVING,
                EXCHANGE_CUSTODY,
                EXCHANGE_TOKEN_PROGRAM,
            ],
            signer_seeds: Some(seeds),
        },
        close_custody: InvocationView {
            call: close_account_call(
                token_program_address(),
                locked_asset,
                initiator,
                custody,
                custody,
            ),
            accounts: seq![
                EXCHANGE_LOCKED_ASSET,
                EXCHANGE_INITIATOR,
                EXCHANGE_CUSTODY,
                EXCHANGE_TOKEN_PROGRAM,
            ],
            signer_seeds: Some(seeds),
        },
        settlement: Settlement { record: EXCHANGE_RECORD, recipient: EXCHANGE_INITIATOR },
    }
}

/// The reason for which an exchange on these accounts is rejected, if it is:
/// too few accounts, a counterparty who did not sign, a custody-held account
/// that is no token account, a record that does not decode, or the first
/// failed check of `exchange_rejection`, in this order. A missing signature
/// is the reason whatever the accounts hold.
pub open spec fn process_exchange_rejection(
    program_id: Address,
    accounts: Seq<AccountSnapshot>,
    expected_x_token_amount: u64,
) -> Option<EscrowError> {
    if accounts.len() < EXCHANGE_ACCOUNTS {
        Some(EscrowError::NotEnoughAccountKeys)
    } else if !accounts[EXCHANGE_COUNTERPARTY as int].is_signer {
        Some(EscrowError::MissingSignature)
    } else {
        match token_account_amount(accounts[EXCHANGE_LOCKED_ASSET as int].data@) {
            Err(e) => Some(e),
            Ok(custody_balance) => {
                let record = accounts[EXCHANGE_RECORD as int].data@;
                if !is_packed_state(record) {
                    Some(EscrowError::InvalidAccountData)
                } else {
                    let state = unpacked_state(record);
                    exchange_rejection(
                        state,
                        custody_balance,
                        custody_address(
                            accounts[EXCHANGE_INITIATOR as int].key,
                            state.escrow_pda_bump,
                            program_id,
                        ),
                        accounts,
                        expected_x_token_amount,
                    )
                }
            },
        }
    }
}

/// What an exchange on these accounts asks for, where it is accepted.
pub open spec fn process_exchange_plan(accounts: Seq<AccountSnapshot>) -> ExchangePlanView
    recommends
        accounts.len() >= EXCHANGE_ACCOUNTS,
{
    exchange_plan(
        unpacked_state(accounts[EXCHANGE_RECORD as int].data@),
        token_account_amount(accounts[EXCHANGE_LOCKED_ASSET as int].data@)->Ok_0,
        accounts,
    )
}

impl EscrowProcessor {
    /// Decides an exchange once the record is decoded, the custody balance
    /// read and the custody address derived again: makes the checks in order
    /// and, if all pass, puts the plan together.
    pub fn exchange_escrow(
        state: &EscrowState,
        custody_balance: u64,
        derived: Option<Address>,
        accounts: &[AccountSnapshot],
        expected_x_token_amount: u64,
    ) -> (res: Result<ExchangePlan, EscrowError>)
        ensures
            match res {
                Ok(plan) => exchange_rejection(
                    *state,
                    custody_balance,
                    derived,
                    accounts@,
                    expected_x_token_amount,
                ) is None && plan@ == exchange_plan(*state, custody_balance, accounts@),
                Err(e) => exchange_rejection(
                    *state,
                    custody_balance,
                    derived,
                    accounts@,
                    expected_x_token_amount,
                ) == Some(e),
            },
    {
        if accounts.len() < EXCHANGE_ACCOUNTS {
            return Err(EscrowError::NotEnoughAccountKeys);
        }
        let counterparty = &accounts[EXCHANGE_COUNTERPARTY];
        let payment = &accounts[EXCHANGE_PAYMENT];
        let receiving = &accounts[EXCHANGE_RECEIVING];
        let locked_asset = &accounts[EXCHANGE_LOCKED_ASSET];
        let initiator = &accounts[EXCHANGE_INITIATOR];
        let payout = &accounts[EXCHANGE_PAYOUT];
        let custody = &accounts[EXCHANGE_CUSTODY];

        if !counterparty.is_signer {
            return Err(EscrowError::MissingSignature);
        }
        if !same_address(&state.alice_pubkey, &initiator.key) {
            return Err(EscrowError::InvalidAccountData);
        }
        if !same_address(&state.alice_y_token_pubkey, &payout.key) {
            return Err(EscrowError::InvalidAccountData);
        }
        match derived {
            None => {
                return Err(EscrowError::InvalidSeeds);
            },
            Some(address) => {
                if !same_address(&address, &custody.key) {
                    return Err(EscrowError::InvalidAccountData);
                }
            },
        }
        if !same_address(&state.alice_temp_x_token_pubkey, &locked_asset.key) {
            return Err(EscrowError::InvalidAccountData);
        }
        if expected_x_token_amount != custody_balance {
            return Err(EscrowError::InsufficientFunds);
        }
        if !state.is_initialized() {
            return Err(EscrowError::UninitializedAccount);
        }
        let token_program = token_program_id();
        let seeds = CustodySeeds { initiator: initiator.key, bump: state.escrow_pda_bump };
        let pay_initiator = match transfer(
            &token_program,
            &payment.key,
            &payout.key,
            &counterparty.key,
            &counterparty.key,
            state.expected_y_token_amount,
        ) {
            Ok(call) => Invocation {
                call,
                accounts: vec![
                    EXCHANGE_PAYMENT,
                    EXCHANGE_PAYOUT,
                    EXCHANGE_COUNTERPARTY,
                    EXCHANGE_TOKEN_PROGRAM,
                ],
                signer_seeds: None,
            },
            Err(e) => {
                return Err(e);
            },
        };
        let release_asset = match transfer(
            &token_program,
            &locked_asset.key,
            &receiving.key,
            &custody.key,
            &custody.key,
            custody_balance,
        ) {
            Ok(call) => Invocation {
                call,
                accounts: vec![
                    EXCHANGE_LOCKED_ASSET,
                    EXCHANGE_RECEIVING,
                    EXCHANGE_CUSTODY,
                    EXCHANGE_TOKEN_PROGRAM,
                ],
                signer_seeds: Some(seeds),
            },
            Err(e) => {
                return Err(e);
            },
        };
        let close_custody = match close_account(
            &token_program,
            &locked_asset.key,
            &initiator.key,
            &custody.key,
            &custody.key,
        ) {
            Ok(call) => Invocation {
                call,
                accounts: vec![
                    EXCHANGE_LOCKED_ASSET,
                    EXCHANGE_INITIATOR,
                    EXCHANGE_CUSTODY,
                    EXCHANGE_TOKEN_PROGRAM,
                ],
                signer_seeds: Some(seeds),
            },
            Err(e) => {
                return Err(e);
            },
        };
        let plan = ExchangePlan {
            pay_initiator,
            release_asset,
            close_custody,
            settlement: Settlement { record: EXCHANGE_RECORD, recipient: EXCHANGE_INITIATOR },
        };
        proof {
            let want = exchange_plan(*state, custody_balance, accounts@);
            assert(plan.pay_initiator@.accounts =~= want.pay_initiator.accounts);
            assert(plan.release_asset@.accounts =~= want.release_asset.accounts);
            assert(plan.close_custody@.accounts =~= want.close_custody.accounts);
        }
        Ok(plan)
    }

    /// Handles an exchange: asks for the counterparty's signature, reads the
    /// custody balance and the record from the supplied accounts, derives the
    /// custody address again from the stored seed byte, and decides as
    /// `exchange_escrow` does.
    pub fn process_exchange_escrow(
        program_id: &Address,
        accounts: &[AccountSnapshot],
        expected_x_token_amount: u64,
    ) -> (res: Result<ExchangePlan, EscrowError>)
        ensures
            match res {
                Ok(plan) => {
                    &&& process_exchange_rejection(
                        *program_id,
                        accounts@,
                        expected_x_token_amount,
                    ) is None
                    &&& plan@ == process_exchange_plan(accounts@)
                },
                Err(e) => process_exchange_rejection(
                    *program_id,
                    accounts@,
                    expected_x_token_amount,
                ) == Some(e),
            },
    {
        if accounts.len() < EXCHANGE_ACCOUNTS {
            return Err(EscrowError::NotEnoughAccountKeys);
        }
        if !accounts[EXCHANGE_COUNTERPARTY].is_signer {
            return Err(EscrowError::MissingSignature);
        }
        let custody_balance = match unpack_token_amount(
            accounts[EXCHANGE_LOCKED_ASSET].data.as_slice(),
        ) {
            Ok(amount) => amount,
            Err(e) => {
                return Err(e);
            },
        };
        let state = match EscrowState::try_from_slice(accounts[EXCHANGE_RECORD].data.as_slice()) {
            Ok(state) => state,
            Err(e) => {
                return Err(e);
            },
        };
        let derived = derive_custody_address(
            &accounts[EXCHANGE_INITIATOR].key,
            state.escrow_pda_bump,
            program_id,
        );
        Self::exchange_escrow(&state, custody_balance, derived, accounts, expected_x_token_amount)
    }
}

/// An exchange is accepted exactly when the account list is complete, the
/// custody-held account reads as a token account, the record decodes to an
/// active trade, the counterparty signed, the initiator, the payout account,
/// the custody address and the custody-held account are those of the record,
/// and the declared amount is the custody balance.
pub proof fn lemma_exchange_accepted_iff(
    program_id: Address,
    accounts: Seq<AccountSnapshot>,
    expected_x_token_amount: u64,
)
    ensures
        process_exchange_rejection(program_id, accounts, expected_x_token_amount) is None <==> {
            let state = unpacked_state(accounts[EXCHANGE_RECORD as int].data@);
            &&& accounts.len() >= EXCHANGE_ACCOUNTS
            &&& token_account_amount(accounts[EXCHANGE_LOCKED_ASSET as int].data@) == Ok::<
                u64,
                EscrowError,
            >(expected_x_token_amount)
            &&& is_packed_state(accounts[EXCHANGE_RECORD as int].data@)
            &&& state.is_initialized
            &&& accounts[EXCHANGE_COUNTERPARTY as int].is_signer
            &&& state.alice_pubkey == accounts[EXCHANGE_INITIATOR as int].key
            &&& state.alice_y_token_pubkey == accounts[EXCHANGE_PAYOUT as int].key
            &&& custody_address(state.alice_pubkey, state.escrow_pda_bump, program_id) == Some(
                accounts[EXCHANGE_CUSTODY as int].key,
            )
            &&& state.alice_temp_x_token_pubkey == accounts[EXCHANGE_LOCKED_ASSET as int].key
        },
{
}

/// Once a record is closed or empty, no exchange on it is accepted: contents
/// that are no record, and a record that describes no active trade, are both
/// turned down.
pub proof fn lemma_exchange_rejects_ended_trade(
    program_id: Address,
    accounts: Seq<AccountSnapshot>,
    expected_x_token_amount: u64,
)
    requires
        accounts.len() >= EXCHANGE_ACCOUNTS ==> is_ended(accounts[EXCHANGE_RECORD as int].data@),
    ensures
        process_exchange_rejection(program_id, accounts, expected_x_token_amount) is Some,
{
}

/// In an accepted exchange the program signs for the address it derived
/// itself: the seeds that go with the two custody calls derive the custody
/// address, which those calls name as authority and as signer; the payment
/// goes on the counterparty's own signature.
pub proof fn lemma_exchange_signs_as_custody(
    program_id: Address,
    accounts: Seq<AccountSnapshot>,
    expected_x_token_amount: u64,
)
    requires
        process_exchange_rejection(program_id, accounts, expected_x_token_amount) is None,
    ensures
        ({
            let plan = process_exchange_plan(accounts);
            let custody = accounts[EXCHANGE_CUSTODY as int].key;
            let counterparty = accounts[EXCHANGE_COUNTERPARTY as int].key;
            &&& plan.release_asset.signer_seeds matches Some(seeds) && custody_address(
                seeds.initiator,
                seeds.bump,
                program_id,
            ) == Some(custody)
            &&& plan.close_custody.signer_seeds == plan.release_asset.signer_seeds
            &&& plan.release_asset.call.accounts[2] == readonly(custody, false)
            &&& plan.release_asset.call.accounts[3] == readonly(custody, true)
            &&& plan.close_custody.call.accounts[2] == readonly(custody, false)
            &&& plan.close_custody.call.accounts[3] == readonly(custody, true)
            &&& plan.pay_initiator.signer_seeds is None
            &&& plan.pay_initiator.call.accounts[3] == readonly(counterparty, true)
        }),
{
}

/// An exchange asks for the counterparty's signature before anything else:
/// with a complete account list and no signature the reason is the missing
/// signature, whatever the accounts hold and whatever amount is declared.
pub proof fn lemma_exchange_asks_for_the_signature_first(
    program_id: Address,
    accounts: Seq<AccountSnapshot>,
    expected_x_token_amount: u64,
)
    requires
        accounts.len() >= EXCHANGE_ACCOUNTS,
        !accounts[EXCHANGE_COUNTERPARTY as int].is_signer,
    ensures
        process_exchange_rejection(program_id, accounts, expected_x_token_amount) == Some(
            EscrowError::MissingSignature,
        ),
{
}

} // verus!
