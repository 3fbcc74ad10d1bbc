//! The life of a trade: an initialization starts it, and exactly one exchange
//! or one cancellation ends it.

use vstd::prelude::*;
use crate::account::{
    AccountSnapshot, CANCEL_ACCOUNTS, CANCEL_CUSTODY, CANCEL_INITIATOR, CANCEL_LOCKED_ASSET,
    CANCEL_RECORD, EXCHANGE_ACCOUNTS, EXCHANGE_COUNTERPARTY, EXCHANGE_CUSTODY,
    EXCHANGE_INITIATOR, EXCHANGE_LOCKED_ASSET, EXCHANGE_PAYMENT, EXCHANGE_PAYOUT, EXCHANGE_RECORD,
    INITIALIZE_INITIATOR, INITIALIZE_LOCKED_ASSET, INITIALIZE_PAYOUT,
};
use crate::address::Address;
use crate::cancel::process_cancel_rejection;
use crate::error::EscrowError;
use crate::exchange::{process_exchange_plan, process_exchange_rejection};
use crate::initialize::{
    lemma_initialized_record_rederives_custody, process_initialize_plan,
    process_initialize_rejection,
};
use crate::token::{token_account_amount, token_program_address, transfer_call};

verus! {

/// A trade that an initialization started can be completed: an exchange on
/// the stored record is accepted when the counterparty signs, supplies the
/// accounts that the initialization named together with the custody address
/// it produced, and declares the balance that the custody-held account holds.
/// The initiator is then paid exactly what the initialization asked for.
pub proof fn lemma_initialized_trade_can_be_exchanged(
    program_id: Address,
    initialize_accounts: Seq<AccountSnapshot>,
    expected_y_token_amount: u64,
    exchange_accounts: Seq<AccountSnapshot>,
    expected_x_token_amount: u64,
)
    requires
        process_initialize_rejection(program_id, initialize_accounts) is None,
        exchange_accounts.len() >= EXCHANGE_ACCOUNTS,
        Some(exchange_accounts[EXCHANGE_RECORD as int].data@) == stored_record(
            program_id,
            initialize_accounts,
            expected_y_token_amount,
        ),
        Some(exchange_accounts[EXCHANGE_CUSTODY as int].key) == produced_custody(
            program_id,
            initialize_accounts,
            expected_y_token_amount,
        ),
        exchange_accounts[EXCHANGE_INITIATOR as int].key
            == initialize_accounts[INITIALIZE_INITIATOR as int].key,
        exchange_accounts[EXCHANGE_PAYOUT as int].key
            == initialize_accounts[INITIALIZE_PAYOUT as int].key,
        exchange_accounts[EXCHANGE_LOCKED_ASSET as int].key
            == initialize_accounts[INITIALIZE_LOCKED_ASSET as int].key,
        exchange_accounts[EXCHANGE_COUNTERPARTY as int].is_signer,
        token_account_amount(exchange_accounts[EXCHANGE_LOCKED_ASSET as int].data@) == Ok::<
            u64,
            EscrowError,
        >(expected_x_token_amount),
    ensures
        process_exchange_rejection(program_id, exchange_accounts, expected_x_token_amount) is None,
        process_exchange_plan(exchange_accounts).pay_initiator.call == transfer_call(
            token_program_address(),
            exchange_accounts[EXCHANGE_PAYMENT as int].key,
            initialize_accounts[INITIALIZE_PAYOUT as int].key,
            exchange_accounts[EXCHANGE_COUNTERPARTY as int].key,
            exchange_accounts[EXCHANGE_COUNTERPARTY as int].key,
            expected_y_token_amount,
        ),
{
    lemma_initialized_record_rederives_custody(
        program_id,
        initialize_accounts,
        expected_y_token_amount,
    );
}

/// A trade that an initialization started can be called off: a cancellation
/// on the stored record is accepted when this program owns the record
/// account, the accounts are those that the initialization named together
/// with the custody address it produced, and the custody-held account reads
/// as a token account.
pub proof fn lemma_initialized_trade_can_be_cancelled(
    program_id: Address,
    initialize_accounts: Seq<AccountSnapshot>,
    expected_y_token_amount: u64,
    cancel_accounts: Seq<AccountSnapshot>,
)
    requires
        process_initialize_rejection(program_id, initialize_accounts) is None,
        cancel_accounts.len() >= CANCEL_ACCOUNTS,
        cancel_accounts[CANCEL_RECORD as int].owner == program_id,
        Some(cancel_accounts[CANCEL_RECORD as int].data@) == stored_record(
            program_id,
            initialize_accounts,
            expected_y_token_amount,
        ),
        Some(cancel_accounts[CANCEL_CUSTODY as int].key) == produced_custody(
            program_id,
            initialize_accounts,
            expected_y_token_amount,
        ),
        cancel_accounts[CANCEL_INITIATOR as int].key
            == initialize_accounts[INITIALIZE_INITIATOR as int].key,
        cancel_accounts[CANCEL_LOCKED_ASSET as int].key
            == initialize_accounts[INITIALIZE_LOCKED_ASSET as int].key,
        token_account_amount(cancel_accounts[CANCEL_LOCKED_ASSET as int].data@) is Ok,
    ensures
        process_cancel_rejection(program_id, cancel_accounts) is None,
{
    lemma_initialized_record_rederives_custody(
        program_id,
        initialize_accounts,
        expected_y_token_amount,
    );
}

/// The contents that an accepted initialization gives the record account.
pub open spec fn stored_record(
    program_id: Address,
    accounts: Seq<AccountSnapshot>,
    expected_y_token_amount: u64,
) -> Option<Seq<u8>> {
    match process_initialize_plan(program_id, accounts, expected_y_token_amount) {
        Some(plan) => Some(plan.record_data),
        None => None,
    }
}

/// The custody address that an accepted initialization hands the locked
/// asset to.
pub open spec fn produced_custody(
    program_id: Address,
    accounts: Seq<AccountSnapshot>,
    expected_y_token_amount: u64,
) -> Option<Address> {
    match process_initialize_plan(program_id, accounts, expected_y_token_amount) {
        Some(plan) => Some(plan.custody_address),
        None => None,
    }
}

} // verus!
