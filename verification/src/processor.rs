//! The escrow state machine: an operation is decoded, its accounts and the
//! stored record are checked in a fixed order, and only then does the handler
//! say which calls move custody and value. A rejected operation asks for
//! nothing, so it leaves every account as it was.

use vstd::prelude::*;
use crate::account::AccountSnapshot;
use crate::address::Address;
use crate::cancel::{process_cancel_plan, process_cancel_rejection};
use crate::error::EscrowError;
use crate::exchange::{process_exchange_plan, process_exchange_rejection};
use crate::initialize::{process_initialize_plan, process_initialize_rejection};
use crate::instruction::{unpacked_instruction, EscrowInstruction};
use crate::plan::{ClosedRecord, EscrowPlan, EscrowPlanView};
use crate::state::is_ended;

verus! {

/// The handlers of the three operations.
pub struct EscrowProcessor {}

/// The reason for which an operation is rejected, if it is: a buffer that
/// stands for no operation, or the reason that the operation's handler gives.
pub open spec fn process_rejection(
    program_id: Address,
    accounts: Seq<AccountSnapshot>,
    instruction_data: Seq<u8>,
) -> Option<EscrowError> {
    match unpacked_instruction(instruction_data) {
        None => Some(EscrowError::InvalidInstructionData),
        Some(EscrowInstruction::InitializeEscrow { expected_y_token_amount }) => {
            process_initialize_rejection(program_id, accounts)
        },
        Some(EscrowInstruction::ExchangeEscrow { expected_x_token_amount }) => {
            process_exchange_rejection(program_id, accounts, expected_x_token_amount)
        },
        Some(EscrowInstruction::CancelEscrow) => process_cancel_rejection(program_id, accounts),
    }
}

/// What an operation asks for, where it is accepted: the plan of the handler
/// that the operation's tag selects.
pub open spec fn process_plan(
    program_id: Address,
    accounts: Seq<AccountSnapshot>,
    instruction_data: Seq<u8>,
) -> Option<EscrowPlanView> {
    match unpacked_instruction(instruction_data) {
        None => None,
        Some(EscrowInstruction::InitializeEscrow { expected_y_token_amount }) => {
            match process_initialize_plan(program_id, accounts, expected_y_token_amount) {
                Some(plan) => Some(EscrowPlanView::Initialize(plan)),
                None => None,
            }
        },
        Some(EscrowInstruction::ExchangeEscrow { expected_x_token_amount }) => Some(
            EscrowPlanView::Exchange(process_exchange_plan(accounts)),
        ),
        Some(EscrowInstruction::CancelEscrow) => Some(
            EscrowPlanView::Cancel(process_cancel_plan(accounts)),
        ),
    }
}

impl EscrowProcessor {
    /// Decodes an operation and hands it to its handler.
    pub fn process_escrow_instruction(
        program_id: &Address,
        accounts: &[AccountSnapshot],
        instruction_data: &[u8],
    ) -> (res: Result<EscrowPlan, EscrowError>)
        ensures
            match res {
                Ok(plan) => {
                    &&& process_rejection(*program_id, accounts@, instruction_data@) is None
                    &&& process_plan(*program_id, accounts@, instruction_data@) == Some(plan@)
                },
                Err(e) => process_rejection(*program_id, accounts@, instruction_data@) == Some(e),
            },
    {
        let parsed_instruction = match EscrowInstruction::unpack_instruction(instruction_data) {
            Ok(instruction) => instruction,
            Err(e) => {
                return Err(e);
            },
        };
        match parsed_instruction {
            EscrowInstruction::InitializeEscrow { expected_y_token_amount } => {
                match Self::process_initialize_escrow(program_id, accounts, expected_y_token_amount) {
                    Ok(plan) => Ok(EscrowPlan::Initialize(plan)),
                    Err(e) => Err(e),
                }
            },
            EscrowInstruction::ExchangeEscrow { expected_x_token_amount } => {
                match Self::process_exchange_escrow(program_id, accounts, expected_x_token_amount) {
                    Ok(plan) => Ok(EscrowPlan::Exchange(plan)),
                    Err(e) => Err(e),
                }
            },
            EscrowInstruction::CancelEscrow => {
                match Self::process_cancel_escrow(program_id, accounts) {
                    Ok(plan) => Ok(EscrowPlan::Cancel(plan)),
                    Err(e) => Err(e),
                }
            },
        }
    }

    /// Ends a trade once the calls of an exchange or a cancellation are
    /// through: the record account gives its whole balance to the recipient
    /// and keeps no contents. The balances are those after the calls. Where
    /// the recipient's balance cannot take the deposit, nothing changes.
    pub fn close_escrow_record(recipient_lamports: u64, record_lamports: u64) -> (res: Result<
        ClosedRecord,
        EscrowError,
    >)
        ensures
            match res {
                Ok(closed) => {
                    &&& closed.recipient_lamports == recipient_lamports + record_lamports
                    &&& closed.record_lamports == 0
                    &&& closed.record_data@ == Seq::<u8>::empty()
                    &&& is_ended(closed.record_data@)
                },
                Err(e) => recipient_lamports + record_lamports > u64::MAX && e
                    == EscrowError::InsufficientFunds,
            },
    {
        match recipient_lamports.checked_add(record_lamports) {
            Some(total) => Ok(
                ClosedRecord {
                    recipient_lamports: total,
                    record_lamports: 0,
                    record_data: Vec::new(),
                },
            ),
            None => Err(EscrowError::InsufficientFunds),
        }
    }
}

} // verus!
