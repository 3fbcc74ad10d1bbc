//! The one way into the program.

use vstd::prelude::*;
use crate::account::AccountSnapshot;
use crate::address::Address;
use crate::error::EscrowError;
use crate::plan::EscrowPlan;
use crate::processor::{process_plan, process_rejection, EscrowProcessor};

verus! {

/// Processes one operation on behalf of the program `program_id`: the
/// accounts come in the order that the operation fixes, the buffer holds the
/// operation.
pub fn process_instruction(
    program_id: &Address,
    accounts: &[AccountSnapshot],
    instruction_data: &[u8],
) -> (res: Result<EscrowPlan, EscrowError>)
    ensures
        match res {
            Ok(plan) => {
                &&& process_rejection(*program_id, accounts@, instruction_data@) is None
                &&& process_plan(*program_id, accounts@, instruction_data@) == Some(plan@)
            },
            Err(e) => process_rejection(*program_id, accounts@, instruction_data@) == Some(e),
        },
{
    EscrowProcessor::process_escrow_instruction(program_id, accounts, instruction_data)
}

} // verus!
