//! The three operations and their wire format: a tag byte, followed for two of
//! them by a little-endian amount.

use vstd::prelude::*;
use crate::encoding::{
    le_bytes, le_u64, lemma_le_bytes_then_le_u64, lemma_le_u64_in_range,
    lemma_le_u64_then_le_bytes, read_u64_le,
};
use crate::error::EscrowError;

verus! {

/// One operation on an escrow, with its parameters.
#[derive(Clone, Copy, Debug, PartialEq, Eq, Structural)]
pub enum EscrowInstruction {
    /// Starts a trade: fills the record and hands the temporary account that
    /// holds the locked asset over to the custody address.
    ///
    /// Accounts, in order: the initiator (signer); the initiator's temporary
    /// account with the locked asset (writable); the initiator's payout account;
    /// the empty record account (writable); the token program.
    InitializeEscrow {
        /// What the initiator asks for, in units of the payment asset.
        expected_y_token_amount: u64,
    },
    /// Completes the trade: pays the initiator and releases the locked asset to
    /// the counterparty.
    ///
    /// Accounts, in order: the counterparty (signer); the counterparty's payment
    /// account (writable); the counterparty's receiving account (writable); the
    /// custody-held account with the locked asset (writable); the initiator's main
    /// account (writable); the initiator's payout account (writable); the record
    /// account (writable); the token program; the custody address.
    ExchangeEscrow {
        /// The locked balance that the counterparty expects to receive.
        expected_x_token_amount: u64,
    },
    /// Aborts the trade: the locked asset goes back to the initiator.
    ///
    /// Accounts, in order: the initiator; the record account (writable); the
    /// custody-held account with the locked asset (writable); the initiator's
    /// reclaim account (writable); the token program; the custody address.
    CancelEscrow,
}

/// The amount at the front of `data`, if `data` has the eight bytes for it.
pub open spec fn unpacked_amount(data: Seq<u8>) -> Option<u64> {
    if data.len() >= 8 {
        Some(le_u64(data.subrange(0, 8)) as u64)
    } else {
        None
    }
}

/// The operation that a buffer stands for, if it stands for one. Bytes after
/// the operation are ignored.
pub open spec fn unpacked_instruction(data: Seq<u8>) -> Option<EscrowInstruction> {
    if data.len() == 0 {
        None
    } else if data[0] == 0 {
        match unpacked_amount(data.skip(1)) {
            Some(amount) => Some(EscrowInstruction::InitializeEscrow { expected_y_token_amount: amount }),
            None => None,
        }
    } else if data[0] == 1 {
        match unpacked_amount(data.skip(1)) {
            Some(amount) => Some(EscrowInstruction::ExchangeEscrow { expected_x_token_amount: amount }),
            None => None,
        }
    } else if data[0] == 2 {
        Some(EscrowInstruction::CancelEscrow)
    } else {
        None
    }
}

impl EscrowInstruction {
    /// The buffer that stands for this operation: the tag, then the amount
    /// where the operation has one.
    pub open spec fn packed(self) -> Seq<u8> {
        match self {
            EscrowInstruction::InitializeEscrow { expected_y_token_amount } => seq![0u8]
                + le_bytes(expected_y_token_amount),
            EscrowInstruction::ExchangeEscrow { expected_x_token_amount } => seq![1u8] + le_bytes(
                expected_x_token_amount,
            ),
            EscrowInstruction::CancelEscrow => seq![2u8],
        }
    }

    /// Reads the amount at the front of `data`.
    fn unpack_token_data(data: &[u8]) -> (res: Result<u64, EscrowError>)
        ensures
            match res {
                Ok(amount) => unpacked_amount(data@) == Some(amount),
                Err(e) => unpacked_amount(data@).is_none() && e == EscrowError::InvalidInstructionData,
            },
    {
        if data.len() < 8 {
            return Err(EscrowError::InvalidInstructionData);
        }
        proof {
            lemma_le_u64_in_range(data@.subrange(0, 8));
        }
        Ok(read_u64_le(data, 0))
    }

    /// Decodes an operation buffer: a tag byte, then the amount where the
    /// operation has one.
    pub fn unpack_instruction(instruction_data: &[u8]) -> (res: Result<Self, EscrowError>)
        ensures
            match res {
                Ok(instruction) => unpacked_instruction(instruction_data@) == Some(instruction),
                Err(e) => unpacked_instruction(instruction_data@).is_none() && e
                    == EscrowError::InvalidInstructionData,
            },
    {
        if instruction_data.len() == 0 {
            return Err(EscrowError::InvalidInstructionData);
        }
        let tag: u8 = instruction_data[0];
        let rest_data = vstd::slice::slice_subrange(instruction_data, 1, instruction_data.len());
        assert(rest_data@ == instruction_data@.skip(1));
        if tag == 0 {
            match Self::unpack_token_data(rest_data) {
                Ok(amount) => Ok(Self::InitializeEscrow { expected_y_token_amount: amount }),
                Err(e) => Err(e),
            }
        } else if tag == 1 {
            match Self::unpack_token_data(rest_data) {
                Ok(amount) => Ok(Self::ExchangeEscrow { expected_x_token_amount: amount }),
                Err(e) => Err(e),
            }
        } else if tag == 2 {
            Ok(Self::CancelEscrow)
        } else {
            Err(EscrowError::InvalidInstructionData)
        }
    }
}

/// The buffer of an operation decodes to that operation, whatever bytes
/// follow it.
pub proof fn lemma_packed_then_unpacked_instruction(instruction: EscrowInstruction, rest: Seq<u8>)
    ensures
        unpacked_instruction(instruction.packed() + rest) == Some(instruction),
{
    let data = instruction.packed() + rest;
    match instruction {
        EscrowInstruction::InitializeEscrow { expected_y_token_amount } => {
            lemma_le_bytes_then_le_u64(expected_y_token_amount);
            assert(data.skip(1).subrange(0, 8) =~= le_bytes(expected_y_token_amount));
        },
        EscrowInstruction::ExchangeEscrow { expected_x_token_amount } => {
            lemma_le_bytes_then_le_u64(expected_x_token_amount);
            assert(data.skip(1).subrange(0, 8) =~= le_bytes(expected_x_token_amount));
        },
        EscrowInstruction::CancelEscrow => {},
    }
}

/// A buffer decodes to at most one operation, and only if it starts with
/// that operation's own buffer.
pub proof fn lemma_unpacked_instruction_is_a_prefix(data: Seq<u8>)
    ensures
        unpacked_instruction(data) matches Some(instruction) ==> instruction.packed().len()
            <= data.len() && data.subrange(0, instruction.packed().len() as int)
            == instruction.packed(),
{
    if let Some(instruction) = unpacked_instruction(data) {
        match instruction {
            EscrowInstruction::InitializeEscrow { expected_y_token_amount } => {
                let bytes = data.skip(1).subrange(0, 8);
                lemma_le_u64_in_range(bytes);
                lemma_le_u64_then_le_bytes(bytes);
                assert(data.subrange(0, 9) =~= seq![0u8] + bytes);
            },
            EscrowInstruction::ExchangeEscrow { expected_x_token_amount } => {
                let bytes = data.skip(1).subrange(0, 8);
                lemma_le_u64_in_range(bytes);
                lemma_le_u64_then_le_bytes(bytes);
                assert(data.subrange(0, 9) =~= seq![1u8] + bytes);
            },
            EscrowInstruction::CancelEscrow => {
                assert(data.subrange(0, 1) =~= seq![2u8]);
            },
        }
    }
}

} // verus!
