//! The account references that come with an operation. Each operation takes a
//! fixed list of them and tells the roles apart by position alone, which is
//! why every handler checks identities against the stored record.

use vstd::prelude::*;
use crate::address::Address;

verus! {

/// What a handler reads of one supplied account reference.
#[derive(Clone, Debug)]
pub struct AccountSnapshot {
    /// The address of the account.
    pub key: Address,
    /// The program that owns the account.
    pub owner: Address,
    /// Whether the account signed the operation.
    pub is_signer: bool,
    /// The contents of the account.
    pub data: Vec<u8>,
    /// Whether the balance meets the ledger's minimum for an account of this
    /// size, as the ledger's own rule answers it.
    pub rent_exempt: bool,
}

/// How many accounts an initialization takes.
pub const INITIALIZE_ACCOUNTS: usize = 5;

/// Initialization: the initiator, who has to sign.
pub const INITIALIZE_INITIATOR: usize = 0;

/// Initialization: the temporary account that holds the asset to lock.
pub const INITIALIZE_LOCKED_ASSET: usize = 1;

/// Initialization: the initiator's payout account.
pub const INITIALIZE_PAYOUT: usize = 2;

/// Initialization: the empty record account.
pub const INITIALIZE_RECORD: usize = 3;

/// Initialization: the token program.
pub const INITIALIZE_TOKEN_PROGRAM: usize = 4;

/// How many accounts an exchange takes.
pub const EXCHANGE_ACCOUNTS: usize = 9;

/// Exchange: the counterparty, who has to sign.
pub const EXCHANGE_COUNTERPARTY: usize = 0;

/// Exchange: the counterparty's account of the payment asset.
pub const EXCHANGE_PAYMENT: usize = 1;

/// Exchange: the counterparty's account that receives the locked asset.
pub const EXCHANGE_RECEIVING: usize = 2;

/// Exchange: the custody-held account with the locked asset.
pub const EXCHANGE_LOCKED_ASSET: usize = 3;

/// Exchange: the initiator's main account, which gets the deposits back.
pub const EXCHANGE_INITIATOR: usize = 4;

/// Exchange: the initiator's payout account.
pub const EXCHANGE_PAYOUT: usize = 5;

/// Exchange: the record account.
pub const EXCHANGE_RECORD: usize = 6;

/// Exchange: the token program.
pub const EXCHANGE_TOKEN_PROGRAM: usize = 7;

/// Exchange: the custody address.
pub const EXCHANGE_CUSTODY: usize = 8;

/// How many accounts a cancellation takes.
pub const CANCEL_ACCOUNTS: usize = 6;

/// Cancellation: the initiator.
pub const CANCEL_INITIATOR: usize = 0;

/// Cancellation: the record account.
pub const CANCEL_RECORD: usize = 1;

/// Cancellation: the custody-held account with the locked asset.
pub const CANCEL_LOCKED_ASSET: usize = 2;

/// Cancellation: the initiator's account that takes the locked asset back.
pub const CANCEL_RECLAIM: usize = 3;

/// Cancellation: the token program.
pub const CANCEL_TOKEN_PROGRAM: usize = 4;

/// Cancellation: the custody address.
pub const CANCEL_CUSTODY: usize = 5;

} // verus!
