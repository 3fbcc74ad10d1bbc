//! What the escrow needs of the token program: its address, the reading of a
//! token account, and the three calls that move custody and value.
//!
//! The functions marked `external_body` call the `spl_token` crate; their
//! contracts are taken on trust from that crate's source.

use vstd::prelude::*;
use solana_program::program_error::ProgramError;
use solana_program::program_pack::Pack;
use solana_program::pubkey::Pubkey;
use spl_token::instruction::AuthorityType;
use spl_token::state::Account;
use crate::address::Address;
use crate::encoding::{le_bytes, le_u64};
use crate::error::EscrowError;

verus! {

/// One account as a call names it: its address, and whether the call needs its
/// signature and may change it.
#[derive(Clone, Copy, Debug)]
pub struct CallAccount {
    pub pubkey: Address,
    pub is_signer: bool,
    pub is_writable: bool,
}

/// A call to the token program, ready to be handed to the runtime.
#[derive(Clone, Debug)]
pub struct TokenCall {
    /// The program that executes the call.
    pub program_id: Address,
    /// The accounts that the call names, in the order the program expects.
    pub accounts: Vec<CallAccount>,
    /// The packed operation.
    pub data: Vec<u8>,
}

/// A call as a mathematical value.
pub struct TokenCallView {
    pub program_id: Address,
    pub accounts: Seq<CallAccount>,
    pub data: Seq<u8>,
}

impl View for TokenCall {
    type V = TokenCallView;

    open spec fn view(&self) -> TokenCallView {
        TokenCallView { program_id: self.program_id, accounts: self.accounts@, data: self.data@ }
    }
}

/// Which authority over a mint or an account a call reassigns.
#[derive(Clone, Copy, Debug, PartialEq, Eq, Structural)]
pub enum AuthorityKind {
    MintTokens,
    FreezeAccount,
    AccountOwner,
    CloseAccount,
}

/// The byte that stands for an authority kind in a packed call.
pub open spec fn authority_code(kind: AuthorityKind) -> u8 {
    match kind {
        AuthorityKind::MintTokens => 0,
        AuthorityKind::FreezeAccount => 1,
        AuthorityKind::AccountOwner => 2,
        AuthorityKind::CloseAccount => 3,
    }
}

/// The address of the token program.
pub open spec fn token_program_address() -> Address {
    [
        6u8, 221, 246, 225, 215, 101, 161, 147, 217, 203, 225, 70, 206, 235, 121, 172,
        28, 180, 133, 237, 95, 91, 55, 145, 58, 140, 245, 133, 126, 255, 0, 169,
    ]
}

/// Puts together what a call says of one account.
pub fn call_account(pubkey: Address, is_signer: bool, is_writable: bool) -> (account: CallAccount)
    ensures
        account == (CallAccount { pubkey, is_signer, is_writable }),
{
    CallAccount { pubkey, is_signer, is_writable }
}

/// An account that a call may change and that need not sign.
pub open spec fn writable(pubkey: Address) -> CallAccount {
    CallAccount { pubkey, is_signer: false, is_writable: true }
}

/// An account that a call only reads.
pub open spec fn readonly(pubkey: Address, is_signer: bool) -> CallAccount {
    CallAccount { pubkey, is_signer, is_writable: false }
}

/// The call that moves `amount` tokens from `source` to `destination` on the
/// word of `authority`, with `signer` as the one signing account.
pub open spec fn transfer_call(
    token_program: Address,
    source: Address,
    destination: Address,
    authority: Address,
    signer: Address,
    amount: u64,
) -> TokenCallView {
    TokenCallView {
        program_id: token_program,
        accounts: seq![
            writable(source),
            writable(destination),
            readonly(authority, false),
            readonly(signer, true),
        ],
        data: seq![3u8] + le_bytes(amount),
    }
}

/// The call that closes the token account `account` and sends its deposit to
/// `destination`, on the word of `owner`, with `signer` as the one signing
/// account.
pub open spec fn close_account_call(
    token_program: Address,
    account: Address,
    destination: Address,
    owner: Address,
    signer: Address,
) -> TokenCallView {
    TokenCallView {
        program_id: token_program,
        accounts: seq![
            writable(account),
            writable(destination),
            readonly(owner, false),
            readonly(signer, true),
        ],
        data: seq![9u8],
    }
}

/// The call that gives the authority `kind` over `account` to `new_authority`
/// (or to nobody), on the word of `owner`, with `signer` as the one signing
/// account.
pub open spec fn set_authority_call(
    token_program: Address,
    account: Address,
    new_authority: Option<Address>,
    kind: AuthorityKind,
    owner: Address,
    signer: Address,
) -> TokenCallView {
    TokenCallView {
        program_id: token_program,
        accounts: seq![writable(account), readonly(owner, false), readonly(signer, true)],
        data: seq![6u8, authority_code(kind)] + match new_authority {
            Some(authority) => seq![1u8] + authority@,
            None => seq![0u8],
        },
    }
}

/// The length of a stored token account.
pub const TOKEN_ACCOUNT_LEN: usize = 165;

/// Whether the four bytes of `data` from `at` on are the tag of an optional
/// field: a little-endian 0 for an absent value, or 1 for a present one.
pub open spec fn is_option_tag(data: Seq<u8>, at: int) -> bool {
    data[at] <= 1 && data[at + 1] == 0 && data[at + 2] == 0 && data[at + 3] == 0
}

/// Whether `data` has the shape of a stored token account: the exact length,
/// a proper tag before the delegate (at 72), before the native reserve (at
/// 109) and before the close authority (at 129), and a state byte (at 108)
/// that names one of the three states.
pub open spec fn is_token_account(data: Seq<u8>) -> bool {
    &&& data.len() == TOKEN_ACCOUNT_LEN
    &&& is_option_tag(data, 72)
    &&& data[108] <= 2
    &&& is_option_tag(data, 109)
    &&& is_option_tag(data, 129)
}

/// What the contents of an account read as: the balance of a token account
/// that is in use, stored little-endian after the mint and the owner. Contents
/// of another shape are no token account; a state byte of 0 marks an account
/// that was never set up.
pub open spec fn token_account_amount(data: Seq<u8>) -> Result<u64, EscrowError> {
    if !is_token_account(data) {
        Err(EscrowError::InvalidAccountData)
    } else if data[108] == 0 {
        Err(EscrowError::UninitializedAccount)
    } else {
        Ok(le_u64(data.subrange(64, 72)) as u64)
    }
}

/// Calls `spl_token::id`. Trusted: the result is the address that
/// `token_program_address` spells out.
#[verifier::external_body]
pub(crate) fn token_program_id() -> (id: Address)
    ensures
        id == token_program_address(),
{
    spl_token::id().to_bytes()
}

/// Calls `spl_token::check_id`. Trusted: the answer is whether `address` is the
/// address of the token program.
#[verifier::external_body]
pub(crate) fn is_token_program(address: &Address) -> (yes: bool)
    ensures
        yes == (*address == token_program_address()),
{
    spl_token::check_id(&Pubkey::new_from_array(*address))
}

/// Calls `spl_token::state::Account::unpack` and keeps the balance. Trusted:
/// the decoder takes exactly 165 bytes, reads the balance from bytes 64 to
/// 72, refuses a tag of an optional field that is neither 0 nor 1 and a
/// state byte above 2 as `InvalidAccountData`, and reports a state byte of 0
/// as `UninitializedAccount`: what `token_account_amount` spells out.
#[verifier::external_body]
pub(crate) fn unpack_token_amount(data: &[u8]) -> (res: Result<u64, EscrowError>)
    ensures
        res == token_account_amount(data@),
{
    match Account::unpack(data) {
        Ok(account) => Ok(account.amount),
        Err(ProgramError::UninitializedAccount) => Err(EscrowError::UninitializedAccount),
        Err(_) => Err(EscrowError::InvalidAccountData),
    }
}

/// Calls `spl_token::instruction::transfer` with one signing account. Trusted:
/// the builder refuses any program but the token program, and otherwise
/// returns the call that `transfer_call` describes.
#[verifier::external_body]
pub(crate) fn transfer(
    token_program: &Address,
    source: &Address,
    destination: &Address,
    authority: &Address,
    signer: &Address,
    amount: u64,
) -> (res: Result<TokenCall, EscrowError>)
    ensures
        match res {
            Ok(call) => *token_program == token_program_address() && call@ == transfer_call(
                *token_program,
                *source,
                *destination,
                *authority,
                *signer,
                amount,
            ),
            Err(e) => *token_program != token_program_address() && e
                == EscrowError::WrongProgramOwner,
        },
{
    let keys = [token_program, source, destination, authority, signer].map(|a| Pubkey::from(*a));
    let built = spl_token::instruction::transfer(&keys[0], &keys[1], &keys[2], &keys[3], &[&keys[4]], amount);
    built.map(|ix| TokenCall {
        program_id: ix.program_id.to_bytes(),
        accounts: ix.accounts.iter().map(|m| call_account(m.pubkey.to_bytes(), m.is_signer, m.is_writable)).collect(),
        data: ix.data,
    }).map_err(|_| EscrowError::WrongProgramOwner)
}

/// Calls `spl_token::instruction::close_account` with one signing account.
/// Trusted: the builder refuses any program but the token program, and
/// otherwise returns the call that `close_account_call` describes.
#[verifier::external_body]
pub(crate) fn close_account(
    token_program: &Address,
    account: &Address,
    destination: &Address,
    owner: &Address,
    signer: &Address,
) -> (res: Result<TokenCall, EscrowError>)
    ensures
        match res {
            Ok(call) => *token_program == token_program_address() && call@ == close_account_call(
                *token_program,
                *account,
                *destination,
                *owner,
                *signer,
            ),
            Err(e) => *token_program != token_program_address() && e
                == EscrowError::WrongProgramOwner,
        },
{
    let keys = [token_program, account, destination, owner, signer].map(|a| Pubkey::from(*a));
    let built = spl_token::instruction::close_account(&keys[0], &keys[1], &keys[2], &keys[3], &[&keys[4]]);
    built.map(|ix| TokenCall {
        program_id: ix.program_id.to_bytes(),
        accounts: ix.accounts.iter().map(|m| call_account(m.pubkey.to_bytes(), m.is_signer, m.is_writable)).collect(),
        data: ix.data,
    }).map_err(|_| EscrowError::WrongProgramOwner)
}

/// Calls `spl_token::instruction::set_authority` with one signing account.
/// Trusted: the builder refuses any program but the token program, and
/// otherwise returns the call that `set_authority_call` describes.
#[verifier::external_body]
pub(crate) fn set_authority(
    token_program: &Address,
    account: &Address,
    new_authority: Option<Address>,
    kind: AuthorityKind,
    owner: &Address,
    signer: &Address,
) -> (res: Result<TokenCall, EscrowError>)
    ensures
        match res {
            Ok(call) => *token_program == token_program_address() && call@ == set_authority_call(
                *token_program,
                *account,
                new_authority,
                kind,
                *owner,
                *signer,
            ),
            Err(e) => *token_program != token_program_address() && e
                == EscrowError::WrongProgramOwner,
        },
{
    let keys = [token_program, account, owner, signer].map(|a| Pubkey::from(*a));
    let new_key = new_authority.map(Pubkey::from);
    let kind = match kind {
        AuthorityKind::MintTokens => AuthorityType::MintTokens,
        AuthorityKind::FreezeAccount => AuthorityType::FreezeAccount,
        AuthorityKind::AccountOwner => AuthorityType::AccountOwner,
        AuthorityKind::CloseAccount => AuthorityType::CloseAccount,
    };
    let built = spl_token::instruction::set_authority(&keys[0], &keys[1], new_key.as_ref(), kind, &keys[2], &[&keys[3]]);
    built.map(|ix| TokenCall {
        program_id: ix.program_id.to_bytes(),
        accounts: ix.accounts.iter().map(|m| call_account(m.pubkey.to_bytes(), m.is_signer, m.is_writable)).collect(),
        data: ix.data,
    }).map_err(|_| EscrowError::WrongProgramOwner)
}

} // verus!
