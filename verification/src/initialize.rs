//! The initialization: the record is filled, and the account that holds the
//! locked asset passes to the custody address.

use vstd::prelude::*;
use crate::account::{
    AccountSnapshot, INITIALIZE_ACCOUNTS, INITIALIZE_INITIATOR, INITIALIZE_LOCKED_ASSET,
    INITIALIZE_PAYOUT, INITIALIZE_RECORD, INITIALIZE_TOKEN_PROGRAM,
};
use crate::address::Address;
use crate::custody::{
    custody_address, find_custody_address, first_custody_address,
    lemma_searched_address_is_rederived,
};
use crate::error::EscrowError;
use crate::plan::{InitializePlan, InitializePlanView, Invocation, InvocationView};
use crate::processor::EscrowProcessor;
use crate::state::{is_packed_state, lemma_packed_then_unpacked, unpacked_state, EscrowState};
use crate::token::{
    is_token_program, set_authority, set_authority_call, token_account_amount,
    token_program_address, unpack_token_amount, AuthorityKind,
};

verus! {

/// The first check of an initialization that fails, if one does, given what
/// the payout account reads as and what the search for a custody address
/// found. In order: the account list is complete; the initiator signed; the
/// payout account is a token account, and the token program owns it; the
/// record account holds the minimum balance; its contents are a record, and
/// an empty one; a custody address was found; the supplied token program is
/// the token program.
pub open spec fn initialize_rejection(
    payout_balance: Result<u64, EscrowError>,
    found: Option<(Address, u8)>,
    accounts: Seq<AccountSnapshot>,
) -> Option<EscrowError> {
    if accounts.len() < INITIALIZE_ACCOUNTS {
        Some(EscrowError::NotEnoughAccountKeys)
    } else if !accounts[INITIALIZE_INITIATOR as int].is_signer {
        Some(EscrowError::MissingSignature)
    } else if payout_balance is Err {
        Some(payout_balance->Err_0)
    } else if accounts[INITIALIZE_PAYOUT as int].owner != token_program_address() {
        Some(EscrowError::WrongProgramOwner)
    } else if !accounts[INITIALIZE_RECORD as int].rent_exempt {
        Some(EscrowError::AccountNotRentExempt)
    } else if !is_packed_state(accounts[INITIALIZE_RECORD as int].data@) {
        Some(EscrowError::InvalidAccountData)
    } else if unpacked_state(accounts[INITIALIZE_RECORD as int].data@).is_initialized {
        Some(EscrowError::AccountAlreadyInitialized)
    } else if found is None {
        Some(EscrowError::InvalidSeeds)
    } else if accounts[INITIALIZE_TOKEN_PROGRAM as int].key != token_program_address() {
        Some(EscrowError::WrongProgramOwner)
    } else {
        None
    }
}

/// The record of a trade that the accounts of an initialization start.
pub open spec fn initialized_state(
    accounts: Seq<AccountSnapshot>,
    expected_y_token_amount: u64,
    bump: u8,
) -> EscrowState
    recommends
        accounts.len() >= INITIALIZE_ACCOUNTS,
{
    EscrowState {
        is_initialized: true,
        alice_pubkey: accounts[INITIALIZE_INITIATOR as int].key,
        alice_temp_x_token_pubkey: accounts[INITIALIZE_LOCKED_ASSET as int].key,
        alice_y_token_pubkey: accounts[INITIALIZE_PAYOUT as int].key,
        expected_y_token_amount,
        escrow_pda_bump: bump,
    }
}

/// What an accepted initialization asks for: the record account takes the
/// stored form of the new record, and the initiator hands the ownership of
/// the locked-asset account to the custody address.
pub open spec fn initialize_plan(
    custody: Address,
    bump: u8,
    accounts: Seq<AccountSnapshot>,
    expected_y_token_amount: u64,
) -> InitializePlanView
    recommends
        accounts.len() >= INITIALIZE_ACCOUNTS,
{
    let state = initialized_state(accounts, expected_y_token_amount, bump);
    let initiator = accounts[INITIALIZE_INITIATOR as int].key;
    InitializePlanView {
        state,
        record: INITIALIZE_RECORD,
        record_data: state.packed(),
        custody_address: custody,
        transfer_ownership: InvocationView {
            call: set_authority_call(
                accounts[INITIALIZE_TOKEN_PROGRAM as int].key,
                accounts[INITIALIZE_LOCKED_ASSET as int].key,
                Some(custody),
                AuthorityKind::AccountOwner,
                initiator,
                initiator,
            ),
            accounts: seq![
                INITIALIZE_LOCKED_ASSET,
                INITIALIZE_INITIATOR,
                INITIALIZE_TOKEN_PROGRAM,
            ],
            signer_seeds: None,
        },
    }
}

impl EscrowProcessor {
    /// Decides an initialization once the payout account is read and the
    /// custody address searched for: makes the checks in order and, if all
    /// pass, puts the plan together.
    pub fn initialize_escrow(
        payout_balance: Result<u64, EscrowError>,
        found: Option<(Address, u8)>,
        accounts: &[AccountSnapshot],
        expected_y_token_amount: u64,
    ) -> (res: Result<InitializePlan, EscrowError>)
        ensures
            match res {
                Ok(plan) => {
                    &&& initialize_rejection(payout_balance, found, accounts@) is None
                    &&& found is Some
                    &&& plan@ == initialize_plan(
                        found->Some_0.0,
                        found->Some_0.1,
                        accounts@,
                        expected_y_token_amount,
                    )
                },
                Err(e) => initialize_rejection(payout_balance, found, accounts@) == Some(e),
            },
    {
        if accounts.len() < INITIALIZE_ACCOUNTS {
            return Err(EscrowError::NotEnoughAccountKeys);
        }
        let initiator = &accounts[INITIALIZE_INITIATOR];
        let locked_asset = &accounts[INITIALIZE_LOCKED_ASSET];
        let payout = &accounts[INITIALIZE_PAYOUT];
        let record = &accounts[INITIALIZE_RECORD];
        let token_program = &accounts[INITIALIZE_TOKEN_PROGRAM];

        if !initiator.is_signer {
            return Err(EscrowError::MissingSignature);
        }
        if let Err(e) = payout_balance {
            return Err(e);
        }
        if !is_token_program(&payout.owner) {
            return Err(EscrowError::WrongProgramOwner);
        }
        if !record.rent_exempt {
            return Err(EscrowError::AccountNotRentExempt);
        }
        let stored = match EscrowState::try_from_slice(record.data.as_slice()) {
            Ok(stored) => stored,
            Err(e) => {
                return Err(e);
            },
        };
        if stored.is_initialized() {
            return Err(EscrowError::AccountAlreadyInitialized);
        }
        let (custody, bump) = match found {
            Some(found) => found,
            None => {
                return Err(EscrowError::InvalidSeeds);
            },
        };
        let state = EscrowState {
            is_initialized: true,
            alice_pubkey: initiator.key,
            alice_temp_x_token_pubkey: locked_asset.key,
            alice_y_token_pubkey: payout.key,
            expected_y_token_amount,
            escrow_pda_bump: bump,
        };
        let record_data = state.serialize();
        let transfer_ownership = match set_authority(
            &token_program.key,
            &locked_asset.key,
            Some(custody),
            AuthorityKind::AccountOwner,
            &initiator.key,
            &initiator.key,
        ) {
            Ok(call) => Invocation {
                call,
                accounts: vec![
                    INITIALIZE_LOCKED_ASSET,
                    INITIALIZE_INITIATOR,
                    INITIALIZE_TOKEN_PROGRAM,
                ],
                signer_seeds: None,
            },
            Err(e) => {
                return Err(e);
            },
        };
        let plan = InitializePlan {
            state,
            record: INITIALIZE_RECORD,
            record_data,
            custody_address: custody,
            transfer_ownership,
        };
        proof {
            let want = initialize_plan(custody, bump, accounts@, expected_y_token_amount);
            assert(plan.transfer_ownership@.accounts =~= want.transfer_ownership.accounts);
        }
        Ok(plan)
    }

    /// Handles an initialization: reads the payout account, searches for the
    /// custody address of the initiator, and decides as `initialize_escrow`
    /// does.
    pub fn process_initialize_escrow(
        program_id: &Address,
        accounts: &[AccountSnapshot],
        expected_y_token_amount: u64,
    ) -> (res: Result<InitializePlan, EscrowError>)
        ensures
            match res {
                Ok(plan) => {
                    &&& process_initialize_rejection(*program_id, accounts@) is None
                    &&& process_initialize_plan(*program_id, accounts@, expected_y_token_amount)
                        == Some(plan@)
                },
                Err(e) => process_initialize_rejection(*program_id, accounts@) == Some(e),
            },
    {
        if accounts.len() < INITIALIZE_ACCOUNTS {
            return Err(EscrowError::NotEnoughAccountKeys);
        }
        let payout_balance = unpack_token_amount(accounts[INITIALIZE_PAYOUT].data.as_slice());
        let found = find_custody_address(&accounts[INITIALIZE_INITIATOR].key, program_id);
        Self::initialize_escrow(payout_balance, found, accounts, expected_y_token_amount)
    }
}

/// The reason for which an initialization on these accounts is rejected, if
/// it is: the first failed check of `initialize_rejection`, on what the
/// payout account reads as and on what the search for the initiator's
/// custody address finds.
pub open spec fn process_initialize_rejection(
    program_id: Address,
    accounts: Seq<AccountSnapshot>,
) -> Option<EscrowError> {
    if accounts.len() < INITIALIZE_ACCOUNTS {
        Some(EscrowError::NotEnoughAccountKeys)
    } else {
        initialize_rejection(
            token_account_amount(accounts[INITIALIZE_PAYOUT as int].data@),
            first_custody_address(accounts[INITIALIZE_INITIATOR as int].key, program_id),
            accounts,
        )
    }
}

/// What an initialization on these accounts asks for, where the search for
/// the initiator's custody address finds one.
pub open spec fn process_initialize_plan(
    program_id: Address,
    accounts: Seq<AccountSnapshot>,
    expected_y_token_amount: u64,
) -> Option<InitializePlanView>
    recommends
        accounts.len() >= INITIALIZE_ACCOUNTS,
{
    match first_custody_address(accounts[INITIALIZE_INITIATOR as int].key, program_id) {
        Some((custody, bump)) => Some(
            initialize_plan(custody, bump, accounts, expected_y_token_amount),
        ),
        None => None,
    }
}

/// An accepted initialization leaves an active record whose stored seed byte
/// derives again the very custody address that took over the locked asset;
/// and the stored bytes read back as that record.
pub proof fn lemma_initialized_record_rederives_custody(
    program_id: Address,
    accounts: Seq<AccountSnapshot>,
    expected_y_token_amount: u64,
)
    requires
        process_initialize_rejection(program_id, accounts) is None,
    ensures
        process_initialize_plan(program_id, accounts, expected_y_token_amount) matches Some(plan)
            && {
            &&& plan.state.is_initialized
            &&& plan.state.alice_pubkey == accounts[INITIALIZE_INITIATOR as int].key
            &&& is_packed_state(plan.record_data)
            &&& unpacked_state(plan.record_data) == plan.state
            &&& custody_address(plan.state.alice_pubkey, plan.state.escrow_pda_bump, program_id)
                == Some(plan.custody_address)
        },
{
    let initiator = accounts[INITIALIZE_INITIATOR as int].key;
    lemma_searched_address_is_rederived(initiator, program_id, 255);
    let (custody, bump) = first_custody_address(initiator, program_id)->Some_0;
    lemma_packed_then_unpacked(initialized_state(accounts, expected_y_token_amount, bump));
}

/// An initialization on a record that already describes a trade is always
/// rejected, so the record stays as it is; and where the checks that come
/// before the record pass, the reason is that the record is taken.
pub proof fn lemma_initialize_rejects_active_record(
    program_id: Address,
    accounts: Seq<AccountSnapshot>,
)
    requires
        accounts.len() >= INITIALIZE_ACCOUNTS,
        is_packed_state(accounts[INITIALIZE_RECORD as int].data@),
        unpacked_state(accounts[INITIALIZE_RECORD as int].data@).is_initialized,
    ensures
        process_initialize_rejection(program_id, accounts) is Some,
        ({
            &&& accounts[INITIALIZE_INITIATOR as int].is_signer
            &&& token_account_amount(accounts[INITIALIZE_PAYOUT as int].data@) is Ok
            &&& accounts[INITIALIZE_PAYOUT as int].owner == token_program_address()
            &&& accounts[INITIALIZE_RECORD as int].rent_exempt
        }) ==> process_initialize_rejection(program_id, accounts) == Some(
            EscrowError::AccountAlreadyInitialized,
        ),
{
}

} // verus!
