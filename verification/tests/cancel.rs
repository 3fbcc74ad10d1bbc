use std::collections::HashMap;

use solana_program::program_option::COption;
use solana_program::program_pack::Pack;
use solana_program::pubkey::Pubkey;
use spl_token::state::{Account, AccountState};
use token_escrow::account::AccountSnapshot;
use token_escrow::error::EscrowError;
use token_escrow::plan::EscrowPlan;
use token_escrow::processor::EscrowProcessor;
use token_escrow::state::EscrowState;

const PROGRAM: [u8; 32] = [9u8; 32];
const ALICE: [u8; 32] = [1u8; 32];
const TEMP_X: [u8; 32] = [2u8; 32];
const ALICE_Y: [u8; 32] = [3u8; 32];
const ALICE_X: [u8; 32] = [10u8; 32];
const RECORD: [u8; 32] = [7u8; 32];

fn locked_data(amount: u64, state: AccountState) -> Vec<u8> {
    let account = Account {
        mint: Pubkey::from([20u8; 32]),
        owner: Pubkey::from([21u8; 32]),
        amount,
        delegate: COption::None,
        state,
        is_native: COption::None,
        delegated_amount: 0,
        close_authority: COption::None,
    };
    let mut data = vec![0u8; Account::LEN];
    account.pack_into_slice(&mut data);
    data
}

fn bare(key: [u8; 32]) -> AccountSnapshot {
    AccountSnapshot {
        key,
        owner: [0u8; 32],
        is_signer: false,
        data: Vec::new(),
        rent_exempt: true,
    }
}

fn custody_of_alice() -> ([u8; 32], u8) {
    let (address, bump) = Pubkey::find_program_address(&[b"escrow", &ALICE], &Pubkey::from(PROGRAM));
    (address.to_bytes(), bump)
}

fn active_record() -> EscrowState {
    EscrowState {
        is_initialized: true,
        alice_pubkey: ALICE,
        alice_temp_x_token_pubkey: TEMP_X,
        alice_y_token_pubkey: ALICE_Y,
        expected_y_token_amount: 50,
        escrow_pda_bump: custody_of_alice().1,
    }
}

fn cancel_accounts(locked: u64) -> Vec<AccountSnapshot> {
    let mut record = bare(RECORD);
    record.owner = PROGRAM;
    record.data = active_record().serialize();
    let mut temp = bare(TEMP_X);
    temp.data = locked_data(locked, AccountState::Initialized);
    vec![
        bare(ALICE),
        record,
        temp,
        bare(ALICE_X),
        bare(spl_token::id().to_bytes()),
        bare(custody_of_alice().0),
    ]
}

#[test]
fn cancel_returns_the_locked_balance_to_the_initiator() {
    let accounts = cancel_accounts(100);
    let plan = EscrowProcessor::process_cancel_escrow(&PROGRAM, &accounts).unwrap();
    let pda = Pubkey::from(custody_of_alice().0);
    let expected = spl_token::instruction::transfer(
        &spl_token::id(),
        &Pubkey::from(TEMP_X),
        &Pubkey::from(ALICE_X),
        &pda,
        &[&pda],
        100,
    )
    .unwrap();
    let call = &plan.return_asset.call;
    assert_eq!(call.program_id, expected.program_id.to_bytes());
    assert_eq!(call.data, expected.data);
    assert_eq!(call.data, vec![3, 100, 0, 0, 0, 0, 0, 0, 0]);
    assert_eq!(call.accounts.len(), expected.accounts.len());
    for (have, want) in call.accounts.iter().zip(expected.accounts.iter()) {
        assert_eq!(have.pubkey, want.pubkey.to_bytes());
        assert_eq!(have.is_signer, want.is_signer);
        assert_eq!(have.is_writable, want.is_writable);
    }
    assert_eq!(plan.return_asset.accounts, vec![2, 3, 5, 4]);
    let seeds = plan.return_asset.signer_seeds.unwrap();
    assert_eq!((seeds.initiator, seeds.bump), (ALICE, custody_of_alice().1));
}

#[test]
fn cancel_closes_the_custody_account_in_the_initiators_favour() {
    let accounts = cancel_accounts(100);
    let plan = EscrowProcessor::process_cancel_escrow(&PROGRAM, &accounts).unwrap();
    let pda = Pubkey::from(custody_of_alice().0);
    let expected = spl_token::instruction::close_account(
        &spl_token::id(),
        &Pubkey::from(TEMP_X),
        &Pubkey::from(ALICE),
        &pda,
        &[&pda],
    )
    .unwrap();
    let call = &plan.close_custody.call;
    assert_eq!(call.program_id, expected.program_id.to_bytes());
    assert_eq!(call.data, vec![9]);
    assert_eq!(call.accounts.len(), expected.accounts.len());
    for (have, want) in call.accounts.iter().zip(expected.accounts.iter()) {
        assert_eq!(have.pubkey, want.pubkey.to_bytes());
        assert_eq!(have.is_signer, want.is_signer);
        assert_eq!(have.is_writable, want.is_writable);
    }
    assert_eq!(plan.close_custody.accounts, vec![2, 0, 5]);
    let seeds = plan.close_custody.signer_seeds.unwrap();
    assert_eq!((seeds.initiator, seeds.bump), (ALICE, custody_of_alice().1));
    assert_eq!(plan.settlement.record, 1);
    assert_eq!(plan.settlement.recipient, 0);
}

#[test]
fn cancel_gives_back_exactly_what_was_locked() {
    let accounts = cancel_accounts(100);
    let plan = EscrowProcessor::process_cancel_escrow(&PROGRAM, &accounts).unwrap();
    let mut books: HashMap<[u8; 32], u64> = HashMap::new();
    books.insert(TEMP_X, 100);
    books.insert(ALICE_X, 11);
    books.insert(ALICE_Y, 5);
    books.insert([60u8; 32], 80);
    for call in [&plan.return_asset.call, &plan.close_custody.call] {
        if call.data[0] == 3 {
            let amount = u64::from_le_bytes(call.data[1..9].try_into().unwrap());
            *books.get_mut(&call.accounts[0].pubkey).unwrap() -= amount;
            *books.get_mut(&call.accounts[1].pubkey).unwrap() += amount;
        } else {
            assert_eq!(call.data, vec![9]);
            assert_eq!(books.remove(&call.accounts[0].pubkey), Some(0));
        }
    }
    assert_eq!(books.get(&ALICE_X), Some(&111));
    assert_eq!(books.get(&TEMP_X), None);
    assert_eq!(books.get(&ALICE_Y), Some(&5));
    assert_eq!(books.get(&[60u8; 32]), Some(&80));
}

#[test]
fn cancel_needs_six_accounts() {
    let mut accounts = cancel_accounts(100);
    accounts.pop();
    let res = EscrowProcessor::process_cancel_escrow(&PROGRAM, &accounts);
    assert!(matches!(res, Err(EscrowError::NotEnoughAccountKeys)));
}

#[test]
fn cancel_needs_no_signature() {
    let accounts = cancel_accounts(100);
    assert!(accounts.iter().all(|account| !account.is_signer));
    assert!(EscrowProcessor::process_cancel_escrow(&PROGRAM, &accounts).is_ok());
}

#[test]
fn cancel_needs_a_record_account_of_this_program() {
    let mut accounts = cancel_accounts(100);
    accounts[1].owner = [8u8; 32];
    let res = EscrowProcessor::process_cancel_escrow(&PROGRAM, &accounts);
    assert!(matches!(res, Err(EscrowError::WrongProgramOwner)));
    accounts[1].data = Vec::new();
    let res = EscrowProcessor::process_cancel_escrow(&PROGRAM, &accounts);
    assert!(matches!(res, Err(EscrowError::WrongProgramOwner)));
}

#[test]
fn cancel_checks_the_initiator_against_the_record() {
    // Another party supplies the custody address that the stored seed byte
    // derives for itself: every other check passes.
    let other = [66u8; 32];
    let (address, bump) = Pubkey::find_program_address(&[b"escrow", &other], &Pubkey::from(PROGRAM));
    let mut state = active_record();
    state.escrow_pda_bump = bump;
    let mut accounts = cancel_accounts(100);
    accounts[1].data = state.serialize();
    accounts[0].key = other;
    accounts[5].key = address.to_bytes();
    let res = EscrowProcessor::process_cancel_escrow(&PROGRAM, &accounts);
    assert!(matches!(res, Err(EscrowError::InvalidAccountData)));
    let pda = Some(address.to_bytes());
    let res = EscrowProcessor::cancel_escrow(&state, pda, Ok(100), &accounts);
    assert!(matches!(res, Err(EscrowError::InvalidAccountData)));
    accounts[0].key = ALICE;
    assert!(EscrowProcessor::cancel_escrow(&state, pda, Ok(100), &accounts).is_ok());
}

#[test]
fn cancel_reports_a_mismatch_on_an_empty_record_too() {
    let mut state = active_record();
    state.is_initialized = false;

    // The stored custody-held account is another one.
    let mut accounts = cancel_accounts(100);
    accounts[1].data = state.serialize();
    accounts[2].key = [43u8; 32];
    let res = EscrowProcessor::process_cancel_escrow(&PROGRAM, &accounts);
    assert!(matches!(res, Err(EscrowError::InvalidAccountData)));

    // The derived custody address is another one.
    let mut accounts = cancel_accounts(100);
    accounts[1].data = state.serialize();
    accounts[5].key = [48u8; 32];
    let res = EscrowProcessor::process_cancel_escrow(&PROGRAM, &accounts);
    assert!(matches!(res, Err(EscrowError::InvalidAccountData)));

    // The custody-held account is no token account.
    let mut accounts = cancel_accounts(100);
    accounts[1].data = state.serialize();
    accounts[2].data = locked_data(100, AccountState::Uninitialized);
    let res = EscrowProcessor::process_cancel_escrow(&PROGRAM, &accounts);
    assert!(matches!(res, Err(EscrowError::UninitializedAccount)));
    accounts[2].data = vec![1u8; 164];
    let res = EscrowProcessor::process_cancel_escrow(&PROGRAM, &accounts);
    assert!(matches!(res, Err(EscrowError::InvalidAccountData)));
}

#[test]
fn cancel_steps_come_in_the_order_return_close() {
    let accounts = cancel_accounts(100);
    let plan = EscrowProcessor::process_cancel_escrow(&PROGRAM, &accounts).unwrap();
    let (calls, settlement) = plan.clone().into_steps();
    assert_eq!(calls.len(), 2);
    assert_eq!(calls[0].call.data, vec![3, 100, 0, 0, 0, 0, 0, 0, 0]);
    assert_eq!(calls[0].accounts, vec![2, 3, 5, 4]);
    assert_eq!(calls[1].call.data, vec![9]);
    assert_eq!(calls[1].accounts, vec![2, 0, 5]);
    assert_eq!((settlement.record, settlement.recipient), (1, 0));

    let steps = EscrowPlan::Cancel(plan).into_steps();
    assert!(steps.write.is_none());
    assert_eq!(steps.calls.len(), 2);
    assert_eq!(steps.calls[0].call.data, vec![3, 100, 0, 0, 0, 0, 0, 0, 0]);
    assert_eq!(steps.calls[1].call.data, vec![9]);
    let settlement = steps.settlement.unwrap();
    assert_eq!((settlement.record, settlement.recipient), (1, 0));
}

#[test]
fn cancel_checks_the_custody_held_account_against_the_record() {
    let mut accounts = cancel_accounts(100);
    accounts[2].key = [43u8; 32];
    let res = EscrowProcessor::process_cancel_escrow(&PROGRAM, &accounts);
    assert!(matches!(res, Err(EscrowError::InvalidAccountData)));
}

#[test]
fn cancel_checks_the_custody_address_against_the_derived_one() {
    let mut accounts = cancel_accounts(100);
    accounts[5].key = [48u8; 32];
    let res = EscrowProcessor::process_cancel_escrow(&PROGRAM, &accounts);
    assert!(matches!(res, Err(EscrowError::InvalidAccountData)));
}

#[test]
fn cancel_with_a_seed_byte_that_derives_nothing_is_refused() {
    let mut bump = 255u8;
    while Pubkey::create_program_address(&[b"escrow", &ALICE, &[bump]], &Pubkey::from(PROGRAM)).is_ok() {
        bump -= 1;
    }
    let mut accounts = cancel_accounts(100);
    let mut state = active_record();
    state.escrow_pda_bump = bump;
    accounts[1].data = state.serialize();
    let res = EscrowProcessor::process_cancel_escrow(&PROGRAM, &accounts);
    assert!(matches!(res, Err(EscrowError::InvalidSeeds)));
}

#[test]
fn cancel_reads_the_custody_account_after_the_cross_checks() {
    let mut accounts = cancel_accounts(100);
    accounts[2].data = Vec::new();
    let res = EscrowProcessor::process_cancel_escrow(&PROGRAM, &accounts);
    assert!(matches!(res, Err(EscrowError::InvalidAccountData)));
    accounts[2].data = locked_data(100, AccountState::Uninitialized);
    let res = EscrowProcessor::process_cancel_escrow(&PROGRAM, &accounts);
    assert!(matches!(res, Err(EscrowError::UninitializedAccount)));
    accounts[5].key = [48u8; 32];
    let res = EscrowProcessor::process_cancel_escrow(&PROGRAM, &accounts);
    assert!(matches!(res, Err(EscrowError::InvalidAccountData)));
}

#[test]
fn cancel_on_a_closed_record_is_refused() {
    let closed = EscrowProcessor::close_escrow_record(10, 20).unwrap();
    let mut accounts = cancel_accounts(100);
    accounts[1].data = closed.record_data;
    let res = EscrowProcessor::process_cancel_escrow(&PROGRAM, &accounts);
    assert!(matches!(res, Err(EscrowError::InvalidAccountData)));
}

#[test]
fn cancel_on_an_empty_record_is_refused() {
    let mut accounts = cancel_accounts(100);
    let mut state = active_record();
    state.is_initialized = false;
    accounts[1].data = state.serialize();
    let res = EscrowProcessor::process_cancel_escrow(&PROGRAM, &accounts);
    assert!(matches!(res, Err(EscrowError::UninitializedAccount)));
    accounts[1].data = vec![0u8; 106];
    let res = EscrowProcessor::process_cancel_escrow(&PROGRAM, &accounts);
    assert!(matches!(res, Err(EscrowError::InvalidAccountData)));
}

#[test]
fn cancel_decided_on_plain_values() {
    let accounts = cancel_accounts(100);
    let state = active_record();
    let pda = custody_of_alice().0;
    let plan = EscrowProcessor::cancel_escrow(&state, Some(pda), Ok(33), &accounts).unwrap();
    assert_eq!(plan.return_asset.call.data, vec![3, 33, 0, 0, 0, 0, 0, 0, 0]);
    let res = EscrowProcessor::cancel_escrow(&state, None, Ok(33), &accounts);
    assert!(matches!(res, Err(EscrowError::InvalidSeeds)));
    let res = EscrowProcessor::cancel_escrow(&state, Some([0u8; 32]), Ok(33), &accounts);
    assert!(matches!(res, Err(EscrowError::InvalidAccountData)));
    let res = EscrowProcessor::cancel_escrow(
        &state,
        Some(pda),
        Err(EscrowError::UninitializedAccount),
        &accounts,
    );
    assert!(matches!(res, Err(EscrowError::UninitializedAccount)));
    let res = EscrowProcessor::cancel_escrow(&state, Some(pda), Ok(33), &accounts[..5]);
    assert!(matches!(res, Err(EscrowError::NotEnoughAccountKeys)));
}
