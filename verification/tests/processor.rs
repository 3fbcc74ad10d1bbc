use solana_program::program_option::COption;
use solana_program::program_pack::Pack;
use solana_program::pubkey::Pubkey;
use spl_token::state::{Account, AccountState};
use token_escrow::account::AccountSnapshot;
use token_escrow::entrypoint::process_instruction;
use token_escrow::error::EscrowError;
use token_escrow::plan::EscrowPlan;
use token_escrow::processor::EscrowProcessor;
use token_escrow::state::EscrowState;

const PROGRAM: [u8; 32] = [9u8; 32];
const ALICE: [u8; 32] = [1u8; 32];
const TEMP_X: [u8; 32] = [2u8; 32];
const ALICE_Y: [u8; 32] = [3u8; 32];
const BOB: [u8; 32] = [4u8; 32];
const BOB_Y: [u8; 32] = [5u8; 32];
const BOB_X: [u8; 32] = [6u8; 32];
const RECORD: [u8; 32] = [7u8; 32];
const ALICE_X: [u8; 32] = [10u8; 32];

fn holding(amount: u64) -> Vec<u8> {
    let account = Account {
        mint: Pubkey::from([20u8; 32]),
        owner: Pubkey::from([21u8; 32]),
        amount,
        delegate: COption::None,
        state: AccountState::Initialized,
        is_native: COption::None,
        delegated_amount: 0,
        close_authority: COption::None,
    };
    let mut data = vec![0u8; Account::LEN];
    account.pack_into_slice(&mut data);
    data
}

fn snapshot(key: [u8; 32]) -> AccountSnapshot {
    AccountSnapshot {
        key,
        owner: [0u8; 32],
        is_signer: false,
        data: Vec::new(),
        rent_exempt: true,
    }
}

fn token_program() -> AccountSnapshot {
    snapshot(spl_token::id().to_bytes())
}

fn tagged(tag: u8, amount: u64) -> Vec<u8> {
    let mut data = vec![tag];
    data.extend_from_slice(&amount.to_le_bytes());
    data
}

/// Runs the whole trade up to the exchange: Alice locks 100 X for 50 Y.
fn initialized() -> (Vec<u8>, [u8; 32]) {
    let mut alice = snapshot(ALICE);
    alice.is_signer = true;
    let mut payout = snapshot(ALICE_Y);
    payout.owner = spl_token::id().to_bytes();
    payout.data = holding(0);
    let mut record = snapshot(RECORD);
    record.owner = PROGRAM;
    record.data = vec![0u8; 106];
    let accounts = vec![alice, snapshot(TEMP_X), payout, record, token_program()];
    match EscrowProcessor::process_escrow_instruction(&PROGRAM, &accounts, &tagged(0, 50)) {
        Ok(EscrowPlan::Initialize(plan)) => (plan.record_data, plan.custody_address),
        _ => panic!("the initialization is in order"),
    }
}

fn exchange_list(record_data: Vec<u8>, custody: [u8; 32]) -> Vec<AccountSnapshot> {
    let mut bob = snapshot(BOB);
    bob.is_signer = true;
    let mut temp = snapshot(TEMP_X);
    temp.data = holding(100);
    let mut record = snapshot(RECORD);
    record.owner = PROGRAM;
    record.data = record_data;
    vec![
        bob,
        snapshot(BOB_Y),
        snapshot(BOB_X),
        temp,
        snapshot(ALICE),
        snapshot(ALICE_Y),
        record,
        token_program(),
        snapshot(custody),
    ]
}

fn cancel_list(record_data: Vec<u8>, custody: [u8; 32]) -> Vec<AccountSnapshot> {
    let mut temp = snapshot(TEMP_X);
    temp.data = holding(100);
    let mut record = snapshot(RECORD);
    record.owner = PROGRAM;
    record.data = record_data;
    vec![snapshot(ALICE), record, temp, snapshot(ALICE_X), token_program(), snapshot(custody)]
}

#[test]
fn dispatch_initialize_by_tag_0() {
    let (record_data, custody) = initialized();
    let state = EscrowState::try_from_slice(&record_data).unwrap();
    assert!(state.is_initialized);
    assert_eq!(state.expected_y_token_amount, 50);
    let (pda, bump) = Pubkey::find_program_address(&[b"escrow", &ALICE], &Pubkey::from(PROGRAM));
    assert_eq!(custody, pda.to_bytes());
    assert_eq!(state.escrow_pda_bump, bump);
}

#[test]
fn dispatch_exchange_by_tag_1() {
    let (record_data, custody) = initialized();
    let accounts = exchange_list(record_data, custody);
    match EscrowProcessor::process_escrow_instruction(&PROGRAM, &accounts, &tagged(1, 100)) {
        Ok(EscrowPlan::Exchange(plan)) => {
            assert_eq!(plan.pay_initiator.call.data, vec![3, 50, 0, 0, 0, 0, 0, 0, 0]);
            assert_eq!(plan.release_asset.call.data, vec![3, 100, 0, 0, 0, 0, 0, 0, 0]);
            assert_eq!(plan.close_custody.call.data, vec![9]);
        }
        _ => panic!("the exchange is in order"),
    }
    let res = EscrowProcessor::process_escrow_instruction(&PROGRAM, &accounts, &tagged(1, 99));
    assert!(matches!(res, Err(EscrowError::InsufficientFunds)));
}

#[test]
fn dispatch_cancel_by_tag_2() {
    let (record_data, custody) = initialized();
    let accounts = cancel_list(record_data, custody);
    match EscrowProcessor::process_escrow_instruction(&PROGRAM, &accounts, &[2]) {
        Ok(EscrowPlan::Cancel(plan)) => {
            assert_eq!(plan.return_asset.call.data, vec![3, 100, 0, 0, 0, 0, 0, 0, 0]);
            assert_eq!(plan.return_asset.call.accounts[1].pubkey, ALICE_X);
        }
        _ => panic!("the cancellation is in order"),
    }
}

#[test]
fn dispatch_rejects_a_malformed_buffer_before_looking_at_accounts() {
    for data in [vec![], vec![3u8], vec![0u8, 1, 2], vec![1u8; 8], vec![255u8; 9]] {
        let res = EscrowProcessor::process_escrow_instruction(&PROGRAM, &[], &data);
        assert!(matches!(res, Err(EscrowError::InvalidInstructionData)));
    }
    let res = EscrowProcessor::process_escrow_instruction(&PROGRAM, &[], &[2]);
    assert!(matches!(res, Err(EscrowError::NotEnoughAccountKeys)));
}

#[test]
fn entrypoint_does_what_the_processor_does() {
    let (record_data, custody) = initialized();
    let accounts = exchange_list(record_data.clone(), custody);
    assert!(matches!(
        process_instruction(&PROGRAM, &accounts, &tagged(1, 100)),
        Ok(EscrowPlan::Exchange(_))
    ));
    assert!(matches!(
        process_instruction(&PROGRAM, &accounts, &tagged(1, 1)),
        Err(EscrowError::InsufficientFunds)
    ));
    assert!(matches!(
        process_instruction(&PROGRAM, &accounts, &[9]),
        Err(EscrowError::InvalidInstructionData)
    ));
    let accounts = cancel_list(record_data, custody);
    assert!(matches!(process_instruction(&PROGRAM, &accounts, &[2]), Ok(EscrowPlan::Cancel(_))));
}

#[test]
fn a_trade_ends_once() {
    let (record_data, custody) = initialized();
    let exchange = exchange_list(record_data.clone(), custody);
    assert!(process_instruction(&PROGRAM, &exchange, &tagged(1, 100)).is_ok());
    let closed = EscrowProcessor::close_escrow_record(10, 10).unwrap();
    assert_eq!(closed.recipient_lamports, 20);
    assert_eq!(closed.record_lamports, 0);

    let again = exchange_list(closed.record_data.clone(), custody);
    assert!(process_instruction(&PROGRAM, &again, &tagged(1, 100)).is_err());
    let cancel = cancel_list(closed.record_data, custody);
    assert!(process_instruction(&PROGRAM, &cancel, &[2]).is_err());
}

#[test]
fn a_failed_exchange_leaves_the_trade_open() {
    let (record_data, custody) = initialized();
    let accounts = exchange_list(record_data, custody);
    let before: Vec<Vec<u8>> = accounts.iter().map(|account| account.data.clone()).collect();
    assert!(process_instruction(&PROGRAM, &accounts, &tagged(1, 99)).is_err());
    let after: Vec<Vec<u8>> = accounts.iter().map(|account| account.data.clone()).collect();
    assert_eq!(before, after);
    assert!(process_instruction(&PROGRAM, &accounts, &tagged(1, 100)).is_ok());
}
