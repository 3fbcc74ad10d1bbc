use token_escrow::error::EscrowError;
use token_escrow::state::{EscrowState, ESCROW_STATE_LEN};

fn sample_state() -> EscrowState {
    EscrowState {
        is_initialized: true,
        alice_pubkey: [1u8; 32],
        alice_temp_x_token_pubkey: [2u8; 32],
        alice_y_token_pubkey: [3u8; 32],
        expected_y_token_amount: 50,
        escrow_pda_bump: 254,
    }
}

fn assert_same_state(a: &EscrowState, b: &EscrowState) {
    assert_eq!(a.is_initialized, b.is_initialized);
    assert_eq!(a.alice_pubkey, b.alice_pubkey);
    assert_eq!(a.alice_temp_x_token_pubkey, b.alice_temp_x_token_pubkey);
    assert_eq!(a.alice_y_token_pubkey, b.alice_y_token_pubkey);
    assert_eq!(a.expected_y_token_amount, b.expected_y_token_amount);
    assert_eq!(a.escrow_pda_bump, b.escrow_pda_bump);
}

#[test]
fn stored_record_has_106_bytes() {
    assert_eq!(ESCROW_STATE_LEN, 106);
    assert_eq!(sample_state().serialize().len(), 106);
}

#[test]
fn stored_record_lays_fields_out_in_order() {
    let data = sample_state().serialize();
    let mut expected = vec![1u8];
    expected.extend_from_slice(&[1u8; 32]);
    expected.extend_from_slice(&[2u8; 32]);
    expected.extend_from_slice(&[3u8; 32]);
    expected.extend_from_slice(&[50, 0, 0, 0, 0, 0, 0, 0]);
    expected.push(254);
    assert_eq!(data, expected);
}

#[test]
fn stored_record_reads_back() {
    let state = sample_state();
    let back = EscrowState::try_from_slice(&state.serialize()).unwrap();
    assert_same_state(&state, &back);
}

#[test]
fn stored_record_reads_back_for_many_records() {
    let mut seed: u64 = 17;
    for round in 0..100u32 {
        let mut next = || {
            seed = seed.wrapping_mul(6364136223846793005).wrapping_add(1442695040888963407);
            (seed >> 33) as u8
        };
        let mut keys = [[0u8; 32]; 3];
        for key in keys.iter_mut() {
            for byte in key.iter_mut() {
                *byte = next();
            }
        }
        let state = EscrowState {
            is_initialized: round % 2 == 0,
            alice_pubkey: keys[0],
            alice_temp_x_token_pubkey: keys[1],
            alice_y_token_pubkey: keys[2],
            expected_y_token_amount: u64::from_le_bytes([
                next(), next(), next(), next(), next(), next(), next(), next(),
            ]),
            escrow_pda_bump: next(),
        };
        let data = state.serialize();
        let back = EscrowState::try_from_slice(&data).unwrap();
        assert_same_state(&state, &back);
        assert_eq!(back.serialize(), data);
    }
}

#[test]
fn stored_record_is_what_borsh_writes() {
    let state = sample_state();
    let as_tuple = (
        state.is_initialized,
        state.alice_pubkey,
        state.alice_temp_x_token_pubkey,
        state.alice_y_token_pubkey,
        state.expected_y_token_amount,
        state.escrow_pda_bump,
    );
    assert_eq!(state.serialize(), borsh::to_vec(&as_tuple).unwrap());
}

#[test]
fn stored_record_reads_as_borsh_reads_it() {
    let mut data = vec![0u8; 106];
    for (i, byte) in data.iter_mut().enumerate() {
        *byte = (i as u8).wrapping_mul(7).wrapping_add(3);
    }
    data[0] = 1;
    let (flag, a, b, c, amount, bump): (bool, [u8; 32], [u8; 32], [u8; 32], u64, u8) =
        borsh::from_slice(&data).unwrap();
    let state = EscrowState::try_from_slice(&data).unwrap();
    assert_eq!(state.is_initialized, flag);
    assert_eq!(state.alice_pubkey, a);
    assert_eq!(state.alice_temp_x_token_pubkey, b);
    assert_eq!(state.alice_y_token_pubkey, c);
    assert_eq!(state.expected_y_token_amount, amount);
    assert_eq!(state.escrow_pda_bump, bump);
}

#[test]
fn zeroed_record_is_empty() {
    let state = EscrowState::try_from_slice(&[0u8; 106]).unwrap();
    assert!(!state.is_initialized());
    assert!(!state.is_initialized);
    assert_eq!(state.alice_pubkey, [0u8; 32]);
    assert_eq!(state.expected_y_token_amount, 0);
    assert_eq!(state.escrow_pda_bump, 0);
}

#[test]
fn is_initialized_gives_the_flag() {
    let mut state = sample_state();
    assert!(state.is_initialized());
    state.is_initialized = false;
    assert!(!state.is_initialized());
}

#[test]
fn record_of_wrong_length_does_not_decode() {
    for len in [0usize, 1, 105, 107, 165, 212] {
        let data = vec![0u8; len];
        assert!(matches!(
            EscrowState::try_from_slice(&data),
            Err(EscrowError::InvalidAccountData)
        ));
        type Tuple = (bool, [u8; 32], [u8; 32], [u8; 32], u64, u8);
        assert!(borsh::from_slice::<Tuple>(&data).is_err());
    }
}

#[test]
fn record_with_a_flag_above_one_does_not_decode() {
    for flag in 2u8..=255 {
        let mut data = sample_state().serialize();
        data[0] = flag;
        assert!(matches!(
            EscrowState::try_from_slice(&data),
            Err(EscrowError::InvalidAccountData)
        ));
    }
    let mut data = sample_state().serialize();
    data[0] = 2;
    type Tuple = (bool, [u8; 32], [u8; 32], [u8; 32], u64, u8);
    assert!(borsh::from_slice::<Tuple>(&data).is_err());
}
