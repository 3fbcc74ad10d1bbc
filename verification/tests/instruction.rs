use token_escrow::error::EscrowError;
use token_escrow::instruction::EscrowInstruction;

fn tagged(tag: u8, amount: u64) -> Vec<u8> {
    let mut data = vec![tag];
    data.extend_from_slice(&amount.to_le_bytes());
    data
}

#[test]
fn unpack_initialize_reads_little_endian_amount() {
    let data = [0u8, 50, 0, 0, 0, 0, 0, 0, 0];
    assert_eq!(
        EscrowInstruction::unpack_instruction(&data),
        Ok(EscrowInstruction::InitializeEscrow { expected_y_token_amount: 50 })
    );
}

#[test]
fn unpack_exchange_reads_little_endian_amount() {
    let data = [1u8, 100, 0, 0, 0, 0, 0, 0, 0];
    assert_eq!(
        EscrowInstruction::unpack_instruction(&data),
        Ok(EscrowInstruction::ExchangeEscrow { expected_x_token_amount: 100 })
    );
}

#[test]
fn unpack_amount_weighs_each_byte_by_its_place() {
    let data = [1u8, 0x01, 0x02, 0x03, 0x04, 0x05, 0x06, 0x07, 0x08];
    assert_eq!(
        EscrowInstruction::unpack_instruction(&data),
        Ok(EscrowInstruction::ExchangeEscrow { expected_x_token_amount: 0x0807_0605_0403_0201 })
    );
}

#[test]
fn unpack_takes_the_largest_amount() {
    assert_eq!(
        EscrowInstruction::unpack_instruction(&tagged(0, u64::MAX)),
        Ok(EscrowInstruction::InitializeEscrow { expected_y_token_amount: u64::MAX })
    );
    assert_eq!(
        EscrowInstruction::unpack_instruction(&tagged(1, u64::MAX - 1)),
        Ok(EscrowInstruction::ExchangeEscrow { expected_x_token_amount: u64::MAX - 1 })
    );
}

#[test]
fn unpack_agrees_with_std_on_many_amounts() {
    let mut amount: u64 = 1;
    for _ in 0..200 {
        amount = amount.wrapping_mul(6364136223846793005).wrapping_add(1442695040888963407);
        assert_eq!(
            EscrowInstruction::unpack_instruction(&tagged(0, amount)),
            Ok(EscrowInstruction::InitializeEscrow { expected_y_token_amount: amount })
        );
    }
}

#[test]
fn unpack_cancel_needs_the_tag_alone() {
    assert_eq!(EscrowInstruction::unpack_instruction(&[2u8]), Ok(EscrowInstruction::CancelEscrow));
}

#[test]
fn unpack_cancel_ignores_what_follows() {
    assert_eq!(
        EscrowInstruction::unpack_instruction(&[2u8, 9, 9, 9]),
        Ok(EscrowInstruction::CancelEscrow)
    );
}

#[test]
fn unpack_ignores_bytes_after_the_amount() {
    let mut data = tagged(0, 7);
    data.extend_from_slice(&[0xff, 0xee]);
    assert_eq!(
        EscrowInstruction::unpack_instruction(&data),
        Ok(EscrowInstruction::InitializeEscrow { expected_y_token_amount: 7 })
    );
}

#[test]
fn unpack_rejects_an_empty_buffer() {
    assert_eq!(
        EscrowInstruction::unpack_instruction(&[]),
        Err(EscrowError::InvalidInstructionData)
    );
}

#[test]
fn unpack_rejects_unknown_tags() {
    for tag in 3u8..=255 {
        assert_eq!(
            EscrowInstruction::unpack_instruction(&tagged(tag, 1)),
            Err(EscrowError::InvalidInstructionData)
        );
    }
}

#[test]
fn unpack_rejects_a_short_amount() {
    for len in 0..8usize {
        let mut data = vec![0u8];
        data.extend(std::iter::repeat(1u8).take(len));
        assert_eq!(
            EscrowInstruction::unpack_instruction(&data),
            Err(EscrowError::InvalidInstructionData)
        );
        data[0] = 1;
        assert_eq!(
            EscrowInstruction::unpack_instruction(&data),
            Err(EscrowError::InvalidInstructionData)
        );
    }
}
