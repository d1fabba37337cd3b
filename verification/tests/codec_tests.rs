//! Tests of the instruction codec and the record codec.

use escrow::error::EscrowError;
use escrow::instruction::EscrowInstruction;
use escrow::state::{Escrow, RECORD_LEN};

fn init_instruction_bytes(amount: u64) -> Vec<u8> {
    let mut v = vec![0u8];
    v.extend_from_slice(&amount.to_le_bytes());
    v
}

#[test]
fn unpack_init_reads_little_endian_amount() {
    let v = init_instruction_bytes(1000);
    assert_eq!(
        EscrowInstruction::unpack(&v),
        Ok(EscrowInstruction::InitEscrow { amount: 1000 })
    );

    let mut w = vec![0u8, 1, 2, 0, 0, 0, 0, 0, 0];
    assert_eq!(
        EscrowInstruction::unpack(&w),
        Ok(EscrowInstruction::InitEscrow { amount: 0x0201 })
    );
    // Bytes beyond the tag and the amount are ignored.
    w.push(0xFF);
    assert_eq!(
        EscrowInstruction::unpack(&w),
        Ok(EscrowInstruction::InitEscrow { amount: 0x0201 })
    );
}

#[test]
fn unpack_exchange_reads_little_endian_amount() {
    let mut v = vec![1u8];
    v.extend_from_slice(&77u64.to_le_bytes());
    assert_eq!(
        EscrowInstruction::unpack(&v),
        Ok(EscrowInstruction::Exchange { amount: 77 })
    );
}

#[test]
fn unpack_rejects_short_buffers() {
    for len in 0..9usize {
        let v = vec![0u8; len];
        assert_eq!(
            EscrowInstruction::unpack(&v),
            Err(EscrowError::InvalidInstruction),
            "a {len}-byte buffer is shorter than tag plus amount"
        );
    }
}

#[test]
fn unpack_rejects_unknown_tags() {
    for tag in [2u8, 3, 17, 255] {
        let mut v = vec![tag];
        v.extend_from_slice(&5u64.to_le_bytes());
        assert_eq!(
            EscrowInstruction::unpack(&v),
            Err(EscrowError::InvalidInstruction)
        );
    }
}

#[test]
fn record_roundtrips_through_bytes() {
    let record = Escrow {
        is_initialized: true,
        initializer_pubkey: [7u8; 32],
        temp_token_account_pubkey: [0xAB; 32],
        initializer_token_to_receive_account_pubkey: core::array::from_fn(|i| i as u8),
        expected_amount: u64::MAX - 3,
        unlock_time: 123_456_789,
        time_out: 42,
    };
    let mut buf: Vec<u8> = Vec::new();
    record.pack_into_slice(&mut buf);
    assert_eq!(buf.len(), RECORD_LEN);
    assert_eq!(Escrow::unpack_from_slice(&buf), Ok(record));
}

#[test]
fn record_layout_offsets_are_fixed() {
    let record = Escrow {
        is_initialized: true,
        initializer_pubkey: [1u8; 32],
        temp_token_account_pubkey: [2u8; 32],
        initializer_token_to_receive_account_pubkey: [3u8; 32],
        expected_amount: 0x0807060504030201,
        unlock_time: 0,
        time_out: u64::MAX,
    };
    let mut buf: Vec<u8> = Vec::new();
    record.pack_into_slice(&mut buf);
    assert_eq!(buf[0], 1);
    assert_eq!(&buf[1..33], &[1u8; 32]);
    assert_eq!(&buf[33..65], &[2u8; 32]);
    assert_eq!(&buf[65..97], &[3u8; 32]);
    assert_eq!(&buf[97..105], &[1u8, 2, 3, 4, 5, 6, 7, 8]);
    assert_eq!(&buf[105..113], &[0u8; 8]);
    assert_eq!(&buf[113..121], &[0xFFu8; 8]);
}

#[test]
fn zeroed_buffer_decodes_as_free_slot() {
    let buf = vec![0u8; RECORD_LEN];
    let record = Escrow::unpack_from_slice(&buf).unwrap();
    assert!(!record.is_initialized());
    assert_eq!(record.initializer_pubkey, [0u8; 32]);
    assert_eq!(record.temp_token_account_pubkey, [0u8; 32]);
    assert_eq!(record.initializer_token_to_receive_account_pubkey, [0u8; 32]);
    assert_eq!(record.expected_amount, 0);
}

#[test]
fn record_decode_rejects_wrong_length() {
    assert_eq!(
        Escrow::unpack_from_slice(&vec![0u8; RECORD_LEN - 1]),
        Err(EscrowError::InvalidAccountData)
    );
    assert_eq!(
        Escrow::unpack_from_slice(&vec![0u8; RECORD_LEN + 1]),
        Err(EscrowError::InvalidAccountData)
    );
}

#[test]
fn error_codes_are_stable_and_ordered() {
    assert_eq!(EscrowError::InvalidInstruction.code(), 0);
    assert_eq!(EscrowError::NotRentExempt.code(), 1);
    assert_eq!(EscrowError::ExpectedAmountMismatch.code(), 2);
    assert_eq!(EscrowError::AmountOverflow.code(), 3);
    assert_eq!(EscrowError::AccountAlreadyInitialized.code(), 4);
    assert_eq!(EscrowError::MissingRequiredSignature.code(), 5);
    assert_eq!(EscrowError::IncorrectProgramId.code(), 6);
    assert_eq!(EscrowError::InvalidAccountData.code(), 7);
}

#[test]
fn canonical_buffer_survives_decode_then_encode() {
    let mut buf = vec![0u8; RECORD_LEN];
    buf[0] = 1;
    for (i, b) in buf.iter_mut().enumerate().skip(1) {
        *b = (i % 251) as u8;
    }
    let record = Escrow::unpack_from_slice(&buf).unwrap();
    let mut reencoded: Vec<u8> = Vec::new();
    record.pack_into_slice(&mut reencoded);
    assert_eq!(reencoded, buf);
}
