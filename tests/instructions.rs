use flexfi::error::ProgramError;
use flexfi::instruction::{decode_instruction, FlexfiInstruction};

#[test]
fn decodes_a_deposit() {
    let mut data = vec![0u8];
    data.extend_from_slice(&1_000_000_000u64.to_le_bytes());
    data.extend_from_slice(&30u16.to_le_bytes());
    match decode_instruction(&data).unwrap() {
        FlexfiInstruction::DepositStaking { amount, lock_days } => {
            assert_eq!(amount, 1_000_000_000);
            assert_eq!(lock_days, 30);
        },
        _ => panic!("wrong variant"),
    }
}

#[test]
fn decodes_a_spend_with_its_merchant() {
    let mut data = vec![17u8];
    data.extend_from_slice(&250u64.to_le_bytes());
    data.extend_from_slice(&[7u8; 32]);
    match decode_instruction(&data).unwrap() {
        FlexfiInstruction::FlexFiSpend { amount, merchant } => {
            assert_eq!(amount, 250);
            assert_eq!(merchant.bytes, [7u8; 32]);
        },
        _ => panic!("wrong variant"),
    }
}

#[test]
fn decodes_a_negative_score_change() {
    let mut data = vec![7u8];
    data.extend_from_slice(&(-50i16).to_le_bytes());
    match decode_instruction(&data).unwrap() {
        FlexfiInstruction::UpdateScore { change } => assert_eq!(change, -50),
        _ => panic!("wrong variant"),
    }
}

#[test]
fn decodes_unit_variants() {
    assert!(matches!(decode_instruction(&[4]).unwrap(), FlexfiInstruction::DetachNFT));
    assert!(matches!(decode_instruction(&[16]).unwrap(), FlexfiInstruction::RevokeFundsAuthorization));
    assert!(matches!(
        decode_instruction(&[9, 4, 1]).unwrap(),
        FlexfiInstruction::SetYieldStrategy { strategy: 4, auto_reinvest: true }
    ));
}

#[test]
fn rejects_malformed_data() {
    assert_eq!(decode_instruction(&[]).unwrap_err(), ProgramError::InvalidInstructionData);
    assert_eq!(decode_instruction(&[18]).unwrap_err(), ProgramError::InvalidInstructionData);
    assert_eq!(decode_instruction(&[4, 0]).unwrap_err(), ProgramError::InvalidInstructionData);
    assert_eq!(decode_instruction(&[1, 0, 0]).unwrap_err(), ProgramError::InvalidInstructionData);
    assert_eq!(decode_instruction(&[9, 4, 2]).unwrap_err(), ProgramError::InvalidInstructionData);
}
