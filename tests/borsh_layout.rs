use flexfi::address::Address;
use flexfi::authorization::AuthorizationAccount;
use flexfi::bnpl::BNPLContractAccount;
use flexfi::codec::{decode_loan, encode_authorization, encode_loan, encode_score, encode_staking, encode_yield};
use flexfi::instruction::{decode_instruction, FlexfiInstruction};
use flexfi::score::ScoreAccount;
use flexfi::staking::{StakingAccount, StakingStatus};
use flexfi::yields::{YieldAccount, YieldStrategy};

fn a(n: u8) -> Address {
    Address::new([n; 32])
}

#[test]
fn staking_layout_matches_borsh() {
    let s = StakingAccount::new(a(1), a(2), 123_456_789, StakingStatus::Frozen, -77, 1_700_000_000, 9);
    let expected = borsh::to_vec(&([1u8; 32], [2u8; 32], 123_456_789u64, 2u8, -77i64, 1_700_000_000i64, 1_700_000_000i64, 9u8)).unwrap();
    assert_eq!(encode_staking(&s), expected);
}

#[test]
fn authorization_layout_matches_borsh() {
    let x = AuthorizationAccount {
        user: a(3),
        flexfi_authority: a(4),
        authorized_amount: 500,
        used_amount: 20,
        is_active: false,
        created_at: 1,
        expires_at: 2,
        bump: 3,
    };
    let expected = borsh::to_vec(&([3u8; 32], [4u8; 32], 500u64, 20u64, false, 1i64, 2i64, 3u8)).unwrap();
    assert_eq!(encode_authorization(&x), expected);
}

#[test]
fn loan_layout_matches_borsh() {
    let c = BNPLContractAccount::new(a(5), a(6), 1200, a(7), 3, 30, 421, 400, 500, 1, 2, 100, 200, 9);
    let head = borsh::to_vec(&([5u8; 32], [6u8; 32], 1200u64, [7u8; 32], 3u8, 0u8, 200i64, 30u8, 421u64)).unwrap();
    let tail = borsh::to_vec(&(0u8, 100i64, 100i64, 400u16, 500u16, 1u8, 2u8, 9u8)).unwrap();
    let expected = [head, tail].concat();
    assert_eq!(encode_loan(&c), expected);
    let back = decode_loan(&expected).unwrap();
    assert_eq!(back.next_payment_due, 200);
    assert_eq!(back.last_payment_at, 100);
}

#[test]
fn score_and_yield_layouts_match_borsh() {
    let s = ScoreAccount::new(a(8), 640, 33, 4);
    let expected = borsh::to_vec(&([8u8; 32], 640u16, 0u32, 0u32, 0u16, 0u32, 33i64, 4u8)).unwrap();
    assert_eq!(encode_score(&s), expected);
    let y = YieldAccount::new(a(9), YieldStrategy::RealWorldAssets, a(10), true, 44, 5);
    let expected = borsh::to_vec(&([9u8; 32], 3u8, [10u8; 32], true, 0u64, 0u64, 44i64, 44i64, 5u8)).unwrap();
    assert_eq!(encode_yield(&y), expected);
}

#[test]
fn instruction_wire_format_matches_borsh() {
    let data = borsh::to_vec(&(15u8, 5_000_000u64, 90u16)).unwrap();
    match decode_instruction(&data).unwrap() {
        FlexfiInstruction::InitializeFlexFiAccount { authorized_amount, duration_days } => {
            assert_eq!(authorized_amount, 5_000_000);
            assert_eq!(duration_days, 90);
        },
        _ => panic!("wrong variant"),
    }
    let data = borsh::to_vec(&(13u8, [21u8; 32])).unwrap();
    match decode_instruction(&data).unwrap() {
        FlexfiInstruction::AddToWhitelist { user_pubkey } => assert_eq!(user_pubkey.bytes, [21u8; 32]),
        _ => panic!("wrong variant"),
    }
}
