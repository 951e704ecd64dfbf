use flexfi::address::Address;
use flexfi::authorization::AuthorizationAccount;
use flexfi::bnpl::BNPLContractAccount;
use flexfi::codec::{
    decode_authorization, decode_loan, decode_nft_attachment, decode_score, decode_staking, decode_user_status,
    decode_yield, encode_authorization, encode_loan, encode_nft_attachment, encode_score, encode_staking,
    encode_user_status, encode_yield, decode_wallet, encode_wallet, decode_card, encode_card, decode_nft_metadata,
    encode_nft_metadata, decode_whitelist, encode_whitelist,
};
use flexfi::card::{CardAccount, WalletAccount};
use flexfi::error::ProgramError;
use flexfi::nft::{NFTAttachmentAccount, NFTMetadataAccount, NFTType};
use flexfi::score::ScoreAccount;
use flexfi::staking::{StakingAccount, StakingStatus};
use flexfi::whitelist::{UserWhitelistStatus, WhitelistAccount};
use flexfi::yields::{YieldAccount, YieldStrategy};

fn a(n: u8) -> Address {
    let mut b = [0u8; 32];
    for (i, x) in b.iter_mut().enumerate() {
        *x = n.wrapping_add(i as u8);
    }
    Address::new(b)
}

#[test]
fn staking_layout_round_trip() {
    let s = StakingAccount::new(a(1), a(2), 0x0102_0304_0506_0708, StakingStatus::Locked, -5, 1_700_000_000, 250);
    let bytes = encode_staking(&s);
    assert_eq!(bytes.len(), StakingAccount::SIZE);
    assert_eq!(&bytes[0..32], &a(1).bytes[..]);
    assert_eq!(&bytes[64..72], &[8, 7, 6, 5, 4, 3, 2, 1]);
    assert_eq!(bytes[72], 1);
    assert_eq!(&bytes[73..81], &(-5i64).to_le_bytes());
    assert_eq!(bytes[97], 250);
    let t = decode_staking(&bytes).unwrap();
    assert_eq!(encode_staking(&t), bytes);
    assert_eq!(t.amount_staked, s.amount_staked);
    assert_eq!(t.lock_period_end, -5);
    assert!(t.owner.same_as(&s.owner));
    assert_eq!(decode_staking(&bytes[..97]).unwrap_err(), ProgramError::InvalidAccountData);
}

#[test]
fn authorization_layout_round_trip() {
    let x = AuthorizationAccount {
        user: a(3),
        flexfi_authority: a(4),
        authorized_amount: 1000,
        used_amount: 250,
        is_active: true,
        created_at: 10,
        expires_at: i64::MAX,
        bump: 1,
    };
    let bytes = encode_authorization(&x);
    assert_eq!(bytes.len(), AuthorizationAccount::SIZE);
    assert_eq!(bytes[80], 1);
    let t = decode_authorization(&bytes).unwrap();
    assert_eq!(t.used_amount, 250);
    assert_eq!(t.expires_at, i64::MAX);
    assert!(t.is_active);
    let mut bad = bytes.clone();
    bad[80] = 2;
    assert_eq!(decode_authorization(&bad).unwrap_err(), ProgramError::InvalidAccountData);
}

#[test]
fn loan_layout_round_trip() {
    let c = BNPLContractAccount::new(a(5), a(6), 1200, a(7), 3, 30, 421, 400, 500, 1, 2, 100, 200, 9);
    let bytes = encode_loan(&c);
    assert_eq!(bytes.len(), BNPLContractAccount::SIZE);
    let t = decode_loan(&bytes).unwrap();
    assert_eq!(encode_loan(&t), bytes);
    assert_eq!(t.amount_per_installment, 421);
    assert_eq!(t.fee_percentage, 400);
    assert_eq!(t.apr_percentage, 500);
    assert_eq!(t.next_payment_due, 200);
    assert_eq!(t.nft_type, 2);
}

#[test]
fn score_layout_round_trip() {
    let mut s = ScoreAccount::new(a(8), 777, -1, 4);
    s.update_score(-40, 55);
    let bytes = encode_score(&s);
    assert_eq!(bytes.len(), ScoreAccount::SIZE);
    assert_eq!(&bytes[32..34], &737u16.to_le_bytes());
    let t = decode_score(&bytes).unwrap();
    assert_eq!(t.score, 737);
    assert_eq!(t.defaults, 1);
    assert_eq!(t.last_updated, 55);
}

#[test]
fn yield_layout_round_trip() {
    let mut y = YieldAccount::new(a(9), YieldStrategy::Custom, a(10), true, 77, 3);
    y.record_yield_earned(5000);
    let bytes = encode_yield(&y);
    assert_eq!(bytes.len(), YieldAccount::SIZE);
    let t = decode_yield(&bytes).unwrap();
    assert_eq!(t.total_yield_earned, 5000);
    assert!(t.auto_reinvest);
    assert_eq!(t.get_strategy().unwrap(), YieldStrategy::Custom);
    assert_eq!(encode_yield(&t), bytes);
}

#[test]
fn other_records_round_trip() {
    let w = WalletAccount::new(a(1), 2, 99, 7).unwrap();
    let wb = encode_wallet(&w);
    assert_eq!(wb.len(), WalletAccount::SIZE);
    assert_eq!(encode_wallet(&decode_wallet(&wb).unwrap()), wb);

    let c = CardAccount::new(a(2), 3, 1000, 8);
    let cb = encode_card(&c);
    assert_eq!(cb.len(), CardAccount::SIZE);
    assert_eq!(encode_card(&decode_card(&cb).unwrap()), cb);

    let m = NFTMetadataAccount::new(a(3), a(4), NFTType::Gold, 2, 365, 5, 9);
    let mb = encode_nft_metadata(&m);
    assert_eq!(mb.len(), NFTMetadataAccount::SIZE);
    assert_eq!(encode_nft_metadata(&decode_nft_metadata(&mb).unwrap()), mb);

    let n = NFTAttachmentAccount::new(a(5), a(6), [3u8; 32], 6, 10);
    let nb = encode_nft_attachment(&n);
    assert_eq!(nb.len(), NFTAttachmentAccount::SIZE);
    assert_eq!(decode_nft_attachment(&nb).unwrap().card_id, [3u8; 32]);

    let l = WhitelistAccount::new(a(7), 11);
    let lb = encode_whitelist(&l);
    assert_eq!(lb.len(), WhitelistAccount::SIZE);
    assert_eq!(encode_whitelist(&decode_whitelist(&lb).unwrap()), lb);

    let u = UserWhitelistStatus { user_pubkey: a(8), is_whitelisted: true, whitelisted_at: 12, whitelisted_by: a(9), bump: 13 };
    let ub = encode_user_status(&u);
    assert_eq!(ub.len(), UserWhitelistStatus::SIZE);
    assert_eq!(encode_user_status(&decode_user_status(&ub).unwrap()), ub);
}
