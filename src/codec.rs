//! The durable byte layout of every record: fields in declaration order,
//! integers little-endian, booleans as one byte (0 or 1), addresses as
//! their 32 bytes. Decoding checks the length and the boolean bytes.
use vstd::prelude::*;
use vstd::bytes::{
    spec_u16_to_le_bytes, spec_u16_from_le_bytes, spec_u32_to_le_bytes, spec_u32_from_le_bytes,
    spec_u64_to_le_bytes, spec_u64_from_le_bytes, u16_to_le_bytes, u16_from_le_bytes, u32_to_le_bytes,
    u32_from_le_bytes, u64_to_le_bytes, u64_from_le_bytes,
};
use vstd::slice::slice_subrange;
use crate::address::Address;
use crate::authorization::AuthorizationAccount;
use crate::bnpl::BNPLContractAccount;
use crate::card::{CardAccount, WalletAccount};
use crate::error::ProgramError;
use crate::nft::{NFTAttachmentAccount, NFTMetadataAccount};
use crate::score::ScoreAccount;
use crate::staking::StakingAccount;
use crate::whitelist::{UserWhitelistStatus, WhitelistAccount};
use crate::yields::YieldAccount;

verus! {

/// A signed 64-bit integer as the eight little-endian bytes of its two's
/// complement.
pub open spec fn i64_bytes(x: i64) -> Seq<u8> {
    spec_u64_to_le_bytes(x as u64)
}

pub open spec fn bool_bytes(b: bool) -> Seq<u8> {
    seq![if b { 1u8 } else { 0u8 }]
}

pub(crate) proof fn lemma_piece_lengths()
    ensures
        forall|x: u16| #![trigger spec_u16_to_le_bytes(x)]
            spec_u16_to_le_bytes(x).len() == 2 && spec_u16_from_le_bytes(spec_u16_to_le_bytes(x)) == x,
        forall|x: u32| #![trigger spec_u32_to_le_bytes(x)]
            spec_u32_to_le_bytes(x).len() == 4 && spec_u32_from_le_bytes(spec_u32_to_le_bytes(x)) == x,
        forall|x: u64| #![trigger spec_u64_to_le_bytes(x)]
            spec_u64_to_le_bytes(x).len() == 8 && spec_u64_from_le_bytes(spec_u64_to_le_bytes(x)) == x,
{
    vstd::bytes::lemma_auto_spec_u16_to_from_le_bytes();
    vstd::bytes::lemma_auto_spec_u32_to_from_le_bytes();
    vstd::bytes::lemma_auto_spec_u64_to_from_le_bytes();
    assert forall|x: u32| #![trigger spec_u32_to_le_bytes(x)]
        spec_u32_to_le_bytes(x).len() == 4 && spec_u32_from_le_bytes(spec_u32_to_le_bytes(x)) == x by {
        assert(spec_u32_to_le_bytes(x).len() == 4);
    }
    assert forall|x: u16| #![trigger spec_u16_to_le_bytes(x)]
        spec_u16_to_le_bytes(x).len() == 2 && spec_u16_from_le_bytes(spec_u16_to_le_bytes(x)) == x by {
        assert(spec_u16_to_le_bytes(x).len() == 2);
    }
}

proof fn lemma_i64_round_trip(x: i64)
    ensures
        spec_u64_from_le_bytes(i64_bytes(x)) as i64 == x,
{
    lemma_piece_lengths();
    assert(spec_u64_from_le_bytes(spec_u64_to_le_bytes(x as u64)) == x as u64);
    assert((x as u64) as i64 == x) by (bit_vector);
}

pub(crate) proof fn lemma_u16_exact(s: Seq<u8>)
    requires
        s.len() == 2,
    ensures
        spec_u16_to_le_bytes(spec_u16_from_le_bytes(s)) == s,
{
    vstd::bytes::lemma_auto_spec_u16_to_from_le_bytes();
}

pub(crate) proof fn lemma_u32_exact(s: Seq<u8>)
    requires
        s.len() == 4,
    ensures
        spec_u32_to_le_bytes(spec_u32_from_le_bytes(s)) == s,
{
    vstd::bytes::lemma_auto_spec_u32_to_from_le_bytes();
}

pub(crate) proof fn lemma_u64_exact(s: Seq<u8>)
    requires
        s.len() == 8,
    ensures
        spec_u64_to_le_bytes(spec_u64_from_le_bytes(s)) == s,
{
    vstd::bytes::lemma_auto_spec_u64_to_from_le_bytes();
}

proof fn lemma_i64_exact(s: Seq<u8>)
    requires
        s.len() == 8,
    ensures
        i64_bytes(spec_u64_from_le_bytes(s) as i64) == s,
{
    let u = spec_u64_from_le_bytes(s);
    assert((u as i64) as u64 == u) by (bit_vector);
    lemma_u64_exact(s);
}

fn push_array(out: &mut Vec<u8>, a: &[u8; 32])
    ensures
        final(out)@ == old(out)@ + a@,
{
    let ghost start = out@;
    let mut i: usize = 0;
    while i < 32
        invariant
            i <= 32,
            a@.len() == 32,
            out@ == start + a@.subrange(0, i as int),
        decreases 32 - i,
    {
        out.push(a[i]);
        proof {
            assert(a@.subrange(0, i + 1) =~= a@.subrange(0, i as int).push(a@[i as int]));
        }
        i = i + 1;
    }
    proof {
        assert(a@.subrange(0, 32) =~= a@);
    }
}

fn push_address(out: &mut Vec<u8>, a: &Address)
    ensures
        final(out)@ == old(out)@ + a@,
{
    push_array(out, &a.bytes);
}

fn push_bool(out: &mut Vec<u8>, b: bool)
    ensures
        final(out)@ == old(out)@ + bool_bytes(b),
{
    out.push(if b { 1u8 } else { 0u8 });
    proof {
        assert(out@ =~= old(out)@ + bool_bytes(b));
    }
}

fn push_u16(out: &mut Vec<u8>, x: u16)
    ensures
        final(out)@ == old(out)@ + spec_u16_to_le_bytes(x),
{
    let mut b = u16_to_le_bytes(x);
    out.append(&mut b);
}

fn push_u32(out: &mut Vec<u8>, x: u32)
    ensures
        final(out)@ == old(out)@ + spec_u32_to_le_bytes(x),
{
    let mut b = u32_to_le_bytes(x);
    out.append(&mut b);
}

fn push_u64(out: &mut Vec<u8>, x: u64)
    ensures
        final(out)@ == old(out)@ + spec_u64_to_le_bytes(x),
{
    let mut b = u64_to_le_bytes(x);
    out.append(&mut b);
}

fn push_i64(out: &mut Vec<u8>, x: i64)
    ensures
        final(out)@ == old(out)@ + i64_bytes(x),
{
    push_u64(out, x as u64);
}

pub(crate) fn read_array(data: &[u8], pos: usize) -> (r: [u8; 32])
    requires
        pos + 32 <= data@.len(),
    ensures
        r@ == data@.subrange(pos as int, pos + 32),
{
    let _len = data.len();
    let mut r = [0u8; 32];
    let mut i: usize = 0;
    while i < 32
        invariant
            i <= 32,
            pos + 32 <= data@.len(),
            data@.len() == _len,
            r@.len() == 32,
            forall|j: int| 0 <= j < i ==> r@[j] == data@[pos + j],
        decreases 32 - i,
    {
        r[i] = data[pos + i];
        i = i + 1;
    }
    proof {
        assert(r@ =~= data@.subrange(pos as int, pos + 32));
    }
    r
}

pub(crate) fn read_bool(data: &[u8], pos: usize) -> (r: Result<bool, ProgramError>)
    requires
        pos < data@.len(),
    ensures
        r is Ok <==> data@[pos as int] <= 1,
        r matches Ok(b) ==> b == (data@[pos as int] == 1),
        r is Err ==> r == Err::<bool, ProgramError>(ProgramError::InvalidAccountData),
{
    let v = data[pos];
    if v > 1 {
        return Err(ProgramError::InvalidAccountData);
    }
    Ok(v == 1)
}

pub(crate) fn read_u16(data: &[u8], pos: usize) -> (r: u16)
    requires
        pos + 2 <= data@.len(),
    ensures
        r == spec_u16_from_le_bytes(data@.subrange(pos as int, pos + 2)),
{
    let _len = data.len();
    u16_from_le_bytes(slice_subrange(data, pos, pos + 2))
}

fn read_u32(data: &[u8], pos: usize) -> (r: u32)
    requires
        pos + 4 <= data@.len(),
    ensures
        r == spec_u32_from_le_bytes(data@.subrange(pos as int, pos + 4)),
{
    let _len = data.len();
    u32_from_le_bytes(slice_subrange(data, pos, pos + 4))
}

pub(crate) fn read_u64(data: &[u8], pos: usize) -> (r: u64)
    requires
        pos + 8 <= data@.len(),
    ensures
        r == spec_u64_from_le_bytes(data@.subrange(pos as int, pos + 8)),
{
    let _len = data.len();
    u64_from_le_bytes(slice_subrange(data, pos, pos + 8))
}

fn read_i64(data: &[u8], pos: usize) -> (r: i64)
    requires
        pos + 8 <= data@.len(),
    ensures
        r == spec_u64_from_le_bytes(data@.subrange(pos as int, pos + 8)) as i64,
{
    read_u64(data, pos) as i64
}

/// The stored layout of a `StakingAccount`: its fields in declaration order,
/// integers little-endian, booleans as one byte, 98 bytes in all.
pub open spec fn staking_bytes(s: StakingAccount) -> Seq<u8> {
    s.owner@
        + s.usdc_mint@
        + spec_u64_to_le_bytes(s.amount_staked)
        + seq![s.status]
        + i64_bytes(s.lock_period_end)
        + i64_bytes(s.created_at)
        + i64_bytes(s.last_update)
        + seq![s.bump]
}

/// Whether `d` is a stored `StakingAccount`: the right length, booleans 0 or 1.
pub open spec fn staking_layout_valid(d: Seq<u8>) -> bool {
    d.len() == 98
}

/// Whether `s` holds exactly the field values stored in `d`.
pub open spec fn staking_matches(s: StakingAccount, d: Seq<u8>) -> bool {
    &&& s.owner@ == d.subrange(0, 32)
    &&& s.usdc_mint@ == d.subrange(32, 64)
    &&& s.amount_staked == spec_u64_from_le_bytes(d.subrange(64, 72))
    &&& s.status == d[72]
    &&& s.lock_period_end == spec_u64_from_le_bytes(d.subrange(73, 81)) as i64
    &&& s.created_at == spec_u64_from_le_bytes(d.subrange(81, 89)) as i64
    &&& s.last_update == spec_u64_from_le_bytes(d.subrange(89, 97)) as i64
    &&& s.bump == d[97]
}

pub fn encode_staking(s: &StakingAccount) -> (r: Vec<u8>)
    ensures
        r@ == staking_bytes(*s),
        r@.len() == 98,
{
    let mut out: Vec<u8> = Vec::new();
    push_address(&mut out, &s.owner);
    push_address(&mut out, &s.usdc_mint);
    push_u64(&mut out, s.amount_staked);
    out.push(s.status);
    push_i64(&mut out, s.lock_period_end);
    push_i64(&mut out, s.created_at);
    push_i64(&mut out, s.last_update);
    out.push(s.bump);
    proof {
        lemma_piece_lengths();
        assert(out@ =~= staking_bytes(*s));
    }
    out
}

pub fn decode_staking(data: &[u8]) -> (r: Result<StakingAccount, ProgramError>)
    ensures
        r is Ok <==> staking_layout_valid(data@),
        r matches Ok(s) ==> staking_matches(s, data@),
        r is Err ==> r == Err::<StakingAccount, ProgramError>(ProgramError::InvalidAccountData),
{
    if data.len() != 98 {
        return Err(ProgramError::InvalidAccountData);
    }
    let owner = Address { bytes: read_array(data, 0) };
    let usdc_mint = Address { bytes: read_array(data, 32) };
    let amount_staked = read_u64(data, 64);
    let status = data[72];
    let lock_period_end = read_i64(data, 73);
    let created_at = read_i64(data, 81);
    let last_update = read_i64(data, 89);
    let bump = data[97];
    Ok(StakingAccount {
        owner,
        usdc_mint,
        amount_staked,
        status,
        lock_period_end,
        created_at,
        last_update,
        bump,
    })
}

/// A stored `StakingAccount` reads back as exactly the record that was stored.
pub proof fn lemma_staking_round_trip(s: StakingAccount, t: StakingAccount)
    ensures
        staking_layout_valid(staking_bytes(s)),
        staking_matches(t, staking_bytes(s)) ==> t == s,
{
    lemma_piece_lengths();
    let d = staking_bytes(s);
    assert(d.len() == 98);
    assert(d.subrange(0, 32) =~= s.owner@);
    assert(d.subrange(32, 64) =~= s.usdc_mint@);
    assert(d.subrange(64, 72) =~= spec_u64_to_le_bytes(s.amount_staked));
    assert(d.subrange(72, 73) =~= seq![s.status]);
    assert(d.subrange(73, 81) =~= i64_bytes(s.lock_period_end));
    assert(d.subrange(81, 89) =~= i64_bytes(s.created_at));
    assert(d.subrange(89, 97) =~= i64_bytes(s.last_update));
    assert(d.subrange(97, 98) =~= seq![s.bump]);
    if staking_matches(t, d) {
        assert(t.owner.bytes =~= s.owner.bytes);
        assert(t.usdc_mint.bytes =~= s.usdc_mint.bytes);
        assert(d[72] == seq![s.status][0]);
        lemma_i64_round_trip(s.lock_period_end);
        lemma_i64_round_trip(s.created_at);
        lemma_i64_round_trip(s.last_update);
        assert(d[97] == seq![s.bump][0]);
    }
}

/// The stored layout of a `AuthorizationAccount`: its fields in declaration order,
/// integers little-endian, booleans as one byte, 98 bytes in all.
pub open spec fn authorization_bytes(s: AuthorizationAccount) -> Seq<u8> {
    s.user@
        + s.flexfi_authority@
        + spec_u64_to_le_bytes(s.authorized_amount)
        + spec_u64_to_le_bytes(s.used_amount)
        + bool_bytes(s.is_active)
        + i64_bytes(s.created_at)
        + i64_bytes(s.expires_at)
        + seq![s.bump]
}

/// Whether `d` is a stored `AuthorizationAccount`: the right length, booleans 0 or 1.
pub open spec fn authorization_layout_valid(d: Seq<u8>) -> bool {
    d.len() == 98 && d[80] <= 1
}

/// Whether `s` holds exactly the field values stored in `d`.
pub open spec fn authorization_matches(s: AuthorizationAccount, d: Seq<u8>) -> bool {
    &&& s.user@ == d.subrange(0, 32)
    &&& s.flexfi_authority@ == d.subrange(32, 64)
    &&& s.authorized_amount == spec_u64_from_le_bytes(d.subrange(64, 72))
    &&& s.used_amount == spec_u64_from_le_bytes(d.subrange(72, 80))
    &&& s.is_active == (d[80] == 1)
    &&& s.created_at == spec_u64_from_le_bytes(d.subrange(81, 89)) as i64
    &&& s.expires_at == spec_u64_from_le_bytes(d.subrange(89, 97)) as i64
    &&& s.bump == d[97]
}

pub fn encode_authorization(s: &AuthorizationAccount) -> (r: Vec<u8>)
    ensures
        r@ == authorization_bytes(*s),
        r@.len() == 98,
{
    let mut out: Vec<u8> = Vec::new();
    push_address(&mut out, &s.user);
    push_address(&mut out, &s.flexfi_authority);
    push_u64(&mut out, s.authorized_amount);
    push_u64(&mut out, s.used_amount);
    push_bool(&mut out, s.is_active);
    push_i64(&mut out, s.created_at);
    push_i64(&mut out, s.expires_at);
    out.push(s.bump);
    proof {
        lemma_piece_lengths();
        assert(out@ =~= authorization_bytes(*s));
    }
    out
}

pub fn decode_authorization(data: &[u8]) -> (r: Result<AuthorizationAccount, ProgramError>)
    ensures
        r is Ok <==> authorization_layout_valid(data@),
        r matches Ok(s) ==> authorization_matches(s, data@),
        r is Err ==> r == Err::<AuthorizationAccount, ProgramError>(ProgramError::InvalidAccountData),
{
    if data.len() != 98 {
        return Err(ProgramError::InvalidAccountData);
    }
    let user = Address { bytes: read_array(data, 0) };
    let flexfi_authority = Address { bytes: read_array(data, 32) };
    let authorized_amount = read_u64(data, 64);
    let used_amount = read_u64(data, 72);
    let is_active = read_bool(data, 80)?;
    let created_at = read_i64(data, 81);
    let expires_at = read_i64(data, 89);
    let bump = data[97];
    Ok(AuthorizationAccount {
        user,
        flexfi_authority,
        authorized_amount,
        used_amount,
        is_active,
        created_at,
        expires_at,
        bump,
    })
}

/// A stored `AuthorizationAccount` reads back as exactly the record that was stored.
pub proof fn lemma_authorization_round_trip(s: AuthorizationAccount, t: AuthorizationAccount)
    ensures
        authorization_layout_valid(authorization_bytes(s)),
        authorization_matches(t, authorization_bytes(s)) ==> t == s,
{
    lemma_piece_lengths();
    let d = authorization_bytes(s);
    assert(d.len() == 98);
    assert(d.subrange(0, 32) =~= s.user@);
    assert(d.subrange(32, 64) =~= s.flexfi_authority@);
    assert(d.subrange(64, 72) =~= spec_u64_to_le_bytes(s.authorized_amount));
    assert(d.subrange(72, 80) =~= spec_u64_to_le_bytes(s.used_amount));
    assert(d.subrange(80, 81) =~= bool_bytes(s.is_active));
    assert(d.subrange(81, 89) =~= i64_bytes(s.created_at));
    assert(d.subrange(89, 97) =~= i64_bytes(s.expires_at));
    assert(d.subrange(97, 98) =~= seq![s.bump]);
    if authorization_matches(t, d) {
        assert(t.user.bytes =~= s.user.bytes);
        assert(t.flexfi_authority.bytes =~= s.flexfi_authority.bytes);
        assert(d[80] == bool_bytes(s.is_active)[0]);
        lemma_i64_round_trip(s.created_at);
        lemma_i64_round_trip(s.expires_at);
        assert(d[97] == seq![s.bump][0]);
    }
}

/// The stored layout of a `BNPLContractAccount`: its fields in declaration order,
/// integers little-endian, booleans as one byte, 147 bytes in all.
pub open spec fn loan_bytes(s: BNPLContractAccount) -> Seq<u8> {
    s.borrower@
        + s.merchant@
        + spec_u64_to_le_bytes(s.amount)
        + s.token_mint@
        + seq![s.installments]
        + seq![s.paid_installments]
        + i64_bytes(s.next_payment_due)
        + seq![s.payment_interval_days]
        + spec_u64_to_le_bytes(s.amount_per_installment)
        + seq![s.status]
        + i64_bytes(s.created_at)
        + i64_bytes(s.last_payment_at)
        + spec_u16_to_le_bytes(s.fee_percentage)
        + spec_u16_to_le_bytes(s.apr_percentage)
        + seq![s.card_type]
        + seq![s.nft_type]
        + seq![s.bump]
}

/// Whether `d` is a stored `BNPLContractAccount`: the right length, booleans 0 or 1.
pub open spec fn loan_layout_valid(d: Seq<u8>) -> bool {
    d.len() == 147
}

/// Whether `s` holds exactly the field values stored in `d`.
pub open spec fn loan_matches(s: BNPLContractAccount, d: Seq<u8>) -> bool {
    &&& s.borrower@ == d.subrange(0, 32)
    &&& s.merchant@ == d.subrange(32, 64)
    &&& s.amount == spec_u64_from_le_bytes(d.subrange(64, 72))
    &&& s.token_mint@ == d.subrange(72, 104)
    &&& s.installments == d[104]
    &&& s.paid_installments == d[105]
    &&& s.next_payment_due == spec_u64_from_le_bytes(d.subrange(106, 114)) as i64
    &&& s.payment_interval_days == d[114]
    &&& s.amount_per_installment == spec_u64_from_le_bytes(d.subrange(115, 123))
    &&& s.status == d[123]
    &&& s.created_at == spec_u64_from_le_bytes(d.subrange(124, 132)) as i64
    &&& s.last_payment_at == spec_u64_from_le_bytes(d.subrange(132, 140)) as i64
    &&& s.fee_percentage == spec_u16_from_le_bytes(d.subrange(140, 142))
    &&& s.apr_percentage == spec_u16_from_le_bytes(d.subrange(142, 144))
    &&& s.card_type == d[144]
    &&& s.nft_type == d[145]
    &&& s.bump == d[146]
}

pub fn encode_loan(s: &BNPLContractAccount) -> (r: Vec<u8>)
    ensures
        r@ == loan_bytes(*s),
        r@.len() == 147,
{
    let mut out: Vec<u8> = Vec::new();
    push_address(&mut out, &s.borrower);
    push_address(&mut out, &s.merchant);
    push_u64(&mut out, s.amount);
    push_address(&mut out, &s.token_mint);
    out.push(s.installments);
    out.push(s.paid_installments);
    push_i64(&mut out, s.next_payment_due);
    out.push(s.payment_interval_days);
    push_u64(&mut out, s.amount_per_installment);
    out.push(s.status);
    push_i64(&mut out, s.created_at);
    push_i64(&mut out, s.last_payment_at);
    push_u16(&mut out, s.fee_percentage);
    push_u16(&mut out, s.apr_percentage);
    out.push(s.card_type);
    out.push(s.nft_type);
    out.push(s.bump);
    proof {
        lemma_piece_lengths();
        assert(out@ =~= loan_bytes(*s));
    }
    out
}

pub fn decode_loan(data: &[u8]) -> (r: Result<BNPLContractAccount, ProgramError>)
    ensures
        r is Ok <==> loan_layout_valid(data@),
        r matches Ok(s) ==> loan_matches(s, data@),
        r is Err ==> r == Err::<BNPLContractAccount, ProgramError>(ProgramError::InvalidAccountData),
{
    if data.len() != 147 {
        return Err(ProgramError::InvalidAccountData);
    }
    let borrower = Address { bytes: read_array(data, 0) };
    let merchant = Address { bytes: read_array(data, 32) };
    let amount = read_u64(data, 64);
    let token_mint = Address { bytes: read_array(data, 72) };
    let installments = data[104];
    let paid_installments = data[105];
    let next_payment_due = read_i64(data, 106);
    let payment_interval_days = data[114];
    let amount_per_installment = read_u64(data, 115);
    let status = data[123];
    let created_at = read_i64(data, 124);
    let last_payment_at = read_i64(data, 132);
    let fee_percentage = read_u16(data, 140);
    let apr_percentage = read_u16(data, 142);
    let card_type = data[144];
    let nft_type = data[145];
    let bump = data[146];
    Ok(BNPLContractAccount {
        borrower,
        merchant,
        amount,
        token_mint,
        installments,
        paid_installments,
        next_payment_due,
        payment_interval_days,
        amount_per_installment,
        status,
        created_at,
        last_payment_at,
        fee_percentage,
        apr_percentage,
        card_type,
        nft_type,
        bump,
    })
}

/// A stored `BNPLContractAccount` reads back as exactly the record that was stored.
pub proof fn lemma_loan_round_trip(s: BNPLContractAccount, t: BNPLContractAccount)
    ensures
        loan_layout_valid(loan_bytes(s)),
        loan_matches(t, loan_bytes(s)) ==> t == s,
{
    lemma_piece_lengths();
    let d = loan_bytes(s);
    assert(d.len() == 147);
    assert(d.subrange(0, 32) =~= s.borrower@);
    assert(d.subrange(32, 64) =~= s.merchant@);
    assert(d.subrange(64, 72) =~= spec_u64_to_le_bytes(s.amount));
    assert(d.subrange(72, 104) =~= s.token_mint@);
    assert(d.subrange(104, 105) =~= seq![s.installments]);
    assert(d.subrange(105, 106) =~= seq![s.paid_installments]);
    assert(d.subrange(106, 114) =~= i64_bytes(s.next_payment_due));
    assert(d.subrange(114, 115) =~= seq![s.payment_interval_days]);
    assert(d.subrange(115, 123) =~= spec_u64_to_le_bytes(s.amount_per_installment));
    assert(d.subrange(123, 124) =~= seq![s.status]);
    assert(d.subrange(124, 132) =~= i64_bytes(s.created_at));
    assert(d.subrange(132, 140) =~= i64_bytes(s.last_payment_at));
    assert(d.subrange(140, 142) =~= spec_u16_to_le_bytes(s.fee_percentage));
    assert(d.subrange(142, 144) =~= spec_u16_to_le_bytes(s.apr_percentage));
    assert(d.subrange(144, 145) =~= seq![s.card_type]);
    assert(d.subrange(145, 146) =~= seq![s.nft_type]);
    assert(d.subrange(146, 147) =~= seq![s.bump]);
    if loan_matches(t, d) {
        assert(t.borrower.bytes =~= s.borrower.bytes);
        assert(t.merchant.bytes =~= s.merchant.bytes);
        assert(t.token_mint.bytes =~= s.token_mint.bytes);
        assert(d[104] == seq![s.installments][0]);
        assert(d[105] == seq![s.paid_installments][0]);
        lemma_i64_round_trip(s.next_payment_due);
        assert(d[114] == seq![s.payment_interval_days][0]);
        assert(d[123] == seq![s.status][0]);
        lemma_i64_round_trip(s.created_at);
        lemma_i64_round_trip(s.last_payment_at);
        assert(d[144] == seq![s.card_type][0]);
        assert(d[145] == seq![s.nft_type][0]);
        assert(d[146] == seq![s.bump][0]);
    }
}

/// The stored layout of a `ScoreAccount`: its fields in declaration order,
/// integers little-endian, booleans as one byte, 57 bytes in all.
pub open spec fn score_bytes(s: ScoreAccount) -> Seq<u8> {
    s.owner@
        + spec_u16_to_le_bytes(s.score)
        + spec_u32_to_le_bytes(s.on_time_payments)
        + spec_u32_to_le_bytes(s.late_payments)
        + spec_u16_to_le_bytes(s.defaults)
        + spec_u32_to_le_bytes(s.total_loans)
        + i64_bytes(s.last_updated)
        + seq![s.bump]
}

/// Whether `d` is a stored `ScoreAccount`: the right length, booleans 0 or 1.
pub open spec fn score_layout_valid(d: Seq<u8>) -> bool {
    d.len() == 57
}

/// Whether `s` holds exactly the field values stored in `d`.
pub open spec fn score_matches(s: ScoreAccount, d: Seq<u8>) -> bool {
    &&& s.owner@ == d.subrange(0, 32)
    &&& s.score == spec_u16_from_le_bytes(d.subrange(32, 34))
    &&& s.on_time_payments == spec_u32_from_le_bytes(d.subrange(34, 38))
    &&& s.late_payments == spec_u32_from_le_bytes(d.subrange(38, 42))
    &&& s.defaults == spec_u16_from_le_bytes(d.subrange(42, 44))
    &&& s.total_loans == spec_u32_from_le_bytes(d.subrange(44, 48))
    &&& s.last_updated == spec_u64_from_le_bytes(d.subrange(48, 56)) as i64
    &&& s.bump == d[56]
}

pub fn encode_score(s: &ScoreAccount) -> (r: Vec<u8>)
    ensures
        r@ == score_bytes(*s),
        r@.len() == 57,
{
    let mut out: Vec<u8> = Vec::new();
    push_address(&mut out, &s.owner);
    push_u16(&mut out, s.score);
    push_u32(&mut out, s.on_time_payments);
    push_u32(&mut out, s.late_payments);
    push_u16(&mut out, s.defaults);
    push_u32(&mut out, s.total_loans);
    push_i64(&mut out, s.last_updated);
    out.push(s.bump);
    proof {
        lemma_piece_lengths();
        assert(out@ =~= score_bytes(*s));
    }
    out
}

pub fn decode_score(data: &[u8]) -> (r: Result<ScoreAccount, ProgramError>)
    ensures
        r is Ok <==> score_layout_valid(data@),
        r matches Ok(s) ==> score_matches(s, data@),
        r is Err ==> r == Err::<ScoreAccount, ProgramError>(ProgramError::InvalidAccountData),
{
    if data.len() != 57 {
        return Err(ProgramError::InvalidAccountData);
    }
    let owner = Address { bytes: read_array(data, 0) };
    let score = read_u16(data, 32);
    let on_time_payments = read_u32(data, 34);
    let late_payments = read_u32(data, 38);
    let defaults = read_u16(data, 42);
    let total_loans = read_u32(data, 44);
    let last_updated = read_i64(data, 48);
    let bump = data[56];
    Ok(ScoreAccount {
        owner,
        score,
        on_time_payments,
        late_payments,
        defaults,
        total_loans,
        last_updated,
        bump,
    })
}

/// A stored `ScoreAccount` reads back as exactly the record that was stored.
pub proof fn lemma_score_round_trip(s: ScoreAccount, t: ScoreAccount)
    ensures
        score_layout_valid(score_bytes(s)),
        score_matches(t, score_bytes(s)) ==> t == s,
{
    lemma_piece_lengths();
    let d = score_bytes(s);
    assert(d.len() == 57);
    assert(d.subrange(0, 32) =~= s.owner@);
    assert(d.subrange(32, 34) =~= spec_u16_to_le_bytes(s.score));
    assert(d.subrange(34, 38) =~= spec_u32_to_le_bytes(s.on_time_payments));
    assert(d.subrange(38, 42) =~= spec_u32_to_le_bytes(s.late_payments));
    assert(d.subrange(42, 44) =~= spec_u16_to_le_bytes(s.defaults));
    assert(d.subrange(44, 48) =~= spec_u32_to_le_bytes(s.total_loans));
    assert(d.subrange(48, 56) =~= i64_bytes(s.last_updated));
    assert(d.subrange(56, 57) =~= seq![s.bump]);
    if score_matches(t, d) {
        assert(t.owner.bytes =~= s.owner.bytes);
        lemma_i64_round_trip(s.last_updated);
        assert(d[56] == seq![s.bump][0]);
    }
}

/// The stored layout of a `YieldAccount`: its fields in declaration order,
/// integers little-endian, booleans as one byte, 99 bytes in all.
pub open spec fn yield_bytes(s: YieldAccount) -> Seq<u8> {
    s.owner@
        + seq![s.strategy]
        + s.custom_strategy_address@
        + bool_bytes(s.auto_reinvest)
        + spec_u64_to_le_bytes(s.total_yield_earned)
        + spec_u64_to_le_bytes(s.total_yield_claimed)
        + i64_bytes(s.last_yield_claimed)
        + i64_bytes(s.created_at)
        + seq![s.bump]
}

/// Whether `d` is a stored `YieldAccount`: the right length, booleans 0 or 1.
pub open spec fn yield_layout_valid(d: Seq<u8>) -> bool {
    d.len() == 99 && d[65] <= 1
}

/// Whether `s` holds exactly the field values stored in `d`.
pub open spec fn yield_matches(s: YieldAccount, d: Seq<u8>) -> bool {
    &&& s.owner@ == d.subrange(0, 32)
    &&& s.strategy == d[32]
    &&& s.custom_strategy_address@ == d.subrange(33, 65)
    &&& s.auto_reinvest == (d[65] == 1)
    &&& s.total_yield_earned == spec_u64_from_le_bytes(d.subrange(66, 74))
    &&& s.total_yield_claimed == spec_u64_from_le_bytes(d.subrange(74, 82))
    &&& s.last_yield_claimed == spec_u64_from_le_bytes(d.subrange(82, 90)) as i64
    &&& s.created_at == spec_u64_from_le_bytes(d.subrange(90, 98)) as i64
    &&& s.bump == d[98]
}

pub fn encode_yield(s: &YieldAccount) -> (r: Vec<u8>)
    ensures
        r@ == yield_bytes(*s),
        r@.len() == 99,
{
    let mut out: Vec<u8> = Vec::new();
    push_address(&mut out, &s.owner);
    out.push(s.strategy);
    push_address(&mut out, &s.custom_strategy_address);
    push_bool(&mut out, s.auto_reinvest);
    push_u64(&mut out, s.total_yield_earned);
    push_u64(&mut out, s.total_yield_claimed);
    push_i64(&mut out, s.last_yield_claimed);
    push_i64(&mut out, s.created_at);
    out.push(s.bump);
    proof {
        lemma_piece_lengths();
        assert(out@ =~= yield_bytes(*s));
    }
    out
}

pub fn decode_yield(data: &[u8]) -> (r: Result<YieldAccount, ProgramError>)
    ensures
        r is Ok <==> yield_layout_valid(data@),
        r matches Ok(s) ==> yield_matches(s, data@),
        r is Err ==> r == Err::<YieldAccount, ProgramError>(ProgramError::InvalidAccountData),
{
    if data.len() != 99 {
        return Err(ProgramError::InvalidAccountData);
    }
    let owner = Address { bytes: read_array(data, 0) };
    let strategy = data[32];
    let custom_strategy_address = Address { bytes: read_array(data, 33) };
    let auto_reinvest = read_bool(data, 65)?;
    let total_yield_earned = read_u64(data, 66);
    let total_yield_claimed = read_u64(data, 74);
    let last_yield_claimed = read_i64(data, 82);
    let created_at = read_i64(data, 90);
    let bump = data[98];
    Ok(YieldAccount {
        owner,
        strategy,
        custom_strategy_address,
        auto_reinvest,
        total_yield_earned,
        total_yield_claimed,
        last_yield_claimed,
        created_at,
        bump,
    })
}

/// A stored `YieldAccount` reads back as exactly the record that was stored.
pub proof fn lemma_yield_round_trip(s: YieldAccount, t: YieldAccount)
    ensures
        yield_layout_valid(yield_bytes(s)),
        yield_matches(t, yield_bytes(s)) ==> t == s,
{
    lemma_piece_lengths();
    let d = yield_bytes(s);
    assert(d.len() == 99);
    assert(d.subrange(0, 32) =~= s.owner@);
    assert(d.subrange(32, 33) =~= seq![s.strategy]);
    assert(d.subrange(33, 65) =~= s.custom_strategy_address@);
    assert(d.subrange(65, 66) =~= bool_bytes(s.auto_reinvest));
    assert(d.subrange(66, 74) =~= spec_u64_to_le_bytes(s.total_yield_earned));
    assert(d.subrange(74, 82) =~= spec_u64_to_le_bytes(s.total_yield_claimed));
    assert(d.subrange(82, 90) =~= i64_bytes(s.last_yield_claimed));
    assert(d.subrange(90, 98) =~= i64_bytes(s.created_at));
    assert(d.subrange(98, 99) =~= seq![s.bump]);
    if yield_matches(t, d) {
        assert(t.owner.bytes =~= s.owner.bytes);
        assert(d[32] == seq![s.strategy][0]);
        assert(t.custom_strategy_address.bytes =~= s.custom_strategy_address.bytes);
        assert(d[65] == bool_bytes(s.auto_reinvest)[0]);
        lemma_i64_round_trip(s.last_yield_claimed);
        lemma_i64_round_trip(s.created_at);
        assert(d[98] == seq![s.bump][0]);
    }
}

/// The stored layout of a `WalletAccount`: its fields in declaration order,
/// integers little-endian, booleans as one byte, 43 bytes in all.
pub open spec fn wallet_bytes(s: WalletAccount) -> Seq<u8> {
    s.owner@ + bool_bytes(s.is_active) + seq![s.card_type] + i64_bytes(s.created_at) + seq![s.bump]
}

/// Whether `d` is a stored `WalletAccount`: the right length, booleans 0 or 1.
pub open spec fn wallet_layout_valid(d: Seq<u8>) -> bool {
    d.len() == 43 && d[32] <= 1
}

/// Whether `s` holds exactly the field values stored in `d`.
pub open spec fn wallet_matches(s: WalletAccount, d: Seq<u8>) -> bool {
    &&& s.owner@ == d.subrange(0, 32)
    &&& s.is_active == (d[32] == 1)
    &&& s.card_type == d[33]
    &&& s.created_at == spec_u64_from_le_bytes(d.subrange(34, 42)) as i64
    &&& s.bump == d[42]
}

pub fn encode_wallet(s: &WalletAccount) -> (r: Vec<u8>)
    ensures
        r@ == wallet_bytes(*s),
        r@.len() == 43,
{
    let mut out: Vec<u8> = Vec::new();
    push_address(&mut out, &s.owner);
    push_bool(&mut out, s.is_active);
    out.push(s.card_type);
    push_i64(&mut out, s.created_at);
    out.push(s.bump);
    proof {
        lemma_piece_lengths();
        assert(out@ =~= wallet_bytes(*s));
    }
    out
}

pub fn decode_wallet(data: &[u8]) -> (r: Result<WalletAccount, ProgramError>)
    ensures
        r is Ok <==> wallet_layout_valid(data@),
        r matches Ok(s) ==> wallet_matches(s, data@),
        r is Err ==> r == Err::<WalletAccount, ProgramError>(ProgramError::InvalidAccountData),
{
    if data.len() != 43 {
        return Err(ProgramError::InvalidAccountData);
    }
    let owner = Address { bytes: read_array(data, 0) };
    let is_active = read_bool(data, 32)?;
    let card_type = data[33];
    let created_at = read_i64(data, 34);
    let bump = data[42];
    Ok(WalletAccount { owner, is_active, card_type, created_at, bump })
}

/// A stored `WalletAccount` reads back as exactly the record that was stored.
pub proof fn lemma_wallet_round_trip(s: WalletAccount, t: WalletAccount)
    ensures
        wallet_layout_valid(wallet_bytes(s)),
        wallet_matches(t, wallet_bytes(s)) ==> t == s,
{
    lemma_piece_lengths();
    let d = wallet_bytes(s);
    assert(d.len() == 43);
    assert(d.subrange(0, 32) =~= s.owner@);
    assert(d.subrange(32, 33) =~= bool_bytes(s.is_active));
    assert(d.subrange(33, 34) =~= seq![s.card_type]);
    assert(d.subrange(34, 42) =~= i64_bytes(s.created_at));
    assert(d.subrange(42, 43) =~= seq![s.bump]);
    if wallet_matches(t, d) {
        assert(t.owner.bytes =~= s.owner.bytes);
        assert(d[32] == bool_bytes(s.is_active)[0]);
        assert(d[33] == seq![s.card_type][0]);
        lemma_i64_round_trip(s.created_at);
        assert(d[42] == seq![s.bump][0]);
    }
}

/// The stored layout of a `CardAccount`: its fields in declaration order,
/// integers little-endian, booleans as one byte, 59 bytes in all.
pub open spec fn card_bytes(s: CardAccount) -> Seq<u8> {
    s.owner@
        + seq![s.card_type]
        + i64_bytes(s.issued_at)
        + i64_bytes(s.expires_at)
        + bool_bytes(s.is_active)
        + i64_bytes(s.annual_fee_paid_until)
        + seq![s.bump]
}

/// Whether `d` is a stored `CardAccount`: the right length, booleans 0 or 1.
pub open spec fn card_layout_valid(d: Seq<u8>) -> bool {
    d.len() == 59 && d[49] <= 1
}

/// Whether `s` holds exactly the field values stored in `d`.
pub open spec fn card_matches(s: CardAccount, d: Seq<u8>) -> bool {
    &&& s.owner@ == d.subrange(0, 32)
    &&& s.card_type == d[32]
    &&& s.issued_at == spec_u64_from_le_bytes(d.subrange(33, 41)) as i64
    &&& s.expires_at == spec_u64_from_le_bytes(d.subrange(41, 49)) as i64
    &&& s.is_active == (d[49] == 1)
    &&& s.annual_fee_paid_until == spec_u64_from_le_bytes(d.subrange(50, 58)) as i64
    &&& s.bump == d[58]
}

pub fn encode_card(s: &CardAccount) -> (r: Vec<u8>)
    ensures
        r@ == card_bytes(*s),
        r@.len() == 59,
{
    let mut out: Vec<u8> = Vec::new();
    push_address(&mut out, &s.owner);
    out.push(s.card_type);
    push_i64(&mut out, s.issued_at);
    push_i64(&mut out, s.expires_at);
    push_bool(&mut out, s.is_active);
    push_i64(&mut out, s.annual_fee_paid_until);
    out.push(s.bump);
    proof {
        lemma_piece_lengths();
        assert(out@ =~= card_bytes(*s));
    }
    out
}

pub fn decode_card(data: &[u8]) -> (r: Result<CardAccount, ProgramError>)
    ensures
        r is Ok <==> card_layout_valid(data@),
        r matches Ok(s) ==> card_matches(s, data@),
        r is Err ==> r == Err::<CardAccount, ProgramError>(ProgramError::InvalidAccountData),
{
    if data.len() != 59 {
        return Err(ProgramError::InvalidAccountData);
    }
    let owner = Address { bytes: read_array(data, 0) };
    let card_type = data[32];
    let issued_at = read_i64(data, 33);
    let expires_at = read_i64(data, 41);
    let is_active = read_bool(data, 49)?;
    let annual_fee_paid_until = read_i64(data, 50);
    let bump = data[58];
    Ok(CardAccount { owner, card_type, issued_at, expires_at, is_active, annual_fee_paid_until, bump })
}

/// A stored `CardAccount` reads back as exactly the record that was stored.
pub proof fn lemma_card_round_trip(s: CardAccount, t: CardAccount)
    ensures
        card_layout_valid(card_bytes(s)),
        card_matches(t, card_bytes(s)) ==> t == s,
{
    lemma_piece_lengths();
    let d = card_bytes(s);
    assert(d.len() == 59);
    assert(d.subrange(0, 32) =~= s.owner@);
    assert(d.subrange(32, 33) =~= seq![s.card_type]);
    assert(d.subrange(33, 41) =~= i64_bytes(s.issued_at));
    assert(d.subrange(41, 49) =~= i64_bytes(s.expires_at));
    assert(d.subrange(49, 50) =~= bool_bytes(s.is_active));
    assert(d.subrange(50, 58) =~= i64_bytes(s.annual_fee_paid_until));
    assert(d.subrange(58, 59) =~= seq![s.bump]);
    if card_matches(t, d) {
        assert(t.owner.bytes =~= s.owner.bytes);
        assert(d[32] == seq![s.card_type][0]);
        lemma_i64_round_trip(s.issued_at);
        lemma_i64_round_trip(s.expires_at);
        assert(d[49] == bool_bytes(s.is_active)[0]);
        lemma_i64_round_trip(s.annual_fee_paid_until);
        assert(d[58] == seq![s.bump][0]);
    }
}

/// The stored layout of a `NFTMetadataAccount`: its fields in declaration order,
/// integers little-endian, booleans as one byte, 86 bytes in all.
pub open spec fn nft_metadata_bytes(s: NFTMetadataAccount) -> Seq<u8> {
    s.mint@
        + s.owner@
        + seq![s.nft_type]
        + seq![s.level]
        + spec_u16_to_le_bytes(s.duration_days)
        + i64_bytes(s.creation_time)
        + i64_bytes(s.expiry_time)
        + bool_bytes(s.is_active)
        + seq![s.bump]
}

/// Whether `d` is a stored `NFTMetadataAccount`: the right length, booleans 0 or 1.
pub open spec fn nft_metadata_layout_valid(d: Seq<u8>) -> bool {
    d.len() == 86 && d[84] <= 1
}

/// Whether `s` holds exactly the field values stored in `d`.
pub open spec fn nft_metadata_matches(s: NFTMetadataAccount, d: Seq<u8>) -> bool {
    &&& s.mint@ == d.subrange(0, 32)
    &&& s.owner@ == d.subrange(32, 64)
    &&& s.nft_type == d[64]
    &&& s.level == d[65]
    &&& s.duration_days == spec_u16_from_le_bytes(d.subrange(66, 68))
    &&& s.creation_time == spec_u64_from_le_bytes(d.subrange(68, 76)) as i64
    &&& s.expiry_time == spec_u64_from_le_bytes(d.subrange(76, 84)) as i64
    &&& s.is_active == (d[84] == 1)
    &&& s.bump == d[85]
}

pub fn encode_nft_metadata(s: &NFTMetadataAccount) -> (r: Vec<u8>)
    ensures
        r@ == nft_metadata_bytes(*s),
        r@.len() == 86,
{
    let mut out: Vec<u8> = Vec::new();
    push_address(&mut out, &s.mint);
    push_address(&mut out, &s.owner);
    out.push(s.nft_type);
    out.push(s.level);
    push_u16(&mut out, s.duration_days);
    push_i64(&mut out, s.creation_time);
    push_i64(&mut out, s.expiry_time);
    push_bool(&mut out, s.is_active);
    out.push(s.bump);
    proof {
        lemma_piece_lengths();
        assert(out@ =~= nft_metadata_bytes(*s));
    }
    out
}

pub fn decode_nft_metadata(data: &[u8]) -> (r: Result<NFTMetadataAccount, ProgramError>)
    ensures
        r is Ok <==> nft_metadata_layout_valid(data@),
        r matches Ok(s) ==> nft_metadata_matches(s, data@),
        r is Err ==> r == Err::<NFTMetadataAccount, ProgramError>(ProgramError::InvalidAccountData),
{
    if data.len() != 86 {
        return Err(ProgramError::InvalidAccountData);
    }
    let mint = Address { bytes: read_array(data, 0) };
    let owner = Address { bytes: read_array(data, 32) };
    let nft_type = data[64];
    let level = data[65];
    let duration_days = read_u16(data, 66);
    let creation_time = read_i64(data, 68);
    let expiry_time = read_i64(data, 76);
    let is_active = read_bool(data, 84)?;
    let bump = data[85];
    Ok(NFTMetadataAccount {
        mint,
        owner,
        nft_type,
        level,
        duration_days,
        creation_time,
        expiry_time,
        is_active,
        bump,
    })
}

/// A stored `NFTMetadataAccount` reads back as exactly the record that was stored.
pub proof fn lemma_nft_metadata_round_trip(s: NFTMetadataAccount, t: NFTMetadataAccount)
    ensures
        nft_metadata_layout_valid(nft_metadata_bytes(s)),
        nft_metadata_matches(t, nft_metadata_bytes(s)) ==> t == s,
{
    lemma_piece_lengths();
    let d = nft_metadata_bytes(s);
    assert(d.len() == 86);
    assert(d.subrange(0, 32) =~= s.mint@);
    assert(d.subrange(32, 64) =~= s.owner@);
    assert(d.subrange(64, 65) =~= seq![s.nft_type]);
    assert(d.subrange(65, 66) =~= seq![s.level]);
    assert(d.subrange(66, 68) =~= spec_u16_to_le_bytes(s.duration_days));
    assert(d.subrange(68, 76) =~= i64_bytes(s.creation_time));
    assert(d.subrange(76, 84) =~= i64_bytes(s.expiry_time));
    assert(d.subrange(84, 85) =~= bool_bytes(s.is_active));
    assert(d.subrange(85, 86) =~= seq![s.bump]);
    if nft_metadata_matches(t, d) {
        assert(t.mint.bytes =~= s.mint.bytes);
        assert(t.owner.bytes =~= s.owner.bytes);
        assert(d[64] == seq![s.nft_type][0]);
        assert(d[65] == seq![s.level][0]);
        lemma_i64_round_trip(s.creation_time);
        lemma_i64_round_trip(s.expiry_time);
        assert(d[84] == bool_bytes(s.is_active)[0]);
        assert(d[85] == seq![s.bump][0]);
    }
}

/// The stored layout of a `NFTAttachmentAccount`: its fields in declaration order,
/// integers little-endian, booleans as one byte, 106 bytes in all.
pub open spec fn nft_attachment_bytes(s: NFTAttachmentAccount) -> Seq<u8> {
    s.nft_mint@
        + s.user_wallet@
        + s.card_id@
        + i64_bytes(s.attached_at)
        + bool_bytes(s.is_active)
        + seq![s.bump]
}

/// Whether `d` is a stored `NFTAttachmentAccount`: the right length, booleans 0 or 1.
pub open spec fn nft_attachment_layout_valid(d: Seq<u8>) -> bool {
    d.len() == 106 && d[104] <= 1
}

/// Whether `s` holds exactly the field values stored in `d`.
pub open spec fn nft_attachment_matches(s: NFTAttachmentAccount, d: Seq<u8>) -> bool {
    &&& s.nft_mint@ == d.subrange(0, 32)
    &&& s.user_wallet@ == d.subrange(32, 64)
    &&& s.card_id@ == d.subrange(64, 96)
    &&& s.attached_at == spec_u64_from_le_bytes(d.subrange(96, 104)) as i64
    &&& s.is_active == (d[104] == 1)
    &&& s.bump == d[105]
}

pub fn encode_nft_attachment(s: &NFTAttachmentAccount) -> (r: Vec<u8>)
    ensures
        r@ == nft_attachment_bytes(*s),
        r@.len() == 106,
{
    let mut out: Vec<u8> = Vec::new();
    push_address(&mut out, &s.nft_mint);
    push_address(&mut out, &s.user_wallet);
    push_array(&mut out, &s.card_id);
    push_i64(&mut out, s.attached_at);
    push_bool(&mut out, s.is_active);
    out.push(s.bump);
    proof {
        lemma_piece_lengths();
        assert(out@ =~= nft_attachment_bytes(*s));
    }
    out
}

pub fn decode_nft_attachment(data: &[u8]) -> (r: Result<NFTAttachmentAccount, ProgramError>)
    ensures
        r is Ok <==> nft_attachment_layout_valid(data@),
        r matches Ok(s) ==> nft_attachment_matches(s, data@),
        r is Err ==> r == Err::<NFTAttachmentAccount, ProgramError>(ProgramError::InvalidAccountData),
{
    if data.len() != 106 {
        return Err(ProgramError::InvalidAccountData);
    }
    let nft_mint = Address { bytes: read_array(data, 0) };
    let user_wallet = Address { bytes: read_array(data, 32) };
    let card_id = read_array(data, 64);
    let attached_at = read_i64(data, 96);
    let is_active = read_bool(data, 104)?;
    let bump = data[105];
    Ok(NFTAttachmentAccount { nft_mint, user_wallet, card_id, attached_at, is_active, bump })
}

/// A stored `NFTAttachmentAccount` reads back as exactly the record that was stored.
pub proof fn lemma_nft_attachment_round_trip(s: NFTAttachmentAccount, t: NFTAttachmentAccount)
    ensures
        nft_attachment_layout_valid(nft_attachment_bytes(s)),
        nft_attachment_matches(t, nft_attachment_bytes(s)) ==> t == s,
{
    lemma_piece_lengths();
    let d = nft_attachment_bytes(s);
    assert(d.len() == 106);
    assert(d.subrange(0, 32) =~= s.nft_mint@);
    assert(d.subrange(32, 64) =~= s.user_wallet@);
    assert(d.subrange(64, 96) =~= s.card_id@);
    assert(d.subrange(96, 104) =~= i64_bytes(s.attached_at));
    assert(d.subrange(104, 105) =~= bool_bytes(s.is_active));
    assert(d.subrange(105, 106) =~= seq![s.bump]);
    if nft_attachment_matches(t, d) {
        assert(t.nft_mint.bytes =~= s.nft_mint.bytes);
        assert(t.user_wallet.bytes =~= s.user_wallet.bytes);
        assert(t.card_id =~= s.card_id);
        lemma_i64_round_trip(s.attached_at);
        assert(d[104] == bool_bytes(s.is_active)[0]);
        assert(d[105] == seq![s.bump][0]);
    }
}

/// The stored layout of a `WhitelistAccount`: its fields in declaration order,
/// integers little-endian, booleans as one byte, 42 bytes in all.
pub open spec fn whitelist_bytes(s: WhitelistAccount) -> Seq<u8> {
    s.authority@ + bool_bytes(s.is_active) + spec_u64_to_le_bytes(s.total_users) + seq![s.bump]
}

/// Whether `d` is a stored `WhitelistAccount`: the right length, booleans 0 or 1.
pub open spec fn whitelist_layout_valid(d: Seq<u8>) -> bool {
    d.len() == 42 && d[32] <= 1
}

/// Whether `s` holds exactly the field values stored in `d`.
pub open spec fn whitelist_matches(s: WhitelistAccount, d: Seq<u8>) -> bool {
    &&& s.authority@ == d.subrange(0, 32)
    &&& s.is_active == (d[32] == 1)
    &&& s.total_users == spec_u64_from_le_bytes(d.subrange(33, 41))
    &&& s.bump == d[41]
}

pub fn encode_whitelist(s: &WhitelistAccount) -> (r: Vec<u8>)
    ensures
        r@ == whitelist_bytes(*s),
        r@.len() == 42,
{
    let mut out: Vec<u8> = Vec::new();
    push_address(&mut out, &s.authority);
    push_bool(&mut out, s.is_active);
    push_u64(&mut out, s.total_users);
    out.push(s.bump);
    proof {
        lemma_piece_lengths();
        assert(out@ =~= whitelist_bytes(*s));
    }
    out
}

pub fn decode_whitelist(data: &[u8]) -> (r: Result<WhitelistAccount, ProgramError>)
    ensures
        r is Ok <==> whitelist_layout_valid(data@),
        r matches Ok(s) ==> whitelist_matches(s, data@),
        r is Err ==> r == Err::<WhitelistAccount, ProgramError>(ProgramError::InvalidAccountData),
{
    if data.len() != 42 {
        return Err(ProgramError::InvalidAccountData);
    }
    let authority = Address { bytes: read_array(data, 0) };
    let is_active = read_bool(data, 32)?;
    let total_users = read_u64(data, 33);
    let bump = data[41];
    Ok(WhitelistAccount { authority, is_active, total_users, bump })
}

/// A stored `WhitelistAccount` reads back as exactly the record that was stored.
pub proof fn lemma_whitelist_round_trip(s: WhitelistAccount, t: WhitelistAccount)
    ensures
        whitelist_layout_valid(whitelist_bytes(s)),
        whitelist_matches(t, whitelist_bytes(s)) ==> t == s,
{
    lemma_piece_lengths();
    let d = whitelist_bytes(s);
    assert(d.len() == 42);
    assert(d.subrange(0, 32) =~= s.authority@);
    assert(d.subrange(32, 33) =~= bool_bytes(s.is_active));
    assert(d.subrange(33, 41) =~= spec_u64_to_le_bytes(s.total_users));
    assert(d.subrange(41, 42) =~= seq![s.bump]);
    if whitelist_matches(t, d) {
        assert(t.authority.bytes =~= s.authority.bytes);
        assert(d[32] == bool_bytes(s.is_active)[0]);
        assert(d[41] == seq![s.bump][0]);
    }
}

/// The stored layout of a `UserWhitelistStatus`: its fields in declaration order,
/// integers little-endian, booleans as one byte, 74 bytes in all.
pub open spec fn user_status_bytes(s: UserWhitelistStatus) -> Seq<u8> {
    s.user_pubkey@
        + bool_bytes(s.is_whitelisted)
        + i64_bytes(s.whitelisted_at)
        + s.whitelisted_by@
        + seq![s.bump]
}

/// Whether `d` is a stored `UserWhitelistStatus`: the right length, booleans 0 or 1.
pub open spec fn user_status_layout_valid(d: Seq<u8>) -> bool {
    d.len() == 74 && d[32] <= 1
}

/// Whether `s` holds exactly the field values stored in `d`.
pub open spec fn user_status_matches(s: UserWhitelistStatus, d: Seq<u8>) -> bool {
    &&& s.user_pubkey@ == d.subrange(0, 32)
    &&& s.is_whitelisted == (d[32] == 1)
    &&& s.whitelisted_at == spec_u64_from_le_bytes(d.subrange(33, 41)) as i64
    &&& s.whitelisted_by@ == d.subrange(41, 73)
    &&& s.bump == d[73]
}

pub fn encode_user_status(s: &UserWhitelistStatus) -> (r: Vec<u8>)
    ensures
        r@ == user_status_bytes(*s),
        r@.len() == 74,
{
    let mut out: Vec<u8> = Vec::new();
    push_address(&mut out, &s.user_pubkey);
    push_bool(&mut out, s.is_whitelisted);
    push_i64(&mut out, s.whitelisted_at);
    push_address(&mut out, &s.whitelisted_by);
    out.push(s.bump);
    proof {
        lemma_piece_lengths();
        assert(out@ =~= user_status_bytes(*s));
    }
    out
}

pub fn decode_user_status(data: &[u8]) -> (r: Result<UserWhitelistStatus, ProgramError>)
    ensures
        r is Ok <==> user_status_layout_valid(data@),
        r matches Ok(s) ==> user_status_matches(s, data@),
        r is Err ==> r == Err::<UserWhitelistStatus, ProgramError>(ProgramError::InvalidAccountData),
{
    if data.len() != 74 {
        return Err(ProgramError::InvalidAccountData);
    }
    let user_pubkey = Address { bytes: read_array(data, 0) };
    let is_whitelisted = read_bool(data, 32)?;
    let whitelisted_at = read_i64(data, 33);
    let whitelisted_by = Address { bytes: read_array(data, 41) };
    let bump = data[73];
    Ok(UserWhitelistStatus { user_pubkey, is_whitelisted, whitelisted_at, whitelisted_by, bump })
}

/// A stored `UserWhitelistStatus` reads back as exactly the record that was stored.
pub proof fn lemma_user_status_round_trip(s: UserWhitelistStatus, t: UserWhitelistStatus)
    ensures
        user_status_layout_valid(user_status_bytes(s)),
        user_status_matches(t, user_status_bytes(s)) ==> t == s,
{
    lemma_piece_lengths();
    let d = user_status_bytes(s);
    assert(d.len() == 74);
    assert(d.subrange(0, 32) =~= s.user_pubkey@);
    assert(d.subrange(32, 33) =~= bool_bytes(s.is_whitelisted));
    assert(d.subrange(33, 41) =~= i64_bytes(s.whitelisted_at));
    assert(d.subrange(41, 73) =~= s.whitelisted_by@);
    assert(d.subrange(73, 74) =~= seq![s.bump]);
    if user_status_matches(t, d) {
        assert(t.user_pubkey.bytes =~= s.user_pubkey.bytes);
        assert(d[32] == bool_bytes(s.is_whitelisted)[0]);
        lemma_i64_round_trip(s.whitelisted_at);
        assert(t.whitelisted_by.bytes =~= s.whitelisted_by.bytes);
        assert(d[73] == seq![s.bump][0]);
    }
}

/// The stored bytes of a record are exactly what it reads back as: a
/// valid `StakingAccount` layout re-encodes byte for byte.
pub proof fn lemma_staking_bytes_exact(d: Seq<u8>, t: StakingAccount)
    requires
        staking_layout_valid(d),
        staking_matches(t, d),
    ensures
        staking_bytes(t) == d,
{
    assert(t.owner@ =~= d.subrange(0, 32));
    assert(t.usdc_mint@ =~= d.subrange(32, 64));
    lemma_u64_exact(d.subrange(64, 72));
    assert(seq![t.status] =~= d.subrange(72, 73));
    lemma_i64_exact(d.subrange(73, 81));
    lemma_i64_exact(d.subrange(81, 89));
    lemma_i64_exact(d.subrange(89, 97));
    assert(seq![t.bump] =~= d.subrange(97, 98));
    assert(d =~= d.subrange(0, 32)
        + d.subrange(32, 64)
        + d.subrange(64, 72)
        + d.subrange(72, 73)
        + d.subrange(73, 81)
        + d.subrange(81, 89)
        + d.subrange(89, 97)
        + d.subrange(97, 98));
}

/// The stored bytes of a record are exactly what it reads back as: a
/// valid `AuthorizationAccount` layout re-encodes byte for byte.
pub proof fn lemma_authorization_bytes_exact(d: Seq<u8>, t: AuthorizationAccount)
    requires
        authorization_layout_valid(d),
        authorization_matches(t, d),
    ensures
        authorization_bytes(t) == d,
{
    assert(t.user@ =~= d.subrange(0, 32));
    assert(t.flexfi_authority@ =~= d.subrange(32, 64));
    lemma_u64_exact(d.subrange(64, 72));
    lemma_u64_exact(d.subrange(72, 80));
    assert(bool_bytes(t.is_active) =~= d.subrange(80, 81));
    lemma_i64_exact(d.subrange(81, 89));
    lemma_i64_exact(d.subrange(89, 97));
    assert(seq![t.bump] =~= d.subrange(97, 98));
    assert(d =~= d.subrange(0, 32)
        + d.subrange(32, 64)
        + d.subrange(64, 72)
        + d.subrange(72, 80)
        + d.subrange(80, 81)
        + d.subrange(81, 89)
        + d.subrange(89, 97)
        + d.subrange(97, 98));
}

/// The stored bytes of a record are exactly what it reads back as: a
/// valid `BNPLContractAccount` layout re-encodes byte for byte.
pub proof fn lemma_loan_bytes_exact(d: Seq<u8>, t: BNPLContractAccount)
    requires
        loan_layout_valid(d),
        loan_matches(t, d),
    ensures
        loan_bytes(t) == d,
{
    assert(t.borrower@ =~= d.subrange(0, 32));
    assert(t.merchant@ =~= d.subrange(32, 64));
    lemma_u64_exact(d.subrange(64, 72));
    assert(t.token_mint@ =~= d.subrange(72, 104));
    assert(seq![t.installments] =~= d.subrange(104, 105));
    assert(seq![t.paid_installments] =~= d.subrange(105, 106));
    lemma_i64_exact(d.subrange(106, 114));
    assert(seq![t.payment_interval_days] =~= d.subrange(114, 115));
    lemma_u64_exact(d.subrange(115, 123));
    assert(seq![t.status] =~= d.subrange(123, 124));
    lemma_i64_exact(d.subrange(124, 132));
    lemma_i64_exact(d.subrange(132, 140));
    lemma_u16_exact(d.subrange(140, 142));
    lemma_u16_exact(d.subrange(142, 144));
    assert(seq![t.card_type] =~= d.subrange(144, 145));
    assert(seq![t.nft_type] =~= d.subrange(145, 146));
    assert(seq![t.bump] =~= d.subrange(146, 147));
    assert(d =~= d.subrange(0, 32)
        + d.subrange(32, 64)
        + d.subrange(64, 72)
        + d.subrange(72, 104)
        + d.subrange(104, 105)
        + d.subrange(105, 106)
        + d.subrange(106, 114)
        + d.subrange(114, 115)
        + d.subrange(115, 123)
        + d.subrange(123, 124)
        + d.subrange(124, 132)
        + d.subrange(132, 140)
        + d.subrange(140, 142)
        + d.subrange(142, 144)
        + d.subrange(144, 145)
        + d.subrange(145, 146)
        + d.subrange(146, 147));
}

/// The stored bytes of a record are exactly what it reads back as: a
/// valid `ScoreAccount` layout re-encodes byte for byte.
pub proof fn lemma_score_bytes_exact(d: Seq<u8>, t: ScoreAccount)
    requires
        score_layout_valid(d),
        score_matches(t, d),
    ensures
        score_bytes(t) == d,
{
    assert(t.owner@ =~= d.subrange(0, 32));
    lemma_u16_exact(d.subrange(32, 34));
    lemma_u32_exact(d.subrange(34, 38));
    lemma_u32_exact(d.subrange(38, 42));
    lemma_u16_exact(d.subrange(42, 44));
    lemma_u32_exact(d.subrange(44, 48));
    lemma_i64_exact(d.subrange(48, 56));
    assert(seq![t.bump] =~= d.subrange(56, 57));
    assert(d =~= d.subrange(0, 32)
        + d.subrange(32, 34)
        + d.subrange(34, 38)
        + d.subrange(38, 42)
        + d.subrange(42, 44)
        + d.subrange(44, 48)
        + d.subrange(48, 56)
        + d.subrange(56, 57));
}

/// The stored bytes of a record are exactly what it reads back as: a
/// valid `YieldAccount` layout re-encodes byte for byte.
pub proof fn lemma_yield_bytes_exact(d: Seq<u8>, t: YieldAccount)
    requires
        yield_layout_valid(d),
        yield_matches(t, d),
    ensures
        yield_bytes(t) == d,
{
    assert(t.owner@ =~= d.subrange(0, 32));
    assert(seq![t.strategy] =~= d.subrange(32, 33));
    assert(t.custom_strategy_address@ =~= d.subrange(33, 65));
    assert(bool_bytes(t.auto_reinvest) =~= d.subrange(65, 66));
    lemma_u64_exact(d.subrange(66, 74));
    lemma_u64_exact(d.subrange(74, 82));
    lemma_i64_exact(d.subrange(82, 90));
    lemma_i64_exact(d.subrange(90, 98));
    assert(seq![t.bump] =~= d.subrange(98, 99));
    assert(d =~= d.subrange(0, 32)
        + d.subrange(32, 33)
        + d.subrange(33, 65)
        + d.subrange(65, 66)
        + d.subrange(66, 74)
        + d.subrange(74, 82)
        + d.subrange(82, 90)
        + d.subrange(90, 98)
        + d.subrange(98, 99));
}

/// The stored bytes of a record are exactly what it reads back as: a
/// valid `WalletAccount` layout re-encodes byte for byte.
pub proof fn lemma_wallet_bytes_exact(d: Seq<u8>, t: WalletAccount)
    requires
        wallet_layout_valid(d),
        wallet_matches(t, d),
    ensures
        wallet_bytes(t) == d,
{
    assert(t.owner@ =~= d.subrange(0, 32));
    assert(bool_bytes(t.is_active) =~= d.subrange(32, 33));
    assert(seq![t.card_type] =~= d.subrange(33, 34));
    lemma_i64_exact(d.subrange(34, 42));
    assert(seq![t.bump] =~= d.subrange(42, 43));
    assert(d =~= d.subrange(0, 32)
        + d.subrange(32, 33)
        + d.subrange(33, 34)
        + d.subrange(34, 42)
        + d.subrange(42, 43));
}

/// The stored bytes of a record are exactly what it reads back as: a
/// valid `CardAccount` layout re-encodes byte for byte.
pub proof fn lemma_card_bytes_exact(d: Seq<u8>, t: CardAccount)
    requires
        card_layout_valid(d),
        card_matches(t, d),
    ensures
        card_bytes(t) == d,
{
    assert(t.owner@ =~= d.subrange(0, 32));
    assert(seq![t.card_type] =~= d.subrange(32, 33));
    lemma_i64_exact(d.subrange(33, 41));
    lemma_i64_exact(d.subrange(41, 49));
    assert(bool_bytes(t.is_active) =~= d.subrange(49, 50));
    lemma_i64_exact(d.subrange(50, 58));
    assert(seq![t.bump] =~= d.subrange(58, 59));
    assert(d =~= d.subrange(0, 32)
        + d.subrange(32, 33)
        + d.subrange(33, 41)
        + d.subrange(41, 49)
        + d.subrange(49, 50)
        + d.subrange(50, 58)
        + d.subrange(58, 59));
}

/// The stored bytes of a record are exactly what it reads back as: a
/// valid `NFTMetadataAccount` layout re-encodes byte for byte.
pub proof fn lemma_nft_metadata_bytes_exact(d: Seq<u8>, t: NFTMetadataAccount)
    requires
        nft_metadata_layout_valid(d),
        nft_metadata_matches(t, d),
    ensures
        nft_metadata_bytes(t) == d,
{
    assert(t.mint@ =~= d.subrange(0, 32));
    assert(t.owner@ =~= d.subrange(32, 64));
    assert(seq![t.nft_type] =~= d.subrange(64, 65));
    assert(seq![t.level] =~= d.subrange(65, 66));
    lemma_u16_exact(d.subrange(66, 68));
    lemma_i64_exact(d.subrange(68, 76));
    lemma_i64_exact(d.subrange(76, 84));
    assert(bool_bytes(t.is_active) =~= d.subrange(84, 85));
    assert(seq![t.bump] =~= d.subrange(85, 86));
    assert(d =~= d.subrange(0, 32)
        + d.subrange(32, 64)
        + d.subrange(64, 65)
        + d.subrange(65, 66)
        + d.subrange(66, 68)
        + d.subrange(68, 76)
        + d.subrange(76, 84)
        + d.subrange(84, 85)
        + d.subrange(85, 86));
}

/// The stored bytes of a record are exactly what it reads back as: a
/// valid `NFTAttachmentAccount` layout re-encodes byte for byte.
pub proof fn lemma_nft_attachment_bytes_exact(d: Seq<u8>, t: NFTAttachmentAccount)
    requires
        nft_attachment_layout_valid(d),
        nft_attachment_matches(t, d),
    ensures
        nft_attachment_bytes(t) == d,
{
    assert(t.nft_mint@ =~= d.subrange(0, 32));
    assert(t.user_wallet@ =~= d.subrange(32, 64));
    assert(t.card_id@ =~= d.subrange(64, 96));
    lemma_i64_exact(d.subrange(96, 104));
    assert(bool_bytes(t.is_active) =~= d.subrange(104, 105));
    assert(seq![t.bump] =~= d.subrange(105, 106));
    assert(d =~= d.subrange(0, 32)
        + d.subrange(32, 64)
        + d.subrange(64, 96)
        + d.subrange(96, 104)
        + d.subrange(104, 105)
        + d.subrange(105, 106));
}

/// The stored bytes of a record are exactly what it reads back as: a
/// valid `WhitelistAccount` layout re-encodes byte for byte.
pub proof fn lemma_whitelist_bytes_exact(d: Seq<u8>, t: WhitelistAccount)
    requires
        whitelist_layout_valid(d),
        whitelist_matches(t, d),
    ensures
        whitelist_bytes(t) == d,
{
    assert(t.authority@ =~= d.subrange(0, 32));
    assert(bool_bytes(t.is_active) =~= d.subrange(32, 33));
    lemma_u64_exact(d.subrange(33, 41));
    assert(seq![t.bump] =~= d.subrange(41, 42));
    assert(d =~= d.subrange(0, 32) + d.subrange(32, 33) + d.subrange(33, 41) + d.subrange(41, 42));
}

/// The stored bytes of a record are exactly what it reads back as: a
/// valid `UserWhitelistStatus` layout re-encodes byte for byte.
pub proof fn lemma_user_status_bytes_exact(d: Seq<u8>, t: UserWhitelistStatus)
    requires
        user_status_layout_valid(d),
        user_status_matches(t, d),
    ensures
        user_status_bytes(t) == d,
{
    assert(t.user_pubkey@ =~= d.subrange(0, 32));
    assert(bool_bytes(t.is_whitelisted) =~= d.subrange(32, 33));
    lemma_i64_exact(d.subrange(33, 41));
    assert(t.whitelisted_by@ =~= d.subrange(41, 73));
    assert(seq![t.bump] =~= d.subrange(73, 74));
    assert(d =~= d.subrange(0, 32)
        + d.subrange(32, 33)
        + d.subrange(33, 41)
        + d.subrange(41, 73)
        + d.subrange(73, 74));
}

} // verus!
