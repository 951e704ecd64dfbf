//! The operations the program accepts, and their wire format: a one-byte
//! variant index followed by the variant's fields, laid out as in the
//! record codec.
use vstd::prelude::*;
use vstd::bytes::{spec_u16_to_le_bytes, spec_u16_from_le_bytes, spec_u64_to_le_bytes, spec_u64_from_le_bytes};
use crate::address::Address;
use crate::codec::{bool_bytes, read_array, read_bool, read_u16, read_u64, lemma_piece_lengths, lemma_u16_exact, lemma_u64_exact};
use crate::error::ProgramError;

verus! {

#[derive(Debug, Clone, Copy)]
pub enum FlexfiInstruction {
    DepositStaking { amount: u64, lock_days: u16 },
    WithdrawStaking { amount: u64 },
    MintNFT { nft_type: u8 },
    AttachNFT { card_id: [u8; 32] },
    DetachNFT,
    UpgradeCard { new_card_type: u8 },
    InitializeScore,
    UpdateScore { change: i16 },
    GetScore,
    SetYieldStrategy { strategy: u8, auto_reinvest: bool },
    RouteYield { amount: u64 },
    ClaimYield { amount: u64 },
    InitializeWhitelist,
    AddToWhitelist { user_pubkey: Address },
    RemoveFromWhitelist { user_pubkey: Address },
    InitializeFlexFiAccount { authorized_amount: u64, duration_days: u16 },
    RevokeFundsAuthorization,
    FlexFiSpend { amount: u64, merchant: Address },
}

/// The encoded form of an operation.
pub open spec fn instruction_bytes(i: FlexfiInstruction) -> Seq<u8> {
    match i {
        FlexfiInstruction::DepositStaking { amount, lock_days } => seq![0u8] + spec_u64_to_le_bytes(amount)
            + spec_u16_to_le_bytes(lock_days),
        FlexfiInstruction::WithdrawStaking { amount } => seq![1u8] + spec_u64_to_le_bytes(amount),
        FlexfiInstruction::MintNFT { nft_type } => seq![2u8, nft_type],
        FlexfiInstruction::AttachNFT { card_id } => seq![3u8] + card_id@,
        FlexfiInstruction::DetachNFT => seq![4u8],
        FlexfiInstruction::UpgradeCard { new_card_type } => seq![5u8, new_card_type],
        FlexfiInstruction::InitializeScore => seq![6u8],
        FlexfiInstruction::UpdateScore { change } => seq![7u8] + spec_u16_to_le_bytes(change as u16),
        FlexfiInstruction::GetScore => seq![8u8],
        FlexfiInstruction::SetYieldStrategy { strategy, auto_reinvest } => seq![9u8, strategy] + bool_bytes(
            auto_reinvest,
        ),
        FlexfiInstruction::RouteYield { amount } => seq![10u8] + spec_u64_to_le_bytes(amount),
        FlexfiInstruction::ClaimYield { amount } => seq![11u8] + spec_u64_to_le_bytes(amount),
        FlexfiInstruction::InitializeWhitelist => seq![12u8],
        FlexfiInstruction::AddToWhitelist { user_pubkey } => seq![13u8] + user_pubkey@,
        FlexfiInstruction::RemoveFromWhitelist { user_pubkey } => seq![14u8] + user_pubkey@,
        FlexfiInstruction::InitializeFlexFiAccount { authorized_amount, duration_days } => seq![15u8]
            + spec_u64_to_le_bytes(authorized_amount) + spec_u16_to_le_bytes(duration_days),
        FlexfiInstruction::RevokeFundsAuthorization => seq![16u8],
        FlexfiInstruction::FlexFiSpend { amount, merchant } => seq![17u8] + spec_u64_to_le_bytes(amount) + merchant@,
    }
}

/// The length of the fields that follow variant index `tag`.
pub open spec fn payload_len(tag: u8) -> int {
    if tag == 0 || tag == 15 {
        10
    } else if tag == 1 || tag == 10 || tag == 11 {
        8
    } else if tag == 2 || tag == 5 || tag == 7 || tag == 9 {
        if tag == 7 || tag == 9 { 2 } else { 1 }
    } else if tag == 3 || tag == 13 || tag == 14 {
        32
    } else if tag == 17 {
        40
    } else {
        0
    }
}

proof fn lemma_instruction_shape(i: FlexfiInstruction)
    ensures
        instruction_bytes(i).len() >= 1,
        instruction_bytes(i)[0] <= 17,
        instruction_bytes(i).len() == 1 + payload_len(instruction_bytes(i)[0]),
        instruction_bytes(i)[0] == 9 ==> instruction_bytes(i)[2] <= 1,
{
    lemma_piece_lengths();
    match i {
        FlexfiInstruction::DepositStaking { amount, lock_days } => {
            assert(spec_u64_to_le_bytes(amount).len() == 8);
            assert(spec_u16_to_le_bytes(lock_days).len() == 2);
        },
        FlexfiInstruction::WithdrawStaking { amount } => {
            assert(spec_u64_to_le_bytes(amount).len() == 8);
        },
        FlexfiInstruction::UpdateScore { change } => {
            assert(spec_u16_to_le_bytes(change as u16).len() == 2);
        },
        FlexfiInstruction::RouteYield { amount } => {
            assert(spec_u64_to_le_bytes(amount).len() == 8);
        },
        FlexfiInstruction::ClaimYield { amount } => {
            assert(spec_u64_to_le_bytes(amount).len() == 8);
        },
        FlexfiInstruction::InitializeFlexFiAccount { authorized_amount, duration_days } => {
            assert(spec_u64_to_le_bytes(authorized_amount).len() == 8);
            assert(spec_u16_to_le_bytes(duration_days).len() == 2);
        },
        FlexfiInstruction::FlexFiSpend { amount, merchant } => {
            assert(spec_u64_to_le_bytes(amount).len() == 8);
        },
        FlexfiInstruction::SetYieldStrategy { strategy, auto_reinvest } => {
            assert(instruction_bytes(i)[2] == bool_bytes(auto_reinvest)[0]);
        },
        _ => {},
    }
}

proof fn lemma_i16_bytes_exact(s: Seq<u8>)
    requires
        s.len() == 2,
    ensures
        spec_u16_to_le_bytes((spec_u16_from_le_bytes(s) as i16) as u16) == s,
{
    let u = spec_u16_from_le_bytes(s);
    assert((u as i16) as u16 == u) by (bit_vector);
    lemma_u16_exact(s);
}

/// Decodes one operation. Exactly the encodings of operations are
/// accepted, and each decodes to the operation it encodes.
pub fn decode_instruction(data: &[u8]) -> (r: Result<FlexfiInstruction, ProgramError>)
    ensures
        r matches Ok(i) ==> instruction_bytes(i) == data@,
        r is Err ==> r == Err::<FlexfiInstruction, ProgramError>(ProgramError::InvalidInstructionData)
            && forall|i: FlexfiInstruction| instruction_bytes(i) != data@,
{
    let invalid = ProgramError::InvalidInstructionData;
    let len = data.len();
    if len == 0 {
        proof {
            assert forall|i: FlexfiInstruction| instruction_bytes(i) != data@ by {
                lemma_instruction_shape(i);
            }
        }
        return Err(invalid);
    }
    let tag = data[0];
    let expected: usize = if tag == 0 || tag == 15 {
        10
    } else if tag == 1 || tag == 10 || tag == 11 {
        8
    } else if tag == 7 || tag == 9 {
        2
    } else if tag == 2 || tag == 5 {
        1
    } else if tag == 3 || tag == 13 || tag == 14 {
        32
    } else if tag == 17 {
        40
    } else {
        0
    };
    if tag > 17 || len != 1 + expected {
        proof {
            assert forall|i: FlexfiInstruction| instruction_bytes(i) != data@ by {
                lemma_instruction_shape(i);
                if instruction_bytes(i) == data@ {
                    assert(instruction_bytes(i)[0] == tag);
                }
            }
        }
        return Err(invalid);
    }
    let d = data;
    proof {
        lemma_piece_lengths();
    }
    let r = if tag == 0 {
        let amount = read_u64(d, 1);
        let lock_days = read_u16(d, 9);
        proof {
            lemma_u64_exact(d@.subrange(1, 9));
            lemma_u16_exact(d@.subrange(9, 11));
            assert(d@ =~= seq![0u8] + d@.subrange(1, 9) + d@.subrange(9, 11));
        }
        FlexfiInstruction::DepositStaking { amount, lock_days }
    } else if tag == 1 {
        let amount = read_u64(d, 1);
        proof {
            lemma_u64_exact(d@.subrange(1, 9));
            assert(d@ =~= seq![1u8] + d@.subrange(1, 9));
        }
        FlexfiInstruction::WithdrawStaking { amount }
    } else if tag == 2 {
        proof {
            assert(d@ =~= seq![2u8, d@[1]]);
        }
        FlexfiInstruction::MintNFT { nft_type: d[1] }
    } else if tag == 3 {
        let card_id = read_array(d, 1);
        proof {
            assert(d@ =~= seq![3u8] + d@.subrange(1, 33));
        }
        FlexfiInstruction::AttachNFT { card_id }
    } else if tag == 4 {
        proof {
            assert(d@ =~= seq![4u8]);
        }
        FlexfiInstruction::DetachNFT
    } else if tag == 5 {
        proof {
            assert(d@ =~= seq![5u8, d@[1]]);
        }
        FlexfiInstruction::UpgradeCard { new_card_type: d[1] }
    } else if tag == 6 {
        proof {
            assert(d@ =~= seq![6u8]);
        }
        FlexfiInstruction::InitializeScore
    } else if tag == 7 {
        let change = read_u16(d, 1) as i16;
        proof {
            lemma_i16_bytes_exact(d@.subrange(1, 3));
            assert(d@ =~= seq![7u8] + d@.subrange(1, 3));
        }
        FlexfiInstruction::UpdateScore { change }
    } else if tag == 8 {
        proof {
            assert(d@ =~= seq![8u8]);
        }
        FlexfiInstruction::GetScore
    } else if tag == 9 {
        let auto_reinvest = match read_bool(d, 2) {
            Ok(b) => b,
            Err(_) => {
                proof {
                    assert forall|i: FlexfiInstruction| instruction_bytes(i) != data@ by {
                        lemma_instruction_shape(i);
                        if instruction_bytes(i) == data@ {
                            assert(instruction_bytes(i)[0] == 9);
                        }
                    }
                }
                return Err(invalid);
            },
        };
        proof {
            assert(d@ =~= seq![9u8, d@[1]] + bool_bytes(auto_reinvest));
        }
        FlexfiInstruction::SetYieldStrategy { strategy: d[1], auto_reinvest }
    } else if tag == 10 {
        let amount = read_u64(d, 1);
        proof {
            lemma_u64_exact(d@.subrange(1, 9));
            assert(d@ =~= seq![10u8] + d@.subrange(1, 9));
        }
        FlexfiInstruction::RouteYield { amount }
    } else if tag == 11 {
        let amount = read_u64(d, 1);
        proof {
            lemma_u64_exact(d@.subrange(1, 9));
            assert(d@ =~= seq![11u8] + d@.subrange(1, 9));
        }
        FlexfiInstruction::ClaimYield { amount }
    } else if tag == 12 {
        proof {
            assert(d@ =~= seq![12u8]);
        }
        FlexfiInstruction::InitializeWhitelist
    } else if tag == 13 {
        let user_pubkey = Address { bytes: read_array(d, 1) };
        proof {
            assert(d@ =~= seq![13u8] + d@.subrange(1, 33));
        }
        FlexfiInstruction::AddToWhitelist { user_pubkey }
    } else if tag == 14 {
        let user_pubkey = Address { bytes: read_array(d, 1) };
        proof {
            assert(d@ =~= seq![14u8] + d@.subrange(1, 33));
        }
        FlexfiInstruction::RemoveFromWhitelist { user_pubkey }
    } else if tag == 15 {
        let authorized_amount = read_u64(d, 1);
        let duration_days = read_u16(d, 9);
        proof {
            lemma_u64_exact(d@.subrange(1, 9));
            lemma_u16_exact(d@.subrange(9, 11));
            assert(d@ =~= seq![15u8] + d@.subrange(1, 9) + d@.subrange(9, 11));
        }
        FlexfiInstruction::InitializeFlexFiAccount { authorized_amount, duration_days }
    } else if tag == 16 {
        proof {
            assert(d@ =~= seq![16u8]);
        }
        FlexfiInstruction::RevokeFundsAuthorization
    } else {
        let amount = read_u64(d, 1);
        let merchant = Address { bytes: read_array(d, 9) };
        proof {
            lemma_u64_exact(d@.subrange(1, 9));
            assert(d@ =~= seq![17u8] + d@.subrange(1, 9) + d@.subrange(9, 41));
        }
        FlexfiInstruction::FlexFiSpend { amount, merchant }
    };
    Ok(r)
}

} // verus!
