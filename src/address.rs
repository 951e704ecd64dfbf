//! Account addresses and the deterministic derivation of record addresses.
use vstd::prelude::*;
use crate::error::ProgramError;

verus! {

/// A 32-byte account address (a public key or a program-derived address).
#[derive(Debug, Clone, Copy)]
pub struct Address {
    pub bytes: [u8; 32],
}

impl View for Address {
    type V = Seq<u8>;

    open spec fn view(&self) -> Seq<u8> {
        self.bytes@
    }
}

impl Address {
    pub fn new(bytes: [u8; 32]) -> (r: Address)
        ensures
            r.bytes == bytes,
    {
        Address { bytes }
    }

    /// The all-zero address, used as "no address".
    pub fn zero() -> (r: Address)
        ensures
            r@ == Seq::new(32, |_i: int| 0u8),
    {
        let r = Address { bytes: [0u8; 32] };
        proof {
            assert(r@ =~= Seq::new(32, |_i: int| 0u8));
        }
        r
    }

    /// Byte-wise equality of two addresses.
    pub fn same_as(&self, other: &Address) -> (r: bool)
        ensures
            r == (self@ == other@),
    {
        let mut i: usize = 0;
        while i < 32
            invariant
                i <= 32,
                self@.len() == 32,
                other@.len() == 32,
                forall|j: int| 0 <= j < i ==> self@[j] == other@[j],
            decreases 32 - i,
        {
            if self.bytes[i] != other.bytes[i] {
                return false;
            }
            i = i + 1;
        }
        proof {
            assert(self@ =~= other@);
        }
        true
    }

    /// Whether every byte of the address is zero.
    pub fn is_zero(&self) -> (r: bool)
        ensures
            r == (self@ == Seq::new(32, |_i: int| 0u8)),
    {
        let z = Address::zero();
        self.same_as(&z)
    }
}

/// The program-derived address and bump seed that the runtime associates
/// with `seeds` under `program_id`, or `None` where no valid one exists.
pub uninterp spec fn program_address(seeds: Seq<Seq<u8>>, program_id: Seq<u8>) -> Option<(Seq<u8>, u8)>;

/// The seeds as plain byte sequences.
pub open spec fn seeds_view(seeds: Seq<Vec<u8>>) -> Seq<Seq<u8>> {
    seeds.map_values(|s: Vec<u8>| s@)
}

/// The address part of a derivation result, as plain bytes.
pub open spec fn derived_view(d: Option<(Address, u8)>) -> Option<(Seq<u8>, u8)> {
    match d {
        Some((a, bump)) => Some((a@, bump)),
        None => None,
    }
}

/// Relies on solana_program's `Pubkey::try_find_program_address`: a pure
/// function of the seeds and the program id, `None` when the seeds are
/// unusable or no bump seed yields a valid address.
#[verifier::external_body]
fn try_find_program_address(seeds: &Vec<Vec<u8>>, program_id: &Address) -> (r: Option<(Address, u8)>)
    ensures
        derived_view(r) == program_address(seeds_view(seeds@), program_id@),
{
    let slices: Vec<&[u8]> = seeds.iter().map(|s| s.as_slice()).collect();
    let program = solana_program::pubkey::Pubkey::new_from_array(program_id.bytes);
    solana_program::pubkey::Pubkey::try_find_program_address(&slices, &program)
        .map(|(a, bump)| (Address { bytes: a.to_bytes() }, bump))
}

/// Checks a supplied account address against a derivation result: the
/// bump seed when they agree, `InvalidAccountData` otherwise.
pub fn check_derived_address(account: &Address, derived: Option<(Address, u8)>) -> (r: Result<u8, ProgramError>)
    ensures
        match derived {
            Some((a, bump)) => if a@ == account@ {
                r == Ok::<u8, ProgramError>(bump)
            } else {
                r == Err::<u8, ProgramError>(ProgramError::InvalidAccountData)
            },
            None => r == Err::<u8, ProgramError>(ProgramError::InvalidAccountData),
        },
{
    match derived {
        Some((a, bump)) => {
            if a.same_as(account) {
                Ok(bump)
            } else {
                Err(ProgramError::InvalidAccountData)
            }
        },
        None => Err(ProgramError::InvalidAccountData),
    }
}

/// Verifies that `account` is the record address derived from `seeds`
/// under `program_id`, and returns its bump seed.
pub fn verify_program_address(account: &Address, seeds: &Vec<Vec<u8>>, program_id: &Address) -> (r: Result<u8, ProgramError>)
    ensures
        match program_address(seeds_view(seeds@), program_id@) {
            Some((a, bump)) => if a == account@ {
                r == Ok::<u8, ProgramError>(bump)
            } else {
                r == Err::<u8, ProgramError>(ProgramError::InvalidAccountData)
            },
            None => r == Err::<u8, ProgramError>(ProgramError::InvalidAccountData),
        },
{
    let derived = try_find_program_address(seeds, program_id);
    check_derived_address(account, derived)
}

} // verus!
