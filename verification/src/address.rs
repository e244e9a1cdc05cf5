//! Program-derived addresses: identities that a program controls without a
//! private key, found from a seed and the program's identity.

use solana_program::pubkey::Pubkey;
use vstd::prelude::*;
use crate::constants::{BPF_LOADER_UPGRADEABLE_ID, CONFIG_SEED_PREFIX, UPGRADE_SEED_PREFIX};
use crate::identity::Identity;

verus! {

/// The address and bump that `Pubkey::try_find_program_address` of
/// `solana_program` finds for the one-seed list `[seed]` under `program_id`;
/// `None` where it finds none.
pub uninterp spec fn program_address(seed: Seq<u8>, program_id: Seq<u8>) -> Option<(Seq<u8>, u8)>;

/// Calls `solana_program::pubkey::Pubkey::try_find_program_address` with the
/// seed list `[seed]`. Trusted: the result is the one that `program_address`
/// names, which rests on the search being a function of the seed and the
/// program identity alone.
#[verifier::external_body]
fn try_find_program_address(seed: &[u8], program_id: &Identity) -> (found: Option<(Identity, u8)>)
    ensures
        match found {
            Some((address, bump)) => program_address(seed@, program_id@) == Some((address@, bump)),
            None => program_address(seed@, program_id@) is None,
        },
{
    let program = Pubkey::new_from_array(program_id.bytes);
    match Pubkey::try_find_program_address(&[seed], &program) {
        Some((address, bump)) => Some((Identity { bytes: address.to_bytes() }, bump)),
        None => None,
    }
}

/// An address derived for a program, with the bump that completes its seeds.
#[derive(Clone, Copy, Debug, PartialEq, Eq)]
pub struct DerivedAddress {
    pub address: Identity,
    pub bump: u8,
}

/// What the derivation named by `program_address` yields, as a library value.
pub open spec fn derived(seed: Seq<u8>, program_id: Seq<u8>) -> Option<DerivedAddress> {
    match program_address(seed, program_id) {
        Some((address, bump)) => Some(DerivedAddress { address: identity_of(address), bump }),
        None => None,
    }
}

/// The identity whose bytes are `bytes`.
pub open spec fn identity_of(bytes: Seq<u8>) -> Identity
    recommends
        bytes.len() == 32,
{
    choose|id: Identity| id@ == bytes
}

/// Derives the address that `seed` gives under `program_id`.
pub fn derive_address(seed: &[u8], program_id: &Identity) -> (found: Option<DerivedAddress>)
    ensures
        found == derived(seed@, program_id@),
        found is Some <==> program_address(seed@, program_id@) is Some,
        found matches Some(d) ==> program_address(seed@, program_id@) == Some((d.address@, d.bump)),
{
    match try_find_program_address(seed, program_id) {
        Some((address, bump)) => {
            proof {
                crate::identity::identity_view_injective(address, identity_of(address@));
            }
            Some(DerivedAddress { address, bump })
        },
        None => None,
    }
}

/// The three addresses that an upgrade re-derives before it trusts the
/// accounts it was handed.
#[derive(Clone, Copy, Debug, PartialEq, Eq)]
pub struct ProgramAddresses {
    /// Address of the configuration record.
    pub config: Option<DerivedAddress>,
    /// The upgrade authority, with the bump that signs for it.
    pub upgrade_authority: Option<DerivedAddress>,
    /// Address under which the loader keeps the program's executable data.
    pub program_data: Option<DerivedAddress>,
}

/// The addresses that belong to the program `program_id`.
pub open spec fn program_addresses(program_id: Seq<u8>) -> ProgramAddresses {
    ProgramAddresses {
        config: derived(CONFIG_SEED_PREFIX@, program_id),
        upgrade_authority: derived(UPGRADE_SEED_PREFIX@, program_id),
        program_data: derived(program_id, BPF_LOADER_UPGRADEABLE_ID@),
    }
}

impl ProgramAddresses {
    /// Re-derives the addresses of the program `program_id`.
    pub fn derive(program_id: &Identity) -> (addresses: ProgramAddresses)
        ensures
            addresses == program_addresses(program_id@),
    {
        let loader = Identity::new(BPF_LOADER_UPGRADEABLE_ID);
        ProgramAddresses {
            config: derive_address(CONFIG_SEED_PREFIX.as_slice(), program_id),
            upgrade_authority: derive_address(UPGRADE_SEED_PREFIX.as_slice(), program_id),
            program_data: derive_address(program_id.bytes.as_slice(), &loader),
        }
    }
}

} // verus!
