//! Fixed values of the deployment: chain identifier, derivation seeds and the
//! host's well-known identities.

use vstd::prelude::*;

verus! {

/// Identifier of the chain this program runs on.
pub const SOLANA_CHAIN: u16 = 1;

/// Domain-separation seed of the upgrade authority.
pub const UPGRADE_SEED_PREFIX: [u8; 7] = [117, 112, 103, 114, 97, 100, 101];

/// Seed of the configuration record's address.
pub const CONFIG_SEED_PREFIX: [u8; 6] = [66, 114, 105, 100, 103, 101];

/// Bytes of the upgradeable loader's program identity.
pub const BPF_LOADER_UPGRADEABLE_ID: [u8; 32] = [
    2, 168, 246, 145, 78, 136, 161, 176, 226, 16, 21, 62, 247, 99, 174, 43,
    0, 194, 185, 61, 22, 193, 36, 210, 192, 83, 122, 16, 4, 128, 0, 0,
];

/// Bytes of the rent sysvar's identity.
pub const RENT_SYSVAR_ID: [u8; 32] = [
    6, 167, 213, 23, 25, 44, 92, 81, 33, 140, 201, 76, 61, 74, 241, 127,
    88, 218, 238, 8, 155, 161, 253, 68, 227, 219, 217, 138, 0, 0, 0, 0,
];

/// Bytes of the clock sysvar's identity.
pub const CLOCK_SYSVAR_ID: [u8; 32] = [
    6, 167, 213, 23, 24, 199, 116, 201, 40, 86, 99, 152, 105, 29, 94, 182,
    139, 94, 184, 163, 155, 75, 109, 92, 115, 85, 91, 33, 0, 0, 0, 0,
];

/// Bytes of the system program's identity.
pub const SYSTEM_PROGRAM_ID: [u8; 32] = [
    0, 0, 0, 0, 0, 0, 0, 0, 0, 0, 0, 0, 0, 0, 0, 0,
    0, 0, 0, 0, 0, 0, 0, 0, 0, 0, 0, 0, 0, 0, 0, 0,
];

/// The upgrade authority's seed as an owned byte string.
pub fn upgrade_seed() -> (seed: Vec<u8>)
    ensures
        seed@ == UPGRADE_SEED_PREFIX@,
{
    let mut seed: Vec<u8> = Vec::new();
    let mut i: usize = 0;
    while i < 7
        invariant
            i <= 7,
            seed@ == UPGRADE_SEED_PREFIX@.take(i as int),
        decreases 7 - i,
    {
        seed.push(UPGRADE_SEED_PREFIX[i]);
        i += 1;
    }
    seed
}

} // verus!
