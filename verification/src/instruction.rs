//! The loader instruction that replaces the program's executable, and the
//! seeds with which the derived authority signs it.

use solana_program::pubkey::Pubkey;
use vstd::prelude::*;
use crate::address::program_address;
use crate::constants::{
    BPF_LOADER_UPGRADEABLE_ID, CLOCK_SYSVAR_ID, RENT_SYSVAR_ID, UPGRADE_SEED_PREFIX,
};
use crate::identity::Identity;
use crate::ledger::Replacement;

verus! {

/// One account of an instruction, with the rights the instruction asks for.
#[derive(Clone, Copy, Debug, PartialEq, Eq)]
pub struct AccountMeta {
    pub pubkey: Identity,
    pub is_signer: bool,
    pub is_writable: bool,
}

/// Mathematical value of an [`AccountMeta`].
pub struct AccountMetaView {
    pub pubkey: Seq<u8>,
    pub is_signer: bool,
    pub is_writable: bool,
}

impl View for AccountMeta {
    type V = AccountMetaView;

    open spec fn view(&self) -> AccountMetaView {
        AccountMetaView {
            pubkey: self.pubkey@,
            is_signer: self.is_signer,
            is_writable: self.is_writable,
        }
    }
}

/// An instruction for a program of the host: the program, the accounts in the
/// order the program expects them, and the encoded command.
#[derive(Clone, Debug, PartialEq, Eq)]
pub struct Instruction {
    pub program_id: Identity,
    pub accounts: Vec<AccountMeta>,
    pub data: Vec<u8>,
}

/// Mathematical value of an [`Instruction`].
pub struct InstructionView {
    pub program_id: Seq<u8>,
    pub accounts: Seq<AccountMetaView>,
    pub data: Seq<u8>,
}

impl View for Instruction {
    type V = InstructionView;

    open spec fn view(&self) -> InstructionView {
        InstructionView {
            program_id: self.program_id@,
            accounts: Seq::new(self.accounts@.len(), |i: int| self.accounts@[i]@),
            data: self.data@,
        }
    }
}

/// An account the instruction may write to.
pub open spec fn writable(pubkey: Seq<u8>) -> AccountMetaView {
    AccountMetaView { pubkey, is_signer: false, is_writable: true }
}

/// An account the instruction only reads.
pub open spec fn readonly(pubkey: Seq<u8>) -> AccountMetaView {
    AccountMetaView { pubkey, is_signer: false, is_writable: false }
}

/// An account that signs and is only read.
pub open spec fn readonly_signer(pubkey: Seq<u8>) -> AccountMetaView {
    AccountMetaView { pubkey, is_signer: true, is_writable: false }
}

/// The loader's upgrade instruction: replace the executable of `program`,
/// kept under `program_data`, by the code staged in `buffer`, on the word of
/// `authority`, and send what is left over to `spill`.
pub open spec fn upgrade_instruction_of(
    program_data: Seq<u8>,
    program: Seq<u8>,
    buffer: Seq<u8>,
    authority: Seq<u8>,
    spill: Seq<u8>,
) -> InstructionView {
    InstructionView {
        program_id: BPF_LOADER_UPGRADEABLE_ID@,
        accounts: seq![
            writable(program_data),
            writable(program),
            writable(buffer),
            writable(spill),
            readonly(RENT_SYSVAR_ID@),
            readonly(CLOCK_SYSVAR_ID@),
            readonly_signer(authority),
        ],
        data: seq![3u8, 0u8, 0u8, 0u8],
    }
}

/// Calls `solana_program::bpf_loader_upgradeable::upgrade`. Trusted: the
/// instruction addresses the upgradeable loader, lists the program-data
/// address that the loader derives from the program, then the program, the
/// buffer and the spill account as writable, the rent and clock sysvars as
/// read-only, and the authority as a read-only signer, and carries the
/// four-byte little-endian tag 3 of the loader's `Upgrade` command. The call
/// panics where no program-data address can be found, so that case is left
/// out.
#[verifier::external_body]
fn loader_upgrade(
    program: &Identity,
    buffer: &Identity,
    authority: &Identity,
    spill: &Identity,
) -> (instruction: Instruction)
    requires
        program_address(program@, BPF_LOADER_UPGRADEABLE_ID@) is Some,
    ensures
        Some(instruction@) == upgrade_instruction_for(
            program_address(program@, BPF_LOADER_UPGRADEABLE_ID@),
            program@,
            buffer@,
            authority@,
            spill@,
        ),
{
    let made = solana_program::bpf_loader_upgradeable::upgrade(
        &Pubkey::new_from_array(program.bytes),
        &Pubkey::new_from_array(buffer.bytes),
        &Pubkey::new_from_array(authority.bytes),
        &Pubkey::new_from_array(spill.bytes),
    );
    let accounts = made.accounts.iter().map(|meta| AccountMeta {
        pubkey: Identity { bytes: meta.pubkey.to_bytes() },
        is_signer: meta.is_signer,
        is_writable: meta.is_writable,
    }).collect();
    let program_id = Identity { bytes: made.program_id.to_bytes() };
    Instruction { program_id, accounts, data: made.data }
}

/// What [`upgrade_instruction`] returns, given the program-data address that
/// was found for the program.
pub open spec fn upgrade_instruction_for(
    found: Option<(Seq<u8>, u8)>,
    program: Seq<u8>,
    buffer: Seq<u8>,
    authority: Seq<u8>,
    spill: Seq<u8>,
) -> Option<InstructionView> {
    match found {
        Some((program_data, _)) => Some(
            upgrade_instruction_of(program_data, program, buffer, authority, spill),
        ),
        None => None,
    }
}

/// Builds the loader instruction that upgrades `program` from `buffer`.
/// Returns `None` exactly where the program has no program-data address.
pub fn upgrade_instruction(
    program: &Identity,
    buffer: &Identity,
    authority: &Identity,
    spill: &Identity,
) -> (built: Option<Instruction>)
    ensures
        (match built {
            Some(instruction) => Some(instruction@),
            None => None,
        }) == upgrade_instruction_for(
            program_address(program@, BPF_LOADER_UPGRADEABLE_ID@),
            program@,
            buffer@,
            authority@,
            spill@,
        ),
{
    let loader = Identity::new(BPF_LOADER_UPGRADEABLE_ID);
    match crate::address::derive_address(program.bytes.as_slice(), &loader) {
        Some(_) => Some(loader_upgrade(program, buffer, authority, spill)),
        None => None,
    }
}

/// The seeds with which the upgrade authority signs: its domain-separation
/// seed, then the bump.
pub open spec fn authority_signer_seeds(bump: u8) -> Seq<Seq<u8>> {
    seq![UPGRADE_SEED_PREFIX@, seq![bump]]
}

/// Builds the signer seeds of the upgrade authority for `bump`.
pub fn signer_seeds(bump: u8) -> (seeds: Vec<Vec<u8>>)
    ensures
        seeds.deep_view() == authority_signer_seeds(bump),
{
    let mut seeds: Vec<Vec<u8>> = Vec::new();
    seeds.push(crate::constants::upgrade_seed());
    let mut last: Vec<u8> = Vec::new();
    last.push(bump);
    seeds.push(last);
    assert(seeds.deep_view() =~~= authority_signer_seeds(bump));
    seeds
}

/// What the host is handed to replace the code: the loader instruction and
/// the seeds with which the upgrade authority signs it.
#[derive(Debug, PartialEq, Eq)]
pub struct Invocation {
    pub instruction: Instruction,
    pub signer_seeds: Vec<Vec<u8>>,
}

/// Builds what the host is handed to carry out `replacement`, signed by the
/// upgrade authority with `bump`. Returns `None` exactly where the program
/// has no program-data address.
pub fn invocation(replacement: &Replacement, bump: u8) -> (built: Option<Invocation>)
    ensures
        built is Some <==> program_address(replacement.program@, BPF_LOADER_UPGRADEABLE_ID@)
            is Some,
        built matches Some(call) ==> {
            &&& Some(call.instruction@) == upgrade_instruction_for(
                program_address(replacement.program@, BPF_LOADER_UPGRADEABLE_ID@),
                replacement.program@,
                replacement.buffer@,
                replacement.authority@,
                replacement.refund@,
            )
            &&& call.signer_seeds.deep_view() == authority_signer_seeds(bump)
        },
{
    match upgrade_instruction(
        &replacement.program,
        &replacement.buffer,
        &replacement.authority,
        &replacement.refund,
    ) {
        Some(instruction) => Some(Invocation { instruction, signer_seeds: signer_seeds(bump) }),
        None => None,
    }
}

} // verus!
