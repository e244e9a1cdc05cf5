//! The accounts of one upgrade and what is checked of them before anything
//! is changed.

use vstd::prelude::*;
use crate::address::{DerivedAddress, ProgramAddresses};
use crate::constants::{
    BPF_LOADER_UPGRADEABLE_ID, CLOCK_SYSVAR_ID, RENT_SYSVAR_ID, SOLANA_CHAIN, SYSTEM_PROGRAM_ID,
};
use crate::error::{
    rejection_error, AuthenticityError, ContextError, GovernanceRejection, Role, UpgradeError,
};
use crate::identity::Identity;
use crate::message::{GovernanceDecree, GovernancePayload, VerifiedMessage};

verus! {

/// What is known of an account handed in: who it is, which program owns it,
/// and what the submission may do with it.
#[derive(Clone, Copy, Debug, PartialEq, Eq)]
pub struct AccountRef {
    pub key: Identity,
    pub owner: Identity,
    pub is_signer: bool,
    pub is_writable: bool,
    pub executable: bool,
}

/// The accounts of one upgrade.
#[derive(Clone, Copy, Debug, PartialEq, Eq)]
pub struct UpgradeContract {
    /// Pays for the claim.
    pub payer: AccountRef,
    /// The configuration record, which names the accepted guardian set.
    pub config: AccountRef,
    /// The posted governance message.
    pub vaa: AccountRef,
    /// The slot in which the message's claim is created.
    pub claim: AccountRef,
    /// The derived authority on whose word the loader replaces the code.
    pub upgrade_authority: AccountRef,
    /// Receives what is left over after the replacement.
    pub spill: AccountRef,
    /// The staged code that is to replace the program's executable.
    pub buffer: AccountRef,
    /// Where the loader keeps the program's executable data.
    pub program_data: AccountRef,
    /// The program that is upgraded.
    pub this_program: AccountRef,
    /// The rent sysvar.
    pub rent: AccountRef,
    /// The clock sysvar.
    pub clock: AccountRef,
    /// The upgradeable loader.
    pub bpf_loader_upgradeable_program: AccountRef,
    /// The system program.
    pub system_program: AccountRef,
}

/// Whether `key` is the address that was derived.
pub open spec fn is_derived(found: Option<DerivedAddress>, key: Identity) -> bool {
    found matches Some(derived) && derived.address == key
}

/// Whether every account fits its part in an upgrade of the program
/// `program_id`, whose derived addresses are `addresses`.
pub open spec fn accounts_valid(
    accounts: UpgradeContract,
    program_id: Identity,
    addresses: ProgramAddresses,
) -> bool {
    &&& accounts.payer.is_signer
    &&& accounts.payer.is_writable
    &&& accounts.config.is_writable
    &&& accounts.config.owner == program_id
    &&& is_derived(addresses.config, accounts.config.key)
    &&& accounts.vaa.owner == program_id
    &&& accounts.claim.is_writable
    &&& is_derived(addresses.upgrade_authority, accounts.upgrade_authority.key)
    &&& accounts.spill.is_writable
    &&& accounts.buffer.is_writable
    &&& accounts.program_data.is_writable
    &&& is_derived(addresses.program_data, accounts.program_data.key)
    &&& accounts.this_program.is_writable
    &&& accounts.this_program.key == program_id
    &&& accounts.rent.key@ == RENT_SYSVAR_ID@
    &&& accounts.clock.key@ == CLOCK_SYSVAR_ID@
    &&& accounts.bpf_loader_upgradeable_program.key@ == BPF_LOADER_UPGRADEABLE_ID@
    &&& accounts.system_program.key@ == SYSTEM_PROGRAM_ID@
    &&& accounts.system_program.executable
}

/// The first thing that is wrong with the accounts, going through them in
/// the order of their declaration, and for each through signer, writable,
/// owner, address and executable; `None` where nothing is.
pub open spec fn first_violation(
    accounts: UpgradeContract,
    program_id: Identity,
    addresses: ProgramAddresses,
) -> Option<ContextError> {
    if !accounts.payer.is_signer {
        Some(ContextError::NotSigner(Role::Payer))
    } else if !accounts.payer.is_writable {
        Some(ContextError::NotWritable(Role::Payer))
    } else if !accounts.config.is_writable {
        Some(ContextError::NotWritable(Role::Config))
    } else if accounts.config.owner != program_id {
        Some(ContextError::WrongOwner(Role::Config))
    } else if !is_derived(addresses.config, accounts.config.key) {
        Some(ContextError::WrongAddress(Role::Config))
    } else if accounts.vaa.owner != program_id {
        Some(ContextError::WrongOwner(Role::Message))
    } else if !accounts.claim.is_writable {
        Some(ContextError::NotWritable(Role::Claim))
    } else if !is_derived(addresses.upgrade_authority, accounts.upgrade_authority.key) {
        Some(ContextError::WrongAddress(Role::UpgradeAuthority))
    } else if !accounts.spill.is_writable {
        Some(ContextError::NotWritable(Role::Spill))
    } else if !accounts.buffer.is_writable {
        Some(ContextError::NotWritable(Role::Buffer))
    } else if !accounts.program_data.is_writable {
        Some(ContextError::NotWritable(Role::ProgramData))
    } else if !is_derived(addresses.program_data, accounts.program_data.key) {
        Some(ContextError::WrongAddress(Role::ProgramData))
    } else if !accounts.this_program.is_writable {
        Some(ContextError::NotWritable(Role::ThisProgram))
    } else if accounts.this_program.key != program_id {
        Some(ContextError::WrongAddress(Role::ThisProgram))
    } else if accounts.rent.key@ != RENT_SYSVAR_ID@ {
        Some(ContextError::WrongAddress(Role::Rent))
    } else if accounts.clock.key@ != CLOCK_SYSVAR_ID@ {
        Some(ContextError::WrongAddress(Role::Clock))
    } else if accounts.bpf_loader_upgradeable_program.key@ != BPF_LOADER_UPGRADEABLE_ID@ {
        Some(ContextError::WrongAddress(Role::Loader))
    } else if accounts.system_program.key@ != SYSTEM_PROGRAM_ID@ {
        Some(ContextError::WrongAddress(Role::SystemProgram))
    } else if !accounts.system_program.executable {
        Some(ContextError::NotExecutable(Role::SystemProgram))
    } else {
        None
    }
}

/// What validating a decoded payload against the buffer handed in gives: the
/// decree, where the payload is an upgrade decree for this chain that names
/// the buffer; else the first of the three reasons why not.
pub open spec fn decree_validation(
    payload: GovernancePayload,
    buffer: Identity,
) -> Result<GovernanceDecree, UpgradeError> {
    match payload.contract_upgrade() {
        None => Err(UpgradeError::InvalidGovernanceAction),
        Some(decree) => {
            if decree.target_chain_id != SOLANA_CHAIN {
                Err(UpgradeError::GovernanceForAnotherChain)
            } else if decree.implementation_address != buffer {
                Err(UpgradeError::ImplementationMismatch)
            } else {
                Ok(decree)
            }
        },
    }
}

/// Decodes the upgrade decree from a verified payload and checks that it
/// addresses this chain and names the buffer handed in.
pub fn validate_decree(
    payload: &GovernancePayload,
    buffer: &Identity,
) -> (validated: Result<GovernanceDecree, UpgradeError>)
    ensures
        validated == decree_validation(*payload, *buffer),
{
    match payload.contract_upgrade() {
        None => Err(UpgradeError::InvalidGovernanceAction),
        Some(decree) => {
            if decree.target_chain_id != SOLANA_CHAIN {
                Err(UpgradeError::GovernanceForAnotherChain)
            } else if !decree.implementation_address.same(buffer) {
                Err(UpgradeError::ImplementationMismatch)
            } else {
                Ok(decree)
            }
        },
    }
}

/// Whether the verifier's answers and the decree allow the upgrade: `Ok`
/// where the message is authentic, was accepted as a governance message, and
/// carries a valid decree for `buffer`; else the error of the first step that
/// failed.
pub open spec fn constraints_outcome(
    buffer: Identity,
    loaded: Result<VerifiedMessage, AuthenticityError>,
    checked: Result<GovernancePayload, GovernanceRejection>,
) -> Result<(), UpgradeError> {
    match loaded {
        Err(_) => Err(UpgradeError::Authenticity),
        Ok(_) => match checked {
            Err(rejection) => Err(rejection_error(rejection)),
            Ok(payload) => match decree_validation(payload, buffer) {
                Err(error) => Err(error),
                Ok(_) => Ok(()),
            },
        },
    }
}

impl AccountRef {
    /// Whether this account is the one that was derived.
    pub fn is_derived(&self, found: &Option<DerivedAddress>) -> (fits: bool)
        ensures
            fits == is_derived(*found, self.key),
    {
        match found {
            Some(derived) => derived.address.same(&self.key),
            None => false,
        }
    }

    /// Whether this account has the well-known address `bytes`.
    pub fn has_address(&self, bytes: [u8; 32]) -> (fits: bool)
        ensures
            fits == (self.key@ == bytes@),
    {
        self.key.same(&Identity::new(bytes))
    }
}

impl UpgradeContract {
    /// Checks that every account fits its part, before anything is changed.
    /// Returns the bump of the upgrade authority, or the first thing that is
    /// wrong.
    pub fn check_accounts(
        &self,
        program_id: &Identity,
        addresses: &ProgramAddresses,
    ) -> (checked: Result<u8, ContextError>)
        ensures
            checked is Ok <==> accounts_valid(*self, *program_id, *addresses),
            checked matches Ok(bump) ==> addresses.upgrade_authority matches Some(authority)
                && bump == authority.bump,
            checked matches Err(error) ==> first_violation(*self, *program_id, *addresses)
                == Some(error),
    {
        if !self.payer.is_signer {
            return Err(ContextError::NotSigner(Role::Payer));
        }
        if !self.payer.is_writable {
            return Err(ContextError::NotWritable(Role::Payer));
        }
        if !self.config.is_writable {
            return Err(ContextError::NotWritable(Role::Config));
        }
        if !self.config.owner.same(program_id) {
            return Err(ContextError::WrongOwner(Role::Config));
        }
        if !self.config.is_derived(&addresses.config) {
            return Err(ContextError::WrongAddress(Role::Config));
        }
        if !self.vaa.owner.same(program_id) {
            return Err(ContextError::WrongOwner(Role::Message));
        }
        if !self.claim.is_writable {
            return Err(ContextError::NotWritable(Role::Claim));
        }
        if !self.upgrade_authority.is_derived(&addresses.upgrade_authority) {
            return Err(ContextError::WrongAddress(Role::UpgradeAuthority));
        }
        if !self.spill.is_writable {
            return Err(ContextError::NotWritable(Role::Spill));
        }
        if !self.buffer.is_writable {
            return Err(ContextError::NotWritable(Role::Buffer));
        }
        if !self.program_data.is_writable {
            return Err(ContextError::NotWritable(Role::ProgramData));
        }
        if !self.program_data.is_derived(&addresses.program_data) {
            return Err(ContextError::WrongAddress(Role::ProgramData));
        }
        if !self.this_program.is_writable {
            return Err(ContextError::NotWritable(Role::ThisProgram));
        }
        if !self.this_program.key.same(program_id) {
            return Err(ContextError::WrongAddress(Role::ThisProgram));
        }
        if !self.rent.has_address(RENT_SYSVAR_ID) {
            return Err(ContextError::WrongAddress(Role::Rent));
        }
        if !self.clock.has_address(CLOCK_SYSVAR_ID) {
            return Err(ContextError::WrongAddress(Role::Clock));
        }
        if !self.bpf_loader_upgradeable_program.has_address(BPF_LOADER_UPGRADEABLE_ID) {
            return Err(ContextError::WrongAddress(Role::Loader));
        }
        if !self.system_program.has_address(SYSTEM_PROGRAM_ID) {
            return Err(ContextError::WrongAddress(Role::SystemProgram));
        }
        if !self.system_program.executable {
            return Err(ContextError::NotExecutable(Role::SystemProgram));
        }
        match addresses.upgrade_authority {
            Some(authority) => Ok(authority.bump),
            None => Err(ContextError::WrongAddress(Role::UpgradeAuthority)),
        }
    }

    /// Demands an authentic governance message whose decree orders this
    /// chain to take the buffer of these accounts as its new code. `loaded`
    /// and `checked` are the verifier's answers for the message account.
    pub fn constraints(
        &self,
        loaded: &Result<VerifiedMessage, AuthenticityError>,
        checked: &Result<GovernancePayload, GovernanceRejection>,
    ) -> (allowed: Result<(), UpgradeError>)
        ensures
            allowed == constraints_outcome(self.buffer.key, *loaded, *checked),
    {
        match loaded {
            Err(_) => Err(UpgradeError::Authenticity),
            Ok(_) => match checked {
                Err(rejection) => Err(rejection.to_error()),
                Ok(payload) => match validate_decree(payload, &self.buffer.key) {
                    Err(error) => Err(error),
                    Ok(_) => Ok(()),
                },
            },
        }
    }
}

/// The accounts are valid exactly where nothing is wrong with them.
pub proof fn valid_iff_no_violation(
    accounts: UpgradeContract,
    program_id: Identity,
    addresses: ProgramAddresses,
)
    ensures
        accounts_valid(accounts, program_id, addresses) <==> first_violation(
            accounts,
            program_id,
            addresses,
        ) is None,
{
}

} // verus!
