use governance_upgrade::accounts::{validate_decree, AccountRef, UpgradeContract};
use governance_upgrade::address::ProgramAddresses;
use governance_upgrade::constants::{
    BPF_LOADER_UPGRADEABLE_ID, CLOCK_SYSVAR_ID, RENT_SYSVAR_ID, SYSTEM_PROGRAM_ID,
};
use governance_upgrade::error::{
    AuthenticityError, ContextError, GovernanceRejection, Role, UpgradeError,
};
use governance_upgrade::identity::Identity;
use governance_upgrade::message::{GovernanceDecree, GovernancePayload, VerifiedMessage};

fn named(byte: u8) -> Identity {
    Identity::new([byte; 32])
}

fn plain(key: Identity, owner: Identity, is_signer: bool, is_writable: bool) -> AccountRef {
    AccountRef { key, owner, is_signer, is_writable, executable: false }
}

fn fitting() -> (UpgradeContract, Identity, ProgramAddresses) {
    let program_id = named(9);
    let addresses = ProgramAddresses::derive(&program_id);
    let system = Identity::new(SYSTEM_PROGRAM_ID);
    let loader = Identity::new(BPF_LOADER_UPGRADEABLE_ID);
    let accounts = UpgradeContract {
        payer: plain(named(1), system, true, true),
        config: plain(addresses.config.unwrap().address, program_id, false, true),
        vaa: plain(named(2), program_id, false, false),
        claim: plain(named(3), system, false, true),
        upgrade_authority: plain(
            addresses.upgrade_authority.unwrap().address,
            system,
            false,
            false,
        ),
        spill: plain(named(4), system, false, true),
        buffer: plain(named(0xA0), loader, false, true),
        program_data: plain(addresses.program_data.unwrap().address, loader, false, true),
        this_program: plain(program_id, loader, false, true),
        rent: plain(Identity::new(RENT_SYSVAR_ID), named(0), false, false),
        clock: plain(Identity::new(CLOCK_SYSVAR_ID), named(0), false, false),
        bpf_loader_upgradeable_program: plain(loader, named(0), false, false),
        system_program: AccountRef {
            key: system,
            owner: named(0),
            is_signer: false,
            is_writable: false,
            executable: true,
        },
    };
    (accounts, program_id, addresses)
}

fn upgrade_decree(chain: u16, implementation: Identity) -> GovernancePayload {
    GovernancePayload::ContractUpgrade(GovernanceDecree {
        target_chain_id: chain,
        implementation_address: implementation,
    })
}

#[test]
fn fitting_accounts_pass_and_give_the_authority_s_bump() {
    let (accounts, program_id, addresses) = fitting();
    assert_eq!(
        accounts.check_accounts(&program_id, &addresses),
        Ok(addresses.upgrade_authority.unwrap().bump)
    );
}

#[test]
fn payer_must_sign() {
    let (mut accounts, program_id, addresses) = fitting();
    accounts.payer.is_signer = false;
    assert_eq!(
        accounts.check_accounts(&program_id, &addresses),
        Err(ContextError::NotSigner(Role::Payer))
    );
}

#[test]
fn payer_must_be_writable() {
    let (mut accounts, program_id, addresses) = fitting();
    accounts.payer.is_writable = false;
    assert_eq!(
        accounts.check_accounts(&program_id, &addresses),
        Err(ContextError::NotWritable(Role::Payer))
    );
}

#[test]
fn config_must_be_writable_owned_and_at_its_address() {
    let (accounts, program_id, addresses) = fitting();
    let mut changed = accounts;
    changed.config.is_writable = false;
    assert_eq!(
        changed.check_accounts(&program_id, &addresses),
        Err(ContextError::NotWritable(Role::Config))
    );
    let mut changed = accounts;
    changed.config.owner = named(0x77);
    assert_eq!(
        changed.check_accounts(&program_id, &addresses),
        Err(ContextError::WrongOwner(Role::Config))
    );
    let mut changed = accounts;
    changed.config.key = named(0x77);
    assert_eq!(
        changed.check_accounts(&program_id, &addresses),
        Err(ContextError::WrongAddress(Role::Config))
    );
    let mut underived = addresses;
    underived.config = None;
    assert_eq!(
        accounts.check_accounts(&program_id, &underived),
        Err(ContextError::WrongAddress(Role::Config))
    );
}

#[test]
fn message_must_belong_to_the_program() {
    let (mut accounts, program_id, addresses) = fitting();
    accounts.vaa.owner = named(0x77);
    assert_eq!(
        accounts.check_accounts(&program_id, &addresses),
        Err(ContextError::WrongOwner(Role::Message))
    );
}

#[test]
fn claim_spill_and_buffer_must_be_writable() {
    let (accounts, program_id, addresses) = fitting();
    let mut changed = accounts;
    changed.claim.is_writable = false;
    assert_eq!(
        changed.check_accounts(&program_id, &addresses),
        Err(ContextError::NotWritable(Role::Claim))
    );
    let mut changed = accounts;
    changed.spill.is_writable = false;
    assert_eq!(
        changed.check_accounts(&program_id, &addresses),
        Err(ContextError::NotWritable(Role::Spill))
    );
    let mut changed = accounts;
    changed.buffer.is_writable = false;
    assert_eq!(
        changed.check_accounts(&program_id, &addresses),
        Err(ContextError::NotWritable(Role::Buffer))
    );
}

#[test]
fn upgrade_authority_must_be_the_derived_one() {
    let (accounts, program_id, addresses) = fitting();
    let mut changed = accounts;
    changed.upgrade_authority.key = named(0x77);
    assert_eq!(
        changed.check_accounts(&program_id, &addresses),
        Err(ContextError::WrongAddress(Role::UpgradeAuthority))
    );
    let mut underived = addresses;
    underived.upgrade_authority = None;
    assert_eq!(
        accounts.check_accounts(&program_id, &underived),
        Err(ContextError::WrongAddress(Role::UpgradeAuthority))
    );
    let other = ProgramAddresses::derive(&named(10));
    let mut swapped = addresses;
    swapped.upgrade_authority = other.upgrade_authority;
    assert_eq!(
        accounts.check_accounts(&program_id, &swapped),
        Err(ContextError::WrongAddress(Role::UpgradeAuthority))
    );
}

#[test]
fn program_data_must_be_writable_and_at_its_address() {
    let (accounts, program_id, addresses) = fitting();
    let mut changed = accounts;
    changed.program_data.is_writable = false;
    assert_eq!(
        changed.check_accounts(&program_id, &addresses),
        Err(ContextError::NotWritable(Role::ProgramData))
    );
    let mut changed = accounts;
    changed.program_data.key = named(0x77);
    assert_eq!(
        changed.check_accounts(&program_id, &addresses),
        Err(ContextError::WrongAddress(Role::ProgramData))
    );
}

#[test]
fn program_must_be_writable_and_the_one_upgraded() {
    let (accounts, program_id, addresses) = fitting();
    let mut changed = accounts;
    changed.this_program.is_writable = false;
    assert_eq!(
        changed.check_accounts(&program_id, &addresses),
        Err(ContextError::NotWritable(Role::ThisProgram))
    );
    let mut changed = accounts;
    changed.this_program.key = named(0x77);
    assert_eq!(
        changed.check_accounts(&program_id, &addresses),
        Err(ContextError::WrongAddress(Role::ThisProgram))
    );
}

#[test]
fn sysvars_and_programs_must_be_the_well_known_ones() {
    let (accounts, program_id, addresses) = fitting();
    let mut changed = accounts;
    changed.rent.key = Identity::new(CLOCK_SYSVAR_ID);
    assert_eq!(
        changed.check_accounts(&program_id, &addresses),
        Err(ContextError::WrongAddress(Role::Rent))
    );
    let mut changed = accounts;
    changed.clock.key = Identity::new(RENT_SYSVAR_ID);
    assert_eq!(
        changed.check_accounts(&program_id, &addresses),
        Err(ContextError::WrongAddress(Role::Clock))
    );
    let mut changed = accounts;
    changed.bpf_loader_upgradeable_program.key = named(0x77);
    assert_eq!(
        changed.check_accounts(&program_id, &addresses),
        Err(ContextError::WrongAddress(Role::Loader))
    );
    let mut changed = accounts;
    changed.system_program.key = named(0x77);
    assert_eq!(
        changed.check_accounts(&program_id, &addresses),
        Err(ContextError::WrongAddress(Role::SystemProgram))
    );
    let mut changed = accounts;
    changed.system_program.executable = false;
    assert_eq!(
        changed.check_accounts(&program_id, &addresses),
        Err(ContextError::NotExecutable(Role::SystemProgram))
    );
}

#[test]
fn first_of_several_faults_is_reported() {
    let (mut accounts, program_id, addresses) = fitting();
    accounts.system_program.executable = false;
    accounts.spill.is_writable = false;
    accounts.vaa.owner = named(0x77);
    assert_eq!(
        accounts.check_accounts(&program_id, &addresses),
        Err(ContextError::WrongOwner(Role::Message))
    );
    accounts.payer.is_signer = false;
    assert_eq!(
        accounts.check_accounts(&program_id, &addresses),
        Err(ContextError::NotSigner(Role::Payer))
    );
}

#[test]
fn account_is_derived_only_where_its_key_was_found() {
    let (accounts, _, addresses) = fitting();
    assert!(accounts.config.is_derived(&addresses.config));
    assert!(!accounts.config.is_derived(&addresses.upgrade_authority));
    assert!(!accounts.config.is_derived(&None));
    assert!(accounts.rent.has_address(RENT_SYSVAR_ID));
    assert!(!accounts.rent.has_address(CLOCK_SYSVAR_ID));
}

#[test]
fn decree_for_this_chain_and_buffer_is_valid() {
    let decree = GovernanceDecree { target_chain_id: 1, implementation_address: named(0xA0) };
    assert_eq!(
        validate_decree(&GovernancePayload::ContractUpgrade(decree), &named(0xA0)),
        Ok(decree)
    );
}

#[test]
fn decree_validation_names_each_fault() {
    assert_eq!(
        validate_decree(&GovernancePayload::Other, &named(0xA0)),
        Err(UpgradeError::InvalidGovernanceAction)
    );
    assert_eq!(
        validate_decree(&upgrade_decree(2, named(0xA0)), &named(0xA0)),
        Err(UpgradeError::GovernanceForAnotherChain)
    );
    assert_eq!(
        validate_decree(&upgrade_decree(0, named(0xA0)), &named(0xA0)),
        Err(UpgradeError::GovernanceForAnotherChain)
    );
    assert_eq!(
        validate_decree(&upgrade_decree(1, named(0xB0)), &named(0xC0)),
        Err(UpgradeError::ImplementationMismatch)
    );
    assert_eq!(
        validate_decree(&upgrade_decree(u16::MAX, named(0xB0)), &named(0xC0)),
        Err(UpgradeError::GovernanceForAnotherChain)
    );
}

#[test]
fn payload_gives_its_decree_only_where_it_is_an_upgrade() {
    let decree = GovernanceDecree { target_chain_id: 1, implementation_address: named(0xA0) };
    assert_eq!(GovernancePayload::ContractUpgrade(decree).contract_upgrade(), Some(decree));
    assert_eq!(GovernancePayload::Other.contract_upgrade(), None);
}

#[test]
fn constraints_fail_with_the_first_step_that_failed() {
    let (accounts, _, _) = fitting();
    let message = VerifiedMessage { emitter_chain: 1, emitter_address: named(0xE0), sequence: 5 };
    let good = Ok(upgrade_decree(1, named(0xA0)));
    assert_eq!(accounts.constraints(&Ok(message), &good), Ok(()));
    assert_eq!(
        accounts.constraints(&Err(AuthenticityError), &good),
        Err(UpgradeError::Authenticity)
    );
    assert_eq!(
        accounts.constraints(&Err(AuthenticityError), &Err(GovernanceRejection::WrongGuardianSet)),
        Err(UpgradeError::Authenticity)
    );
    assert_eq!(
        accounts.constraints(&Ok(message), &Err(GovernanceRejection::WrongGuardianSet)),
        Err(UpgradeError::WrongGuardianSet)
    );
    assert_eq!(
        accounts.constraints(&Ok(message), &Err(GovernanceRejection::NotGovernanceEmitter)),
        Err(UpgradeError::NotGovernanceEmitter)
    );
    assert_eq!(
        accounts.constraints(&Ok(message), &Err(GovernanceRejection::AlreadySuperseded)),
        Err(UpgradeError::AlreadySuperseded)
    );
    assert_eq!(
        accounts.constraints(&Ok(message), &Ok(GovernancePayload::Other)),
        Err(UpgradeError::InvalidGovernanceAction)
    );
    assert_eq!(
        accounts.constraints(&Ok(message), &Ok(upgrade_decree(2, named(0xA0)))),
        Err(UpgradeError::GovernanceForAnotherChain)
    );
    assert_eq!(
        accounts.constraints(&Ok(message), &Ok(upgrade_decree(1, named(0xB0)))),
        Err(UpgradeError::ImplementationMismatch)
    );
}

#[test]
fn rejections_have_their_errors() {
    assert_eq!(GovernanceRejection::WrongGuardianSet.to_error(), UpgradeError::WrongGuardianSet);
    assert_eq!(
        GovernanceRejection::NotGovernanceEmitter.to_error(),
        UpgradeError::NotGovernanceEmitter
    );
    assert_eq!(GovernanceRejection::AlreadySuperseded.to_error(), UpgradeError::AlreadySuperseded);
}

#[test]
fn message_key_is_origin_and_sequence() {
    let message = VerifiedMessage { emitter_chain: 1, emitter_address: named(0xE0), sequence: 5 };
    let key = message.key();
    assert_eq!(key.emitter_chain, 1);
    assert_eq!(key.emitter_address, named(0xE0));
    assert_eq!(key.sequence, 5);
}

#[test]
fn identities_are_the_same_only_with_the_same_bytes() {
    let mut bytes = [7u8; 32];
    assert!(Identity::new(bytes).same(&named(7)));
    bytes[31] = 8;
    assert!(!Identity::new(bytes).same(&named(7)));
    bytes[31] = 7;
    bytes[0] = 8;
    assert!(!Identity::new(bytes).same(&named(7)));
}
