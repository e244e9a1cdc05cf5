//! One upgrade as a state machine. The machine decides; whoever drives it
//! does the outside work that each action names and hands back the answer.
//!
//! `Init -> Verify -> ValidateDecree -> ClaimReplay -> Execute -> Done`, and from
//! every phase but the last to `Aborted` on the first failure.

use vstd::prelude::*;
use crate::accounts::{decree_validation, first_violation, validate_decree, UpgradeContract};
use crate::address::{program_addresses, ProgramAddresses};
use crate::error::{
    rejection_error, AlreadyClaimed, AuthenticityError, GovernanceRejection, PlatformError,
    UpgradeError,
};
use crate::identity::Identity;
use crate::ledger::{Claim, Replacement};
use crate::message::{GovernancePayload, VerifiedMessage};

verus! {

/// Where an upgrade stands.
#[derive(Clone, Copy, Debug, PartialEq, Eq)]
pub enum Phase {
    /// Nothing was looked at yet.
    Init,
    /// The accounts fit; the verifier is loading the message.
    Verify { bump: u8 },
    /// The message is authentic; the verifier is checking that it is a
    /// governance message, after which its decree is validated.
    ValidateDecree { bump: u8, message: VerifiedMessage },
    /// The decree is valid; the replay guard is creating the claim.
    ClaimReplay { bump: u8 },
    /// The claim exists; the host is replacing the code.
    Execute,
    /// The code was replaced.
    Done,
    /// The upgrade failed, and nothing of it may stay.
    Aborted(UpgradeError),
}

impl Phase {
    /// How many steps an upgrade in this phase can still take.
    pub open spec fn steps_left(self) -> nat {
        match self {
            Phase::Init => 5,
            Phase::Verify { .. } => 4,
            Phase::ValidateDecree { .. } => 3,
            Phase::ClaimReplay { .. } => 2,
            Phase::Execute => 1,
            Phase::Done => 0,
            Phase::Aborted(_) => 0,
        }
    }
}

/// An upgrade in progress.
#[derive(Clone, Copy, Debug, PartialEq, Eq)]
pub struct Upgrade {
    pub phase: Phase,
    /// The program that is upgraded.
    pub program_id: Identity,
    pub accounts: UpgradeContract,
}

/// What the outside hands to the machine.
#[derive(Clone, Copy, Debug, PartialEq, Eq)]
pub enum Event {
    /// The upgrade was submitted; the program's addresses were re-derived.
    Submitted(ProgramAddresses),
    /// The verifier loaded the message, or found it not authentic.
    MessageLoaded(Result<VerifiedMessage, AuthenticityError>),
    /// The verifier decoded the governance payload, or rejected the message.
    GovernanceChecked(Result<GovernancePayload, GovernanceRejection>),
    /// The replay guard created the claim, or found it there.
    ClaimAnswered(Result<(), AlreadyClaimed>),
    /// The host replaced the code, or refused.
    CodeReplaced(Result<(), PlatformError>),
}

/// What the machine asks the outside to do next.
#[derive(Clone, Copy, Debug, PartialEq, Eq)]
pub enum Action {
    /// Load the message in `account` and answer with `MessageLoaded`.
    LoadMessage { account: Identity },
    /// Check `message` against the configuration in `config` and answer with
    /// `GovernanceChecked`.
    CheckGovernance { config: Identity, message: VerifiedMessage },
    /// Create `claim` in `slot` at the cost of `payer` and answer with
    /// `ClaimAnswered`.
    CreateClaim { claim: Claim, slot: Identity, payer: Identity },
    /// Have the host carry out `replacement`, signed by the upgrade authority
    /// with `bump`, and answer with `CodeReplaced`.
    ReplaceCode { replacement: Replacement, bump: u8 },
    /// Let everything done so far stand.
    Commit,
    /// Undo everything done so far and fail with the error.
    Abort(UpgradeError),
    /// The upgrade has ended; there is nothing to do.
    Nothing,
}

/// The machine after a failure, and the order to undo.
pub open spec fn aborted(upgrade: Upgrade, error: UpgradeError) -> (Upgrade, Action) {
    (
        Upgrade {
            phase: Phase::Aborted(error),
            program_id: upgrade.program_id,
            accounts: upgrade.accounts,
        },
        Action::Abort(error),
    )
}

/// The machine in another phase, and what it asks for.
pub open spec fn advanced(upgrade: Upgrade, phase: Phase, action: Action) -> (Upgrade, Action) {
    (Upgrade { phase, program_id: upgrade.program_id, accounts: upgrade.accounts }, action)
}

/// The claim that an upgrade creates for `message`.
pub open spec fn claim_of(program_id: Identity, message: VerifiedMessage) -> Claim {
    Claim { scope: program_id, key: message.key() }
}

/// The replacement that an upgrade asks of the host.
pub open spec fn replacement_of(program_id: Identity, accounts: UpgradeContract) -> Replacement {
    Replacement {
        program: program_id,
        buffer: accounts.buffer.key,
        authority: accounts.upgrade_authority.key,
        refund: accounts.spill.key,
    }
}

/// The transition function: the next state and the next action, for a state
/// and the event that arrived in it.
pub open spec fn spec_step(upgrade: Upgrade, event: Event) -> (Upgrade, Action) {
    match (upgrade.phase, event) {
        (Phase::Done, _) => (upgrade, Action::Nothing),
        (Phase::Aborted(_), _) => (upgrade, Action::Nothing),
        (Phase::Init, Event::Submitted(addresses)) => {
            match first_violation(upgrade.accounts, upgrade.program_id, addresses) {
                Some(error) => aborted(upgrade, UpgradeError::Context(error)),
                None => advanced(
                    upgrade,
                    Phase::Verify { bump: addresses.upgrade_authority.unwrap().bump },
                    Action::LoadMessage { account: upgrade.accounts.vaa.key },
                ),
            }
        },
        (Phase::Verify { bump }, Event::MessageLoaded(Ok(message))) => advanced(
            upgrade,
            Phase::ValidateDecree { bump, message },
            Action::CheckGovernance { config: upgrade.accounts.config.key, message },
        ),
        (Phase::Verify { .. }, Event::MessageLoaded(Err(_))) => aborted(
            upgrade,
            UpgradeError::Authenticity,
        ),
        (Phase::ValidateDecree { bump, message }, Event::GovernanceChecked(Ok(payload))) => {
            match decree_validation(payload, upgrade.accounts.buffer.key) {
                Ok(_) => advanced(
                    upgrade,
                    Phase::ClaimReplay { bump },
                    Action::CreateClaim {
                        claim: claim_of(upgrade.program_id, message),
                        slot: upgrade.accounts.claim.key,
                        payer: upgrade.accounts.payer.key,
                    },
                ),
                Err(error) => aborted(upgrade, error),
            }
        },
        (Phase::ValidateDecree { .. }, Event::GovernanceChecked(Err(rejection))) => aborted(
            upgrade,
            rejection_error(rejection),
        ),
        (Phase::ClaimReplay { bump }, Event::ClaimAnswered(Ok(_))) => advanced(
            upgrade,
            Phase::Execute,
            Action::ReplaceCode {
                replacement: replacement_of(upgrade.program_id, upgrade.accounts),
                bump,
            },
        ),
        (Phase::ClaimReplay { .. }, Event::ClaimAnswered(Err(_))) => aborted(
            upgrade,
            UpgradeError::AlreadyClaimed,
        ),
        (Phase::Execute, Event::CodeReplaced(Ok(_))) => advanced(
            upgrade,
            Phase::Done,
            Action::Commit,
        ),
        (Phase::Execute, Event::CodeReplaced(Err(_))) => aborted(upgrade, UpgradeError::Platform),
        _ => aborted(upgrade, UpgradeError::InvariantViolation),
    }
}

impl Upgrade {
    /// An upgrade of the program `program_id` with `accounts`, in its first
    /// phase.
    pub fn new(program_id: Identity, accounts: UpgradeContract) -> (upgrade: Upgrade)
        ensures
            upgrade == (Upgrade { phase: Phase::Init, program_id, accounts }),
    {
        Upgrade { phase: Phase::Init, program_id, accounts }
    }

    /// Whether the upgrade has ended, well or badly.
    pub open spec fn spec_is_terminal(&self) -> bool {
        self.phase is Done || self.phase is Aborted
    }

    /// Whether the upgrade has ended, well or badly.
    #[verifier::when_used_as_spec(spec_is_terminal)]
    pub fn is_terminal(&self) -> (ended: bool)
        ensures
            ended == self.spec_is_terminal(),
    {
        match self.phase {
            Phase::Done => true,
            Phase::Aborted(_) => true,
            _ => false,
        }
    }

    fn abort(self, error: UpgradeError) -> (next: (Upgrade, Action))
        ensures
            next == aborted(self, error),
    {
        (
            Upgrade {
                phase: Phase::Aborted(error),
                program_id: self.program_id,
                accounts: self.accounts,
            },
            Action::Abort(error),
        )
    }

    fn advance(self, phase: Phase, action: Action) -> (next: (Upgrade, Action))
        ensures
            next == advanced(self, phase, action),
    {
        (Upgrade { phase, program_id: self.program_id, accounts: self.accounts }, action)
    }

    /// Submits the upgrade: derives the program's addresses anew and takes
    /// the step that the event `Submitted` asks for.
    pub fn submit(self) -> (next: (Upgrade, Action))
        ensures
            next == spec_step(self, Event::Submitted(program_addresses(self.program_id@))),
    {
        let addresses = ProgramAddresses::derive(&self.program_id);
        self.step(Event::Submitted(addresses))
    }

    /// Takes one step: from this state and the event that arrived in it to
    /// the next state and the action to perform. An event that the phase does
    /// not wait for aborts the upgrade; an ended upgrade stays as it is.
    pub fn step(self, event: Event) -> (next: (Upgrade, Action))
        ensures
            next == spec_step(self, event),
    {
        match (self.phase, event) {
            (Phase::Done, _) => (self, Action::Nothing),
            (Phase::Aborted(_), _) => (self, Action::Nothing),
            (Phase::Init, Event::Submitted(addresses)) => {
                match self.accounts.check_accounts(&self.program_id, &addresses) {
                    Err(error) => self.abort(UpgradeError::Context(error)),
                    Ok(bump) => {
                        proof {
                            crate::accounts::valid_iff_no_violation(
                                self.accounts,
                                self.program_id,
                                addresses,
                            );
                        }
                        self.advance(
                            Phase::Verify { bump },
                            Action::LoadMessage { account: self.accounts.vaa.key },
                        )
                    },
                }
            },
            (Phase::Verify { bump }, Event::MessageLoaded(Ok(message))) => self.advance(
                Phase::ValidateDecree { bump, message },
                Action::CheckGovernance { config: self.accounts.config.key, message },
            ),
            (Phase::Verify { .. }, Event::MessageLoaded(Err(_))) => self.abort(
                UpgradeError::Authenticity,
            ),
            (Phase::ValidateDecree { bump, message }, Event::GovernanceChecked(Ok(payload))) => {
                match validate_decree(&payload, &self.accounts.buffer.key) {
                    Ok(_) => self.advance(
                        Phase::ClaimReplay { bump },
                        Action::CreateClaim {
                            claim: Claim { scope: self.program_id, key: message.key() },
                            slot: self.accounts.claim.key,
                            payer: self.accounts.payer.key,
                        },
                    ),
                    Err(error) => self.abort(error),
                }
            },
            (Phase::ValidateDecree { .. }, Event::GovernanceChecked(Err(rejection))) => self.abort(
                rejection.to_error(),
            ),
            (Phase::ClaimReplay { bump }, Event::ClaimAnswered(Ok(_))) => self.advance(
                Phase::Execute,
                Action::ReplaceCode {
                    replacement: Replacement {
                        program: self.program_id,
                        buffer: self.accounts.buffer.key,
                        authority: self.accounts.upgrade_authority.key,
                        refund: self.accounts.spill.key,
                    },
                    bump,
                },
            ),
            (Phase::ClaimReplay { .. }, Event::ClaimAnswered(Err(_))) => self.abort(
                UpgradeError::AlreadyClaimed,
            ),
            (Phase::Execute, Event::CodeReplaced(Ok(_))) => self.advance(
                Phase::Done,
                Action::Commit,
            ),
            (Phase::Execute, Event::CodeReplaced(Err(_))) => self.abort(UpgradeError::Platform),
            _ => self.abort(UpgradeError::InvariantViolation),
        }
    }
}

} // verus!
