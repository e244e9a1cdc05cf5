//! One upgrade carried out against a ledger as a single transaction: either
//! the claim and the replacement are both recorded, or nothing is.

use vstd::prelude::*;
use crate::accounts::{constraints_outcome, first_violation, UpgradeContract};
use crate::address::{program_addresses, ProgramAddresses};
use crate::error::{AuthenticityError, GovernanceRejection, PlatformError, UpgradeError};
use crate::identity::Identity;
use crate::ledger::{Ledger, LedgerView};
use crate::message::{GovernancePayload, VerifiedMessage};
use crate::process::{claim_of, replacement_of, Action, Event, Phase, Upgrade};

verus! {

/// What the outside parties answer in the course of one upgrade.
#[derive(Clone, Copy, Debug, PartialEq, Eq)]
pub struct Answers {
    /// The verifier's answer to loading the message.
    pub loaded: Result<VerifiedMessage, AuthenticityError>,
    /// The verifier's answer to checking the loaded message as a governance
    /// message.
    pub checked: Result<GovernancePayload, GovernanceRejection>,
    /// The host's answer to replacing the code.
    pub replaced: Result<(), PlatformError>,
}

/// How an upgrade ends on a ledger that stands at `before`: with the first
/// failure in the order accounts, message, decree, claim, host; `Ok` where
/// there is none.
pub open spec fn upgrade_outcome(
    before: LedgerView,
    accounts: UpgradeContract,
    program_id: Identity,
    addresses: ProgramAddresses,
    answers: Answers,
) -> Result<(), UpgradeError> {
    match first_violation(accounts, program_id, addresses) {
        Some(error) => Err(UpgradeError::Context(error)),
        None => match constraints_outcome(accounts.buffer.key, answers.loaded, answers.checked) {
            Err(error) => Err(error),
            Ok(_) => {
                if before.claims.contains(claim_of(program_id, answers.loaded.unwrap())) {
                    Err(UpgradeError::AlreadyClaimed)
                } else if answers.replaced is Err {
                    Err(UpgradeError::Platform)
                } else {
                    Ok(())
                }
            },
        },
    }
}

/// Where an upgrade leaves a ledger that stood at `before`: with the
/// message's claim and the replacement added where it succeeds, and as it was
/// where it fails.
pub open spec fn ledger_after(
    before: LedgerView,
    accounts: UpgradeContract,
    program_id: Identity,
    addresses: ProgramAddresses,
    answers: Answers,
) -> LedgerView {
    if upgrade_outcome(before, accounts, program_id, addresses, answers) is Ok {
        before.with_claim(claim_of(program_id, answers.loaded.unwrap())).with_replacement(
            replacement_of(program_id, accounts),
        )
    } else {
        before
    }
}

/// What holds while an upgrade is driven: the machine has come as far as the
/// answers allow, `event` is the answer it waits for, and `now` holds what
/// was done on the way.
spec fn on_course(
    upgrade: Upgrade,
    event: Event,
    now: LedgerView,
    before: LedgerView,
    accounts: UpgradeContract,
    program_id: Identity,
    addresses: ProgramAddresses,
    answers: Answers,
) -> bool {
    let claim = claim_of(program_id, answers.loaded.unwrap());
    let replacement = replacement_of(program_id, accounts);
    &&& upgrade.accounts == accounts
    &&& upgrade.program_id == program_id
    &&& match upgrade.phase {
        Phase::Init => event == Event::Submitted(addresses) && now == before,
        Phase::Verify { .. } => {
            &&& first_violation(accounts, program_id, addresses) is None
            &&& event == Event::MessageLoaded(answers.loaded)
            &&& now == before
        },
        Phase::ValidateDecree { message, .. } => {
            &&& first_violation(accounts, program_id, addresses) is None
            &&& answers.loaded == Ok::<VerifiedMessage, AuthenticityError>(message)
            &&& event == Event::GovernanceChecked(answers.checked)
            &&& now == before
        },
        Phase::ClaimReplay { .. } => {
            &&& first_violation(accounts, program_id, addresses) is None
            &&& constraints_outcome(accounts.buffer.key, answers.loaded, answers.checked) is Ok
            &&& event matches Event::ClaimAnswered(created)
            &&& created is Err <==> before.claims.contains(claim)
            &&& now == if created is Ok {
                before.with_claim(claim)
            } else {
                before
            }
        },
        Phase::Execute => {
            &&& first_violation(accounts, program_id, addresses) is None
            &&& constraints_outcome(accounts.buffer.key, answers.loaded, answers.checked) is Ok
            &&& !before.claims.contains(claim)
            &&& event == Event::CodeReplaced(answers.replaced)
            &&& now == if answers.replaced is Ok {
                before.with_claim(claim).with_replacement(replacement)
            } else {
                before.with_claim(claim)
            }
        },
        Phase::Done => false,
        Phase::Aborted(_) => false,
    }
}

/// Carries out one upgrade on `ledger`, with `addresses` as the program's
/// derived addresses and `answers` as what the verifier and the host say.
/// The machine decides each step; the claim and the replacement are recorded
/// as it asks for them, and taken back if it aborts.
pub fn process_upgrade(
    ledger: &mut Ledger,
    accounts: &UpgradeContract,
    program_id: &Identity,
    addresses: &ProgramAddresses,
    answers: &Answers,
) -> (outcome: Result<(), UpgradeError>)
    requires
        old(ledger).wf(),
    ensures
        final(ledger).wf(),
        outcome == upgrade_outcome(old(ledger)@, *accounts, *program_id, *addresses, *answers),
        final(ledger)@ == ledger_after(
            old(ledger)@,
            *accounts,
            *program_id,
            *addresses,
            *answers,
        ),
{
    let ghost before = ledger@;
    let start = ledger.savepoint();
    let mut upgrade = Upgrade::new(*program_id, *accounts);
    let mut event = Event::Submitted(*addresses);
    loop
        invariant
            ledger.wf(),
            before == old(ledger)@,
            before.wf(),
            start.claims() == before.claims.len(),
            start.replacements() == before.replacements.len(),
            on_course(
                upgrade,
                event,
                ledger@,
                before,
                *accounts,
                *program_id,
                *addresses,
                *answers,
            ),
        decreases upgrade.phase.steps_left(),
    {
        let (next, action) = upgrade.step(event);
        match action {
            Action::LoadMessage { .. } => {
                event = Event::MessageLoaded(answers.loaded);
            },
            Action::CheckGovernance { .. } => {
                event = Event::GovernanceChecked(answers.checked);
            },
            Action::CreateClaim { claim, .. } => {
                event = Event::ClaimAnswered(ledger.claim(&claim.scope, &claim.key));
            },
            Action::ReplaceCode { replacement, .. } => {
                if answers.replaced.is_ok() {
                    ledger.record_replacement(replacement);
                }
                event = Event::CodeReplaced(answers.replaced);
            },
            Action::Commit => {
                return Ok(());
            },
            Action::Abort(error) => {
                ledger.rollback(&start);
                assert(ledger@.claims =~= before.claims);
                assert(ledger@.replacements =~= before.replacements);
                return Err(error);
            },
            Action::Nothing => {
                return Err(UpgradeError::InvariantViolation);
            },
        }
        upgrade = next;
    }
}

/// Carries out one upgrade of the program `program_id` on `ledger`: derives
/// the program's addresses anew, then proceeds as [`process_upgrade`] does.
pub fn upgrade_contract(
    ledger: &mut Ledger,
    accounts: &UpgradeContract,
    program_id: &Identity,
    answers: &Answers,
) -> (outcome: Result<(), UpgradeError>)
    requires
        old(ledger).wf(),
    ensures
        final(ledger).wf(),
        outcome == upgrade_outcome(
            old(ledger)@,
            *accounts,
            *program_id,
            program_addresses(program_id@),
            *answers,
        ),
        final(ledger)@ == ledger_after(
            old(ledger)@,
            *accounts,
            *program_id,
            program_addresses(program_id@),
            *answers,
        ),
{
    let addresses = ProgramAddresses::derive(program_id);
    process_upgrade(ledger, accounts, program_id, &addresses, answers)
}

} // verus!
