//! What holds of every upgrade, whatever the accounts, the ledger and the
//! answers of the outside parties.

use vstd::prelude::*;
use crate::accounts::{accounts_valid, constraints_outcome, decree_validation, UpgradeContract};
use crate::address::ProgramAddresses;
use crate::constants::SOLANA_CHAIN;
use crate::error::{AuthenticityError, GovernanceRejection, UpgradeError};
use crate::identity::Identity;
use crate::ledger::{serving_after, Claim, LedgerView};
use crate::message::{GovernanceDecree, GovernancePayload};
use crate::process::{
    aborted, claim_of, replacement_of, spec_step, Action, Event, Phase, Upgrade,
};
use crate::transaction::{ledger_after, upgrade_outcome, Answers};

verus! {

/// An upgrade with fitting accounts, an authentic governance message and a
/// valid decree, which the host carries out, succeeds exactly once: on a
/// ledger without the message's claim it succeeds and leaves the claim and
/// the new code behind, and the same upgrade submitted again fails with
/// `AlreadyClaimed` and changes nothing.
pub proof fn upgrade_succeeds_exactly_once(
    before: LedgerView,
    accounts: UpgradeContract,
    program_id: Identity,
    addresses: ProgramAddresses,
    answers: Answers,
)
    requires
        accounts_valid(accounts, program_id, addresses),
        constraints_outcome(accounts.buffer.key, answers.loaded, answers.checked) is Ok,
        answers.replaced is Ok,
        !before.claims.contains(claim_of(program_id, answers.loaded.unwrap())),
    ensures
        upgrade_outcome(before, accounts, program_id, addresses, answers) is Ok,
        ({
            let after = ledger_after(before, accounts, program_id, addresses, answers);
            &&& after.claims.contains(claim_of(program_id, answers.loaded.unwrap()))
            &&& after.claims.len() == before.claims.len() + 1
            &&& serving_after(after.replacements, program_id) == Some(accounts.buffer.key)
            &&& upgrade_outcome(after, accounts, program_id, addresses, answers) == Err::<
                (),
                UpgradeError,
            >(UpgradeError::AlreadyClaimed)
            &&& ledger_after(after, accounts, program_id, addresses, answers) == after
        }),
{
    crate::accounts::valid_iff_no_violation(accounts, program_id, addresses);
    let claim = claim_of(program_id, answers.loaded.unwrap());
    let after = ledger_after(before, accounts, program_id, addresses, answers);
    assert(after.claims == before.claims.push(claim));
    assert(after.claims[before.claims.len() as int] == claim);
    assert(after.replacements.last() == replacement_of(program_id, accounts));
}

/// A message that was claimed for a program is never executed for it again:
/// whatever else is submitted with it, an upgrade that gets as far as the
/// claim fails with `AlreadyClaimed` and changes nothing.
pub proof fn claimed_message_is_refused(
    before: LedgerView,
    accounts: UpgradeContract,
    program_id: Identity,
    addresses: ProgramAddresses,
    answers: Answers,
)
    requires
        accounts_valid(accounts, program_id, addresses),
        constraints_outcome(accounts.buffer.key, answers.loaded, answers.checked) is Ok,
        before.claims.contains(claim_of(program_id, answers.loaded.unwrap())),
    ensures
        upgrade_outcome(before, accounts, program_id, addresses, answers) == Err::<
            (),
            UpgradeError,
        >(UpgradeError::AlreadyClaimed),
        ledger_after(before, accounts, program_id, addresses, answers) == before,
{
    crate::accounts::valid_iff_no_violation(accounts, program_id, addresses);
}

/// A decree for another chain always fails with
/// `GovernanceForAnotherChain` and never creates a claim: validation gives
/// that error whatever buffer is handed in, the machine that waits for the
/// payload aborts with it and orders no claim, and an upgrade that carries
/// the decree leaves the ledger as it was, with that error wherever the
/// accounts fit.
pub proof fn decree_for_another_chain_is_refused(
    before: LedgerView,
    accounts: UpgradeContract,
    program_id: Identity,
    addresses: ProgramAddresses,
    answers: Answers,
    decree: GovernanceDecree,
    waiting: Upgrade,
)
    requires
        answers.loaded is Ok,
        answers.checked == Ok::<GovernancePayload, GovernanceRejection>(
            GovernancePayload::ContractUpgrade(decree),
        ),
        decree.target_chain_id != SOLANA_CHAIN,
        waiting.phase is ValidateDecree,
    ensures
        decree_validation(GovernancePayload::ContractUpgrade(decree), accounts.buffer.key) == Err::<
            GovernanceDecree,
            UpgradeError,
        >(UpgradeError::GovernanceForAnotherChain),
        constraints_outcome(accounts.buffer.key, answers.loaded, answers.checked) == Err::<
            (),
            UpgradeError,
        >(UpgradeError::GovernanceForAnotherChain),
        spec_step(waiting, Event::GovernanceChecked(answers.checked)) == aborted(
            waiting,
            UpgradeError::GovernanceForAnotherChain,
        ),
        upgrade_outcome(before, accounts, program_id, addresses, answers) is Err,
        ledger_after(before, accounts, program_id, addresses, answers) == before,
        accounts_valid(accounts, program_id, addresses) ==> upgrade_outcome(
            before,
            accounts,
            program_id,
            addresses,
            answers,
        ) == Err::<(), UpgradeError>(UpgradeError::GovernanceForAnotherChain),
{
    crate::accounts::valid_iff_no_violation(accounts, program_id, addresses);
}

/// A decree for this chain that names another implementation than the buffer
/// handed in always fails with `ImplementationMismatch`, before any claim is
/// created: validation gives that error, the machine that waits for the
/// payload aborts with it and orders no claim, and an upgrade that carries
/// the decree leaves the ledger as it was, with that error wherever the
/// accounts fit.
pub proof fn decree_for_another_buffer_is_refused(
    before: LedgerView,
    accounts: UpgradeContract,
    program_id: Identity,
    addresses: ProgramAddresses,
    answers: Answers,
    decree: GovernanceDecree,
    waiting: Upgrade,
)
    requires
        answers.loaded is Ok,
        answers.checked == Ok::<GovernancePayload, GovernanceRejection>(
            GovernancePayload::ContractUpgrade(decree),
        ),
        decree.target_chain_id == SOLANA_CHAIN,
        decree.implementation_address != accounts.buffer.key,
        waiting.phase is ValidateDecree,
        waiting.accounts == accounts,
    ensures
        decree_validation(GovernancePayload::ContractUpgrade(decree), accounts.buffer.key) == Err::<
            GovernanceDecree,
            UpgradeError,
        >(UpgradeError::ImplementationMismatch),
        constraints_outcome(accounts.buffer.key, answers.loaded, answers.checked) == Err::<
            (),
            UpgradeError,
        >(UpgradeError::ImplementationMismatch),
        spec_step(waiting, Event::GovernanceChecked(answers.checked)) == aborted(
            waiting,
            UpgradeError::ImplementationMismatch,
        ),
        upgrade_outcome(before, accounts, program_id, addresses, answers) is Err,
        ledger_after(before, accounts, program_id, addresses, answers) == before,
        accounts_valid(accounts, program_id, addresses) ==> upgrade_outcome(
            before,
            accounts,
            program_id,
            addresses,
            answers,
        ) == Err::<(), UpgradeError>(UpgradeError::ImplementationMismatch),
{
    crate::accounts::valid_iff_no_violation(accounts, program_id, addresses);
}

/// A message that the verifier does not vouch for, be it not authentic or
/// not accepted as a governance message, leaves neither a claim nor a change
/// of code.
pub proof fn unverified_message_changes_nothing(
    before: LedgerView,
    accounts: UpgradeContract,
    program_id: Identity,
    addresses: ProgramAddresses,
    answers: Answers,
)
    requires
        answers.loaded is Err || answers.checked is Err,
    ensures
        upgrade_outcome(before, accounts, program_id, addresses, answers) is Err,
        ledger_after(before, accounts, program_id, addresses, answers) == before,
        accounts_valid(accounts, program_id, addresses) && answers.loaded is Err
            ==> upgrade_outcome(before, accounts, program_id, addresses, answers) == Err::<
            (),
            UpgradeError,
        >(UpgradeError::Authenticity),
{
    crate::accounts::valid_iff_no_violation(accounts, program_id, addresses);
}

/// Where the claim could be created and the host then refuses to replace the
/// code, the upgrade fails with `Platform` and the claim does not stay.
pub proof fn refused_replacement_leaves_no_claim(
    before: LedgerView,
    accounts: UpgradeContract,
    program_id: Identity,
    addresses: ProgramAddresses,
    answers: Answers,
)
    requires
        accounts_valid(accounts, program_id, addresses),
        constraints_outcome(accounts.buffer.key, answers.loaded, answers.checked) is Ok,
        !before.claims.contains(claim_of(program_id, answers.loaded.unwrap())),
        answers.replaced is Err,
    ensures
        upgrade_outcome(before, accounts, program_id, addresses, answers) == Err::<
            (),
            UpgradeError,
        >(UpgradeError::Platform),
        ledger_after(before, accounts, program_id, addresses, answers) == before,
        !ledger_after(before, accounts, program_id, addresses, answers).claims.contains(
            claim_of(program_id, answers.loaded.unwrap()),
        ),
{
    crate::accounts::valid_iff_no_violation(accounts, program_id, addresses);
}

/// An upgrade is all or nothing: a failed one leaves the ledger as it was,
/// and a successful one adds exactly its claim and its replacement.
pub proof fn upgrade_is_atomic(
    before: LedgerView,
    accounts: UpgradeContract,
    program_id: Identity,
    addresses: ProgramAddresses,
    answers: Answers,
)
    ensures
        upgrade_outcome(before, accounts, program_id, addresses, answers) is Err ==> ledger_after(
            before,
            accounts,
            program_id,
            addresses,
            answers,
        ) == before,
        upgrade_outcome(before, accounts, program_id, addresses, answers) is Ok ==> {
            let after = ledger_after(before, accounts, program_id, addresses, answers);
            &&& after.claims == before.claims.push(claim_of(program_id, answers.loaded.unwrap()))
            &&& after.replacements == before.replacements.push(
                replacement_of(program_id, accounts),
            )
        },
{
}

/// An upgrade claims its own message and no other: whether any other message
/// is claimed, for this program or another, is the same after as before.
pub proof fn other_messages_are_untouched(
    before: LedgerView,
    accounts: UpgradeContract,
    program_id: Identity,
    addresses: ProgramAddresses,
    answers: Answers,
    other: Claim,
)
    requires
        answers.loaded matches Ok(message) ==> other != claim_of(program_id, message),
    ensures
        ledger_after(before, accounts, program_id, addresses, answers).claims.contains(other)
            == before.claims.contains(other),
{
    let after = ledger_after(before, accounts, program_id, addresses, answers);
    if upgrade_outcome(before, accounts, program_id, addresses, answers) is Ok {
        let claim = claim_of(program_id, answers.loaded.unwrap());
        assert(after.claims == before.claims.push(claim));
        if before.claims.contains(other) {
            let i = choose|i: int| 0 <= i < before.claims.len() && before.claims[i] == other;
            assert(after.claims[i] == other);
        }
        if after.claims.contains(other) {
            let i = choose|i: int| 0 <= i < after.claims.len() && after.claims[i] == other;
            assert(i < before.claims.len());
            assert(before.claims[i] == other);
        }
    }
}

/// Claims and replacements are permanent, and no claim is ever made twice:
/// an upgrade takes nothing away from the ledger, and leaves it without
/// duplicates if it had none.
pub proof fn ledger_only_grows(
    before: LedgerView,
    accounts: UpgradeContract,
    program_id: Identity,
    addresses: ProgramAddresses,
    answers: Answers,
)
    requires
        before.wf(),
    ensures
        before.is_prefix_of(ledger_after(before, accounts, program_id, addresses, answers)),
        ledger_after(before, accounts, program_id, addresses, answers).wf(),
{
    let after = ledger_after(before, accounts, program_id, addresses, answers);
    if upgrade_outcome(before, accounts, program_id, addresses, answers) is Ok {
        let claim = claim_of(program_id, answers.loaded.unwrap());
        assert(after.claims == before.claims.push(claim));
        assert forall|i: int, j: int|
            0 <= i < after.claims.len() && 0 <= j < after.claims.len() && i != j implies after.claims[i]
            != after.claims[j] by {
            if i < before.claims.len() && j < before.claims.len() {
                assert(before.claims[i] != before.claims[j]);
            } else if i < before.claims.len() {
                assert(before.claims.contains(before.claims[i]));
            } else {
                assert(before.claims.contains(before.claims[j]));
            }
        }
    }
}

/// A claim is asked for only once the message is authentic and its decree is
/// valid: the machine orders a claim in no other phase than `ValidateDecree`,
/// on no other event than an accepted payload whose decree passes validation,
/// and for no other message than the one that was loaded.
pub proof fn claim_follows_validation(upgrade: Upgrade, event: Event)
    requires
        spec_step(upgrade, event).1 is CreateClaim,
    ensures
        upgrade.phase is ValidateDecree,
        event matches Event::GovernanceChecked(Ok(payload)) && decree_validation(
            payload,
            upgrade.accounts.buffer.key,
        ) is Ok,
        spec_step(upgrade, event).1->claim == claim_of(upgrade.program_id, upgrade.phase->message),
        spec_step(upgrade, event).0.phase is ClaimReplay,
{
}

/// The code is replaced only once the claim exists: the machine orders the
/// replacement in no other phase than `ClaimReplay`, and only on the answer
/// that the claim was created.
pub proof fn replacement_follows_claim(upgrade: Upgrade, event: Event)
    requires
        spec_step(upgrade, event).1 is ReplaceCode,
    ensures
        upgrade.phase is ClaimReplay,
        event matches Event::ClaimAnswered(Ok(_)),
        spec_step(upgrade, event).1->replacement == replacement_of(
            upgrade.program_id,
            upgrade.accounts,
        ),
        spec_step(upgrade, event).0.phase is Execute,
{
}

/// The upgrade is committed only once the host has replaced the code.
pub proof fn commit_follows_replacement(upgrade: Upgrade, event: Event)
    requires
        spec_step(upgrade, event).1 is Commit,
    ensures
        upgrade.phase is Execute,
        event matches Event::CodeReplaced(Ok(_)),
        spec_step(upgrade, event).0.phase is Done,
{
}

/// The phases follow each other in their order: a step of an upgrade that
/// has not ended either aborts it or takes it to the very next phase, and
/// never changes the program or the accounts it is about.
pub proof fn phases_follow_in_order(upgrade: Upgrade, event: Event)
    requires
        !upgrade.is_terminal(),
    ensures
        spec_step(upgrade, event).0.phase is Aborted || spec_step(
            upgrade,
            event,
        ).0.phase.steps_left() + 1 == upgrade.phase.steps_left(),
        spec_step(upgrade, event).0.phase is Aborted <==> spec_step(upgrade, event).1 is Abort,
        spec_step(upgrade, event).0.program_id == upgrade.program_id,
        spec_step(upgrade, event).0.accounts == upgrade.accounts,
{
}

/// Every failure is terminal: an aborted upgrade is in the phase `Aborted`
/// with the error it was aborted for, and an upgrade that has ended takes no
/// further step.
pub proof fn failure_is_terminal(upgrade: Upgrade, event: Event)
    ensures
        spec_step(upgrade, event).1 matches Action::Abort(error) ==> spec_step(
            upgrade,
            event,
        ).0.phase == Phase::Aborted(error),
        spec_step(upgrade, event).0.phase is Aborted && !upgrade.is_terminal() ==> spec_step(
            upgrade,
            event,
        ).1 is Abort,
        upgrade.is_terminal() ==> spec_step(upgrade, event) == (upgrade, Action::Nothing),
{
}

/// A message that is not authentic ends the upgrade at once, in whatever
/// phase the verifier's answer arrives.
pub proof fn unauthentic_message_aborts(upgrade: Upgrade, error: AuthenticityError)
    requires
        !upgrade.is_terminal(),
    ensures
        spec_step(upgrade, Event::MessageLoaded(Err(error))).1 is Abort,
        upgrade.phase is Verify ==> spec_step(upgrade, Event::MessageLoaded(Err(error))).1
            == Action::Abort(UpgradeError::Authenticity),
{
}

} // verus!
