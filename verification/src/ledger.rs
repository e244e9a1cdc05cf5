//! A ledger of what upgrades leave behind: the claims that guard against
//! replay, and the code replacements that were carried out.

use vstd::prelude::*;
use crate::error::AlreadyClaimed;
use crate::identity::Identity;
use crate::message::MessageKey;

verus! {

/// The permanent mark that a message was executed for a program.
#[derive(Clone, Copy, Debug, PartialEq, Eq)]
pub struct Claim {
    /// The program for which the message was executed.
    pub scope: Identity,
    /// The message.
    pub key: MessageKey,
}

impl Claim {
    /// Whether two claims mark the same message for the same program.
    pub fn same(&self, other: &Claim) -> (equal: bool)
        ensures
            equal == (*self == *other),
    {
        self.scope.same(&other.scope) && self.key.same(&other.key)
    }
}

/// One replacement of a program's code.
#[derive(Clone, Copy, Debug, PartialEq, Eq)]
pub struct Replacement {
    /// The program whose code was replaced.
    pub program: Identity,
    /// The buffer whose code the program serves from then on.
    pub buffer: Identity,
    /// The authority on whose word the code was replaced.
    pub authority: Identity,
    /// Where the leftover resources went.
    pub refund: Identity,
}

/// Mathematical value of a [`Ledger`]: its claims and its replacements, each
/// in the order in which they were made.
pub struct LedgerView {
    pub claims: Seq<Claim>,
    pub replacements: Seq<Replacement>,
}

impl LedgerView {
    /// A ledger holds no claim twice.
    pub open spec fn wf(self) -> bool {
        self.claims.no_duplicates()
    }

    /// The ledger with one more claim.
    pub open spec fn with_claim(self, claim: Claim) -> LedgerView {
        LedgerView { claims: self.claims.push(claim), replacements: self.replacements }
    }

    /// The ledger with one more replacement.
    pub open spec fn with_replacement(self, replacement: Replacement) -> LedgerView {
        LedgerView { claims: self.claims, replacements: self.replacements.push(replacement) }
    }

    /// Whether everything in `self` is in `later`, in the same place.
    pub open spec fn is_prefix_of(self, later: LedgerView) -> bool {
        &&& self.claims.is_prefix_of(later.claims)
        &&& self.replacements.is_prefix_of(later.replacements)
    }
}

/// The code that `program` serves after `replacements`: the buffer of the
/// last replacement made for it, `None` where none was made.
pub open spec fn serving_after(
    replacements: Seq<Replacement>,
    program: Identity,
) -> Option<Identity>
    decreases replacements.len(),
{
    if replacements.len() == 0 {
        None
    } else if replacements.last().program == program {
        Some(replacements.last().buffer)
    } else {
        serving_after(replacements.drop_last(), program)
    }
}

/// A point in a ledger's history to which it can be taken back.
#[derive(Clone, Copy, Debug)]
pub struct Savepoint {
    claims: usize,
    replacements: usize,
}

impl Savepoint {
    /// How many claims the ledger held at the savepoint.
    pub closed spec fn claims(&self) -> nat {
        self.claims as nat
    }

    /// How many replacements the ledger held at the savepoint.
    pub closed spec fn replacements(&self) -> nat {
        self.replacements as nat
    }
}

/// The claims and replacements that upgrades have left behind.
#[derive(Debug)]
pub struct Ledger {
    claims: Vec<Claim>,
    replacements: Vec<Replacement>,
}

impl View for Ledger {
    type V = LedgerView;

    closed spec fn view(&self) -> LedgerView {
        LedgerView { claims: self.claims@, replacements: self.replacements@ }
    }
}

impl Ledger {
    /// A ledger holds no claim twice.
    pub open spec fn wf(&self) -> bool {
        self@.wf()
    }

    /// An empty ledger.
    pub fn new() -> (ledger: Ledger)
        ensures
            ledger.wf(),
            ledger@.claims == Seq::<Claim>::empty(),
            ledger@.replacements == Seq::<Replacement>::empty(),
    {
        Ledger { claims: Vec::new(), replacements: Vec::new() }
    }

    /// Whether the message `key` was claimed for the program `scope`.
    pub fn is_claimed(&self, scope: &Identity, key: &MessageKey) -> (claimed: bool)
        ensures
            claimed == self@.claims.contains(Claim { scope: *scope, key: *key }),
    {
        let wanted = Claim { scope: *scope, key: *key };
        let mut i: usize = 0;
        while i < self.claims.len()
            invariant
                i <= self.claims.len(),
                wanted == (Claim { scope: *scope, key: *key }),
                forall|j: int| 0 <= j < i ==> self.claims@[j] != wanted,
            decreases self.claims.len() - i,
        {
            if self.claims[i].same(&wanted) {
                assert(self.claims@[i as int] == wanted);
                return true;
            }
            i += 1;
        }
        false
    }

    /// How many claims the ledger holds.
    pub fn claim_count(&self) -> (count: usize)
        ensures
            count == self@.claims.len(),
    {
        self.claims.len()
    }

    /// How many replacements the ledger holds.
    pub fn replacement_count(&self) -> (count: usize)
        ensures
            count == self@.replacements.len(),
    {
        self.replacements.len()
    }

    /// The code that `program` serves: the buffer of the last replacement
    /// made for it, `None` where none was made.
    pub fn serving(&self, program: &Identity) -> (code: Option<Identity>)
        ensures
            code == serving_after(self@.replacements, *program),
    {
        let mut i: usize = self.replacements.len();
        assert(self.replacements@.take(i as int) == self.replacements@);
        while i > 0
            invariant
                i <= self.replacements.len(),
                serving_after(self.replacements@, *program) == serving_after(
                    self.replacements@.take(i as int),
                    *program,
                ),
            decreases i,
        {
            i -= 1;
            let ghost before = self.replacements@.take(i + 1);
            assert(before.last() == self.replacements@[i as int]);
            assert(before.drop_last() == self.replacements@.take(i as int));
            if self.replacements[i].program.same(program) {
                return Some(self.replacements[i].buffer);
            }
        }
        None
    }

    /// Creates the claim of the message `key` for the program `scope`, or
    /// refuses where it exists. All or nothing: a refusal changes nothing.
    pub fn claim(
        &mut self,
        scope: &Identity,
        key: &MessageKey,
    ) -> (created: Result<(), AlreadyClaimed>)
        requires
            old(self).wf(),
        ensures
            final(self).wf(),
            created is Err <==> old(self)@.claims.contains(Claim { scope: *scope, key: *key }),
            created is Ok ==> final(self)@ == old(self)@.with_claim(
                Claim { scope: *scope, key: *key },
            ),
            created is Err ==> final(self)@ == old(self)@,
    {
        if self.is_claimed(scope, key) {
            return Err(AlreadyClaimed);
        }
        let claim = Claim { scope: *scope, key: *key };
        self.claims.push(claim);
        Ok(())
    }

    /// Records that the host replaced a program's code.
    pub fn record_replacement(&mut self, replacement: Replacement)
        requires
            old(self).wf(),
        ensures
            final(self).wf(),
            final(self)@ == old(self)@.with_replacement(replacement),
    {
        self.replacements.push(replacement);
    }

    /// The point at which the ledger stands.
    pub fn savepoint(&self) -> (point: Savepoint)
        ensures
            point.claims() == self@.claims.len(),
            point.replacements() == self@.replacements.len(),
    {
        Savepoint { claims: self.claims.len(), replacements: self.replacements.len() }
    }

    /// Takes the ledger back to `point`: what was added since is gone. A
    /// point beyond what the ledger holds takes nothing away.
    pub fn rollback(&mut self, point: &Savepoint)
        requires
            old(self).wf(),
        ensures
            final(self).wf(),
            final(self)@.is_prefix_of(old(self)@),
            final(self)@.claims.len() == if point.claims() <= old(self)@.claims.len() {
                point.claims()
            } else {
                old(self)@.claims.len()
            },
            final(self)@.replacements.len() == if point.replacements()
                <= old(self)@.replacements.len() {
                point.replacements()
            } else {
                old(self)@.replacements.len()
            },
    {
        self.claims.truncate(point.claims);
        self.replacements.truncate(point.replacements);
    }
}

} // verus!
