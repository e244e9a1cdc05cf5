//! What the verifier hands over: an authenticated message and its decoded
//! governance payload.

use vstd::prelude::*;
use crate::identity::Identity;

verus! {

/// What identifies a message for good: where it came from and its number
/// there.
#[derive(Clone, Copy, Debug, PartialEq, Eq)]
pub struct MessageKey {
    pub emitter_chain: u16,
    pub emitter_address: Identity,
    pub sequence: u64,
}

impl MessageKey {
    /// Whether two keys name the same message.
    pub fn same(&self, other: &MessageKey) -> (equal: bool)
        ensures
            equal == (*self == *other),
    {
        self.emitter_chain == other.emitter_chain && self.sequence == other.sequence
            && self.emitter_address.same(&other.emitter_address)
    }
}

/// A message that the verifier found validly attested.
#[derive(Clone, Copy, Debug, PartialEq, Eq)]
pub struct VerifiedMessage {
    pub emitter_chain: u16,
    pub emitter_address: Identity,
    pub sequence: u64,
}

impl VerifiedMessage {
    /// The key under which the message is claimed.
    pub open spec fn spec_key(&self) -> MessageKey {
        MessageKey {
            emitter_chain: self.emitter_chain,
            emitter_address: self.emitter_address,
            sequence: self.sequence,
        }
    }

    /// The key under which the message is claimed.
    #[verifier::when_used_as_spec(spec_key)]
    pub fn key(&self) -> (key: MessageKey)
        ensures
            key == self.spec_key(),
    {
        MessageKey {
            emitter_chain: self.emitter_chain,
            emitter_address: self.emitter_address,
            sequence: self.sequence,
        }
    }
}

/// The order to replace the program's code: for which chain, and by what.
#[derive(Clone, Copy, Debug, PartialEq, Eq)]
pub struct GovernanceDecree {
    pub target_chain_id: u16,
    pub implementation_address: Identity,
}

/// A decoded governance payload.
#[derive(Clone, Copy, Debug, PartialEq, Eq)]
pub enum GovernancePayload {
    /// An order to replace the program's code.
    ContractUpgrade(GovernanceDecree),
    /// Any other governance action.
    Other,
}

impl GovernancePayload {
    /// The upgrade decree, where the payload is one.
    pub open spec fn spec_contract_upgrade(&self) -> Option<GovernanceDecree> {
        match *self {
            GovernancePayload::ContractUpgrade(decree) => Some(decree),
            GovernancePayload::Other => None,
        }
    }

    /// The upgrade decree, where the payload is one.
    #[verifier::when_used_as_spec(spec_contract_upgrade)]
    pub fn contract_upgrade(&self) -> (decree: Option<GovernanceDecree>)
        ensures
            decree == self.spec_contract_upgrade(),
    {
        match self {
            GovernancePayload::ContractUpgrade(decree) => Some(*decree),
            GovernancePayload::Other => None,
        }
    }
}

} // verus!
