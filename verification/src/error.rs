//! Why an upgrade was refused. Every error is terminal: the submission fails
//! as a whole and leaves nothing behind.

use vstd::prelude::*;

verus! {

/// The part an account plays in an upgrade.
#[derive(Clone, Copy, Debug, PartialEq, Eq, Structural)]
pub enum Role {
    Payer,
    Config,
    Message,
    Claim,
    UpgradeAuthority,
    Spill,
    Buffer,
    ProgramData,
    ThisProgram,
    Rent,
    Clock,
    Loader,
    SystemProgram,
}

/// An account that does not fit the part it was handed in for.
#[derive(Clone, Copy, Debug, PartialEq, Eq, Structural)]
pub enum ContextError {
    /// The account had to sign and did not.
    NotSigner(Role),
    /// The account had to be writable and is not.
    NotWritable(Role),
    /// The account belongs to another program than it must.
    WrongOwner(Role),
    /// The account is not the one whose address the part fixes.
    WrongAddress(Role),
    /// The account had to be a program and is not executable.
    NotExecutable(Role),
}

/// Why the verifier did not accept an authentic message as a governance
/// message.
#[derive(Clone, Copy, Debug, PartialEq, Eq, Structural)]
pub enum GovernanceRejection {
    /// The message was attested by another guardian set than the accepted one.
    WrongGuardianSet,
    /// The message does not come from the governance emitter.
    NotGovernanceEmitter,
    /// The message was superseded.
    AlreadySuperseded,
}

/// The verifier's refusal: the message is not validly attested.
#[derive(Clone, Copy, Debug, PartialEq, Eq, Structural)]
pub struct AuthenticityError;

/// The replay guard's refusal: a claim for the key exists.
#[derive(Clone, Copy, Debug, PartialEq, Eq, Structural)]
pub struct AlreadyClaimed;

/// The host's refusal to replace the code.
#[derive(Clone, Copy, Debug, PartialEq, Eq, Structural)]
pub struct PlatformError;

/// Why an upgrade failed.
#[derive(Clone, Copy, Debug, PartialEq, Eq, Structural)]
pub enum UpgradeError {
    /// An account does not fit its part.
    Context(ContextError),
    /// The message is not validly attested.
    Authenticity,
    /// The message was attested by another guardian set than the accepted one.
    WrongGuardianSet,
    /// The message does not come from the governance emitter.
    NotGovernanceEmitter,
    /// The message was superseded.
    AlreadySuperseded,
    /// The payload is no upgrade decree.
    InvalidGovernanceAction,
    /// The decree addresses another chain.
    GovernanceForAnotherChain,
    /// The decree names another implementation than the buffer handed in.
    ImplementationMismatch,
    /// The message was executed before.
    AlreadyClaimed,
    /// The host refused to replace the code.
    Platform,
    /// An answer arrived that the current phase does not wait for.
    InvariantViolation,
}

/// The upgrade error that stands for a governance rejection.
pub open spec fn rejection_error(rejection: GovernanceRejection) -> UpgradeError {
    match rejection {
        GovernanceRejection::WrongGuardianSet => UpgradeError::WrongGuardianSet,
        GovernanceRejection::NotGovernanceEmitter => UpgradeError::NotGovernanceEmitter,
        GovernanceRejection::AlreadySuperseded => UpgradeError::AlreadySuperseded,
    }
}

impl GovernanceRejection {
    /// The upgrade error that stands for this rejection.
    pub fn to_error(&self) -> (error: UpgradeError)
        ensures
            error == rejection_error(*self),
    {
        match self {
            GovernanceRejection::WrongGuardianSet => UpgradeError::WrongGuardianSet,
            GovernanceRejection::NotGovernanceEmitter => UpgradeError::NotGovernanceEmitter,
            GovernanceRejection::AlreadySuperseded => UpgradeError::AlreadySuperseded,
        }
    }
}

} // verus!
