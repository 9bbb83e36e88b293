//! Failure values.
//!
//! Every operation of the engine reports a failure as a value of [`Error`]
//! and leaves the state it was called on untouched. [`EscrowError`] is the
//! numbered failure set of the multi-party agreement interface.

use vstd::prelude::*;

verus! {

/// Why an operation of the milestone engine was refused.
#[derive(Clone, Copy, Debug, PartialEq, Eq, Hash, Structural)]
pub enum Error {
    /// No record is stored under the escrow id.
    EscrowNotFound,
    /// A record is already stored under the escrow id.
    EscrowAlreadyExists,
    /// The milestone index is past the end of the record's milestones.
    MilestoneNotFound,
    /// The milestone is no longer pending.
    MilestoneAlreadyReleased,
    /// Some milestone of the record has not been released yet.
    MilestonesOutstanding,
    /// The caller is not the party that may perform the operation.
    Unauthorized,
    /// The record is not in the `Active` status.
    EscrowNotActive,
    /// The status of the record does not admit the operation.
    InvalidEscrowStatus,
    /// The record has been funded before.
    EscrowAlreadyFunded,
    /// An escrow needs at least one milestone.
    NoMilestones,
    /// More milestones than an escrow may have.
    TooManyMilestones,
    /// A milestone amount is zero or negative.
    ZeroAmount,
    /// The milestone amounts do not add up within the range of an amount.
    AmountOverflow,
    /// Depositor and recipient are the same identity.
    SelfDealing,
    /// The named winner is neither the depositor nor the recipient.
    InvalidWinner,
    /// A fee rate above the denominator.
    InvalidFeeConfiguration,
    /// The deadline of the escrow has not been reached.
    DeadlineNotReached,
    /// New commitments are refused while the contract is paused.
    ContractPaused,
    /// The roles, or the treasury, have been set before.
    AlreadyInitialized,
    /// No operator has been appointed.
    OperatorNotInitialized,
    /// No arbitrator has been appointed.
    ArbitratorNotInitialized,
    /// A fee is due and no treasury has been named to receive it.
    TreasuryNotInitialized,
    /// A settlement of the same escrow is still in flight.
    ReentrancyDetected,
    /// A record handed in from storage breaks the record invariant.
    InvalidRecord,
}

/// Failure codes of the multi-party agreement interface.
#[derive(Clone, Copy, Debug, PartialEq, Eq, PartialOrd, Ord, Hash, Structural)]
pub enum EscrowError {
    EscrowNotFound,
    UnauthorizedAccess,
    InvalidStateTransition,
    InsufficientFunds,
    EscrowExpired,
    EscrowNotExpired,
    DuplicateParty,
    InvalidAmount,
    ConditionsNotMet,
    InvalidState,
    UnauthorizedParty,
    OverDeposit,
    AlreadyDeposited,
    ReentrancyDetected,
}

impl EscrowError {
    /// The number under which the failure is reported to a host.
    pub open spec fn spec_code(self) -> u32 {
        match self {
            EscrowError::EscrowNotFound => 1,
            EscrowError::UnauthorizedAccess => 2,
            EscrowError::InvalidStateTransition => 3,
            EscrowError::InsufficientFunds => 4,
            EscrowError::EscrowExpired => 5,
            EscrowError::EscrowNotExpired => 6,
            EscrowError::DuplicateParty => 7,
            EscrowError::InvalidAmount => 8,
            EscrowError::ConditionsNotMet => 9,
            EscrowError::InvalidState => 10,
            EscrowError::UnauthorizedParty => 11,
            EscrowError::OverDeposit => 12,
            EscrowError::AlreadyDeposited => 13,
            EscrowError::ReentrancyDetected => 14,
        }
    }

    /// The number under which the failure is reported to a host: the
    /// variants count from 1 in the order of their declaration.
    #[verifier::when_used_as_spec(spec_code)]
    pub fn code(self) -> (n: u32)
        ensures
            n == self.spec_code(),
            1 <= n <= 14,
    {
        match self {
            EscrowError::EscrowNotFound => 1,
            EscrowError::UnauthorizedAccess => 2,
            EscrowError::InvalidStateTransition => 3,
            EscrowError::InsufficientFunds => 4,
            EscrowError::EscrowExpired => 5,
            EscrowError::EscrowNotExpired => 6,
            EscrowError::DuplicateParty => 7,
            EscrowError::InvalidAmount => 8,
            EscrowError::ConditionsNotMet => 9,
            EscrowError::InvalidState => 10,
            EscrowError::UnauthorizedParty => 11,
            EscrowError::OverDeposit => 12,
            EscrowError::AlreadyDeposited => 13,
            EscrowError::ReentrancyDetected => 14,
        }
    }
}

} // verus!
