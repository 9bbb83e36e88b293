//! The contract as a state machine over mathematical values.
//!
//! [`ContractView`] is the value of a contract instance; each operation is a
//! function from a state and the arguments of the call to a [`Step`]: the
//! state that follows and either what the host has to do or the failure.
//! A failed operation leaves the state as it was.
//!
//! An operation checks in this order: the pause gate (for the two
//! operations that make new commitments), the roles it needs, the record,
//! the caller, the status of the record, its other arguments, and last the
//! settlement.

use vstd::prelude::*;
use crate::effects::{payout_transfers, Account, Event, Outcome, OutcomeView, Transfer};
use crate::errors::Error;
use crate::fees::{fee_of, FeeView, BPS_DENOMINATOR};
use crate::lifecycle::{milestones_verdict, transition, Operation};
use crate::roles::RoleRegistry;
use crate::types::{all_released, Address, EscrowStatus, EscrowView, Milestone, MilestoneStatus};

verus! {

/// The value of a contract instance.
pub struct ContractView {
    /// Roles, treasury and pause flag.
    pub roles: RoleRegistry,
    /// The fee rates.
    pub fees: FeeView,
    /// The records by escrow id. A record is never removed.
    pub escrows: Map<u64, EscrowView>,
    /// The escrows of which a settlement is in flight.
    pub in_flight: Set<u64>,
}

/// What an operation on an escrow makes of a state.
pub struct Step {
    /// The state after the operation.
    pub next: ContractView,
    /// What the host has to do, or why the operation was refused.
    pub result: Result<OutcomeView, Error>,
}

impl Step {
    /// Whether a call that left the state `post` and returned `returned`
    /// did what the step says.
    pub open spec fn yields(self, post: ContractView, returned: Result<Outcome, Error>) -> bool {
        &&& post == self.next
        &&& match returned {
            Ok(outcome) => self.result == Ok::<OutcomeView, Error>(outcome@),
            Err(error) => self.result == Err::<OutcomeView, Error>(error),
        }
    }
}

/// A call of one of the operations on escrows, with its arguments.
pub enum Call {
    CreateEscrow {
        id: u64,
        depositor: Address,
        recipient: Address,
        token: Address,
        milestones: Seq<Milestone>,
        deadline: u64,
    },
    DepositFunds { id: u64 },
    ReleaseMilestone { id: u64, index: u32 },
    ConfirmDelivery { id: u64, index: u32, caller: Address },
    CompleteEscrow { id: u64 },
    CancelEscrow { id: u64 },
    RefundExpired { id: u64, caller: Address, now: u64 },
    RaiseDispute { id: u64, caller: Address },
    ResolveDispute { id: u64, winner: Address, note: Option<String> },
}

impl Call {
    /// The escrow that the call is about.
    pub open spec fn subject(self) -> u64 {
        match self {
            Call::CreateEscrow { id, .. } => id,
            Call::DepositFunds { id } => id,
            Call::ReleaseMilestone { id, .. } => id,
            Call::ConfirmDelivery { id, .. } => id,
            Call::CompleteEscrow { id } => id,
            Call::CancelEscrow { id } => id,
            Call::RefundExpired { id, .. } => id,
            Call::RaiseDispute { id, .. } => id,
            Call::ResolveDispute { id, .. } => id,
        }
    }
}

impl ContractView {
    /// The state of a new contract instance.
    pub open spec fn empty() -> ContractView {
        ContractView {
            roles: RoleRegistry::empty(),
            fees: FeeView::empty(),
            escrows: Map::empty(),
            in_flight: Set::empty(),
        }
    }

    /// The invariant of the contract: the rates are valid, and every record
    /// meets the record invariant and is stored under its own id.
    pub open spec fn wf(self) -> bool {
        &&& self.fees.wf()
        &&& forall|id: u64| #[trigger]
            self.escrows.contains_key(id) ==> self.escrows[id].wf() && self.escrows[id].id == id
    }

    /// The step of an operation that is refused with `error`.
    pub open spec fn refuse(self, error: Error) -> Step {
        Step { next: self, result: Err(error) }
    }

    /// The state in which `record` stands under the id `id`.
    pub open spec fn with_record(self, id: u64, record: EscrowView) -> ContractView {
        ContractView { escrows: self.escrows.insert(id, record), ..self }
    }

    /// The state in which `record` stands under the id `id` and a
    /// settlement of that escrow is in flight.
    pub open spec fn with_settling(self, id: u64, record: EscrowView) -> ContractView {
        ContractView {
            escrows: self.escrows.insert(id, record),
            in_flight: self.in_flight.insert(id),
            ..self
        }
    }

    /// `init`: assigns the three roles, once.
    pub open spec fn init(
        self,
        admin: Address,
        operator: Address,
        arbitrator: Address,
    ) -> Result<ContractView, Error> {
        if self.roles.populated() {
            Err(Error::AlreadyInitialized)
        } else {
            Ok(ContractView { roles: self.roles.with_roles(admin, operator, arbitrator), ..self })
        }
    }

    /// `initialize`: names the treasury and sets the global default rate,
    /// once.
    pub open spec fn initialize(self, treasury: Address, default_fee_bps: Option<u32>) -> Result<
        ContractView,
        Error,
    > {
        if self.roles.treasury is Some {
            Err(Error::AlreadyInitialized)
        } else if default_fee_bps matches Some(bps) && bps > BPS_DENOMINATOR {
            Err(Error::InvalidFeeConfiguration)
        } else {
            Ok(
                ContractView {
                    roles: RoleRegistry { treasury: Some(treasury), ..self.roles },
                    fees: FeeView { global_default_bps: default_fee_bps, ..self.fees },
                    ..self
                },
            )
        }
    }

    /// `set_paused`: sets the pause flag; the operator has to authorize it.
    pub open spec fn set_paused(self, paused: bool) -> Result<(ContractView, Address), Error> {
        match self.roles.operator {
            None => Err(Error::OperatorNotInitialized),
            Some(operator) => Ok(
                (ContractView { roles: RoleRegistry { paused, ..self.roles }, ..self }, operator),
            ),
        }
    }

    /// `set_token_fee`: stores the rate of a token.
    pub open spec fn set_token_fee(self, token: Address, bps: u32) -> Result<ContractView, Error> {
        if bps > BPS_DENOMINATOR {
            Err(Error::InvalidFeeConfiguration)
        } else {
            Ok(
                ContractView {
                    fees: FeeView {
                        token_overrides: self.fees.token_overrides.insert(token.id, bps),
                        ..self.fees
                    },
                    ..self
                },
            )
        }
    }

    /// `set_escrow_fee`: stores the rate of an escrow.
    pub open spec fn set_escrow_fee(self, escrow_id: u64, bps: u32) -> Result<ContractView, Error> {
        if bps > BPS_DENOMINATOR {
            Err(Error::InvalidFeeConfiguration)
        } else {
            Ok(
                ContractView {
                    fees: FeeView {
                        escrow_overrides: self.fees.escrow_overrides.insert(escrow_id, bps),
                        ..self.fees
                    },
                    ..self
                },
            )
        }
    }

    /// The fee taken when `gross` leaves custody for the escrow `escrow_id`
    /// held in `token`.
    pub open spec fn fee_on(self, escrow_id: u64, token: Address, gross: i128) -> i128 {
        fee_of(gross as int, self.fees.rate(escrow_id, token) as int) as i128
    }

    /// The settlement of `gross` out of custody for the escrow `escrow_id`:
    /// the fee at the rate of the escrow goes to the treasury and the rest
    /// to `beneficiary`.
    ///
    /// It is refused with `ReentrancyDetected` while a settlement of the
    /// escrow is in flight, else with `TreasuryNotInitialized` if a fee is
    /// due and no treasury is named.
    pub open spec fn settlement(
        self,
        escrow_id: u64,
        token: Address,
        gross: i128,
        beneficiary: Address,
    ) -> Result<Seq<Transfer>, Error> {
        let fee = self.fee_on(escrow_id, token, gross);
        if self.in_flight.contains(escrow_id) {
            Err(Error::ReentrancyDetected)
        } else if fee > 0 && self.roles.treasury is None {
            Err(Error::TreasuryNotInitialized)
        } else {
            Ok(
                payout_transfers(
                    token,
                    self.roles.treasury,
                    beneficiary,
                    fee,
                    (gross - fee) as i128,
                ),
            )
        }
    }

    /// `create_escrow`: puts a new record under `id`.
    pub open spec fn create_escrow(
        self,
        id: u64,
        depositor: Address,
        recipient: Address,
        token: Address,
        milestones: Seq<Milestone>,
        deadline: u64,
    ) -> Step {
        if self.roles.paused {
            self.refuse(Error::ContractPaused)
        } else if depositor == recipient {
            self.refuse(Error::SelfDealing)
        } else if self.escrows.contains_key(id) {
            self.refuse(Error::EscrowAlreadyExists)
        } else {
            match milestones_verdict(milestones) {
                Err(error) => self.refuse(error),
                Ok(total) => Step {
                    next: self.with_record(
                        id,
                        EscrowView::created(id, depositor, recipient, token, milestones, deadline),
                    ),
                    result: Ok(
                        OutcomeView {
                            authorizer: depositor,
                            transfers: Seq::empty(),
                            event: Event::EscrowCreated {
                                escrow_id: id,
                                depositor,
                                recipient,
                                token,
                                total_amount: total,
                                deadline,
                            },
                        },
                    ),
                },
            }
        }
    }

    /// `deposit_funds`: takes the whole amount from the depositor into
    /// custody and activates the escrow.
    pub open spec fn deposit_funds(self, id: u64) -> Step {
        if self.roles.paused {
            self.refuse(Error::ContractPaused)
        } else if !self.escrows.contains_key(id) {
            self.refuse(Error::EscrowNotFound)
        } else {
            let record = self.escrows[id];
            match transition(record.status, Operation::Deposit) {
                Err(error) => self.refuse(error),
                Ok(status) => Step {
                    next: self.with_record(id, record.with_status(status)),
                    result: Ok(
                        OutcomeView {
                            authorizer: record.depositor,
                            transfers: seq![
                                Transfer {
                                    token: record.token_address,
                                    from: Account::Holder(record.depositor),
                                    to: Account::Custody,
                                    amount: record.total_amount,
                                },
                            ],
                            event: Event::EscrowFunded {
                                escrow_id: id,
                                amount: record.total_amount,
                            },
                        },
                    ),
                },
            }
        }
    }

    /// The release of the milestone `index` of the escrow `id`, on behalf of
    /// `caller` if one is named: the amount less the fee goes to the
    /// recipient.
    pub open spec fn release(self, id: u64, index: u32, caller: Option<Address>) -> Step {
        if !self.escrows.contains_key(id) {
            self.refuse(Error::EscrowNotFound)
        } else {
            let record = self.escrows[id];
            if caller matches Some(who) && who != record.depositor {
                self.refuse(Error::Unauthorized)
            } else if transition(record.status, Operation::Release) is Err {
                self.refuse(transition(record.status, Operation::Release)->Err_0)
            } else if index >= record.milestones.len() {
                self.refuse(Error::MilestoneNotFound)
            } else if record.milestones[index as int].status != MilestoneStatus::Pending {
                self.refuse(Error::MilestoneAlreadyReleased)
            } else {
                let amount = record.milestones[index as int].amount;
                match self.settlement(id, record.token_address, amount, record.recipient) {
                    Err(error) => self.refuse(error),
                    Ok(transfers) => Step {
                        next: self.with_settling(id, record.with_released(index as int)),
                        result: Ok(
                            OutcomeView {
                                authorizer: record.depositor,
                                transfers,
                                event: Event::MilestoneReleased { escrow_id: id, index, amount },
                            },
                        ),
                    },
                }
            }
        }
    }

    /// `release_milestone`: releases one milestone.
    pub open spec fn release_milestone(self, id: u64, index: u32) -> Step {
        self.release(id, index, None)
    }

    /// `confirm_delivery`: releases one milestone on the word of `caller`,
    /// who has to be the depositor.
    pub open spec fn confirm_delivery(self, id: u64, index: u32, caller: Address) -> Step {
        self.release(id, index, Some(caller))
    }

    /// `complete_escrow`: closes an escrow of which every milestone is
    /// released.
    pub open spec fn complete_escrow(self, id: u64) -> Step {
        if !self.escrows.contains_key(id) {
            self.refuse(Error::EscrowNotFound)
        } else {
            let record = self.escrows[id];
            match transition(record.status, Operation::Complete) {
                Err(error) => self.refuse(error),
                Ok(status) => if !all_released(record.milestones) {
                    self.refuse(Error::MilestonesOutstanding)
                } else {
                    Step {
                        next: self.with_record(id, record.with_status(status)),
                        result: Ok(
                            OutcomeView {
                                authorizer: record.depositor,
                                transfers: Seq::empty(),
                                event: Event::EscrowCompleted { escrow_id: id },
                            },
                        ),
                    }
                },
            }
        }
    }

    /// `cancel_escrow`: calls the escrow off. Of a funded escrow the
    /// unreleased balance less the fee goes back to the depositor; of one
    /// that was never funded nothing moves.
    pub open spec fn cancel_escrow(self, id: u64) -> Step {
        if !self.escrows.contains_key(id) {
            self.refuse(Error::EscrowNotFound)
        } else {
            let record = self.escrows[id];
            match transition(record.status, Operation::Cancel) {
                Err(error) => self.refuse(error),
                Ok(status) => if record.status == EscrowStatus::Created {
                    Step {
                        next: self.with_record(id, record.with_status(status)),
                        result: Ok(
                            OutcomeView {
                                authorizer: record.depositor,
                                transfers: Seq::empty(),
                                event: Event::EscrowCancelled { escrow_id: id, refund: 0 },
                            },
                        ),
                    }
                } else {
                    let rest = record.remaining() as i128;
                    match self.settlement(id, record.token_address, rest, record.depositor) {
                        Err(error) => self.refuse(error),
                        Ok(transfers) => Step {
                            next: self.with_settling(id, record.with_status(status)),
                            result: Ok(
                                OutcomeView {
                                    authorizer: record.depositor,
                                    transfers,
                                    event: Event::EscrowCancelled { escrow_id: id, refund: rest },
                                },
                            ),
                        },
                    }
                },
            }
        }
    }

    /// `refund_expired`: gives the unreleased balance less the fee back to
    /// the depositor, who asks for it at `now`, once the deadline is
    /// reached.
    pub open spec fn refund_expired(self, id: u64, caller: Address, now: u64) -> Step {
        if !self.escrows.contains_key(id) {
            self.refuse(Error::EscrowNotFound)
        } else {
            let record = self.escrows[id];
            if caller != record.depositor {
                self.refuse(Error::Unauthorized)
            } else if transition(record.status, Operation::RefundExpired) is Err {
                self.refuse(transition(record.status, Operation::RefundExpired)->Err_0)
            } else if now < record.deadline {
                self.refuse(Error::DeadlineNotReached)
            } else {
                let rest = record.remaining() as i128;
                match self.settlement(id, record.token_address, rest, record.depositor) {
                    Err(error) => self.refuse(error),
                    Ok(transfers) => Step {
                        next: self.with_settling(id, record.with_status(EscrowStatus::Cancelled)),
                        result: Ok(
                            OutcomeView {
                                authorizer: caller,
                                transfers,
                                event: Event::EscrowRefunded { escrow_id: id, refund: rest },
                            },
                        ),
                    },
                }
            }
        }
    }

    /// `raise_dispute`: a party of the escrow freezes its payouts.
    pub open spec fn raise_dispute(self, id: u64, caller: Address) -> Step {
        if !self.escrows.contains_key(id) {
            self.refuse(Error::EscrowNotFound)
        } else {
            let record = self.escrows[id];
            if !record.is_party(caller) {
                self.refuse(Error::Unauthorized)
            } else if transition(record.status, Operation::RaiseDispute) is Err {
                self.refuse(transition(record.status, Operation::RaiseDispute)->Err_0)
            } else {
                Step {
                    next: self.with_record(id, record.disputed()),
                    result: Ok(
                        OutcomeView {
                            authorizer: caller,
                            transfers: Seq::empty(),
                            event: Event::DisputeRaised { escrow_id: id, raised_by: caller },
                        },
                    ),
                }
            }
        }
    }

    /// `resolve_dispute`: the arbitrator awards the unreleased balance, less
    /// the fee, to `winner`. The pause flag does not stand in its way.
    pub open spec fn resolve_dispute(self, id: u64, winner: Address, note: Option<String>) -> Step {
        if self.roles.arbitrator is None {
            self.refuse(Error::ArbitratorNotInitialized)
        } else if !self.escrows.contains_key(id) {
            self.refuse(Error::EscrowNotFound)
        } else {
            let record = self.escrows[id];
            if transition(record.status, Operation::Resolve) is Err {
                self.refuse(transition(record.status, Operation::Resolve)->Err_0)
            } else if !record.is_party(winner) {
                self.refuse(Error::InvalidWinner)
            } else {
                let rest = record.remaining() as i128;
                match self.settlement(id, record.token_address, rest, winner) {
                    Err(error) => self.refuse(error),
                    Ok(transfers) => Step {
                        next: self.with_settling(id, record.resolved_for(winner)),
                        result: Ok(
                            OutcomeView {
                                authorizer: self.roles.arbitrator->Some_0,
                                transfers,
                                event: Event::DisputeResolved { escrow_id: id, winner, note },
                            },
                        ),
                    },
                }
            }
        }
    }

    /// `finish_settlement`: the transfers of the settlement of the escrow
    /// `id` are done; the escrow may be settled again.
    pub open spec fn finish_settlement(self, id: u64) -> ContractView {
        ContractView { in_flight: self.in_flight.remove(id), ..self }
    }

    /// `restore_escrow`: takes a record from storage, together with
    /// whether a settlement of it is in flight.
    pub open spec fn restore_escrow(self, record: EscrowView, settling: bool) -> Result<
        ContractView,
        Error,
    > {
        if !record.wf() {
            Err(Error::InvalidRecord)
        } else if self.escrows.contains_key(record.id) {
            Err(Error::EscrowAlreadyExists)
        } else if settling {
            Ok(self.with_settling(record.id, record))
        } else {
            Ok(self.with_record(record.id, record))
        }
    }

    /// The step that `call` makes of the state.
    pub open spec fn step(self, call: Call) -> Step {
        match call {
            Call::CreateEscrow { id, depositor, recipient, token, milestones, deadline } => {
                self.create_escrow(id, depositor, recipient, token, milestones, deadline)
            },
            Call::DepositFunds { id } => self.deposit_funds(id),
            Call::ReleaseMilestone { id, index } => self.release_milestone(id, index),
            Call::ConfirmDelivery { id, index, caller } => self.confirm_delivery(id, index, caller),
            Call::CompleteEscrow { id } => self.complete_escrow(id),
            Call::CancelEscrow { id } => self.cancel_escrow(id),
            Call::RefundExpired { id, caller, now } => self.refund_expired(id, caller, now),
            Call::RaiseDispute { id, caller } => self.raise_dispute(id, caller),
            Call::ResolveDispute { id, winner, note } => self.resolve_dispute(id, winner, note),
        }
    }
}

} // verus!
