//! The contract instance: the state of the engine and its operations.
//!
//! Every operation is a step of the state machine of [`crate::model`]: its
//! contract names the step, and the state of the instance always meets the
//! invariant of [`ContractView::wf`].

use vstd::prelude::*;
use std::collections::HashMap;
use std::collections::HashSet;
use crate::effects::{payout, Account, Event, Outcome, Transfer};
use crate::errors::Error;
use crate::fees::{fee_amount, FeeConfig, BPS_DENOMINATOR};
use crate::lifecycle::{lemma_steps_keep_wf, next_status, Operation};
use crate::model::ContractView;
use crate::record::validate_milestones;
use crate::roles::RoleRegistry;
use crate::types::{
    lemma_released_bounds, Address, Escrow, EscrowStatus, EscrowView, Milestone, MilestoneStatus,
};

verus! {

broadcast use vstd::std_specs::hash::group_hash_axioms;

/// The parts of an instance.
struct State {
    roles: RoleRegistry,
    fees: FeeConfig,
    escrows: HashMap<u64, Escrow>,
    in_flight: HashSet<u64>,
}

impl View for State {
    type V = ContractView;

    closed spec fn view(&self) -> ContractView {
        ContractView {
            roles: self.roles,
            fees: self.fees@,
            escrows: Map::new(
                |id: u64| self.escrows@.contains_key(id),
                |id: u64| self.escrows@[id]@,
            ),
            in_flight: self.in_flight@,
        }
    }
}

impl State {
    /// The parts of a new instance.
    fn new() -> (state: State)
        ensures
            state@ == ContractView::empty(),
    {
        let state = State {
            roles: RoleRegistry::new(),
            fees: FeeConfig::new(),
            escrows: HashMap::new(),
            in_flight: HashSet::new(),
        };
        assert(state@.escrows =~= Map::<u64, EscrowView>::empty());
        state
    }

    /// The settlement of `gross` out of custody for the escrow
    /// `escrow_id`: the net amount that `beneficiary` is credited with, and
    /// the transfers of the fee and of the net amount.
    fn settle(&self, escrow_id: u64, token: Address, gross: i128, beneficiary: Address) -> (r:
        Result<(i128, Vec<Transfer>), Error>)
        requires
            0 <= gross,
        ensures
            match r {
                Ok((net, transfers)) => {
                    &&& self@.settlement(escrow_id, token, gross, beneficiary) == Ok::<
                        Seq<Transfer>,
                        Error,
                    >(transfers@)
                    &&& net == gross - self@.fee_on(escrow_id, token, gross)
                    &&& 0 <= net <= gross
                },
                Err(error) => self@.settlement(escrow_id, token, gross, beneficiary) == Err::<
                    Seq<Transfer>,
                    Error,
                >(error),
            },
    {
        if self.in_flight.contains(&escrow_id) {
            return Err(Error::ReentrancyDetected);
        }
        let bps = self.fees.rate(escrow_id, token);
        let fee = fee_amount(gross, bps);
        if fee > 0 && self.roles.treasury.is_none() {
            return Err(Error::TreasuryNotInitialized);
        }
        let net = gross - fee;
        Ok((net, payout(token, self.roles.treasury, beneficiary, fee, net)))
    }

    /// Puts `record` under its id, in place of an earlier record.
    fn store(&mut self, record: Escrow)
        requires
            old(self)@.wf(),
            record@.wf(),
        ensures
            final(self)@ == old(self)@.with_record(record.id, record@),
            final(self)@.wf(),
    {
        let id = record.id;
        self.escrows.insert(id, record);
        assert(self@.escrows =~= old(self)@.escrows.insert(id, record@));
    }

    /// Takes the record of the escrow `id` out, to be changed and stored
    /// again.
    fn withdraw(&mut self, id: u64) -> (record: Escrow)
        requires
            old(self)@.wf(),
            old(self)@.escrows.contains_key(id),
        ensures
            record@ == old(self)@.escrows[id],
            record@.wf(),
            record.id == id,
            final(self)@ == (ContractView { escrows: old(self)@.escrows.remove(id), ..old(self)@ }),
            final(self)@.wf(),
    {
        let taken = self.escrows.remove(&id);
        assert(self@.escrows =~= old(self)@.escrows.remove(id));
        taken.unwrap()
    }

    /// Marks the escrow `id` as being settled.
    fn hold(&mut self, id: u64)
        ensures
            final(self)@ == (ContractView {
                in_flight: old(self)@.in_flight.insert(id),
                ..old(self)@
            }),
    {
        self.in_flight.insert(id);
        assert(self@.escrows =~= old(self)@.escrows);
    }

    /// Puts the changed record of the escrow `id` back; with `settling`,
    /// a settlement of the escrow is in flight from now on.
    fn commit(&mut self, before: Ghost<ContractView>, record: Escrow, settling: bool)
        requires
            before@.wf(),
            before@.escrows.contains_key(record.id),
            old(self)@ == (ContractView {
                escrows: before@.escrows.remove(record.id),
                ..before@
            }),
            record@.wf(),
        ensures
            final(self)@ == if settling {
                before@.with_settling(record.id, record@)
            } else {
                before@.with_record(record.id, record@)
            },
            final(self)@.wf(),
    {
        let id = record.id;
        self.store(record);
        if settling {
            self.hold(id);
        }
        assert(self@.escrows =~= before@.escrows.insert(id, record@));
    }
}

/// A contract instance: roles, fee rates, the records of all escrows and
/// the markers of the settlements in flight.
pub struct VaultixContract {
    state: State,
}

impl View for VaultixContract {
    type V = ContractView;

    closed spec fn view(&self) -> ContractView {
        self.state@
    }
}

impl VaultixContract {
    #[verifier::type_invariant]
    pub closed spec fn inv(&self) -> bool {
        self@.wf()
    }

    /// A new instance: no role, no treasury, no rate, no record, not
    /// paused.
    pub fn new() -> (contract: VaultixContract)
        ensures
            contract@ == ContractView::empty(),
            contract@.wf(),
    {
        VaultixContract { state: State::new() }
    }

    /// Takes the parts out of the instance, which is left empty.
    fn take(&mut self) -> (state: State)
        ensures
            state@ == old(self)@,
            state@.wf(),
    {
        proof {
            use_type_invariant(&*self);
        }
        let mut state = State::new();
        core::mem::swap(&mut self.state, &mut state);
        state
    }

    /// Puts the parts back into the instance.
    fn put(&mut self, state: State)
        requires
            state@.wf(),
        ensures
            final(self)@ == state@,
            final(self)@.wf(),
    {
        let mut state = state;
        core::mem::swap(&mut self.state, &mut state);
    }

    /// The record of the escrow `id`. It meets the record invariant: the
    /// total is the sum of the milestone amounts, and what was released is
    /// the sum of the released ones, between zero and the total.
    pub fn get_escrow(&self, id: u64) -> (r: Result<&Escrow, Error>)
        ensures
            self@.wf(),
            match r {
                Ok(record) => {
                    &&& self@.escrows.contains_key(id)
                    &&& record@ == self@.escrows[id]
                    &&& record.id == id
                    &&& record@.wf()
                    &&& 0 <= record.total_released <= record.total_amount
                },
                Err(error) => error == Error::EscrowNotFound && !self@.escrows.contains_key(id),
            },
    {
        proof {
            use_type_invariant(self);
        }
        match self.state.escrows.get(&id) {
            Some(record) => {
                proof {
                    assert(self@.escrows.contains_key(id));
                    lemma_released_bounds(record.milestones@);
                }
                Ok(record)
            },
            None => Err(Error::EscrowNotFound),
        }
    }

    /// The roles, the treasury and the pause flag.
    pub fn roles(&self) -> (roles: &RoleRegistry)
        ensures
            *roles == self@.roles,
    {
        &self.state.roles
    }

    /// The fee rates.
    pub fn fees(&self) -> (fees: &FeeConfig)
        ensures
            fees@ == self@.fees,
            fees@.wf(),
    {
        proof {
            use_type_invariant(self);
        }
        &self.state.fees
    }

    /// Whether new commitments are refused.
    pub fn is_paused(&self) -> (paused: bool)
        ensures
            paused == self@.roles.paused,
    {
        self.state.roles.paused
    }

    /// Whether a settlement of the escrow `id` is in flight.
    pub fn is_settling(&self, id: u64) -> (settling: bool)
        ensures
            settling == self@.in_flight.contains(id),
    {
        self.state.in_flight.contains(&id)
    }

    /// The rate that applies to the escrow `id` held in `token`: the
    /// override of the escrow, else that of the token, else the global
    /// default, else zero.
    pub fn fee_bps(&self, id: u64, token: Address) -> (bps: u32)
        ensures
            bps == self@.fees.rate(id, token),
            bps <= BPS_DENOMINATOR,
    {
        self.state.fees.rate(id, token)
    }

    /// What a settlement of `gross` for the escrow `escrow_id`, held in
    /// `token`, would pay at this moment: the fee at the rate of the escrow
    /// to the treasury and the net amount to `beneficiary`. Returns the net
    /// amount and the transfers, the fee first; a part of zero is not
    /// transferred. Nothing changes.
    ///
    /// The settlement is refused with `ReentrancyDetected` while a
    /// settlement of the escrow is in flight, else with
    /// `TreasuryNotInitialized` if a fee is due and no treasury is named.
    pub fn quote_settlement(
        &self,
        escrow_id: u64,
        token: Address,
        gross: i128,
        beneficiary: Address,
    ) -> (r: Result<(i128, Vec<Transfer>), Error>)
        requires
            0 <= gross,
        ensures
            match r {
                Ok((net, transfers)) => {
                    &&& self@.settlement(escrow_id, token, gross, beneficiary) == Ok::<
                        Seq<Transfer>,
                        Error,
                    >(transfers@)
                    &&& net == gross - self@.fee_on(escrow_id, token, gross)
                    &&& 0 <= net <= gross
                },
                Err(error) => self@.settlement(escrow_id, token, gross, beneficiary) == Err::<
                    Seq<Transfer>,
                    Error,
                >(error),
            },
    {
        self.state.settle(escrow_id, token, gross, beneficiary)
    }

    /// Assigns the three roles, once. On an instance that holds a role
    /// already the call fails with `AlreadyInitialized`.
    pub fn init(&mut self, admin: Address, operator: Address, arbitrator: Address) -> (r: Result<
        (),
        Error,
    >)
        ensures
            final(self)@.wf(),
            match r {
                Ok(()) => old(self)@.init(admin, operator, arbitrator) == Ok::<ContractView, Error>(
                    final(self)@,
                ),
                Err(error) => old(self)@.init(admin, operator, arbitrator) == Err::<
                    ContractView,
                    Error,
                >(error) && final(self)@ == old(self)@,
            },
    {
        proof {
            use_type_invariant(&*self);
        }
        if self.state.roles.is_populated() {
            return Err(Error::AlreadyInitialized);
        }
        let mut state = self.take();
        let _ = state.roles.assign(admin, operator, arbitrator);
        assert(state@.escrows =~= old(self)@.escrows);
        self.put(state);
        Ok(())
    }

    /// Names the treasury, to which fees are paid, and sets the global
    /// default rate, once. The call fails with `AlreadyInitialized` if a
    /// treasury is named already, else with `InvalidFeeConfiguration` if the
    /// rate is above the denominator.
    pub fn initialize(&mut self, treasury: Address, default_fee_bps: Option<u32>) -> (r: Result<
        (),
        Error,
    >)
        ensures
            final(self)@.wf(),
            match r {
                Ok(()) => old(self)@.initialize(treasury, default_fee_bps) == Ok::<
                    ContractView,
                    Error,
                >(final(self)@),
                Err(error) => old(self)@.initialize(treasury, default_fee_bps) == Err::<
                    ContractView,
                    Error,
                >(error) && final(self)@ == old(self)@,
            },
    {
        proof {
            use_type_invariant(&*self);
        }
        if self.state.roles.treasury.is_some() {
            return Err(Error::AlreadyInitialized);
        }
        if let Some(bps) = default_fee_bps {
            if bps > BPS_DENOMINATOR {
                return Err(Error::InvalidFeeConfiguration);
            }
        }
        let mut state = self.take();
        state.roles.treasury = Some(treasury);
        let _ = state.fees.set_global_default(default_fee_bps);
        assert(state@.escrows =~= old(self)@.escrows);
        self.put(state);
        Ok(())
    }

    /// Sets the pause flag and returns the operator, whose authorization
    /// the host has to verify. Without an operator the call fails with
    /// `OperatorNotInitialized`.
    pub fn set_paused(&mut self, paused: bool) -> (r: Result<Address, Error>)
        ensures
            final(self)@.wf(),
            match r {
                Ok(operator) => old(self)@.set_paused(paused) == Ok::<
                    (ContractView, Address),
                    Error,
                >((final(self)@, operator)),
                Err(error) => old(self)@.set_paused(paused) == Err::<
                    (ContractView, Address),
                    Error,
                >(error) && final(self)@ == old(self)@,
            },
    {
        proof {
            use_type_invariant(&*self);
        }
        let operator = match self.state.roles.operator {
            Some(operator) => operator,
            None => {
                return Err(Error::OperatorNotInitialized);
            },
        };
        let mut state = self.take();
        state.roles.paused = paused;
        assert(state@.escrows =~= old(self)@.escrows);
        self.put(state);
        Ok(operator)
    }

    /// Stores `bps` as the rate of every escrow held in `token`, whether
    /// such an escrow exists or not, in place of an earlier override. A rate
    /// above the denominator is refused with `InvalidFeeConfiguration`.
    pub fn set_token_fee(&mut self, token: Address, bps: u32) -> (r: Result<(), Error>)
        ensures
            final(self)@.wf(),
            match r {
                Ok(()) => old(self)@.set_token_fee(token, bps) == Ok::<ContractView, Error>(
                    final(self)@,
                ),
                Err(error) => old(self)@.set_token_fee(token, bps) == Err::<ContractView, Error>(
                    error,
                ) && final(self)@ == old(self)@,
            },
    {
        proof {
            use_type_invariant(&*self);
        }
        if bps > BPS_DENOMINATOR {
            return Err(Error::InvalidFeeConfiguration);
        }
        let mut state = self.take();
        let _ = state.fees.set_token_fee(token, bps);
        assert(state@.escrows =~= old(self)@.escrows);
        self.put(state);
        Ok(())
    }

    /// Stores `bps` as the rate of the escrow `id`, whether it exists or
    /// not, in place of an earlier override. A rate above the denominator is
    /// refused with `InvalidFeeConfiguration`.
    pub fn set_escrow_fee(&mut self, id: u64, bps: u32) -> (r: Result<(), Error>)
        ensures
            final(self)@.wf(),
            match r {
                Ok(()) => old(self)@.set_escrow_fee(id, bps) == Ok::<ContractView, Error>(
                    final(self)@,
                ),
                Err(error) => old(self)@.set_escrow_fee(id, bps) == Err::<ContractView, Error>(
                    error,
                ) && final(self)@ == old(self)@,
            },
    {
        proof {
            use_type_invariant(&*self);
        }
        if bps > BPS_DENOMINATOR {
            return Err(Error::InvalidFeeConfiguration);
        }
        let mut state = self.take();
        let _ = state.fees.set_escrow_fee(id, bps);
        assert(state@.escrows =~= old(self)@.escrows);
        self.put(state);
        Ok(())
    }

    /// Creates the escrow `id` between `depositor` and `recipient` over
    /// `milestones`, to be paid in `token`.
    ///
    /// The call is refused, in this order, with `ContractPaused` while the
    /// contract is paused, `SelfDealing` if the two parties are the same,
    /// `EscrowAlreadyExists` if the id is taken, `NoMilestones` or
    /// `TooManyMilestones` by the number of milestones, `ZeroAmount` if one
    /// of the amounts is not positive, and `AmountOverflow` if the amounts
    /// add up beyond the range of an amount. Otherwise the record is stored
    /// with every milestone pending and the total the sum of the amounts.
    pub fn create_escrow(
        &mut self,
        id: u64,
        depositor: Address,
        recipient: Address,
        token: Address,
        milestones: Vec<Milestone>,
        deadline: u64,
    ) -> (r: Result<Outcome, Error>)
        ensures
            old(self)@.create_escrow(id, depositor, recipient, token, milestones@, deadline).yields(
                final(self)@,
                r,
            ),
            final(self)@.wf(),
    {
        proof {
            use_type_invariant(&*self);
        }
        if self.state.roles.paused {
            return Err(Error::ContractPaused);
        }
        if depositor == recipient {
            return Err(Error::SelfDealing);
        }
        if self.state.escrows.contains_key(&id) {
            return Err(Error::EscrowAlreadyExists);
        }
        let total = match validate_milestones(&milestones) {
            Ok(total) => total,
            Err(error) => {
                return Err(error);
            },
        };
        let record = Escrow::create(id, depositor, recipient, token, milestones, total, deadline);
        let mut state = self.take();
        state.store(record);
        self.put(state);
        Ok(
            Outcome {
                authorizer: depositor,
                transfers: Vec::new(),
                event: Event::EscrowCreated {
                    escrow_id: id,
                    depositor,
                    recipient,
                    token,
                    total_amount: total,
                    deadline,
                },
            },
        )
    }

    /// Takes the whole amount of the escrow `id` from the depositor into
    /// custody and activates the escrow.
    ///
    /// The call is refused, in this order, with `ContractPaused` while the
    /// contract is paused, `EscrowNotFound`, `EscrowAlreadyFunded` on an
    /// active escrow and `InvalidEscrowStatus` on one in any other status
    /// but `Created`.
    pub fn deposit_funds(&mut self, id: u64) -> (r: Result<Outcome, Error>)
        ensures
            old(self)@.deposit_funds(id).yields(final(self)@, r),
            final(self)@.wf(),
    {
        proof {
            use_type_invariant(&*self);
        }
        if self.state.roles.paused {
            return Err(Error::ContractPaused);
        }
        let status = match self.state.escrows.get(&id) {
            None => {
                return Err(Error::EscrowNotFound);
            },
            Some(record) => match next_status(record.status, Operation::Deposit) {
                Err(error) => {
                    return Err(error);
                },
                Ok(status) => status,
            },
        };
        let ghost before = self@;
        let mut state = self.take();
        let mut record = state.withdraw(id);
        proof {
            lemma_steps_keep_wf(record@);
        }
        record.set_status(status);
        let depositor = record.depositor;
        let token = record.token_address;
        let amount = record.total_amount;
        state.commit(Ghost(before), record, false);
        self.put(state);
        let mut transfers: Vec<Transfer> = Vec::new();
        transfers.push(
            Transfer { token, from: Account::Holder(depositor), to: Account::Custody, amount },
        );
        assert(transfers@ =~= seq![
            Transfer { token, from: Account::Holder(depositor), to: Account::Custody, amount },
        ]);
        Ok(
            Outcome {
                authorizer: depositor,
                transfers,
                event: Event::EscrowFunded { escrow_id: id, amount },
            },
        )
    }

    /// The release of a milestone, on behalf of `caller` if one is named.
    fn release(&mut self, id: u64, index: u32, caller: Option<Address>) -> (r: Result<
        Outcome,
        Error,
    >)
        ensures
            old(self)@.release(id, index, caller).yields(final(self)@, r),
            final(self)@.wf(),
    {
        proof {
            use_type_invariant(&*self);
        }
        let record = match self.state.escrows.get(&id) {
            None => {
                return Err(Error::EscrowNotFound);
            },
            Some(record) => record,
        };
        assert(self@.escrows.contains_key(id) && record@ == self@.escrows[id]);
        if let Some(who) = caller {
            if who != record.depositor {
                return Err(Error::Unauthorized);
            }
        }
        if let Err(error) = next_status(record.status, Operation::Release) {
            return Err(error);
        }
        if index as usize >= record.milestones.len() {
            return Err(Error::MilestoneNotFound);
        }
        if record.milestones[index as usize].status != MilestoneStatus::Pending {
            return Err(Error::MilestoneAlreadyReleased);
        }
        let amount = record.milestones[index as usize].amount;
        let depositor = record.depositor;
        let transfers = match self.state.settle(id, record.token_address, amount, record.recipient) {
            Err(error) => {
                return Err(error);
            },
            Ok((_, transfers)) => transfers,
        };
        let ghost before = self@;
        let mut state = self.take();
        let mut record = state.withdraw(id);
        record.release(index as usize);
        state.commit(Ghost(before), record, true);
        self.put(state);
        Ok(
            Outcome {
                authorizer: depositor,
                transfers,
                event: Event::MilestoneReleased { escrow_id: id, index, amount },
            },
        )
    }

    /// Releases the milestone `index` of the escrow `id`: its amount less
    /// the fee goes to the recipient, the fee to the treasury, and the
    /// amount is added to what the escrow has released. The escrow stays
    /// active, also when this was its last pending milestone.
    ///
    /// The call is refused, in this order, with `EscrowNotFound`,
    /// `EscrowNotActive` unless the escrow is active, `MilestoneNotFound` if
    /// the index is out of range, `MilestoneAlreadyReleased` unless the
    /// milestone is pending, `ReentrancyDetected` while a settlement of the
    /// escrow is in flight, and `TreasuryNotInitialized` if a fee is due and
    /// no treasury is named. On success a settlement of the escrow is in
    /// flight until [`VaultixContract::finish_settlement`] is called.
    pub fn release_milestone(&mut self, id: u64, index: u32) -> (r: Result<Outcome, Error>)
        ensures
            old(self)@.release_milestone(id, index).yields(final(self)@, r),
            final(self)@.wf(),
    {
        self.release(id, index, None)
    }

    /// Releases the milestone `index` of the escrow `id` on the word of
    /// `caller`, as [`VaultixContract::release_milestone`] does. A caller
    /// other than the depositor is refused with `Unauthorized`, before the
    /// status of the escrow is looked at.
    pub fn confirm_delivery(&mut self, id: u64, index: u32, caller: Address) -> (r: Result<
        Outcome,
        Error,
    >)
        ensures
            old(self)@.confirm_delivery(id, index, caller).yields(final(self)@, r),
            final(self)@.wf(),
    {
        self.release(id, index, Some(caller))
    }

    /// Closes the escrow `id`, of which every milestone has been released.
    ///
    /// The call is refused, in this order, with `EscrowNotFound`,
    /// `EscrowNotActive` unless the escrow is active, and
    /// `MilestonesOutstanding` if a milestone is not released.
    pub fn complete_escrow(&mut self, id: u64) -> (r: Result<Outcome, Error>)
        ensures
            old(self)@.complete_escrow(id).yields(final(self)@, r),
            final(self)@.wf(),
    {
        proof {
            use_type_invariant(&*self);
        }
        let record = match self.state.escrows.get(&id) {
            None => {
                return Err(Error::EscrowNotFound);
            },
            Some(record) => record,
        };
        assert(self@.escrows.contains_key(id) && record@ == self@.escrows[id]);
        let status = match next_status(record.status, Operation::Complete) {
            Err(error) => {
                return Err(error);
            },
            Ok(status) => status,
        };
        if !record.is_fully_released() {
            return Err(Error::MilestonesOutstanding);
        }
        let depositor = record.depositor;
        let ghost before = self@;
        let mut state = self.take();
        let mut record = state.withdraw(id);
        proof {
            lemma_steps_keep_wf(record@);
        }
        record.set_status(status);
        state.commit(Ghost(before), record, false);
        self.put(state);
        Ok(
            Outcome {
                authorizer: depositor,
                transfers: Vec::new(),
                event: Event::EscrowCompleted { escrow_id: id },
            },
        )
    }

    /// Calls the escrow `id` off. Of an active escrow the unreleased
    /// balance is settled: the fee goes to the treasury and the rest back
    /// to the depositor. Of an escrow that was never funded nothing moves.
    ///
    /// The call is refused, in this order, with `EscrowNotFound`,
    /// `InvalidEscrowStatus` unless the escrow is `Created` or `Active`, and
    /// on an active escrow with `ReentrancyDetected` while a settlement of
    /// it is in flight and `TreasuryNotInitialized` if a fee is due and no
    /// treasury is named. After the cancellation of an active escrow a
    /// settlement is in flight until
    /// [`VaultixContract::finish_settlement`] is called.
    pub fn cancel_escrow(&mut self, id: u64) -> (r: Result<Outcome, Error>)
        ensures
            old(self)@.cancel_escrow(id).yields(final(self)@, r),
            final(self)@.wf(),
    {
        proof {
            use_type_invariant(&*self);
        }
        let record = match self.state.escrows.get(&id) {
            None => {
                return Err(Error::EscrowNotFound);
            },
            Some(record) => record,
        };
        assert(self@.escrows.contains_key(id) && record@ == self@.escrows[id]);
        let status = match next_status(record.status, Operation::Cancel) {
            Err(error) => {
                return Err(error);
            },
            Ok(status) => status,
        };
        let depositor = record.depositor;
        let funded = record.status == EscrowStatus::Active;
        let mut refund: i128 = 0;
        let mut transfers: Vec<Transfer> = Vec::new();
        if funded {
            refund = record.remaining();
            transfers = match self.state.settle(id, record.token_address, refund, depositor) {
                Err(error) => {
                    return Err(error);
                },
                Ok((_, transfers)) => transfers,
            };
        }
        let ghost before = self@;
        let mut state = self.take();
        let mut record = state.withdraw(id);
        proof {
            lemma_steps_keep_wf(record@);
        }
        record.set_status(status);
        state.commit(Ghost(before), record, funded);
        self.put(state);
        Ok(
            Outcome {
                authorizer: depositor,
                transfers,
                event: Event::EscrowCancelled { escrow_id: id, refund },
            },
        )
    }

    /// Gives the unreleased balance of the escrow `id` back to the
    /// depositor, who asks for it at the time `now`, once the deadline is
    /// reached: the fee goes to the treasury and the rest to the depositor.
    ///
    /// The call is refused, in this order, with `EscrowNotFound`,
    /// `Unauthorized` unless `caller` is the depositor, `EscrowNotActive`
    /// unless the escrow is active, `DeadlineNotReached` if `now` is before
    /// the deadline, `ReentrancyDetected` while a settlement of the escrow
    /// is in flight, and `TreasuryNotInitialized` if a fee is due and no
    /// treasury is named. On success a settlement is in flight until
    /// [`VaultixContract::finish_settlement`] is called.
    pub fn refund_expired(&mut self, id: u64, caller: Address, now: u64) -> (r: Result<
        Outcome,
        Error,
    >)
        ensures
            old(self)@.refund_expired(id, caller, now).yields(final(self)@, r),
            final(self)@.wf(),
    {
        proof {
            use_type_invariant(&*self);
        }
        let record = match self.state.escrows.get(&id) {
            None => {
                return Err(Error::EscrowNotFound);
            },
            Some(record) => record,
        };
        assert(self@.escrows.contains_key(id) && record@ == self@.escrows[id]);
        if caller != record.depositor {
            return Err(Error::Unauthorized);
        }
        let status = match next_status(record.status, Operation::RefundExpired) {
            Err(error) => {
                return Err(error);
            },
            Ok(status) => status,
        };
        if now < record.deadline {
            return Err(Error::DeadlineNotReached);
        }
        let refund = record.remaining();
        let transfers = match self.state.settle(id, record.token_address, refund, caller) {
            Err(error) => {
                return Err(error);
            },
            Ok((_, transfers)) => transfers,
        };
        let ghost before = self@;
        let mut state = self.take();
        let mut record = state.withdraw(id);
        proof {
            lemma_steps_keep_wf(record@);
        }
        record.set_status(status);
        state.commit(Ghost(before), record, true);
        self.put(state);
        Ok(
            Outcome {
                authorizer: caller,
                transfers,
                event: Event::EscrowRefunded { escrow_id: id, refund },
            },
        )
    }

    /// Raises a dispute over the escrow `id`: every pending milestone is
    /// marked disputed, released ones stay released, no resolution is
    /// recorded, and the escrow is `Disputed`.
    ///
    /// The call is refused, in this order, with `EscrowNotFound`,
    /// `Unauthorized` unless `caller` is the depositor or the recipient, and
    /// `InvalidEscrowStatus` unless the escrow is active.
    pub fn raise_dispute(&mut self, id: u64, caller: Address) -> (r: Result<Outcome, Error>)
        ensures
            old(self)@.raise_dispute(id, caller).yields(final(self)@, r),
            final(self)@.wf(),
    {
        proof {
            use_type_invariant(&*self);
        }
        let record = match self.state.escrows.get(&id) {
            None => {
                return Err(Error::EscrowNotFound);
            },
            Some(record) => record,
        };
        assert(self@.escrows.contains_key(id) && record@ == self@.escrows[id]);
        if !record.is_party(caller) {
            return Err(Error::Unauthorized);
        }
        if let Err(error) = next_status(record.status, Operation::RaiseDispute) {
            return Err(error);
        }
        let ghost before = self@;
        let mut state = self.take();
        let mut record = state.withdraw(id);
        record.dispute();
        state.commit(Ghost(before), record, false);
        self.put(state);
        Ok(
            Outcome {
                authorizer: caller,
                transfers: Vec::new(),
                event: Event::DisputeRaised { escrow_id: id, raised_by: caller },
            },
        )
    }

    /// Decides the dispute over the escrow `id` for `winner`. The
    /// unreleased balance is settled: the fee goes to the treasury and the
    /// rest to the winner. For the recipient every milestone is marked
    /// released and the whole amount counts as released; for the depositor
    /// what was not released is marked disputed and the released total
    /// stays. The pause flag does not stand in the way.
    ///
    /// The call is refused, in this order, with `ArbitratorNotInitialized`
    /// if no arbitrator is appointed, `EscrowNotFound`,
    /// `InvalidEscrowStatus` unless the escrow is disputed, `InvalidWinner`
    /// unless the winner is a party of the escrow, `ReentrancyDetected`
    /// while a settlement of the escrow is in flight, and
    /// `TreasuryNotInitialized` if a fee is due and no treasury is named.
    /// On success a settlement is in flight until
    /// [`VaultixContract::finish_settlement`] is called.
    pub fn resolve_dispute(&mut self, id: u64, winner: Address, note: Option<String>) -> (r: Result<
        Outcome,
        Error,
    >)
        ensures
            old(self)@.resolve_dispute(id, winner, note).yields(final(self)@, r),
            final(self)@.wf(),
    {
        proof {
            use_type_invariant(&*self);
        }
        let arbitrator = match self.state.roles.arbitrator {
            None => {
                return Err(Error::ArbitratorNotInitialized);
            },
            Some(arbitrator) => arbitrator,
        };
        let record = match self.state.escrows.get(&id) {
            None => {
                return Err(Error::EscrowNotFound);
            },
            Some(record) => record,
        };
        assert(self@.escrows.contains_key(id) && record@ == self@.escrows[id]);
        if let Err(error) = next_status(record.status, Operation::Resolve) {
            return Err(error);
        }
        if !record.is_party(winner) {
            return Err(Error::InvalidWinner);
        }
        let rest = record.remaining();
        let transfers = match self.state.settle(id, record.token_address, rest, winner) {
            Err(error) => {
                return Err(error);
            },
            Ok((_, transfers)) => transfers,
        };
        let ghost before = self@;
        let mut state = self.take();
        let mut record = state.withdraw(id);
        record.resolve(winner);
        state.commit(Ghost(before), record, true);
        self.put(state);
        Ok(
            Outcome {
                authorizer: arbitrator,
                transfers,
                event: Event::DisputeResolved { escrow_id: id, winner, note },
            },
        )
    }

    /// Tells the instance that the transfers of the settlement of the
    /// escrow `id` are done and its record is saved: the escrow may be
    /// settled again. Without a settlement in flight nothing changes.
    pub fn finish_settlement(&mut self, id: u64)
        ensures
            final(self)@ == old(self)@.finish_settlement(id),
            final(self)@.wf(),
    {
        let mut state = self.take();
        state.in_flight.remove(&id);
        assert(state@.escrows =~= old(self)@.escrows);
        self.put(state);
    }

    /// Takes a record from storage into the instance, together with
    /// whether a settlement of it is in flight.
    ///
    /// The call is refused with `InvalidRecord` if the record breaks the
    /// record invariant, else with `EscrowAlreadyExists` if its id is taken.
    pub fn restore_escrow(&mut self, record: Escrow, settling: bool) -> (r: Result<(), Error>)
        ensures
            final(self)@.wf(),
            match r {
                Ok(()) => old(self)@.restore_escrow(record@, settling) == Ok::<
                    ContractView,
                    Error,
                >(final(self)@),
                Err(error) => old(self)@.restore_escrow(record@, settling) == Err::<
                    ContractView,
                    Error,
                >(error) && final(self)@ == old(self)@,
            },
    {
        proof {
            use_type_invariant(&*self);
        }
        if !record.is_valid() {
            return Err(Error::InvalidRecord);
        }
        let id = record.id;
        if self.state.escrows.contains_key(&id) {
            return Err(Error::EscrowAlreadyExists);
        }
        let mut state = self.take();
        state.store(record);
        if settling {
            state.hold(id);
        }
        self.put(state);
        Ok(())
    }
}

} // verus!
