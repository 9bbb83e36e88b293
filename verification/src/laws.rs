//! What holds of the engine as a whole: statements about every state, every
//! call and sequences of calls, proved of the state machine that the
//! operations of [`crate::contract::VaultixContract`] implement.

use vstd::prelude::*;
use crate::effects::{lemma_payout_total, payout_transfers, transferred, OutcomeView};
use crate::errors::Error;
use crate::fees::{fee_of, lemma_fee_bounds, FeeView, BPS_DENOMINATOR};
use crate::lifecycle::{
    is_terminal, lemma_created_wf, lemma_release_keeps_wf, lemma_steps_keep_wf, milestones_verdict,
};
use crate::model::{Call, ContractView};
use crate::roles::RoleRegistry;
use crate::types::{
    all_positive, all_released, lemma_released_bounds, released_of, total_of, Address,
    EscrowStatus, EscrowView, Milestone, MilestoneStatus, Resolution, MAX_MILESTONES,
};

verus! {

/// In a valid record the released total lies between zero and the total
/// amount, and the total amount is the sum of the milestone amounts.
pub proof fn law_released_within_total(record: EscrowView)
    requires
        record.wf(),
    ensures
        0 <= record.total_released <= record.total_amount,
        record.total_amount == total_of(record.milestones),
        record.total_released == released_of(record.milestones),
        record.total_amount > 0,
{
    lemma_released_bounds(record.milestones);
}

/// A refused call changes nothing.
pub proof fn law_refusal_changes_nothing(state: ContractView, call: Call)
    requires
        state.step(call).result is Err,
    ensures
        state.step(call).next == state,
{
}

/// Every call keeps the invariant of the contract: whatever happens to an
/// escrow, its total stays the sum of its milestone amounts and its
/// released total within the total.
pub proof fn law_calls_keep_invariant(state: ContractView, call: Call)
    requires
        state.wf(),
    ensures
        state.step(call).next.wf(),
{
    let next = state.step(call).next;
    let id = call.subject();
    if state.step(call).result is Ok {
        match call {
            Call::CreateEscrow { id, depositor, recipient, token, milestones, deadline } => {
                lemma_created_wf(id, depositor, recipient, token, milestones, deadline);
            },
            Call::ReleaseMilestone { id, index } => {
                lemma_release_keeps_wf(state.escrows[id], index as int);
            },
            Call::ConfirmDelivery { id, index, caller } => {
                lemma_release_keeps_wf(state.escrows[id], index as int);
            },
            _ => {
                lemma_steps_keep_wf(state.escrows[id]);
            },
        }
        assert forall|other: u64| #[trigger] next.escrows.contains_key(other) implies next.escrows[other].wf()
            && next.escrows[other].id == other by {
            if other != id {
                assert(state.escrows.contains_key(other));
            }
        }
    }
}

/// Assigning roles, naming the treasury and pausing keep the invariant of
/// the contract.
pub proof fn law_registry_keeps_invariant(
    state: ContractView,
    admin: Address,
    operator: Address,
    arbitrator: Address,
    treasury: Address,
    default_fee_bps: Option<u32>,
    paused: bool,
)
    requires
        state.wf(),
    ensures
        state.init(admin, operator, arbitrator) matches Ok(next) ==> next.wf(),
        state.initialize(treasury, default_fee_bps) matches Ok(next) ==> next.wf(),
        state.set_paused(paused) matches Ok(next) ==> next.0.wf(),
{
}

/// Setting a rate keeps the invariant of the contract: no stored rate
/// exceeds the denominator.
pub proof fn law_rates_keep_invariant(state: ContractView, token: Address, id: u64, bps: u32)
    requires
        state.wf(),
    ensures
        state.set_token_fee(token, bps) matches Ok(next) ==> next.wf(),
        state.set_escrow_fee(id, bps) matches Ok(next) ==> next.wf(),
        state.set_token_fee(token, bps) is Ok <==> bps <= BPS_DENOMINATOR,
        state.set_escrow_fee(id, bps) is Ok <==> bps <= BPS_DENOMINATOR,
{
}

/// Ending a settlement and taking a record from storage keep the
/// invariant of the contract.
pub proof fn law_storage_keeps_invariant(
    state: ContractView,
    id: u64,
    record: EscrowView,
    settling: bool,
)
    requires
        state.wf(),
    ensures
        state.finish_settlement(id).wf(),
        state.restore_escrow(record, settling) matches Ok(next) ==> next.wf(),
{
    if let Ok(next) = state.restore_escrow(record, settling) {
        assert forall|other: u64| #[trigger] next.escrows.contains_key(other) implies next.escrows[other].wf()
            && next.escrows[other].id == other by {
            if other != record.id {
                assert(state.escrows.contains_key(other));
            }
        }
    }
}

/// Roles are assigned once and the treasury is named once: a second
/// `init` or `initialize` is refused with `AlreadyInitialized`, and no call
/// on an escrow touches the roles, the treasury, the pause flag or the
/// rates.
pub proof fn law_roles_are_assigned_once(
    state: ContractView,
    admin: Address,
    operator: Address,
    arbitrator: Address,
    treasury: Address,
    default_fee_bps: Option<u32>,
    call: Call,
)
    ensures
        state.init(admin, operator, arbitrator) matches Ok(next) ==> forall|
            a: Address,
            o: Address,
            r: Address,
        |
            next.init(a, o, r) == Err::<ContractView, Error>(Error::AlreadyInitialized),
        state.initialize(treasury, default_fee_bps) matches Ok(next) ==> forall|
            t: Address,
            bps: Option<u32>,
        |
            next.initialize(t, bps) == Err::<ContractView, Error>(Error::AlreadyInitialized),
        state.step(call).next.roles == state.roles,
        state.step(call).next.fees == state.fees,
{
}

/// No call removes a record, and no call changes the parties, the token,
/// the deadline, the total or the amount of a milestone of a record.
pub proof fn law_records_are_kept(state: ContractView, call: Call, id: u64)
    requires
        state.escrows.contains_key(id),
    ensures
        state.step(call).next.escrows.contains_key(id),
        ({
            let before = state.escrows[id];
            let after = state.step(call).next.escrows[id];
            &&& after.id == before.id
            &&& after.depositor == before.depositor
            &&& after.recipient == before.recipient
            &&& after.token_address == before.token_address
            &&& after.deadline == before.deadline
            &&& after.total_amount == before.total_amount
            &&& after.milestones.len() == before.milestones.len()
            &&& forall|i: int|
                0 <= i < before.milestones.len() ==> (#[trigger] after.milestones[i]).amount
                    == before.milestones[i].amount && after.milestones[i].description
                    == before.milestones[i].description
        }),
{
}

/// A milestone that was released stays released, whatever is called.
pub proof fn law_released_stays_released(state: ContractView, call: Call, id: u64, index: int)
    requires
        state.escrows.contains_key(id),
        0 <= index < state.escrows[id].milestones.len(),
        state.escrows[id].milestones[index].status == MilestoneStatus::Released,
    ensures
        state.step(call).next.escrows.contains_key(id),
        index < state.step(call).next.escrows[id].milestones.len(),
        state.step(call).next.escrows[id].milestones[index].status == MilestoneStatus::Released,
{
}

/// The released total of an escrow never goes down.
pub proof fn law_released_total_grows(state: ContractView, call: Call, id: u64)
    requires
        state.wf(),
        state.escrows.contains_key(id),
    ensures
        state.step(call).next.escrows.contains_key(id),
        state.step(call).next.escrows[id].total_released >= state.escrows[id].total_released,
{
    let record = state.escrows[id];
    lemma_released_bounds(record.milestones);
    if state.step(call).result is Ok && call.subject() == id {
        match call {
            Call::ReleaseMilestone { id, index } => {
                lemma_release_keeps_wf(record, index as int);
            },
            Call::ConfirmDelivery { id, index, caller } => {
                lemma_release_keeps_wf(record, index as int);
            },
            _ => {},
        }
    }
}

/// No call succeeds on an escrow in a terminal status: the record of a
/// resolved, completed or cancelled escrow is final.
pub proof fn law_terminal_records_are_final(state: ContractView, call: Call)
    requires
        state.escrows.contains_key(call.subject()),
        is_terminal(state.escrows[call.subject()].status),
    ensures
        state.step(call).result is Err,
        state.step(call).next == state,
{
}

/// The rate of an escrow is its own override where it has one; else the
/// override of its token where that has one; else the global default where
/// one is set; else zero.
pub proof fn law_fee_precedence(fees: FeeView, escrow_id: u64, token: Address)
    ensures
        fees.escrow_overrides.contains_key(escrow_id) ==> fees.rate(escrow_id, token)
            == fees.escrow_overrides[escrow_id],
        !fees.escrow_overrides.contains_key(escrow_id) && fees.token_overrides.contains_key(
            token.id,
        ) ==> fees.rate(escrow_id, token) == fees.token_overrides[token.id],
        !fees.escrow_overrides.contains_key(escrow_id) && !fees.token_overrides.contains_key(
            token.id,
        ) ==> fees.rate(escrow_id, token) == match fees.global_default_bps {
            Some(bps) => bps,
            None => 0,
        },
{
}

/// A settlement moves exactly the amount it settles: the fee and the net
/// payout add up to it, neither is negative, and there are at most two
/// transfers.
pub proof fn law_settlement_is_exact(
    state: ContractView,
    escrow_id: u64,
    token: Address,
    gross: i128,
    beneficiary: Address,
)
    requires
        state.wf(),
        0 <= gross,
        state.settlement(escrow_id, token, gross, beneficiary) is Ok,
    ensures
        ({
            let transfers = state.settlement(escrow_id, token, gross, beneficiary)->Ok_0;
            let fee = state.fee_on(escrow_id, token, gross);
            &&& fee == fee_of(gross as int, state.fees.rate(escrow_id, token) as int)
            &&& 0 <= fee <= gross
            &&& transferred(transfers) == gross
            &&& transfers.len() <= 2
            &&& transfers == payout_transfers(
                token,
                state.roles.treasury,
                beneficiary,
                fee,
                (gross - fee) as i128,
            )
        }),
{
    let bps = state.fees.rate(escrow_id, token);
    lemma_fee_bounds(gross as int, bps as int);
    let fee = state.fee_on(escrow_id, token, gross);
    lemma_payout_total(token, state.roles.treasury, beneficiary, fee, (gross - fee) as i128);
}

/// While a settlement of an escrow is in flight, no operation that would
/// settle that escrow again succeeds.
pub proof fn law_settlements_do_not_overlap(state: ContractView, call: Call)
    requires
        state.in_flight.contains(call.subject()),
        call is ReleaseMilestone || call is ConfirmDelivery || call is RefundExpired
            || call is ResolveDispute || (call is CancelEscrow && state.escrows.contains_key(
            call.subject(),
        ) && state.escrows[call.subject()].status != EscrowStatus::Created),
    ensures
        state.step(call).result is Err,
        state.step(call).next == state,
{
}

/// A successful release, refund or resolution, and the cancellation of a
/// funded escrow, leave a settlement in flight, which
/// `finish_settlement` ends.
pub proof fn law_settlement_marker(state: ContractView, call: Call)
    requires
        state.step(call).result is Ok,
        call is ReleaseMilestone || call is ConfirmDelivery || call is RefundExpired
            || call is ResolveDispute || (call is CancelEscrow
            && state.escrows[call.subject()].status == EscrowStatus::Active),
    ensures
        !state.in_flight.contains(call.subject()),
        state.step(call).next.in_flight.contains(call.subject()),
        !state.step(call).next.finish_settlement(call.subject()).in_flight.contains(
            call.subject(),
        ),
{
}

/// Funding is not idempotent: after a successful `deposit_funds` a second
/// one on the same escrow is refused with `EscrowAlreadyFunded`.
pub proof fn law_second_deposit_refused(state: ContractView, id: u64)
    requires
        state.deposit_funds(id).result is Ok,
    ensures
        state.deposit_funds(id).next.deposit_funds(id).result == Err::<
            OutcomeView,
            Error,
        >(Error::EscrowAlreadyFunded),
        state.deposit_funds(id).next.deposit_funds(id).next == state.deposit_funds(id).next,
{
}

/// A dispute freezes payouts: on a disputed escrow `release_milestone` is
/// refused with `EscrowNotActive` for every index, and so is
/// `confirm_delivery` by the depositor.
pub proof fn law_dispute_freezes_release(state: ContractView, id: u64, index: u32)
    requires
        state.escrows.contains_key(id),
        state.escrows[id].status == EscrowStatus::Disputed,
    ensures
        state.release_milestone(id, index).result == Err::<OutcomeView, Error>(
            Error::EscrowNotActive,
        ),
        state.confirm_delivery(id, index, state.escrows[id].depositor).result == Err::<
            OutcomeView,
            Error,
        >(Error::EscrowNotActive),
        state.release_milestone(id, index).next == state,
{
}

/// Once a dispute is raised, the escrow is disputed, with its released
/// total as before and no milestone pending; so no milestone can be
/// released.
pub proof fn law_raised_dispute_freezes_release(
    state: ContractView,
    id: u64,
    caller: Address,
    index: u32,
)
    requires
        state.raise_dispute(id, caller).result is Ok,
    ensures
        ({
            let next = state.raise_dispute(id, caller).next;
            &&& next.escrows.contains_key(id)
            &&& next.escrows[id].status == EscrowStatus::Disputed
            &&& next.escrows[id].resolution == Resolution::Unresolved
            &&& next.escrows[id].total_released == state.escrows[id].total_released
            &&& forall|i: int|
                0 <= i < next.escrows[id].milestones.len() ==> (
                #[trigger] next.escrows[id].milestones[i]).status == (if state.escrows[id].milestones[i].status
                    == MilestoneStatus::Pending {
                    MilestoneStatus::Disputed
                } else {
                    state.escrows[id].milestones[i].status
                })
            &&& next.release_milestone(id, index).result == Err::<
                OutcomeView,
                Error,
            >(Error::EscrowNotActive)
        }),
{
}

/// A resolution for the recipient pays out the whole remaining balance,
/// marks every milestone released and counts the whole amount as
/// released.
pub proof fn law_resolution_for_recipient(state: ContractView, id: u64, note: Option<String>)
    requires
        state.wf(),
        state.escrows.contains_key(id),
        state.resolve_dispute(id, state.escrows[id].recipient, note).result is Ok,
    ensures
        ({
            let before = state.escrows[id];
            let step = state.resolve_dispute(id, before.recipient, note);
            let after = step.next.escrows[id];
            &&& after.status == EscrowStatus::Resolved
            &&& after.resolution == Resolution::Recipient
            &&& all_released(after.milestones)
            &&& after.total_released == after.total_amount
            &&& after.total_amount == before.total_amount
            &&& transferred(step.result->Ok_0.transfers) == before.total_amount
                - before.total_released
            &&& step.result->Ok_0.transfers == payout_transfers(
                before.token_address,
                state.roles.treasury,
                before.recipient,
                state.fee_on(id, before.token_address, before.remaining() as i128),
                (before.remaining() - state.fee_on(
                    id,
                    before.token_address,
                    before.remaining() as i128,
                )) as i128,
            )
        }),
{
    let before = state.escrows[id];
    lemma_released_bounds(before.milestones);
    lemma_steps_keep_wf(before);
    law_settlement_is_exact(
        state,
        id,
        before.token_address,
        before.remaining() as i128,
        before.recipient,
    );
}

/// A resolution for the depositor releases nothing further: the released
/// total stays, released milestones stay released and the others are
/// marked disputed; the remaining balance goes back to the depositor.
pub proof fn law_resolution_for_depositor(state: ContractView, id: u64, note: Option<String>)
    requires
        state.wf(),
        state.escrows.contains_key(id),
        state.resolve_dispute(id, state.escrows[id].depositor, note).result is Ok,
    ensures
        ({
            let before = state.escrows[id];
            let step = state.resolve_dispute(id, before.depositor, note);
            let after = step.next.escrows[id];
            &&& after.status == EscrowStatus::Resolved
            &&& after.resolution == Resolution::Depositor
            &&& after.total_released == before.total_released
            &&& after.milestones.len() == before.milestones.len()
            &&& forall|i: int|
                0 <= i < after.milestones.len() ==> (#[trigger] after.milestones[i]).status == (
                if before.milestones[i].status == MilestoneStatus::Released {
                    MilestoneStatus::Released
                } else {
                    MilestoneStatus::Disputed
                })
            &&& transferred(step.result->Ok_0.transfers) == before.total_amount
                - before.total_released
            &&& step.result->Ok_0.transfers == payout_transfers(
                before.token_address,
                state.roles.treasury,
                before.depositor,
                state.fee_on(id, before.token_address, before.remaining() as i128),
                (before.remaining() - state.fee_on(
                    id,
                    before.token_address,
                    before.remaining() as i128,
                )) as i128,
            )
        }),
{
    let before = state.escrows[id];
    lemma_released_bounds(before.milestones);
    law_settlement_is_exact(
        state,
        id,
        before.token_address,
        before.remaining() as i128,
        before.depositor,
    );
}

/// From the raising of a dispute to its resolution for the depositor the
/// released total does not change.
pub proof fn law_dispute_for_depositor_releases_nothing(
    state: ContractView,
    id: u64,
    caller: Address,
    note: Option<String>,
)
    requires
        state.wf(),
        state.raise_dispute(id, caller).result is Ok,
        state.raise_dispute(id, caller).next.resolve_dispute(
            id,
            state.escrows[id].depositor,
            note,
        ).result is Ok,
    ensures
        state.raise_dispute(id, caller).next.resolve_dispute(
            id,
            state.escrows[id].depositor,
            note,
        ).next.escrows[id].total_released == state.escrows[id].total_released,
{
}

/// While the contract is not paused, `create_escrow` between an identity
/// and itself is refused with `SelfDealing`, whatever the id, the token,
/// the milestones and the deadline.
pub proof fn law_self_dealing_refused(
    state: ContractView,
    id: u64,
    party: Address,
    token: Address,
    milestones: Seq<Milestone>,
    deadline: u64,
)
    requires
        !state.roles.paused,
    ensures
        state.create_escrow(id, party, party, token, milestones, deadline).result == Err::<
            OutcomeView,
            Error,
        >(Error::SelfDealing),
        state.create_escrow(id, party, party, token, milestones, deadline).next == state,
{
}

/// While the contract is paused, `create_escrow` and `deposit_funds` are
/// refused with `ContractPaused`.
pub proof fn law_pause_refuses_commitments(
    state: ContractView,
    id: u64,
    depositor: Address,
    recipient: Address,
    token: Address,
    milestones: Seq<Milestone>,
    deadline: u64,
)
    requires
        state.roles.paused,
    ensures
        state.create_escrow(id, depositor, recipient, token, milestones, deadline).result == Err::<
            OutcomeView,
            Error,
        >(Error::ContractPaused),
        state.deposit_funds(id).result == Err::<OutcomeView, Error>(
            Error::ContractPaused,
        ),
{
}

/// The pause flag does not decide whether a dispute is resolved: the
/// resolution fails or succeeds alike on the paused and on the unpaused
/// contract, with the same transfers.
pub proof fn law_resolution_ignores_pause(
    state: ContractView,
    id: u64,
    winner: Address,
    note: Option<String>,
    paused: bool,
)
    ensures
        ({
            let other = ContractView {
                roles: RoleRegistry { paused, ..state.roles },
                ..state
            };
            other.resolve_dispute(id, winner, note).result == state.resolve_dispute(
                id,
                winner,
                note,
            ).result
        }),
{
}

/// The number of milestones decides at the boundary: a list of up to
/// [`MAX_MILESTONES`] positive amounts that add up within range is
/// accepted, and any longer list is refused with `TooManyMilestones`.
pub proof fn law_milestone_count_boundary(milestones: Seq<Milestone>)
    ensures
        milestones.len() > MAX_MILESTONES ==> milestones_verdict(milestones) == Err::<i128, Error>(
            Error::TooManyMilestones,
        ),
        1 <= milestones.len() <= MAX_MILESTONES && all_positive(milestones) && total_of(milestones)
            <= i128::MAX ==> milestones_verdict(milestones) == Ok::<i128, Error>(
            total_of(milestones) as i128,
        ),
{
    if 1 <= milestones.len() <= MAX_MILESTONES && all_positive(milestones) {
        lemma_released_bounds(milestones);
    }
}

} // verus!
