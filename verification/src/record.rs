//! Executable operations on a single record: validation of new milestones,
//! the check of the record invariant, and the rewriting that each lifecycle
//! step performs.

use vstd::prelude::*;
use crate::errors::Error;
use crate::lifecycle::{
    lemma_created_wf, lemma_release_keeps_wf, lemma_steps_keep_wf, milestones_verdict, released_at,
    restamped, Restamp,
};
use crate::types::{
    all_positive, all_released, lemma_released_bounds, lemma_sums_push, lemma_total_prefix,
    released_of, status_admits, total_of, Address, Escrow, EscrowStatus, EscrowView, Milestone,
    MilestoneStatus, Resolution, MAX_MILESTONES,
};

verus! {

/// Validates the milestones of a new escrow and adds up their amounts.
///
/// Fails with `NoMilestones` on an empty list, else with `TooManyMilestones`
/// on more than [`MAX_MILESTONES`], else with `ZeroAmount` if an amount is
/// zero or negative, else with `AmountOverflow` if the sum is out of range.
pub fn validate_milestones(milestones: &Vec<Milestone>) -> (r: Result<i128, Error>)
    ensures
        r == milestones_verdict(milestones@),
{
    let n = milestones.len();
    if n == 0 {
        return Err(Error::NoMilestones);
    }
    if n > MAX_MILESTONES {
        return Err(Error::TooManyMilestones);
    }
    let mut i: usize = 0;
    while i < n
        invariant
            n == milestones.len(),
            0 < n <= MAX_MILESTONES,
            0 <= i <= n,
            forall|j: int| 0 <= j < i ==> (#[trigger] milestones@[j]).amount > 0,
        decreases n - i,
    {
        if milestones[i].amount <= 0 {
            assert(!(milestones@[i as int].amount > 0));
            return Err(Error::ZeroAmount);
        }
        i += 1;
    }
    let mut total: i128 = 0;
    let mut k: usize = 0;
    while k < n
        invariant
            n == milestones.len(),
            0 < n <= MAX_MILESTONES,
            0 <= k <= n,
            all_positive(milestones@),
            total == total_of(milestones@.take(k as int)),
        decreases n - k,
    {
        let amount = milestones[k].amount;
        proof {
            lemma_total_prefix(milestones@, k as int);
            lemma_total_prefix(milestones@, k + 1);
            lemma_sums_push(milestones@.take(k as int), milestones@[k as int]);
            assert(milestones@.take(k as int).push(milestones@[k as int]) =~= milestones@.take(
                k + 1,
            ));
        }
        if amount > i128::MAX - total {
            return Err(Error::AmountOverflow);
        }
        total = total + amount;
        k += 1;
    }
    proof {
        assert(milestones@.take(n as int) =~= milestones@);
    }
    Ok(total)
}

/// Rewrites the status of every milestone by `rule`.
pub fn restamp(milestones: &mut Vec<Milestone>, rule: Restamp)
    ensures
        final(milestones)@ == restamped(old(milestones)@, rule),
{
    let n = milestones.len();
    let mut i: usize = 0;
    while i < n
        invariant
            n == milestones.len(),
            n == old(milestones).len(),
            0 <= i <= n,
            forall|j: int|
                0 <= j < i ==> #[trigger] milestones@[j] == (Milestone {
                    status: rule.apply(old(milestones)@[j].status),
                    ..old(milestones)@[j]
                }),
            forall|j: int| i <= j < n ==> #[trigger] milestones@[j] == old(milestones)@[j],
        decreases n - i,
    {
        let status = rule.stamp(milestones[i].status);
        milestones[i].status = status;
        i += 1;
    }
    assert(milestones@ =~= restamped(old(milestones)@, rule));
}

/// Whether a milestone may have the status `m` in a record with the given
/// status and resolution.
pub fn admits(status: EscrowStatus, resolution: Resolution, m: MilestoneStatus) -> (b: bool)
    ensures
        b == status_admits(status, resolution, m),
{
    match status {
        EscrowStatus::Created => m == MilestoneStatus::Pending,
        EscrowStatus::Active | EscrowStatus::Cancelled => m != MilestoneStatus::Disputed,
        EscrowStatus::Completed => m == MilestoneStatus::Released,
        EscrowStatus::Disputed => m != MilestoneStatus::Pending,
        EscrowStatus::Resolved => if resolution == Resolution::Recipient {
            m == MilestoneStatus::Released
        } else {
            m != MilestoneStatus::Pending
        },
    }
}

impl Escrow {
    /// Whether the record meets the record invariant.
    pub fn is_valid(&self) -> (ok: bool)
        ensures
            ok == self@.wf(),
    {
        let n = self.milestones.len();
        if n == 0 || n > MAX_MILESTONES {
            return false;
        }
        if self.depositor == self.recipient {
            return false;
        }
        if (self.status == EscrowStatus::Resolved) != (self.resolution != Resolution::Unresolved) {
            return false;
        }
        let mut total: i128 = 0;
        let mut released: i128 = 0;
        let mut i: usize = 0;
        while i < n
            invariant
                n == self.milestones.len(),
                0 <= i <= n,
                forall|j: int| 0 <= j < i ==> (#[trigger] self.milestones@[j]).amount > 0,
                forall|j: int|
                    0 <= j < i ==> status_admits(
                        self.status,
                        self.resolution,
                        (#[trigger] self.milestones@[j]).status,
                    ),
                total == total_of(self.milestones@.take(i as int)),
                released == released_of(self.milestones@.take(i as int)),
                0 <= released <= total,
            decreases n - i,
        {
            let amount = self.milestones[i].amount;
            let status = self.milestones[i].status;
            if amount <= 0 {
                return false;
            }
            if !admits(self.status, self.resolution, status) {
                return false;
            }
            proof {
                lemma_sums_push(self.milestones@.take(i as int), self.milestones@[i as int]);
                assert(self.milestones@.take(i as int).push(self.milestones@[i as int])
                    =~= self.milestones@.take(i + 1));
            }
            if amount > i128::MAX - total {
                proof {
                    if all_positive(self.milestones@) {
                        lemma_total_prefix(self.milestones@, i + 1);
                    }
                }
                return false;
            }
            total = total + amount;
            if status == MilestoneStatus::Released {
                released = released + amount;
            }
            i += 1;
        }
        proof {
            assert(self.milestones@.take(n as int) =~= self.milestones@);
        }
        total == self.total_amount && released == self.total_released
    }

    /// What is still held for the escrow: the total less what was
    /// released.
    pub fn remaining(&self) -> (rest: i128)
        requires
            self@.wf(),
        ensures
            rest == self@.remaining(),
            0 <= rest <= self.total_amount,
    {
        proof {
            lemma_released_bounds(self.milestones@);
        }
        self.total_amount - self.total_released
    }

    /// Whether `who` is the depositor or the recipient.
    pub fn is_party(&self, who: Address) -> (b: bool)
        ensures
            b == self@.is_party(who),
    {
        who == self.depositor || who == self.recipient
    }

    /// Whether every milestone has been released.
    pub fn is_fully_released(&self) -> (b: bool)
        ensures
            b == all_released(self.milestones@),
    {
        let n = self.milestones.len();
        let mut i: usize = 0;
        while i < n
            invariant
                n == self.milestones.len(),
                0 <= i <= n,
                forall|j: int|
                    0 <= j < i ==> (#[trigger] self.milestones@[j]).status
                        == MilestoneStatus::Released,
            decreases n - i,
        {
            if self.milestones[i].status != MilestoneStatus::Released {
                return false;
            }
            i += 1;
        }
        true
    }

    /// Builds the record of a new escrow over validated milestones: every
    /// milestone pending, nothing released, status `Created`.
    pub(crate) fn create(
        id: u64,
        depositor: Address,
        recipient: Address,
        token: Address,
        milestones: Vec<Milestone>,
        total: i128,
        deadline: u64,
    ) -> (record: Escrow)
        requires
            depositor != recipient,
            milestones_verdict(milestones@) == Ok::<i128, Error>(total),
        ensures
            record@ == EscrowView::created(id, depositor, recipient, token, milestones@, deadline),
            record@.wf(),
    {
        let mut milestones = milestones;
        let ghost given = milestones@;
        restamp(&mut milestones, Restamp::AllPending);
        proof {
            lemma_created_wf(id, depositor, recipient, token, given, deadline);
        }
        Escrow {
            id,
            depositor,
            recipient,
            token_address: token,
            milestones,
            total_amount: total,
            total_released: 0,
            deadline,
            status: EscrowStatus::Created,
            resolution: Resolution::Unresolved,
        }
    }

    /// Marks the milestone at `index` released and adds its amount to the
    /// released total.
    pub(crate) fn release(&mut self, index: usize)
        requires
            old(self)@.wf(),
            old(self).status == EscrowStatus::Active,
            index < old(self).milestones.len(),
            old(self).milestones[index as int].status == MilestoneStatus::Pending,
        ensures
            final(self)@ == old(self)@.with_released(index as int),
            final(self)@.wf(),
    {
        proof {
            lemma_release_keeps_wf(self@, index as int);
            lemma_released_bounds(self.milestones@);
        }
        let amount = self.milestones[index].amount;
        self.milestones[index].status = MilestoneStatus::Released;
        self.total_released = self.total_released + amount;
        assert(self.milestones@ =~= released_at(old(self).milestones@, index as int));
    }

    /// Gives the record another status.
    pub(crate) fn set_status(&mut self, status: EscrowStatus)
        ensures
            final(self)@ == old(self)@.with_status(status),
    {
        self.status = status;
    }

    /// Records that a dispute was raised.
    pub(crate) fn dispute(&mut self)
        requires
            old(self)@.wf(),
            old(self).status == EscrowStatus::Active,
        ensures
            final(self)@ == old(self)@.disputed(),
            final(self)@.wf(),
    {
        proof {
            lemma_steps_keep_wf(self@);
        }
        restamp(&mut self.milestones, Restamp::PendingToDisputed);
        self.status = EscrowStatus::Disputed;
        self.resolution = Resolution::Unresolved;
    }

    /// Records the decision of a dispute for `winner`, a party of the
    /// record.
    pub(crate) fn resolve(&mut self, winner: Address)
        requires
            old(self)@.wf(),
            old(self).status == EscrowStatus::Disputed,
            old(self)@.is_party(winner),
        ensures
            final(self)@ == old(self)@.resolved_for(winner),
            final(self)@.wf(),
    {
        proof {
            lemma_steps_keep_wf(self@);
        }
        if winner == self.recipient {
            restamp(&mut self.milestones, Restamp::UnreleasedToReleased);
            self.total_released = self.total_amount;
            self.resolution = Resolution::Recipient;
        } else {
            restamp(&mut self.milestones, Restamp::UnreleasedToDisputed);
            self.resolution = Resolution::Depositor;
        }
        self.status = EscrowStatus::Resolved;
    }
}

} // verus!
