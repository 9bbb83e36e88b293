//! The lifecycle of one record: which operation a status admits, and what
//! each operation makes of the record.
//!
//! ```text
//! Created  --deposit-->        Active
//! Created  --cancel-->         Cancelled
//! Active   --release-->        Active
//! Active   --complete-->       Completed
//! Active   --cancel-->         Cancelled
//! Active   --refund expired--> Cancelled
//! Active   --raise dispute-->  Disputed
//! Disputed --resolve-->        Resolved
//! ```
//!
//! `Resolved`, `Completed` and `Cancelled` are terminal.

use vstd::prelude::*;
use crate::errors::Error;
use crate::types::{
    all_positive, all_released, lemma_released_bounds, lemma_sums_pointwise, lemma_sums_release,
    released_of, status_admits, total_of, Address, EscrowStatus, EscrowView, Milestone,
    MilestoneStatus, Resolution, MAX_MILESTONES,
};

verus! {

/// An operation on a record, as far as the status of the record decides
/// whether it may run.
#[derive(Clone, Copy, Debug, PartialEq, Eq, Hash, Structural)]
pub enum Operation {
    Deposit,
    Release,
    Complete,
    Cancel,
    RefundExpired,
    RaiseDispute,
    Resolve,
}

/// The transition table: the status that `op` leads to from `status`, or
/// the failure with which it is refused there.
pub open spec fn transition(status: EscrowStatus, op: Operation) -> Result<EscrowStatus, Error> {
    match op {
        Operation::Deposit => match status {
            EscrowStatus::Created => Ok(EscrowStatus::Active),
            EscrowStatus::Active => Err(Error::EscrowAlreadyFunded),
            _ => Err(Error::InvalidEscrowStatus),
        },
        Operation::Release => match status {
            EscrowStatus::Active => Ok(EscrowStatus::Active),
            _ => Err(Error::EscrowNotActive),
        },
        Operation::Complete => match status {
            EscrowStatus::Active => Ok(EscrowStatus::Completed),
            _ => Err(Error::EscrowNotActive),
        },
        Operation::Cancel => match status {
            EscrowStatus::Created | EscrowStatus::Active => Ok(EscrowStatus::Cancelled),
            _ => Err(Error::InvalidEscrowStatus),
        },
        Operation::RefundExpired => match status {
            EscrowStatus::Active => Ok(EscrowStatus::Cancelled),
            _ => Err(Error::EscrowNotActive),
        },
        Operation::RaiseDispute => match status {
            EscrowStatus::Active => Ok(EscrowStatus::Disputed),
            _ => Err(Error::InvalidEscrowStatus),
        },
        Operation::Resolve => match status {
            EscrowStatus::Disputed => Ok(EscrowStatus::Resolved),
            _ => Err(Error::InvalidEscrowStatus),
        },
    }
}

/// Whether no operation leads out of `status`.
pub open spec fn is_terminal(status: EscrowStatus) -> bool {
    status == EscrowStatus::Resolved || status == EscrowStatus::Completed || status
        == EscrowStatus::Cancelled
}

/// Looks `op` up in the transition table.
pub fn next_status(status: EscrowStatus, op: Operation) -> (r: Result<EscrowStatus, Error>)
    ensures
        r == transition(status, op),
{
    match op {
        Operation::Deposit => match status {
            EscrowStatus::Created => Ok(EscrowStatus::Active),
            EscrowStatus::Active => Err(Error::EscrowAlreadyFunded),
            _ => Err(Error::InvalidEscrowStatus),
        },
        Operation::Release => match status {
            EscrowStatus::Active => Ok(EscrowStatus::Active),
            _ => Err(Error::EscrowNotActive),
        },
        Operation::Complete => match status {
            EscrowStatus::Active => Ok(EscrowStatus::Completed),
            _ => Err(Error::EscrowNotActive),
        },
        Operation::Cancel => match status {
            EscrowStatus::Created | EscrowStatus::Active => Ok(EscrowStatus::Cancelled),
            _ => Err(Error::InvalidEscrowStatus),
        },
        Operation::RefundExpired => match status {
            EscrowStatus::Active => Ok(EscrowStatus::Cancelled),
            _ => Err(Error::EscrowNotActive),
        },
        Operation::RaiseDispute => match status {
            EscrowStatus::Active => Ok(EscrowStatus::Disputed),
            _ => Err(Error::InvalidEscrowStatus),
        },
        Operation::Resolve => match status {
            EscrowStatus::Disputed => Ok(EscrowStatus::Resolved),
            _ => Err(Error::InvalidEscrowStatus),
        },
    }
}

/// How the statuses of the milestones of a record are rewritten.
#[derive(Clone, Copy, Debug, PartialEq, Eq, Hash, Structural)]
pub enum Restamp {
    /// Every milestone becomes pending.
    AllPending,
    /// A pending milestone becomes disputed.
    PendingToDisputed,
    /// A milestone that is not released becomes released.
    UnreleasedToReleased,
    /// A milestone that is not released becomes disputed.
    UnreleasedToDisputed,
}

impl Restamp {
    /// The status that a milestone of status `status` gets.
    pub open spec fn apply(self, status: MilestoneStatus) -> MilestoneStatus {
        match self {
            Restamp::AllPending => MilestoneStatus::Pending,
            Restamp::PendingToDisputed => if status == MilestoneStatus::Pending {
                MilestoneStatus::Disputed
            } else {
                status
            },
            Restamp::UnreleasedToReleased => MilestoneStatus::Released,
            Restamp::UnreleasedToDisputed => if status == MilestoneStatus::Released {
                status
            } else {
                MilestoneStatus::Disputed
            },
        }
    }

    /// The status that a milestone of status `status` gets.
    pub fn stamp(self, status: MilestoneStatus) -> (s: MilestoneStatus)
        ensures
            s == self.apply(status),
    {
        match self {
            Restamp::AllPending => MilestoneStatus::Pending,
            Restamp::PendingToDisputed => if status == MilestoneStatus::Pending {
                MilestoneStatus::Disputed
            } else {
                status
            },
            Restamp::UnreleasedToReleased => MilestoneStatus::Released,
            Restamp::UnreleasedToDisputed => if status == MilestoneStatus::Released {
                status
            } else {
                MilestoneStatus::Disputed
            },
        }
    }
}

/// `ms` with every status rewritten by `rule`; amounts and descriptions
/// stay.
pub open spec fn restamped(ms: Seq<Milestone>, rule: Restamp) -> Seq<Milestone> {
    Seq::new(ms.len(), |i: int| Milestone { status: rule.apply(ms[i].status), ..ms[i] })
}

/// `ms` with the milestone at `index` released.
pub open spec fn released_at(ms: Seq<Milestone>, index: int) -> Seq<Milestone> {
    ms.update(index, Milestone { status: MilestoneStatus::Released, ..ms[index] })
}

/// What the validation of the milestones of a new escrow finds: the total
/// of the amounts, or the first of these failures that applies: no
/// milestone, too many, an amount that is not positive, a total beyond the
/// range of an amount.
pub open spec fn milestones_verdict(ms: Seq<Milestone>) -> Result<i128, Error> {
    if ms.len() == 0 {
        Err(Error::NoMilestones)
    } else if ms.len() > MAX_MILESTONES {
        Err(Error::TooManyMilestones)
    } else if !all_positive(ms) {
        Err(Error::ZeroAmount)
    } else if total_of(ms) > i128::MAX {
        Err(Error::AmountOverflow)
    } else {
        Ok(total_of(ms) as i128)
    }
}

impl EscrowView {
    /// The record of a new escrow: every milestone pending, nothing
    /// released, status `Created`.
    pub open spec fn created(
        id: u64,
        depositor: Address,
        recipient: Address,
        token: Address,
        milestones: Seq<Milestone>,
        deadline: u64,
    ) -> EscrowView {
        EscrowView {
            id,
            depositor,
            recipient,
            token_address: token,
            milestones: restamped(milestones, Restamp::AllPending),
            total_amount: total_of(milestones) as i128,
            total_released: 0,
            deadline,
            status: EscrowStatus::Created,
            resolution: Resolution::Unresolved,
        }
    }

    /// The record with another status.
    pub open spec fn with_status(self, status: EscrowStatus) -> EscrowView {
        EscrowView { status, ..self }
    }

    /// The record once the milestone at `index` is released: the milestone
    /// is marked and its amount added to the released total.
    pub open spec fn with_released(self, index: int) -> EscrowView {
        EscrowView {
            milestones: released_at(self.milestones, index),
            total_released: (self.total_released + self.milestones[index].amount) as i128,
            ..self
        }
    }

    /// The record once a dispute is raised: pending milestones are marked
    /// disputed, released ones stay, no resolution is recorded.
    pub open spec fn disputed(self) -> EscrowView {
        EscrowView {
            milestones: restamped(self.milestones, Restamp::PendingToDisputed),
            status: EscrowStatus::Disputed,
            resolution: Resolution::Unresolved,
            ..self
        }
    }

    /// The record once the dispute is decided for the recipient: every
    /// milestone is released and so is the whole amount.
    pub open spec fn resolved_for_recipient(self) -> EscrowView {
        EscrowView {
            milestones: restamped(self.milestones, Restamp::UnreleasedToReleased),
            total_released: self.total_amount,
            status: EscrowStatus::Resolved,
            resolution: Resolution::Recipient,
            ..self
        }
    }

    /// The record once the dispute is decided for the depositor: what was
    /// not released is marked disputed, and the released total stays.
    pub open spec fn resolved_for_depositor(self) -> EscrowView {
        EscrowView {
            milestones: restamped(self.milestones, Restamp::UnreleasedToDisputed),
            status: EscrowStatus::Resolved,
            resolution: Resolution::Depositor,
            ..self
        }
    }

    /// The record once the dispute is decided for `winner`, a party of it.
    pub open spec fn resolved_for(self, winner: Address) -> EscrowView {
        if winner == self.recipient {
            self.resolved_for_recipient()
        } else {
            self.resolved_for_depositor()
        }
    }
}

/// A sequence without a released milestone has released nothing.
pub proof fn lemma_none_released(ms: Seq<Milestone>)
    requires
        forall|i: int| 0 <= i < ms.len() ==> (#[trigger] ms[i]).status != MilestoneStatus::Released,
    ensures
        released_of(ms) == 0,
    decreases ms.len(),
{
    if ms.len() > 0 {
        let init = ms.drop_last();
        assert forall|i: int| 0 <= i < init.len() implies (#[trigger] init[i]).status
            != MilestoneStatus::Released by {
            assert(init[i] == ms[i]);
        }
        lemma_none_released(init);
        assert(ms.last() == ms[ms.len() - 1]);
    }
}

/// Rewriting statuses keeps the total; it keeps the released sum unless
/// the rule releases or resets milestones, in which case the released sum
/// is the total, or zero.
pub proof fn lemma_restamped_sums(ms: Seq<Milestone>, rule: Restamp)
    requires
        all_positive(ms),
    ensures
        restamped(ms, rule).len() == ms.len(),
        all_positive(restamped(ms, rule)),
        total_of(restamped(ms, rule)) == total_of(ms),
        released_of(restamped(ms, rule)) == match rule {
            Restamp::AllPending => 0,
            Restamp::UnreleasedToReleased => total_of(ms),
            _ => released_of(ms),
        },
{
    let after = restamped(ms, rule);
    assert forall|i: int| 0 <= i < after.len() implies (#[trigger] after[i]).amount
        == ms[i].amount by {}
    lemma_sums_pointwise(after, ms);
    assert forall|i: int| 0 <= i < after.len() implies (#[trigger] after[i]).amount > 0 by {
        assert(ms[i].amount > 0);
    }
    match rule {
        Restamp::AllPending => {
            lemma_none_released(after);
        },
        Restamp::UnreleasedToReleased => {
            assert(all_released(after));
            lemma_released_bounds(after);
        },
        _ => {
            assert forall|i: int| 0 <= i < after.len() implies ((#[trigger] after[i]).status
                == MilestoneStatus::Released) == (ms[i].status == MilestoneStatus::Released) by {}
        },
    }
}

/// A new record over valid milestones meets the record invariant.
pub proof fn lemma_created_wf(
    id: u64,
    depositor: Address,
    recipient: Address,
    token: Address,
    milestones: Seq<Milestone>,
    deadline: u64,
)
    requires
        depositor != recipient,
        milestones_verdict(milestones) is Ok,
    ensures
        EscrowView::created(id, depositor, recipient, token, milestones, deadline).wf(),
{
    lemma_released_bounds(milestones);
    lemma_restamped_sums(milestones, Restamp::AllPending);
}

/// Each step of the lifecycle keeps the record invariant.
pub proof fn lemma_steps_keep_wf(e: EscrowView)
    requires
        e.wf(),
    ensures
        0 <= e.total_released <= e.total_amount,
        e.status == EscrowStatus::Created ==> e.with_status(EscrowStatus::Active).wf()
            && e.total_released == 0,
        e.status == EscrowStatus::Created || e.status == EscrowStatus::Active ==> e.with_status(
            EscrowStatus::Cancelled,
        ).wf(),
        e.status == EscrowStatus::Active && all_released(e.milestones) ==> e.with_status(
            EscrowStatus::Completed,
        ).wf(),
        e.status == EscrowStatus::Active ==> e.disputed().wf() && e.disputed().total_released
            == e.total_released,
        e.status == EscrowStatus::Disputed ==> e.resolved_for_recipient().wf()
            && e.resolved_for_depositor().wf(),
{
    lemma_released_bounds(e.milestones);
    if e.status == EscrowStatus::Created {
        lemma_none_released(e.milestones);
    }
    lemma_restamped_sums(e.milestones, Restamp::PendingToDisputed);
    lemma_restamped_sums(e.milestones, Restamp::UnreleasedToReleased);
    lemma_restamped_sums(e.milestones, Restamp::UnreleasedToDisputed);
}

/// Releasing a pending milestone of an active record keeps the record
/// invariant and stays within the total.
pub proof fn lemma_release_keeps_wf(e: EscrowView, index: int)
    requires
        e.wf(),
        e.status == EscrowStatus::Active,
        0 <= index < e.milestones.len(),
        e.milestones[index].status == MilestoneStatus::Pending,
    ensures
        e.total_released + e.milestones[index].amount <= e.total_amount,
        e.with_released(index).wf(),
{
    let after = released_at(e.milestones, index);
    lemma_sums_release(e.milestones, index);
    assert forall|i: int| 0 <= i < after.len() implies (#[trigger] after[i]).amount > 0 by {
        assert(e.milestones[i].amount > 0);
    }
    lemma_released_bounds(after);
    assert forall|i: int| 0 <= i < after.len() implies status_admits(
        e.status,
        e.resolution,
        (#[trigger] after[i]).status,
    ) by {
        assert(status_admits(e.status, e.resolution, e.milestones[i].status));
    }
}

} // verus!
