//! The data of an escrow: identities, milestones and the record itself,
//! with the record invariant.

use vstd::prelude::*;

verus! {

/// The most milestones an escrow may have.
pub const MAX_MILESTONES: usize = 20;

/// An identity on the host: a depositor, a recipient, a role holder or an
/// asset ledger. Two identities are the same exactly if their ids are.
#[derive(Clone, Copy, Debug, PartialEq, Eq, Hash, Structural)]
pub struct Address {
    pub id: u64,
}

/// What has become of one milestone.
#[derive(Clone, Copy, Debug, PartialEq, Eq, Hash, Structural)]
pub enum MilestoneStatus {
    /// Not paid out yet.
    Pending,
    /// Paid out to the recipient. A released milestone stays released.
    Released,
    /// Caught in a dispute before it was released.
    Disputed,
}

/// Where an escrow stands in its lifecycle.
#[derive(Clone, Copy, Debug, PartialEq, Eq, Hash, Structural)]
pub enum EscrowStatus {
    /// On record, not funded.
    Created,
    /// Funded; milestones can be released.
    Active,
    /// A party has raised a dispute; payouts are frozen.
    Disputed,
    /// The arbitrator has decided the dispute. Terminal.
    Resolved,
    /// Every milestone was released and the escrow closed. Terminal.
    Completed,
    /// Called off, or refunded after its deadline. Terminal.
    Cancelled,
}

/// In whose favour a dispute was decided.
#[derive(Clone, Copy, Debug, PartialEq, Eq, Hash, Structural)]
pub enum Resolution {
    /// No decision has been made.
    Unresolved,
    /// The remaining balance went back to the depositor.
    Depositor,
    /// The remaining balance went to the recipient.
    Recipient,
}

/// A named part of the escrowed amount that is released on its own.
#[derive(Clone, Debug, PartialEq, Eq)]
pub struct Milestone {
    pub amount: i128,
    pub status: MilestoneStatus,
    pub description: String,
}

/// The record of one escrow.
#[derive(Clone, Debug, PartialEq, Eq)]
pub struct Escrow {
    pub id: u64,
    pub depositor: Address,
    pub recipient: Address,
    pub token_address: Address,
    pub milestones: Vec<Milestone>,
    pub total_amount: i128,
    pub total_released: i128,
    pub deadline: u64,
    pub status: EscrowStatus,
    pub resolution: Resolution,
}

/// The mathematical value of an [`Escrow`]: the same fields, with the
/// milestones as a sequence.
pub struct EscrowView {
    pub id: u64,
    pub depositor: Address,
    pub recipient: Address,
    pub token_address: Address,
    pub milestones: Seq<Milestone>,
    pub total_amount: i128,
    pub total_released: i128,
    pub deadline: u64,
    pub status: EscrowStatus,
    pub resolution: Resolution,
}

impl View for Escrow {
    type V = EscrowView;

    open spec fn view(&self) -> EscrowView {
        EscrowView {
            id: self.id,
            depositor: self.depositor,
            recipient: self.recipient,
            token_address: self.token_address,
            milestones: self.milestones@,
            total_amount: self.total_amount,
            total_released: self.total_released,
            deadline: self.deadline,
            status: self.status,
            resolution: self.resolution,
        }
    }
}

/// The sum of the amounts of `ms`.
pub open spec fn total_of(ms: Seq<Milestone>) -> int
    decreases ms.len(),
{
    if ms.len() == 0 {
        0
    } else {
        total_of(ms.drop_last()) + ms.last().amount
    }
}

/// The sum of the amounts of the released milestones of `ms`.
pub open spec fn released_of(ms: Seq<Milestone>) -> int
    decreases ms.len(),
{
    if ms.len() == 0 {
        0
    } else {
        released_of(ms.drop_last()) + if ms.last().status == MilestoneStatus::Released {
            ms.last().amount as int
        } else {
            0
        }
    }
}

/// Every amount of `ms` is positive.
pub open spec fn all_positive(ms: Seq<Milestone>) -> bool {
    forall|i: int| 0 <= i < ms.len() ==> (#[trigger] ms[i]).amount > 0
}

/// Every milestone of `ms` is released.
pub open spec fn all_released(ms: Seq<Milestone>) -> bool {
    forall|i: int| 0 <= i < ms.len() ==> (#[trigger] ms[i]).status == MilestoneStatus::Released
}

/// Whether a milestone may have the status `m` in a record with the given
/// status and resolution.
pub open spec fn status_admits(
    status: EscrowStatus,
    resolution: Resolution,
    m: MilestoneStatus,
) -> bool {
    match status {
        EscrowStatus::Created => m == MilestoneStatus::Pending,
        EscrowStatus::Active | EscrowStatus::Cancelled => m != MilestoneStatus::Disputed,
        EscrowStatus::Completed => m == MilestoneStatus::Released,
        EscrowStatus::Disputed => m != MilestoneStatus::Pending,
        EscrowStatus::Resolved => if resolution == Resolution::Recipient {
            m == MilestoneStatus::Released
        } else {
            m != MilestoneStatus::Pending
        },
    }
}

impl EscrowView {
    /// The record invariant.
    ///
    /// An escrow has between one and [`MAX_MILESTONES`] milestones of
    /// positive amounts between two distinct parties; its total is the sum
    /// of the milestone amounts and its released total the sum of the
    /// released ones; a resolution is recorded exactly on a resolved
    /// record; and the milestone statuses fit the status of the record.
    pub open spec fn wf(self) -> bool {
        &&& 1 <= self.milestones.len() <= MAX_MILESTONES
        &&& all_positive(self.milestones)
        &&& self.total_amount == total_of(self.milestones)
        &&& self.total_released == released_of(self.milestones)
        &&& self.depositor != self.recipient
        &&& (self.status == EscrowStatus::Resolved) == (self.resolution != Resolution::Unresolved)
        &&& forall|i: int|
            0 <= i < self.milestones.len() ==> status_admits(
                self.status,
                self.resolution,
                (#[trigger] self.milestones[i]).status,
            )
    }

    /// What is still held for the escrow: the total less what was released.
    pub open spec fn remaining(self) -> int {
        self.total_amount - self.total_released
    }

    /// Whether `who` is the depositor or the recipient.
    pub open spec fn is_party(self, who: Address) -> bool {
        who == self.depositor || who == self.recipient
    }
}

/// Sums over a sequence that grew by one milestone.
pub proof fn lemma_sums_push(ms: Seq<Milestone>, m: Milestone)
    ensures
        total_of(ms.push(m)) == total_of(ms) + m.amount,
        released_of(ms.push(m)) == released_of(ms) + if m.status == MilestoneStatus::Released {
            m.amount as int
        } else {
            0
        },
{
    assert(ms.push(m).drop_last() =~= ms);
}

/// With positive amounts the released sum lies between zero and the total,
/// and reaches the total exactly when every milestone is released.
pub proof fn lemma_released_bounds(ms: Seq<Milestone>)
    requires
        all_positive(ms),
    ensures
        0 <= released_of(ms) <= total_of(ms),
        ms.len() > 0 ==> total_of(ms) > 0,
        all_released(ms) <==> released_of(ms) == total_of(ms),
    decreases ms.len(),
{
    if ms.len() > 0 {
        let init = ms.drop_last();
        assert forall|i: int| 0 <= i < init.len() implies (#[trigger] init[i]).amount > 0 by {
            assert(init[i] == ms[i]);
        }
        lemma_released_bounds(init);
        assert(ms.last() == ms[ms.len() - 1]);
        if all_released(ms) {
            assert forall|i: int| 0 <= i < init.len() implies (#[trigger] init[i]).status
                == MilestoneStatus::Released by {
                assert(init[i] == ms[i]);
            }
        }
        if released_of(ms) == total_of(ms) {
            assert(all_released(init));
            assert forall|i: int| 0 <= i < ms.len() implies (#[trigger] ms[i]).status
                == MilestoneStatus::Released by {
                if i < init.len() {
                    assert(init[i] == ms[i]);
                }
            }
        }
    }
}

/// The total of a prefix never exceeds the total of the whole.
pub proof fn lemma_total_prefix(ms: Seq<Milestone>, n: int)
    requires
        all_positive(ms),
        0 <= n <= ms.len(),
    ensures
        0 <= total_of(ms.take(n)) <= total_of(ms),
        0 <= released_of(ms.take(n)) <= released_of(ms),
    decreases ms.len() - n,
{
    if n == ms.len() {
        assert(ms.take(n) =~= ms);
        lemma_released_bounds(ms);
    } else {
        lemma_total_prefix(ms, n + 1);
        assert(ms.take(n + 1).drop_last() =~= ms.take(n));
        assert(ms.take(n + 1).last() == ms[n]);
        assert forall|i: int| 0 <= i < n implies (#[trigger] ms.take(n)[i]).amount > 0 by {
            assert(ms.take(n)[i] == ms[i]);
        }
        lemma_released_bounds(ms.take(n));
    }
}

/// Two sequences that agree on every amount have the same total; if they
/// also agree on which milestones are released, the same released sum.
pub proof fn lemma_sums_pointwise(a: Seq<Milestone>, b: Seq<Milestone>)
    requires
        a.len() == b.len(),
        forall|i: int| 0 <= i < a.len() ==> (#[trigger] a[i]).amount == b[i].amount,
    ensures
        total_of(a) == total_of(b),
        (forall|i: int|
            0 <= i < a.len() ==> ((#[trigger] a[i]).status == MilestoneStatus::Released) == (b[i].status
                == MilestoneStatus::Released)) ==> released_of(a) == released_of(b),
    decreases a.len(),
{
    if a.len() > 0 {
        let a0 = a.drop_last();
        let b0 = b.drop_last();
        assert forall|i: int| 0 <= i < a0.len() implies (#[trigger] a0[i]).amount
            == b0[i].amount by {
            assert(a0[i] == a[i]);
            assert(b0[i] == b[i]);
        }
        lemma_sums_pointwise(a0, b0);
        assert(a.last() == a[a.len() - 1]);
        assert(b.last() == b[a.len() - 1]);
        if forall|i: int|
            0 <= i < a.len() ==> ((#[trigger] a[i]).status == MilestoneStatus::Released) == (b[i].status
                == MilestoneStatus::Released) {
            assert forall|i: int| 0 <= i < a0.len() implies ((#[trigger] a0[i]).status
                == MilestoneStatus::Released) == (b0[i].status == MilestoneStatus::Released) by {
                assert(a0[i] == a[i]);
                assert(b0[i] == b[i]);
            }
        }
    }
}

/// Releasing one pending milestone adds its amount to the released sum and
/// leaves the total as it was.
pub proof fn lemma_sums_release(ms: Seq<Milestone>, k: int)
    requires
        0 <= k < ms.len(),
        ms[k].status != MilestoneStatus::Released,
    ensures
        total_of(ms.update(k, Milestone { status: MilestoneStatus::Released, ..ms[k] }))
            == total_of(ms),
        released_of(ms.update(k, Milestone { status: MilestoneStatus::Released, ..ms[k] }))
            == released_of(ms) + ms[k].amount,
    decreases ms.len(),
{
    let m = Milestone { status: MilestoneStatus::Released, ..ms[k] };
    let after = ms.update(k, m);
    if k == ms.len() - 1 {
        assert(after.drop_last() =~= ms.drop_last());
    } else {
        lemma_sums_release(ms.drop_last(), k);
        assert(after.drop_last() =~= ms.drop_last().update(k, m));
        assert(ms.drop_last()[k] == ms[k]);
    }
}

} // verus!
