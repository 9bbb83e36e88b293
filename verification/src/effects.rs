//! What an operation asks of the host: whose authorization to verify, which
//! transfers to carry out on the asset ledger, and what to announce.

use vstd::prelude::*;
use crate::types::Address;

verus! {

/// One side of a transfer.
#[derive(Clone, Copy, Debug, PartialEq, Eq, Hash)]
pub enum Account {
    /// The custody account, in which the contract holds escrowed funds.
    Custody,
    /// The account of an identity outside the contract.
    Holder(Address),
}

/// An instruction to the ledger of `token`: move `amount` from `from` to
/// `to`.
#[derive(Clone, Copy, Debug, PartialEq, Eq, Hash)]
pub struct Transfer {
    pub token: Address,
    pub from: Account,
    pub to: Account,
    pub amount: i128,
}

/// The name under which the events of the engine are grouped.
pub const EVENT_NAMESPACE: &'static str = "Vaultix";

/// What happened to an escrow, for the host to announce.
#[derive(Clone, Debug, PartialEq, Eq)]
pub enum Event {
    EscrowCreated {
        escrow_id: u64,
        depositor: Address,
        recipient: Address,
        token: Address,
        total_amount: i128,
        deadline: u64,
    },
    EscrowFunded { escrow_id: u64, amount: i128 },
    MilestoneReleased { escrow_id: u64, index: u32, amount: i128 },
    EscrowCompleted { escrow_id: u64 },
    EscrowCancelled { escrow_id: u64, refund: i128 },
    EscrowRefunded { escrow_id: u64, refund: i128 },
    DisputeRaised { escrow_id: u64, raised_by: Address },
    DisputeResolved { escrow_id: u64, winner: Address, note: Option<String> },
}

impl Event {
    /// The escrow that the event is about.
    pub open spec fn subject(self) -> u64 {
        match self {
            Event::EscrowCreated { escrow_id, .. } => escrow_id,
            Event::EscrowFunded { escrow_id, .. } => escrow_id,
            Event::MilestoneReleased { escrow_id, .. } => escrow_id,
            Event::EscrowCompleted { escrow_id } => escrow_id,
            Event::EscrowCancelled { escrow_id, .. } => escrow_id,
            Event::EscrowRefunded { escrow_id, .. } => escrow_id,
            Event::DisputeRaised { escrow_id, .. } => escrow_id,
            Event::DisputeResolved { escrow_id, .. } => escrow_id,
        }
    }

    /// The escrow that the event is about.
    pub fn escrow_id(&self) -> (id: u64)
        ensures
            id == self.subject(),
    {
        match self {
            Event::EscrowCreated { escrow_id, .. } => *escrow_id,
            Event::EscrowFunded { escrow_id, .. } => *escrow_id,
            Event::MilestoneReleased { escrow_id, .. } => *escrow_id,
            Event::EscrowCompleted { escrow_id } => *escrow_id,
            Event::EscrowCancelled { escrow_id, .. } => *escrow_id,
            Event::EscrowRefunded { escrow_id, .. } => *escrow_id,
            Event::DisputeRaised { escrow_id, .. } => *escrow_id,
            Event::DisputeResolved { escrow_id, .. } => *escrow_id,
        }
    }

    /// The name under which the event is announced.
    pub fn name(&self) -> (name: &'static str)
        ensures
            name@ == match *self {
                Event::EscrowCreated { .. } => "EscrowCreated"@,
                Event::EscrowFunded { .. } => "EscrowFunded"@,
                Event::MilestoneReleased { .. } => "MilestoneReleased"@,
                Event::EscrowCompleted { .. } => "EscrowCompleted"@,
                Event::EscrowCancelled { .. } => "EscrowCancelled"@,
                Event::EscrowRefunded { .. } => "EscrowRefunded"@,
                Event::DisputeRaised { .. } => "DisputeRaised"@,
                Event::DisputeResolved { .. } => "DisputeResolved"@,
            },
    {
        match self {
            Event::EscrowCreated { .. } => "EscrowCreated",
            Event::EscrowFunded { .. } => "EscrowFunded",
            Event::MilestoneReleased { .. } => "MilestoneReleased",
            Event::EscrowCompleted { .. } => "EscrowCompleted",
            Event::EscrowCancelled { .. } => "EscrowCancelled",
            Event::EscrowRefunded { .. } => "EscrowRefunded",
            Event::DisputeRaised { .. } => "DisputeRaised",
            Event::DisputeResolved { .. } => "DisputeResolved",
        }
    }
}

/// What a successful operation on an escrow asks of the host.
#[derive(Clone, Debug, PartialEq, Eq)]
pub struct Outcome {
    /// The identity whose authorization the host has to verify for the
    /// operation to stand.
    pub authorizer: Address,
    /// The transfers to carry out, in this order.
    pub transfers: Vec<Transfer>,
    /// What to announce.
    pub event: Event,
}

/// The mathematical value of an [`Outcome`].
pub struct OutcomeView {
    pub authorizer: Address,
    pub transfers: Seq<Transfer>,
    pub event: Event,
}

impl View for Outcome {
    type V = OutcomeView;

    open spec fn view(&self) -> OutcomeView {
        OutcomeView { authorizer: self.authorizer, transfers: self.transfers@, event: self.event }
    }
}

/// The sum of the amounts of `transfers`.
pub open spec fn transferred(transfers: Seq<Transfer>) -> int
    decreases transfers.len(),
{
    if transfers.len() == 0 {
        0
    } else {
        transferred(transfers.drop_last()) + transfers.last().amount
    }
}

/// The transfers that pay `fee` to the treasury and `net` to the
/// beneficiary out of custody, the fee first; a part of zero is not
/// transferred.
pub open spec fn payout_transfers(
    token: Address,
    treasury: Option<Address>,
    beneficiary: Address,
    fee: i128,
    net: i128,
) -> Seq<Transfer> {
    let to_treasury = if fee > 0 && treasury is Some {
        seq![
            Transfer {
                token,
                from: Account::Custody,
                to: Account::Holder(treasury->Some_0),
                amount: fee,
            },
        ]
    } else {
        Seq::<Transfer>::empty()
    };
    let to_beneficiary = if net > 0 {
        seq![Transfer { token, from: Account::Custody, to: Account::Holder(beneficiary), amount: net }]
    } else {
        Seq::<Transfer>::empty()
    };
    to_treasury + to_beneficiary
}

/// The payout of a settlement moves exactly the fee and the net amount,
/// provided that a treasury is named wherever a fee is due.
pub proof fn lemma_payout_total(
    token: Address,
    treasury: Option<Address>,
    beneficiary: Address,
    fee: i128,
    net: i128,
)
    requires
        fee >= 0,
        net >= 0,
        fee > 0 ==> treasury is Some,
    ensures
        transferred(payout_transfers(token, treasury, beneficiary, fee, net)) == fee + net,
        payout_transfers(token, treasury, beneficiary, fee, net).len() <= 2,
{
    let ts = payout_transfers(token, treasury, beneficiary, fee, net);
    reveal_with_fuel(transferred, 3);
    if fee > 0 && net > 0 {
        assert(ts.len() == 2);
        assert(ts.drop_last().len() == 1);
        assert(ts.drop_last().drop_last().len() == 0);
        assert(ts.last().amount == net);
        assert(ts.drop_last().last().amount == fee);
    } else if fee > 0 {
        assert(ts.len() == 1);
        assert(ts.drop_last().len() == 0);
        assert(ts.last().amount == fee);
    } else if net > 0 {
        assert(ts.len() == 1);
        assert(ts.drop_last().len() == 0);
        assert(ts.last().amount == net);
    } else {
        assert(ts.len() == 0);
    }
}

/// The payout of a settlement as instructions for the host.
pub fn payout(
    token: Address,
    treasury: Option<Address>,
    beneficiary: Address,
    fee: i128,
    net: i128,
) -> (transfers: Vec<Transfer>)
    ensures
        transfers@ == payout_transfers(token, treasury, beneficiary, fee, net),
{
    let mut transfers: Vec<Transfer> = Vec::new();
    if fee > 0 {
        if let Some(to) = treasury {
            transfers.push(
                Transfer { token, from: Account::Custody, to: Account::Holder(to), amount: fee },
            );
        }
    }
    if net > 0 {
        transfers.push(
            Transfer { token, from: Account::Custody, to: Account::Holder(beneficiary), amount: net },
        );
    }
    assert(transfers@ =~= payout_transfers(token, treasury, beneficiary, fee, net));
    transfers
}

} // verus!
