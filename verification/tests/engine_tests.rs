use vaultix_escrow::effects::payout;
use vaultix_escrow::lifecycle::{next_status, Operation, Restamp};
use vaultix_escrow::record::{admits, restamp, validate_milestones};
use vaultix_escrow::{
    fee_amount, resolve_bps, Account, Address, Error, Escrow, EscrowStatus, Event, FeeConfig,
    Milestone, MilestoneStatus, Outcome, Resolution, RoleRegistry, Transfer, VaultixContract,
    BPS_DENOMINATOR,
};

const DEPOSITOR: Address = Address { id: 1 };
const RECIPIENT: Address = Address { id: 2 };
const TOKEN: Address = Address { id: 3 };
const TREASURY: Address = Address { id: 4 };
const ADMIN: Address = Address { id: 5 };
const OPERATOR: Address = Address { id: 6 };
const ARBITRATOR: Address = Address { id: 7 };
const OUTSIDER: Address = Address { id: 8 };

fn milestone(amount: i128) -> Milestone {
    Milestone { amount, status: MilestoneStatus::Pending, description: "Part".to_string() }
}

fn milestones(amounts: &[i128]) -> Vec<Milestone> {
    amounts.iter().map(|amount| milestone(*amount)).collect()
}

fn statuses(record: &Escrow) -> Vec<MilestoneStatus> {
    record.milestones.iter().map(|m| m.status).collect()
}

fn out_of_custody(to: Address, amount: i128) -> Transfer {
    Transfer { token: TOKEN, from: Account::Custody, to: Account::Holder(to), amount }
}

/// A contract with roles, a treasury and the given global rate.
fn contract_with_fee(bps: Option<u32>) -> VaultixContract {
    let mut contract = VaultixContract::new();
    contract.init(ADMIN, OPERATOR, ARBITRATOR).unwrap();
    contract.initialize(TREASURY, bps).unwrap();
    contract
}

/// Creates and funds the escrow `id` over `amounts`.
fn fund(contract: &mut VaultixContract, id: u64, amounts: &[i128]) {
    contract.create_escrow(id, DEPOSITOR, RECIPIENT, TOKEN, milestones(amounts), 1_000).unwrap();
    contract.deposit_funds(id).unwrap();
}

/// Releases a milestone and ends the settlement.
fn release(contract: &mut VaultixContract, id: u64, index: u32) -> Outcome {
    let outcome = contract.release_milestone(id, index).unwrap();
    contract.finish_settlement(id);
    outcome
}

fn record(contract: &VaultixContract, id: u64) -> Escrow {
    contract.get_escrow(id).unwrap().clone()
}

// ---- fee arithmetic ----

#[test]
fn fee_of_ten_thousand_at_one_percent() {
    assert_eq!(fee_amount(10_000, 100), 100);
    assert_eq!(10_000 - fee_amount(10_000, 100), 9_900);
}

#[test]
fn fee_at_rate_zero_is_zero() {
    assert_eq!(fee_amount(10_000, 0), 0);
    assert_eq!(fee_amount(i128::MAX, 0), 0);
}

#[test]
fn fee_at_full_rate_is_everything() {
    assert_eq!(fee_amount(10_000, 10_000), 10_000);
    assert_eq!(fee_amount(i128::MAX, BPS_DENOMINATOR), i128::MAX);
}

#[test]
fn fee_is_rounded_down() {
    assert_eq!(fee_amount(9_999, 1), 0);
    assert_eq!(fee_amount(10_000, 1), 1);
    assert_eq!(fee_amount(19_999, 50), 99);
    assert_eq!(fee_amount(1, 9_999), 0);
    assert_eq!(fee_amount(3, 5_000), 1);
    assert_eq!(fee_amount(0, 10_000), 0);
}

#[test]
fn fee_of_the_largest_amount_does_not_overflow() {
    assert_eq!(fee_amount(i128::MAX, 1), 17_014_118_346_046_923_173_168_730_371_588_410);
    assert_eq!(
        fee_amount(i128::MAX, 9_999),
        i128::MAX - 17_014_118_346_046_923_173_168_730_371_588_411
    );
    assert_eq!(fee_amount(i128::MAX, 5_000), i128::MAX / 2);
}

#[test]
fn rate_precedence_is_escrow_then_token_then_global() {
    assert_eq!(resolve_bps(Some(300), Some(200), Some(50)), 300);
    assert_eq!(resolve_bps(None, Some(200), Some(50)), 200);
    assert_eq!(resolve_bps(None, None, Some(50)), 50);
    assert_eq!(resolve_bps(None, None, None), 0);
    assert_eq!(resolve_bps(Some(0), Some(200), Some(50)), 0);
    assert_eq!(resolve_bps(Some(300), None, None), 300);
}

#[test]
fn fee_config_resolves_by_precedence() {
    let mut fees = FeeConfig::new();
    assert_eq!(fees.rate(1, TOKEN), 0);
    fees.set_global_default(Some(50)).unwrap();
    assert_eq!(fees.rate(1, TOKEN), 50);
    fees.set_token_fee(TOKEN, 200).unwrap();
    assert_eq!(fees.rate(1, TOKEN), 200);
    assert_eq!(fees.rate(1, OUTSIDER), 50);
    fees.set_escrow_fee(1, 300).unwrap();
    assert_eq!(fees.rate(1, TOKEN), 300);
    assert_eq!(fees.rate(1, OUTSIDER), 300);
    assert_eq!(fees.rate(2, TOKEN), 200);
    assert_eq!(fees.global_default(), Some(50));
    assert_eq!(fees.token_fee(TOKEN), Some(200));
    assert_eq!(fees.token_fee(OUTSIDER), None);
    assert_eq!(fees.escrow_fee(1), Some(300));
    assert_eq!(fees.escrow_fee(2), None);
}

#[test]
fn fee_config_overwrites_and_refuses_rates_above_the_denominator() {
    let mut fees = FeeConfig::new();
    fees.set_token_fee(TOKEN, 10_000).unwrap();
    assert_eq!(fees.set_token_fee(TOKEN, 10_001), Err(Error::InvalidFeeConfiguration));
    assert_eq!(fees.token_fee(TOKEN), Some(10_000));
    fees.set_token_fee(TOKEN, 7).unwrap();
    assert_eq!(fees.token_fee(TOKEN), Some(7));
    assert_eq!(fees.set_escrow_fee(9, u32::MAX), Err(Error::InvalidFeeConfiguration));
    assert_eq!(fees.escrow_fee(9), None);
    assert_eq!(fees.set_global_default(Some(10_001)), Err(Error::InvalidFeeConfiguration));
    assert_eq!(fees.global_default(), None);
    fees.set_global_default(Some(10_000)).unwrap();
    fees.set_global_default(None).unwrap();
    assert_eq!(fees.global_default(), None);
}

#[test]
fn release_uses_the_rate_that_remains_as_overrides_are_absent() {
    // global 50, token 200, escrow 300: the escrow's own rate applies
    let mut contract = contract_with_fee(Some(50));
    contract.set_token_fee(TOKEN, 200).unwrap();
    contract.set_escrow_fee(1, 300).unwrap();
    fund(&mut contract, 1, &[10_000]);
    let outcome = release(&mut contract, 1, 0);
    assert_eq!(
        outcome.transfers,
        vec![out_of_custody(TREASURY, 300), out_of_custody(RECIPIENT, 9_700)]
    );
    // an escrow without its own override falls back on the token
    fund(&mut contract, 2, &[10_000]);
    let outcome = release(&mut contract, 2, 0);
    assert_eq!(
        outcome.transfers,
        vec![out_of_custody(TREASURY, 200), out_of_custody(RECIPIENT, 9_800)]
    );
    // and with another token on the global default
    contract
        .create_escrow(3, DEPOSITOR, RECIPIENT, OUTSIDER, milestones(&[10_000]), 1_000)
        .unwrap();
    contract.deposit_funds(3).unwrap();
    let outcome = release(&mut contract, 3, 0);
    assert_eq!(outcome.transfers[0].amount, 50);
    assert_eq!(outcome.transfers[0].token, OUTSIDER);
    assert_eq!(outcome.transfers[1].amount, 9_950);
}

// ---- settlement ----

#[test]
fn payout_skips_parts_of_zero() {
    assert_eq!(
        payout(TOKEN, Some(TREASURY), RECIPIENT, 100, 9_900),
        vec![out_of_custody(TREASURY, 100), out_of_custody(RECIPIENT, 9_900)]
    );
    assert_eq!(payout(TOKEN, Some(TREASURY), RECIPIENT, 0, 500), vec![out_of_custody(RECIPIENT, 500)]);
    assert_eq!(payout(TOKEN, None, RECIPIENT, 0, 500), vec![out_of_custody(RECIPIENT, 500)]);
    assert_eq!(payout(TOKEN, Some(TREASURY), RECIPIENT, 500, 0), vec![out_of_custody(TREASURY, 500)]);
    assert_eq!(payout(TOKEN, Some(TREASURY), RECIPIENT, 0, 0), vec![]);
}

#[test]
fn settlement_quote_splits_fee_and_net() {
    let mut contract = contract_with_fee(Some(100));
    assert_eq!(
        contract.quote_settlement(1, TOKEN, 10_000, RECIPIENT),
        Ok((9_900, vec![out_of_custody(TREASURY, 100), out_of_custody(RECIPIENT, 9_900)]))
    );
    contract.set_escrow_fee(1, 0).unwrap();
    assert_eq!(
        contract.quote_settlement(1, TOKEN, 10_000, DEPOSITOR),
        Ok((10_000, vec![out_of_custody(DEPOSITOR, 10_000)]))
    );
    contract.set_escrow_fee(1, 10_000).unwrap();
    assert_eq!(
        contract.quote_settlement(1, TOKEN, 10_000, RECIPIENT),
        Ok((0, vec![out_of_custody(TREASURY, 10_000)]))
    );
    assert_eq!(contract.quote_settlement(1, TOKEN, 0, RECIPIENT), Ok((0, vec![])));
    // another escrow is still on the global rate
    assert_eq!(
        contract.quote_settlement(2, TOKEN, 12_345, RECIPIENT),
        Ok((12_222, vec![out_of_custody(TREASURY, 123), out_of_custody(RECIPIENT, 12_222)]))
    );
}

#[test]
fn settlement_quote_is_refused_like_a_settlement() {
    let mut contract = VaultixContract::new();
    contract.set_token_fee(TOKEN, 1).unwrap();
    assert_eq!(
        contract.quote_settlement(1, TOKEN, 10_000, RECIPIENT),
        Err(Error::TreasuryNotInitialized)
    );
    assert_eq!(
        contract.quote_settlement(1, TOKEN, 9_999, RECIPIENT),
        Ok((9_999, vec![out_of_custody(RECIPIENT, 9_999)]))
    );
    contract.initialize(TREASURY, None).unwrap();
    fund(&mut contract, 1, &[10_000]);
    contract.release_milestone(1, 0).unwrap();
    assert_eq!(
        contract.quote_settlement(1, TOKEN, 10_000, RECIPIENT),
        Err(Error::ReentrancyDetected)
    );
    contract.finish_settlement(1);
    assert_eq!(
        contract.quote_settlement(1, TOKEN, 10_000, RECIPIENT),
        Ok((9_999, vec![out_of_custody(TREASURY, 1), out_of_custody(RECIPIENT, 9_999)]))
    );
}

#[test]
fn release_at_full_rate_pays_the_treasury_only() {
    let mut contract = contract_with_fee(Some(10_000));
    fund(&mut contract, 1, &[700]);
    let outcome = release(&mut contract, 1, 0);
    assert_eq!(outcome.transfers, vec![out_of_custody(TREASURY, 700)]);
    assert_eq!(record(&contract, 1).total_released, 700);
}

#[test]
fn fee_without_treasury_is_refused() {
    let mut contract = VaultixContract::new();
    contract.set_escrow_fee(1, 100).unwrap();
    fund(&mut contract, 1, &[10_000]);
    let before = record(&contract, 1);
    assert_eq!(contract.release_milestone(1, 0), Err(Error::TreasuryNotInitialized));
    assert_eq!(contract.cancel_escrow(1), Err(Error::TreasuryNotInitialized));
    assert_eq!(contract.refund_expired(1, DEPOSITOR, 5_000), Err(Error::TreasuryNotInitialized));
    assert_eq!(record(&contract, 1), before);
    assert!(!contract.is_settling(1));
    // a fee that rounds down to zero needs no treasury
    contract.set_escrow_fee(2, 1).unwrap();
    fund(&mut contract, 2, &[9_999]);
    let outcome = release(&mut contract, 2, 0);
    assert_eq!(outcome.transfers, vec![out_of_custody(RECIPIENT, 9_999)]);
}

#[test]
fn settlement_in_flight_refuses_another_settlement() {
    let mut contract = contract_with_fee(None);
    fund(&mut contract, 1, &[100, 200, 300]);
    fund(&mut contract, 2, &[50]);
    assert!(!contract.is_settling(1));
    contract.release_milestone(1, 0).unwrap();
    assert!(contract.is_settling(1));
    let before = record(&contract, 1);
    assert_eq!(contract.release_milestone(1, 1), Err(Error::ReentrancyDetected));
    assert_eq!(contract.confirm_delivery(1, 1, DEPOSITOR), Err(Error::ReentrancyDetected));
    assert_eq!(contract.cancel_escrow(1), Err(Error::ReentrancyDetected));
    assert_eq!(contract.refund_expired(1, DEPOSITOR, 1_000), Err(Error::ReentrancyDetected));
    assert_eq!(record(&contract, 1), before);
    // validation comes first
    assert_eq!(contract.release_milestone(1, 0), Err(Error::MilestoneAlreadyReleased));
    // another escrow is not held up
    assert!(contract.release_milestone(2, 0).is_ok());
    contract.finish_settlement(1);
    assert!(!contract.is_settling(1));
    assert!(contract.is_settling(2));
    assert!(contract.release_milestone(1, 1).is_ok());
}

#[test]
fn settlement_in_flight_refuses_resolution() {
    let mut contract = contract_with_fee(None);
    fund(&mut contract, 1, &[100, 200]);
    contract.release_milestone(1, 0).unwrap();
    contract.raise_dispute(1, RECIPIENT).unwrap();
    assert_eq!(contract.resolve_dispute(1, RECIPIENT, None), Err(Error::ReentrancyDetected));
    assert_eq!(record(&contract, 1).status, EscrowStatus::Disputed);
    contract.finish_settlement(1);
    assert!(contract.resolve_dispute(1, RECIPIENT, None).is_ok());
}

#[test]
fn finish_settlement_without_one_changes_nothing() {
    let mut contract = contract_with_fee(None);
    fund(&mut contract, 1, &[100]);
    let before = record(&contract, 1);
    contract.finish_settlement(1);
    contract.finish_settlement(99);
    assert_eq!(record(&contract, 1), before);
    assert!(!contract.is_settling(1));
}

// ---- creation ----

#[test]
fn twenty_milestones_are_accepted_and_twenty_one_refused() {
    let mut contract = VaultixContract::new();
    let twenty = vec![100i128; 20];
    let outcome =
        contract.create_escrow(1, DEPOSITOR, RECIPIENT, TOKEN, milestones(&twenty), 9).unwrap();
    assert_eq!(
        outcome.event,
        Event::EscrowCreated {
            escrow_id: 1,
            depositor: DEPOSITOR,
            recipient: RECIPIENT,
            token: TOKEN,
            total_amount: 2_000,
            deadline: 9,
        }
    );
    assert_eq!(record(&contract, 1).milestones.len(), 20);
    assert_eq!(record(&contract, 1).total_amount, 2_000);
    let twenty_one = vec![100i128; 21];
    assert_eq!(
        contract.create_escrow(2, DEPOSITOR, RECIPIENT, TOKEN, milestones(&twenty_one), 9),
        Err(Error::TooManyMilestones)
    );
    assert_eq!(contract.get_escrow(2), Err(Error::EscrowNotFound));
}

#[test]
fn creation_without_milestones_is_refused() {
    let mut contract = VaultixContract::new();
    assert_eq!(
        contract.create_escrow(1, DEPOSITOR, RECIPIENT, TOKEN, Vec::new(), 9),
        Err(Error::NoMilestones)
    );
    assert_eq!(contract.get_escrow(1), Err(Error::EscrowNotFound));
}

#[test]
fn creation_beyond_the_range_of_an_amount_is_refused() {
    let mut contract = VaultixContract::new();
    assert_eq!(
        contract.create_escrow(1, DEPOSITOR, RECIPIENT, TOKEN, milestones(&[i128::MAX, 1]), 9),
        Err(Error::AmountOverflow)
    );
    let outcome = contract
        .create_escrow(1, DEPOSITOR, RECIPIENT, TOKEN, milestones(&[i128::MAX - 1, 1]), 9)
        .unwrap();
    assert_eq!(outcome.authorizer, DEPOSITOR);
    assert!(outcome.transfers.is_empty());
    assert_eq!(record(&contract, 1).total_amount, i128::MAX);
}

#[test]
fn creation_checks_in_order() {
    let mut contract = contract_with_fee(None);
    contract.create_escrow(1, DEPOSITOR, RECIPIENT, TOKEN, milestones(&[5]), 9).unwrap();
    // self-dealing comes before the id, the count and the amounts
    assert_eq!(
        contract.create_escrow(1, DEPOSITOR, DEPOSITOR, TOKEN, Vec::new(), 9),
        Err(Error::SelfDealing)
    );
    assert_eq!(
        contract.create_escrow(2, DEPOSITOR, DEPOSITOR, TOKEN, milestones(&[0]), 9),
        Err(Error::SelfDealing)
    );
    // the id before the milestones
    assert_eq!(
        contract.create_escrow(1, DEPOSITOR, RECIPIENT, TOKEN, Vec::new(), 9),
        Err(Error::EscrowAlreadyExists)
    );
    // the count before the amounts
    let many = vec![0i128; 21];
    assert_eq!(
        contract.create_escrow(2, DEPOSITOR, RECIPIENT, TOKEN, milestones(&many), 9),
        Err(Error::TooManyMilestones)
    );
    // an amount that is not positive before the sum
    assert_eq!(
        contract.create_escrow(2, DEPOSITOR, RECIPIENT, TOKEN, milestones(&[i128::MAX, 1, -1]), 9),
        Err(Error::ZeroAmount)
    );
    // the pause gate before everything
    contract.set_paused(true).unwrap();
    assert_eq!(
        contract.create_escrow(1, DEPOSITOR, DEPOSITOR, TOKEN, Vec::new(), 9),
        Err(Error::ContractPaused)
    );
    contract.set_paused(false).unwrap();
    assert!(contract.create_escrow(2, DEPOSITOR, RECIPIENT, TOKEN, milestones(&[5]), 9).is_ok());
}

#[test]
fn creation_starts_every_milestone_pending() {
    let mut contract = VaultixContract::new();
    let given = vec![
        Milestone { amount: 10, status: MilestoneStatus::Released, description: "A".to_string() },
        Milestone { amount: 20, status: MilestoneStatus::Disputed, description: "B".to_string() },
        Milestone { amount: 30, status: MilestoneStatus::Pending, description: "C".to_string() },
    ];
    contract.create_escrow(1, DEPOSITOR, RECIPIENT, TOKEN, given, 77).unwrap();
    let stored = record(&contract, 1);
    assert_eq!(statuses(&stored), vec![MilestoneStatus::Pending; 3]);
    assert_eq!(stored.milestones[0].description, "A");
    assert_eq!(stored.milestones[1].amount, 20);
    assert_eq!(stored.milestones[2].description, "C");
    assert_eq!(stored.id, 1);
    assert_eq!(stored.total_amount, 60);
    assert_eq!(stored.total_released, 0);
    assert_eq!(stored.deadline, 77);
    assert_eq!(stored.status, EscrowStatus::Created);
    assert_eq!(stored.resolution, Resolution::Unresolved);
    assert!(stored.is_valid());
}

#[test]
fn validate_milestones_reports_total_or_first_failure() {
    assert_eq!(validate_milestones(&milestones(&[3_000, 3_000, 4_000])), Ok(10_000));
    assert_eq!(validate_milestones(&milestones(&[1])), Ok(1));
    assert_eq!(validate_milestones(&Vec::new()), Err(Error::NoMilestones));
    assert_eq!(validate_milestones(&milestones(&[1; 21])), Err(Error::TooManyMilestones));
    assert_eq!(validate_milestones(&milestones(&[1; 20])), Ok(20));
    assert_eq!(validate_milestones(&milestones(&[5, 0])), Err(Error::ZeroAmount));
    assert_eq!(validate_milestones(&milestones(&[5, -7, 3])), Err(Error::ZeroAmount));
    assert_eq!(validate_milestones(&milestones(&[i128::MAX, i128::MAX])), Err(Error::AmountOverflow));
    assert_eq!(validate_milestones(&milestones(&[i128::MAX])), Ok(i128::MAX));
}

// ---- lifecycle ----

#[test]
fn transition_table() {
    assert_eq!(next_status(EscrowStatus::Created, Operation::Deposit), Ok(EscrowStatus::Active));
    assert_eq!(next_status(EscrowStatus::Active, Operation::Deposit), Err(Error::EscrowAlreadyFunded));
    for status in [EscrowStatus::Disputed, EscrowStatus::Resolved, EscrowStatus::Completed, EscrowStatus::Cancelled] {
        assert_eq!(next_status(status, Operation::Deposit), Err(Error::InvalidEscrowStatus));
    }
    assert_eq!(next_status(EscrowStatus::Active, Operation::Release), Ok(EscrowStatus::Active));
    assert_eq!(next_status(EscrowStatus::Active, Operation::Complete), Ok(EscrowStatus::Completed));
    assert_eq!(next_status(EscrowStatus::Active, Operation::RefundExpired), Ok(EscrowStatus::Cancelled));
    for status in [EscrowStatus::Created, EscrowStatus::Disputed, EscrowStatus::Resolved, EscrowStatus::Completed, EscrowStatus::Cancelled] {
        assert_eq!(next_status(status, Operation::Release), Err(Error::EscrowNotActive));
        assert_eq!(next_status(status, Operation::Complete), Err(Error::EscrowNotActive));
        assert_eq!(next_status(status, Operation::RefundExpired), Err(Error::EscrowNotActive));
    }
    assert_eq!(next_status(EscrowStatus::Created, Operation::Cancel), Ok(EscrowStatus::Cancelled));
    assert_eq!(next_status(EscrowStatus::Active, Operation::Cancel), Ok(EscrowStatus::Cancelled));
    for status in [EscrowStatus::Disputed, EscrowStatus::Resolved, EscrowStatus::Completed, EscrowStatus::Cancelled] {
        assert_eq!(next_status(status, Operation::Cancel), Err(Error::InvalidEscrowStatus));
    }
    assert_eq!(next_status(EscrowStatus::Active, Operation::RaiseDispute), Ok(EscrowStatus::Disputed));
    for status in [EscrowStatus::Created, EscrowStatus::Disputed, EscrowStatus::Resolved, EscrowStatus::Completed, EscrowStatus::Cancelled] {
        assert_eq!(next_status(status, Operation::RaiseDispute), Err(Error::InvalidEscrowStatus));
    }
    assert_eq!(next_status(EscrowStatus::Disputed, Operation::Resolve), Ok(EscrowStatus::Resolved));
    for status in [EscrowStatus::Created, EscrowStatus::Active, EscrowStatus::Resolved, EscrowStatus::Completed, EscrowStatus::Cancelled] {
        assert_eq!(next_status(status, Operation::Resolve), Err(Error::InvalidEscrowStatus));
    }
}

#[test]
fn restamp_rewrites_statuses_only() {
    let mixed = || {
        vec![
            Milestone { amount: 1, status: MilestoneStatus::Pending, description: "a".to_string() },
            Milestone { amount: 2, status: MilestoneStatus::Released, description: "b".to_string() },
            Milestone { amount: 3, status: MilestoneStatus::Disputed, description: "c".to_string() },
        ]
    };
    let stamped = |rule: Restamp| {
        let mut list = mixed();
        restamp(&mut list, rule);
        assert_eq!(list.iter().map(|m| m.amount).collect::<Vec<i128>>(), vec![1, 2, 3]);
        assert_eq!(list[2].description, "c");
        list.iter().map(|m| m.status).collect::<Vec<MilestoneStatus>>()
    };
    assert_eq!(stamped(Restamp::AllPending), vec![MilestoneStatus::Pending, MilestoneStatus::Pending, MilestoneStatus::Pending]);
    assert_eq!(stamped(Restamp::PendingToDisputed), vec![MilestoneStatus::Disputed, MilestoneStatus::Released, MilestoneStatus::Disputed]);
    assert_eq!(stamped(Restamp::UnreleasedToReleased), vec![MilestoneStatus::Released, MilestoneStatus::Released, MilestoneStatus::Released]);
    assert_eq!(stamped(Restamp::UnreleasedToDisputed), vec![MilestoneStatus::Disputed, MilestoneStatus::Released, MilestoneStatus::Disputed]);
    assert_eq!(Restamp::PendingToDisputed.stamp(MilestoneStatus::Pending), MilestoneStatus::Disputed);
    assert_eq!(Restamp::UnreleasedToDisputed.stamp(MilestoneStatus::Released), MilestoneStatus::Released);
}

#[test]
fn deposit_collects_the_total_from_the_depositor() {
    let mut contract = VaultixContract::new();
    contract.create_escrow(1, DEPOSITOR, RECIPIENT, TOKEN, milestones(&[40, 60]), 9).unwrap();
    let outcome = contract.deposit_funds(1).unwrap();
    assert_eq!(outcome.authorizer, DEPOSITOR);
    assert_eq!(
        outcome.transfers,
        vec![Transfer {
            token: TOKEN,
            from: Account::Holder(DEPOSITOR),
            to: Account::Custody,
            amount: 100,
        }]
    );
    assert_eq!(outcome.event, Event::EscrowFunded { escrow_id: 1, amount: 100 });
    assert!(!contract.is_settling(1));
    assert_eq!(record(&contract, 1).status, EscrowStatus::Active);
}

#[test]
fn deposit_is_refused_off_the_created_status() {
    let mut contract = contract_with_fee(None);
    assert_eq!(contract.deposit_funds(1), Err(Error::EscrowNotFound));
    fund(&mut contract, 1, &[10]);
    assert_eq!(contract.deposit_funds(1), Err(Error::EscrowAlreadyFunded));
    contract.raise_dispute(1, DEPOSITOR).unwrap();
    assert_eq!(contract.deposit_funds(1), Err(Error::InvalidEscrowStatus));
    contract.resolve_dispute(1, DEPOSITOR, None).unwrap();
    assert_eq!(contract.deposit_funds(1), Err(Error::InvalidEscrowStatus));
    contract.create_escrow(2, DEPOSITOR, RECIPIENT, TOKEN, milestones(&[10]), 9).unwrap();
    contract.cancel_escrow(2).unwrap();
    assert_eq!(contract.deposit_funds(2), Err(Error::InvalidEscrowStatus));
    // the pause gate comes before the lookup
    contract.set_paused(true).unwrap();
    assert_eq!(contract.deposit_funds(99), Err(Error::ContractPaused));
}

#[test]
fn release_marks_the_milestone_and_adds_to_the_released_total() {
    let mut contract = contract_with_fee(Some(100));
    fund(&mut contract, 1, &[10_000, 5_000]);
    let outcome = contract.release_milestone(1, 1).unwrap();
    assert_eq!(outcome.authorizer, DEPOSITOR);
    assert_eq!(
        outcome.transfers,
        vec![out_of_custody(TREASURY, 50), out_of_custody(RECIPIENT, 4_950)]
    );
    assert_eq!(outcome.event, Event::MilestoneReleased { escrow_id: 1, index: 1, amount: 5_000 });
    let after = record(&contract, 1);
    assert_eq!(statuses(&after), vec![MilestoneStatus::Pending, MilestoneStatus::Released]);
    assert_eq!(after.total_released, 5_000);
    assert_eq!(after.total_amount, 15_000);
    assert_eq!(after.status, EscrowStatus::Active);
    assert!(after.is_valid());
}

#[test]
fn release_of_the_last_milestone_does_not_complete() {
    let mut contract = contract_with_fee(None);
    fund(&mut contract, 1, &[10, 20]);
    release(&mut contract, 1, 0);
    assert_eq!(contract.complete_escrow(1), Err(Error::MilestonesOutstanding));
    release(&mut contract, 1, 1);
    let after = record(&contract, 1);
    assert_eq!(after.status, EscrowStatus::Active);
    assert_eq!(after.total_released, after.total_amount);
    let outcome = contract.complete_escrow(1).unwrap();
    assert!(outcome.transfers.is_empty());
    assert_eq!(outcome.event, Event::EscrowCompleted { escrow_id: 1 });
    assert_eq!(record(&contract, 1).status, EscrowStatus::Completed);
    assert!(!contract.is_settling(1));
}

#[test]
fn release_is_refused_in_order() {
    let mut contract = contract_with_fee(None);
    assert_eq!(contract.release_milestone(1, 0), Err(Error::EscrowNotFound));
    assert_eq!(contract.confirm_delivery(1, 0, OUTSIDER), Err(Error::EscrowNotFound));
    contract.create_escrow(1, DEPOSITOR, RECIPIENT, TOKEN, milestones(&[10, 20]), 9).unwrap();
    // the caller before the status, the status before the index
    assert_eq!(contract.confirm_delivery(1, 5, RECIPIENT), Err(Error::Unauthorized));
    assert_eq!(contract.confirm_delivery(1, 5, DEPOSITOR), Err(Error::EscrowNotActive));
    assert_eq!(contract.release_milestone(1, 5), Err(Error::EscrowNotActive));
    contract.deposit_funds(1).unwrap();
    assert_eq!(contract.release_milestone(1, 2), Err(Error::MilestoneNotFound));
    assert_eq!(contract.release_milestone(1, u32::MAX), Err(Error::MilestoneNotFound));
    release(&mut contract, 1, 1);
    assert_eq!(contract.release_milestone(1, 1), Err(Error::MilestoneAlreadyReleased));
    assert_eq!(contract.confirm_delivery(1, 1, DEPOSITOR), Err(Error::MilestoneAlreadyReleased));
    assert_eq!(record(&contract, 1).total_released, 20);
}

#[test]
fn complete_is_refused_off_the_active_status() {
    let mut contract = contract_with_fee(None);
    assert_eq!(contract.complete_escrow(1), Err(Error::EscrowNotFound));
    contract.create_escrow(1, DEPOSITOR, RECIPIENT, TOKEN, milestones(&[10]), 9).unwrap();
    assert_eq!(contract.complete_escrow(1), Err(Error::EscrowNotActive));
    contract.deposit_funds(1).unwrap();
    release(&mut contract, 1, 0);
    contract.complete_escrow(1).unwrap();
    assert_eq!(contract.complete_escrow(1), Err(Error::EscrowNotActive));
}

#[test]
fn cancel_refunds_what_was_not_released() {
    let mut contract = contract_with_fee(Some(100));
    fund(&mut contract, 1, &[4_000, 6_000]);
    release(&mut contract, 1, 0);
    let outcome = contract.cancel_escrow(1).unwrap();
    assert_eq!(outcome.authorizer, DEPOSITOR);
    assert_eq!(
        outcome.transfers,
        vec![out_of_custody(TREASURY, 60), out_of_custody(DEPOSITOR, 5_940)]
    );
    assert_eq!(outcome.event, Event::EscrowCancelled { escrow_id: 1, refund: 6_000 });
    assert!(contract.is_settling(1));
    let after = record(&contract, 1);
    assert_eq!(after.status, EscrowStatus::Cancelled);
    assert_eq!(after.total_released, 4_000);
    assert_eq!(statuses(&after), vec![MilestoneStatus::Released, MilestoneStatus::Pending]);
    assert!(after.is_valid());
}

#[test]
fn cancel_of_an_unfunded_escrow_moves_nothing() {
    let mut contract = contract_with_fee(Some(100));
    contract.create_escrow(1, DEPOSITOR, RECIPIENT, TOKEN, milestones(&[10]), 9).unwrap();
    let outcome = contract.cancel_escrow(1).unwrap();
    assert!(outcome.transfers.is_empty());
    assert_eq!(outcome.event, Event::EscrowCancelled { escrow_id: 1, refund: 0 });
    assert!(!contract.is_settling(1));
    assert_eq!(record(&contract, 1).status, EscrowStatus::Cancelled);
}

#[test]
fn cancel_after_every_release_moves_nothing() {
    let mut contract = contract_with_fee(Some(100));
    fund(&mut contract, 1, &[10]);
    release(&mut contract, 1, 0);
    let outcome = contract.cancel_escrow(1).unwrap();
    assert!(outcome.transfers.is_empty());
    assert_eq!(outcome.event, Event::EscrowCancelled { escrow_id: 1, refund: 0 });
    assert!(contract.is_settling(1));
}

#[test]
fn cancel_is_refused_off_created_and_active() {
    let mut contract = contract_with_fee(None);
    assert_eq!(contract.cancel_escrow(1), Err(Error::EscrowNotFound));
    fund(&mut contract, 1, &[10]);
    contract.raise_dispute(1, DEPOSITOR).unwrap();
    assert_eq!(contract.cancel_escrow(1), Err(Error::InvalidEscrowStatus));
    contract.resolve_dispute(1, RECIPIENT, None).unwrap();
    assert_eq!(contract.cancel_escrow(1), Err(Error::InvalidEscrowStatus));
    fund(&mut contract, 2, &[10]);
    contract.cancel_escrow(2).unwrap();
    assert_eq!(contract.cancel_escrow(2), Err(Error::InvalidEscrowStatus));
}

#[test]
fn refund_waits_for_the_deadline() {
    let mut contract = contract_with_fee(Some(500));
    fund(&mut contract, 1, &[10_000]);
    assert_eq!(contract.refund_expired(1, DEPOSITOR, 999), Err(Error::DeadlineNotReached));
    assert_eq!(record(&contract, 1).status, EscrowStatus::Active);
    let outcome = contract.refund_expired(1, DEPOSITOR, 1_000).unwrap();
    assert_eq!(outcome.authorizer, DEPOSITOR);
    assert_eq!(
        outcome.transfers,
        vec![out_of_custody(TREASURY, 500), out_of_custody(DEPOSITOR, 9_500)]
    );
    assert_eq!(outcome.event, Event::EscrowRefunded { escrow_id: 1, refund: 10_000 });
    assert!(contract.is_settling(1));
    assert_eq!(record(&contract, 1).status, EscrowStatus::Cancelled);
}

#[test]
fn refund_is_refused_in_order() {
    let mut contract = contract_with_fee(None);
    assert_eq!(contract.refund_expired(1, DEPOSITOR, 0), Err(Error::EscrowNotFound));
    contract.create_escrow(1, DEPOSITOR, RECIPIENT, TOKEN, milestones(&[10]), 1_000).unwrap();
    assert_eq!(contract.refund_expired(1, RECIPIENT, 0), Err(Error::Unauthorized));
    assert_eq!(contract.refund_expired(1, DEPOSITOR, 0), Err(Error::EscrowNotActive));
    contract.deposit_funds(1).unwrap();
    assert_eq!(contract.refund_expired(1, OUTSIDER, 2_000), Err(Error::Unauthorized));
    assert_eq!(contract.refund_expired(1, DEPOSITOR, 0), Err(Error::DeadlineNotReached));
}

// ---- disputes ----

#[test]
fn dispute_marks_pending_milestones_and_keeps_released_ones() {
    let mut contract = contract_with_fee(None);
    fund(&mut contract, 1, &[10, 20, 30]);
    release(&mut contract, 1, 1);
    let outcome = contract.raise_dispute(1, RECIPIENT).unwrap();
    assert_eq!(outcome.authorizer, RECIPIENT);
    assert!(outcome.transfers.is_empty());
    assert_eq!(outcome.event, Event::DisputeRaised { escrow_id: 1, raised_by: RECIPIENT });
    let after = record(&contract, 1);
    assert_eq!(
        statuses(&after),
        vec![MilestoneStatus::Disputed, MilestoneStatus::Released, MilestoneStatus::Disputed]
    );
    assert_eq!(after.status, EscrowStatus::Disputed);
    assert_eq!(after.resolution, Resolution::Unresolved);
    assert_eq!(after.total_released, 20);
    assert!(after.is_valid());
    assert!(!contract.is_settling(1));
}

#[test]
fn dispute_is_refused_in_order() {
    let mut contract = contract_with_fee(None);
    assert_eq!(contract.raise_dispute(1, DEPOSITOR), Err(Error::EscrowNotFound));
    contract.create_escrow(1, DEPOSITOR, RECIPIENT, TOKEN, milestones(&[10]), 9).unwrap();
    assert_eq!(contract.raise_dispute(1, OUTSIDER), Err(Error::Unauthorized));
    assert_eq!(contract.raise_dispute(1, DEPOSITOR), Err(Error::InvalidEscrowStatus));
    contract.deposit_funds(1).unwrap();
    assert_eq!(contract.raise_dispute(1, ARBITRATOR), Err(Error::Unauthorized));
    contract.raise_dispute(1, DEPOSITOR).unwrap();
    assert_eq!(contract.raise_dispute(1, RECIPIENT), Err(Error::InvalidEscrowStatus));
}

#[test]
fn dispute_freezes_every_release() {
    let mut contract = contract_with_fee(None);
    fund(&mut contract, 1, &[10, 20]);
    contract.raise_dispute(1, DEPOSITOR).unwrap();
    let before = record(&contract, 1);
    assert_eq!(contract.release_milestone(1, 0), Err(Error::EscrowNotActive));
    assert_eq!(contract.release_milestone(1, 1), Err(Error::EscrowNotActive));
    assert_eq!(contract.release_milestone(1, 7), Err(Error::EscrowNotActive));
    assert_eq!(contract.confirm_delivery(1, 0, DEPOSITOR), Err(Error::EscrowNotActive));
    assert_eq!(contract.complete_escrow(1), Err(Error::EscrowNotActive));
    assert_eq!(contract.refund_expired(1, DEPOSITOR, u64::MAX), Err(Error::EscrowNotActive));
    assert_eq!(record(&contract, 1), before);
}

#[test]
fn resolution_for_the_recipient_pays_the_rest_and_releases_all() {
    let mut contract = contract_with_fee(Some(100));
    fund(&mut contract, 1, &[4_000, 6_000]);
    release(&mut contract, 1, 0);
    contract.raise_dispute(1, DEPOSITOR).unwrap();
    let outcome = contract.resolve_dispute(1, RECIPIENT, Some("delivered".to_string())).unwrap();
    assert_eq!(outcome.authorizer, ARBITRATOR);
    assert_eq!(
        outcome.transfers,
        vec![out_of_custody(TREASURY, 60), out_of_custody(RECIPIENT, 5_940)]
    );
    assert_eq!(
        outcome.event,
        Event::DisputeResolved {
            escrow_id: 1,
            winner: RECIPIENT,
            note: Some("delivered".to_string()),
        }
    );
    let after = record(&contract, 1);
    assert_eq!(statuses(&after), vec![MilestoneStatus::Released; 2]);
    assert_eq!(after.total_released, 10_000);
    assert_eq!(after.total_amount, 10_000);
    assert_eq!(after.status, EscrowStatus::Resolved);
    assert_eq!(after.resolution, Resolution::Recipient);
    assert!(after.is_valid());
    assert!(contract.is_settling(1));
}

#[test]
fn resolution_for_the_depositor_releases_nothing_further() {
    let mut contract = contract_with_fee(Some(100));
    fund(&mut contract, 1, &[4_000, 6_000]);
    release(&mut contract, 1, 0);
    let released_before_dispute = record(&contract, 1).total_released;
    contract.raise_dispute(1, RECIPIENT).unwrap();
    let outcome = contract.resolve_dispute(1, DEPOSITOR, None).unwrap();
    assert_eq!(
        outcome.transfers,
        vec![out_of_custody(TREASURY, 60), out_of_custody(DEPOSITOR, 5_940)]
    );
    assert_eq!(
        outcome.event,
        Event::DisputeResolved { escrow_id: 1, winner: DEPOSITOR, note: None }
    );
    let after = record(&contract, 1);
    assert_eq!(statuses(&after), vec![MilestoneStatus::Released, MilestoneStatus::Disputed]);
    assert_eq!(after.total_released, released_before_dispute);
    assert_eq!(after.total_released, 4_000);
    assert_eq!(after.status, EscrowStatus::Resolved);
    assert_eq!(after.resolution, Resolution::Depositor);
    assert!(after.is_valid());
}

#[test]
fn resolution_is_refused_in_order() {
    let mut contract = VaultixContract::new();
    // the arbitrator before the record
    assert_eq!(contract.resolve_dispute(1, OUTSIDER, None), Err(Error::ArbitratorNotInitialized));
    contract.init(ADMIN, OPERATOR, ARBITRATOR).unwrap();
    assert_eq!(contract.resolve_dispute(1, OUTSIDER, None), Err(Error::EscrowNotFound));
    fund(&mut contract, 1, &[10]);
    // the status before the winner
    assert_eq!(contract.resolve_dispute(1, OUTSIDER, None), Err(Error::InvalidEscrowStatus));
    assert_eq!(contract.resolve_dispute(1, RECIPIENT, None), Err(Error::InvalidEscrowStatus));
    contract.raise_dispute(1, DEPOSITOR).unwrap();
    assert_eq!(contract.resolve_dispute(1, ARBITRATOR, None), Err(Error::InvalidWinner));
    assert_eq!(record(&contract, 1).status, EscrowStatus::Disputed);
    contract.resolve_dispute(1, DEPOSITOR, None).unwrap();
    contract.finish_settlement(1);
    assert_eq!(contract.resolve_dispute(1, DEPOSITOR, None), Err(Error::InvalidEscrowStatus));
}

#[test]
fn terminal_records_admit_no_operation() {
    let mut contract = contract_with_fee(None);
    // completed, cancelled, resolved
    fund(&mut contract, 1, &[10]);
    release(&mut contract, 1, 0);
    contract.complete_escrow(1).unwrap();
    fund(&mut contract, 2, &[10]);
    contract.cancel_escrow(2).unwrap();
    contract.finish_settlement(2);
    fund(&mut contract, 3, &[10]);
    contract.raise_dispute(3, DEPOSITOR).unwrap();
    contract.resolve_dispute(3, RECIPIENT, None).unwrap();
    contract.finish_settlement(3);
    for id in [1u64, 2, 3] {
        let before = record(&contract, id);
        assert!(contract
            .create_escrow(id, DEPOSITOR, RECIPIENT, TOKEN, milestones(&[1]), 9)
            .is_err());
        assert!(contract.deposit_funds(id).is_err());
        assert!(contract.release_milestone(id, 0).is_err());
        assert!(contract.confirm_delivery(id, 0, DEPOSITOR).is_err());
        assert!(contract.complete_escrow(id).is_err());
        assert!(contract.cancel_escrow(id).is_err());
        assert!(contract.refund_expired(id, DEPOSITOR, u64::MAX).is_err());
        assert!(contract.raise_dispute(id, DEPOSITOR).is_err());
        assert!(contract.resolve_dispute(id, DEPOSITOR, None).is_err());
        assert_eq!(record(&contract, id), before);
        assert!(!contract.is_settling(id));
    }
}

#[test]
fn released_total_stays_within_the_total() {
    let mut contract = contract_with_fee(Some(250));
    let amounts = [7i128, 11, 13, 17, 19];
    fund(&mut contract, 1, &amounts);
    let mut released = 0i128;
    for index in [3u32, 0, 4, 1, 2] {
        release(&mut contract, 1, index);
        released += amounts[index as usize];
        let now = record(&contract, 1);
        assert_eq!(now.total_released, released);
        assert_eq!(now.total_amount, 67);
        assert_eq!(now.milestones.iter().map(|m| m.amount).sum::<i128>(), now.total_amount);
        assert!(0 <= now.total_released && now.total_released <= now.total_amount);
        assert!(now.is_valid());
    }
    assert_eq!(record(&contract, 1).total_released, 67);
}

// ---- roles and pause ----

#[test]
fn roles_are_assigned_once() {
    let mut contract = VaultixContract::new();
    assert_eq!(*contract.roles(), RoleRegistry::new());
    assert_eq!(contract.roles().operator, None);
    contract.init(ADMIN, OPERATOR, ARBITRATOR).unwrap();
    assert_eq!(contract.roles().admin, Some(ADMIN));
    assert_eq!(contract.roles().operator, Some(OPERATOR));
    assert_eq!(contract.roles().arbitrator, Some(ARBITRATOR));
    assert_eq!(contract.init(OUTSIDER, OUTSIDER, OUTSIDER), Err(Error::AlreadyInitialized));
    assert_eq!(contract.roles().admin, Some(ADMIN));
    assert_eq!(contract.roles().treasury, None);
}

#[test]
fn registry_assigns_once() {
    let mut roles = RoleRegistry::new();
    assert!(!roles.is_populated());
    assert_eq!(roles.assign(ADMIN, OPERATOR, ARBITRATOR), Ok(()));
    assert!(roles.is_populated());
    assert_eq!(roles.assign(OUTSIDER, OUTSIDER, OUTSIDER), Err(Error::AlreadyInitialized));
    assert_eq!(roles.arbitrator, Some(ARBITRATOR));
    let partial = RoleRegistry { arbitrator: Some(ARBITRATOR), ..RoleRegistry::new() };
    assert!(partial.is_populated());
}

#[test]
fn treasury_is_named_once() {
    let mut contract = VaultixContract::new();
    assert_eq!(contract.initialize(TREASURY, Some(10_001)), Err(Error::InvalidFeeConfiguration));
    assert_eq!(contract.roles().treasury, None);
    contract.initialize(TREASURY, Some(10_000)).unwrap();
    assert_eq!(contract.roles().treasury, Some(TREASURY));
    assert_eq!(contract.fees().global_default(), Some(10_000));
    assert_eq!(contract.initialize(OUTSIDER, None), Err(Error::AlreadyInitialized));
    assert_eq!(contract.initialize(OUTSIDER, Some(10_001)), Err(Error::AlreadyInitialized));
    assert_eq!(contract.roles().treasury, Some(TREASURY));
    assert_eq!(contract.fee_bps(1, TOKEN), 10_000);
    // independent of the roles
    assert_eq!(contract.roles().admin, None);
}

#[test]
fn pause_gates_new_commitments_only() {
    let mut contract = contract_with_fee(None);
    fund(&mut contract, 1, &[10, 20]);
    fund(&mut contract, 2, &[10]);
    fund(&mut contract, 3, &[10]);
    contract.create_escrow(4, DEPOSITOR, RECIPIENT, TOKEN, milestones(&[10]), 9).unwrap();
    assert_eq!(contract.set_paused(true), Ok(OPERATOR));
    assert!(contract.is_paused());
    assert_eq!(
        contract.create_escrow(5, DEPOSITOR, RECIPIENT, TOKEN, milestones(&[10]), 9),
        Err(Error::ContractPaused)
    );
    assert_eq!(contract.deposit_funds(4), Err(Error::ContractPaused));
    assert!(contract.release_milestone(1, 0).is_ok());
    assert!(contract.cancel_escrow(2).is_ok());
    assert!(contract.raise_dispute(3, RECIPIENT).is_ok());
    assert!(contract.resolve_dispute(3, RECIPIENT, None).is_ok());
    assert!(contract.set_token_fee(TOKEN, 5).is_ok());
    assert_eq!(contract.set_paused(false), Ok(OPERATOR));
    assert!(!contract.is_paused());
    assert!(contract.deposit_funds(4).is_ok());
}

// ---- records ----

fn valid_record() -> Escrow {
    Escrow {
        id: 9,
        depositor: DEPOSITOR,
        recipient: RECIPIENT,
        token_address: TOKEN,
        milestones: vec![
            Milestone { amount: 40, status: MilestoneStatus::Released, description: "a".to_string() },
            Milestone { amount: 60, status: MilestoneStatus::Pending, description: "b".to_string() },
        ],
        total_amount: 100,
        total_released: 40,
        deadline: 5,
        status: EscrowStatus::Active,
        resolution: Resolution::Unresolved,
    }
}

#[test]
fn record_invariant_is_checked() {
    assert!(valid_record().is_valid());
    assert_eq!(valid_record().remaining(), 60);
    assert!(valid_record().is_party(DEPOSITOR));
    assert!(valid_record().is_party(RECIPIENT));
    assert!(!valid_record().is_party(OUTSIDER));
    assert!(!valid_record().is_fully_released());
    let broken: Vec<Box<dyn Fn(&mut Escrow)>> = vec![
        Box::new(|r| r.total_amount = 101),
        Box::new(|r| r.total_released = 41),
        Box::new(|r| r.total_released = 100),
        Box::new(|r| r.recipient = DEPOSITOR),
        Box::new(|r| r.milestones.clear()),
        Box::new(|r| r.milestones[1].amount = 0),
        Box::new(|r| r.milestones[1].amount = -60),
        Box::new(|r| r.milestones[1].status = MilestoneStatus::Disputed),
        Box::new(|r| r.status = EscrowStatus::Created),
        Box::new(|r| r.status = EscrowStatus::Completed),
        Box::new(|r| r.status = EscrowStatus::Disputed),
        Box::new(|r| r.status = EscrowStatus::Resolved),
        Box::new(|r| r.resolution = Resolution::Depositor),
        Box::new(|r| {
            r.milestones = (0..21)
                .map(|_| Milestone {
                    amount: 1,
                    status: MilestoneStatus::Pending,
                    description: String::new(),
                })
                .collect();
            r.total_amount = 21;
            r.total_released = 0;
        }),
        Box::new(|r| {
            r.milestones[0].amount = i128::MAX;
            r.milestones[1].amount = i128::MAX;
        }),
    ];
    for breaking in broken.iter() {
        let mut record = valid_record();
        breaking(&mut record);
        assert!(!record.is_valid());
    }
    let mut cancelled = valid_record();
    cancelled.status = EscrowStatus::Cancelled;
    assert!(cancelled.is_valid());
    let mut resolved = valid_record();
    resolved.status = EscrowStatus::Resolved;
    resolved.resolution = Resolution::Depositor;
    resolved.milestones[1].status = MilestoneStatus::Disputed;
    assert!(resolved.is_valid());
    resolved.resolution = Resolution::Recipient;
    assert!(!resolved.is_valid());
}

#[test]
fn milestone_statuses_fit_the_status_of_the_record() {
    let none = Resolution::Unresolved;
    assert!(admits(EscrowStatus::Created, none, MilestoneStatus::Pending));
    assert!(!admits(EscrowStatus::Created, none, MilestoneStatus::Released));
    assert!(admits(EscrowStatus::Active, none, MilestoneStatus::Released));
    assert!(!admits(EscrowStatus::Active, none, MilestoneStatus::Disputed));
    assert!(admits(EscrowStatus::Cancelled, none, MilestoneStatus::Pending));
    assert!(!admits(EscrowStatus::Completed, none, MilestoneStatus::Pending));
    assert!(admits(EscrowStatus::Completed, none, MilestoneStatus::Released));
    assert!(!admits(EscrowStatus::Disputed, none, MilestoneStatus::Pending));
    assert!(admits(EscrowStatus::Disputed, none, MilestoneStatus::Disputed));
    assert!(admits(EscrowStatus::Resolved, Resolution::Depositor, MilestoneStatus::Disputed));
    assert!(!admits(EscrowStatus::Resolved, Resolution::Recipient, MilestoneStatus::Disputed));
    assert!(admits(EscrowStatus::Resolved, Resolution::Recipient, MilestoneStatus::Released));
}

#[test]
fn records_are_restored_from_storage() {
    let mut contract = contract_with_fee(None);
    assert_eq!(contract.restore_escrow(valid_record(), true), Ok(()));
    assert_eq!(record(&contract, 9), valid_record());
    assert!(contract.is_settling(9));
    assert_eq!(contract.restore_escrow(valid_record(), false), Err(Error::EscrowAlreadyExists));
    let mut broken = valid_record();
    broken.id = 10;
    broken.total_released = 0;
    assert_eq!(contract.restore_escrow(broken, false), Err(Error::InvalidRecord));
    assert_eq!(contract.get_escrow(10), Err(Error::EscrowNotFound));
    let mut other = valid_record();
    other.id = 11;
    assert_eq!(contract.restore_escrow(other, false), Ok(()));
    assert!(!contract.is_settling(11));
    // the restored record goes on through its lifecycle
    contract.finish_settlement(9);
    let outcome = contract.release_milestone(9, 1).unwrap();
    assert_eq!(outcome.transfers, vec![out_of_custody(RECIPIENT, 60)]);
    assert_eq!(record(&contract, 9).total_released, 100);
}

#[test]
fn lookup_of_an_unknown_escrow_fails() {
    let contract = VaultixContract::new();
    assert_eq!(contract.get_escrow(1), Err(Error::EscrowNotFound));
    assert!(!contract.is_settling(1));
    assert!(!contract.is_paused());
    assert_eq!(contract.fee_bps(1, TOKEN), 0);
}

#[test]
fn events_carry_their_name_and_subject() {
    let events = vec![
        (
            Event::EscrowCreated {
                escrow_id: 1,
                depositor: DEPOSITOR,
                recipient: RECIPIENT,
                token: TOKEN,
                total_amount: 5,
                deadline: 6,
            },
            "EscrowCreated",
        ),
        (Event::EscrowFunded { escrow_id: 1, amount: 5 }, "EscrowFunded"),
        (Event::MilestoneReleased { escrow_id: 1, index: 0, amount: 5 }, "MilestoneReleased"),
        (Event::EscrowCompleted { escrow_id: 1 }, "EscrowCompleted"),
        (Event::EscrowCancelled { escrow_id: 1, refund: 5 }, "EscrowCancelled"),
        (Event::EscrowRefunded { escrow_id: 1, refund: 5 }, "EscrowRefunded"),
        (Event::DisputeRaised { escrow_id: 1, raised_by: DEPOSITOR }, "DisputeRaised"),
        (Event::DisputeResolved { escrow_id: 1, winner: DEPOSITOR, note: None }, "DisputeResolved"),
    ];
    for (event, name) in events.iter() {
        assert_eq!(event.name(), *name);
        assert_eq!(event.escrow_id(), 1);
    }
}
