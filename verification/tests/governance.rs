use soroban_sdk::testutils::Address as _;
use soroban_sdk::{Address, Env};
use stellar_wrap::error::ContractError;
use stellar_wrap::governance::{new_admin_proposal, MAX_PROPOSAL_DURATION};
use stellar_wrap::storage_types::ProposalStatus;

#[test]
fn proposal_duration_is_at_most_thirty_days() {
    assert_eq!(MAX_PROPOSAL_DURATION, 2_592_000);
}

#[test]
fn hundred_second_proposal_is_opened_and_active() {
    let env = Env::default();
    let proposer = Address::generate(&env);
    let proposed = Address::generate(&env);
    let p = new_admin_proposal(0, 0, 100, proposer, proposed).unwrap();
    assert_eq!(p.id, 1);
    assert_eq!(p.status, ProposalStatus::Active);
    assert_eq!(p.end_time, 100);
    assert!(p.end_time < 101);
}

#[test]
fn opened_proposal_takes_next_id_and_runs_for_duration() {
    let env = Env::default();
    let proposer = Address::generate(&env);
    let proposed = Address::generate(&env);
    let p = new_admin_proposal(4, 1_000, 7_200, proposer.clone(), proposed.clone()).unwrap();
    assert_eq!(p.id, 5);
    assert_eq!(p.proposer, proposer);
    assert_eq!(p.proposed_admin, proposed);
    assert_eq!(p.votes_for, 0);
    assert_eq!(p.votes_against, 0);
    assert_eq!(p.start_time, 1_000);
    assert_eq!(p.end_time, 8_200);
    assert_eq!(p.status, ProposalStatus::Active);
}

#[test]
fn first_proposal_has_id_one() {
    let env = Env::default();
    let p = new_admin_proposal(0, 0, 100 * 60, Address::generate(&env), Address::generate(&env))
        .unwrap();
    assert_eq!(p.id, 1);
    assert_eq!(p.end_time, 6_000);
}

#[test]
fn duration_bounds_are_inclusive() {
    let env = Env::default();
    let a = Address::generate(&env);
    assert!(new_admin_proposal(0, 10, 0, a.clone(), a.clone()).is_ok());
    assert!(new_admin_proposal(0, 10, 1, a.clone(), a.clone()).is_ok());
    assert!(new_admin_proposal(0, 10, MAX_PROPOSAL_DURATION, a.clone(), a.clone()).is_ok());
}

#[test]
fn duration_over_thirty_days_is_refused() {
    let env = Env::default();
    let a = Address::generate(&env);
    for d in [MAX_PROPOSAL_DURATION + 1, u64::MAX] {
        assert_eq!(
            new_admin_proposal(0, 10, d, a.clone(), a.clone()).unwrap_err(),
            ContractError::InvalidProposalDuration
        );
    }
}

#[test]
fn end_time_past_largest_timestamp_is_refused() {
    let env = Env::default();
    let a = Address::generate(&env);
    let now = u64::MAX - 99;
    assert_eq!(
        new_admin_proposal(0, now, 100, a.clone(), a.clone()).unwrap_err(),
        ContractError::InvalidProposalDuration
    );
    let now = u64::MAX - 100;
    assert_eq!(new_admin_proposal(0, now, 100, a.clone(), a).unwrap().end_time, u64::MAX);
}

#[test]
fn invalid_duration_is_refused_even_at_the_last_id() {
    let env = Env::default();
    let a = Address::generate(&env);
    assert_eq!(
        new_admin_proposal(u64::MAX, 0, MAX_PROPOSAL_DURATION + 1, a.clone(), a).unwrap_err(),
        ContractError::InvalidProposalDuration
    );
}
