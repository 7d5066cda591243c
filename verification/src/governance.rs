//! The rules for opening an admin proposal.

use vstd::prelude::*;
use soroban_sdk::Address;
use crate::error::ContractError;
use crate::storage_types::{AdminProposal, ProposalStatus};

verus! {

/// Maximum duration for an admin proposal (30 days).
pub const MAX_PROPOSAL_DURATION: u64 = 30 * 24 * 60 * 60;

/// Whether a proposal may run for `duration_seconds`: any duration up to
/// thirty days.
pub open spec fn duration_allowed(duration_seconds: u64) -> bool {
    duration_seconds <= MAX_PROPOSAL_DURATION
}

/// The proposal that is opened when `proposal_count` proposals exist, the
/// ledger time is `now` and the requested duration is acceptable.
pub open spec fn opened_proposal(
    proposal_count: u64,
    now: u64,
    duration_seconds: u64,
    proposer: Address,
    proposed_admin: Address,
) -> AdminProposal {
    AdminProposal {
        id: (proposal_count + 1) as u64,
        proposer,
        proposed_admin,
        votes_for: 0,
        votes_against: 0,
        start_time: now,
        end_time: (now + duration_seconds) as u64,
        status: ProposalStatus::Active,
    }
}

/// An opened proposal takes the next id, starts at `now`, ends exactly
/// `duration_seconds` later, has no votes and is active, whenever the
/// duration is at most thirty days and the end time fits in a timestamp.
pub proof fn lemma_opened_proposal_runs_for_its_duration(
    proposal_count: u64,
    now: u64,
    duration_seconds: u64,
    proposer: Address,
    proposed_admin: Address,
)
    requires
        proposal_count < u64::MAX,
        duration_seconds <= MAX_PROPOSAL_DURATION,
        now + duration_seconds <= u64::MAX,
    ensures
        ({
            let p = opened_proposal(proposal_count, now, duration_seconds, proposer, proposed_admin);
            &&& p.id == proposal_count + 1
            &&& p.start_time == now
            &&& p.end_time == now + duration_seconds
            &&& p.end_time - p.start_time == duration_seconds
            &&& p.votes_for == 0 && p.votes_against == 0
            &&& p.proposer == proposer && p.proposed_admin == proposed_admin
            &&& p.status == ProposalStatus::Active
        }),
{
}

/// Opens an admin proposal: `proposal_count` is the number of proposals
/// created so far and `now` the ledger time. The new proposal takes the next
/// id, starts now, ends `duration_seconds` later, has no votes and is active.
/// A duration over `MAX_PROPOSAL_DURATION`, or an end time past the largest
/// timestamp, is refused with `InvalidProposalDuration`.
pub fn new_admin_proposal(
    proposal_count: u64,
    now: u64,
    duration_seconds: u64,
    proposer: Address,
    proposed_admin: Address,
) -> (res: Result<AdminProposal, ContractError>)
    requires
        duration_allowed(duration_seconds) ==> proposal_count < u64::MAX,
    ensures
        !duration_allowed(duration_seconds) ==> res == Err::<AdminProposal, ContractError>(
            ContractError::InvalidProposalDuration,
        ),
        duration_allowed(duration_seconds) && now + duration_seconds > u64::MAX ==> res
            == Err::<AdminProposal, ContractError>(ContractError::InvalidProposalDuration),
        duration_allowed(duration_seconds) && now + duration_seconds <= u64::MAX ==> res == Ok::<
            AdminProposal,
            ContractError,
        >(opened_proposal(proposal_count, now, duration_seconds, proposer, proposed_admin)),
        res matches Ok(p) ==> {
            &&& p.id == proposal_count + 1
            &&& p.start_time <= p.end_time
            &&& duration_allowed((p.end_time - p.start_time) as u64)
            &&& p.status == ProposalStatus::Active
        },
        res matches Ok(p) ==> {
            &&& p.start_time == now
            &&& p.end_time == now + duration_seconds
            &&& p.votes_for == 0
            &&& p.votes_against == 0
            &&& p.proposer == proposer
            &&& p.proposed_admin == proposed_admin
        },
        res is Ok <==> (duration_seconds <= MAX_PROPOSAL_DURATION && now + duration_seconds
            <= u64::MAX),
        res matches Err(e) ==> e == ContractError::InvalidProposalDuration,
{
    if duration_seconds > MAX_PROPOSAL_DURATION {
        return Err(ContractError::InvalidProposalDuration);
    }
    let proposal_id: u64 = proposal_count + 1;
    let end_time: u64 = match now.checked_add(duration_seconds) {
        Some(t) => t,
        None => {
            return Err(ContractError::InvalidProposalDuration);
        },
    };
    Ok(
        AdminProposal {
            id: proposal_id,
            proposer,
            proposed_admin,
            votes_for: 0,
            votes_against: 0,
            start_time: now,
            end_time,
            status: ProposalStatus::Active,
        },
    )
}

} // verus!
