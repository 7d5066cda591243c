use vstd::prelude::*;
use soroban_sdk::Address;

verus! {

/// Lifecycle state of a wrap record.
#[derive(Copy, Clone, Debug, PartialEq, Eq, Structural)]
pub enum WrapState {
    Draft,
    Pending,
    Active,
    Archived,
    Cancelled,
    Expired,
    Bridged,
}

/// The transitions that `transition_to` accepts: the edges of the lifecycle graph.
pub open spec fn transition_allowed(from: WrapState, to: WrapState) -> bool {
    match (from, to) {
        (WrapState::Draft, WrapState::Pending) => true,
        (WrapState::Draft, WrapState::Cancelled) => true,
        (WrapState::Draft, WrapState::Expired) => true,
        (WrapState::Pending, WrapState::Active) => true,
        (WrapState::Pending, WrapState::Cancelled) => true,
        (WrapState::Pending, WrapState::Expired) => true,
        (WrapState::Active, WrapState::Pending) => true,
        (WrapState::Active, WrapState::Archived) => true,
        (WrapState::Active, WrapState::Cancelled) => true,
        _ => false,
    }
}

/// A wrap's lifecycle: its current state and when it last changed.
#[derive(Clone, Debug, PartialEq, Eq, Structural)]
pub struct WrapLifecycleFSM {
    pub state: WrapState,
    pub updated_at: u64,
}

impl WrapLifecycleFSM {
    /// One attempt to move to `next` at time `now`: the lifecycle after it.
    pub open spec fn step(self, next: WrapState, now: u64) -> WrapLifecycleFSM {
        if transition_allowed(self.state, next) {
            WrapLifecycleFSM { state: next, updated_at: now }
        } else {
            self
        }
    }

    /// The lifecycle after the attempts in `attempts`, in order, each a target
    /// state and the time of the attempt.
    pub open spec fn run(self, attempts: Seq<(WrapState, u64)>) -> WrapLifecycleFSM
        decreases attempts.len(),
    {
        if attempts.len() == 0 {
            self
        } else {
            self.step(attempts[0].0, attempts[0].1).run(attempts.drop_first())
        }
    }

    /// Creates a lifecycle in `initial_state`, stamped with `now`.
    pub fn new(initial_state: WrapState, now: u64) -> (fsm: Self)
        ensures
            fsm.state == initial_state,
            fsm.updated_at == now,
    {
        WrapLifecycleFSM { state: initial_state, updated_at: now }
    }

    /// Whether the lifecycle graph has an edge from the current state to `next`.
    pub fn can_transition_to(&self, next: &WrapState) -> (allowed: bool)
        ensures
            allowed == transition_allowed(self.state, *next),
    {
        match (&self.state, next) {
            (WrapState::Draft, WrapState::Pending) => true,
            (WrapState::Draft, WrapState::Cancelled) => true,
            (WrapState::Draft, WrapState::Expired) => true,
            (WrapState::Pending, WrapState::Active) => true,
            (WrapState::Pending, WrapState::Cancelled) => true,
            (WrapState::Pending, WrapState::Expired) => true,
            (WrapState::Active, WrapState::Pending) => true,
            (WrapState::Active, WrapState::Archived) => true,
            (WrapState::Active, WrapState::Cancelled) => true,
            _ => false,
        }
    }

    /// Moves to `next` at time `now` when the lifecycle graph allows it and
    /// reports whether it did; a refused transition changes nothing.
    pub fn transition_to(&mut self, next: WrapState, now: u64) -> (moved: bool)
        ensures
            moved == transition_allowed(old(self).state, next),
            moved ==> final(self).state == next && final(self).updated_at == now,
            !moved ==> *final(self) == *old(self),
            *final(self) == old(self).step(next, now),
    {
        if self.can_transition_to(&next) {
            self.state = next;
            self.updated_at = now;
            true
        } else {
            false
        }
    }

    /// Brings a bridged wrap back to `Active` at time `now`; any other state
    /// is left as it is and `false` is returned.
    pub fn restore_from_bridge(&mut self, now: u64) -> (restored: bool)
        ensures
            restored == (old(self).state == WrapState::Bridged),
            restored ==> *final(self) == (WrapLifecycleFSM { state: WrapState::Active, updated_at: now }),
            !restored ==> *final(self) == *old(self),
    {
        if self.state == WrapState::Bridged {
            self.state = WrapState::Active;
            self.updated_at = now;
            true
        } else {
            false
        }
    }
}

/// The lifecycle graph: a draft may become pending, cancelled or expired; a
/// pending wrap active, cancelled or expired; an active wrap pending again,
/// archived or cancelled. No other move is allowed.
pub proof fn lemma_lifecycle_edges(from: WrapState, to: WrapState)
    ensures
        transition_allowed(from, to) <==> {
            ||| from == WrapState::Draft && to == WrapState::Pending
            ||| from == WrapState::Draft && to == WrapState::Cancelled
            ||| from == WrapState::Draft && to == WrapState::Expired
            ||| from == WrapState::Pending && to == WrapState::Active
            ||| from == WrapState::Pending && to == WrapState::Cancelled
            ||| from == WrapState::Pending && to == WrapState::Expired
            ||| from == WrapState::Active && to == WrapState::Pending
            ||| from == WrapState::Active && to == WrapState::Archived
            ||| from == WrapState::Active && to == WrapState::Cancelled
        },
{
}

/// One transition attempt: on an edge of the graph the lifecycle takes the
/// target state and the attempt's time; off the graph it is left exactly as
/// it was.
pub proof fn lemma_step_moves_exactly_on_edges(fsm: WrapLifecycleFSM, next: WrapState, now: u64)
    ensures
        transition_allowed(fsm.state, next) ==> fsm.step(next, now).state == next
            && fsm.step(next, now).updated_at == now,
        !transition_allowed(fsm.state, next) ==> fsm.step(next, now) == fsm,
{
}

/// States that `transition_to` never leaves.
pub open spec fn accepts_no_transition(s: WrapState) -> bool {
    s == WrapState::Archived || s == WrapState::Cancelled || s == WrapState::Expired || s
        == WrapState::Bridged
}

/// Archived, cancelled, expired and bridged wraps have no way out through
/// `transition_to`; every other state has one.
pub proof fn lemma_states_without_exit(s: WrapState)
    ensures
        accepts_no_transition(s) <==> forall|t: WrapState| !transition_allowed(s, t),
{
    if !accepts_no_transition(s) {
        match s {
            WrapState::Draft => assert(transition_allowed(s, WrapState::Pending)),
            WrapState::Pending => assert(transition_allowed(s, WrapState::Active)),
            WrapState::Active => assert(transition_allowed(s, WrapState::Pending)),
            _ => {},
        }
    }
}

/// No state transitions to itself.
pub proof fn lemma_no_self_transition(s: WrapState)
    ensures
        !transition_allowed(s, s),
{
}

/// No transition leads into `Draft` or into `Bridged`: a wrap is a draft only
/// from its creation, and `transition_to` never bridges it.
pub proof fn lemma_draft_and_bridged_are_never_entered(s: WrapState)
    ensures
        !transition_allowed(s, WrapState::Draft),
        !transition_allowed(s, WrapState::Bridged),
{
}

/// Once archived, cancelled, expired or bridged, a lifecycle is unchanged by
/// any sequence of `transition_to` attempts, its timestamp included.
pub proof fn lemma_stuck_states_absorb_every_run(fsm: WrapLifecycleFSM, attempts: Seq<(WrapState, u64)>)
    requires
        accepts_no_transition(fsm.state),
    ensures
        fsm.run(attempts) == fsm,
    decreases attempts.len(),
{
    if attempts.len() > 0 {
        lemma_stuck_states_absorb_every_run(fsm, attempts.drop_first());
    }
}

/// A lifecycle that has left `Draft` never comes back to it, whatever
/// sequence of `transition_to` attempts follows.
pub proof fn lemma_draft_never_reentered(fsm: WrapLifecycleFSM, attempts: Seq<(WrapState, u64)>)
    requires
        fsm.state != WrapState::Draft,
    ensures
        fsm.run(attempts).state != WrapState::Draft,
    decreases attempts.len(),
{
    if attempts.len() > 0 {
        lemma_draft_never_reentered(fsm.step(attempts[0].0, attempts[0].1), attempts.drop_first());
    }
}

/// After a run, the timestamp is the starting one when no attempt was
/// accepted, and otherwise the time of an accepted attempt.
pub proof fn lemma_run_timestamp_comes_from_an_attempt(
    fsm: WrapLifecycleFSM,
    attempts: Seq<(WrapState, u64)>,
)
    ensures
        fsm.run(attempts) == fsm || exists|i: int|
            0 <= i < attempts.len() && #[trigger] attempts[i].1 == fsm.run(attempts).updated_at
                && attempts[i].0 == fsm.run(attempts).state,
    decreases attempts.len(),
{
    if attempts.len() > 0 {
        let next = fsm.step(attempts[0].0, attempts[0].1);
        let rest = attempts.drop_first();
        lemma_run_timestamp_comes_from_an_attempt(next, rest);
        if next.run(rest) == next {
            if next != fsm {
                assert(attempts[0].1 == fsm.run(attempts).updated_at);
            }
        } else {
            let i = choose|i: int|
                0 <= i < rest.len() && #[trigger] rest[i].1 == next.run(rest).updated_at
                    && rest[i].0 == next.run(rest).state;
            assert(attempts[i + 1] == rest[i]);
        }
    }
}

/// Status of a governance admin proposal.
#[derive(Copy, Clone, Debug, PartialEq, Eq, Structural)]
pub enum ProposalStatus {
    Active,
    Executed,
    Defeated,
    Cancelled,
}

/// A governance proposal to replace the contract admin.
#[derive(Clone, Debug, PartialEq, Eq)]
pub struct AdminProposal {
    pub id: u64,
    pub proposer: Address,
    pub proposed_admin: Address,
    pub votes_for: u64,
    pub votes_against: u64,
    pub start_time: u64,
    pub end_time: u64,
    pub status: ProposalStatus,
}

/// What the contract reports of its own configuration.
#[derive(Clone, Debug, PartialEq, Eq, Structural)]
pub struct ContractHealth {
    /// Whether `initialize()` has been called (admin address is set).
    pub initialized: bool,
    /// Whether an admin address is currently configured.
    pub has_admin: bool,
    /// Whether an admin signing (public) key is currently configured.
    pub has_signing_key: bool,
}

/// Parameters of the algorithmic storage fee.
#[derive(Clone, Debug, PartialEq, Eq, Structural)]
pub struct FeeParams {
    /// base fee in token units
    pub base_fee: i128,
    /// fee increment per scaling step (applied per `scale_step_kib`)
    pub per_kib_fee: i128,
    /// scaling step in KiB (e.g., 1024 means per KiB)
    pub scale_step_kib: u64,
    /// maximum fee cap
    pub max_fee: i128,
}

/// Admin-configured staking parameters.
#[derive(Copy, Clone, Debug, PartialEq, Eq, Structural)]
pub struct StakeConfig {
    /// Minimum amount a user must stake to earn fee priority.
    pub min_stake: i128,
    /// Seconds that must elapse between `unstake` and `withdraw_stake`.
    pub cooldown_seconds: u64,
    /// Basis points of discount earned per multiple of `min_stake`.
    pub priority_multiplier_bps: u32,
    /// Maximum discount (in basis points) a user can reach.
    pub max_priority_bps: u32,
}

/// A user's staking record.
#[derive(Clone, Debug, PartialEq, Eq, Structural)]
pub struct StakeRecord {
    /// Total amount currently staked.
    pub amount: i128,
    /// Ledger timestamp of the initial stake.
    pub staked_at: u64,
    /// Ledger timestamp when `unstake` was called, or 0 if not unstaking.
    pub unstaking_at: u64,
}

} // verus!
