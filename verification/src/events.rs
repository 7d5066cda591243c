//! The event topic convention: every event is published under the topics
//! `(version, domain, action)`, each a symbol of at most nine characters.

use vstd::prelude::*;
use soroban_sdk::{Address, BytesN, Symbol};
use crate::storage_types::{StakeConfig, WrapState};

verus! {

/// All events emitted by the contract. Each variant maps to a
/// `(domain, action)` pair and carries the data fields that are published as
/// the event payload.
pub enum Event {
    // Admin
    AdminInit(Address),
    AdminUpdated(Address, Address),
    /// The contract was paused; carries the acting admin.
    AdminPaused(Address),
    /// The contract was unpaused; carries the acting admin.
    AdminUnpaused(Address),
    AdminFeeUpdated(Address, Address, i128),
    AdminFeeCleared,
    AdminUpgrade(u32, BytesN<32>),
    // Bridge
    BridgeOut(Address, u32, u64, BytesN<32>, u64),
    BridgeRefund(Address, u64, u64),
    BridgeInRej(Address, u32, u64, u64),
    BridgeIn(Address, u32, u64, u64),
    // Burn
    Burn(Address, u64),
    // Governance
    GovPropose(u64, Address, Address),
    GovVote(u64, Address, bool),
    GovExecuted(u64, Address),
    GovDefeated(u64),
    GovCancelled(u64, Address),
    // Merkle
    WhitelistRoot(BytesN<32>),
    WhitelistCleared,
    // Mint
    Mint(Address, u64, Symbol),
    MintTransition(Address, u64, WrapState),
    MintExpire(Address, u64),
    // Revoke
    Revoke(Address, u64, BytesN<32>),
    // Stake
    StakeAdd(Address, i128),
    StakeInit(Address, i128),
    StakeUnstake(Address, i128),
    StakeWithdraw(Address, i128),
    StakeConfig(StakeConfig),
    // Timelock
    TimelockEnabled(u64),
    TimelockSched(BytesN<32>, u64),
    TimelockCancel(BytesN<32>),
    TimelockUpgrade(BytesN<32>),
    TimelockExec(BytesN<32>),
    // Transfer
    TransferBackfill(Address, u32),
    Transfer(Address, Address, u64, Option<(Address, Address, i128)>),
}

/// Version topic shared by every event.
pub open spec fn event_version() -> Seq<char> {
    "v1"@
}

/// Domain topic of an event.
pub open spec fn event_domain(event: Event) -> Seq<char> {
    match event {
        Event::AdminInit(..) => "admin"@,
        Event::AdminUpdated(..) => "admin"@,
        Event::AdminPaused(..) => "pause"@,
        Event::AdminUnpaused(..) => "pause"@,
        Event::AdminFeeUpdated(..) => "admin"@,
        Event::AdminFeeCleared => "admin"@,
        Event::AdminUpgrade(..) => "admin"@,
        Event::BridgeOut(..) => "bridge"@,
        Event::BridgeRefund(..) => "bridge"@,
        Event::BridgeInRej(..) => "bridge"@,
        Event::BridgeIn(..) => "bridge"@,
        Event::Burn(..) => "wrap"@,
        Event::GovPropose(..) => "gov"@,
        Event::GovVote(..) => "gov"@,
        Event::GovExecuted(..) => "gov"@,
        Event::GovDefeated(..) => "gov"@,
        Event::GovCancelled(..) => "gov"@,
        Event::WhitelistRoot(..) => "whitelist"@,
        Event::WhitelistCleared => "whitelist"@,
        Event::Mint(..) => "wrap"@,
        Event::MintTransition(..) => "wrap"@,
        Event::MintExpire(..) => "wrap"@,
        Event::Revoke(..) => "wrap"@,
        Event::StakeAdd(..) => "stake"@,
        Event::StakeInit(..) => "stake"@,
        Event::StakeUnstake(..) => "stake"@,
        Event::StakeWithdraw(..) => "stake"@,
        Event::StakeConfig(..) => "stake"@,
        Event::TimelockEnabled(..) => "timelock"@,
        Event::TimelockSched(..) => "timelock"@,
        Event::TimelockCancel(..) => "timelock"@,
        Event::TimelockUpgrade(..) => "timelock"@,
        Event::TimelockExec(..) => "timelock"@,
        Event::TransferBackfill(..) => "transfer"@,
        Event::Transfer(..) => "transfer"@,
    }
}

/// Action topic of an event.
pub open spec fn event_action(event: Event) -> Seq<char> {
    match event {
        Event::AdminInit(..) => "init"@,
        Event::AdminUpdated(..) => "updated"@,
        Event::AdminPaused(..) => "paused"@,
        Event::AdminUnpaused(..) => "unpaused"@,
        Event::AdminFeeUpdated(..) => "fee"@,
        Event::AdminFeeCleared => "fee_clr"@,
        Event::AdminUpgrade(..) => "upgrade"@,
        Event::BridgeOut(..) => "out"@,
        Event::BridgeRefund(..) => "refund"@,
        Event::BridgeInRej(..) => "in_rej"@,
        Event::BridgeIn(..) => "in"@,
        Event::Burn(..) => "burn"@,
        Event::GovPropose(..) => "propose"@,
        Event::GovVote(..) => "vote"@,
        Event::GovExecuted(..) => "executed"@,
        Event::GovDefeated(..) => "defeated"@,
        Event::GovCancelled(..) => "cancelled"@,
        Event::WhitelistRoot(..) => "root"@,
        Event::WhitelistCleared => "cleared"@,
        Event::Mint(..) => "mint"@,
        Event::MintTransition(..) => "trans"@,
        Event::MintExpire(..) => "expire"@,
        Event::Revoke(..) => "revoke"@,
        Event::StakeAdd(..) => "add"@,
        Event::StakeInit(..) => "init"@,
        Event::StakeUnstake(..) => "unstake"@,
        Event::StakeWithdraw(..) => "withdraw"@,
        Event::StakeConfig(..) => "cfg"@,
        Event::TimelockEnabled(..) => "enabled"@,
        Event::TimelockSched(..) => "sched"@,
        Event::TimelockCancel(..) => "cancel"@,
        Event::TimelockUpgrade(..) => "upgrade"@,
        Event::TimelockExec(..) => "exec"@,
        Event::TransferBackfill(..) => "backfill"@,
        Event::Transfer(..) => "transfer"@,
    }
}

/// The topics `(version, domain, action)` under which `event` is published.
pub fn event_topics(event: &Event) -> (topics: (&'static str, &'static str, &'static str))
    ensures
        topics.0@ == event_version(),
        topics.0@ == "v1"@,
        topics.1@ == event_domain(*event),
        topics.2@ == event_action(*event),
        *event is AdminInit ==> topics.1@ == "admin"@ && topics.2@ == "init"@,
        *event is AdminUpdated ==> topics.1@ == "admin"@ && topics.2@ == "updated"@,
        *event is AdminPaused ==> topics.1@ == "pause"@ && topics.2@ == "paused"@,
        *event is AdminUnpaused ==> topics.1@ == "pause"@ && topics.2@ == "unpaused"@,
        *event is AdminFeeUpdated ==> topics.1@ == "admin"@ && topics.2@ == "fee"@,
        *event is AdminFeeCleared ==> topics.1@ == "admin"@ && topics.2@ == "fee_clr"@,
        *event is AdminUpgrade ==> topics.1@ == "admin"@ && topics.2@ == "upgrade"@,
        *event is BridgeOut ==> topics.1@ == "bridge"@ && topics.2@ == "out"@,
        *event is BridgeRefund ==> topics.1@ == "bridge"@ && topics.2@ == "refund"@,
        *event is BridgeInRej ==> topics.1@ == "bridge"@ && topics.2@ == "in_rej"@,
        *event is BridgeIn ==> topics.1@ == "bridge"@ && topics.2@ == "in"@,
        *event is Burn ==> topics.1@ == "wrap"@ && topics.2@ == "burn"@,
        *event is GovPropose ==> topics.1@ == "gov"@ && topics.2@ == "propose"@,
        *event is GovVote ==> topics.1@ == "gov"@ && topics.2@ == "vote"@,
        *event is GovExecuted ==> topics.1@ == "gov"@ && topics.2@ == "executed"@,
        *event is GovDefeated ==> topics.1@ == "gov"@ && topics.2@ == "defeated"@,
        *event is GovCancelled ==> topics.1@ == "gov"@ && topics.2@ == "cancelled"@,
        *event is WhitelistRoot ==> topics.1@ == "whitelist"@ && topics.2@ == "root"@,
        *event is WhitelistCleared ==> topics.1@ == "whitelist"@ && topics.2@ == "cleared"@,
        *event is Mint ==> topics.1@ == "wrap"@ && topics.2@ == "mint"@,
        *event is MintTransition ==> topics.1@ == "wrap"@ && topics.2@ == "trans"@,
        *event is MintExpire ==> topics.1@ == "wrap"@ && topics.2@ == "expire"@,
        *event is Revoke ==> topics.1@ == "wrap"@ && topics.2@ == "revoke"@,
        *event is StakeAdd ==> topics.1@ == "stake"@ && topics.2@ == "add"@,
        *event is StakeInit ==> topics.1@ == "stake"@ && topics.2@ == "init"@,
        *event is StakeUnstake ==> topics.1@ == "stake"@ && topics.2@ == "unstake"@,
        *event is StakeWithdraw ==> topics.1@ == "stake"@ && topics.2@ == "withdraw"@,
        *event is StakeConfig ==> topics.1@ == "stake"@ && topics.2@ == "cfg"@,
        *event is TimelockEnabled ==> topics.1@ == "timelock"@ && topics.2@ == "enabled"@,
        *event is TimelockSched ==> topics.1@ == "timelock"@ && topics.2@ == "sched"@,
        *event is TimelockCancel ==> topics.1@ == "timelock"@ && topics.2@ == "cancel"@,
        *event is TimelockUpgrade ==> topics.1@ == "timelock"@ && topics.2@ == "upgrade"@,
        *event is TimelockExec ==> topics.1@ == "timelock"@ && topics.2@ == "exec"@,
        *event is TransferBackfill ==> topics.1@ == "transfer"@ && topics.2@ == "backfill"@,
        *event is Transfer ==> topics.1@ == "transfer"@ && topics.2@ == "transfer"@,
{
    let (domain, action) = match event {
        Event::AdminInit(..) => ("admin", "init"),
        Event::AdminUpdated(..) => ("admin", "updated"),
        Event::AdminPaused(..) => ("pause", "paused"),
        Event::AdminUnpaused(..) => ("pause", "unpaused"),
        Event::AdminFeeUpdated(..) => ("admin", "fee"),
        Event::AdminFeeCleared => ("admin", "fee_clr"),
        Event::AdminUpgrade(..) => ("admin", "upgrade"),
        Event::BridgeOut(..) => ("bridge", "out"),
        Event::BridgeRefund(..) => ("bridge", "refund"),
        Event::BridgeInRej(..) => ("bridge", "in_rej"),
        Event::BridgeIn(..) => ("bridge", "in"),
        Event::Burn(..) => ("wrap", "burn"),
        Event::GovPropose(..) => ("gov", "propose"),
        Event::GovVote(..) => ("gov", "vote"),
        Event::GovExecuted(..) => ("gov", "executed"),
        Event::GovDefeated(..) => ("gov", "defeated"),
        Event::GovCancelled(..) => ("gov", "cancelled"),
        Event::WhitelistRoot(..) => ("whitelist", "root"),
        Event::WhitelistCleared => ("whitelist", "cleared"),
        Event::Mint(..) => ("wrap", "mint"),
        Event::MintTransition(..) => ("wrap", "trans"),
        Event::MintExpire(..) => ("wrap", "expire"),
        Event::Revoke(..) => ("wrap", "revoke"),
        Event::StakeAdd(..) => ("stake", "add"),
        Event::StakeInit(..) => ("stake", "init"),
        Event::StakeUnstake(..) => ("stake", "unstake"),
        Event::StakeWithdraw(..) => ("stake", "withdraw"),
        Event::StakeConfig(..) => ("stake", "cfg"),
        Event::TimelockEnabled(..) => ("timelock", "enabled"),
        Event::TimelockSched(..) => ("timelock", "sched"),
        Event::TimelockCancel(..) => ("timelock", "cancel"),
        Event::TimelockUpgrade(..) => ("timelock", "upgrade"),
        Event::TimelockExec(..) => ("timelock", "exec"),
        Event::TransferBackfill(..) => ("transfer", "backfill"),
        Event::Transfer(..) => ("transfer", "transfer"),
    };
    ("v1", domain, action)
}

/// Mint event types of the legacy event format.
#[derive(Copy, Clone, Debug, PartialEq, Eq, Structural)]
pub enum MintEventType {
    Mint,
    Transition,
    Expire,
}

impl MintEventType {
    /// Text of the symbol that names this event type.
    pub open spec fn symbol_text(self) -> Seq<char> {
        match self {
            MintEventType::Mint => "Mint"@,
            MintEventType::Transition => "Transit"@,
            MintEventType::Expire => "Expire"@,
        }
    }

    /// The symbol that names this event type, as text.
    pub fn to_symbol(&self) -> (symbol: &'static str)
        ensures
            symbol@ == self.symbol_text(),
            *self is Mint ==> symbol@ == "Mint"@,
            *self is Transition ==> symbol@ == "Transit"@,
            *self is Expire ==> symbol@ == "Expire"@,
    {
        match self {
            MintEventType::Mint => "Mint",
            MintEventType::Transition => "Transit",
            MintEventType::Expire => "Expire",
        }
    }
}

/// Characters allowed in a symbol.
pub open spec fn is_symbol_char(c: char) -> bool {
    ('a' <= c && c <= 'z') || ('A' <= c && c <= 'Z') || ('0' <= c && c <= '9') || c == '_'
}

/// A symbol short enough to be built at compile time: at most nine
/// characters, each a letter, a digit or `_`.
pub open spec fn is_short_symbol(s: Seq<char>) -> bool {
    &&& s.len() <= 9
    &&& forall|i: int| 0 <= i < s.len() ==> is_symbol_char(#[trigger] s[i])
}

/// Every topic of every event, and every mint event type name, is a short
/// symbol.
pub proof fn lemma_topics_are_short_symbols(event: Event, kind: MintEventType)
    ensures
        is_short_symbol(event_version()),
        is_short_symbol(event_domain(event)),
        is_short_symbol(event_action(event)),
        is_short_symbol(kind.symbol_text()),
{
    lemma_topic_texts();
    reveal_strlit("v1");
    reveal_strlit("Mint");
    reveal_strlit("Transit");
    reveal_strlit("Expire");
}

/// Position of an event's variant in the declaration of `Event`.
pub open spec fn event_kind(event: Event) -> nat {
    match event {
        Event::AdminInit(..) => 0,
        Event::AdminUpdated(..) => 1,
        Event::AdminPaused(..) => 2,
        Event::AdminUnpaused(..) => 3,
        Event::AdminFeeUpdated(..) => 4,
        Event::AdminFeeCleared => 5,
        Event::AdminUpgrade(..) => 6,
        Event::BridgeOut(..) => 7,
        Event::BridgeRefund(..) => 8,
        Event::BridgeInRej(..) => 9,
        Event::BridgeIn(..) => 10,
        Event::Burn(..) => 11,
        Event::GovPropose(..) => 12,
        Event::GovVote(..) => 13,
        Event::GovExecuted(..) => 14,
        Event::GovDefeated(..) => 15,
        Event::GovCancelled(..) => 16,
        Event::WhitelistRoot(..) => 17,
        Event::WhitelistCleared => 18,
        Event::Mint(..) => 19,
        Event::MintTransition(..) => 20,
        Event::MintExpire(..) => 21,
        Event::Revoke(..) => 22,
        Event::StakeAdd(..) => 23,
        Event::StakeInit(..) => 24,
        Event::StakeUnstake(..) => 25,
        Event::StakeWithdraw(..) => 26,
        Event::StakeConfig(..) => 27,
        Event::TimelockEnabled(..) => 28,
        Event::TimelockSched(..) => 29,
        Event::TimelockCancel(..) => 30,
        Event::TimelockUpgrade(..) => 31,
        Event::TimelockExec(..) => 32,
        Event::TransferBackfill(..) => 33,
        Event::Transfer(..) => 34,
    }
}

/// The characters of each domain and action topic.
proof fn lemma_topic_texts()
    ensures
        "add"@.len() == 3 && "add"@[0] == 'a' && "add"@[1] == 'd' && "add"@[2] == 'd',
        "admin"@.len() == 5 && "admin"@[0] == 'a' && "admin"@[1] == 'd' && "admin"@[2] == 'm' && "admin"@[3] == 'i' && "admin"@[4] == 'n',
        "backfill"@.len() == 8 && "backfill"@[0] == 'b' && "backfill"@[1] == 'a' && "backfill"@[2] == 'c' && "backfill"@[3] == 'k' && "backfill"@[4] == 'f' && "backfill"@[5] == 'i' && "backfill"@[6] == 'l' && "backfill"@[7] == 'l',
        "bridge"@.len() == 6 && "bridge"@[0] == 'b' && "bridge"@[1] == 'r' && "bridge"@[2] == 'i' && "bridge"@[3] == 'd' && "bridge"@[4] == 'g' && "bridge"@[5] == 'e',
        "burn"@.len() == 4 && "burn"@[0] == 'b' && "burn"@[1] == 'u' && "burn"@[2] == 'r' && "burn"@[3] == 'n',
        "cancel"@.len() == 6 && "cancel"@[0] == 'c' && "cancel"@[1] == 'a' && "cancel"@[2] == 'n' && "cancel"@[3] == 'c' && "cancel"@[4] == 'e' && "cancel"@[5] == 'l',
        "cancelled"@.len() == 9 && "cancelled"@[0] == 'c' && "cancelled"@[1] == 'a' && "cancelled"@[2] == 'n' && "cancelled"@[3] == 'c' && "cancelled"@[4] == 'e' && "cancelled"@[5] == 'l' && "cancelled"@[6] == 'l' && "cancelled"@[7] == 'e' && "cancelled"@[8] == 'd',
        "cfg"@.len() == 3 && "cfg"@[0] == 'c' && "cfg"@[1] == 'f' && "cfg"@[2] == 'g',
        "cleared"@.len() == 7 && "cleared"@[0] == 'c' && "cleared"@[1] == 'l' && "cleared"@[2] == 'e' && "cleared"@[3] == 'a' && "cleared"@[4] == 'r' && "cleared"@[5] == 'e' && "cleared"@[6] == 'd',
        "defeated"@.len() == 8 && "defeated"@[0] == 'd' && "defeated"@[1] == 'e' && "defeated"@[2] == 'f' && "defeated"@[3] == 'e' && "defeated"@[4] == 'a' && "defeated"@[5] == 't' && "defeated"@[6] == 'e' && "defeated"@[7] == 'd',
        "enabled"@.len() == 7 && "enabled"@[0] == 'e' && "enabled"@[1] == 'n' && "enabled"@[2] == 'a' && "enabled"@[3] == 'b' && "enabled"@[4] == 'l' && "enabled"@[5] == 'e' && "enabled"@[6] == 'd',
        "exec"@.len() == 4 && "exec"@[0] == 'e' && "exec"@[1] == 'x' && "exec"@[2] == 'e' && "exec"@[3] == 'c',
        "executed"@.len() == 8 && "executed"@[0] == 'e' && "executed"@[1] == 'x' && "executed"@[2] == 'e' && "executed"@[3] == 'c' && "executed"@[4] == 'u' && "executed"@[5] == 't' && "executed"@[6] == 'e' && "executed"@[7] == 'd',
        "expire"@.len() == 6 && "expire"@[0] == 'e' && "expire"@[1] == 'x' && "expire"@[2] == 'p' && "expire"@[3] == 'i' && "expire"@[4] == 'r' && "expire"@[5] == 'e',
        "fee"@.len() == 3 && "fee"@[0] == 'f' && "fee"@[1] == 'e' && "fee"@[2] == 'e',
        "fee_clr"@.len() == 7 && "fee_clr"@[0] == 'f' && "fee_clr"@[1] == 'e' && "fee_clr"@[2] == 'e' && "fee_clr"@[3] == '_' && "fee_clr"@[4] == 'c' && "fee_clr"@[5] == 'l' && "fee_clr"@[6] == 'r',
        "gov"@.len() == 3 && "gov"@[0] == 'g' && "gov"@[1] == 'o' && "gov"@[2] == 'v',
        "in"@.len() == 2 && "in"@[0] == 'i' && "in"@[1] == 'n',
        "in_rej"@.len() == 6 && "in_rej"@[0] == 'i' && "in_rej"@[1] == 'n' && "in_rej"@[2] == '_' && "in_rej"@[3] == 'r' && "in_rej"@[4] == 'e' && "in_rej"@[5] == 'j',
        "init"@.len() == 4 && "init"@[0] == 'i' && "init"@[1] == 'n' && "init"@[2] == 'i' && "init"@[3] == 't',
        "mint"@.len() == 4 && "mint"@[0] == 'm' && "mint"@[1] == 'i' && "mint"@[2] == 'n' && "mint"@[3] == 't',
        "out"@.len() == 3 && "out"@[0] == 'o' && "out"@[1] == 'u' && "out"@[2] == 't',
        "pause"@.len() == 5 && "pause"@[0] == 'p' && "pause"@[1] == 'a' && "pause"@[2] == 'u' && "pause"@[3] == 's' && "pause"@[4] == 'e',
        "paused"@.len() == 6 && "paused"@[0] == 'p' && "paused"@[1] == 'a' && "paused"@[2] == 'u' && "paused"@[3] == 's' && "paused"@[4] == 'e' && "paused"@[5] == 'd',
        "propose"@.len() == 7 && "propose"@[0] == 'p' && "propose"@[1] == 'r' && "propose"@[2] == 'o' && "propose"@[3] == 'p' && "propose"@[4] == 'o' && "propose"@[5] == 's' && "propose"@[6] == 'e',
        "refund"@.len() == 6 && "refund"@[0] == 'r' && "refund"@[1] == 'e' && "refund"@[2] == 'f' && "refund"@[3] == 'u' && "refund"@[4] == 'n' && "refund"@[5] == 'd',
        "revoke"@.len() == 6 && "revoke"@[0] == 'r' && "revoke"@[1] == 'e' && "revoke"@[2] == 'v' && "revoke"@[3] == 'o' && "revoke"@[4] == 'k' && "revoke"@[5] == 'e',
        "root"@.len() == 4 && "root"@[0] == 'r' && "root"@[1] == 'o' && "root"@[2] == 'o' && "root"@[3] == 't',
        "sched"@.len() == 5 && "sched"@[0] == 's' && "sched"@[1] == 'c' && "sched"@[2] == 'h' && "sched"@[3] == 'e' && "sched"@[4] == 'd',
        "stake"@.len() == 5 && "stake"@[0] == 's' && "stake"@[1] == 't' && "stake"@[2] == 'a' && "stake"@[3] == 'k' && "stake"@[4] == 'e',
        "timelock"@.len() == 8 && "timelock"@[0] == 't' && "timelock"@[1] == 'i' && "timelock"@[2] == 'm' && "timelock"@[3] == 'e' && "timelock"@[4] == 'l' && "timelock"@[5] == 'o' && "timelock"@[6] == 'c' && "timelock"@[7] == 'k',
        "trans"@.len() == 5 && "trans"@[0] == 't' && "trans"@[1] == 'r' && "trans"@[2] == 'a' && "trans"@[3] == 'n' && "trans"@[4] == 's',
        "transfer"@.len() == 8 && "transfer"@[0] == 't' && "transfer"@[1] == 'r' && "transfer"@[2] == 'a' && "transfer"@[3] == 'n' && "transfer"@[4] == 's' && "transfer"@[5] == 'f' && "transfer"@[6] == 'e' && "transfer"@[7] == 'r',
        "unpaused"@.len() == 8 && "unpaused"@[0] == 'u' && "unpaused"@[1] == 'n' && "unpaused"@[2] == 'p' && "unpaused"@[3] == 'a' && "unpaused"@[4] == 'u' && "unpaused"@[5] == 's' && "unpaused"@[6] == 'e' && "unpaused"@[7] == 'd',
        "unstake"@.len() == 7 && "unstake"@[0] == 'u' && "unstake"@[1] == 'n' && "unstake"@[2] == 's' && "unstake"@[3] == 't' && "unstake"@[4] == 'a' && "unstake"@[5] == 'k' && "unstake"@[6] == 'e',
        "updated"@.len() == 7 && "updated"@[0] == 'u' && "updated"@[1] == 'p' && "updated"@[2] == 'd' && "updated"@[3] == 'a' && "updated"@[4] == 't' && "updated"@[5] == 'e' && "updated"@[6] == 'd',
        "upgrade"@.len() == 7 && "upgrade"@[0] == 'u' && "upgrade"@[1] == 'p' && "upgrade"@[2] == 'g' && "upgrade"@[3] == 'r' && "upgrade"@[4] == 'a' && "upgrade"@[5] == 'd' && "upgrade"@[6] == 'e',
        "vote"@.len() == 4 && "vote"@[0] == 'v' && "vote"@[1] == 'o' && "vote"@[2] == 't' && "vote"@[3] == 'e',
        "whitelist"@.len() == 9 && "whitelist"@[0] == 'w' && "whitelist"@[1] == 'h' && "whitelist"@[2] == 'i' && "whitelist"@[3] == 't' && "whitelist"@[4] == 'e' && "whitelist"@[5] == 'l' && "whitelist"@[6] == 'i' && "whitelist"@[7] == 's' && "whitelist"@[8] == 't',
        "withdraw"@.len() == 8 && "withdraw"@[0] == 'w' && "withdraw"@[1] == 'i' && "withdraw"@[2] == 't' && "withdraw"@[3] == 'h' && "withdraw"@[4] == 'd' && "withdraw"@[5] == 'r' && "withdraw"@[6] == 'a' && "withdraw"@[7] == 'w',
        "wrap"@.len() == 4 && "wrap"@[0] == 'w' && "wrap"@[1] == 'r' && "wrap"@[2] == 'a' && "wrap"@[3] == 'p',
{
    reveal_strlit("add");
    reveal_strlit("admin");
    reveal_strlit("backfill");
    reveal_strlit("bridge");
    reveal_strlit("burn");
    reveal_strlit("cancel");
    reveal_strlit("cancelled");
    reveal_strlit("cfg");
    reveal_strlit("cleared");
    reveal_strlit("defeated");
    reveal_strlit("enabled");
    reveal_strlit("exec");
    reveal_strlit("executed");
    reveal_strlit("expire");
    reveal_strlit("fee");
    reveal_strlit("fee_clr");
    reveal_strlit("gov");
    reveal_strlit("in");
    reveal_strlit("in_rej");
    reveal_strlit("init");
    reveal_strlit("mint");
    reveal_strlit("out");
    reveal_strlit("pause");
    reveal_strlit("paused");
    reveal_strlit("propose");
    reveal_strlit("refund");
    reveal_strlit("revoke");
    reveal_strlit("root");
    reveal_strlit("sched");
    reveal_strlit("stake");
    reveal_strlit("timelock");
    reveal_strlit("trans");
    reveal_strlit("transfer");
    reveal_strlit("unpaused");
    reveal_strlit("unstake");
    reveal_strlit("updated");
    reveal_strlit("upgrade");
    reveal_strlit("vote");
    reveal_strlit("whitelist");
    reveal_strlit("withdraw");
    reveal_strlit("wrap");
}

/// Events of different variants are published under different
/// `(domain, action)` pairs: the topics alone tell the variant.
pub proof fn lemma_topic_pairs_identify_the_variant(a: Event, b: Event)
    requires
        event_domain(a) == event_domain(b),
        event_action(a) == event_action(b),
    ensures
        event_kind(a) == event_kind(b),
{
    lemma_topic_texts();
    assert(event_domain(a).len() == event_domain(b).len());
    assert(event_action(a).len() == event_action(b).len());
    assert(event_domain(a)[0] == event_domain(b)[0]);
    assert(event_action(a)[0] == event_action(b)[0]);
    assert(event_domain(a)[1] == event_domain(b)[1]);
    assert(event_action(a)[1] == event_action(b)[1]);
    assert(event_domain(a)[2] == event_domain(b)[2]);
    assert(event_action(a)[2] == event_action(b)[2]);
    assert(event_domain(a)[3] == event_domain(b)[3]);
    assert(event_action(a)[3] == event_action(b)[3]);
    assert(event_domain(a)[4] == event_domain(b)[4]);
    assert(event_action(a)[4] == event_action(b)[4]);
    assert(event_domain(a)[5] == event_domain(b)[5]);
    assert(event_action(a)[5] == event_action(b)[5]);
    assert(event_domain(a)[6] == event_domain(b)[6]);
    assert(event_action(a)[6] == event_action(b)[6]);
    assert(event_domain(a)[7] == event_domain(b)[7]);
    assert(event_action(a)[7] == event_action(b)[7]);
    assert(event_domain(a)[8] == event_domain(b)[8]);
    assert(event_action(a)[8] == event_action(b)[8]);
}

/// A pause and an unpause are told apart by their topics alone.
pub proof fn lemma_pause_and_unpause_topics_differ(paused: Event, unpaused: Event)
    requires
        paused is AdminPaused,
        unpaused is AdminUnpaused,
    ensures
        event_action(paused) != event_action(unpaused),
{
    if event_action(paused) == event_action(unpaused) {
        lemma_topic_pairs_identify_the_variant(paused, unpaused);
    }
}

/// The topics of an event depend on its variant alone, never on the data it
/// carries: two events of the same variant are published under the same
/// domain and action.
pub proof fn lemma_topics_depend_only_on_variant(a: Event, b: Event)
    requires
        event_kind(a) == event_kind(b),
    ensures
        event_domain(a) == event_domain(b),
        event_action(a) == event_action(b),
{
}

} // verus!
