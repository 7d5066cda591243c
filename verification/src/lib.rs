//! Verified core of the Stellar Wrap registry contract: the wrap lifecycle
//! state machine, the rules for opening an admin proposal, the revocation
//! bookkeeping and the event topic convention.

pub mod host_types;
pub mod error;
pub mod storage_types;
pub mod governance;
pub mod revoke;
pub mod events;
