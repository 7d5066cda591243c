//! Errors that the contract's rules produce.

use vstd::prelude::*;

verus! {

/// Why a contract operation was refused.
#[derive(Copy, Clone, Debug, PartialEq, Eq, Structural)]
pub enum ContractError {
    /// The contract has no admin yet.
    NotInitialized,
    /// A counter would leave its integer range.
    ArithmeticOverflow,
    /// A proposal duration lies outside the allowed window, or its end time
    /// does not fit in a timestamp.
    InvalidProposalDuration,
}

} // verus!
