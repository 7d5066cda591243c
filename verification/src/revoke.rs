//! The bookkeeping of an admin revocation.

use vstd::prelude::*;
use soroban_sdk::Address;
use crate::error::ContractError;

verus! {

/// The admin who must authorize a revocation: the stored admin, or
/// `NotInitialized` when none is stored.
pub fn revoking_admin(stored_admin: Option<Address>) -> (res: Result<Address, ContractError>)
    ensures
        stored_admin is None ==> res == Err::<Address, ContractError>(ContractError::NotInitialized),
        stored_admin matches Some(a) ==> res == Ok::<Address, ContractError>(a),
{
    match stored_admin {
        Some(admin) => Ok(admin),
        None => Err(ContractError::NotInitialized),
    }
}

/// The count of revoked wraps after one more revocation, from the stored
/// count (absent means zero); `ArithmeticOverflow` when it would pass `u64::MAX`.
pub fn next_revoked_total(stored_total: Option<u64>) -> (res: Result<u64, ContractError>)
    ensures
        ({
            let current = match stored_total {
                Some(n) => n,
                None => 0u64,
            };
            &&& current < u64::MAX ==> res == Ok::<u64, ContractError>((current + 1) as u64)
            &&& current == u64::MAX ==> res == Err::<u64, ContractError>(
                ContractError::ArithmeticOverflow,
            )
        }),
{
    let current: u64 = match stored_total {
        Some(n) => n,
        None => 0,
    };
    match current.checked_add(1) {
        Some(next) => Ok(next),
        None => Err(ContractError::ArithmeticOverflow),
    }
}

} // verus!
