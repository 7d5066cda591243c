use soroban_sdk::testutils::Address as _;
use soroban_sdk::{Address, Env};
use stellar_wrap::error::ContractError;
use stellar_wrap::revoke::{next_revoked_total, revoking_admin};

#[test]
fn revocation_needs_a_stored_admin() {
    assert_eq!(revoking_admin(None).unwrap_err(), ContractError::NotInitialized);
}

#[test]
fn revocation_is_authorized_by_the_stored_admin() {
    let env = Env::default();
    let admin = Address::generate(&env);
    assert_eq!(revoking_admin(Some(admin.clone())).unwrap(), admin);
}

#[test]
fn revoked_total_starts_from_zero() {
    assert_eq!(next_revoked_total(None), Ok(1));
}

#[test]
fn revoked_total_grows_by_one() {
    assert_eq!(next_revoked_total(Some(0)), Ok(1));
    assert_eq!(next_revoked_total(Some(41)), Ok(42));
    assert_eq!(next_revoked_total(Some(u64::MAX - 1)), Ok(u64::MAX));
}

#[test]
fn revoked_total_overflow_is_an_error() {
    assert_eq!(next_revoked_total(Some(u64::MAX)), Err(ContractError::ArithmeticOverflow));
}
