//! Host value types of the Soroban SDK that the library carries through
//! unchanged. Verus sees nothing inside them.

use vstd::prelude::*;

verus! {

/// `soroban_sdk::Address`: an account or contract address held by the host.
#[verifier::external_type_specification]
#[verifier::external_body]
pub struct ExAddress(soroban_sdk::Address);

/// `soroban_sdk::BytesN`: a fixed-length byte array held by the host.
#[verifier::external_type_specification]
#[verifier::external_body]
pub struct ExBytesN<const N: usize>(soroban_sdk::BytesN<N>);

/// `soroban_sdk::Symbol`: a short identifier held by the host.
#[verifier::external_type_specification]
#[verifier::external_body]
pub struct ExSymbol(soroban_sdk::Symbol);

/// `Clone::clone` of `soroban_sdk::Address` (a derived clone of the host
/// handle). Nothing is claimed of the result; the declaration only lets
/// types of the library that hold an address derive `Clone`.
pub assume_specification[ <soroban_sdk::Address as Clone>::clone ](address: &soroban_sdk::Address) -> (copy: soroban_sdk::Address);

} // verus!
