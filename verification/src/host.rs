//! Values of the host ledger that a lease carries without looking inside:
//! the text that describes an asset and the identities of owner and lessee.
//!
//! Both are handles into the host. The registry stores them, hands them back,
//! and copies them; it never reads what they hold. Nothing in this file is
//! proved: it says what the verifier is told about the host's types.

use vstd::prelude::*;

verus! {

/// `soroban_sdk::String`, the host's byte string. Opaque to the verifier:
/// two values are told apart only by being different values.
#[verifier::external_type_specification]
#[verifier::external_body]
pub struct ExHostString(soroban_sdk::String);

/// `soroban_sdk::Address`, the host's identifier of an account or a contract.
/// Opaque to the verifier, as above.
#[verifier::external_type_specification]
#[verifier::external_body]
pub struct ExHostAddress(soroban_sdk::Address);

/// `Clone::clone` of `soroban_sdk::String`, which the SDK derives: it copies
/// the handle and the reference to the host it lives in. The copy is taken to
/// be the same value as the one it was made from.
pub assume_specification[ <soroban_sdk::String as Clone>::clone ](
    text: &soroban_sdk::String,
) -> (copy: soroban_sdk::String)
    ensures
        copy == *text,
;

/// `Clone::clone` of `soroban_sdk::Address`, which the SDK derives in the
/// same way. The copy is taken to be the same identity as the one it was made
/// from.
pub assume_specification[ <soroban_sdk::Address as Clone>::clone ](
    address: &soroban_sdk::Address,
) -> (copy: soroban_sdk::Address)
    ensures
        copy == *address,
;

} // verus!
