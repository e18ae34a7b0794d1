//! Error kinds of the collection core.
//!
//! Every validation failure is terminal to the triggering request: the caller
//! sees exactly one of these kinds and no partial state change.

use vstd::prelude::*;

verus! {

/// A structured, machine-distinguishable reason why a request was rejected.
#[derive(Clone, Copy, Debug, PartialEq, Eq, Structural)]
pub enum ContractError {
    /// The caller is not the admin on an admin-only operation.
    Unauthorized,
    /// A mint was attempted while the collection is paused.
    Paused,
    /// The attached payment does not exactly equal `price * quantity`.
    InvalidPayment,
    /// The mint would push the supply counter past the supply cap.
    MaxSupply,
    /// The mint quantity is zero or exceeds the per-call batch cap.
    InvalidQuantity,
}

impl ContractError {
    /// A short human-readable description of the error kind.
    pub fn describe(&self) -> (r: &'static str)
        ensures
            r@ =~= match *self {
                ContractError::Unauthorized => "Unauthorized"@,
                ContractError::Paused => "Minting is paused"@,
                ContractError::InvalidPayment => "Invalid payment amount"@,
                ContractError::MaxSupply => "Max supply exceeded"@,
                ContractError::InvalidQuantity => "Quantity out of bounds"@,
            },
    {
        match *self {
            ContractError::Unauthorized => "Unauthorized",
            ContractError::Paused => "Minting is paused",
            ContractError::InvalidPayment => "Invalid payment amount",
            ContractError::MaxSupply => "Max supply exceeded",
            ContractError::InvalidQuantity => "Quantity out of bounds",
        }
    }
}

} // verus!
