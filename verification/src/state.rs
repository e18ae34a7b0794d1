//! Collection state: the administrative configuration record and the
//! constants that every instance is created with.
//!
//! The host persists exactly two core records, independently of the token
//! ledger: the [`Config`] and the supply counter (a `u64` starting at 0 that
//! only successful mints advance).

use vstd::prelude::*;

verus! {

/// Price per token minted, in the smallest unit of the payment currency.
pub const PRICE_UPAXI: u128 = 10_000_000;

/// Upper bound on tokens ever minted; fixed at initialization.
pub const MAX_SUPPLY: u64 = 10_000;

/// Royalty rate in basis points (out of 10_000), fixed at initialization.
pub const ROYALTY_BPS: u64 = 750;

/// Largest batch a single mint request may ask for.
pub const MAX_MINT_QUANTITY: u64 = 10;

/// The single mutable record of administrative parameters.
///
/// Created once at initialization; only `paused`, `base_uri` and
/// `provenance_hash` ever change afterwards, and only through the admin
/// operations. `admin`, `minter`, `price`, `max_supply`, `royalty_bps` and
/// `royalty_receiver` are fixed for the lifetime of the instance.
#[derive(Clone, Debug)]
pub struct Config {
    /// Identity with exclusive rights to administrative operations.
    pub admin: String,
    /// Identity presented to the token ledger when creating tokens;
    /// fixed to the system's own address.
    pub minter: String,
    /// Amount of the payment currency required per token minted.
    pub price: u128,
    /// Upper bound on tokens ever minted.
    pub max_supply: u64,
    /// Gates public minting; `true` means minting is disabled.
    pub paused: bool,
    /// String prefix from which each token's metadata location is derived.
    pub base_uri: String,
    /// Optional fingerprint committing to the metadata/asset set.
    pub provenance_hash: Option<String>,
    /// Royalty rate in basis points applied to secondary-sale prices.
    pub royalty_bps: u64,
    /// Identity receiving royalty payments.
    pub royalty_receiver: String,
}

impl Config {
    /// Well-formedness of a configuration record.
    ///
    /// Every instance the core creates satisfies this, and every core
    /// operation preserves it. The two arithmetic bounds are what the
    /// machine integer types force: they keep `price * quantity` (with
    /// `quantity <= MAX_MINT_QUANTITY`) inside `u128` and
    /// `supply + quantity` inside `u64`.
    pub open spec fn wf(self) -> bool {
        &&& self.admin@.len() > 0
        &&& self.max_supply > 0
        &&& self.max_supply + MAX_MINT_QUANTITY <= u64::MAX
        &&& self.royalty_bps <= 10_000
        &&& self.price * MAX_MINT_QUANTITY <= u128::MAX
    }
}

} // verus!
