//! Requests the core decides on, and the answers and effects it hands back.
//!
//! The core is pure, so a mutating request does not perform its outward
//! effects itself: it returns a [`Response`] describing exactly what the host
//! must carry out (tokens to create in the ledger, a balance to send).
//! Ownership pass-through requests (approvals, transfers, per-token reads)
//! carry no core logic and never reach these types: the host forwards them to
//! the ledger untouched.

use vstd::prelude::*;

verus! {

/// A single denomination/amount pair attached to a request as payment.
#[derive(Clone, Debug)]
pub struct Coin {
    pub denom: String,
    pub amount: u128,
}

/// Input to initialization.
#[derive(Clone, Debug)]
pub struct InstantiateMsg {
    pub base_token_uri: String,
    pub provenance_hash: Option<String>,
}

/// The mutating requests the core decides on.
#[derive(Clone, Debug)]
pub enum ExecuteMsg {
    /// Mint a single token to the caller.
    PublicMint {},
    /// Mint `quantity` tokens to the caller, all or none.
    PublicBatchMint { quantity: u64 },
    /// Send the system's entire holding of the payment currency to the admin.
    Withdraw {},
    /// Disable public minting.
    PauseMint {},
    /// Enable public minting.
    UnpauseMint {},
    /// Replace the metadata base path.
    UpdateBaseUri { base_uri: String },
    /// Commit a provenance fingerprint.
    SetProvenanceHash { hash: String },
}

/// The read requests the core answers itself.
#[derive(Clone, Debug)]
pub enum QueryMsg {
    /// Royalty receiver and amount for a secondary sale.
    /// `token_id` is accepted for interface compatibility; a single
    /// collection-wide rate applies uniformly.
    RoyaltyInfo { token_id: String, sale_price: u128 },
    /// All configuration fields plus the current supply counter.
    GetConfig {},
}

/// Projection of the configuration record and the supply counter.
#[derive(Clone, Debug)]
pub struct ConfigResponse {
    pub admin: String,
    pub minter: String,
    pub price: u128,
    pub max_supply: u64,
    pub paused: bool,
    pub base_uri: String,
    pub provenance_hash: Option<String>,
    pub royalty_bps: u64,
    pub royalty_receiver: String,
    pub total_minted: u64,
}

/// Royalty answer: who receives, and how much of the sale price.
#[derive(Clone, Debug)]
pub struct RoyaltiesInfoResponse {
    pub address: String,
    pub royalty_amount: u128,
}

/// An instruction to the ledger: create one token.
///
/// `minter` is the authority the host must present to the ledger — the
/// system's own identity, never the requesting caller's.
#[derive(Clone, Debug)]
pub struct MintCommand {
    pub minter: String,
    pub token_id: String,
    pub owner: String,
    pub token_uri: String,
}

/// An instruction to the host: send the system's entire live holding of
/// `denom` to `to_address`. The amount is deliberately absent — it is
/// whatever the live balance is at the moment the host carries this out.
#[derive(Clone, Debug)]
pub struct BankSend {
    pub to_address: String,
    pub denom: String,
}

/// The effect of a successful mutating request, for the host to carry out
/// after persisting the returned state.
#[derive(Clone, Debug)]
pub enum Response {
    /// Create these tokens in the ledger, in order.
    Minted { commands: Vec<MintCommand> },
    /// Perform this balance transfer.
    Withdrawal { send: BankSend },
    /// Configuration was updated; nothing outward to do.
    Updated,
}

/// The answer to a [`QueryMsg`].
#[derive(Clone, Debug)]
pub enum QueryAnswer {
    Royalties(RoyaltiesInfoResponse),
    Config(ConfigResponse),
}

} // verus!
