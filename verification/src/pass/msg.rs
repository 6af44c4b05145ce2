//! The command and query surface of a collection, and its responses.
//!
//! Commands carry plain values; the host-facing shell validates identities
//! and decodes wire messages before anything here is built.

use vstd::prelude::*;

verus! {

/// What a collection needs to start issuing passes.
#[derive(Clone, Debug)]
pub struct InstantiateMsg {
    pub name: String,
    pub symbol: String,
    pub artist: String,
    pub minter: String,
    pub collection_info: String,
    pub pass_price: u128,
    pub pass_duration: u64,
    pub grace_period: u64,
    pub payment_address: String,
    pub house_percentage: u32,
    pub artist_percentage: u32,
}

/// The pass lifecycle commands.
#[derive(Clone, Debug)]
pub enum PassMsg {
    MintPass { owner_address: String },
    RenewPass { token_id: String },
    BurnExpiredPass { token_id: String },
}

/// The pass queries.
#[derive(Clone, Debug)]
pub enum PassQuery {
    GetUserPass { symbol: String, owner: String },
    CheckValidity { token_id: String },
    GetConfig {},
    GetArtistInfo {},
}

/// One payment order: send `amount` of `denom` to `to_address`.
#[derive(Clone, Debug)]
pub struct BankPayment {
    pub to_address: String,
    pub denom: String,
    pub amount: u128,
}

/// What a successful mint hands back: the new identifier and the two payment
/// orders of the royalty split.
#[derive(Clone, Debug)]
pub struct MintReceipt {
    pub token_id: String,
    pub owner: String,
    pub house_payment: BankPayment,
    pub artist_payment: BankPayment,
}

/// What a successful renewal hands back.
#[derive(Clone, Debug)]
pub struct RenewReceipt {
    pub token_id: String,
    pub new_expires_at: u64,
    pub house_payment: BankPayment,
    pub artist_payment: BankPayment,
}

/// The outcome of a lifecycle command.
#[derive(Clone, Debug)]
pub enum PassOutcome {
    Minted(MintReceipt),
    Renewed(RenewReceipt),
    Burned { token_id: String },
}

/// Whether a pass may still be used, and where its window stands.
#[derive(Clone, Debug)]
pub struct ValidityResponse {
    pub token_id: String,
    pub is_valid: bool,
    pub expires_at: u64,
    pub in_grace_period: bool,
    pub grace_period_end: Option<u64>,
}

/// A pass found for an owner under a collection symbol.
#[derive(Clone, Debug)]
pub struct PassResponse {
    pub collection_name: String,
    pub contract_address: String,
    pub token_id: String,
    pub owner: String,
    pub is_valid: bool,
    pub expires_at: u64,
}

/// The collection configuration, echoed back to a caller.
#[derive(Clone, Debug)]
pub struct ConfigResponse {
    pub name: String,
    pub symbol: String,
    pub artist: String,
    pub minter: String,
    pub collection_info: String,
    pub pass_price: u128,
    pub pass_duration: u64,
    pub grace_period: u64,
    pub payment_address: String,
    pub house_percentage: u32,
    pub artist_percentage: u32,
}

/// The artist behind a collection and how its passes stand.
#[derive(Clone, Debug)]
pub struct ArtistInfoResponse {
    pub artist: String,
    pub total_passes: u64,
    pub active_passes: u64,
}

/// An answer to a pass query.
#[derive(Clone, Debug)]
pub enum PassQueryAnswer {
    UserPass(PassResponse),
    Validity(ValidityResponse),
    Config(ConfigResponse),
    ArtistInfo(ArtistInfoResponse),
}

} // verus!
