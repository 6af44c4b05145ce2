//! The command and query surface of the factory, its responses, and the
//! creation request handed to the host's instantiation channel.

use vstd::prelude::*;

use crate::factory::state::Collection;
use crate::pass::msg::InstantiateMsg as PassInstantiateMsg;

verus! {

/// What the factory needs at instantiation.
#[derive(Clone, Debug)]
pub struct InstantiateMsg {
    pub nft_code_id: u64,
    pub price: u128,
    pub duration: u64,
    pub grace_period: u64,
    pub payment_address: String,
    pub house_percentage: u32,
    pub artist_percentage: u32,
}

/// The factory commands.
#[derive(Clone, Debug)]
pub enum ExecuteMsg {
    CreateCollection {
        name: String,
        symbol: String,
        artist: String,
        minter: String,
        collection_info: String,
    },
    UpdateNftCodeId { code_id: u64 },
    UpdateRoyalties { house_percentage: u32, artist_percentage: u32 },
}

/// The factory queries.
#[derive(Clone, Debug)]
pub enum QueryMsg {
    Config {},
    Collection { artist: String },
    ArtistCollections { artist: String, limit: Option<u32> },
    AllCollections { limit: Option<u32> },
    IsSymbolAvailable { symbol: String },
}

/// The creation request a successful registration emits: everything the
/// child resource needs, the template to instantiate it from, and the
/// correlation token the acknowledgment must carry back unmodified.
#[derive(Clone, Debug)]
pub struct CreationRequest {
    pub code_id: u64,
    pub admin: String,
    pub label: String,
    pub correlation_token: String,
    pub init: PassInstantiateMsg,
}

/// The outcome of a factory command.
#[derive(Clone, Debug)]
pub enum FactoryOutcome {
    Created(CreationRequest),
    CodeIdUpdated { code_id: u64 },
    RoyaltiesUpdated { house_percentage: u32, artist_percentage: u32 },
}

/// The factory configuration, echoed back to a caller.
#[derive(Clone, Debug)]
pub struct ConfigResponse {
    pub nft_code_id: u64,
    pub admin: String,
    pub total_collections: u64,
    pub house_percentage: u32,
    pub artist_percentage: u32,
}

/// An artist's first collection, if any.
#[derive(Clone, Debug)]
pub struct CollectionResponse {
    pub collection: Option<Collection>,
}

/// A bounded list of collections.
#[derive(Clone, Debug)]
pub struct CollectionsResponse {
    pub collections: Vec<Collection>,
}

/// The event a successful registration announces; the address stays empty
/// until the creation is acknowledged.
#[derive(Clone, Debug)]
pub struct CollectionCreatedEvent {
    pub name: String,
    pub symbol: String,
    pub artist: String,
    pub minter: String,
    pub contract_address: String,
    pub house_percentage: u32,
    pub artist_percentage: u32,
}

/// The event an update to a collection announces.
#[derive(Clone, Debug)]
pub struct CollectionUpdatedEvent {
    pub symbol: String,
    pub is_active: bool,
}

/// An answer to a factory query.
#[derive(Clone, Debug)]
pub enum QueryAnswer {
    Config(ConfigResponse),
    Collection(CollectionResponse),
    Collections(CollectionsResponse),
    SymbolAvailable(bool),
}

} // verus!
