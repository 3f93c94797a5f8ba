//! Messages of the metadata manager.

use vstd::prelude::*;

use super::state::{Attribute, Config, PoolStats, TokenMetadata};

verus! {

#[derive(Debug)]
pub struct InstantiateMsg {
    pub ul_nft_contract: String,
    pub updater_addresses: Vec<String>,
}

#[allow(inconsistent_fields)]
#[derive(Debug)]
pub enum ExecuteMsg {
    UpdateMetadata { token_id: String, metadata: TokenMetadata },
    AddAttribute { token_id: String, attribute: Attribute },
    RemoveAttribute { token_id: String, trait_type: String },
    UpdatePoolStats { pool_id: String, stats: PoolStats },
    AddUpdater { address: String },
    RemoveUpdater { address: String },
}

#[allow(inconsistent_fields)]
#[derive(Debug)]
pub enum QueryMsg {
    GetMetadata { token_id: String },
    GetPoolStats { pool_id: String },
    GetConfig {},
    GetUpdaters {},
}

#[derive(Debug)]
pub struct GetMetadataResponse {
    pub token_id: String,
    pub metadata: TokenMetadata,
}

#[derive(Debug)]
pub struct GetPoolStatsResponse {
    pub pool_id: String,
    pub stats: PoolStats,
}

/// What a query hands back.
#[allow(inconsistent_fields)]
#[derive(Debug)]
pub enum QueryAnswer {
    Metadata(TokenMetadata),
    PoolStats(PoolStats),
    Config(Config),
    Updaters(Vec<String>),
}

/// What a command hands back: these commands emit no outbound
/// messages, only observable attributes.
#[derive(Debug)]
pub struct Response {
    pub attributes: Vec<(String, String)>,
}

} // verus!
