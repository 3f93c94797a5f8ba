//! Messages of the token ledger.

use vstd::prelude::*;

use super::state::{Config, LiquidityPosition, TokenInfo};

verus! {

#[derive(Debug)]
pub struct MigrateMsg {}

#[derive(Debug)]
pub struct InstantiateMsg {
    pub name: String,
    pub symbol: String,
    pub euclid_router: String,
}

#[allow(inconsistent_fields)]
#[derive(Debug)]
pub enum ExecuteMsg {
    Mint {
        positions: Vec<LiquidityPosition>,
        token_uri: Option<String>,
    },
    Transfer {
        recipient: String,
        token_id: String,
    },
    Approve {
        spender: String,
        token_id: String,
    },
    Burn {
        token_id: String,
    },
    UpdateLiquidityPosition {
        token_id: String,
        position_updates: Vec<LiquidityPosition>,
    },
}

#[derive(Debug)]
pub enum QueryMsg {
    GetToken { token_id: String },
    GetTokensByOwner { owner: String },
    Config {},
    TotalSupply {},
}

#[derive(Debug)]
pub struct GetTokenResponse {
    pub token: TokenInfo,
}

#[derive(Debug)]
pub struct GetTokensByOwnerResponse {
    pub tokens: Vec<String>,
}

#[derive(Debug)]
pub struct ConfigResponse {
    pub config: Config,
}

/// What a query hands back.
#[allow(inconsistent_fields)]
#[derive(Debug)]
pub enum QueryAnswer {
    Token(TokenInfo),
    TokensByOwner(Vec<String>),
    Config(Config),
    TotalSupply(u64),
}

/// What a command hands back: this ledger's commands emit no outbound
/// messages, only observable attributes.
#[derive(Debug)]
pub struct Response {
    pub attributes: Vec<(String, String)>,
}

} // verus!
