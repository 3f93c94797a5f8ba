//! Messages of the marketplace.

use vstd::prelude::*;

use super::state::{Config, ListingInfo};

verus! {

#[derive(Debug)]
pub struct InstantiateMsg {
    pub ul_nft_contract: String,
    pub fee_percentage: u64,
}

#[allow(inconsistent_fields)]
#[derive(Debug)]
pub enum ExecuteMsg {
    ListNFT { token_id: String, price: u128 },
    CancelListing { token_id: String },
    BuyNFT { token_id: String },
    UpdateFee { fee_percentage: u64 },
}

#[allow(inconsistent_fields)]
#[derive(Debug)]
pub enum QueryMsg {
    GetListing { token_id: String },
    GetListings { start_after: Option<String>, limit: Option<u32> },
    GetConfig {},
}

/// An attached amount of one denomination.
#[derive(Debug)]
pub struct Coin {
    pub denom: String,
    pub amount: u128,
}

/// An outbound message a marketplace command emits: the token handoff
/// to the ledger contract, or a payment.
#[allow(inconsistent_fields)]
#[derive(Debug)]
pub enum MarketMsg {
    /// Ask the token-ledger contract to move the token to the buyer.
    TransferNft { contract_addr: String, recipient: String, token_id: String },
    /// Pay an amount of the market's denomination to an account.
    BankSend { to_address: String, amount: u128, denom: String },
}

/// What a command hands back: outbound messages and observable
/// attributes.
#[derive(Debug)]
pub struct Response {
    pub messages: Vec<MarketMsg>,
    pub attributes: Vec<(String, String)>,
}

/// What a query hands back.
#[allow(inconsistent_fields)]
#[derive(Debug)]
pub enum QueryAnswer {
    Listing(Option<ListingInfo>),
    Listings(Vec<ListingInfo>),
    Config(Config),
}

pub ghost enum MarketMsgV {
    TransferNft { contract_addr: Seq<char>, recipient: Seq<char>, token_id: Seq<char> },
    BankSend { to_address: Seq<char>, amount: u128, denom: Seq<char> },
}

pub ghost struct ResponseV {
    pub messages: Seq<MarketMsgV>,
    pub attributes: Seq<(Seq<char>, Seq<char>)>,
}

impl View for MarketMsg {
    type V = MarketMsgV;

    open spec fn view(&self) -> MarketMsgV {
        match *self {
            MarketMsg::TransferNft { contract_addr, recipient, token_id } => MarketMsgV::TransferNft {
                contract_addr: contract_addr@,
                recipient: recipient@,
                token_id: token_id@,
            },
            MarketMsg::BankSend { to_address, amount, denom } => MarketMsgV::BankSend {
                to_address: to_address@,
                amount: amount,
                denom: denom@,
            },
        }
    }
}

impl View for Response {
    type V = ResponseV;

    open spec fn view(&self) -> ResponseV {
        ResponseV {
            messages: self.messages@.map(|i: int, m: MarketMsg| m@),
            attributes: self.attributes@.map(|i: int, a: (String, String)| (a.0@, a.1@)),
        }
    }
}

} // verus!
