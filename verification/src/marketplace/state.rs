//! State of the marketplace: configuration, listings by token
//! identifier, and each seller's listing index.

use vstd::prelude::*;

use crate::store::StrMap;

verus! {

#[derive(Debug)]
pub struct Config {
    pub admin: String,
    pub ul_nft_contract: String,
    /// In basis points: 250 is 2.5%.
    pub fee_percentage: u64,
}

#[derive(Debug)]
pub struct ListingInfo {
    pub seller: String,
    pub token_id: String,
    pub price: u128,
    pub listing_time: u64,
}

impl Config {
    pub fn duplicate(&self) -> (r: Config)
        ensures
            r == *self,
    {
        Config {
            admin: self.admin.clone(),
            ul_nft_contract: self.ul_nft_contract.clone(),
            fee_percentage: self.fee_percentage,
        }
    }
}

impl ListingInfo {
    pub fn duplicate(&self) -> (r: ListingInfo)
        ensures
            r == *self,
    {
        ListingInfo {
            seller: self.seller.clone(),
            token_id: self.token_id.clone(),
            price: self.price,
            listing_time: self.listing_time,
        }
    }
}

/// The persistent maps of the marketplace.
pub struct MarketStore {
    pub config: Option<Config>,
    pub listings: StrMap<ListingInfo>,
    pub seller_listings: StrMap<Vec<String>>,
}

impl MarketStore {
    /// Well-formedness: unique keys, and a stored fee within its
    /// 10000-basis-point cap — instantiation and fee updates both
    /// enforce the cap.
    pub open spec fn wf(self) -> bool {
        &&& self.listings.wf()
        &&& self.seller_listings.wf()
        &&& match self.config {
            Some(c) => c.fee_percentage <= 10000,
            None => true,
        }
    }

    pub open spec fn has_listing(self, token_id: Seq<char>) -> bool {
        self.listings.contains_key(token_id)
    }

    /// The stored listing under `token_id`, meaningful when present.
    pub open spec fn listing_of(self, token_id: Seq<char>) -> ListingInfo {
        self.listings.spec_get(token_id)
    }

    /// The identifiers `seller` has listed (empty when absent).
    pub open spec fn listings_of(self, seller: Seq<char>) -> Seq<Seq<char>> {
        if self.seller_listings.contains_key(seller) {
            self.seller_listings.spec_get(seller)@.map(|i: int, s: String| s@)
        } else {
            Seq::empty()
        }
    }

    pub fn new() -> (r: MarketStore)
        ensures
            r.wf(),
            r.config is None,
            r.listings.entries_seq() == Seq::<(String, ListingInfo)>::empty(),
            r.seller_listings.entries_seq() == Seq::<(String, Vec<String>)>::empty(),
    {
        MarketStore { config: None, listings: StrMap::new(), seller_listings: StrMap::new() }
    }
}

} // verus!
