//! State of the metadata manager: configuration with its updater set,
//! metadata by token identifier, statistics by pool identifier.

use vstd::prelude::*;

use crate::store::{spec_vec_contains_string, StrMap};

verus! {

#[derive(Debug)]
pub struct Config {
    pub admin: String,
    pub ul_nft_contract: String,
    pub updater_addresses: Vec<String>,
}

#[derive(Debug)]
pub struct TokenMetadata {
    pub name: String,
    pub description: String,
    pub image: Option<String>,
    pub external_url: Option<String>,
    pub attributes: Vec<Attribute>,
    pub animation_url: Option<String>,
    pub background_color: Option<String>,
    pub last_updated: u64,
}

#[derive(Debug)]
pub struct Attribute {
    pub trait_type: String,
    pub value: String,
    pub display_type: Option<String>,
}

#[derive(Debug)]
pub struct PoolStats {
    pub total_liquidity: u128,
    pub volume_24h: u128,
    pub fees_earned: u128,
    pub apy: String,
}

pub ghost struct TokenMetadataV {
    pub name: Seq<char>,
    pub description: Seq<char>,
    pub image: Option<Seq<char>>,
    pub external_url: Option<Seq<char>>,
    pub attributes: Seq<Attribute>,
    pub animation_url: Option<Seq<char>>,
    pub background_color: Option<Seq<char>>,
    pub last_updated: u64,
}

pub open spec fn view_opt(s: Option<String>) -> Option<Seq<char>> {
    match s {
        Some(x) => Some(x@),
        None => None,
    }
}

impl View for TokenMetadata {
    type V = TokenMetadataV;

    open spec fn view(&self) -> TokenMetadataV {
        TokenMetadataV {
            name: self.name@,
            description: self.description@,
            image: view_opt(self.image),
            external_url: view_opt(self.external_url),
            attributes: self.attributes@,
            animation_url: view_opt(self.animation_url),
            background_color: view_opt(self.background_color),
            last_updated: self.last_updated,
        }
    }
}

fn clone_opt_string(v: &Option<String>) -> (r: Option<String>)
    ensures
        r == *v,
{
    match v {
        Some(s) => Some(s.clone()),
        None => None,
    }
}

impl Attribute {
    pub fn duplicate(&self) -> (r: Attribute)
        ensures
            r == *self,
    {
        Attribute {
            trait_type: self.trait_type.clone(),
            value: self.value.clone(),
            display_type: clone_opt_string(&self.display_type),
        }
    }
}

/// An element-wise copy of an attribute list.
pub fn clone_attributes(v: &Vec<Attribute>) -> (r: Vec<Attribute>)
    ensures
        r@ == v@,
{
    let mut r: Vec<Attribute> = Vec::new();
    let mut i: usize = 0;
    while i < v.len()
        invariant
            i <= v@.len(),
            r@ == v@.subrange(0, i as int),
        decreases v@.len() - i,
    {
        r.push(v[i].duplicate());
        proof {
            assert(r@ =~= v@.subrange(0, i + 1 as int));
        }
        i = i + 1;
    }
    proof {
        assert(r@ =~= v@);
    }
    r
}

impl TokenMetadata {
    pub fn duplicate(&self) -> (r: TokenMetadata)
        ensures
            r@ == self@,
            r.attributes@ == self.attributes@,
            r.last_updated == self.last_updated,
    {
        TokenMetadata {
            name: self.name.clone(),
            description: self.description.clone(),
            image: clone_opt_string(&self.image),
            external_url: clone_opt_string(&self.external_url),
            attributes: clone_attributes(&self.attributes),
            animation_url: clone_opt_string(&self.animation_url),
            background_color: clone_opt_string(&self.background_color),
            last_updated: self.last_updated,
        }
    }
}

impl PoolStats {
    pub fn duplicate(&self) -> (r: PoolStats)
        ensures
            r == *self,
    {
        PoolStats {
            total_liquidity: self.total_liquidity,
            volume_24h: self.volume_24h,
            fees_earned: self.fees_earned,
            apy: self.apy.clone(),
        }
    }
}

impl Config {
    pub fn duplicate(&self) -> (r: Config)
        ensures
            r.admin == self.admin,
            r.ul_nft_contract == self.ul_nft_contract,
            r.updater_addresses@ == self.updater_addresses@,
    {
        Config {
            admin: self.admin.clone(),
            ul_nft_contract: self.ul_nft_contract.clone(),
            updater_addresses: crate::store::clone_string_vec(&self.updater_addresses),
        }
    }
}

/// The persistent maps of the metadata manager.
pub struct MetadataStore {
    pub config: Option<Config>,
    pub metadata: StrMap<TokenMetadata>,
    pub pool_stats: StrMap<PoolStats>,
}

impl MetadataStore {
    /// Well-formedness: unique keys, and, once configured, at least
    /// one updater — removal of the last one is refused.
    pub open spec fn wf(self) -> bool {
        &&& self.metadata.wf()
        &&& self.pool_stats.wf()
        &&& match self.config {
            Some(c) => c.updater_addresses@.len() >= 1,
            None => true,
        }
    }

    /// Whether `who` may write metadata.
    pub open spec fn is_updater(self, who: Seq<char>) -> bool {
        match self.config {
            Some(c) => spec_vec_contains_string(c.updater_addresses@, who),
            None => false,
        }
    }

    pub open spec fn has_metadata(self, token_id: Seq<char>) -> bool {
        self.metadata.contains_key(token_id)
    }

    /// The stored metadata under `token_id`, viewed; meaningful when
    /// present.
    pub open spec fn metadata_of(self, token_id: Seq<char>) -> TokenMetadataV {
        self.metadata.spec_get(token_id)@
    }

    pub open spec fn has_stats(self, pool_id: Seq<char>) -> bool {
        self.pool_stats.contains_key(pool_id)
    }

    pub open spec fn stats_of(self, pool_id: Seq<char>) -> PoolStats {
        self.pool_stats.spec_get(pool_id)
    }

    /// The configured updaters, in order.
    pub open spec fn updaters(self) -> Seq<Seq<char>> {
        match self.config {
            Some(c) => c.updater_addresses@.map(|i: int, s: String| s@),
            None => Seq::empty(),
        }
    }

    pub fn new() -> (r: MetadataStore)
        ensures
            r.wf(),
            r.config is None,
            r.metadata.entries_seq() == Seq::<(String, TokenMetadata)>::empty(),
            r.pool_stats.entries_seq() == Seq::<(String, PoolStats)>::empty(),
    {
        MetadataStore { config: None, metadata: StrMap::new(), pool_stats: StrMap::new() }
    }
}

} // verus!
