//! State of the token ledger: configuration, tokens by identifier, a
//! running supply counter, and each owner's token list.

use vstd::prelude::*;

use crate::store::StrMap;

verus! {

#[derive(Debug)]
pub struct Config {
    pub name: String,
    pub symbol: String,
    pub admin: String,
    pub euclid_router: String,
}

/// One pool stake carried by a token.
#[derive(Debug)]
pub struct LiquidityPosition {
    pub pool_id: String,
    pub token_pair: (String, String),
    pub amount: u128,
    pub chain_id: String,
}

/// A token: its owner, the positions it carries, an optional approved
/// spender and an optional metadata link.
#[derive(Debug)]
pub struct TokenInfo {
    pub owner: String,
    pub positions: Vec<LiquidityPosition>,
    pub approved: Option<String>,
    pub token_uri: Option<String>,
}

impl Config {
    pub fn duplicate(&self) -> (r: Config)
        ensures
            r == *self,
    {
        Config {
            name: self.name.clone(),
            symbol: self.symbol.clone(),
            admin: self.admin.clone(),
            euclid_router: self.euclid_router.clone(),
        }
    }
}

impl LiquidityPosition {
    pub fn duplicate(&self) -> (r: LiquidityPosition)
        ensures
            r == *self,
    {
        LiquidityPosition {
            pool_id: self.pool_id.clone(),
            token_pair: (self.token_pair.0.clone(), self.token_pair.1.clone()),
            amount: self.amount,
            chain_id: self.chain_id.clone(),
        }
    }
}

/// An element-wise copy of a position list.
pub fn clone_positions(v: &Vec<LiquidityPosition>) -> (r: Vec<LiquidityPosition>)
    ensures
        r@ == v@,
{
    let mut r: Vec<LiquidityPosition> = Vec::new();
    let mut i: usize = 0;
    while i < v.len()
        invariant
            i <= v@.len(),
            r@ == v@.subrange(0, i as int),
        decreases v@.len() - i,
    {
        r.push(v[i].duplicate());
        proof {
            assert(r@ =~= v@.subrange(0, i + 1 as int));
        }
        i = i + 1;
    }
    proof {
        assert(r@ =~= v@);
    }
    r
}

fn clone_opt_string(v: &Option<String>) -> (r: Option<String>)
    ensures
        r == *v,
{
    match v {
        Some(s) => Some(s.clone()),
        None => None,
    }
}

/// A token, viewed: owner and optional strings by their character
/// sequences, positions by their (string-free-equal) values.
pub ghost struct TokenInfoV {
    pub owner: Seq<char>,
    pub positions: Seq<LiquidityPosition>,
    pub approved: Option<Seq<char>>,
    pub token_uri: Option<Seq<char>>,
}

impl View for TokenInfo {
    type V = TokenInfoV;

    open spec fn view(&self) -> TokenInfoV {
        TokenInfoV {
            owner: self.owner@,
            positions: self.positions@,
            approved: match self.approved {
                Some(ref s) => Some(s@),
                None => None,
            },
            token_uri: match self.token_uri {
                Some(ref s) => Some(s@),
                None => None,
            },
        }
    }
}

impl TokenInfo {
    pub fn duplicate(&self) -> (r: TokenInfo)
        ensures
            r@ == self@,
            r.owner == self.owner,
            r.positions@ == self.positions@,
            r.approved == self.approved,
            r.token_uri == self.token_uri,
    {
        TokenInfo {
            owner: self.owner.clone(),
            positions: clone_positions(&self.positions),
            approved: clone_opt_string(&self.approved),
            token_uri: clone_opt_string(&self.token_uri),
        }
    }
}

/// The persistent maps of the token ledger.
pub struct TokenLedger {
    pub config: Option<Config>,
    pub tokens: StrMap<TokenInfo>,
    pub total_supply: u64,
    pub owner_tokens: StrMap<Vec<String>>,
}

impl TokenLedger {
    /// Well-formedness: unique keys, and never more live tokens than
    /// the supply counter — the counter only grows on a successful
    /// mint, so a burn can always decrement it.
    pub open spec fn wf(self) -> bool {
        &&& self.tokens.wf()
        &&& self.owner_tokens.wf()
        &&& self.tokens.spec_len() <= self.total_supply
    }

    pub open spec fn has_token(self, token_id: Seq<char>) -> bool {
        self.tokens.contains_key(token_id)
    }

    /// The stored token under `token_id`, viewed; meaningful when
    /// present.
    pub open spec fn token_of(self, token_id: Seq<char>) -> TokenInfoV {
        self.tokens.spec_get(token_id)@
    }

    /// The token list of `owner` (empty when absent).
    pub open spec fn tokens_of(self, owner: Seq<char>) -> Seq<Seq<char>> {
        if self.owner_tokens.contains_key(owner) {
            self.owner_tokens.spec_get(owner)@.map(|i: int, s: String| s@)
        } else {
            Seq::empty()
        }
    }

    pub fn new() -> (r: TokenLedger)
        ensures
            r.wf(),
            r.config is None,
            r.total_supply == 0,
            r.tokens.entries_seq() == Seq::<(String, TokenInfo)>::empty(),
            r.owner_tokens.entries_seq() == Seq::<(String, Vec<String>)>::empty(),
    {
        TokenLedger {
            config: None,
            tokens: StrMap::new(),
            total_supply: 0,
            owner_tokens: StrMap::new(),
        }
    }
}

} // verus!
