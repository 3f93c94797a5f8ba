//! Ledger state of the liquidity wrapper: configuration, positions by
//! token identifier, aggregate liquidity by pool, and the FIFO queue of
//! requesters with an add-liquidity call in flight, by pool.
//!
//! The central invariant (`LedgerStore::wf`) ties the aggregate to the
//! positions: for every pool, the stored aggregate equals the sum of
//! the amounts of all positions referencing that pool.

use vstd::prelude::*;

use crate::store::StrMap;

verus! {

/// Administrator and collaborating endpoints, set at instantiation.
#[derive(Debug)]
pub struct Config {
    pub admin: String,
    pub ul_nft_contract: String,
    pub euclid_router: String,
    pub euclid_factory: String,
}

/// A claim's economic content: which pool, on which chain, how much.
#[derive(Debug)]
pub struct LiquidityPosition {
    pub pool_id: String,
    pub chain_id: String,
    pub token_pair: (String, String),
    pub amount: u128,
    pub last_updated: u64,
}

/// The unit a holder owns and acts on: an owned, uniquely identified
/// liquidity position.
#[derive(Debug)]
pub struct PositionInfo {
    pub owner: String,
    pub token_id: String,
    pub position: LiquidityPosition,
}

pub ghost struct ConfigV {
    pub admin: Seq<char>,
    pub ul_nft_contract: Seq<char>,
    pub euclid_router: Seq<char>,
    pub euclid_factory: Seq<char>,
}

pub ghost struct LiquidityPositionV {
    pub pool_id: Seq<char>,
    pub chain_id: Seq<char>,
    pub token_pair: (Seq<char>, Seq<char>),
    pub amount: u128,
    pub last_updated: u64,
}

pub ghost struct PositionInfoV {
    pub owner: Seq<char>,
    pub token_id: Seq<char>,
    pub position: LiquidityPositionV,
}

impl View for Config {
    type V = ConfigV;

    open spec fn view(&self) -> ConfigV {
        ConfigV {
            admin: self.admin@,
            ul_nft_contract: self.ul_nft_contract@,
            euclid_router: self.euclid_router@,
            euclid_factory: self.euclid_factory@,
        }
    }
}

impl View for LiquidityPosition {
    type V = LiquidityPositionV;

    open spec fn view(&self) -> LiquidityPositionV {
        LiquidityPositionV {
            pool_id: self.pool_id@,
            chain_id: self.chain_id@,
            token_pair: (self.token_pair.0@, self.token_pair.1@),
            amount: self.amount,
            last_updated: self.last_updated,
        }
    }
}

impl View for PositionInfo {
    type V = PositionInfoV;

    open spec fn view(&self) -> PositionInfoV {
        PositionInfoV {
            owner: self.owner@,
            token_id: self.token_id@,
            position: self.position@,
        }
    }
}

impl Config {
    pub fn duplicate(&self) -> (r: Config)
        ensures
            r == *self,
    {
        Config {
            admin: self.admin.clone(),
            ul_nft_contract: self.ul_nft_contract.clone(),
            euclid_router: self.euclid_router.clone(),
            euclid_factory: self.euclid_factory.clone(),
        }
    }
}

impl LiquidityPosition {
    pub fn duplicate(&self) -> (r: LiquidityPosition)
        ensures
            r == *self,
    {
        LiquidityPosition {
            pool_id: self.pool_id.clone(),
            chain_id: self.chain_id.clone(),
            token_pair: (self.token_pair.0.clone(), self.token_pair.1.clone()),
            amount: self.amount,
            last_updated: self.last_updated,
        }
    }
}

impl PositionInfo {
    pub fn duplicate(&self) -> (r: PositionInfo)
        ensures
            r == *self,
    {
        PositionInfo {
            owner: self.owner.clone(),
            token_id: self.token_id.clone(),
            position: self.position.duplicate(),
        }
    }
}

/// What one position entry contributes to a pool's aggregate.
pub open spec fn pool_contrib(e: (String, PositionInfo), pool: Seq<char>) -> int {
    if e.1.position.pool_id@ == pool {
        e.1.position.amount as int
    } else {
        0
    }
}

/// The summed amount, over the position entries, of positions in `pool`.
pub open spec fn pool_amount_sum(s: Seq<(String, PositionInfo)>, pool: Seq<char>) -> int
    decreases s.len(),
{
    if s.len() == 0 {
        0
    } else {
        pool_amount_sum(s.drop_last(), pool) + pool_contrib(s.last(), pool)
    }
}

pub proof fn lemma_pool_sum_nonneg(s: Seq<(String, PositionInfo)>, pool: Seq<char>)
    ensures
        pool_amount_sum(s, pool) >= 0,
    decreases s.len(),
{
    if s.len() > 0 {
        lemma_pool_sum_nonneg(s.drop_last(), pool);
    }
}

pub proof fn lemma_pool_sum_push(s: Seq<(String, PositionInfo)>, e: (String, PositionInfo), pool: Seq<char>)
    ensures
        pool_amount_sum(s.push(e), pool) == pool_amount_sum(s, pool) + pool_contrib(e, pool),
{
    assert(s.push(e).drop_last() =~= s);
    assert(s.push(e).last() == e);
}

pub proof fn lemma_pool_sum_update(
    s: Seq<(String, PositionInfo)>,
    i: int,
    e: (String, PositionInfo),
    pool: Seq<char>,
)
    requires
        0 <= i < s.len(),
    ensures
        pool_amount_sum(s.update(i, e), pool) == pool_amount_sum(s, pool) - pool_contrib(
            s[i],
            pool,
        ) + pool_contrib(e, pool),
    decreases s.len(),
{
    if i == s.len() - 1 {
        assert(s.update(i, e).drop_last() =~= s.drop_last());
        assert(s.update(i, e).last() == e);
        assert(s.last() == s[i]);
    } else {
        lemma_pool_sum_update(s.drop_last(), i, e, pool);
        assert(s.update(i, e).drop_last() =~= s.drop_last().update(i, e));
        assert(s.update(i, e).last() == s.last());
        assert(s.drop_last()[i] == s[i]);
    }
}

pub proof fn lemma_pool_sum_remove(s: Seq<(String, PositionInfo)>, i: int, pool: Seq<char>)
    requires
        0 <= i < s.len(),
    ensures
        pool_amount_sum(s.remove(i), pool) == pool_amount_sum(s, pool) - pool_contrib(s[i], pool),
    decreases s.len(),
{
    if i == s.len() - 1 {
        assert(s.remove(i) =~= s.drop_last());
        assert(s.last() == s[i]);
    } else {
        lemma_pool_sum_remove(s.drop_last(), i, pool);
        assert(s.remove(i).drop_last() =~= s.drop_last().remove(i));
        assert(s.remove(i).last() == s.last());
        assert(s.drop_last()[i] == s[i]);
    }
}

/// A pool's aggregate is at least any one of its positions' amounts.
pub proof fn lemma_pool_sum_entry_bound(s: Seq<(String, PositionInfo)>, i: int, pool: Seq<char>)
    requires
        0 <= i < s.len(),
        s[i].1.position.pool_id@ == pool,
    ensures
        pool_amount_sum(s, pool) >= s[i].1.position.amount,
    decreases s.len(),
{
    if i == s.len() - 1 {
        lemma_pool_sum_nonneg(s.drop_last(), pool);
        assert(s.last() == s[i]);
    } else {
        lemma_pool_sum_entry_bound(s.drop_last(), i, pool);
        assert(s.drop_last()[i] == s[i]);
        assert(pool_contrib(s.last(), pool) >= 0);
    }
}

/// The four persistent maps of the wrapper contract.
pub struct LedgerStore {
    pub config: Option<Config>,
    pub positions: StrMap<PositionInfo>,
    pub pool_liquidity: StrMap<u128>,
    pub pending_operations: StrMap<Vec<String>>,
}

impl LedgerStore {
    pub open spec fn spec_config(self) -> Option<Config> {
        self.config
    }

    pub open spec fn spec_positions(self) -> StrMap<PositionInfo> {
        self.positions
    }

    pub open spec fn spec_pool_liquidity(self) -> StrMap<u128> {
        self.pool_liquidity
    }

    pub open spec fn spec_pending(self) -> StrMap<Vec<String>> {
        self.pending_operations
    }

    pub open spec fn config_view(self) -> Option<ConfigV> {
        match self.spec_config() {
            Some(c) => Some(c@),
            None => None,
        }
    }

    pub open spec fn has_position(self, token_id: Seq<char>) -> bool {
        self.spec_positions().contains_key(token_id)
    }

    /// The stored record under `token_id`, meaningful when present.
    pub open spec fn position_of(self, token_id: Seq<char>) -> PositionInfoV {
        self.spec_positions().spec_get(token_id)@
    }

    /// The positions in storage order.
    pub open spec fn positions_in_order(self) -> Seq<PositionInfoV> {
        self.spec_positions().entries_seq().map(|i: int, e: (String, PositionInfo)| e.1@)
    }

    /// The aggregate liquidity recorded for `pool` (0 when absent).
    pub open spec fn liquidity_of(self, pool: Seq<char>) -> int {
        if self.spec_pool_liquidity().contains_key(pool) {
            self.spec_pool_liquidity().spec_get(pool) as int
        } else {
            0
        }
    }

    /// The queue of requesters awaiting an add-liquidity callback for
    /// `pool`, oldest first (empty when absent).
    pub open spec fn pending_of(self, pool: Seq<char>) -> Seq<Seq<char>> {
        if self.spec_pending().contains_key(pool) {
            self.spec_pending().spec_get(pool)@.map(|i: int, s: String| s@)
        } else {
            Seq::empty()
        }
    }

    /// Well-formedness: unique keys in every map, and every pool's
    /// recorded aggregate equal to the sum of its positions' amounts.
    pub open spec fn wf(self) -> bool {
        &&& self.spec_positions().wf()
        &&& self.spec_pool_liquidity().wf()
        &&& self.spec_pending().wf()
        &&& forall|pool: Seq<char>|
            #[trigger] self.liquidity_of(pool) == pool_amount_sum(
                self.spec_positions().entries_seq(),
                pool,
            )
    }

    /// An empty ledger, before instantiation.
    pub fn new() -> (r: LedgerStore)
        ensures
            r.wf(),
            r.spec_config() is None,
            r.spec_positions().entries_seq() == Seq::<(String, PositionInfo)>::empty(),
            r.spec_pool_liquidity().entries_seq() == Seq::<(String, u128)>::empty(),
            r.spec_pending().entries_seq() == Seq::<(String, Vec<String>)>::empty(),
    {
        let r = LedgerStore {
            config: None,
            positions: StrMap::new(),
            pool_liquidity: StrMap::new(),
            pending_operations: StrMap::new(),
        };
        r
    }
}

/// No position but the one under `token_id` differs between the two
/// ledgers.
pub open spec fn positions_unchanged_except(
    pre: LedgerStore,
    post: LedgerStore,
    token_id: Seq<char>,
) -> bool {
    &&& forall|t: Seq<char>|
        t != token_id ==> #[trigger] post.has_position(t) == pre.has_position(t)
    &&& forall|t: Seq<char>|
        t != token_id && pre.has_position(t) ==> #[trigger] post.position_of(t)
            == pre.position_of(t)
}

/// No pool aggregate but the one of `pool` differs between the two
/// ledgers.
pub open spec fn liquidity_unchanged_except(
    pre: LedgerStore,
    post: LedgerStore,
    pool: Seq<char>,
) -> bool {
    forall|p: Seq<char>| p != pool ==> #[trigger] post.liquidity_of(p) == pre.liquidity_of(p)
}

/// No pending queue but the one of `pool` differs between the two
/// ledgers.
pub open spec fn pending_unchanged_except(
    pre: LedgerStore,
    post: LedgerStore,
    pool: Seq<char>,
) -> bool {
    forall|p: Seq<char>| p != pool ==> #[trigger] post.pending_of(p) == pre.pending_of(p)
}

/// Every pending queue is the same in the two ledgers.
pub open spec fn pending_unchanged(pre: LedgerStore, post: LedgerStore) -> bool {
    forall|p: Seq<char>| #[trigger] post.pending_of(p) == pre.pending_of(p)
}

/// After writing aggregate `v` under `pool`, that pool's recorded
/// liquidity is `v` and every other pool's is unchanged.
pub proof fn lemma_liquidity_after_set(pre: LedgerStore, post: LedgerStore, pool: Seq<char>, v: u128)
    requires
        post.spec_pool_liquidity().contains_key(pool),
        post.spec_pool_liquidity().spec_get(pool) == v,
        forall|k2: Seq<char>|
            k2 != pool ==> #[trigger] post.spec_pool_liquidity().contains_key(k2)
                == pre.spec_pool_liquidity().contains_key(k2),
        forall|k2: Seq<char>|
            k2 != pool && pre.spec_pool_liquidity().contains_key(k2)
                ==> #[trigger] post.spec_pool_liquidity().spec_get(k2)
                == pre.spec_pool_liquidity().spec_get(k2),
    ensures
        post.liquidity_of(pool) == v,
        liquidity_unchanged_except(pre, post, pool),
{
    assert forall|p: Seq<char>| p != pool implies #[trigger] post.liquidity_of(p)
        == pre.liquidity_of(p) by {
        assert(post.spec_pool_liquidity().contains_key(p) == pre.spec_pool_liquidity(
        ).contains_key(p));
        if pre.spec_pool_liquidity().contains_key(p) {
            assert(post.spec_pool_liquidity().spec_get(p) == pre.spec_pool_liquidity().spec_get(
                p,
            ));
        }
    }
}

/// A ledger whose positions and aggregates are those of a well-formed
/// one is well-formed, whatever happened to its configuration or its
/// pending queues.
pub proof fn lemma_wf_same_maps(pre: LedgerStore, post: LedgerStore)
    requires
        pre.wf(),
        post.spec_positions() == pre.spec_positions(),
        post.spec_pool_liquidity() == pre.spec_pool_liquidity(),
        post.spec_pending().wf(),
    ensures
        post.wf(),
{
    assert forall|pool: Seq<char>|
        #[trigger] post.liquidity_of(pool) == pool_amount_sum(
            post.spec_positions().entries_seq(),
            pool,
        ) by {
        assert(pre.liquidity_of(pool) == pool_amount_sum(
            pre.spec_positions().entries_seq(),
            pool,
        ));
        assert(post.liquidity_of(pool) == pre.liquidity_of(pool));
    }
}

/// The aggregate invariant, stated on its own: in every well-formed
/// ledger state, each pool's recorded aggregate liquidity equals the
/// sum of the amounts of the position records referencing that pool.
/// Every mutating entry point of the contract preserves `wf`, so this
/// holds in every reachable state, in-flight operations or not.
pub proof fn lemma_pool_aggregate_consistent(store: LedgerStore, pool: Seq<char>)
    requires
        store.wf(),
    ensures
        store.liquidity_of(pool) == pool_amount_sum(store.spec_positions().entries_seq(), pool),
        store.liquidity_of(pool) >= 0,
{
    lemma_pool_sum_nonneg(store.spec_positions().entries_seq(), pool);
}

} // verus!
