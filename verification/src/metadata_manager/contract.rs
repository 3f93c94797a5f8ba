//! Entry points of the metadata manager.

use vstd::prelude::*;

use crate::store::{clone_string_vec, remove_matching, spec_vec_contains_string, vec_contains_string};
use super::error::ContractError;
use super::msg::{ExecuteMsg, InstantiateMsg, QueryAnswer, QueryMsg, Response};
use super::state::{Attribute, Config, MetadataStore, PoolStats, TokenMetadata, TokenMetadataV};

verus! {

/// A command result, viewed as the attribute list it carries.
pub open spec fn spec_result(r: Result<Response, ContractError>) -> Result<
    Seq<(Seq<char>, Seq<char>)>,
    ContractError,
> {
    match r {
        Ok(resp) => Ok(resp.attributes@.map(|i: int, a: (String, String)| (a.0@, a.1@))),
        Err(e) => Err(e),
    }
}

fn attr(k: &'static str, v: String) -> (r: (String, String))
    ensures
        r.0@ == k@,
        r.1 == v,
{
    (String::from_str(k), v)
}

/// The updater set built at instantiation: the instantiator first,
/// then each given address not already present, in order.
pub open spec fn spec_extend_updaters(base: Seq<Seq<char>>, addrs: Seq<Seq<char>>) -> Seq<
    Seq<char>,
>
    decreases addrs.len(),
{
    if addrs.len() == 0 {
        base
    } else {
        let base2 = if base.contains(addrs[0]) {
            base
        } else {
            base.push(addrs[0])
        };
        spec_extend_updaters(base2, addrs.drop_first())
    }
}

/// Store the configuration: the instantiator becomes administrator
/// and first updater; the given addresses join the updater set
/// without duplicates.
pub fn instantiate(store: &mut MetadataStore, sender: String, msg: InstantiateMsg) -> (r: Result<
    Response,
    ContractError,
>)
    requires
        old(store).wf(),
    ensures
        final(store).wf(),
        final(store).metadata == old(store).metadata,
        final(store).pool_stats == old(store).pool_stats,
        final(store).config matches Some(c) && c.admin@ == sender@ && c.ul_nft_contract@
            == msg.ul_nft_contract@,
        final(store).updaters() == spec_extend_updaters(
            seq![sender@],
            msg.updater_addresses@.map(|i: int, s: String| s@),
        ),
        spec_result(r) == Ok::<Seq<(Seq<char>, Seq<char>)>, ContractError>(
            seq![
                ("method"@, "instantiate"@),
                ("admin"@, sender@),
                ("ul_nft_contract"@, msg.ul_nft_contract@),
            ],
        ),
{
    let mut updaters: Vec<String> = Vec::new();
    updaters.push(sender.clone());
    let ghost all: Seq<Seq<char>> = msg.updater_addresses@.map(|i: int, s: String| s@);
    proof {
        assert(updaters@.map(|i: int, s: String| s@) =~= seq![sender@]);
        assert(all.subrange(0, all.len() as int) =~= all);
    }
    let n = msg.updater_addresses.len();
    let mut i: usize = 0;
    while i < n
        invariant
            i <= n,
            n == msg.updater_addresses@.len(),
            updaters@.len() >= 1,
            all == msg.updater_addresses@.map(|j: int, s: String| s@),
            spec_extend_updaters(
                updaters@.map(|j: int, s: String| s@),
                all.subrange(i as int, n as int),
            ) == spec_extend_updaters(seq![sender@], all),
        decreases n - i,
    {
        let a = &msg.updater_addresses[i];
        let ghost cur: Seq<Seq<char>> = updaters@.map(|j: int, s: String| s@);
        proof {
            assert(all.subrange(i as int, n as int)[0] == a@);
            assert(all.subrange(i as int, n as int).drop_first() =~= all.subrange(
                i + 1,
                n as int,
            ));
        }
        let present = vec_contains_string(&updaters, a);
        proof {
            if present {
                let j = choose|j: int| 0 <= j < updaters@.len() && updaters@[j]@ == a@;
                assert(cur[j] == a@);
                assert(cur.contains(a@));
            }
            if !present && cur.contains(a@) {
                let j = choose|j: int| 0 <= j < cur.len() && cur[j] == a@;
                assert(updaters@[j]@ == a@);
                assert(spec_vec_contains_string(updaters@, a@));
            }
        }
        if !present {
            updaters.push(a.clone());
            proof {
                assert(updaters@.map(|j: int, s: String| s@) =~= cur.push(a@));
            }
        }
        i = i + 1;
    }
    proof {
        assert(all.subrange(n as int, n as int).len() == 0);
    }

    let config = Config {
        admin: sender.clone(),
        ul_nft_contract: msg.ul_nft_contract.clone(),
        updater_addresses: updaters,
    };
    store.config = Some(config);

    let mut attributes: Vec<(String, String)> = Vec::new();
    attributes.push(attr("method", String::from_str("instantiate")));
    attributes.push(attr("admin", sender));
    attributes.push(attr("ul_nft_contract", msg.ul_nft_contract));
    let resp = Response { attributes };
    proof {
        assert(resp.attributes@.map(|i2: int, a2: (String, String)| (a2.0@, a2.1@)) =~= seq![
            ("method"@, "instantiate"@),
            ("admin"@, attributes@[1].1@),
            ("ul_nft_contract"@, attributes@[2].1@),
        ]);
    }
    Ok(resp)
}

/// What a metadata write does: updater-gated upsert of the whole
/// record, stamped with the current time.
pub open spec fn metadata_updated(
    pre: MetadataStore,
    post: MetadataStore,
    time: u64,
    sender: Seq<char>,
    token_id: Seq<char>,
    metadata: TokenMetadataV,
    out: Result<Seq<(Seq<char>, Seq<char>)>, ContractError>,
) -> bool {
    if !pre.is_updater(sender) {
        &&& post == pre
        &&& out == Err::<Seq<(Seq<char>, Seq<char>)>, ContractError>(ContractError::Unauthorized)
    } else {
        &&& post.config == pre.config
        &&& post.pool_stats == pre.pool_stats
        &&& post.has_metadata(token_id)
        &&& post.metadata_of(token_id) == TokenMetadataV {
            last_updated: time,
            ..metadata
        }
        &&& forall|t: Seq<char>|
            t != token_id ==> #[trigger] post.has_metadata(t) == pre.has_metadata(t)
        &&& forall|t: Seq<char>|
            t != token_id && pre.has_metadata(t) ==> #[trigger] post.metadata_of(t)
                == pre.metadata_of(t)
        &&& out == Ok::<Seq<(Seq<char>, Seq<char>)>, ContractError>(
            seq![("action"@, "update_metadata"@), ("token_id"@, token_id)],
        )
    }
}

/// Write a token's metadata whole; updater-gated.
pub fn execute_update_metadata(
    store: &mut MetadataStore,
    time: u64,
    sender: String,
    token_id: String,
    metadata: TokenMetadata,
) -> (r: Result<Response, ContractError>)
    requires
        old(store).wf(),
    ensures
        final(store).wf(),
        metadata_updated(
            *old(store),
            *final(store),
            time,
            sender@,
            token_id@,
            metadata@,
            spec_result(r),
        ),
{
    let allowed = match &store.config {
        Some(c) => vec_contains_string(&c.updater_addresses, &sender),
        None => false,
    };
    if !allowed {
        return Err(ContractError::Unauthorized);
    }
    let mut stamped = metadata;
    stamped.last_updated = time;
    store.metadata.set(token_id.clone(), stamped);

    let mut attributes: Vec<(String, String)> = Vec::new();
    attributes.push(attr("action", String::from_str("update_metadata")));
    attributes.push(attr("token_id", token_id));
    let resp = Response { attributes };
    proof {
        assert(resp.attributes@.map(|i: int, a: (String, String)| (a.0@, a.1@)) =~= seq![
            ("action"@, "update_metadata"@),
            ("token_id"@, attributes@[1].1@),
        ]);
    }
    Ok(resp)
}

/// Whether some attribute carries the given trait.
pub open spec fn spec_has_trait(attrs: Seq<Attribute>, trait_type: Seq<char>) -> bool {
    exists|i: int| 0 <= i < attrs.len() && attrs[i].trait_type@ == trait_type
}

fn has_trait(attrs: &Vec<Attribute>, trait_type: &String) -> (r: bool)
    ensures
        r == spec_has_trait(attrs@, trait_type@),
{
    let mut i: usize = 0;
    while i < attrs.len()
        invariant
            i <= attrs@.len(),
            forall|j: int| 0 <= j < i ==> attrs@[j].trait_type@ != trait_type@,
        decreases attrs@.len() - i,
    {
        if attrs[i].trait_type == *trait_type {
            return true;
        }
        i = i + 1;
    }
    false
}

/// What an attribute addition does: updater-gated append of a fresh
/// trait to existing metadata, stamped with the current time.
pub open spec fn attribute_added(
    pre: MetadataStore,
    post: MetadataStore,
    time: u64,
    sender: Seq<char>,
    token_id: Seq<char>,
    attribute: Attribute,
    out: Result<Seq<(Seq<char>, Seq<char>)>, ContractError>,
) -> bool {
    if !pre.is_updater(sender) {
        &&& post == pre
        &&& out == Err::<Seq<(Seq<char>, Seq<char>)>, ContractError>(ContractError::Unauthorized)
    } else if !pre.has_metadata(token_id) {
        &&& post == pre
        &&& out == Err::<Seq<(Seq<char>, Seq<char>)>, ContractError>(ContractError::TokenNotFound)
    } else if spec_has_trait(pre.metadata_of(token_id).attributes, attribute.trait_type@) {
        &&& post == pre
        &&& out == Err::<Seq<(Seq<char>, Seq<char>)>, ContractError>(
            ContractError::DuplicateAttribute,
        )
    } else {
        &&& post.config == pre.config
        &&& post.pool_stats == pre.pool_stats
        &&& post.has_metadata(token_id)
        &&& post.metadata_of(token_id) == TokenMetadataV {
            attributes: pre.metadata_of(token_id).attributes.push(attribute),
            last_updated: time,
            ..pre.metadata_of(token_id)
        }
        &&& forall|t: Seq<char>|
            t != token_id ==> #[trigger] post.has_metadata(t) == pre.has_metadata(t)
        &&& forall|t: Seq<char>|
            t != token_id && pre.has_metadata(t) ==> #[trigger] post.metadata_of(t)
                == pre.metadata_of(t)
        &&& out == Ok::<Seq<(Seq<char>, Seq<char>)>, ContractError>(
            seq![
                ("action"@, "add_attribute"@),
                ("token_id"@, token_id),
                ("trait_type"@, attribute.trait_type@),
            ],
        )
    }
}

/// Append an attribute to a token's metadata; updater-gated, and a
/// trait may occur only once.
pub fn execute_add_attribute(
    store: &mut MetadataStore,
    time: u64,
    sender: String,
    token_id: String,
    attribute: Attribute,
) -> (r: Result<Response, ContractError>)
    requires
        old(store).wf(),
    ensures
        final(store).wf(),
        attribute_added(
            *old(store),
            *final(store),
            time,
            sender@,
            token_id@,
            attribute,
            spec_result(r),
        ),
{
    let allowed = match &store.config {
        Some(c) => vec_contains_string(&c.updater_addresses, &sender),
        None => false,
    };
    if !allowed {
        return Err(ContractError::Unauthorized);
    }
    let idx = match store.metadata.index_of(&token_id) {
        Some(i) => i,
        None => {
            return Err(ContractError::TokenNotFound);
        },
    };
    proof {
        store.metadata.lemma_entry_is_get(idx as int);
    }
    let current = store.metadata.value_at(idx);
    if has_trait(&current.attributes, &attribute.trait_type) {
        return Err(ContractError::DuplicateAttribute);
    }
    let trait_name = attribute.trait_type.clone();
    let mut updated = current.duplicate();
    updated.attributes.push(attribute);
    updated.last_updated = time;
    store.metadata.set_at(idx, updated);

    let mut attributes: Vec<(String, String)> = Vec::new();
    attributes.push(attr("action", String::from_str("add_attribute")));
    attributes.push(attr("token_id", token_id));
    attributes.push(attr("trait_type", trait_name));
    let resp = Response { attributes };
    proof {
        assert(resp.attributes@.map(|i: int, a: (String, String)| (a.0@, a.1@)) =~= seq![
            ("action"@, "add_attribute"@),
            ("token_id"@, attributes@[1].1@),
            ("trait_type"@, attributes@[2].1@),
        ]);
    }
    Ok(resp)
}

/// What an attribute removal does: updater-gated removal of every
/// attribute carrying the trait, stamped with the current time.
pub open spec fn attribute_removed(
    pre: MetadataStore,
    post: MetadataStore,
    time: u64,
    sender: Seq<char>,
    token_id: Seq<char>,
    trait_type: Seq<char>,
    out: Result<Seq<(Seq<char>, Seq<char>)>, ContractError>,
) -> bool {
    if !pre.is_updater(sender) {
        &&& post == pre
        &&& out == Err::<Seq<(Seq<char>, Seq<char>)>, ContractError>(ContractError::Unauthorized)
    } else if !pre.has_metadata(token_id) {
        &&& post == pre
        &&& out == Err::<Seq<(Seq<char>, Seq<char>)>, ContractError>(ContractError::TokenNotFound)
    } else {
        &&& post.config == pre.config
        &&& post.pool_stats == pre.pool_stats
        &&& post.has_metadata(token_id)
        &&& post.metadata_of(token_id) == TokenMetadataV {
            attributes: pre.metadata_of(token_id).attributes.filter(
                |a: Attribute| a.trait_type@ != trait_type,
            ),
            last_updated: time,
            ..pre.metadata_of(token_id)
        }
        &&& forall|t: Seq<char>|
            t != token_id ==> #[trigger] post.has_metadata(t) == pre.has_metadata(t)
        &&& forall|t: Seq<char>|
            t != token_id && pre.has_metadata(t) ==> #[trigger] post.metadata_of(t)
                == pre.metadata_of(t)
        &&& out == Ok::<Seq<(Seq<char>, Seq<char>)>, ContractError>(
            seq![
                ("action"@, "remove_attribute"@),
                ("token_id"@, token_id),
                ("trait_type"@, trait_type),
            ],
        )
    }
}

/// Remove a trait from a token's metadata; updater-gated, and a trait
/// that is absent leaves the list as it was.
pub fn execute_remove_attribute(
    store: &mut MetadataStore,
    time: u64,
    sender: String,
    token_id: String,
    trait_type: String,
) -> (r: Result<Response, ContractError>)
    requires
        old(store).wf(),
    ensures
        final(store).wf(),
        attribute_removed(
            *old(store),
            *final(store),
            time,
            sender@,
            token_id@,
            trait_type@,
            spec_result(r),
        ),
{
    let allowed = match &store.config {
        Some(c) => vec_contains_string(&c.updater_addresses, &sender),
        None => false,
    };
    if !allowed {
        return Err(ContractError::Unauthorized);
    }
    let idx = match store.metadata.index_of(&token_id) {
        Some(i) => i,
        None => {
            return Err(ContractError::TokenNotFound);
        },
    };
    proof {
        store.metadata.lemma_entry_is_get(idx as int);
    }
    let current = store.metadata.value_at(idx);
    let ghost old_attrs = current.attributes@;
    let ghost pred = |a: Attribute| a.trait_type@ != trait_type@;

    let mut kept: Vec<Attribute> = Vec::new();
    let n = current.attributes.len();
    let mut i: usize = 0;
    proof {
        reveal(Seq::filter);
        assert(old_attrs.subrange(0, 0).filter(pred) =~= Seq::<Attribute>::empty());
    }
    while i < n
        invariant
            i <= n,
            n == old_attrs.len(),
            old_attrs == current.attributes@,
            pred == (|a: Attribute| a.trait_type@ != trait_type@),
            kept@ == old_attrs.subrange(0, i as int).filter(pred),
        decreases n - i,
    {
        let ghost prefix = old_attrs.subrange(0, i as int);
        proof {
            reveal(Seq::filter);
            assert(old_attrs.subrange(0, i + 1).drop_last() =~= prefix);
            assert(old_attrs.subrange(0, i + 1).last() == old_attrs[i as int]);
        }
        if !(current.attributes[i].trait_type == trait_type) {
            kept.push(current.attributes[i].duplicate());
            proof {
                assert(kept@ =~= prefix.filter(pred).push(old_attrs[i as int]));
            }
        }
        i = i + 1;
    }
    proof {
        assert(old_attrs.subrange(0, n as int) =~= old_attrs);
    }

    let mut updated = current.duplicate();
    updated.attributes = kept;
    updated.last_updated = time;
    store.metadata.set_at(idx, updated);

    let mut attributes: Vec<(String, String)> = Vec::new();
    attributes.push(attr("action", String::from_str("remove_attribute")));
    attributes.push(attr("token_id", token_id));
    attributes.push(attr("trait_type", trait_type));
    let resp = Response { attributes };
    proof {
        assert(resp.attributes@.map(|i2: int, a2: (String, String)| (a2.0@, a2.1@)) =~= seq![
            ("action"@, "remove_attribute"@),
            ("token_id"@, attributes@[1].1@),
            ("trait_type"@, attributes@[2].1@),
        ]);
    }
    Ok(resp)
}

/// What a statistics write does: updater-gated upsert of a pool's
/// statistics.
pub open spec fn pool_stats_updated(
    pre: MetadataStore,
    post: MetadataStore,
    sender: Seq<char>,
    pool_id: Seq<char>,
    stats: PoolStats,
    out: Result<Seq<(Seq<char>, Seq<char>)>, ContractError>,
) -> bool {
    if !pre.is_updater(sender) {
        &&& post == pre
        &&& out == Err::<Seq<(Seq<char>, Seq<char>)>, ContractError>(ContractError::Unauthorized)
    } else {
        &&& post.config == pre.config
        &&& post.metadata == pre.metadata
        &&& post.has_stats(pool_id)
        &&& post.stats_of(pool_id) == stats
        &&& forall|p: Seq<char>|
            p != pool_id ==> #[trigger] post.has_stats(p) == pre.has_stats(p)
        &&& forall|p: Seq<char>|
            p != pool_id && pre.has_stats(p) ==> #[trigger] post.stats_of(p) == pre.stats_of(p)
        &&& out == Ok::<Seq<(Seq<char>, Seq<char>)>, ContractError>(
            seq![("action"@, "update_pool_stats"@), ("pool_id"@, pool_id)],
        )
    }
}

/// Write a pool's statistics; updater-gated.
pub fn execute_update_pool_stats(
    store: &mut MetadataStore,
    sender: String,
    pool_id: String,
    stats: PoolStats,
) -> (r: Result<Response, ContractError>)
    requires
        old(store).wf(),
    ensures
        final(store).wf(),
        pool_stats_updated(
            *old(store),
            *final(store),
            sender@,
            pool_id@,
            stats,
            spec_result(r),
        ),
{
    let allowed = match &store.config {
        Some(c) => vec_contains_string(&c.updater_addresses, &sender),
        None => false,
    };
    if !allowed {
        return Err(ContractError::Unauthorized);
    }
    store.pool_stats.set(pool_id.clone(), stats);

    let mut attributes: Vec<(String, String)> = Vec::new();
    attributes.push(attr("action", String::from_str("update_pool_stats")));
    attributes.push(attr("pool_id", pool_id));
    let resp = Response { attributes };
    proof {
        assert(resp.attributes@.map(|i: int, a: (String, String)| (a.0@, a.1@)) =~= seq![
            ("action"@, "update_pool_stats"@),
            ("pool_id"@, attributes@[1].1@),
        ]);
    }
    Ok(resp)
}

/// What an updater addition does: administrator-gated append of a
/// fresh address to the updater set.
pub open spec fn updater_added(
    pre: MetadataStore,
    post: MetadataStore,
    sender: Seq<char>,
    address: Seq<char>,
    out: Result<Seq<(Seq<char>, Seq<char>)>, ContractError>,
) -> bool {
    if pre.config is None {
        &&& post == pre
        &&& out == Err::<Seq<(Seq<char>, Seq<char>)>, ContractError>(ContractError::ConfigNotSet)
    } else if pre.config->Some_0.admin@ != sender {
        &&& post == pre
        &&& out == Err::<Seq<(Seq<char>, Seq<char>)>, ContractError>(ContractError::Unauthorized)
    } else if pre.updaters().contains(address) {
        &&& post == pre
        &&& out == Err::<Seq<(Seq<char>, Seq<char>)>, ContractError>(
            ContractError::DuplicateUpdater,
        )
    } else {
        &&& post.metadata == pre.metadata
        &&& post.pool_stats == pre.pool_stats
        &&& post.config matches Some(c) && c.admin@ == pre.config->Some_0.admin@
            && c.ul_nft_contract@ == pre.config->Some_0.ul_nft_contract@
        &&& post.updaters() == pre.updaters().push(address)
        &&& out == Ok::<Seq<(Seq<char>, Seq<char>)>, ContractError>(
            seq![("action"@, "add_updater"@), ("address"@, address)],
        )
    }
}

/// Admit a new updater; only the administrator may.
pub fn execute_add_updater(store: &mut MetadataStore, sender: String, address: String) -> (r:
    Result<Response, ContractError>)
    requires
        old(store).wf(),
    ensures
        final(store).wf(),
        updater_added(*old(store), *final(store), sender@, address@, spec_result(r)),
{
    let config = match &store.config {
        Some(c) => c.duplicate(),
        None => {
            return Err(ContractError::ConfigNotSet);
        },
    };
    if config.admin != sender {
        return Err(ContractError::Unauthorized);
    }
    let ghost cur: Seq<Seq<char>> = old(store).updaters();
    let present = vec_contains_string(&config.updater_addresses, &address);
    proof {
        if present {
            let j = choose|j: int|
                0 <= j < config.updater_addresses@.len() && config.updater_addresses@[j]@
                    == address@;
            assert(cur[j] == address@);
            assert(cur.contains(address@));
        }
        if !present && cur.contains(address@) {
            let j = choose|j: int| 0 <= j < cur.len() && cur[j] == address@;
            assert(config.updater_addresses@[j]@ == address@);
            assert(spec_vec_contains_string(config.updater_addresses@, address@));
        }
    }
    if present {
        return Err(ContractError::DuplicateUpdater);
    }
    let mut updaters = config.updater_addresses;
    updaters.push(address.clone());
    proof {
        assert(updaters@.map(|i: int, s: String| s@) =~= cur.push(address@));
    }
    store.config = Some(
        Config {
            admin: config.admin,
            ul_nft_contract: config.ul_nft_contract,
            updater_addresses: updaters,
        },
    );

    let mut attributes: Vec<(String, String)> = Vec::new();
    attributes.push(attr("action", String::from_str("add_updater")));
    attributes.push(attr("address", address));
    let resp = Response { attributes };
    proof {
        assert(resp.attributes@.map(|i: int, a: (String, String)| (a.0@, a.1@)) =~= seq![
            ("action"@, "add_updater"@),
            ("address"@, attributes@[1].1@),
        ]);
    }
    Ok(resp)
}

/// What an updater removal does: administrator-gated removal of an
/// address from the updater set, which may not become empty.
pub open spec fn updater_removed(
    pre: MetadataStore,
    post: MetadataStore,
    sender: Seq<char>,
    address: Seq<char>,
    out: Result<Seq<(Seq<char>, Seq<char>)>, ContractError>,
) -> bool {
    if pre.config is None {
        &&& post == pre
        &&& out == Err::<Seq<(Seq<char>, Seq<char>)>, ContractError>(ContractError::ConfigNotSet)
    } else if pre.config->Some_0.admin@ != sender {
        &&& post == pre
        &&& out == Err::<Seq<(Seq<char>, Seq<char>)>, ContractError>(ContractError::Unauthorized)
    } else if !pre.updaters().contains(address) {
        &&& post == pre
        &&& out == Err::<Seq<(Seq<char>, Seq<char>)>, ContractError>(
            ContractError::UpdaterNotFound,
        )
    } else if pre.updaters().filter(|x: Seq<char>| x != address).len() == 0 {
        &&& post == pre
        &&& out == Err::<Seq<(Seq<char>, Seq<char>)>, ContractError>(
            ContractError::CannotRemoveLastUpdater,
        )
    } else {
        &&& post.metadata == pre.metadata
        &&& post.pool_stats == pre.pool_stats
        &&& post.config matches Some(c) && c.admin@ == pre.config->Some_0.admin@
            && c.ul_nft_contract@ == pre.config->Some_0.ul_nft_contract@
        &&& post.updaters() == pre.updaters().filter(|x: Seq<char>| x != address)
        &&& out == Ok::<Seq<(Seq<char>, Seq<char>)>, ContractError>(
            seq![("action"@, "remove_updater"@), ("address"@, address)],
        )
    }
}

/// Expel an updater; only the administrator may, and never the last
/// one.
pub fn execute_remove_updater(store: &mut MetadataStore, sender: String, address: String) -> (r:
    Result<Response, ContractError>)
    requires
        old(store).wf(),
    ensures
        final(store).wf(),
        updater_removed(*old(store), *final(store), sender@, address@, spec_result(r)),
{
    let config = match &store.config {
        Some(c) => c.duplicate(),
        None => {
            return Err(ContractError::ConfigNotSet);
        },
    };
    if config.admin != sender {
        return Err(ContractError::Unauthorized);
    }
    let ghost cur: Seq<Seq<char>> = old(store).updaters();
    let present = vec_contains_string(&config.updater_addresses, &address);
    proof {
        if present {
            let j = choose|j: int|
                0 <= j < config.updater_addresses@.len() && config.updater_addresses@[j]@
                    == address@;
            assert(cur[j] == address@);
            assert(cur.contains(address@));
        }
        if !present && cur.contains(address@) {
            let j = choose|j: int| 0 <= j < cur.len() && cur[j] == address@;
            assert(config.updater_addresses@[j]@ == address@);
            assert(spec_vec_contains_string(config.updater_addresses@, address@));
        }
    }
    if !present {
        return Err(ContractError::UpdaterNotFound);
    }
    let filtered = remove_matching(&config.updater_addresses, &address);
    if filtered.len() == 0 {
        return Err(ContractError::CannotRemoveLastUpdater);
    }
    store.config = Some(
        Config {
            admin: config.admin,
            ul_nft_contract: config.ul_nft_contract,
            updater_addresses: filtered,
        },
    );

    let mut attributes: Vec<(String, String)> = Vec::new();
    attributes.push(attr("action", String::from_str("remove_updater")));
    attributes.push(attr("address", address));
    let resp = Response { attributes };
    proof {
        assert(resp.attributes@.map(|i: int, a: (String, String)| (a.0@, a.1@)) =~= seq![
            ("action"@, "remove_updater"@),
            ("address"@, attributes@[1].1@),
        ]);
    }
    Ok(resp)
}

/// Dispatch a command to its handler.
pub fn execute(store: &mut MetadataStore, time: u64, sender: String, msg: ExecuteMsg) -> (r:
    Result<Response, ContractError>)
    requires
        old(store).wf(),
    ensures
        final(store).wf(),
        msg matches ExecuteMsg::UpdateMetadata { token_id, metadata } ==> metadata_updated(
            *old(store),
            *final(store),
            time,
            sender@,
            token_id@,
            metadata@,
            spec_result(r),
        ),
        msg matches ExecuteMsg::AddAttribute { token_id, attribute } ==> attribute_added(
            *old(store),
            *final(store),
            time,
            sender@,
            token_id@,
            attribute,
            spec_result(r),
        ),
        msg matches ExecuteMsg::RemoveAttribute { token_id, trait_type } ==> attribute_removed(
            *old(store),
            *final(store),
            time,
            sender@,
            token_id@,
            trait_type@,
            spec_result(r),
        ),
        msg matches ExecuteMsg::UpdatePoolStats { pool_id, stats } ==> pool_stats_updated(
            *old(store),
            *final(store),
            sender@,
            pool_id@,
            stats,
            spec_result(r),
        ),
        msg matches ExecuteMsg::AddUpdater { address } ==> updater_added(
            *old(store),
            *final(store),
            sender@,
            address@,
            spec_result(r),
        ),
        msg matches ExecuteMsg::RemoveUpdater { address } ==> updater_removed(
            *old(store),
            *final(store),
            sender@,
            address@,
            spec_result(r),
        ),
{
    match msg {
        ExecuteMsg::UpdateMetadata { token_id, metadata } => {
            execute_update_metadata(store, time, sender, token_id, metadata)
        },
        ExecuteMsg::AddAttribute { token_id, attribute } => {
            execute_add_attribute(store, time, sender, token_id, attribute)
        },
        ExecuteMsg::RemoveAttribute { token_id, trait_type } => {
            execute_remove_attribute(store, time, sender, token_id, trait_type)
        },
        ExecuteMsg::UpdatePoolStats { pool_id, stats } => {
            execute_update_pool_stats(store, sender, pool_id, stats)
        },
        ExecuteMsg::AddUpdater { address } => execute_add_updater(store, sender, address),
        ExecuteMsg::RemoveUpdater { address } => execute_remove_updater(store, sender, address),
    }
}

/// The stored metadata of a token.
pub fn query_metadata(store: &MetadataStore, token_id: &String) -> (r: Result<
    TokenMetadata,
    ContractError,
>)
    requires
        store.wf(),
    ensures
        match r {
            Ok(m) => store.has_metadata(token_id@) && m@ == store.metadata_of(token_id@),
            Err(e) => !store.has_metadata(token_id@) && e == ContractError::TokenNotFound,
        },
{
    match store.metadata.get(token_id) {
        Some(m) => Ok(m.duplicate()),
        None => Err(ContractError::TokenNotFound),
    }
}

/// The stored statistics of a pool.
pub fn query_pool_stats(store: &MetadataStore, pool_id: &String) -> (r: Result<
    PoolStats,
    ContractError,
>)
    requires
        store.wf(),
    ensures
        match r {
            Ok(s) => store.has_stats(pool_id@) && s == store.stats_of(pool_id@),
            Err(e) => !store.has_stats(pool_id@) && e == ContractError::PoolNotFound,
        },
{
    match store.pool_stats.get(pool_id) {
        Some(s) => Ok(s.duplicate()),
        None => Err(ContractError::PoolNotFound),
    }
}

/// The configured updaters, in order.
pub fn query_updaters(store: &MetadataStore) -> (r: Vec<String>)
    ensures
        r@.map(|i: int, s: String| s@) == store.updaters(),
{
    match &store.config {
        Some(c) => clone_string_vec(&c.updater_addresses),
        None => {
            let r: Vec<String> = Vec::new();
            proof {
                assert(r@.map(|i: int, s: String| s@) =~= Seq::<Seq<char>>::empty());
            }
            r
        },
    }
}

/// Answer a read-only query from the store.
pub fn query(store: &MetadataStore, msg: QueryMsg) -> (r: Result<QueryAnswer, ContractError>)
    requires
        store.wf(),
    ensures
        msg matches QueryMsg::GetMetadata { token_id } ==> match r {
            Ok(a) => a matches QueryAnswer::Metadata(m) && store.has_metadata(token_id@) && m@
                == store.metadata_of(token_id@),
            Err(e) => !store.has_metadata(token_id@) && e == ContractError::TokenNotFound,
        },
        msg matches QueryMsg::GetPoolStats { pool_id } ==> match r {
            Ok(a) => a matches QueryAnswer::PoolStats(s) && store.has_stats(pool_id@) && s
                == store.stats_of(pool_id@),
            Err(e) => !store.has_stats(pool_id@) && e == ContractError::PoolNotFound,
        },
        msg matches QueryMsg::GetConfig {  } ==> match r {
            Ok(a) => a matches QueryAnswer::Config(c) && store.config matches Some(sc) && c.admin@
                == sc.admin@ && c.ul_nft_contract@ == sc.ul_nft_contract@ && c.updater_addresses@
                == sc.updater_addresses@,
            Err(e) => store.config is None && e == ContractError::ConfigNotSet,
        },
        msg matches QueryMsg::GetUpdaters {  } ==> r matches Ok(a) && (a matches
            QueryAnswer::Updaters(v) && v@.map(|i: int, s: String| s@) == store.updaters()),
{
    match msg {
        QueryMsg::GetMetadata { token_id } => {
            let m = query_metadata(store, &token_id)?;
            Ok(QueryAnswer::Metadata(m))
        },
        QueryMsg::GetPoolStats { pool_id } => {
            let s = query_pool_stats(store, &pool_id)?;
            Ok(QueryAnswer::PoolStats(s))
        },
        QueryMsg::GetConfig {  } => {
            match &store.config {
                Some(c) => Ok(QueryAnswer::Config(c.duplicate())),
                None => Err(ContractError::ConfigNotSet),
            }
        },
        QueryMsg::GetUpdaters {  } => Ok(QueryAnswer::Updaters(query_updaters(store))),
    }
}

} // verus!
