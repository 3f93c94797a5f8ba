//! The metadata manager: updater gating, attributes, pool statistics.

use unified_liquidity::metadata_manager::contract::{
    execute_add_attribute, execute_add_updater, execute_remove_attribute, execute_remove_updater,
    execute_update_metadata, execute_update_pool_stats, instantiate, query, query_metadata,
    query_pool_stats, query_updaters,
};
use unified_liquidity::metadata_manager::error::ContractError;
use unified_liquidity::metadata_manager::msg::{InstantiateMsg, QueryAnswer, QueryMsg};
use unified_liquidity::metadata_manager::state::{
    Attribute, MetadataStore, PoolStats, TokenMetadata,
};

fn s(x: &str) -> String {
    x.to_string()
}

fn setup() -> MetadataStore {
    let mut store = MetadataStore::new();
    let msg = InstantiateMsg {
        ul_nft_contract: s("ul_nft"),
        updater_addresses: vec![s("updater1")],
    };
    instantiate(&mut store, s("creator"), msg).unwrap();
    store
}

fn bare_metadata(name: &str) -> TokenMetadata {
    TokenMetadata {
        name: s(name),
        description: s("a token"),
        image: None,
        external_url: None,
        attributes: Vec::new(),
        animation_url: None,
        background_color: None,
        last_updated: 0,
    }
}

#[test]
fn contract_proper_initialization() {
    let mut store = MetadataStore::new();
    let msg = InstantiateMsg {
        ul_nft_contract: s("ul_nft"),
        updater_addresses: vec![s("updater1")],
    };
    let res = instantiate(&mut store, s("creator"), msg).unwrap();
    assert_eq!(res.attributes[2].1, "ul_nft");

    // Query config
    match query(&store, QueryMsg::GetConfig {}).unwrap() {
        QueryAnswer::Config(config) => {
            assert_eq!(config.ul_nft_contract, "ul_nft");
            assert_eq!(config.updater_addresses.len(), 2); // creator + updater1
        }
        _ => panic!("unexpected answer"),
    }
}

#[test]
fn instantiation_deduplicates_updaters() {
    let mut store = MetadataStore::new();
    let msg = InstantiateMsg {
        ul_nft_contract: s("ul_nft"),
        updater_addresses: vec![s("creator"), s("u2"), s("u2")],
    };
    instantiate(&mut store, s("creator"), msg).unwrap();
    assert_eq!(query_updaters(&store), vec![s("creator"), s("u2")]);
}

#[test]
fn metadata_writes_are_updater_gated() {
    let mut store = setup();
    assert_eq!(
        execute_update_metadata(&mut store, 9, s("stranger"), s("tok"), bare_metadata("X"))
            .unwrap_err(),
        ContractError::Unauthorized
    );
    execute_update_metadata(&mut store, 9, s("updater1"), s("tok"), bare_metadata("X")).unwrap();
    let m = query_metadata(&store, &s("tok")).unwrap();
    assert_eq!(m.name, "X");
    assert_eq!(m.last_updated, 9);
    assert_eq!(
        query_metadata(&store, &s("missing")).unwrap_err(),
        ContractError::TokenNotFound
    );
}

#[test]
fn attributes_keep_unique_traits() {
    let mut store = setup();
    execute_update_metadata(&mut store, 1, s("creator"), s("tok"), bare_metadata("X")).unwrap();
    let attr = Attribute { trait_type: s("color"), value: s("blue"), display_type: None };
    execute_add_attribute(&mut store, 2, s("creator"), s("tok"), attr).unwrap();
    let dup = Attribute { trait_type: s("color"), value: s("red"), display_type: None };
    assert_eq!(
        execute_add_attribute(&mut store, 3, s("creator"), s("tok"), dup).unwrap_err(),
        ContractError::DuplicateAttribute
    );
    let other = Attribute { trait_type: s("size"), value: s("xl"), display_type: None };
    execute_add_attribute(&mut store, 4, s("creator"), s("tok"), other).unwrap();
    let m = query_metadata(&store, &s("tok")).unwrap();
    assert_eq!(m.attributes.len(), 2);
    assert_eq!(m.last_updated, 4);

    execute_remove_attribute(&mut store, 5, s("creator"), s("tok"), s("color")).unwrap();
    let m = query_metadata(&store, &s("tok")).unwrap();
    assert_eq!(m.attributes.len(), 1);
    assert_eq!(m.attributes[0].trait_type, "size");
    let missing = Attribute { trait_type: s("color"), value: s("x"), display_type: None };
    assert_eq!(
        execute_add_attribute(&mut store, 6, s("creator"), s("nope"), missing).unwrap_err(),
        ContractError::TokenNotFound
    );
}

#[test]
fn pool_stats_round_trip() {
    let mut store = setup();
    let stats = PoolStats {
        total_liquidity: 1000,
        volume_24h: 50,
        fees_earned: 3,
        apy: s("12.5"),
    };
    assert_eq!(
        execute_update_pool_stats(&mut store, s("stranger"), s("pool-1"), PoolStats {
            total_liquidity: 0,
            volume_24h: 0,
            fees_earned: 0,
            apy: s("0"),
        })
        .unwrap_err(),
        ContractError::Unauthorized
    );
    execute_update_pool_stats(&mut store, s("updater1"), s("pool-1"), stats).unwrap();
    let got = query_pool_stats(&store, &s("pool-1")).unwrap();
    assert_eq!(got.total_liquidity, 1000);
    assert_eq!(got.apy, "12.5");
    assert_eq!(
        query_pool_stats(&store, &s("pool-9")).unwrap_err(),
        ContractError::PoolNotFound
    );
}

#[test]
fn updater_set_management() {
    let mut store = setup();
    assert_eq!(
        execute_add_updater(&mut store, s("updater1"), s("u3")).unwrap_err(),
        ContractError::Unauthorized
    );
    assert_eq!(
        execute_add_updater(&mut store, s("creator"), s("updater1")).unwrap_err(),
        ContractError::DuplicateUpdater
    );
    execute_add_updater(&mut store, s("creator"), s("u3")).unwrap();
    assert_eq!(query_updaters(&store), vec![s("creator"), s("updater1"), s("u3")]);

    assert_eq!(
        execute_remove_updater(&mut store, s("creator"), s("ghost")).unwrap_err(),
        ContractError::UpdaterNotFound
    );
    execute_remove_updater(&mut store, s("creator"), s("u3")).unwrap();
    execute_remove_updater(&mut store, s("creator"), s("updater1")).unwrap();
    assert_eq!(
        execute_remove_updater(&mut store, s("creator"), s("creator")).unwrap_err(),
        ContractError::CannotRemoveLastUpdater
    );
    assert_eq!(query_updaters(&store), vec![s("creator")]);
}
