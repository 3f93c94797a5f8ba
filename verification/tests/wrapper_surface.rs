//! The wrapper's message surface: envelopes, queries, payload
//! extraction and identifier formatting.

use unified_liquidity::liquidity_wrapper::contract::{
    execute, execute_add_liquidity, execute_claim_rewards, extract_reply_data, instantiate,
    mint_token_id, query, query_config, query_estimate_rewards, reply, ReplyEvent,
    REPLY_ADD_LIQUIDITY,
};
use unified_liquidity::liquidity_wrapper::error::ContractError;
use unified_liquidity::liquidity_wrapper::msg::{
    ActionData, EuclidAction, EuclidResponse, ExecuteMsg, InstantiateMsg, QueryAnswer, QueryMsg,
    ReplyData,
};
use unified_liquidity::liquidity_wrapper::state::{LedgerStore, LiquidityPosition};
use unified_liquidity::numfmt::{u128_to_dec, u64_to_dec};

fn s(x: &str) -> String {
    x.to_string()
}

fn setup() -> LedgerStore {
    let mut store = LedgerStore::new();
    let msg = InstantiateMsg {
        ul_nft_contract: s("nft"),
        euclid_router: s("router"),
        euclid_factory: s("factory"),
    };
    instantiate(&mut store, s("admin"), msg).unwrap();
    store
}

#[test]
fn decimal_rendering() {
    assert_eq!(u64_to_dec(0), "0");
    assert_eq!(u64_to_dec(7), "7");
    assert_eq!(u64_to_dec(1700000000), "1700000000");
    assert_eq!(u128_to_dec(340282366920938463463374607431768211455), "340282366920938463463374607431768211455");
}

#[test]
fn minted_token_identifier_format() {
    assert_eq!(mint_token_id(1700000000, &s("pool-1")), "ulp-1700000000-pool-1");
    assert_eq!(mint_token_id(0, &s("p")), "ulp-0-p");
}

#[test]
fn commands_without_configuration_are_rejected() {
    let mut store = LedgerStore::new();
    let err = execute_add_liquidity(
        &mut store,
        s("alice"),
        Vec::new(),
        s("pool-1"),
        s("chain-a"),
        (s("tokA"), s("tokB")),
        10,
        1,
    )
    .unwrap_err();
    assert_eq!(err, ContractError::InvalidConfiguration);
    assert!(query_config(&store).is_err());
}

#[test]
fn dispatch_builds_the_remove_envelope() {
    let mut store = setup();
    execute_add_liquidity(
        &mut store,
        s("alice"),
        Vec::new(),
        s("pool-1"),
        s("chain-a"),
        (s("tokA"), s("tokB")),
        1000,
        1,
    )
    .unwrap();
    let resp = EuclidResponse {
        success: true,
        data: ReplyData::Position(LiquidityPosition {
            pool_id: s("pool-1"),
            chain_id: s("chain-a"),
            token_pair: (s("tokA"), s("tokB")),
            amount: 1000,
            last_updated: 0,
        }),
        error: None,
    };
    reply(&mut store, 1, REPLY_ADD_LIQUIDITY, resp).unwrap();

    let res = execute(
        &mut store,
        2,
        s("alice"),
        Vec::new(),
        ExecuteMsg::RemoveLiquidity { token_id: s("ulp-1-pool-1"), amount: Some(400) },
    )
    .unwrap();
    assert_eq!(res.messages.len(), 1);
    assert!(matches!(res.messages[0].msg.action, EuclidAction::RemoveLiquidity));
    match &res.messages[0].msg.data {
        ActionData::RemoveLiquidity { pool_id, amount, token_id } => {
            assert_eq!(pool_id, "pool-1");
            assert_eq!(*amount, 400);
            assert_eq!(token_id, "ulp-1-pool-1");
        }
        _ => panic!("unexpected payload"),
    }
    assert_eq!(res.attributes[2].1, "400");
}

#[test]
fn claim_rewards_is_fire_and_forget() {
    let mut store = setup();
    execute_add_liquidity(
        &mut store,
        s("alice"),
        Vec::new(),
        s("pool-1"),
        s("chain-a"),
        (s("tokA"), s("tokB")),
        1000,
        1,
    )
    .unwrap();
    let resp = EuclidResponse {
        success: true,
        data: ReplyData::Position(LiquidityPosition {
            pool_id: s("pool-1"),
            chain_id: s("chain-a"),
            token_pair: (s("tokA"), s("tokB")),
            amount: 1000,
            last_updated: 0,
        }),
        error: None,
    };
    reply(&mut store, 1, REPLY_ADD_LIQUIDITY, resp).unwrap();

    let res = execute_claim_rewards(&mut store, s("alice"), s("ulp-1-pool-1")).unwrap();
    assert_eq!(res.messages.len(), 1);
    assert_eq!(res.messages[0].reply_id, None);
    assert!(matches!(res.messages[0].msg.action, EuclidAction::ClaimRewards));
}

#[test]
fn estimate_rewards_builds_the_read_through_request() {
    let mut store = setup();
    execute_add_liquidity(
        &mut store,
        s("alice"),
        Vec::new(),
        s("pool-1"),
        s("chain-a"),
        (s("tokA"), s("tokB")),
        1000,
        1,
    )
    .unwrap();
    let resp = EuclidResponse {
        success: true,
        data: ReplyData::Position(LiquidityPosition {
            pool_id: s("pool-1"),
            chain_id: s("chain-a"),
            token_pair: (s("tokA"), s("tokB")),
            amount: 1000,
            last_updated: 77,
        }),
        error: None,
    };
    reply(&mut store, 1, REPLY_ADD_LIQUIDITY, resp).unwrap();

    let (router, q) = query_estimate_rewards(&store, &s("ulp-1-pool-1")).unwrap();
    assert_eq!(router, "router");
    assert!(matches!(q.action, EuclidAction::ClaimRewards));
    match q.data {
        ActionData::RewardsQuery { pool_id, amount, duration } => {
            assert_eq!(pool_id, "pool-1");
            assert_eq!(amount, 1000);
            assert_eq!(duration, 77);
        }
        _ => panic!("unexpected payload"),
    }

    let err = query_estimate_rewards(&store, &s("no-such")).unwrap_err();
    assert_eq!(err, ContractError::PositionNotFound);
}

#[test]
fn query_surface_reads_the_ledger() {
    let store = setup();
    match query(&store, QueryMsg::GetConfig {}).unwrap() {
        QueryAnswer::Config(c) => {
            assert_eq!(c.admin, "admin");
            assert_eq!(c.euclid_router, "router");
            assert_eq!(c.euclid_factory, "factory");
        }
        _ => panic!("unexpected answer"),
    }
    match query(&store, QueryMsg::GetPoolLiquidity { pool_id: s("nowhere") }).unwrap() {
        QueryAnswer::PoolLiquidity(x) => assert_eq!(x, 0),
        _ => panic!("unexpected answer"),
    }
    match query(&store, QueryMsg::GetPosition { token_id: s("nope") }).unwrap() {
        QueryAnswer::Position(p) => assert!(p.is_none()),
        _ => panic!("unexpected answer"),
    }
}

#[test]
fn extraction_prefers_the_designated_attribute() {
    let events = vec![ReplyEvent {
        attributes: vec![
            (s("other"), b"zzz".to_vec()),
            (s("desired_key"), b"payload".to_vec()),
            (s("desired_key"), b"later".to_vec()),
        ],
    }];
    let got = extract_reply_data(&events, Some(b"fallback".to_vec())).unwrap();
    assert_eq!(got, b"payload".to_vec());
}

#[test]
fn extraction_falls_back_to_data() {
    let events = vec![ReplyEvent { attributes: vec![(s("other"), b"zzz".to_vec())] }];
    let got = extract_reply_data(&events, Some(b"fallback".to_vec())).unwrap();
    assert_eq!(got, b"fallback".to_vec());
    let got = extract_reply_data(&Vec::new(), Some(b"fallback".to_vec())).unwrap();
    assert_eq!(got, b"fallback".to_vec());
}

#[test]
fn extraction_with_nothing_fails() {
    let err = extract_reply_data(&Vec::new(), None).unwrap_err();
    assert_eq!(err, ContractError::InvalidReplyData);
}
