//! Entry points of the liquidity wrapper: request dispatch, reply
//! correlation and the read-only query surface.
//!
//! Every entry point takes the ledger it is allowed to mutate as an
//! explicit argument, and either applies its whole effect or none.
//! What each one does is captured by a transition predicate over the
//! ledger before and after, the (viewed) inputs, and the (viewed)
//! result; the executable function's contract is exactly that
//! predicate.

use vstd::prelude::*;

use crate::numfmt::{dec_of, u128_to_dec};
use crate::store::clone_string_vec;
use super::error::ContractError;
use super::msg::{
    ActionData, ActionDataV, Coin, CoinV, EuclidAction, EuclidMsg, EuclidMsgV, EuclidResponse,
    EuclidResponseV, ExecuteMsg, InstantiateMsg, QueryAnswer, QueryMsg, ReplyData, ReplyDataV,
    Response, ResponseV, SubMsg, SubMsgV,
};
use super::state::{
    Config, ConfigV, LedgerStore, LiquidityPosition, LiquidityPositionV, PositionInfo,
    PositionInfoV, lemma_pool_sum_entry_bound, lemma_pool_sum_push, lemma_pool_sum_remove,
    lemma_pool_sum_update, pool_amount_sum, pool_contrib,
};

verus! {

/// Correlation tag of an add-liquidity dispatch.
pub const REPLY_ADD_LIQUIDITY: u64 = 1;

/// Correlation tag of a remove-liquidity dispatch.
pub const REPLY_REMOVE_LIQUIDITY: u64 = 2;

/// Correlation tag of a transfer-position dispatch.
pub const REPLY_TRANSFER_POSITION: u64 = 3;

/// A command result, viewed.
pub open spec fn spec_result(r: Result<Response, ContractError>) -> Result<ResponseV, ContractError> {
    match r {
        Ok(resp) => Ok(resp@),
        Err(e) => Err(e),
    }
}

fn attr(k: &'static str, v: String) -> (r: (String, String))
    ensures
        r.0@ == k@,
        r.1 == v,
{
    (String::from_str(k), v)
}

/// What instantiation does: store the configuration, touch nothing
/// else, report the observable attributes.
pub open spec fn instantiated(
    pre: LedgerStore,
    post: LedgerStore,
    sender: Seq<char>,
    msg_ul_nft: Seq<char>,
    msg_router: Seq<char>,
    msg_factory: Seq<char>,
    out: Result<ResponseV, ContractError>,
) -> bool {
    &&& post.config_view() == Some(
        ConfigV {
            admin: sender,
            ul_nft_contract: msg_ul_nft,
            euclid_router: msg_router,
            euclid_factory: msg_factory,
        },
    )
    &&& post.spec_positions() == pre.spec_positions()
    &&& post.spec_pool_liquidity() == pre.spec_pool_liquidity()
    &&& post.spec_pending() == pre.spec_pending()
    &&& out == Ok::<ResponseV, ContractError>(
        ResponseV {
            messages: Seq::empty(),
            attributes: seq![
                ("method"@, "instantiate"@),
                ("admin"@, sender),
                ("ul_nft_contract"@, msg_ul_nft),
                ("euclid_router"@, msg_router),
            ],
        },
    )
}

/// Create the contract's configuration.  The host is expected to have
/// validated the three addresses before calling.
pub fn instantiate(store: &mut LedgerStore, sender: String, msg: InstantiateMsg) -> (r: Result<
    Response,
    ContractError,
>)
    requires
        old(store).wf(),
    ensures
        final(store).wf(),
        instantiated(
            *old(store),
            *final(store),
            sender@,
            msg.ul_nft_contract@,
            msg.euclid_router@,
            msg.euclid_factory@,
            spec_result(r),
        ),
{
    let config = Config {
        admin: sender.clone(),
        ul_nft_contract: msg.ul_nft_contract.clone(),
        euclid_router: msg.euclid_router.clone(),
        euclid_factory: msg.euclid_factory,
    };
    store.config = Some(config);
    proof {
        super::state::lemma_wf_same_maps(*old(store), *store);
    }

    let mut attributes: Vec<(String, String)> = Vec::new();
    attributes.push(attr("method", String::from_str("instantiate")));
    attributes.push(attr("admin", sender));
    attributes.push(attr("ul_nft_contract", msg.ul_nft_contract));
    attributes.push(attr("euclid_router", msg.euclid_router));
    let resp = Response { messages: Vec::new(), attributes };
    proof {
        assert(resp@.messages =~= Seq::<SubMsgV>::empty());
        assert(resp@.attributes =~= seq![
            ("method"@, "instantiate"@),
            ("admin"@, sender@),
            ("ul_nft_contract"@, msg.ul_nft_contract@),
            ("euclid_router"@, msg.euclid_router@),
        ]);
    }
    Ok(resp)
}

/// What an add-liquidity dispatch does: append the caller to the
/// pool's pending queue, change nothing else, and emit exactly one
/// router call tagged `REPLY_ADD_LIQUIDITY` carrying the action data
/// and the attached funds.
pub open spec fn add_dispatched(
    pre: LedgerStore,
    post: LedgerStore,
    sender: Seq<char>,
    funds: Seq<CoinV>,
    pool_id: Seq<char>,
    chain_id: Seq<char>,
    token_pair: (Seq<char>, Seq<char>),
    amount: u128,
    min_shares: u128,
    out: Result<ResponseV, ContractError>,
) -> bool {
    if pre.config_view() is None {
        &&& post == pre
        &&& out == Err::<ResponseV, ContractError>(ContractError::InvalidConfiguration)
    } else {
        &&& post.spec_config() == pre.spec_config()
        &&& post.spec_positions() == pre.spec_positions()
        &&& post.spec_pool_liquidity() == pre.spec_pool_liquidity()
        &&& post.pending_of(pool_id) == pre.pending_of(pool_id).push(sender)
        &&& forall|p: Seq<char>| p != pool_id ==> #[trigger] post.pending_of(p) == pre.pending_of(p)
        &&& out == Ok::<ResponseV, ContractError>(
            ResponseV {
                messages: seq![
                    SubMsgV {
                        reply_id: Some(REPLY_ADD_LIQUIDITY as u64),
                        contract_addr: pre.config_view()->Some_0.euclid_router,
                        msg: EuclidMsgV {
                            action: EuclidAction::AddLiquidity,
                            data: ActionDataV::AddLiquidity {
                                pool_id: pool_id,
                                chain_id: chain_id,
                                token_pair: token_pair,
                                amount: amount,
                                min_shares: min_shares,
                            },
                        },
                        funds: funds,
                    },
                ],
                attributes: seq![
                    ("action"@, "add_liquidity"@),
                    ("pool_id"@, pool_id),
                    ("amount"@, dec_of(amount as nat)),
                ],
            },
        )
    }
}

/// Dispatch an add-liquidity request.  The pending-queue entry is
/// persisted before the outbound call is handed back, so a callback
/// resolving in the same unit of work finds it.  No position is
/// created here.
pub fn execute_add_liquidity(
    store: &mut LedgerStore,
    sender: String,
    funds: Vec<Coin>,
    pool_id: String,
    chain_id: String,
    token_pair: (String, String),
    amount: u128,
    min_shares: u128,
) -> (r: Result<Response, ContractError>)
    requires
        old(store).wf(),
    ensures
        final(store).wf(),
        add_dispatched(
            *old(store),
            *final(store),
            sender@,
            funds@.map(|i: int, c: Coin| c@),
            pool_id@,
            chain_id@,
            (token_pair.0@, token_pair.1@),
            amount,
            min_shares,
            spec_result(r),
        ),
{
    let router = match &store.config {
        Some(c) => c.euclid_router.clone(),
        None => {
            return Err(ContractError::InvalidConfiguration);
        },
    };

    // Register the requester before emitting the call.
    let mut queue: Vec<String> = match store.pending_operations.get(&pool_id) {
        Some(q) => clone_string_vec(q),
        None => Vec::new(),
    };
    let ghost old_queue_view: Seq<Seq<char>> = queue@.map(|i: int, s: String| s@);
    proof {
        assert(old_queue_view =~= old(store).pending_of(pool_id@));
    }
    queue.push(sender.clone());
    proof {
        assert(queue@.map(|i: int, s: String| s@) =~= old_queue_view.push(sender@));
    }
    store.pending_operations.set(pool_id.clone(), queue);
    proof {
        lemma_pending_after_set(*old(store), *store, pool_id@, old_queue_view.push(sender@));
        super::state::lemma_wf_same_maps(*old(store), *store);
    }

    let data = ActionData::AddLiquidity {
        pool_id: pool_id.clone(),
        chain_id,
        token_pair,
        amount,
        min_shares,
    };
    let submsg = SubMsg {
        reply_id: Some(REPLY_ADD_LIQUIDITY),
        contract_addr: router,
        msg: EuclidMsg { action: EuclidAction::AddLiquidity, data },
        funds,
    };
    let mut messages: Vec<SubMsg> = Vec::new();
    messages.push(submsg);

    let mut attributes: Vec<(String, String)> = Vec::new();
    attributes.push(attr("action", String::from_str("add_liquidity")));
    attributes.push(attr("pool_id", pool_id));
    attributes.push(attr("amount", u128_to_dec(amount)));
    let resp = Response { messages, attributes };
    proof {
        assert(resp@.attributes =~= seq![
            ("action"@, "add_liquidity"@),
            ("pool_id"@, pool_id@),
            ("amount"@, dec_of(amount as nat)),
        ]);
        assert(resp@.messages =~= seq![
            SubMsgV {
                reply_id: Some(REPLY_ADD_LIQUIDITY as u64),
                contract_addr: old(store).config_view()->Some_0.euclid_router,
                msg: EuclidMsgV {
                    action: EuclidAction::AddLiquidity,
                    data: ActionDataV::AddLiquidity {
                        pool_id: pool_id@,
                        chain_id: chain_id@,
                        token_pair: (token_pair.0@, token_pair.1@),
                        amount: amount,
                        min_shares: min_shares,
                    },
                },
                funds: funds@.map(|i: int, c: Coin| c@),
            },
        ]);
    }
    Ok(resp)
}

/// The amount a removal request resolves to: the stored amount when
/// none was given.
pub open spec fn resolved_amount(stored: u128, requested: Option<u128>) -> u128 {
    match requested {
        Some(a) => a,
        None => stored,
    }
}

/// What a remove-liquidity dispatch does: nothing to the ledger; after
/// the ownership and amount checks it emits exactly one router call
/// tagged `REPLY_REMOVE_LIQUIDITY`, with no funds attached.
pub open spec fn remove_dispatched(
    pre: LedgerStore,
    post: LedgerStore,
    sender: Seq<char>,
    token_id: Seq<char>,
    amount: Option<u128>,
    out: Result<ResponseV, ContractError>,
) -> bool {
    &&& post == pre
    &&& if !pre.has_position(token_id) {
        out == Err::<ResponseV, ContractError>(ContractError::PositionNotFound)
    } else if pre.position_of(token_id).owner != sender {
        out == Err::<ResponseV, ContractError>(ContractError::Unauthorized)
    } else {
        let stored = pre.position_of(token_id).position.amount;
        let req = resolved_amount(stored, amount);
        if req > stored {
            out == Err::<ResponseV, ContractError>(ContractError::InsufficientLiquidity)
        } else if pre.config_view() is None {
            out == Err::<ResponseV, ContractError>(ContractError::InvalidConfiguration)
        } else {
            out == Ok::<ResponseV, ContractError>(
                ResponseV {
                    messages: seq![
                        SubMsgV {
                            reply_id: Some(REPLY_REMOVE_LIQUIDITY as u64),
                            contract_addr: pre.config_view()->Some_0.euclid_router,
                            msg: EuclidMsgV {
                                action: EuclidAction::RemoveLiquidity,
                                data: ActionDataV::RemoveLiquidity {
                                    pool_id: pre.position_of(token_id).position.pool_id,
                                    amount: req,
                                    token_id: token_id,
                                },
                            },
                            funds: Seq::empty(),
                        },
                    ],
                    attributes: seq![
                        ("action"@, "remove_liquidity"@),
                        ("token_id"@, token_id),
                        ("amount"@, dec_of(req as nat)),
                    ],
                },
            )
        }
    }
}

/// Dispatch a remove-liquidity request.  Fails `Unauthorized` unless
/// the caller is the stored owner, and `InsufficientLiquidity` when
/// the requested amount exceeds the stored amount; in every failure
/// the ledger is untouched and no call is emitted.
pub fn execute_remove_liquidity(
    store: &mut LedgerStore,
    sender: String,
    token_id: String,
    amount: Option<u128>,
) -> (r: Result<Response, ContractError>)
    requires
        old(store).wf(),
    ensures
        final(store).wf(),
        remove_dispatched(
            *old(store),
            *final(store),
            sender@,
            token_id@,
            amount,
            spec_result(r),
        ),
{
    let idx = match store.positions.index_of(&token_id) {
        Some(i) => i,
        None => {
            return Err(ContractError::PositionNotFound);
        },
    };
    proof {
        store.positions.lemma_entry_is_get(idx as int);
    }
    let rec = store.positions.value_at(idx);
    if rec.owner != sender {
        return Err(ContractError::Unauthorized);
    }
    let stored: u128 = rec.position.amount;
    let remove_amount: u128 = match amount {
        Some(a) => a,
        None => stored,
    };
    if remove_amount > stored {
        return Err(ContractError::InsufficientLiquidity);
    }
    let pool_id = rec.position.pool_id.clone();
    let router = match &store.config {
        Some(c) => c.euclid_router.clone(),
        None => {
            return Err(ContractError::InvalidConfiguration);
        },
    };

    let data = ActionData::RemoveLiquidity {
        pool_id,
        amount: remove_amount,
        token_id: token_id.clone(),
    };
    let submsg = SubMsg {
        reply_id: Some(REPLY_REMOVE_LIQUIDITY),
        contract_addr: router,
        msg: EuclidMsg { action: EuclidAction::RemoveLiquidity, data },
        funds: Vec::new(),
    };
    let mut messages: Vec<SubMsg> = Vec::new();
    messages.push(submsg);

    let mut attributes: Vec<(String, String)> = Vec::new();
    attributes.push(attr("action", String::from_str("remove_liquidity")));
    attributes.push(attr("token_id", token_id));
    attributes.push(attr("amount", u128_to_dec(remove_amount)));
    let resp = Response { messages, attributes };
    proof {
        assert(resp@.messages[0].funds =~= Seq::<CoinV>::empty());
        assert(resp@.messages =~= seq![resp.messages@[0]@]);
        assert(resp@.attributes =~= seq![
            ("action"@, "remove_liquidity"@),
            ("token_id"@, attributes@[1].1@),
            ("amount"@, dec_of(remove_amount as nat)),
        ]);
    }
    Ok(resp)
}

/// What a transfer-position dispatch does: nothing to the ledger;
/// after the ownership check it emits exactly one router call tagged
/// `REPLY_TRANSFER_POSITION`, carrying current chain, target chain and
/// amount.
pub open spec fn transfer_dispatched(
    pre: LedgerStore,
    post: LedgerStore,
    sender: Seq<char>,
    token_id: Seq<char>,
    to_chain_id: Seq<char>,
    out: Result<ResponseV, ContractError>,
) -> bool {
    &&& post == pre
    &&& if !pre.has_position(token_id) {
        out == Err::<ResponseV, ContractError>(ContractError::PositionNotFound)
    } else if pre.position_of(token_id).owner != sender {
        out == Err::<ResponseV, ContractError>(ContractError::Unauthorized)
    } else if pre.config_view() is None {
        out == Err::<ResponseV, ContractError>(ContractError::InvalidConfiguration)
    } else {
        out == Ok::<ResponseV, ContractError>(
            ResponseV {
                messages: seq![
                    SubMsgV {
                        reply_id: Some(REPLY_TRANSFER_POSITION as u64),
                        contract_addr: pre.config_view()->Some_0.euclid_router,
                        msg: EuclidMsgV {
                            action: EuclidAction::TransferLiquidity,
                            data: ActionDataV::TransferLiquidity {
                                token_id: token_id,
                                from_chain_id: pre.position_of(token_id).position.chain_id,
                                to_chain_id: to_chain_id,
                                amount: pre.position_of(token_id).position.amount,
                            },
                        },
                        funds: Seq::empty(),
                    },
                ],
                attributes: seq![
                    ("action"@, "transfer_position"@),
                    ("token_id"@, token_id),
                ],
            },
        )
    }
}

/// Dispatch a transfer-position request; ownership-gated, ledger
/// untouched until the callback lands.
pub fn execute_transfer_position(
    store: &mut LedgerStore,
    sender: String,
    token_id: String,
    to_chain_id: String,
) -> (r: Result<Response, ContractError>)
    requires
        old(store).wf(),
    ensures
        final(store).wf(),
        transfer_dispatched(
            *old(store),
            *final(store),
            sender@,
            token_id@,
            to_chain_id@,
            spec_result(r),
        ),
{
    let idx = match store.positions.index_of(&token_id) {
        Some(i) => i,
        None => {
            return Err(ContractError::PositionNotFound);
        },
    };
    proof {
        store.positions.lemma_entry_is_get(idx as int);
    }
    let rec = store.positions.value_at(idx);
    if rec.owner != sender {
        return Err(ContractError::Unauthorized);
    }
    let from_chain_id = rec.position.chain_id.clone();
    let amount: u128 = rec.position.amount;
    let router = match &store.config {
        Some(c) => c.euclid_router.clone(),
        None => {
            return Err(ContractError::InvalidConfiguration);
        },
    };

    let data = ActionData::TransferLiquidity {
        token_id: token_id.clone(),
        from_chain_id,
        to_chain_id,
        amount,
    };
    let submsg = SubMsg {
        reply_id: Some(REPLY_TRANSFER_POSITION),
        contract_addr: router,
        msg: EuclidMsg { action: EuclidAction::TransferLiquidity, data },
        funds: Vec::new(),
    };
    let mut messages: Vec<SubMsg> = Vec::new();
    messages.push(submsg);

    let mut attributes: Vec<(String, String)> = Vec::new();
    attributes.push(attr("action", String::from_str("transfer_position")));
    attributes.push(attr("token_id", token_id));
    let resp = Response { messages, attributes };
    proof {
        assert(resp@.messages[0].funds =~= Seq::<CoinV>::empty());
        assert(resp@.messages =~= seq![resp.messages@[0]@]);
        assert(resp@.attributes =~= seq![
            ("action"@, "transfer_position"@),
            ("token_id"@, attributes@[1].1@),
        ]);
    }
    Ok(resp)
}

/// What a claim-rewards dispatch does: nothing to the ledger; after
/// the ownership check it emits exactly one fire-and-forget router
/// call (no reply expected, no funds).
pub open spec fn claim_dispatched(
    pre: LedgerStore,
    post: LedgerStore,
    sender: Seq<char>,
    token_id: Seq<char>,
    out: Result<ResponseV, ContractError>,
) -> bool {
    &&& post == pre
    &&& if !pre.has_position(token_id) {
        out == Err::<ResponseV, ContractError>(ContractError::PositionNotFound)
    } else if pre.position_of(token_id).owner != sender {
        out == Err::<ResponseV, ContractError>(ContractError::Unauthorized)
    } else if pre.config_view() is None {
        out == Err::<ResponseV, ContractError>(ContractError::InvalidConfiguration)
    } else {
        out == Ok::<ResponseV, ContractError>(
            ResponseV {
                messages: seq![
                    SubMsgV {
                        reply_id: None,
                        contract_addr: pre.config_view()->Some_0.euclid_router,
                        msg: EuclidMsgV {
                            action: EuclidAction::ClaimRewards,
                            data: ActionDataV::ClaimRewards {
                                token_id: token_id,
                                pool_id: pre.position_of(token_id).position.pool_id,
                                amount: pre.position_of(token_id).position.amount,
                            },
                        },
                        funds: Seq::empty(),
                    },
                ],
                attributes: seq![
                    ("action"@, "claim_rewards"@),
                    ("token_id"@, token_id),
                ],
            },
        )
    }
}

/// Dispatch a claim-rewards request; ownership-gated, fire-and-forget:
/// no reply is expected and the ledger is untouched.
pub fn execute_claim_rewards(
    store: &mut LedgerStore,
    sender: String,
    token_id: String,
) -> (r: Result<Response, ContractError>)
    requires
        old(store).wf(),
    ensures
        final(store).wf(),
        claim_dispatched(*old(store), *final(store), sender@, token_id@, spec_result(r)),
{
    let idx = match store.positions.index_of(&token_id) {
        Some(i) => i,
        None => {
            return Err(ContractError::PositionNotFound);
        },
    };
    proof {
        store.positions.lemma_entry_is_get(idx as int);
    }
    let rec = store.positions.value_at(idx);
    if rec.owner != sender {
        return Err(ContractError::Unauthorized);
    }
    let pool_id = rec.position.pool_id.clone();
    let amount: u128 = rec.position.amount;
    let router = match &store.config {
        Some(c) => c.euclid_router.clone(),
        None => {
            return Err(ContractError::InvalidConfiguration);
        },
    };

    let data = ActionData::ClaimRewards { token_id: token_id.clone(), pool_id, amount };
    let submsg = SubMsg {
        reply_id: None,
        contract_addr: router,
        msg: EuclidMsg { action: EuclidAction::ClaimRewards, data },
        funds: Vec::new(),
    };
    let mut messages: Vec<SubMsg> = Vec::new();
    messages.push(submsg);

    let mut attributes: Vec<(String, String)> = Vec::new();
    attributes.push(attr("action", String::from_str("claim_rewards")));
    attributes.push(attr("token_id", token_id));
    let resp = Response { messages, attributes };
    proof {
        assert(resp@.messages[0].funds =~= Seq::<CoinV>::empty());
        assert(resp@.messages =~= seq![resp.messages@[0]@]);
        assert(resp@.attributes =~= seq![
            ("action"@, "claim_rewards"@),
            ("token_id"@, attributes@[1].1@),
        ]);
    }
    Ok(resp)
}

/// What a position update does: ownership-gated synchronous rewrite of
/// the stored amount (stamped with the current time), with the pool's
/// aggregate adjusted by the same difference so that the aggregate
/// invariant keeps holding.
pub open spec fn update_applied(
    pre: LedgerStore,
    post: LedgerStore,
    time: u64,
    sender: Seq<char>,
    token_id: Seq<char>,
    new_amount: u128,
    out: Result<ResponseV, ContractError>,
) -> bool {
    if !pre.has_position(token_id) {
        &&& post == pre
        &&& out == Err::<ResponseV, ContractError>(ContractError::PositionNotFound)
    } else if pre.position_of(token_id).owner != sender {
        &&& post == pre
        &&& out == Err::<ResponseV, ContractError>(ContractError::Unauthorized)
    } else {
        let rec = pre.position_of(token_id);
        let pool = rec.position.pool_id;
        &&& post.spec_config() == pre.spec_config()
        &&& post.has_position(token_id)
        &&& post.position_of(token_id) == PositionInfoV {
            owner: rec.owner,
            token_id: rec.token_id,
            position: LiquidityPositionV {
                pool_id: rec.position.pool_id,
                chain_id: rec.position.chain_id,
                token_pair: rec.position.token_pair,
                amount: new_amount,
                last_updated: time,
            },
        }
        &&& super::state::positions_unchanged_except(pre, post, token_id)
        &&& post.spec_positions().keys_seq() == pre.spec_positions().keys_seq()
        &&& post.liquidity_of(pool) == pre.liquidity_of(pool) - rec.position.amount + new_amount
        &&& super::state::liquidity_unchanged_except(pre, post, pool)
        &&& super::state::pending_unchanged(pre, post)
        &&& out == Ok::<ResponseV, ContractError>(
            ResponseV {
                messages: Seq::empty(),
                attributes: seq![
                    ("action"@, "update_position"@),
                    ("token_id"@, token_id),
                    ("new_amount"@, dec_of(new_amount as nat)),
                ],
            },
        )
    }
}

/// The updated aggregate of an accepted position update fits the
/// aggregate's machine width.
pub open spec fn update_fits(
    pre: LedgerStore,
    sender: Seq<char>,
    token_id: Seq<char>,
    new_amount: u128,
) -> bool {
    pre.has_position(token_id) && pre.position_of(token_id).owner == sender
        ==> pre.liquidity_of(pre.position_of(token_id).position.pool_id) - pre.position_of(
        token_id,
    ).position.amount + new_amount <= u128::MAX
}

/// Rewrite a position's amount directly; ownership-gated.  The pool's
/// aggregate follows the rewrite, keeping the aggregate invariant.
pub fn execute_update_position(
    store: &mut LedgerStore,
    time: u64,
    sender: String,
    token_id: String,
    new_amount: u128,
) -> (r: Result<Response, ContractError>)
    requires
        old(store).wf(),
        update_fits(*old(store), sender@, token_id@, new_amount),
    ensures
        final(store).wf(),
        update_applied(
            *old(store),
            *final(store),
            time,
            sender@,
            token_id@,
            new_amount,
            spec_result(r),
        ),
{
    let idx = match store.positions.index_of(&token_id) {
        Some(i) => i,
        None => {
            return Err(ContractError::PositionNotFound);
        },
    };
    proof {
        store.positions.lemma_entry_is_get(idx as int);
    }
    let rec = store.positions.value_at(idx);
    if rec.owner != sender {
        return Err(ContractError::Unauthorized);
    }
    let old_amount: u128 = rec.position.amount;
    let pool_id = rec.position.pool_id.clone();
    let mut updated = rec.duplicate();
    updated.position.amount = new_amount;
    updated.position.last_updated = time;

    let ghost pre = *old(store);
    let ghost old_entries = pre.spec_positions().entries_seq();
    let ghost new_entry = (old_entries[idx as int].0, updated);

    // The aggregate is at least this position's amount, so the
    // decrement cannot underflow.
    let current: u128 = match store.pool_liquidity.get(&pool_id) {
        Some(v) => *v,
        None => 0,
    };
    proof {
        assert(current as int == pre.liquidity_of(pool_id@));
        lemma_pool_sum_entry_bound(old_entries, idx as int, pool_id@);
    }
    let new_liq: u128 = current - old_amount + new_amount;

    store.positions.set_at(idx, updated);
    store.pool_liquidity.set(pool_id.clone(), new_liq);
    proof {
        super::state::lemma_liquidity_after_set(pre, *store, pool_id@, new_liq);
        assert forall|p: Seq<char>|
            #[trigger] store.liquidity_of(p) == pool_amount_sum(
                store.spec_positions().entries_seq(),
                p,
            ) by {
            lemma_pool_sum_update(old_entries, idx as int, new_entry, p);
            assert(pre.liquidity_of(p) == pool_amount_sum(old_entries, p));
            assert(store.spec_positions().entries_seq() == old_entries.update(
                idx as int,
                new_entry,
            ));
            if p == pool_id@ {
                assert(pool_contrib(old_entries[idx as int], p) == old_amount as int);
                assert(pool_contrib(new_entry, p) == new_amount as int);
            } else {
                assert(pool_contrib(old_entries[idx as int], p) == 0);
                assert(pool_contrib(new_entry, p) == 0);
            }
        }
        assert(super::state::positions_unchanged_except(pre, *store, token_id@));
        assert(super::state::pending_unchanged(pre, *store));
    }

    let mut attributes: Vec<(String, String)> = Vec::new();
    attributes.push(attr("action", String::from_str("update_position")));
    attributes.push(attr("token_id", token_id));
    attributes.push(attr("new_amount", u128_to_dec(new_amount)));
    let resp = Response { messages: Vec::new(), attributes };
    proof {
        assert(resp@.messages =~= Seq::<SubMsgV>::empty());
        assert(resp@.attributes =~= seq![
            ("action"@, "update_position"@),
            ("token_id"@, attributes@[1].1@),
            ("new_amount"@, dec_of(new_amount as nat)),
        ]);
    }
    Ok(resp)
}

/// One event of a host-level reply, reduced to what the extraction
/// logic reads: its attributes, each a key with a byte-string value.
pub struct ReplyEvent {
    pub attributes: Vec<(String, Vec<u8>)>,
}

/// The value of the first attribute keyed `"desired_key"`, if any.
pub open spec fn spec_find_desired(attrs: Seq<(String, Vec<u8>)>) -> Option<Seq<u8>>
    decreases attrs.len(),
{
    if attrs.len() == 0 {
        None
    } else if attrs[0].0@ == "desired_key"@ {
        Some(attrs[0].1@)
    } else {
        spec_find_desired(attrs.drop_first())
    }
}

/// What reply-payload extraction yields: the designated attribute of
/// the first event when one is present, else the reply's data field,
/// else a failure.
pub open spec fn extracted(
    events: Seq<ReplyEvent>,
    data: Option<Vec<u8>>,
    out: Result<Vec<u8>, ContractError>,
) -> bool {
    let found = if events.len() > 0 {
        spec_find_desired(events[0].attributes@)
    } else {
        None
    };
    match found {
        Some(b) => out matches Ok(v) && v@ == b,
        None => match data {
            Some(d) => out matches Ok(v) && v@ == d@,
            None => out == Err::<Vec<u8>, ContractError>(ContractError::InvalidReplyData),
        },
    }
}

/// Pull the outcome payload out of a successful host reply: prefer
/// the designated attribute of the first event, fall back to the
/// reply's data field, and fail when neither is there.
pub fn extract_reply_data(events: &Vec<ReplyEvent>, data: Option<Vec<u8>>) -> (r: Result<
    Vec<u8>,
    ContractError,
>)
    ensures
        extracted(events@, data, r),
{
    let key = String::from_str("desired_key");
    if events.len() > 0 {
        let first = &events[0];
        let ghost attrs = first.attributes@;
        let n = first.attributes.len();
        let mut i: usize = 0;
        proof {
            assert(attrs.subrange(0, n as int) =~= attrs);
        }
        while i < n
            invariant
                n == attrs.len(),
                i <= n,
                events@.len() > 0,
                events@[0] == *first,
                attrs == first.attributes@,
                key@ == "desired_key"@,
                spec_find_desired(attrs) == spec_find_desired(attrs.subrange(i as int, n as int)),
                forall|j: int| 0 <= j < i ==> attrs[j].0@ != "desired_key"@,
            decreases n - i,
        {
            let a = &first.attributes[i];
            proof {
                assert(attrs.subrange(i as int, n as int)[0] == attrs[i as int]);
            }
            if a.0 == key {
                proof {
                    assert(spec_find_desired(attrs.subrange(i as int, n as int)) == Some(
                        attrs[i as int].1@,
                    ));
                }
                return Ok(crate::store::clone_bytes(&a.1));
            }
            proof {
                assert(attrs.subrange(i as int, n as int).drop_first() =~= attrs.subrange(
                    i + 1,
                    n as int,
                ));
            }
            i = i + 1;
        }
        proof {
            assert(attrs.subrange(n as int, n as int).len() == 0);
        }
    }
    match data {
        Some(d) => Ok(d),
        None => Err(ContractError::InvalidReplyData),
    }
}

/// The token identifier minted for a position confirmed at `time` for
/// `pool`.
pub open spec fn spec_token_id(time: u64, pool: Seq<char>) -> Seq<char> {
    "ulp-"@ + dec_of(time as nat) + "-"@ + pool
}

/// Mint the deterministic token identifier of a confirmed position.
pub fn mint_token_id(time: u64, pool: &String) -> (r: String)
    ensures
        r@ == spec_token_id(time, pool@),
{
    let mut s = String::from_str("ulp-");
    let t = crate::numfmt::u64_to_dec(time);
    s.append(t.as_str());
    s.append("-");
    s.append(pool.as_str());
    proof {
        assert(s@ =~= spec_token_id(time, pool@));
    }
    s
}

/// What a successful add confirmation will add to the pool's
/// aggregate fits the aggregate's machine width.
pub open spec fn add_reply_fits(pre: LedgerStore, time: u64, resp: EuclidResponseV) -> bool {
    resp.success ==> match resp.data {
        ReplyDataV::Position(pos) => pre.pending_of(pos.pool_id).len() > 0 && !pre.has_position(
            spec_token_id(time, pos.pool_id),
        ) ==> pre.liquidity_of(pos.pool_id) + pos.amount <= u128::MAX,
        _ => true,
    }
}

/// What the add-liquidity callback does.  On router failure the ledger
/// is untouched and the pending entry is deliberately retained: the
/// failure does not say which requester it belongs to, so resolving
/// the slot is left to a later success or to operator intervention.
/// On success the oldest pending requester for the confirmed pool is
/// credited with a fresh position and the pool's aggregate grows by
/// the confirmed amount.
pub open spec fn add_reply_applied(
    pre: LedgerStore,
    post: LedgerStore,
    time: u64,
    resp: EuclidResponseV,
    out: Result<ResponseV, ContractError>,
) -> bool {
    if !resp.success {
        &&& post == pre
        &&& out == Err::<ResponseV, ContractError>(ContractError::CrossChainOperationFailed)
    } else {
        match resp.data {
            ReplyDataV::Position(pos) => {
                let pool = pos.pool_id;
                let tid = spec_token_id(time, pool);
                if pre.pending_of(pool).len() == 0 {
                    &&& post == pre
                    &&& out == Err::<ResponseV, ContractError>(ContractError::Unauthorized)
                } else if pre.has_position(tid) {
                    &&& post == pre
                    &&& out == Err::<ResponseV, ContractError>(ContractError::OperationPending)
                } else {
                    let requester = pre.pending_of(pool)[0];
                    &&& post.spec_config() == pre.spec_config()
                    &&& post.has_position(tid)
                    &&& post.position_of(tid) == PositionInfoV {
                        owner: requester,
                        token_id: tid,
                        position: pos,
                    }
                    &&& super::state::positions_unchanged_except(pre, post, tid)
                    &&& post.spec_positions().keys_seq() == pre.spec_positions().keys_seq().push(
                        tid,
                    )
                    &&& post.liquidity_of(pool) == pre.liquidity_of(pool) + pos.amount
                    &&& super::state::liquidity_unchanged_except(pre, post, pool)
                    &&& post.pending_of(pool) == pre.pending_of(pool).subrange(
                        1,
                        pre.pending_of(pool).len() as int,
                    )
                    &&& super::state::pending_unchanged_except(pre, post, pool)
                    &&& out == Ok::<ResponseV, ContractError>(
                        ResponseV {
                            messages: Seq::empty(),
                            attributes: seq![
                                ("action"@, "add_liquidity_complete"@),
                                ("token_id"@, tid),
                                ("amount"@, dec_of(pos.amount as nat)),
                            ],
                        },
                    )
                }
            },
            _ => {
                &&& post == pre
                &&& out == Err::<ResponseV, ContractError>(ContractError::InvalidReplyData)
            },
        }
    }
}

/// Apply the router's add-liquidity outcome: credit the oldest pending
/// requester of the confirmed pool with a newly minted position.
pub fn handle_add_liquidity_reply(
    store: &mut LedgerStore,
    time: u64,
    msg: EuclidResponse,
) -> (r: Result<Response, ContractError>)
    requires
        old(store).wf(),
        add_reply_fits(*old(store), time, msg@),
    ensures
        final(store).wf(),
        add_reply_applied(*old(store), *final(store), time, msg@, spec_result(r)),
{
    if !msg.success {
        return Err(ContractError::CrossChainOperationFailed);
    }
    let pos: LiquidityPosition = match msg.data {
        ReplyData::Position(p) => p,
        _ => {
            return Err(ContractError::InvalidReplyData);
        },
    };
    let pool_id = pos.pool_id.clone();
    let amount: u128 = pos.amount;

    // The requester to credit: the oldest entry of the pool's queue.
    let qidx = match store.pending_operations.index_of(&pool_id) {
        Some(i) => i,
        None => {
            return Err(ContractError::Unauthorized);
        },
    };
    proof {
        store.pending_operations.lemma_entry_is_get(qidx as int);
    }
    let q = store.pending_operations.value_at(qidx);
    if q.len() == 0 {
        proof {
            assert(old(store).pending_of(pool_id@) =~= Seq::<Seq<char>>::empty());
        }
        return Err(ContractError::Unauthorized);
    }
    let ghost old_queue_view: Seq<Seq<char>> = old(store).pending_of(pool_id@);
    let mut rest = clone_string_vec(q);
    let requester = rest.remove(0);

    let token_id = mint_token_id(time, &pool_id);
    if store.positions.has(&token_id) {
        return Err(ContractError::OperationPending);
    }

    let ghost pre = *old(store);
    let ghost old_entries = pre.spec_positions().entries_seq();

    // Resolve the pending slot: drop the popped entry, clearing the
    // key when its queue empties.
    if rest.len() == 0 {
        store.pending_operations.remove(&pool_id);
        proof {
            assert(store.pending_of(pool_id@) =~= old_queue_view.subrange(
                1,
                old_queue_view.len() as int,
            ));
            assert forall|p: Seq<char>| p != pool_id@ implies #[trigger] store.pending_of(p)
                == pre.pending_of(p) by {
                assert(store.spec_pending().contains_key(p) == pre.spec_pending().contains_key(p));
                if pre.spec_pending().contains_key(p) {
                    assert(store.spec_pending().spec_get(p) == pre.spec_pending().spec_get(p));
                }
            }
        }
    } else {
        proof {
            assert(rest@.map(|i: int, s: String| s@) =~= old_queue_view.subrange(
                1,
                old_queue_view.len() as int,
            ));
        }
        store.pending_operations.set(pool_id.clone(), rest);
        proof {
            lemma_pending_after_set(
                pre,
                *store,
                pool_id@,
                old_queue_view.subrange(1, old_queue_view.len() as int),
            );
        }
    }

    // Create the position and grow the pool's aggregate.
    let record = PositionInfo { owner: requester, token_id: token_id.clone(), position: pos };
    let ghost new_entry = (token_id, record);
    store.positions.push_entry(token_id.clone(), record);
    let current: u128 = match store.pool_liquidity.get(&pool_id) {
        Some(v) => *v,
        None => 0,
    };
    proof {
        assert(current as int == pre.liquidity_of(pool_id@));
    }
    let new_liq: u128 = current + amount;
    store.pool_liquidity.set(pool_id.clone(), new_liq);
    proof {
        super::state::lemma_liquidity_after_set(pre, *store, pool_id@, new_liq);
        assert forall|p: Seq<char>|
            #[trigger] store.liquidity_of(p) == pool_amount_sum(
                store.spec_positions().entries_seq(),
                p,
            ) by {
            lemma_pool_sum_push(old_entries, store.spec_positions().entries_seq().last(), p);
            assert(pre.liquidity_of(p) == pool_amount_sum(old_entries, p));
            assert(store.spec_positions().entries_seq() =~= old_entries.push(
                store.spec_positions().entries_seq().last(),
            ));
            if p != pool_id@ {
                assert(pool_contrib(store.spec_positions().entries_seq().last(), p) == 0);
            }
        }
        assert(super::state::positions_unchanged_except(pre, *store, token_id@));
    }

    let mut attributes: Vec<(String, String)> = Vec::new();
    attributes.push(attr("action", String::from_str("add_liquidity_complete")));
    attributes.push(attr("token_id", token_id));
    attributes.push(attr("amount", u128_to_dec(amount)));
    let resp = Response { messages: Vec::new(), attributes };
    proof {
        assert(resp@.messages =~= Seq::<SubMsgV>::empty());
        assert(resp@.attributes =~= seq![
            ("action"@, "add_liquidity_complete"@),
            ("token_id"@, attributes@[1].1@),
            ("amount"@, dec_of(amount as nat)),
        ]);
    }
    Ok(resp)
}

/// What the remove-liquidity callback does.  On router failure the
/// ledger is untouched.  On success, a confirmed amount equal to the
/// stored amount deletes the record; a smaller one decrements it; in
/// both cases the pool's aggregate (captured from the record before
/// the mutation) shrinks by the confirmed amount.
pub open spec fn remove_reply_applied(
    pre: LedgerStore,
    post: LedgerStore,
    resp: EuclidResponseV,
    out: Result<ResponseV, ContractError>,
) -> bool {
    if !resp.success {
        &&& post == pre
        &&& out == Err::<ResponseV, ContractError>(ContractError::CrossChainOperationFailed)
    } else {
        match resp.data {
            ReplyDataV::Removal { token_id, amount } => {
                if !pre.has_position(token_id) {
                    &&& post == pre
                    &&& out == Err::<ResponseV, ContractError>(ContractError::PositionNotFound)
                } else {
                    let rec = pre.position_of(token_id);
                    let pool = rec.position.pool_id;
                    if amount > rec.position.amount {
                        &&& post == pre
                        &&& out == Err::<ResponseV, ContractError>(
                            ContractError::InsufficientLiquidity,
                        )
                    } else {
                        &&& post.spec_config() == pre.spec_config()
                        &&& super::state::pending_unchanged(pre, post)
                        &&& post.liquidity_of(pool) == pre.liquidity_of(pool) - amount
                        &&& super::state::liquidity_unchanged_except(pre, post, pool)
                        &&& super::state::positions_unchanged_except(pre, post, token_id)
                        &&& if amount == rec.position.amount {
                            !post.has_position(token_id)
                        } else {
                            &&& post.has_position(token_id)
                            &&& post.position_of(token_id) == PositionInfoV {
                                owner: rec.owner,
                                token_id: rec.token_id,
                                position: LiquidityPositionV {
                                    pool_id: rec.position.pool_id,
                                    chain_id: rec.position.chain_id,
                                    token_pair: rec.position.token_pair,
                                    amount: (rec.position.amount - amount) as u128,
                                    last_updated: rec.position.last_updated,
                                },
                            }
                        }
                        &&& out == Ok::<ResponseV, ContractError>(
                            ResponseV {
                                messages: Seq::empty(),
                                attributes: seq![
                                    ("action"@, "remove_liquidity_complete"@),
                                    ("token_id"@, token_id),
                                    ("amount"@, dec_of(amount as nat)),
                                ],
                            },
                        )
                    }
                }
            },
            _ => {
                &&& post == pre
                &&& out == Err::<ResponseV, ContractError>(ContractError::InvalidReplyData)
            },
        }
    }
}

/// Apply the router's remove-liquidity outcome to the ledger.
pub fn handle_remove_liquidity_reply(
    store: &mut LedgerStore,
    msg: EuclidResponse,
) -> (r: Result<Response, ContractError>)
    requires
        old(store).wf(),
    ensures
        final(store).wf(),
        remove_reply_applied(*old(store), *final(store), msg@, spec_result(r)),
{
    if !msg.success {
        return Err(ContractError::CrossChainOperationFailed);
    }
    let (token_id, amount): (String, u128) = match msg.data {
        ReplyData::Removal { token_id, amount } => (token_id, amount),
        _ => {
            return Err(ContractError::InvalidReplyData);
        },
    };
    let idx = match store.positions.index_of(&token_id) {
        Some(i) => i,
        None => {
            return Err(ContractError::PositionNotFound);
        },
    };
    proof {
        store.positions.lemma_entry_is_get(idx as int);
    }
    let rec = store.positions.value_at(idx);
    let stored: u128 = rec.position.amount;
    if amount > stored {
        return Err(ContractError::InsufficientLiquidity);
    }
    // The pool identifier, captured before any mutation: a full
    // removal deletes the record that holds it.
    let pool_id = rec.position.pool_id.clone();

    let ghost pre = *old(store);
    let ghost old_entries = pre.spec_positions().entries_seq();

    let current: u128 = match store.pool_liquidity.get(&pool_id) {
        Some(v) => *v,
        None => 0,
    };
    proof {
        assert(current as int == pre.liquidity_of(pool_id@));
        lemma_pool_sum_entry_bound(old_entries, idx as int, pool_id@);
    }
    let new_liq: u128 = current - amount;

    if amount == stored {
        store.positions.remove_at(idx);
        store.pool_liquidity.set(pool_id.clone(), new_liq);
        proof {
            super::state::lemma_liquidity_after_set(pre, *store, pool_id@, new_liq);
            assert forall|p: Seq<char>|
                #[trigger] store.liquidity_of(p) == pool_amount_sum(
                    store.spec_positions().entries_seq(),
                    p,
                ) by {
                lemma_pool_sum_remove(old_entries, idx as int, p);
                assert(pre.liquidity_of(p) == pool_amount_sum(old_entries, p));
                if p != pool_id@ {
                    assert(pool_contrib(old_entries[idx as int], p) == 0);
                }
            }
            assert(super::state::positions_unchanged_except(pre, *store, token_id@));
            assert(super::state::pending_unchanged(pre, *store));
        }
    } else {
        let mut updated = rec.duplicate();
        updated.position.amount = stored - amount;
        let ghost new_entry = (old_entries[idx as int].0, updated);
        store.positions.set_at(idx, updated);
        store.pool_liquidity.set(pool_id.clone(), new_liq);
        proof {
            super::state::lemma_liquidity_after_set(pre, *store, pool_id@, new_liq);
            assert forall|p: Seq<char>|
                #[trigger] store.liquidity_of(p) == pool_amount_sum(
                    store.spec_positions().entries_seq(),
                    p,
                ) by {
                lemma_pool_sum_update(old_entries, idx as int, new_entry, p);
                assert(pre.liquidity_of(p) == pool_amount_sum(old_entries, p));
                assert(store.spec_positions().entries_seq() == old_entries.update(
                    idx as int,
                    new_entry,
                ));
                if p == pool_id@ {
                    assert(pool_contrib(old_entries[idx as int], p) == stored as int);
                    assert(pool_contrib(new_entry, p) == (stored - amount) as int);
                } else {
                    assert(pool_contrib(old_entries[idx as int], p) == 0);
                    assert(pool_contrib(new_entry, p) == 0);
                }
            }
            assert(super::state::positions_unchanged_except(pre, *store, token_id@));
            assert(super::state::pending_unchanged(pre, *store));
        }
    }

    let mut attributes: Vec<(String, String)> = Vec::new();
    attributes.push(attr("action", String::from_str("remove_liquidity_complete")));
    attributes.push(attr("token_id", token_id));
    attributes.push(attr("amount", u128_to_dec(amount)));
    let resp = Response { messages: Vec::new(), attributes };
    proof {
        assert(resp@.messages =~= Seq::<SubMsgV>::empty());
        assert(resp@.attributes =~= seq![
            ("action"@, "remove_liquidity_complete"@),
            ("token_id"@, attributes@[1].1@),
            ("amount"@, dec_of(amount as nat)),
        ]);
    }
    Ok(resp)
}

/// What the transfer-position callback does.  On router failure the
/// ledger is untouched.  On success the record's chain identifier is
/// overwritten; owner, amount and token identifier are unchanged, and
/// so are all aggregates and queues.
pub open spec fn transfer_reply_applied(
    pre: LedgerStore,
    post: LedgerStore,
    resp: EuclidResponseV,
    out: Result<ResponseV, ContractError>,
) -> bool {
    if !resp.success {
        &&& post == pre
        &&& out == Err::<ResponseV, ContractError>(ContractError::CrossChainOperationFailed)
    } else {
        match resp.data {
            ReplyDataV::Transfer { token_id, new_chain_id } => {
                if !pre.has_position(token_id) {
                    &&& post == pre
                    &&& out == Err::<ResponseV, ContractError>(ContractError::PositionNotFound)
                } else {
                    let rec = pre.position_of(token_id);
                    &&& post.spec_config() == pre.spec_config()
                    &&& super::state::pending_unchanged(pre, post)
                    &&& forall|p: Seq<char>| #[trigger] post.liquidity_of(p) == pre.liquidity_of(p)
                    &&& super::state::positions_unchanged_except(pre, post, token_id)
                    &&& post.has_position(token_id)
                    &&& post.position_of(token_id) == PositionInfoV {
                        owner: rec.owner,
                        token_id: rec.token_id,
                        position: LiquidityPositionV {
                            pool_id: rec.position.pool_id,
                            chain_id: new_chain_id,
                            token_pair: rec.position.token_pair,
                            amount: rec.position.amount,
                            last_updated: rec.position.last_updated,
                        },
                    }
                    &&& out == Ok::<ResponseV, ContractError>(
                        ResponseV {
                            messages: Seq::empty(),
                            attributes: seq![
                                ("action"@, "transfer_position_complete"@),
                                ("token_id"@, token_id),
                                ("new_chain_id"@, new_chain_id),
                            ],
                        },
                    )
                }
            },
            _ => {
                &&& post == pre
                &&& out == Err::<ResponseV, ContractError>(ContractError::InvalidReplyData)
            },
        }
    }
}

/// Apply the router's transfer-position outcome to the ledger.
pub fn handle_transfer_position_reply(
    store: &mut LedgerStore,
    msg: EuclidResponse,
) -> (r: Result<Response, ContractError>)
    requires
        old(store).wf(),
    ensures
        final(store).wf(),
        transfer_reply_applied(*old(store), *final(store), msg@, spec_result(r)),
{
    if !msg.success {
        return Err(ContractError::CrossChainOperationFailed);
    }
    let (token_id, new_chain_id): (String, String) = match msg.data {
        ReplyData::Transfer { token_id, new_chain_id } => (token_id, new_chain_id),
        _ => {
            return Err(ContractError::InvalidReplyData);
        },
    };
    let idx = match store.positions.index_of(&token_id) {
        Some(i) => i,
        None => {
            return Err(ContractError::PositionNotFound);
        },
    };
    proof {
        store.positions.lemma_entry_is_get(idx as int);
    }
    let rec = store.positions.value_at(idx);

    let ghost pre = *old(store);
    let ghost old_entries = pre.spec_positions().entries_seq();

    let mut updated = rec.duplicate();
    updated.position.chain_id = new_chain_id.clone();
    let ghost new_entry = (old_entries[idx as int].0, updated);
    store.positions.set_at(idx, updated);
    proof {
        assert forall|p: Seq<char>|
            #[trigger] store.liquidity_of(p) == pool_amount_sum(
                store.spec_positions().entries_seq(),
                p,
            ) by {
            lemma_pool_sum_update(old_entries, idx as int, new_entry, p);
            assert(pre.liquidity_of(p) == pool_amount_sum(old_entries, p));
            assert(store.spec_positions().entries_seq() == old_entries.update(
                idx as int,
                new_entry,
            ));
            assert(pool_contrib(old_entries[idx as int], p) == pool_contrib(new_entry, p));
        }
        assert(super::state::positions_unchanged_except(pre, *store, token_id@));
        assert(super::state::pending_unchanged(pre, *store));
    }

    let mut attributes: Vec<(String, String)> = Vec::new();
    attributes.push(attr("action", String::from_str("transfer_position_complete")));
    attributes.push(attr("token_id", token_id));
    attributes.push(attr("new_chain_id", new_chain_id));
    let resp = Response { messages: Vec::new(), attributes };
    proof {
        assert(resp@.messages =~= Seq::<SubMsgV>::empty());
        assert(resp@.attributes =~= seq![
            ("action"@, "transfer_position_complete"@),
            ("token_id"@, attributes@[1].1@),
            ("new_chain_id"@, attributes@[2].1@),
        ]);
    }
    Ok(resp)
}

/// The conditions under which every branch of the correlator stays
/// inside the aggregate's machine width.
pub open spec fn reply_fits(pre: LedgerStore, time: u64, reply_id: u64, resp: EuclidResponseV) -> bool {
    reply_id == REPLY_ADD_LIQUIDITY ==> add_reply_fits(pre, time, resp)
}

/// Route the router's asynchronous outcome by its fixed correlation
/// tag.  A tag outside the three known classes is fatal: the call
/// aborts with `UnknownCorrelationTag` and every map is left exactly
/// as it was — never a silent no-op, since such a tag means the host
/// and the contract disagree about the protocol.
pub fn reply(
    store: &mut LedgerStore,
    time: u64,
    reply_id: u64,
    msg: EuclidResponse,
) -> (r: Result<Response, ContractError>)
    requires
        old(store).wf(),
        reply_fits(*old(store), time, reply_id, msg@),
    ensures
        final(store).wf(),
        reply_id == REPLY_ADD_LIQUIDITY ==> add_reply_applied(
            *old(store),
            *final(store),
            time,
            msg@,
            spec_result(r),
        ),
        reply_id == REPLY_REMOVE_LIQUIDITY ==> remove_reply_applied(
            *old(store),
            *final(store),
            msg@,
            spec_result(r),
        ),
        reply_id == REPLY_TRANSFER_POSITION ==> transfer_reply_applied(
            *old(store),
            *final(store),
            msg@,
            spec_result(r),
        ),
        reply_id != REPLY_ADD_LIQUIDITY && reply_id != REPLY_REMOVE_LIQUIDITY && reply_id
            != REPLY_TRANSFER_POSITION ==> *final(store) == *old(store) && r == Err::<
            Response,
            ContractError,
        >(ContractError::UnknownCorrelationTag),
{
    if reply_id == REPLY_ADD_LIQUIDITY {
        handle_add_liquidity_reply(store, time, msg)
    } else if reply_id == REPLY_REMOVE_LIQUIDITY {
        handle_remove_liquidity_reply(store, msg)
    } else if reply_id == REPLY_TRANSFER_POSITION {
        handle_transfer_position_reply(store, msg)
    } else {
        Err(ContractError::UnknownCorrelationTag)
    }
}

/// The stored configuration.
pub fn query_config(store: &LedgerStore) -> (r: Result<Config, ContractError>)
    ensures
        match r {
            Ok(c) => store.spec_config() == Some(c),
            Err(e) => store.spec_config() is None && e == ContractError::InvalidConfiguration,
        },
{
    match &store.config {
        Some(c) => Ok(c.duplicate()),
        None => Err(ContractError::InvalidConfiguration),
    }
}

/// The record under a token identifier, if any.
pub fn query_position(store: &LedgerStore, token_id: &String) -> (r: Option<PositionInfo>)
    requires
        store.wf(),
    ensures
        match r {
            Some(p) => store.has_position(token_id@) && p@ == store.position_of(token_id@),
            None => !store.has_position(token_id@),
        },
{
    match store.positions.get(token_id) {
        Some(p) => Some(p.duplicate()),
        None => None,
    }
}

/// Every record referencing `pool_id`, by a full scan in storage
/// order.
pub fn query_pool_positions(store: &LedgerStore, pool_id: &String) -> (r: Vec<PositionInfo>)
    requires
        store.wf(),
    ensures
        r@.map(|i: int, p: PositionInfo| p@) == store.positions_in_order().filter(
            |p: PositionInfoV| p.position.pool_id == pool_id@,
        ),
{
    let ghost all: Seq<PositionInfoV> = store.positions_in_order();
    let ghost pred = |p: PositionInfoV| p.position.pool_id == pool_id@;
    let mut r: Vec<PositionInfo> = Vec::new();
    let n = store.positions.len();
    let mut i: usize = 0;
    proof {
        reveal(Seq::filter);
        assert(all.subrange(0, 0).filter(pred) =~= Seq::<PositionInfoV>::empty());
        assert(r@.map(|j: int, p: PositionInfo| p@) =~= Seq::<PositionInfoV>::empty());
    }
    while i < n
        invariant
            n == store.positions.spec_len(),
            i <= n,
            store.wf(),
            all == store.positions_in_order(),
            pred == (|p: PositionInfoV| p.position.pool_id == pool_id@),
            r@.map(|j: int, p: PositionInfo| p@) == all.subrange(0, i as int).filter(pred),
        decreases n - i,
    {
        let candidate = store.positions.value_at(i);
        let ghost prefix = all.subrange(0, i as int);
        proof {
            reveal(Seq::filter);
            assert(all.subrange(0, i + 1).drop_last() =~= prefix);
            assert(all.subrange(0, i + 1).last() == all[i as int]);
            assert(all[i as int] == candidate@);
        }
        if candidate.position.pool_id == *pool_id {
            r.push(candidate.duplicate());
            proof {
                assert(r@.map(|j: int, p: PositionInfo| p@) =~= prefix.filter(pred).push(
                    candidate@,
                ));
                assert(all.subrange(0, i + 1).filter(pred) == prefix.filter(pred).push(
                    all[i as int],
                ));
            }
        } else {
            proof {
                assert(all.subrange(0, i + 1).filter(pred) == prefix.filter(pred));
            }
        }
        i = i + 1;
    }
    proof {
        assert(all.subrange(0, n as int) =~= all);
    }
    r
}

/// The queue of requesters with an add-liquidity call in flight for a
/// pool (the stored key is the pool identifier).
pub fn query_pending_operations(store: &LedgerStore, token_id: &String) -> (r: Vec<String>)
    requires
        store.wf(),
    ensures
        r@.map(|i: int, s: String| s@) == store.pending_of(token_id@),
{
    match store.pending_operations.get(token_id) {
        Some(q) => clone_string_vec(q),
        None => {
            let r: Vec<String> = Vec::new();
            proof {
                assert(r@.map(|i: int, s: String| s@) =~= Seq::<Seq<char>>::empty());
            }
            r
        },
    }
}

/// A pool's recorded aggregate liquidity; 0 when the pool is unknown.
pub fn query_pool_liquidity(store: &LedgerStore, pool_id: &String) -> (r: u128)
    requires
        store.wf(),
    ensures
        r as int == store.liquidity_of(pool_id@),
{
    match store.pool_liquidity.get(pool_id) {
        Some(v) => *v,
        None => 0,
    }
}

/// What an estimate-rewards query resolves to: the read-through
/// request the host puts to the router, built from the position's
/// pool, amount and last-updated stamp.
pub open spec fn rewards_request(
    pre: LedgerStore,
    token_id: Seq<char>,
    out: Result<(Seq<char>, EuclidMsgV), ContractError>,
) -> bool {
    if !pre.has_position(token_id) {
        out == Err::<(Seq<char>, EuclidMsgV), ContractError>(ContractError::PositionNotFound)
    } else if pre.config_view() is None {
        out == Err::<(Seq<char>, EuclidMsgV), ContractError>(ContractError::InvalidConfiguration)
    } else {
        let rec = pre.position_of(token_id);
        out == Ok::<(Seq<char>, EuclidMsgV), ContractError>(
            (
                pre.config_view()->Some_0.euclid_router,
                EuclidMsgV {
                    action: EuclidAction::ClaimRewards,
                    data: ActionDataV::RewardsQuery {
                        pool_id: rec.position.pool_id,
                        amount: rec.position.amount,
                        duration: rec.position.last_updated,
                    },
                },
            ),
        )
    }
}

/// Build the read-through rewards query for a position; the host
/// sends it to the router and returns the router's figure untouched.
pub fn query_estimate_rewards(store: &LedgerStore, token_id: &String) -> (r: Result<
    (String, EuclidMsg),
    ContractError,
>)
    requires
        store.wf(),
    ensures
        rewards_request(
            *store,
            token_id@,
            match r {
                Ok(p) => Ok((p.0@, p.1@)),
                Err(e) => Err(e),
            },
        ),
{
    let idx = match store.positions.index_of(token_id) {
        Some(i) => i,
        None => {
            return Err(ContractError::PositionNotFound);
        },
    };
    proof {
        store.positions.lemma_entry_is_get(idx as int);
    }
    let rec = store.positions.value_at(idx);
    let router = match &store.config {
        Some(c) => c.euclid_router.clone(),
        None => {
            return Err(ContractError::InvalidConfiguration);
        },
    };
    let query = EuclidMsg {
        action: EuclidAction::ClaimRewards,
        data: ActionData::RewardsQuery {
            pool_id: rec.position.pool_id.clone(),
            amount: rec.position.amount,
            duration: rec.position.last_updated,
        },
    };
    Ok((router, query))
}

/// Dispatch a command to its handler.
pub fn execute(
    store: &mut LedgerStore,
    time: u64,
    sender: String,
    funds: Vec<Coin>,
    msg: ExecuteMsg,
) -> (r: Result<Response, ContractError>)
    requires
        old(store).wf(),
        msg matches ExecuteMsg::UpdatePosition { token_id, new_amount } ==> update_fits(
            *old(store),
            sender@,
            token_id@,
            new_amount,
        ),
    ensures
        final(store).wf(),
        msg matches ExecuteMsg::AddLiquidity { pool_id, chain_id, token_pair, amount, min_shares }
            ==> add_dispatched(
            *old(store),
            *final(store),
            sender@,
            funds@.map(|i: int, c: Coin| c@),
            pool_id@,
            chain_id@,
            (token_pair.0@, token_pair.1@),
            amount,
            min_shares,
            spec_result(r),
        ),
        msg matches ExecuteMsg::RemoveLiquidity { token_id, amount } ==> remove_dispatched(
            *old(store),
            *final(store),
            sender@,
            token_id@,
            amount,
            spec_result(r),
        ),
        msg matches ExecuteMsg::TransferPosition { token_id, to_chain_id } ==> transfer_dispatched(
            *old(store),
            *final(store),
            sender@,
            token_id@,
            to_chain_id@,
            spec_result(r),
        ),
        msg matches ExecuteMsg::UpdatePosition { token_id, new_amount } ==> update_applied(
            *old(store),
            *final(store),
            time,
            sender@,
            token_id@,
            new_amount,
            spec_result(r),
        ),
        msg matches ExecuteMsg::ClaimRewards { token_id } ==> claim_dispatched(
            *old(store),
            *final(store),
            sender@,
            token_id@,
            spec_result(r),
        ),
{
    match msg {
        ExecuteMsg::AddLiquidity { pool_id, chain_id, token_pair, amount, min_shares } => {
            execute_add_liquidity(
                store,
                sender,
                funds,
                pool_id,
                chain_id,
                token_pair,
                amount,
                min_shares,
            )
        },
        ExecuteMsg::RemoveLiquidity { token_id, amount } => {
            execute_remove_liquidity(store, sender, token_id, amount)
        },
        ExecuteMsg::TransferPosition { token_id, to_chain_id } => {
            execute_transfer_position(store, sender, token_id, to_chain_id)
        },
        ExecuteMsg::UpdatePosition { token_id, new_amount } => {
            execute_update_position(store, time, sender, token_id, new_amount)
        },
        ExecuteMsg::ClaimRewards { token_id } => execute_claim_rewards(store, sender, token_id),
    }
}

/// Answer a read-only query from the ledger.
pub fn query(store: &LedgerStore, msg: QueryMsg) -> (r: Result<QueryAnswer, ContractError>)
    requires
        store.wf(),
    ensures
        msg matches QueryMsg::GetConfig {  } ==> match r {
            Ok(a) => a matches QueryAnswer::Config(c) && store.spec_config() == Some(c),
            Err(e) => store.spec_config() is None && e == ContractError::InvalidConfiguration,
        },
        msg matches QueryMsg::GetPosition { token_id } ==> r matches Ok(a) && (a matches
            QueryAnswer::Position(p) && match p {
            Some(rec) => store.has_position(token_id@) && rec@ == store.position_of(token_id@),
            None => !store.has_position(token_id@),
        }),
        msg matches QueryMsg::GetPoolPositions { pool_id } ==> r matches Ok(a) && (a matches
            QueryAnswer::PoolPositions(v) && v@.map(|i: int, p: PositionInfo| p@)
            == store.positions_in_order().filter(
            |p: PositionInfoV| p.position.pool_id == pool_id@,
        )),
        msg matches QueryMsg::GetPendingOperations { token_id } ==> r matches Ok(a) && (a matches
            QueryAnswer::PendingOperations(v) && v@.map(|i: int, s: String| s@) == store.pending_of(
            token_id@,
        )),
        msg matches QueryMsg::GetPoolLiquidity { pool_id } ==> r matches Ok(a) && (a matches
            QueryAnswer::PoolLiquidity(x) && x as int == store.liquidity_of(pool_id@)),
        msg matches QueryMsg::EstimateRewards { token_id } ==> rewards_request(
            *store,
            token_id@,
            match r {
                Ok(a) => {
                    if a is RewardsRequest {
                        Ok((a->RewardsRequest_router@, a->RewardsRequest_query@))
                    } else {
                        Err(ContractError::InvalidReplyData)
                    }
                },
                Err(e) => Err(e),
            },
        ) && (r matches Ok(a) ==> a is RewardsRequest),
{
    match msg {
        QueryMsg::GetConfig {  } => {
            let c = query_config(store)?;
            Ok(QueryAnswer::Config(c))
        },
        QueryMsg::GetPosition { token_id } => {
            Ok(QueryAnswer::Position(query_position(store, &token_id)))
        },
        QueryMsg::GetPoolPositions { pool_id } => {
            Ok(QueryAnswer::PoolPositions(query_pool_positions(store, &pool_id)))
        },
        QueryMsg::GetPendingOperations { token_id } => {
            Ok(QueryAnswer::PendingOperations(query_pending_operations(store, &token_id)))
        },
        QueryMsg::GetPoolLiquidity { pool_id } => {
            Ok(QueryAnswer::PoolLiquidity(query_pool_liquidity(store, &pool_id)))
        },
        QueryMsg::EstimateRewards { token_id } => {
            let (router, q) = query_estimate_rewards(store, &token_id)?;
            Ok(QueryAnswer::RewardsRequest { router, query: q })
        },
    }
}

/// After writing queue value `q` under `pool`, the pending view of
/// `pool` is `q`'s view and every other pool's queue is unchanged.
proof fn lemma_pending_after_set(
    pre: LedgerStore,
    post: LedgerStore,
    pool: Seq<char>,
    q: Seq<Seq<char>>,
)
    requires
        post.spec_pending().contains_key(pool),
        post.spec_pending().spec_get(pool)@.map(|i: int, s: String| s@) == q,
        forall|k2: Seq<char>|
            k2 != pool ==> #[trigger] post.spec_pending().contains_key(k2)
                == pre.spec_pending().contains_key(k2),
        forall|k2: Seq<char>|
            k2 != pool && pre.spec_pending().contains_key(k2) ==> #[trigger] post.spec_pending(
            ).spec_get(k2) == pre.spec_pending().spec_get(k2),
    ensures
        post.pending_of(pool) == q,
        forall|p: Seq<char>| p != pool ==> #[trigger] post.pending_of(p) == pre.pending_of(p),
{
    assert forall|p: Seq<char>| p != pool implies #[trigger] post.pending_of(p) == pre.pending_of(
        p,
    ) by {
        assert(post.spec_pending().contains_key(p) == pre.spec_pending().contains_key(p));
        if pre.spec_pending().contains_key(p) {
            assert(post.spec_pending().spec_get(p) == pre.spec_pending().spec_get(p));
        }
    }
}

} // verus!
