//! The wrapper's cross-cutting guarantees, stated on their own.
//!
//! Each law is proved from the transition predicates that the entry
//! points' contracts establish; the aggregate-consistency law itself
//! lives with the state model (`state::lemma_pool_aggregate_consistent`).

use vstd::prelude::*;

use super::contract::{
    add_dispatched, add_reply_applied, claim_dispatched, remove_dispatched, remove_reply_applied,
    resolved_amount, spec_token_id, transfer_dispatched, update_applied,
};
use super::error::ContractError;
use super::msg::{CoinV, EuclidResponseV, ReplyDataV, ResponseV};
use super::state::{LedgerStore, LiquidityPositionV, PositionInfoV};

verus! {

/// Every ownership-gated command — remove, transfer, update, claim —
/// called by someone who is not the stored owner fails `Unauthorized`
/// and leaves the ledger exactly as it was.
pub proof fn lemma_ownership_gate(
    pre: LedgerStore,
    post: LedgerStore,
    sender: Seq<char>,
    token_id: Seq<char>,
    amount: Option<u128>,
    to_chain_id: Seq<char>,
    time: u64,
    new_amount: u128,
    out: Result<ResponseV, ContractError>,
)
    requires
        pre.has_position(token_id),
        pre.position_of(token_id).owner != sender,
        remove_dispatched(pre, post, sender, token_id, amount, out) || transfer_dispatched(
            pre,
            post,
            sender,
            token_id,
            to_chain_id,
            out,
        ) || update_applied(pre, post, time, sender, token_id, new_amount, out)
            || claim_dispatched(pre, post, sender, token_id, out),
    ensures
        post == pre,
        out == Err::<ResponseV, ContractError>(ContractError::Unauthorized),
{
}

/// The round trip of an add-liquidity request dispatched into an
/// empty queue: after the dispatch the pool's queue holds exactly the
/// requester, and after a matching success callback the requester owns
/// a freshly minted position with the confirmed amount, the pool's
/// aggregate has grown by that amount, and the queue is empty again.
pub proof fn lemma_add_round_trip(
    dispatched: LedgerStore,
    resolved: LedgerStore,
    pre: LedgerStore,
    sender: Seq<char>,
    funds: Seq<CoinV>,
    pool_id: Seq<char>,
    chain_id: Seq<char>,
    token_pair: (Seq<char>, Seq<char>),
    amount: u128,
    min_shares: u128,
    time: u64,
    pos: LiquidityPositionV,
    resp: EuclidResponseV,
    out1: Result<ResponseV, ContractError>,
    out2: Result<ResponseV, ContractError>,
)
    requires
        pre.wf(),
        (pre.config_view() is Some),
        pre.pending_of(pool_id).len() == 0,
        add_dispatched(
            pre,
            dispatched,
            sender,
            funds,
            pool_id,
            chain_id,
            token_pair,
            amount,
            min_shares,
            out1,
        ),
        resp.success,
        resp.data == ReplyDataV::Position(pos),
        pos.pool_id == pool_id,
        !dispatched.has_position(spec_token_id(time, pool_id)),
        add_reply_applied(dispatched, resolved, time, resp, out2),
    ensures
        dispatched.pending_of(pool_id) == seq![sender],
        (out2 is Ok),
        resolved.has_position(spec_token_id(time, pool_id)),
        resolved.position_of(spec_token_id(time, pool_id)) == (PositionInfoV {
            owner: sender,
            token_id: spec_token_id(time, pool_id),
            position: pos,
        }),
        resolved.liquidity_of(pool_id) == pre.liquidity_of(pool_id) + pos.amount,
        resolved.pending_of(pool_id).len() == 0,
{
    assert(dispatched.pending_of(pool_id) =~= seq![sender]);
    assert(resolved.pending_of(pool_id) =~= Seq::<Seq<char>>::empty());
}

/// A removal request for more than the stored amount fails
/// `InsufficientLiquidity` before any outbound call is made, with the
/// ledger identical to before the call.
pub proof fn lemma_remove_bounded_by_stored(
    pre: LedgerStore,
    post: LedgerStore,
    sender: Seq<char>,
    token_id: Seq<char>,
    amount: Option<u128>,
    out: Result<ResponseV, ContractError>,
)
    requires
        pre.has_position(token_id),
        pre.position_of(token_id).owner == sender,
        resolved_amount(pre.position_of(token_id).position.amount, amount) > pre.position_of(
            token_id,
        ).position.amount,
        remove_dispatched(pre, post, sender, token_id, amount, out),
    ensures
        post == pre,
        out == Err::<ResponseV, ContractError>(ContractError::InsufficientLiquidity),
{
}

/// A confirmed removal strictly decreases the stored amount by the
/// confirmed amount, or deletes the record when the two are equal —
/// and shrinks the pool's aggregate by exactly that amount.
pub proof fn lemma_remove_success_decreases(
    pre: LedgerStore,
    post: LedgerStore,
    token_id: Seq<char>,
    amount: u128,
    resp: EuclidResponseV,
    out: Result<ResponseV, ContractError>,
)
    requires
        resp.success,
        resp.data == (ReplyDataV::Removal { token_id, amount }),
        pre.has_position(token_id),
        amount <= pre.position_of(token_id).position.amount,
        remove_reply_applied(pre, post, resp, out),
    ensures
        amount == pre.position_of(token_id).position.amount ==> !post.has_position(token_id),
        amount < pre.position_of(token_id).position.amount ==> post.has_position(token_id)
            && post.position_of(token_id).position.amount == pre.position_of(
            token_id,
        ).position.amount - amount,
        post.liquidity_of(pre.position_of(token_id).position.pool_id) == pre.liquidity_of(
            pre.position_of(token_id).position.pool_id,
        ) - amount,
{
}

} // verus!
