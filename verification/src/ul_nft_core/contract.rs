//! Entry points of the token ledger.

use vstd::prelude::*;

use crate::numfmt::dec_of;
use crate::store::{clone_string_vec, remove_matching, spec_vec_contains_string};
use super::error::ContractError;
use super::msg::{ExecuteMsg, InstantiateMsg, QueryAnswer, QueryMsg, Response};
use super::state::{clone_positions, Config, LiquidityPosition, TokenInfo, TokenInfoV, TokenLedger};

verus! {

/// A command result, viewed as the attribute list it carries.
pub open spec fn spec_result(r: Result<Response, ContractError>) -> Result<
    Seq<(Seq<char>, Seq<char>)>,
    ContractError,
> {
    match r {
        Ok(resp) => Ok(resp.attributes@.map(|i: int, a: (String, String)| (a.0@, a.1@))),
        Err(e) => Err(e),
    }
}

fn attr(k: &'static str, v: String) -> (r: (String, String))
    ensures
        r.0@ == k@,
        r.1 == v,
{
    (String::from_str(k), v)
}

/// The identifier assigned to the `n`-th minted token.
pub open spec fn spec_nft_token_id(n: u64) -> Seq<char> {
    "ulnft"@ + dec_of(n as nat)
}

fn mint_nft_token_id(n: u64) -> (r: String)
    ensures
        r@ == spec_nft_token_id(n),
{
    let mut s = String::from_str("ulnft");
    let t = crate::numfmt::u64_to_dec(n);
    s.append(t.as_str());
    proof {
        assert(s@ =~= spec_nft_token_id(n));
    }
    s
}

/// Store the ledger's configuration; the supply counter starts at 0.
/// Instantiation happens once, on a ledger that holds no tokens yet.
pub fn instantiate(store: &mut TokenLedger, sender: String, msg: InstantiateMsg) -> (r: Result<
    Response,
    ContractError,
>)
    requires
        old(store).wf(),
        old(store).tokens.spec_len() == 0,
    ensures
        final(store).wf(),
        final(store).config == Some(
            Config {
                name: msg.name,
                symbol: msg.symbol,
                admin: sender,
                euclid_router: msg.euclid_router,
            },
        ),
        final(store).tokens == old(store).tokens,
        final(store).owner_tokens == old(store).owner_tokens,
        final(store).total_supply == 0,
        r matches Ok(resp) && resp.attributes@.map(|i: int, a: (String, String)| (a.0@, a.1@))
            == seq![("method"@, "instantiate"@), ("owner"@, sender@)],
{
    let config = Config {
        name: msg.name,
        symbol: msg.symbol,
        admin: sender.clone(),
        euclid_router: msg.euclid_router,
    };
    store.config = Some(config);
    store.total_supply = 0;

    let mut attributes: Vec<(String, String)> = Vec::new();
    attributes.push(attr("method", String::from_str("instantiate")));
    attributes.push(attr("owner", sender));
    let resp = Response { attributes };
    proof {
        assert(resp.attributes@.map(|i: int, a: (String, String)| (a.0@, a.1@)) =~= seq![
            ("method"@, "instantiate"@),
            ("owner"@, sender@),
        ]);
    }
    Ok(resp)
}

/// What a mint does: assign the next identifier, store the token under
/// the caller as owner, and append it to the caller's token list.
pub open spec fn mint_applied(
    pre: TokenLedger,
    post: TokenLedger,
    sender: Seq<char>,
    positions: Seq<LiquidityPosition>,
    token_uri: Option<Seq<char>>,
    out: Result<Seq<(Seq<char>, Seq<char>)>, ContractError>,
) -> bool {
    if pre.total_supply == u64::MAX {
        &&& post == pre
        &&& out == Err::<Seq<(Seq<char>, Seq<char>)>, ContractError>(
            ContractError::SupplyExhausted,
        )
    } else {
        let tid = spec_nft_token_id((pre.total_supply + 1) as u64);
        if pre.has_token(tid) {
            &&& post == pre
            &&& out == Err::<Seq<(Seq<char>, Seq<char>)>, ContractError>(
                ContractError::TokenAlreadyExists,
            )
        } else {
            &&& post.config == pre.config
            &&& post.total_supply == pre.total_supply + 1
            &&& post.has_token(tid)
            &&& post.token_of(tid) == TokenInfoV {
                owner: sender,
                positions: positions,
                approved: None,
                token_uri: token_uri,
            }
            &&& forall|t: Seq<char>| t != tid ==> #[trigger] post.has_token(t) == pre.has_token(t)
            &&& forall|t: Seq<char>|
                t != tid && pre.has_token(t) ==> #[trigger] post.token_of(t) == pre.token_of(t)
            &&& post.tokens_of(sender) == pre.tokens_of(sender).push(tid)
            &&& forall|o: Seq<char>| o != sender ==> #[trigger] post.tokens_of(o) == pre.tokens_of(o)
            &&& out == Ok::<Seq<(Seq<char>, Seq<char>)>, ContractError>(
                seq![("action"@, "mint"@), ("token_id"@, tid), ("owner"@, sender)],
            )
        }
    }
}

/// Mint a token carrying the given positions to the caller.
pub fn execute_mint(
    store: &mut TokenLedger,
    sender: String,
    positions: Vec<LiquidityPosition>,
    token_uri: Option<String>,
) -> (r: Result<Response, ContractError>)
    requires
        old(store).wf(),
    ensures
        final(store).wf(),
        mint_applied(
            *old(store),
            *final(store),
            sender@,
            positions@,
            match token_uri {
                Some(ref s) => Some(s@),
                None => None,
            },
            spec_result(r),
        ),
{
    if store.total_supply == u64::MAX {
        return Err(ContractError::SupplyExhausted);
    }
    let next: u64 = store.total_supply + 1;
    let token_id = mint_nft_token_id(next);
    if store.tokens.has(&token_id) {
        return Err(ContractError::TokenAlreadyExists);
    }

    let ghost pre = *old(store);
    let token = TokenInfo { owner: sender.clone(), positions, approved: None, token_uri };
    store.tokens.push_entry(token_id.clone(), token);
    store.total_supply = next;

    let mut list: Vec<String> = match store.owner_tokens.get(&sender) {
        Some(l) => clone_string_vec(l),
        None => Vec::new(),
    };
    let ghost old_list_view: Seq<Seq<char>> = pre.tokens_of(sender@);
    proof {
        assert(list@.map(|i: int, s: String| s@) =~= old_list_view);
    }
    list.push(token_id.clone());
    proof {
        assert(list@.map(|i: int, s: String| s@) =~= old_list_view.push(token_id@));
    }
    store.owner_tokens.set(sender.clone(), list);
    proof {
        assert forall|o: Seq<char>| o != sender@ implies #[trigger] store.tokens_of(o)
            == pre.tokens_of(o) by {
            assert(store.owner_tokens.contains_key(o) == pre.owner_tokens.contains_key(o));
            if pre.owner_tokens.contains_key(o) {
                assert(store.owner_tokens.spec_get(o) == pre.owner_tokens.spec_get(o));
            }
        }
    }

    let mut attributes: Vec<(String, String)> = Vec::new();
    attributes.push(attr("action", String::from_str("mint")));
    attributes.push(attr("token_id", token_id));
    attributes.push(attr("owner", sender));
    let resp = Response { attributes };
    proof {
        assert(resp.attributes@.map(|i: int, a: (String, String)| (a.0@, a.1@)) =~= seq![
            ("action"@, "mint"@),
            ("token_id"@, spec_nft_token_id(next)),
            ("owner"@, attributes@[2].1@),
        ]);
    }
    Ok(resp)
}

/// What a transfer does: hand the token (with approvals cleared) to
/// the recipient and move its identifier between the two owners'
/// lists.
pub open spec fn transfer_applied(
    pre: TokenLedger,
    post: TokenLedger,
    sender: Seq<char>,
    recipient: Seq<char>,
    token_id: Seq<char>,
    out: Result<Seq<(Seq<char>, Seq<char>)>, ContractError>,
) -> bool {
    if !pre.has_token(token_id) {
        &&& post == pre
        &&& out == Err::<Seq<(Seq<char>, Seq<char>)>, ContractError>(ContractError::TokenNotFound)
    } else if pre.token_of(token_id).owner != sender {
        &&& post == pre
        &&& out == Err::<Seq<(Seq<char>, Seq<char>)>, ContractError>(ContractError::Unauthorized)
    } else {
        let removed = pre.tokens_of(sender).filter(|x: Seq<char>| x != token_id);
        &&& post.config == pre.config
        &&& post.total_supply == pre.total_supply
        &&& post.has_token(token_id)
        &&& post.token_of(token_id) == TokenInfoV {
            owner: recipient,
            positions: pre.token_of(token_id).positions,
            approved: None,
            token_uri: pre.token_of(token_id).token_uri,
        }
        &&& forall|t: Seq<char>|
            t != token_id ==> #[trigger] post.has_token(t) == pre.has_token(t)
        &&& forall|t: Seq<char>|
            t != token_id && pre.has_token(t) ==> #[trigger] post.token_of(t) == pre.token_of(t)
        &&& if recipient == sender {
            post.tokens_of(sender) == removed.push(token_id)
        } else {
            &&& post.tokens_of(sender) == removed
            &&& post.tokens_of(recipient) == pre.tokens_of(recipient).push(token_id)
        }
        &&& forall|o: Seq<char>|
            o != sender && o != recipient ==> #[trigger] post.tokens_of(o) == pre.tokens_of(o)
        &&& out == Ok::<Seq<(Seq<char>, Seq<char>)>, ContractError>(
            seq![
                ("action"@, "transfer"@),
                ("token_id"@, token_id),
                ("from"@, sender),
                ("to"@, recipient),
            ],
        )
    }
}

/// Transfer a token to a new owner; ownership-gated, approvals are
/// cleared by the move.
pub fn execute_transfer(
    store: &mut TokenLedger,
    sender: String,
    recipient: String,
    token_id: String,
) -> (r: Result<Response, ContractError>)
    requires
        old(store).wf(),
    ensures
        final(store).wf(),
        transfer_applied(
            *old(store),
            *final(store),
            sender@,
            recipient@,
            token_id@,
            spec_result(r),
        ),
{
    let idx = match store.tokens.index_of(&token_id) {
        Some(i) => i,
        None => {
            return Err(ContractError::TokenNotFound);
        },
    };
    proof {
        store.tokens.lemma_entry_is_get(idx as int);
    }
    let token = store.tokens.value_at(idx);
    if token.owner != sender {
        return Err(ContractError::Unauthorized);
    }

    let ghost pre = *old(store);

    // Move the identifier out of the sender's list ...
    let old_list: Vec<String> = match store.owner_tokens.get(&sender) {
        Some(l) => clone_string_vec(l),
        None => Vec::new(),
    };
    proof {
        assert(old_list@.map(|i: int, s: String| s@) =~= pre.tokens_of(sender@));
    }
    let filtered = remove_matching(&old_list, &token_id);
    store.owner_tokens.set(sender.clone(), filtered);
    let ghost mid = *store;
    proof {
        assert forall|o: Seq<char>| o != sender@ implies #[trigger] mid.tokens_of(o)
            == pre.tokens_of(o) by {
            assert(mid.owner_tokens.contains_key(o) == pre.owner_tokens.contains_key(o));
            if pre.owner_tokens.contains_key(o) {
                assert(mid.owner_tokens.spec_get(o) == pre.owner_tokens.spec_get(o));
            }
        }
    }

    // ... and into the recipient's (which is the same list again when
    // an owner transfers to themself).
    let mut new_list: Vec<String> = match store.owner_tokens.get(&recipient) {
        Some(l) => clone_string_vec(l),
        None => Vec::new(),
    };
    let ghost recipient_before: Seq<Seq<char>> = mid.tokens_of(recipient@);
    proof {
        assert(new_list@.map(|i: int, s: String| s@) =~= recipient_before);
    }
    new_list.push(token_id.clone());
    proof {
        assert(new_list@.map(|i: int, s: String| s@) =~= recipient_before.push(token_id@));
    }
    store.owner_tokens.set(recipient.clone(), new_list);
    proof {
        assert forall|o: Seq<char>| o != recipient@ implies #[trigger] store.tokens_of(o)
            == mid.tokens_of(o) by {
            assert(store.owner_tokens.contains_key(o) == mid.owner_tokens.contains_key(o));
            if mid.owner_tokens.contains_key(o) {
                assert(store.owner_tokens.spec_get(o) == mid.owner_tokens.spec_get(o));
            }
        }
    }

    // Rewrite the token itself.
    let mut updated = store.tokens.value_at(idx).duplicate();
    updated.owner = recipient.clone();
    updated.approved = None;
    store.tokens.set_at(idx, updated);

    let mut attributes: Vec<(String, String)> = Vec::new();
    attributes.push(attr("action", String::from_str("transfer")));
    attributes.push(attr("token_id", token_id));
    attributes.push(attr("from", sender));
    attributes.push(attr("to", recipient));
    let resp = Response { attributes };
    proof {
        assert(resp.attributes@.map(|i: int, a: (String, String)| (a.0@, a.1@)) =~= seq![
            ("action"@, "transfer"@),
            ("token_id"@, attributes@[1].1@),
            ("from"@, attributes@[2].1@),
            ("to"@, attributes@[3].1@),
        ]);
    }
    Ok(resp)
}

/// What a position rewrite does: replace the token's position list;
/// ownership-gated, everything else untouched.
pub open spec fn positions_updated(
    pre: TokenLedger,
    post: TokenLedger,
    sender: Seq<char>,
    token_id: Seq<char>,
    position_updates: Seq<LiquidityPosition>,
    out: Result<Seq<(Seq<char>, Seq<char>)>, ContractError>,
) -> bool {
    if !pre.has_token(token_id) {
        &&& post == pre
        &&& out == Err::<Seq<(Seq<char>, Seq<char>)>, ContractError>(ContractError::TokenNotFound)
    } else if pre.token_of(token_id).owner != sender {
        &&& post == pre
        &&& out == Err::<Seq<(Seq<char>, Seq<char>)>, ContractError>(ContractError::Unauthorized)
    } else {
        &&& post.config == pre.config
        &&& post.total_supply == pre.total_supply
        &&& post.owner_tokens == pre.owner_tokens
        &&& post.has_token(token_id)
        &&& post.token_of(token_id) == TokenInfoV {
            owner: pre.token_of(token_id).owner,
            positions: position_updates,
            approved: pre.token_of(token_id).approved,
            token_uri: pre.token_of(token_id).token_uri,
        }
        &&& forall|t: Seq<char>|
            t != token_id ==> #[trigger] post.has_token(t) == pre.has_token(t)
        &&& forall|t: Seq<char>|
            t != token_id && pre.has_token(t) ==> #[trigger] post.token_of(t) == pre.token_of(t)
        &&& out == Ok::<Seq<(Seq<char>, Seq<char>)>, ContractError>(
            seq![("action"@, "update_position"@), ("token_id"@, token_id)],
        )
    }
}

/// Replace the position list a token carries; ownership-gated.
pub fn execute_update_position(
    store: &mut TokenLedger,
    sender: String,
    token_id: String,
    position_updates: Vec<LiquidityPosition>,
) -> (r: Result<Response, ContractError>)
    requires
        old(store).wf(),
    ensures
        final(store).wf(),
        positions_updated(
            *old(store),
            *final(store),
            sender@,
            token_id@,
            position_updates@,
            spec_result(r),
        ),
{
    let idx = match store.tokens.index_of(&token_id) {
        Some(i) => i,
        None => {
            return Err(ContractError::TokenNotFound);
        },
    };
    proof {
        store.tokens.lemma_entry_is_get(idx as int);
    }
    let token = store.tokens.value_at(idx);
    if token.owner != sender {
        return Err(ContractError::Unauthorized);
    }
    let mut updated = token.duplicate();
    updated.positions = position_updates;
    store.tokens.set_at(idx, updated);

    let mut attributes: Vec<(String, String)> = Vec::new();
    attributes.push(attr("action", String::from_str("update_position")));
    attributes.push(attr("token_id", token_id));
    let resp = Response { attributes };
    proof {
        assert(resp.attributes@.map(|i: int, a: (String, String)| (a.0@, a.1@)) =~= seq![
            ("action"@, "update_position"@),
            ("token_id"@, attributes@[1].1@),
        ]);
    }
    Ok(resp)
}

/// What an approval does: record the spender on the token;
/// ownership-gated, everything else untouched.
pub open spec fn approve_applied(
    pre: TokenLedger,
    post: TokenLedger,
    sender: Seq<char>,
    spender: Seq<char>,
    token_id: Seq<char>,
    out: Result<Seq<(Seq<char>, Seq<char>)>, ContractError>,
) -> bool {
    if !pre.has_token(token_id) {
        &&& post == pre
        &&& out == Err::<Seq<(Seq<char>, Seq<char>)>, ContractError>(ContractError::TokenNotFound)
    } else if pre.token_of(token_id).owner != sender {
        &&& post == pre
        &&& out == Err::<Seq<(Seq<char>, Seq<char>)>, ContractError>(ContractError::Unauthorized)
    } else {
        &&& post.config == pre.config
        &&& post.total_supply == pre.total_supply
        &&& post.owner_tokens == pre.owner_tokens
        &&& post.has_token(token_id)
        &&& post.token_of(token_id) == TokenInfoV {
            owner: pre.token_of(token_id).owner,
            positions: pre.token_of(token_id).positions,
            approved: Some(spender),
            token_uri: pre.token_of(token_id).token_uri,
        }
        &&& forall|t: Seq<char>|
            t != token_id ==> #[trigger] post.has_token(t) == pre.has_token(t)
        &&& forall|t: Seq<char>|
            t != token_id && pre.has_token(t) ==> #[trigger] post.token_of(t) == pre.token_of(t)
        &&& out == Ok::<Seq<(Seq<char>, Seq<char>)>, ContractError>(
            seq![("action"@, "approve"@), ("token_id"@, token_id), ("spender"@, spender)],
        )
    }
}

/// Record an approved spender on a token; ownership-gated.
pub fn execute_approve(
    store: &mut TokenLedger,
    sender: String,
    spender: String,
    token_id: String,
) -> (r: Result<Response, ContractError>)
    requires
        old(store).wf(),
    ensures
        final(store).wf(),
        approve_applied(
            *old(store),
            *final(store),
            sender@,
            spender@,
            token_id@,
            spec_result(r),
        ),
{
    let idx = match store.tokens.index_of(&token_id) {
        Some(i) => i,
        None => {
            return Err(ContractError::TokenNotFound);
        },
    };
    proof {
        store.tokens.lemma_entry_is_get(idx as int);
    }
    let token = store.tokens.value_at(idx);
    if token.owner != sender {
        return Err(ContractError::Unauthorized);
    }
    let mut updated = token.duplicate();
    updated.approved = Some(spender.clone());
    store.tokens.set_at(idx, updated);

    let mut attributes: Vec<(String, String)> = Vec::new();
    attributes.push(attr("action", String::from_str("approve")));
    attributes.push(attr("token_id", token_id));
    attributes.push(attr("spender", spender));
    let resp = Response { attributes };
    proof {
        assert(resp.attributes@.map(|i: int, a: (String, String)| (a.0@, a.1@)) =~= seq![
            ("action"@, "approve"@),
            ("token_id"@, attributes@[1].1@),
            ("spender"@, attributes@[2].1@),
        ]);
    }
    Ok(resp)
}

/// What a burn does: delete the token, drop it from its owner's list
/// and decrement the supply counter; ownership-gated.
pub open spec fn burn_applied(
    pre: TokenLedger,
    post: TokenLedger,
    sender: Seq<char>,
    token_id: Seq<char>,
    out: Result<Seq<(Seq<char>, Seq<char>)>, ContractError>,
) -> bool {
    if !pre.has_token(token_id) {
        &&& post == pre
        &&& out == Err::<Seq<(Seq<char>, Seq<char>)>, ContractError>(ContractError::TokenNotFound)
    } else if pre.token_of(token_id).owner != sender {
        &&& post == pre
        &&& out == Err::<Seq<(Seq<char>, Seq<char>)>, ContractError>(ContractError::Unauthorized)
    } else {
        &&& post.config == pre.config
        &&& post.total_supply == pre.total_supply - 1
        &&& !post.has_token(token_id)
        &&& forall|t: Seq<char>|
            t != token_id ==> #[trigger] post.has_token(t) == pre.has_token(t)
        &&& forall|t: Seq<char>|
            t != token_id && pre.has_token(t) ==> #[trigger] post.token_of(t) == pre.token_of(t)
        &&& post.tokens_of(sender) == pre.tokens_of(sender).filter(|x: Seq<char>| x != token_id)
        &&& forall|o: Seq<char>|
            o != sender ==> #[trigger] post.tokens_of(o) == pre.tokens_of(o)
        &&& out == Ok::<Seq<(Seq<char>, Seq<char>)>, ContractError>(
            seq![("action"@, "burn"@), ("token_id"@, token_id)],
        )
    }
}

/// Destroy a token; ownership-gated.
pub fn execute_burn(store: &mut TokenLedger, sender: String, token_id: String) -> (r: Result<
    Response,
    ContractError,
>)
    requires
        old(store).wf(),
    ensures
        final(store).wf(),
        burn_applied(*old(store), *final(store), sender@, token_id@, spec_result(r)),
{
    let idx = match store.tokens.index_of(&token_id) {
        Some(i) => i,
        None => {
            return Err(ContractError::TokenNotFound);
        },
    };
    proof {
        store.tokens.lemma_entry_is_get(idx as int);
    }
    let token = store.tokens.value_at(idx);
    if token.owner != sender {
        return Err(ContractError::Unauthorized);
    }

    let ghost pre = *old(store);
    store.tokens.remove_at(idx);
    store.total_supply = store.total_supply - 1;

    let old_list: Vec<String> = match store.owner_tokens.get(&sender) {
        Some(l) => clone_string_vec(l),
        None => Vec::new(),
    };
    proof {
        assert(old_list@.map(|i: int, s: String| s@) =~= pre.tokens_of(sender@));
    }
    let filtered = remove_matching(&old_list, &token_id);
    store.owner_tokens.set(sender.clone(), filtered);
    proof {
        assert forall|o: Seq<char>| o != sender@ implies #[trigger] store.tokens_of(o)
            == pre.tokens_of(o) by {
            assert(store.owner_tokens.contains_key(o) == pre.owner_tokens.contains_key(o));
            if pre.owner_tokens.contains_key(o) {
                assert(store.owner_tokens.spec_get(o) == pre.owner_tokens.spec_get(o));
            }
        }
    }

    let mut attributes: Vec<(String, String)> = Vec::new();
    attributes.push(attr("action", String::from_str("burn")));
    attributes.push(attr("token_id", token_id));
    let resp = Response { attributes };
    proof {
        assert(resp.attributes@.map(|i: int, a: (String, String)| (a.0@, a.1@)) =~= seq![
            ("action"@, "burn"@),
            ("token_id"@, attributes@[1].1@),
        ]);
    }
    Ok(resp)
}

/// Dispatch a command to its handler.
pub fn execute(store: &mut TokenLedger, sender: String, msg: ExecuteMsg) -> (r: Result<
    Response,
    ContractError,
>)
    requires
        old(store).wf(),
    ensures
        final(store).wf(),
        msg matches ExecuteMsg::Mint { positions, token_uri } ==> mint_applied(
            *old(store),
            *final(store),
            sender@,
            positions@,
            match token_uri {
                Some(ref s) => Some(s@),
                None => None,
            },
            spec_result(r),
        ),
        msg matches ExecuteMsg::Transfer { recipient, token_id } ==> transfer_applied(
            *old(store),
            *final(store),
            sender@,
            recipient@,
            token_id@,
            spec_result(r),
        ),
        msg matches ExecuteMsg::Approve { spender, token_id } ==> approve_applied(
            *old(store),
            *final(store),
            sender@,
            spender@,
            token_id@,
            spec_result(r),
        ),
        msg matches ExecuteMsg::Burn { token_id } ==> burn_applied(
            *old(store),
            *final(store),
            sender@,
            token_id@,
            spec_result(r),
        ),
        msg matches ExecuteMsg::UpdateLiquidityPosition { token_id, position_updates }
            ==> positions_updated(
            *old(store),
            *final(store),
            sender@,
            token_id@,
            position_updates@,
            spec_result(r),
        ),
{
    match msg {
        ExecuteMsg::Mint { positions, token_uri } => {
            execute_mint(store, sender, positions, token_uri)
        },
        ExecuteMsg::Transfer { recipient, token_id } => {
            execute_transfer(store, sender, recipient, token_id)
        },
        ExecuteMsg::Approve { spender, token_id } => {
            execute_approve(store, sender, spender, token_id)
        },
        ExecuteMsg::Burn { token_id } => execute_burn(store, sender, token_id),
        ExecuteMsg::UpdateLiquidityPosition { token_id, position_updates } => {
            execute_update_position(store, sender, token_id, position_updates)
        },
    }
}

/// The stored token under an identifier.
pub fn query_token(store: &TokenLedger, token_id: &String) -> (r: Result<TokenInfo, ContractError>)
    requires
        store.wf(),
    ensures
        match r {
            Ok(t) => store.has_token(token_id@) && t@ == store.token_of(token_id@),
            Err(e) => !store.has_token(token_id@) && e == ContractError::TokenNotFound,
        },
{
    match store.tokens.get(token_id) {
        Some(t) => Ok(t.duplicate()),
        None => Err(ContractError::TokenNotFound),
    }
}

/// The identifiers owned by `owner`, oldest first.
pub fn query_tokens_by_owner(store: &TokenLedger, owner: &String) -> (r: Vec<String>)
    requires
        store.wf(),
    ensures
        r@.map(|i: int, s: String| s@) == store.tokens_of(owner@),
{
    match store.owner_tokens.get(owner) {
        Some(l) => clone_string_vec(l),
        None => {
            let r: Vec<String> = Vec::new();
            proof {
                assert(r@.map(|i: int, s: String| s@) =~= Seq::<Seq<char>>::empty());
            }
            r
        },
    }
}

/// Answer a read-only query from the ledger.
pub fn query(store: &TokenLedger, msg: QueryMsg) -> (r: Result<QueryAnswer, ContractError>)
    requires
        store.wf(),
    ensures
        msg matches QueryMsg::GetToken { token_id } ==> match r {
            Ok(a) => a matches QueryAnswer::Token(t) && store.has_token(token_id@) && t@
                == store.token_of(token_id@),
            Err(e) => !store.has_token(token_id@) && e == ContractError::TokenNotFound,
        },
        msg matches QueryMsg::GetTokensByOwner { owner } ==> r matches Ok(a) && (a matches
            QueryAnswer::TokensByOwner(v) && v@.map(|i: int, s: String| s@) == store.tokens_of(
            owner@,
        )),
        msg matches QueryMsg::Config {  } ==> match r {
            Ok(a) => a matches QueryAnswer::Config(c) && store.config == Some(c),
            Err(e) => store.config is None && e == ContractError::InvalidEuclidRouter,
        },
        msg matches QueryMsg::TotalSupply {  } ==> r matches Ok(a) && (a matches
            QueryAnswer::TotalSupply(n) && n == store.total_supply),
{
    match msg {
        QueryMsg::GetToken { token_id } => {
            let t = query_token(store, &token_id)?;
            Ok(QueryAnswer::Token(t))
        },
        QueryMsg::GetTokensByOwner { owner } => {
            Ok(QueryAnswer::TokensByOwner(query_tokens_by_owner(store, &owner)))
        },
        QueryMsg::Config {  } => {
            match &store.config {
                Some(c) => Ok(QueryAnswer::Config(c.duplicate())),
                None => Err(ContractError::InvalidEuclidRouter),
            }
        },
        QueryMsg::TotalSupply {  } => Ok(QueryAnswer::TotalSupply(store.total_supply)),
    }
}

} // verus!
