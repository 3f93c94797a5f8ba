//! Entry points of the marketplace.

use vstd::prelude::*;

use vstd::arithmetic::div_mod::{
    lemma_div_is_ordered, lemma_div_multiples_vanish, lemma_hoist_over_denominator,
};
use vstd::arithmetic::mul::lemma_mul_inequality;

use crate::numfmt::{dec_of, u128_to_dec, u64_to_dec};
use crate::store::{clone_string_vec, remove_matching};
use super::error::ContractError;
use super::msg::{
    Coin, ExecuteMsg, InstantiateMsg, MarketMsg, MarketMsgV, QueryAnswer, QueryMsg, Response,
    ResponseV,
};
use super::state::{Config, ListingInfo, MarketStore};

verus! {

/// The market's payment denomination.
pub const PAYMENT_DENOM: &'static str = "uarch";

/// A command result, viewed.
pub open spec fn spec_result(r: Result<Response, ContractError>) -> Result<ResponseV, ContractError> {
    match r {
        Ok(resp) => Ok(resp@),
        Err(e) => Err(e),
    }
}

fn attr(k: &'static str, v: String) -> (r: (String, String))
    ensures
        r.0@ == k@,
        r.1 == v,
{
    (String::from_str(k), v)
}

/// The fee taken on `price` at `fee_bps` basis points, rounded down.
pub open spec fn spec_fee(price: u128, fee_bps: u64) -> int {
    (price * fee_bps) / 10000
}

/// Compute the basis-point fee without overflowing the amount width.
pub fn compute_fee(price: u128, fee_bps: u64) -> (r: u128)
    requires
        fee_bps <= 10000,
    ensures
        r as int == spec_fee(price, fee_bps),
        r <= price,
{
    let q: u128 = price / 10000;
    let rem: u128 = price % 10000;
    let fee: u128 = fee_bps as u128;
    proof {
        lemma_mul_inequality(fee as int, 10000, q as int);
        assert(q * fee == fee * q) by (nonlinear_arith);
        assert(q * 10000 + rem == price);
        assert(rem * fee < 10000 * 10000) by (nonlinear_arith)
            requires
                rem < 10000,
                fee <= 10000,
        ;
    }
    let part1: u128 = q * fee;
    let part2: u128 = (rem * fee) / 10000;
    proof {
        // (rem * fee) / 10000 <= rem, since rem * fee <= rem * 10000.
        lemma_mul_inequality(fee as int, 10000, rem as int);
        assert(rem * fee == fee * rem && rem * 10000 == 10000 * rem) by (nonlinear_arith);
        lemma_div_is_ordered(rem * fee, rem * 10000, 10000);
        lemma_div_multiples_vanish(rem as int, 10000);
        assert(part2 <= rem);
        // part1 + part2 is exactly (price * fee) / 10000.
        lemma_hoist_over_denominator(rem * fee, part1 as int, 10000);
        assert(rem * fee + part1 * 10000 == price * fee) by (nonlinear_arith)
            requires
                part1 == q * fee,
                price == q * 10000 + rem,
        ;
    }
    part1 + part2
}

/// The amount of the first attached coin in the market's
/// denomination, if any.
pub open spec fn spec_payment(funds: Seq<Coin>) -> Option<u128>
    decreases funds.len(),
{
    if funds.len() == 0 {
        None
    } else if funds[0].denom@ == PAYMENT_DENOM@ {
        Some(funds[0].amount)
    } else {
        spec_payment(funds.drop_first())
    }
}

fn find_payment(funds: &Vec<Coin>) -> (r: Option<u128>)
    ensures
        r == spec_payment(funds@),
{
    let denom = String::from_str(PAYMENT_DENOM);
    let ghost all = funds@;
    let mut i: usize = 0;
    proof {
        assert(all.subrange(0, all.len() as int) =~= all);
    }
    while i < funds.len()
        invariant
            i <= all.len(),
            all == funds@,
            denom@ == PAYMENT_DENOM@,
            spec_payment(all) == spec_payment(all.subrange(i as int, all.len() as int)),
        decreases all.len() - i,
    {
        proof {
            assert(all.subrange(i as int, all.len() as int)[0] == all[i as int]);
        }
        if funds[i].denom == denom {
            return Some(funds[i].amount);
        }
        proof {
            assert(all.subrange(i as int, all.len() as int).drop_first() =~= all.subrange(
                i + 1,
                all.len() as int,
            ));
        }
        i = i + 1;
    }
    None
}

/// Store the marketplace configuration; a fee beyond 10000 basis
/// points is rejected with the store untouched.
pub fn instantiate(store: &mut MarketStore, sender: String, msg: InstantiateMsg) -> (r: Result<
    Response,
    ContractError,
>)
    requires
        old(store).wf(),
    ensures
        final(store).wf(),
        msg.fee_percentage > 10000 ==> *final(store) == *old(store) && r == Err::<
            Response,
            ContractError,
        >(ContractError::InvalidFeePercentage),
        msg.fee_percentage <= 10000 ==> {
            &&& final(store).config == Some(
                Config {
                    admin: sender,
                    ul_nft_contract: msg.ul_nft_contract,
                    fee_percentage: msg.fee_percentage,
                },
            )
            &&& final(store).listings == old(store).listings
            &&& final(store).seller_listings == old(store).seller_listings
            &&& spec_result(r) == Ok::<ResponseV, ContractError>(
                ResponseV {
                    messages: Seq::empty(),
                    attributes: seq![
                        ("method"@, "instantiate"@),
                        ("admin"@, sender@),
                        ("ul_nft_contract"@, msg.ul_nft_contract@),
                        ("fee_percentage"@, dec_of(msg.fee_percentage as nat)),
                    ],
                },
            )
        },
{
    if msg.fee_percentage > 10000 {
        return Err(ContractError::InvalidFeePercentage);
    }
    let config = Config {
        admin: sender.clone(),
        ul_nft_contract: msg.ul_nft_contract.clone(),
        fee_percentage: msg.fee_percentage,
    };
    store.config = Some(config);

    let mut attributes: Vec<(String, String)> = Vec::new();
    attributes.push(attr("method", String::from_str("instantiate")));
    attributes.push(attr("admin", sender));
    attributes.push(attr("ul_nft_contract", msg.ul_nft_contract));
    attributes.push(attr("fee_percentage", u64_to_dec(msg.fee_percentage)));
    let resp = Response { messages: Vec::new(), attributes };
    proof {
        assert(resp@.messages =~= Seq::<MarketMsgV>::empty());
        assert(resp@.attributes =~= seq![
            ("method"@, "instantiate"@),
            ("admin"@, attributes@[1].1@),
            ("ul_nft_contract"@, attributes@[2].1@),
            ("fee_percentage"@, dec_of(msg.fee_percentage as nat)),
        ]);
    }
    Ok(resp)
}

/// What a listing does: record the listing under the token and append
/// the token to the seller's index.
pub open spec fn list_applied(
    pre: MarketStore,
    post: MarketStore,
    time: u64,
    sender: Seq<char>,
    token_id: Seq<char>,
    price: u128,
    out: Result<ResponseV, ContractError>,
) -> bool {
    if price == 0 {
        &&& post == pre
        &&& out == Err::<ResponseV, ContractError>(ContractError::InvalidPrice)
    } else if pre.has_listing(token_id) {
        &&& post == pre
        &&& out == Err::<ResponseV, ContractError>(ContractError::AlreadyListed)
    } else {
        &&& post.config == pre.config
        &&& post.has_listing(token_id)
        &&& post.listing_of(token_id).seller@ == sender
        &&& post.listing_of(token_id).token_id@ == token_id
        &&& post.listing_of(token_id).price == price
        &&& post.listing_of(token_id).listing_time == time
        &&& forall|t: Seq<char>|
            t != token_id ==> #[trigger] post.has_listing(t) == pre.has_listing(t)
        &&& forall|t: Seq<char>|
            t != token_id && pre.has_listing(t) ==> #[trigger] post.listing_of(t)
                == pre.listing_of(t)
        &&& post.listings_of(sender) == pre.listings_of(sender).push(token_id)
        &&& forall|s: Seq<char>|
            s != sender ==> #[trigger] post.listings_of(s) == pre.listings_of(s)
        &&& out == Ok::<ResponseV, ContractError>(
            ResponseV {
                messages: Seq::empty(),
                attributes: seq![
                    ("method"@, "list_nft"@),
                    ("token_id"@, token_id),
                    ("price"@, dec_of(price as nat)),
                    ("seller"@, sender),
                ],
            },
        )
    }
}

/// List a token at a positive price; a token can be listed only once.
pub fn execute_list_nft(
    store: &mut MarketStore,
    time: u64,
    sender: String,
    token_id: String,
    price: u128,
) -> (r: Result<Response, ContractError>)
    requires
        old(store).wf(),
    ensures
        final(store).wf(),
        list_applied(
            *old(store),
            *final(store),
            time,
            sender@,
            token_id@,
            price,
            spec_result(r),
        ),
{
    if price == 0 {
        return Err(ContractError::InvalidPrice);
    }
    if store.listings.has(&token_id) {
        return Err(ContractError::AlreadyListed);
    }
    let ghost pre = *old(store);

    let listing = ListingInfo {
        seller: sender.clone(),
        token_id: token_id.clone(),
        price,
        listing_time: time,
    };
    store.listings.push_entry(token_id.clone(), listing);

    let mut list: Vec<String> = match store.seller_listings.get(&sender) {
        Some(l) => clone_string_vec(l),
        None => Vec::new(),
    };
    let ghost old_list_view = pre.listings_of(sender@);
    proof {
        assert(list@.map(|i: int, s: String| s@) =~= old_list_view);
    }
    list.push(token_id.clone());
    proof {
        assert(list@.map(|i: int, s: String| s@) =~= old_list_view.push(token_id@));
    }
    store.seller_listings.set(sender.clone(), list);
    proof {
        assert forall|s: Seq<char>| s != sender@ implies #[trigger] store.listings_of(s)
            == pre.listings_of(s) by {
            assert(store.seller_listings.contains_key(s) == pre.seller_listings.contains_key(s));
            if pre.seller_listings.contains_key(s) {
                assert(store.seller_listings.spec_get(s) == pre.seller_listings.spec_get(s));
            }
        }
    }

    let mut attributes: Vec<(String, String)> = Vec::new();
    attributes.push(attr("method", String::from_str("list_nft")));
    attributes.push(attr("token_id", token_id));
    attributes.push(attr("price", u128_to_dec(price)));
    attributes.push(attr("seller", sender));
    let resp = Response { messages: Vec::new(), attributes };
    proof {
        assert(resp@.messages =~= Seq::<MarketMsgV>::empty());
        assert(resp@.attributes =~= seq![
            ("method"@, "list_nft"@),
            ("token_id"@, attributes@[1].1@),
            ("price"@, dec_of(price as nat)),
            ("seller"@, attributes@[3].1@),
        ]);
    }
    Ok(resp)
}

/// What a cancellation does: delete the listing and drop the token
/// from the seller's index; seller-gated.
pub open spec fn cancel_applied(
    pre: MarketStore,
    post: MarketStore,
    sender: Seq<char>,
    token_id: Seq<char>,
    out: Result<ResponseV, ContractError>,
) -> bool {
    if !pre.has_listing(token_id) {
        &&& post == pre
        &&& out == Err::<ResponseV, ContractError>(ContractError::NotListed)
    } else if pre.listing_of(token_id).seller@ != sender {
        &&& post == pre
        &&& out == Err::<ResponseV, ContractError>(ContractError::Unauthorized)
    } else {
        &&& post.config == pre.config
        &&& !post.has_listing(token_id)
        &&& forall|t: Seq<char>|
            t != token_id ==> #[trigger] post.has_listing(t) == pre.has_listing(t)
        &&& forall|t: Seq<char>|
            t != token_id && pre.has_listing(t) ==> #[trigger] post.listing_of(t)
                == pre.listing_of(t)
        &&& post.listings_of(sender) == pre.listings_of(sender).filter(
            |x: Seq<char>| x != token_id,
        )
        &&& forall|s: Seq<char>|
            s != sender ==> #[trigger] post.listings_of(s) == pre.listings_of(s)
        &&& out == Ok::<ResponseV, ContractError>(
            ResponseV {
                messages: Seq::empty(),
                attributes: seq![("method"@, "cancel_listing"@), ("token_id"@, token_id)],
            },
        )
    }
}

/// Cancel a listing; only its seller may.
pub fn execute_cancel_listing(store: &mut MarketStore, sender: String, token_id: String) -> (r:
    Result<Response, ContractError>)
    requires
        old(store).wf(),
    ensures
        final(store).wf(),
        cancel_applied(*old(store), *final(store), sender@, token_id@, spec_result(r)),
{
    let idx = match store.listings.index_of(&token_id) {
        Some(i) => i,
        None => {
            return Err(ContractError::NotListed);
        },
    };
    proof {
        store.listings.lemma_entry_is_get(idx as int);
    }
    let listing = store.listings.value_at(idx);
    if listing.seller != sender {
        return Err(ContractError::Unauthorized);
    }

    let ghost pre = *old(store);
    store.listings.remove_at(idx);

    let old_list: Vec<String> = match store.seller_listings.get(&sender) {
        Some(l) => clone_string_vec(l),
        None => Vec::new(),
    };
    proof {
        assert(old_list@.map(|i: int, s: String| s@) =~= pre.listings_of(sender@));
    }
    let filtered = remove_matching(&old_list, &token_id);
    store.seller_listings.set(sender.clone(), filtered);
    proof {
        assert forall|s: Seq<char>| s != sender@ implies #[trigger] store.listings_of(s)
            == pre.listings_of(s) by {
            assert(store.seller_listings.contains_key(s) == pre.seller_listings.contains_key(s));
            if pre.seller_listings.contains_key(s) {
                assert(store.seller_listings.spec_get(s) == pre.seller_listings.spec_get(s));
            }
        }
    }

    let mut attributes: Vec<(String, String)> = Vec::new();
    attributes.push(attr("method", String::from_str("cancel_listing")));
    attributes.push(attr("token_id", token_id));
    let resp = Response { messages: Vec::new(), attributes };
    proof {
        assert(resp@.messages =~= Seq::<MarketMsgV>::empty());
        assert(resp@.attributes =~= seq![
            ("method"@, "cancel_listing"@),
            ("token_id"@, attributes@[1].1@),
        ]);
    }
    Ok(resp)
}

/// The messages a successful purchase emits: the token handoff, the
/// seller's proceeds when positive, the administrator's fee when
/// positive.
pub open spec fn buy_messages(
    nft_contract: Seq<char>,
    buyer: Seq<char>,
    token_id: Seq<char>,
    seller: Seq<char>,
    admin: Seq<char>,
    seller_amount: u128,
    fee_amount: u128,
) -> Seq<MarketMsgV> {
    let transfer = seq![
        MarketMsgV::TransferNft {
            contract_addr: nft_contract,
            recipient: buyer,
            token_id: token_id,
        },
    ];
    let pay_seller: Seq<MarketMsgV> = if seller_amount > 0 {
        seq![
            MarketMsgV::BankSend {
                to_address: seller,
                amount: seller_amount,
                denom: PAYMENT_DENOM@,
            },
        ]
    } else {
        Seq::empty()
    };
    let pay_admin: Seq<MarketMsgV> = if fee_amount > 0 {
        seq![
            MarketMsgV::BankSend { to_address: admin, amount: fee_amount, denom: PAYMENT_DENOM@ },
        ]
    } else {
        Seq::empty()
    };
    transfer + pay_seller + pay_admin
}

/// What a purchase does: against sufficient payment in the market's
/// denomination, delete the listing, hand the token to the buyer, and
/// split the price into the seller's proceeds and the administrator's
/// basis-point fee.
pub open spec fn buy_applied(
    pre: MarketStore,
    post: MarketStore,
    sender: Seq<char>,
    funds: Seq<Coin>,
    token_id: Seq<char>,
    out: Result<ResponseV, ContractError>,
) -> bool {
    if pre.config is None {
        &&& post == pre
        &&& out == Err::<ResponseV, ContractError>(ContractError::ConfigNotSet)
    } else if !pre.has_listing(token_id) {
        &&& post == pre
        &&& out == Err::<ResponseV, ContractError>(ContractError::NotListed)
    } else {
        let cfg = pre.config->Some_0;
        let listing = pre.listing_of(token_id);
        let paid = spec_payment(funds);
        if paid is None || paid->Some_0 < listing.price {
            &&& post == pre
            &&& out == Err::<ResponseV, ContractError>(ContractError::InsufficientFunds)
        } else {
            let fee = spec_fee(listing.price, cfg.fee_percentage) as u128;
            let seller_amount = (listing.price - fee) as u128;
            &&& post.config == pre.config
            &&& !post.has_listing(token_id)
            &&& forall|t: Seq<char>|
                t != token_id ==> #[trigger] post.has_listing(t) == pre.has_listing(t)
            &&& forall|t: Seq<char>|
                t != token_id && pre.has_listing(t) ==> #[trigger] post.listing_of(t)
                    == pre.listing_of(t)
            &&& post.listings_of(listing.seller@) == pre.listings_of(listing.seller@).filter(
                |x: Seq<char>| x != token_id,
            )
            &&& forall|s: Seq<char>|
                s != listing.seller@ ==> #[trigger] post.listings_of(s) == pre.listings_of(s)
            &&& out == Ok::<ResponseV, ContractError>(
                ResponseV {
                    messages: buy_messages(
                        cfg.ul_nft_contract@,
                        sender,
                        token_id,
                        listing.seller@,
                        cfg.admin@,
                        seller_amount,
                        fee,
                    ),
                    attributes: seq![
                        ("method"@, "buy_nft"@),
                        ("token_id"@, token_id),
                        ("buyer"@, sender),
                        ("seller"@, listing.seller@),
                        ("price"@, dec_of(listing.price as nat)),
                        ("fee_amount"@, dec_of(fee as nat)),
                    ],
                },
            )
        }
    }
}

/// Buy a listed token for its asking price.
pub fn execute_buy_nft(
    store: &mut MarketStore,
    sender: String,
    funds: Vec<Coin>,
    token_id: String,
) -> (r: Result<Response, ContractError>)
    requires
        old(store).wf(),
    ensures
        final(store).wf(),
        buy_applied(*old(store), *final(store), sender@, funds@, token_id@, spec_result(r)),
{
    let (admin, nft_contract, fee_bps): (String, String, u64) = match &store.config {
        Some(c) => (c.admin.clone(), c.ul_nft_contract.clone(), c.fee_percentage),
        None => {
            return Err(ContractError::ConfigNotSet);
        },
    };
    let idx = match store.listings.index_of(&token_id) {
        Some(i) => i,
        None => {
            return Err(ContractError::NotListed);
        },
    };
    proof {
        store.listings.lemma_entry_is_get(idx as int);
    }
    let listing = store.listings.value_at(idx).duplicate();

    let paid: u128 = match find_payment(&funds) {
        Some(a) => a,
        None => {
            return Err(ContractError::InsufficientFunds);
        },
    };
    if paid < listing.price {
        return Err(ContractError::InsufficientFunds);
    }

    let fee_amount: u128 = compute_fee(listing.price, fee_bps);
    let seller_amount: u128 = listing.price - fee_amount;

    let ghost pre = *old(store);
    store.listings.remove_at(idx);

    let old_list: Vec<String> = match store.seller_listings.get(&listing.seller) {
        Some(l) => clone_string_vec(l),
        None => Vec::new(),
    };
    proof {
        assert(old_list@.map(|i: int, s: String| s@) =~= pre.listings_of(listing.seller@));
    }
    let filtered = remove_matching(&old_list, &token_id);
    store.seller_listings.set(listing.seller.clone(), filtered);
    proof {
        assert forall|s: Seq<char>| s != listing.seller@ implies #[trigger] store.listings_of(s)
            == pre.listings_of(s) by {
            assert(store.seller_listings.contains_key(s) == pre.seller_listings.contains_key(s));
            if pre.seller_listings.contains_key(s) {
                assert(store.seller_listings.spec_get(s) == pre.seller_listings.spec_get(s));
            }
        }
    }

    let mut messages: Vec<MarketMsg> = Vec::new();
    messages.push(
        MarketMsg::TransferNft {
            contract_addr: nft_contract,
            recipient: sender.clone(),
            token_id: token_id.clone(),
        },
    );
    if seller_amount > 0 {
        messages.push(
            MarketMsg::BankSend {
                to_address: listing.seller.clone(),
                amount: seller_amount,
                denom: String::from_str(PAYMENT_DENOM),
            },
        );
    }
    if fee_amount > 0 {
        messages.push(
            MarketMsg::BankSend {
                to_address: admin,
                amount: fee_amount,
                denom: String::from_str(PAYMENT_DENOM),
            },
        );
    }
    proof {
        assert(messages@.map(|i: int, m: MarketMsg| m@) =~= buy_messages(
            pre.config->Some_0.ul_nft_contract@,
            sender@,
            token_id@,
            listing.seller@,
            pre.config->Some_0.admin@,
            seller_amount,
            fee_amount,
        ));
    }

    let mut attributes: Vec<(String, String)> = Vec::new();
    attributes.push(attr("method", String::from_str("buy_nft")));
    attributes.push(attr("token_id", token_id));
    attributes.push(attr("buyer", sender));
    attributes.push(attr("seller", listing.seller));
    attributes.push(attr("price", u128_to_dec(listing.price)));
    attributes.push(attr("fee_amount", u128_to_dec(fee_amount)));
    let resp = Response { messages, attributes };
    proof {
        assert(resp@.attributes =~= seq![
            ("method"@, "buy_nft"@),
            ("token_id"@, attributes@[1].1@),
            ("buyer"@, attributes@[2].1@),
            ("seller"@, attributes@[3].1@),
            ("price"@, dec_of(listing.price as nat)),
            ("fee_amount"@, dec_of(fee_amount as nat)),
        ]);
    }
    Ok(resp)
}

/// What a fee update does: administrator-gated rewrite of the stored
/// fee, still capped at 10000 basis points.
pub open spec fn fee_updated(
    pre: MarketStore,
    post: MarketStore,
    sender: Seq<char>,
    fee_percentage: u64,
    out: Result<ResponseV, ContractError>,
) -> bool {
    if pre.config is None {
        &&& post == pre
        &&& out == Err::<ResponseV, ContractError>(ContractError::ConfigNotSet)
    } else if pre.config->Some_0.admin@ != sender {
        &&& post == pre
        &&& out == Err::<ResponseV, ContractError>(ContractError::Unauthorized)
    } else if fee_percentage > 10000 {
        &&& post == pre
        &&& out == Err::<ResponseV, ContractError>(ContractError::InvalidFeePercentage)
    } else {
        &&& post.config == Some(
            Config {
                admin: pre.config->Some_0.admin,
                ul_nft_contract: pre.config->Some_0.ul_nft_contract,
                fee_percentage: fee_percentage,
            },
        )
        &&& post.listings == pre.listings
        &&& post.seller_listings == pre.seller_listings
        &&& out == Ok::<ResponseV, ContractError>(
            ResponseV {
                messages: Seq::empty(),
                attributes: seq![
                    ("method"@, "update_fee"@),
                    ("new_fee_percentage"@, dec_of(fee_percentage as nat)),
                ],
            },
        )
    }
}

/// Change the fee; only the administrator may, and only within bounds.
pub fn execute_update_fee(store: &mut MarketStore, sender: String, fee_percentage: u64) -> (r:
    Result<Response, ContractError>)
    requires
        old(store).wf(),
    ensures
        final(store).wf(),
        fee_updated(*old(store), *final(store), sender@, fee_percentage, spec_result(r)),
{
    let config = match &store.config {
        Some(c) => c.duplicate(),
        None => {
            return Err(ContractError::ConfigNotSet);
        },
    };
    if config.admin != sender {
        return Err(ContractError::Unauthorized);
    }
    if fee_percentage > 10000 {
        return Err(ContractError::InvalidFeePercentage);
    }
    store.config = Some(
        Config {
            admin: config.admin,
            ul_nft_contract: config.ul_nft_contract,
            fee_percentage,
        },
    );

    let mut attributes: Vec<(String, String)> = Vec::new();
    attributes.push(attr("method", String::from_str("update_fee")));
    attributes.push(attr("new_fee_percentage", u64_to_dec(fee_percentage)));
    let resp = Response { messages: Vec::new(), attributes };
    proof {
        assert(resp@.messages =~= Seq::<MarketMsgV>::empty());
        assert(resp@.attributes =~= seq![
            ("method"@, "update_fee"@),
            ("new_fee_percentage"@, dec_of(fee_percentage as nat)),
        ]);
    }
    Ok(resp)
}

/// Dispatch a command to its handler.
pub fn execute(
    store: &mut MarketStore,
    time: u64,
    sender: String,
    funds: Vec<Coin>,
    msg: ExecuteMsg,
) -> (r: Result<Response, ContractError>)
    requires
        old(store).wf(),
    ensures
        final(store).wf(),
        msg matches ExecuteMsg::ListNFT { token_id, price } ==> list_applied(
            *old(store),
            *final(store),
            time,
            sender@,
            token_id@,
            price,
            spec_result(r),
        ),
        msg matches ExecuteMsg::CancelListing { token_id } ==> cancel_applied(
            *old(store),
            *final(store),
            sender@,
            token_id@,
            spec_result(r),
        ),
        msg matches ExecuteMsg::BuyNFT { token_id } ==> buy_applied(
            *old(store),
            *final(store),
            sender@,
            funds@,
            token_id@,
            spec_result(r),
        ),
        msg matches ExecuteMsg::UpdateFee { fee_percentage } ==> fee_updated(
            *old(store),
            *final(store),
            sender@,
            fee_percentage,
            spec_result(r),
        ),
{
    match msg {
        ExecuteMsg::ListNFT { token_id, price } => {
            execute_list_nft(store, time, sender, token_id, price)
        },
        ExecuteMsg::CancelListing { token_id } => execute_cancel_listing(store, sender, token_id),
        ExecuteMsg::BuyNFT { token_id } => execute_buy_nft(store, sender, funds, token_id),
        ExecuteMsg::UpdateFee { fee_percentage } => {
            execute_update_fee(store, sender, fee_percentage)
        },
    }
}

/// The stored listing under a token identifier, if any.
pub fn query_listing(store: &MarketStore, token_id: &String) -> (r: Option<ListingInfo>)
    requires
        store.wf(),
    ensures
        match r {
            Some(l) => store.has_listing(token_id@) && l == store.listing_of(token_id@),
            None => !store.has_listing(token_id@),
        },
{
    match store.listings.get(token_id) {
        Some(l) => Some(l.duplicate()),
        None => None,
    }
}

/// Where a paginated scan starts: just after `start_after` when that
/// key is stored, else at the beginning.
pub open spec fn spec_scan_start(store: MarketStore, start_after: Option<Seq<char>>) -> int {
    match start_after {
        Some(k) => if store.listings.contains_key(k) {
            store.listings.spec_index_of(k) + 1
        } else {
            0
        },
        None => 0,
    }
}

/// Up to `limit` listings (30 when unspecified) in storage order,
/// starting just after `start_after` when given and stored.
pub fn query_listings(
    store: &MarketStore,
    start_after: Option<String>,
    limit: Option<u32>,
) -> (r: Vec<ListingInfo>)
    requires
        store.wf(),
    ensures
        ({
            let start = spec_scan_start(
                *store,
                match start_after {
                    Some(ref k) => Some(k@),
                    None => None,
                },
            );
            let lim: int = match limit {
                Some(l) => l as int,
                None => 30,
            };
            let end: int = vstd::math::min(start + lim, store.listings.spec_len() as int);
            r@ == store.listings.entries_seq().subrange(start, end).map(
                |i: int, e: (String, ListingInfo)| e.1,
            )
        }),
{
    let n = store.listings.len();
    let start: usize = match &start_after {
        Some(k) => {
            match store.listings.index_of(k) {
                Some(i) => {
                    proof {
                        store.listings.lemma_entry_is_get(i as int);
                    }
                    i + 1
                },
                None => 0,
            }
        },
        None => 0,
    };
    let lim: usize = match limit {
        Some(l) => l as usize,
        None => 30,
    };
    let end: usize = if start >= n {
        n
    } else if lim < n - start {
        start + lim
    } else {
        n
    };
    let ghost entries = store.listings.entries_seq();
    let mut r: Vec<ListingInfo> = Vec::new();
    let mut i: usize = start;
    proof {
        assert(r@ =~= entries.subrange(start as int, start as int).map(
            |j: int, e: (String, ListingInfo)| e.1,
        ));
    }
    while i < end
        invariant
            start <= i <= end,
            end <= store.listings.spec_len(),
            end == vstd::math::min(start + lim, store.listings.spec_len() as int),
            entries == store.listings.entries_seq(),
            store.wf(),
            r@ == entries.subrange(start as int, i as int).map(
                |j: int, e: (String, ListingInfo)| e.1,
            ),
        decreases end - i,
    {
        r.push(store.listings.value_at(i).duplicate());
        proof {
            assert(r@ =~= entries.subrange(start as int, i + 1 as int).map(
                |j: int, e: (String, ListingInfo)| e.1,
            ));
        }
        i = i + 1;
    }
    r
}

/// The stored configuration.
pub fn query_config(store: &MarketStore) -> (r: Result<Config, ContractError>)
    ensures
        match r {
            Ok(c) => store.config == Some(c),
            Err(e) => store.config is None && e == ContractError::ConfigNotSet,
        },
{
    match &store.config {
        Some(c) => Ok(c.duplicate()),
        None => Err(ContractError::ConfigNotSet),
    }
}

/// Answer a read-only query from the store.
pub fn query(store: &MarketStore, msg: QueryMsg) -> (r: Result<QueryAnswer, ContractError>)
    requires
        store.wf(),
    ensures
        msg matches QueryMsg::GetListing { token_id } ==> r matches Ok(a) && (a matches
            QueryAnswer::Listing(l) && match l {
            Some(x) => store.has_listing(token_id@) && x == store.listing_of(token_id@),
            None => !store.has_listing(token_id@),
        }),
        msg matches QueryMsg::GetConfig {  } ==> match r {
            Ok(a) => a matches QueryAnswer::Config(c) && store.config == Some(c),
            Err(e) => store.config is None && e == ContractError::ConfigNotSet,
        },
        msg matches QueryMsg::GetListings { start_after, limit } ==> r matches Ok(a) && (a matches
            QueryAnswer::Listings(v) && ({
            let start = spec_scan_start(
                *store,
                match start_after {
                    Some(ref k) => Some(k@),
                    None => None,
                },
            );
            let lim: int = match limit {
                Some(l) => l as int,
                None => 30,
            };
            let end: int = vstd::math::min(start + lim, store.listings.spec_len() as int);
            v@ == store.listings.entries_seq().subrange(start, end).map(
                |i: int, e: (String, ListingInfo)| e.1,
            )
        })),
{
    match msg {
        QueryMsg::GetListing { token_id } => {
            Ok(QueryAnswer::Listing(query_listing(store, &token_id)))
        },
        QueryMsg::GetListings { start_after, limit } => {
            Ok(QueryAnswer::Listings(query_listings(store, start_after, limit)))
        },
        QueryMsg::GetConfig {  } => {
            let c = query_config(store)?;
            Ok(QueryAnswer::Config(c))
        },
    }
}

} // verus!
