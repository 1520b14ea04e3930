//! Marketplace laws: consequences of the operation contracts, stated and
//! proved once for every state and every input.

use vstd::prelude::*;

use crate::addr::spec_lister_key;
use crate::errors::MarketError;
use crate::market::{
    counters_or_new, delist_transition, execute_transition, list_transition, listing_record,
    Market, MAKER_FEE, TAKER_FEE,
};
use crate::state::ListInput;

verus! {

/// After a successful List, both index records exist, hold identical
/// contents, and the escrow account holds exactly the offered amount
/// under the recorded authority salt.
pub proof fn lemma_list_creates_dual_records(
    pre: Market,
    post: Market,
    lister: u64,
    mint: u64,
    input: ListInput,
    now: i64,
    bump: u8,
)
    requires
        list_transition(pre, post, lister, mint, input, now, bump),
    ensures
        post.listings().contains_key(mint),
        post.listings_by_lister().contains_key(spec_lister_key(lister, input.lister_index)),
        post.listings()[mint] == post.listings_by_lister()[spec_lister_key(
            lister,
            input.lister_index,
        )],
        post.listings()[mint] == listing_record(lister, mint, input, now, bump),
        post.escrow_ledger().contains_key(mint),
        post.escrow_ledger()[mint].amount == input.amount_to_sell,
        post.escrow_ledger()[mint].authority_bump == bump,
{
}

/// After a successful Execute, both index records and the escrow account
/// are gone, the buyer's holding grew by the escrowed amount, the
/// lister's counters grew by exactly one sale of the price, and the
/// buyer's counters by exactly one purchase of the price.
pub proof fn lemma_execute_settles(
    pre: Market,
    post: Market,
    buyer: u64,
    mint: u64,
    lister: u64,
    lister_idx: u8,
)
    requires
        pre.wf(),
        pre.execute_outcome(buyer, mint, lister, lister_idx, pre.fee_account_id()) is Ok,
        pre.execute_counters_fit(buyer, mint),
        execute_transition(pre, post, buyer, mint, lister, lister_idx),
    ensures
        !post.listings().contains_key(mint),
        !post.listings_by_lister().contains_key(spec_lister_key(lister, lister_idx)),
        !post.escrow_ledger().contains_key(mint),
        post.asset_bal(buyer, mint) == pre.asset_bal(buyer, mint)
            + pre.listings()[mint].amount_to_sell,
        post.counters()[pre.listings()[mint].lister].sold_count == counters_or_new(
            pre.counters(),
            pre.listings()[mint].lister,
        ).sold_count + 1,
        post.counters()[pre.listings()[mint].lister].total_amount_sold == counters_or_new(
            pre.counters(),
            pre.listings()[mint].lister,
        ).total_amount_sold + pre.listings()[mint].price_in_lamports,
        post.counters()[buyer].purchase_count == counters_or_new(
            pre.counters(),
            buyer,
        ).purchase_count + 1,
        post.counters()[buyer].total_amount_bought == counters_or_new(
            pre.counters(),
            buyer,
        ).total_amount_bought + pre.listings()[mint].price_in_lamports,
{
}

/// The monetary legs of a successful Execute, for distinct parties: the
/// price, the net taker fee and the maker-fee refund together leave the
/// buyer's balance; the lister receives the price plus the maker-fee
/// refund; the protocol fee account receives the net taker fee.
pub proof fn lemma_execute_money_flow(
    pre: Market,
    post: Market,
    buyer: u64,
    mint: u64,
    lister: u64,
    lister_idx: u8,
)
    requires
        pre.wf(),
        pre.execute_outcome(buyer, mint, lister, lister_idx, pre.fee_account_id()) is Ok,
        execute_transition(pre, post, buyer, mint, lister, lister_idx),
        buyer != pre.listings()[mint].lister,
        buyer != pre.fee_account_id(),
        pre.listings()[mint].lister != pre.fee_account_id(),
    ensures
        post.lamport_bal(buyer) == pre.lamport_bal(buyer) - pre.listings()[mint].price_in_lamports
            - TAKER_FEE,
        post.lamport_bal(pre.listings()[mint].lister) == pre.lamport_bal(
            pre.listings()[mint].lister,
        ) + pre.listings()[mint].price_in_lamports + MAKER_FEE,
        post.lamport_bal(pre.fee_account_id()) == pre.lamport_bal(pre.fee_account_id()) + (
        TAKER_FEE - MAKER_FEE),
{
}

/// After a successful Delist, both index records and the escrow account
/// are gone, the lister's holding grew back by the escrowed amount, the
/// lister's open-listing count shrank by one — and no monetary balance
/// moved: the maker fee is not refunded on this path.
pub proof fn lemma_delist_settles(
    pre: Market,
    post: Market,
    caller: u64,
    mint: u64,
    lister_idx: u8,
)
    requires
        pre.wf(),
        pre.delist_outcome(caller, mint, lister_idx) is Ok,
        delist_transition(pre, post, caller, mint, lister_idx),
        counters_or_new(pre.counters(), caller).listing_count >= 1,
    ensures
        !post.listings().contains_key(mint),
        !post.listings_by_lister().contains_key(spec_lister_key(caller, lister_idx)),
        !post.escrow_ledger().contains_key(mint),
        post.asset_bal(caller, mint) == pre.asset_bal(caller, mint)
            + pre.listings()[mint].amount_to_sell,
        post.counters()[caller].listing_count == counters_or_new(
            pre.counters(),
            caller,
        ).listing_count - 1,
        post.lamport_ledger() == pre.lamport_ledger(),
{
}

/// Once a listing is gone — as it is after any successful Execute or
/// Delist — every further Execute or Delist for the same mint is
/// rejected with "listing not found", whatever its other arguments.
pub proof fn lemma_settled_listing_excluded(
    post: Market,
    mint: u64,
    buyer: u64,
    lister: u64,
    lister_idx: u8,
    protocol_fee_account: u64,
    caller: u64,
    caller_idx: u8,
)
    requires
        !post.listings().contains_key(mint),
    ensures
        post.execute_outcome(buyer, mint, lister, lister_idx, protocol_fee_account) == Err::<
            (),
            MarketError,
        >(MarketError::ListingNotFound),
        post.delist_outcome(caller, mint, caller_idx) == Err::<(), MarketError>(
            MarketError::ListingNotFound,
        ),
{
}

/// A successful List touches no other listing's records: every other
/// mint's records, escrow account, and every other actor's counters are
/// exactly as before.
pub proof fn lemma_list_isolation(
    pre: Market,
    post: Market,
    lister: u64,
    mint: u64,
    input: ListInput,
    now: i64,
    bump: u8,
    other_mint: u64,
    other_key: u128,
    other_actor: u64,
)
    requires
        pre.wf(),
        list_transition(pre, post, lister, mint, input, now, bump),
        other_mint != mint,
        other_key != spec_lister_key(lister, input.lister_index),
        other_actor != lister,
    ensures
        post.listings().contains_key(other_mint) == pre.listings().contains_key(other_mint),
        pre.listings().contains_key(other_mint) ==> post.listings()[other_mint]
            == pre.listings()[other_mint],
        post.listings_by_lister().contains_key(other_key) == pre.listings_by_lister().contains_key(
            other_key,
        ),
        pre.listings_by_lister().contains_key(other_key) ==> post.listings_by_lister()[other_key]
            == pre.listings_by_lister()[other_key],
        post.escrow_ledger().contains_key(other_mint) == pre.escrow_ledger().contains_key(
            other_mint,
        ),
        pre.escrow_ledger().contains_key(other_mint) ==> post.escrow_ledger()[other_mint]
            == pre.escrow_ledger()[other_mint],
        post.counters().contains_key(other_actor) == pre.counters().contains_key(other_actor),
        pre.counters().contains_key(other_actor) ==> post.counters()[other_actor]
            == pre.counters()[other_actor],
{
}

/// A successful Execute touches no other listing's records: every other
/// mint's records and escrow account, and the counters of every actor
/// other than the two parties, are exactly as before.
pub proof fn lemma_execute_isolation(
    pre: Market,
    post: Market,
    buyer: u64,
    mint: u64,
    lister: u64,
    lister_idx: u8,
    other_mint: u64,
    other_actor: u64,
)
    requires
        pre.wf(),
        pre.execute_outcome(buyer, mint, lister, lister_idx, pre.fee_account_id()) is Ok,
        execute_transition(pre, post, buyer, mint, lister, lister_idx),
        other_mint != mint,
        other_actor != pre.listings()[mint].lister,
        other_actor != buyer,
    ensures
        post.listings().contains_key(other_mint) == pre.listings().contains_key(other_mint),
        pre.listings().contains_key(other_mint) ==> post.listings()[other_mint]
            == pre.listings()[other_mint],
        pre.listings().contains_key(other_mint) ==> post.listings_by_lister().contains_key(
            spec_lister_key(
                pre.listings()[other_mint].lister,
                pre.listings()[other_mint].lister_index,
            ),
        ),
        pre.listings().contains_key(other_mint) ==> post.listings_by_lister()[spec_lister_key(
            pre.listings()[other_mint].lister,
            pre.listings()[other_mint].lister_index,
        )] == pre.listings()[other_mint],
        post.escrow_ledger().contains_key(other_mint) == pre.escrow_ledger().contains_key(
            other_mint,
        ),
        pre.escrow_ledger().contains_key(other_mint) ==> post.escrow_ledger()[other_mint]
            == pre.escrow_ledger()[other_mint],
        post.counters().contains_key(other_actor) == pre.counters().contains_key(other_actor),
        pre.counters().contains_key(other_actor) ==> post.counters()[other_actor]
            == pre.counters()[other_actor],
{
    let k = spec_lister_key(lister, lister_idx);
    if pre.listings().contains_key(other_mint) {
        let orec = pre.listings()[other_mint];
        let ok = spec_lister_key(orec.lister, orec.lister_index);
        if ok == k {
            assert(pre.listings_by_lister().contains_key(ok));
            assert(pre.listings_by_lister()[ok] == orec);
            assert(pre.listings_by_lister()[k].mint == mint);
            assert(false);
        }
    }
}

/// A successful Delist touches no other listing's records: every other
/// mint's records and escrow account, and the counters of every actor
/// other than the caller, are exactly as before.
pub proof fn lemma_delist_isolation(
    pre: Market,
    post: Market,
    caller: u64,
    mint: u64,
    lister_idx: u8,
    other_mint: u64,
    other_actor: u64,
)
    requires
        pre.wf(),
        pre.delist_outcome(caller, mint, lister_idx) is Ok,
        delist_transition(pre, post, caller, mint, lister_idx),
        other_mint != mint,
        other_actor != caller,
    ensures
        post.listings().contains_key(other_mint) == pre.listings().contains_key(other_mint),
        pre.listings().contains_key(other_mint) ==> post.listings()[other_mint]
            == pre.listings()[other_mint],
        pre.listings().contains_key(other_mint) ==> post.listings_by_lister().contains_key(
            spec_lister_key(
                pre.listings()[other_mint].lister,
                pre.listings()[other_mint].lister_index,
            ),
        ),
        pre.listings().contains_key(other_mint) ==> post.listings_by_lister()[spec_lister_key(
            pre.listings()[other_mint].lister,
            pre.listings()[other_mint].lister_index,
        )] == pre.listings()[other_mint],
        post.escrow_ledger().contains_key(other_mint) == pre.escrow_ledger().contains_key(
            other_mint,
        ),
        pre.escrow_ledger().contains_key(other_mint) ==> post.escrow_ledger()[other_mint]
            == pre.escrow_ledger()[other_mint],
        post.counters().contains_key(other_actor) == pre.counters().contains_key(other_actor),
        pre.counters().contains_key(other_actor) ==> post.counters()[other_actor]
            == pre.counters()[other_actor],
        post.lamport_ledger() == pre.lamport_ledger(),
{
    let k = spec_lister_key(caller, lister_idx);
    if pre.listings().contains_key(other_mint) {
        let orec = pre.listings()[other_mint];
        let ok = spec_lister_key(orec.lister, orec.lister_index);
        if ok == k {
            assert(pre.listings_by_lister().contains_key(ok));
            assert(pre.listings_by_lister()[ok] == orec);
            assert(pre.listings_by_lister()[k].mint == mint);
            assert(false);
        }
    }
}

} // verus!
