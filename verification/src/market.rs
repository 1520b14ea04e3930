//! The marketplace state machine.
//!
//! `Market` models the slice of ledger state that the marketplace touches:
//! the two synchronized listing index records per listing, the per-actor
//! activity counters, the monetary (lamport) balances, the per-actor asset
//! holdings, and the escrow accounts owned by derived authorities.  The
//! three operations — `list_v1`, `execute_v1`, `delist_v1` — are each
//! all-or-nothing: on an error nothing observable changes.

use vstd::prelude::*;
use std::collections::HashMap;

use crate::addr::{AuthoritySeeds, RecordAddr, lister_key, spec_lister_key};
use crate::errors::MarketError;
use crate::state::{ActivityCounters, ListInput, ListingIndex};

verus! {

broadcast use vstd::std_specs::hash::group_hash_axioms;

/// Fixed fee paid by the seller when a listing is created.  It is refunded
/// to the seller, out of the buyer's payment, when the listing sells.
pub const MAKER_FEE: u64 = 2_000_000;

/// Fixed fee paid by the buyer when a listing sells.  The protocol keeps
/// the part above the maker fee; the maker-fee part goes to the seller.
pub const TAKER_FEE: u64 = 5_000_000;

/// An escrow account: the custody account holding the asset of one live
/// listing.  It is owned by the derived mint-index authority, recorded
/// here as the salt with which that authority was derived.
#[derive(Clone, Copy, PartialEq, Eq, Structural, Debug)]
pub struct EscrowAccount {
    /// Asset units held in custody.
    pub amount: u64,
    /// Salt with which the owning authority address was derived.
    pub authority_bump: u8,
}

/// A notification emitted by a successful operation.  The identifier is
/// always the mint index record's address.
#[derive(Clone, Copy, PartialEq, Eq, Structural, Debug)]
pub struct ListedEvent {
    pub id: RecordAddr,
}

/// Emitted by a successful Execute.
#[derive(Clone, Copy, PartialEq, Eq, Structural, Debug)]
pub struct ExecuteEvent {
    pub id: RecordAddr,
}

/// Emitted by a successful Delist.
#[derive(Clone, Copy, PartialEq, Eq, Structural, Debug)]
pub struct DelistEvent {
    pub id: RecordAddr,
}

/// One entry of the notification log.
#[derive(Clone, Copy, PartialEq, Eq, Structural, Debug)]
pub enum MarketEvent {
    Listed(ListedEvent),
    Executed(ExecuteEvent),
    Delisted(DelistEvent),
}

/// Balance of `a` in a balance map; an absent account holds zero.
pub open spec fn bal(m: Map<u64, u64>, a: u64) -> u64 {
    if m.contains_key(a) {
        m[a]
    } else {
        0
    }
}

/// Balance under a packed key; an absent account holds zero.
pub open spec fn bal_packed(m: Map<u128, u64>, k: u128) -> u64 {
    if m.contains_key(k) {
        m[k]
    } else {
        0
    }
}

/// The balance map after transferring `amt` from `from` to `to`.
pub open spec fn xfer(m: Map<u64, u64>, from: u64, to: u64, amt: u64) -> Map<u64, u64> {
    let m1 = m.insert(from, (bal(m, from) - amt) as u64);
    m1.insert(to, (bal(m1, to) + amt) as u64)
}

/// How the money-movement primitive answers a request to transfer `amt`
/// from `from` to `to` on the balances `m`: `None` when the transfer can
/// be applied, otherwise the error with which it is refused.
pub open spec fn pay_outcome(m: Map<u64, u64>, from: u64, to: u64, amt: u64) -> Option<
    MarketError,
> {
    if bal(m, from) < amt {
        Some(MarketError::InsufficientFunds)
    } else if from != to && bal(m, to) + amt > u64::MAX {
        Some(MarketError::BalanceOverflow)
    } else {
        None
    }
}

/// The counters record of `a` in `m`, or fresh counters if `a` has none
/// yet (counters records are materialized lazily).
pub open spec fn counters_or_new(m: Map<u64, ActivityCounters>, a: u64) -> ActivityCounters {
    if m.contains_key(a) {
        m[a]
    } else {
        ActivityCounters::spec_new(a)
    }
}

/// The two states agree on everything except possibly the monetary balances.
pub open spec fn same_except_lamports(a: Market, b: Market) -> bool {
    &&& b.fee_account_id() == a.fee_account_id()
    &&& b.listings() == a.listings()
    &&& b.listings_by_lister() == a.listings_by_lister()
    &&& b.counters() == a.counters()
    &&& b.asset_ledger() == a.asset_ledger()
    &&& b.escrow_ledger() == a.escrow_ledger()
    &&& b.mint_registry() == a.mint_registry()
    &&& b.event_log() == a.event_log()
}

/// The two states agree on everything except possibly the asset holdings.
pub open spec fn same_except_assets(a: Market, b: Market) -> bool {
    &&& b.fee_account_id() == a.fee_account_id()
    &&& b.listings() == a.listings()
    &&& b.listings_by_lister() == a.listings_by_lister()
    &&& b.counters() == a.counters()
    &&& b.lamport_ledger() == a.lamport_ledger()
    &&& b.escrow_ledger() == a.escrow_ledger()
    &&& b.mint_registry() == a.mint_registry()
    &&& b.event_log() == a.event_log()
}

/// The two states agree on everything except possibly the mint registry.
pub open spec fn same_except_registry(a: Market, b: Market) -> bool {
    &&& b.fee_account_id() == a.fee_account_id()
    &&& b.listings() == a.listings()
    &&& b.listings_by_lister() == a.listings_by_lister()
    &&& b.counters() == a.counters()
    &&& b.lamport_ledger() == a.lamport_ledger()
    &&& b.asset_ledger() == a.asset_ledger()
    &&& b.escrow_ledger() == a.escrow_ledger()
    &&& b.event_log() == a.event_log()
}

/// The two states agree on everything except possibly the asset holdings
/// and the escrow accounts — the components the custody adapter moves
/// funds between.
pub open spec fn same_except_custody(a: Market, b: Market) -> bool {
    &&& b.fee_account_id() == a.fee_account_id()
    &&& b.listings() == a.listings()
    &&& b.listings_by_lister() == a.listings_by_lister()
    &&& b.counters() == a.counters()
    &&& b.lamport_ledger() == a.lamport_ledger()
    &&& b.mint_registry() == a.mint_registry()
    &&& b.event_log() == a.event_log()
}

/// The listing record that a successful List stamps, identically, into
/// both index records.
pub open spec fn listing_record(
    lister: u64,
    mint: u64,
    input: ListInput,
    now: i64,
    bump: u8,
) -> ListingIndex {
    ListingIndex {
        mint,
        lister,
        price_in_lamports: input.listing_price_lamports,
        creation_time: now,
        lister_index: input.lister_index,
        amount_to_sell: input.amount_to_sell,
        bump,
    }
}

/// The lister's counters after a successful List: materialized if absent,
/// stamped with the owning actor, and with one more open listing.
pub open spec fn counters_after_list(m: Map<u64, ActivityCounters>, lister: u64) -> ActivityCounters {
    let c = counters_or_new(m, lister);
    ActivityCounters {
        actor: lister,
        listing_count: (c.listing_count + 1) as u64,
        sold_count: c.sold_count,
        purchase_count: c.purchase_count,
        total_amount_sold: c.total_amount_sold,
        total_amount_bought: c.total_amount_bought,
    }
}

/// How a successful List changes the state: both index records created
/// with identical contents, the lister's counters bumped, the maker fee
/// moved to the protocol fee account, the offered amount moved from the
/// lister's holding into a fresh escrow account, and the notification
/// appended.  Nothing else changes.
pub open spec fn list_transition(
    pre: Market,
    post: Market,
    lister: u64,
    mint: u64,
    input: ListInput,
    now: i64,
    bump: u8,
) -> bool {
    let rec = listing_record(lister, mint, input, now, bump);
    &&& post.fee_account_id() == pre.fee_account_id()
    &&& post.listings() == pre.listings().insert(mint, rec)
    &&& post.listings_by_lister() == pre.listings_by_lister().insert(
        spec_lister_key(lister, input.lister_index),
        rec,
    )
    &&& post.counters() == pre.counters().insert(lister, counters_after_list(pre.counters(), lister))
    &&& post.lamport_ledger() == xfer(
        pre.lamport_ledger(),
        lister,
        pre.fee_account_id(),
        MAKER_FEE,
    )
    &&& post.asset_ledger() == pre.asset_ledger().insert(
        crate::addr::spec_pack_key(lister, mint),
        (pre.asset_bal(lister, mint) - input.amount_to_sell) as u64,
    )
    &&& post.escrow_ledger() == pre.escrow_ledger().insert(
        mint,
        EscrowAccount { amount: input.amount_to_sell, authority_bump: bump },
    )
    &&& post.mint_registry() == pre.mint_registry()
    &&& post.event_log() == pre.event_log().push(
        MarketEvent::Listed(ListedEvent { id: RecordAddr::MintIndex { mint } }),
    )
}

/// The counters map after a sale is credited to `lister`: one more sale,
/// the price added to the lifetime amount sold.
pub open spec fn counters_after_sale(
    m: Map<u64, ActivityCounters>,
    lister: u64,
    price: u64,
) -> Map<u64, ActivityCounters> {
    let c = counters_or_new(m, lister);
    m.insert(
        lister,
        ActivityCounters {
            actor: c.actor,
            listing_count: c.listing_count,
            sold_count: (c.sold_count + 1) as u64,
            purchase_count: c.purchase_count,
            total_amount_sold: (c.total_amount_sold + price) as u64,
            total_amount_bought: c.total_amount_bought,
        },
    )
}

/// The counters map after a purchase is credited to `buyer`: counters
/// materialized if absent, one more purchase, the price added to the
/// lifetime amount bought.
pub open spec fn counters_after_purchase(
    m: Map<u64, ActivityCounters>,
    buyer: u64,
    price: u64,
) -> Map<u64, ActivityCounters> {
    let c = counters_or_new(m, buyer);
    m.insert(
        buyer,
        ActivityCounters {
            actor: c.actor,
            listing_count: c.listing_count,
            sold_count: c.sold_count,
            purchase_count: (c.purchase_count + 1) as u64,
            total_amount_sold: c.total_amount_sold,
            total_amount_bought: (c.total_amount_bought + price) as u64,
        },
    )
}

/// The lister's counters after a successful Delist: one less open listing.
pub open spec fn counters_after_delist(m: Map<u64, ActivityCounters>, lister: u64) -> ActivityCounters {
    let c = counters_or_new(m, lister);
    ActivityCounters {
        actor: lister,
        listing_count: (c.listing_count - 1) as u64,
        sold_count: c.sold_count,
        purchase_count: c.purchase_count,
        total_amount_sold: c.total_amount_sold,
        total_amount_bought: c.total_amount_bought,
    }
}

/// How a successful Execute changes the state: both index records and
/// the escrow account gone, the escrowed amount in the buyer's holding,
/// the sale and the purchase counted, and the price, the net taker fee
/// and the maker-fee refund paid by the buyer, in that order.  Nothing
/// else changes.
pub open spec fn execute_transition(
    pre: Market,
    post: Market,
    buyer: u64,
    mint: u64,
    lister: u64,
    lister_idx: u8,
) -> bool {
    let k = spec_lister_key(lister, lister_idx);
    let rec = pre.listings()[mint];
    let price = rec.price_in_lamports;
    &&& post.fee_account_id() == pre.fee_account_id()
    &&& post.listings() == pre.listings().remove(mint)
    &&& post.listings_by_lister() == pre.listings_by_lister().remove(k)
    &&& post.escrow_ledger() == pre.escrow_ledger().remove(mint)
    &&& post.counters() == counters_after_purchase(
        counters_after_sale(pre.counters(), rec.lister, price),
        buyer,
        price,
    )
    &&& post.asset_ledger() == pre.asset_ledger().insert(
        crate::addr::spec_pack_key(buyer, mint),
        (pre.asset_bal(buyer, mint) + rec.amount_to_sell) as u64,
    )
    &&& post.lamport_ledger() == xfer(
        xfer(
            xfer(pre.lamport_ledger(), buyer, rec.lister, price),
            buyer,
            pre.fee_account_id(),
            (TAKER_FEE - MAKER_FEE) as u64,
        ),
        buyer,
        rec.lister,
        MAKER_FEE,
    )
    &&& post.mint_registry() == pre.mint_registry()
    &&& post.event_log() == pre.event_log().push(
        MarketEvent::Executed(ExecuteEvent { id: RecordAddr::MintIndex { mint } }),
    )
}

/// How a successful Delist changes the state: both index records and the
/// escrow account gone, the escrowed amount back in the lister's holding,
/// one less open listing counted — and no monetary movement: the maker
/// fee paid at listing time is not refunded on this path.  Nothing else
/// changes.
pub open spec fn delist_transition(
    pre: Market,
    post: Market,
    caller: u64,
    mint: u64,
    lister_idx: u8,
) -> bool {
    let k = spec_lister_key(caller, lister_idx);
    let rec = pre.listings()[mint];
    &&& post.fee_account_id() == pre.fee_account_id()
    &&& post.listings() == pre.listings().remove(mint)
    &&& post.listings_by_lister() == pre.listings_by_lister().remove(k)
    &&& post.escrow_ledger() == pre.escrow_ledger().remove(mint)
    &&& post.counters() == pre.counters().insert(
        caller,
        counters_after_delist(pre.counters(), caller),
    )
    &&& post.lamport_ledger() == pre.lamport_ledger()
    &&& post.asset_ledger() == pre.asset_ledger().insert(
        crate::addr::spec_pack_key(caller, mint),
        (pre.asset_bal(caller, mint) + rec.amount_to_sell) as u64,
    )
    &&& post.mint_registry() == pre.mint_registry()
    &&& post.event_log() == pre.event_log().push(
        MarketEvent::Delisted(DelistEvent { id: RecordAddr::MintIndex { mint } }),
    )
}

/// Stamp one index record with the listing data.  List calls this once
/// for each of the two records, with identical arguments, so the two
/// copies differ only in their derivation path.
fn populate_index(
    mint: u64,
    lister: u64,
    price_in_lamports: u64,
    bump: u8,
    creation_time: i64,
    lister_index: u8,
    amount_to_sell: u64,
) -> (index: ListingIndex)
    ensures
        index == (ListingIndex {
            mint,
            lister,
            price_in_lamports,
            creation_time,
            lister_index,
            amount_to_sell,
            bump,
        }),
{
    ListingIndex {
        mint,
        lister,
        price_in_lamports,
        creation_time,
        lister_index,
        amount_to_sell,
        bump,
    }
}

/// The two marketplace states are observably identical.
pub open spec fn same_state(a: Market, b: Market) -> bool {
    &&& b.fee_account_id() == a.fee_account_id()
    &&& b.listings() == a.listings()
    &&& b.listings_by_lister() == a.listings_by_lister()
    &&& b.counters() == a.counters()
    &&& b.lamport_ledger() == a.lamport_ledger()
    &&& b.asset_ledger() == a.asset_ledger()
    &&& b.escrow_ledger() == a.escrow_ledger()
    &&& b.mint_registry() == a.mint_registry()
    &&& b.event_log() == a.event_log()
}

/// Balance of `a` in a balance map; an absent account holds zero.
fn map_bal(m: &HashMap<u64, u64>, a: u64) -> (r: u64)
    ensures
        r == bal(m@, a),
{
    match m.get(&a) {
        Some(b) => *b,
        None => 0,
    }
}

/// Refuse a transfer that the balances cannot support, without touching
/// them: the source must cover the amount and the destination must not
/// overflow.
fn pay_check(m: &HashMap<u64, u64>, from: u64, to: u64, amt: u64) -> (r: Option<MarketError>)
    ensures
        r == pay_outcome(m@, from, to, amt),
{
    let bf = map_bal(m, from);
    if bf < amt {
        return Some(MarketError::InsufficientFunds);
    }
    if from != to {
        let bt = map_bal(m, to);
        if bt > u64::MAX - amt {
            return Some(MarketError::BalanceOverflow);
        }
    }
    None
}

/// Apply a transfer to the balances, all or nothing: either both the
/// debit and the credit happen, or the balances are left untouched and
/// the refusal is returned.
fn pay_on(m: &mut HashMap<u64, u64>, from: u64, to: u64, amt: u64) -> (r: Option<MarketError>)
    ensures
        r == pay_outcome(old(m)@, from, to, amt),
        r is None ==> final(m)@ == xfer(old(m)@, from, to, amt),
        r is Some ==> final(m)@ == old(m)@,
{
    let e = pay_check(m, from, to, amt);
    if e.is_some() {
        return e;
    }
    let bf = map_bal(m, from);
    m.insert(from, bf - amt);
    let bt = map_bal(m, to);
    m.insert(to, bt + amt);
    None
}

/// The marketplace state.
pub struct Market {
    /// The configured protocol fee account.
    fee_account: u64,
    /// The mint index records, keyed by mint.
    mint_index: HashMap<u64, ListingIndex>,
    /// The lister index records, keyed by `spec_lister_key(lister, lister_index)`.
    lister_index: HashMap<u128, ListingIndex>,
    /// The activity counters records, keyed by actor.
    activity: HashMap<u64, ActivityCounters>,
    /// Monetary balances, keyed by actor.
    lamports: HashMap<u64, u64>,
    /// Asset holdings, keyed by `spec_pack_key(owner, mint)`.
    wallets: HashMap<u128, u64>,
    /// Escrow accounts of live listings, keyed by mint.
    escrows: HashMap<u64, EscrowAccount>,
    /// Which mints' type descriptors are registered to the extended asset
    /// service rather than the legacy one.
    extended_mints: HashMap<u64, bool>,
    /// Notifications emitted by successful operations, oldest first.
    events: Vec<MarketEvent>,
}

impl Market {
    /// The configured protocol fee account.
    pub closed spec fn fee_account_id(self) -> u64 {
        self.fee_account
    }

    /// The mint index records, keyed by mint.
    pub closed spec fn listings(self) -> Map<u64, ListingIndex> {
        self.mint_index@
    }

    /// The lister index records, keyed by `spec_lister_key`.
    pub closed spec fn listings_by_lister(self) -> Map<u128, ListingIndex> {
        self.lister_index@
    }

    /// The activity counters records, keyed by actor.
    pub closed spec fn counters(self) -> Map<u64, ActivityCounters> {
        self.activity@
    }

    /// Monetary balances, keyed by actor.
    pub closed spec fn lamport_ledger(self) -> Map<u64, u64> {
        self.lamports@
    }

    /// Asset holdings, keyed by `spec_pack_key(owner, mint)`.
    pub closed spec fn asset_ledger(self) -> Map<u128, u64> {
        self.wallets@
    }

    /// Escrow accounts of live listings, keyed by mint.
    pub closed spec fn escrow_ledger(self) -> Map<u64, EscrowAccount> {
        self.escrows@
    }

    /// Notifications emitted so far, oldest first.
    pub closed spec fn event_log(self) -> Seq<MarketEvent> {
        self.events@
    }

    /// Which asset service each registered mint's type descriptor belongs to.
    pub closed spec fn mint_registry(self) -> Map<u64, bool> {
        self.extended_mints@
    }

    /// Whether `mint`'s type descriptor is registered to the extended
    /// asset service; unregistered mints belong to the legacy service.
    pub open spec fn mint_is_extended_spec(self, mint: u64) -> bool {
        self.mint_registry().contains_key(mint) && self.mint_registry()[mint]
    }

    /// Monetary balance of an actor.
    pub open spec fn lamport_bal(self, a: u64) -> u64 {
        bal(self.lamport_ledger(), a)
    }

    /// Asset units of `mint` held directly by `owner`.
    pub open spec fn asset_bal(self, owner: u64, mint: u64) -> u64 {
        bal_packed(self.asset_ledger(), crate::addr::spec_pack_key(owner, mint))
    }

    /// A listing is live exactly when its mint index record exists.
    pub open spec fn is_live_spec(self, mint: u64) -> bool {
        self.listings().contains_key(mint)
    }

    /// Well-formedness: the dual-record invariant and the custody
    /// invariant.  Every mint index record is mirrored by a byte-identical
    /// lister index record and an escrow account holding exactly the
    /// listed amount under the recorded authority salt; every lister index
    /// record is mirrored by the mint index record of its mint; counters
    /// records belong to the actor they are keyed by, and the lister of
    /// every live listing has a counters record.
    pub open spec fn wf(self) -> bool {
        &&& forall|m: u64| #[trigger] self.listings().contains_key(m) ==> {
            let r = self.listings()[m];
            &&& r.mint == m
            &&& self.listings_by_lister().contains_key(spec_lister_key(r.lister, r.lister_index))
            &&& self.listings_by_lister()[spec_lister_key(r.lister, r.lister_index)] == r
            &&& self.escrow_ledger().contains_key(m)
            &&& self.escrow_ledger()[m].amount == r.amount_to_sell
            &&& self.escrow_ledger()[m].authority_bump == r.bump
            &&& self.counters().contains_key(r.lister)
        }
        &&& forall|k: u128| #[trigger] self.listings_by_lister().contains_key(k) ==> {
            let r = self.listings_by_lister()[k];
            &&& spec_lister_key(r.lister, r.lister_index) == k
            &&& self.listings().contains_key(r.mint)
            &&& self.listings()[r.mint] == r
        }
        &&& forall|m: u64| #[trigger] self.escrow_ledger().contains_key(m) ==> self.listings().contains_key(m)
        &&& forall|a: u64| #[trigger] self.counters().contains_key(a) ==> self.counters()[a].actor == a
    }

    /// A fresh marketplace with no records, no balances and no escrow,
    /// whose protocol fee account is `fee_account`.
    pub fn new(fee_account: u64) -> (m: Market)
        ensures
            m.wf(),
            m.fee_account_id() == fee_account,
            m.listings() == Map::<u64, ListingIndex>::empty(),
            m.listings_by_lister() == Map::<u128, ListingIndex>::empty(),
            m.counters() == Map::<u64, ActivityCounters>::empty(),
            m.lamport_ledger() == Map::<u64, u64>::empty(),
            m.asset_ledger() == Map::<u128, u64>::empty(),
            m.escrow_ledger() == Map::<u64, EscrowAccount>::empty(),
            m.mint_registry() == Map::<u64, bool>::empty(),
            m.event_log() == Seq::<MarketEvent>::empty(),
    {
        Market {
            fee_account,
            mint_index: HashMap::new(),
            lister_index: HashMap::new(),
            activity: HashMap::new(),
            lamports: HashMap::new(),
            wallets: HashMap::new(),
            escrows: HashMap::new(),
            extended_mints: HashMap::new(),
            events: Vec::new(),
        }
    }

    /// Monetary balance of an actor; an absent account holds zero.
    pub fn lamport_balance(&self, a: u64) -> (r: u64)
        ensures
            r == self.lamport_bal(a),
    {
        map_bal(&self.lamports, a)
    }

    /// Asset units of `mint` held directly by `owner`.
    pub fn asset_balance(&self, owner: u64, mint: u64) -> (r: u64)
        ensures
            r == self.asset_bal(owner, mint),
    {
        match self.wallets.get(&crate::addr::pack_key(owner, mint)) {
            Some(b) => *b,
            None => 0,
        }
    }

    /// Asset units held by the escrow account of `mint`'s listing, or
    /// zero if no escrow account exists for `mint`.
    pub fn escrow_balance(&self, mint: u64) -> (r: u64)
        ensures
            self.escrow_ledger().contains_key(mint) ==> r == self.escrow_ledger()[mint].amount,
            !self.escrow_ledger().contains_key(mint) ==> r == 0,
    {
        match self.escrows.get(&mint) {
            Some(e) => e.amount,
            None => 0,
        }
    }

    /// Whether a live listing exists for `mint`.  The mint index record's
    /// existence is the canonical existence test.
    pub fn is_live(&self, mint: u64) -> (r: bool)
        ensures
            r == self.is_live_spec(mint),
    {
        self.mint_index.contains_key(&mint)
    }

    /// The mint index record of `mint`'s listing, if one is live.
    pub fn listing_for_mint(&self, mint: u64) -> (r: Option<ListingIndex>)
        ensures
            r is Some <==> self.listings().contains_key(mint),
            r is Some ==> r->0 == self.listings()[mint],
    {
        match self.mint_index.get(&mint) {
            Some(rec) => Some(*rec),
            None => None,
        }
    }

    /// The lister index record under `(lister, lister_index)`, if any.
    pub fn listing_for_lister(&self, lister: u64, lister_index: u8) -> (r: Option<ListingIndex>)
        ensures
            r is Some <==> self.listings_by_lister().contains_key(
                spec_lister_key(lister, lister_index),
            ),
            r is Some ==> r->0 == self.listings_by_lister()[spec_lister_key(
                lister,
                lister_index,
            )],
    {
        match self.lister_index.get(&lister_key(lister, lister_index)) {
            Some(rec) => Some(*rec),
            None => None,
        }
    }

    /// The activity counters record of `actor`, if one has been created.
    pub fn activity_of(&self, actor: u64) -> (r: Option<ActivityCounters>)
        ensures
            r is Some <==> self.counters().contains_key(actor),
            r is Some ==> r->0 == self.counters()[actor],
    {
        match self.activity.get(&actor) {
            Some(c) => Some(*c),
            None => None,
        }
    }

    /// The notifications emitted so far, oldest first.
    pub fn events(&self) -> (r: &Vec<MarketEvent>)
        ensures
            r@ == self.event_log(),
    {
        &self.events
    }

    /// Add monetary funds to an actor's balance (ledger-host primitive;
    /// outside the three marketplace operations).
    pub fn credit_lamports(&mut self, actor: u64, amount: u64) -> (r: Result<(), MarketError>)
        requires
            old(self).wf(),
        ensures
            final(self).wf(),
            r is Ok <==> old(self).lamport_bal(actor) + amount <= u64::MAX,
            r is Err ==> r == Err::<(), MarketError>(MarketError::BalanceOverflow) && same_state(
                *old(self),
                *final(self),
            ),
            r is Ok ==> final(self).lamport_ledger() == old(self).lamport_ledger().insert(
                actor,
                (old(self).lamport_bal(actor) + amount) as u64,
            ),
            same_except_lamports(*old(self), *final(self)),
    {
        let b = map_bal(&self.lamports, actor);
        if b > u64::MAX - amount {
            return Err(MarketError::BalanceOverflow);
        }
        self.lamports.insert(actor, b + amount);
        proof {
            assert(self.listings() == old(self).listings());
            assert(self.listings_by_lister() == old(self).listings_by_lister());
            assert(self.counters() == old(self).counters());
            assert(self.escrow_ledger() == old(self).escrow_ledger());
            assert(self.wf());
        }
        Ok(())
    }

    /// Add asset units of `mint` to an owner's holding (asset-issuance
    /// primitive of the ledger host; outside the three operations).
    pub fn credit_asset(&mut self, owner: u64, mint: u64, amount: u64) -> (r: Result<
        (),
        MarketError,
    >)
        requires
            old(self).wf(),
        ensures
            final(self).wf(),
            r is Ok <==> old(self).asset_bal(owner, mint) + amount <= u64::MAX,
            r is Err ==> r == Err::<(), MarketError>(MarketError::BalanceOverflow) && same_state(
                *old(self),
                *final(self),
            ),
            r is Ok ==> final(self).asset_ledger() == old(self).asset_ledger().insert(
                crate::addr::spec_pack_key(owner, mint),
                (old(self).asset_bal(owner, mint) + amount) as u64,
            ),
            same_except_assets(*old(self), *final(self)),
    {
        let k = crate::addr::pack_key(owner, mint);
        let b = match self.wallets.get(&k) {
            Some(v) => *v,
            None => 0,
        };
        if b > u64::MAX - amount {
            return Err(MarketError::BalanceOverflow);
        }
        self.wallets.insert(k, b + amount);
        proof {
            assert(self.listings() == old(self).listings());
            assert(self.listings_by_lister() == old(self).listings_by_lister());
            assert(self.counters() == old(self).counters());
            assert(self.escrow_ledger() == old(self).escrow_ledger());
            assert(self.wf());
        }
        Ok(())
    }

    /// Withdrawal through the legacy asset service: remove `amount`
    /// units of `mint` from `owner`'s holding.
    fn legacy_withdraw(&mut self, owner: u64, mint: u64, amount: u64)
        requires
            old(self).asset_bal(owner, mint) >= amount,
        ensures
            final(self).asset_ledger() == old(self).asset_ledger().insert(
                crate::addr::spec_pack_key(owner, mint),
                (old(self).asset_bal(owner, mint) - amount) as u64,
            ),
            final(self).escrow_ledger() == old(self).escrow_ledger(),
            same_except_custody(*old(self), *final(self)),
    {
        let k = crate::addr::pack_key(owner, mint);
        let b = match self.wallets.get(&k) {
            Some(v) => *v,
            None => 0,
        };
        self.wallets.insert(k, b - amount);
    }

    /// Withdrawal through the extended asset service: remove `amount`
    /// units of `mint` from `owner`'s holding.
    fn extended_withdraw(&mut self, owner: u64, mint: u64, amount: u64)
        requires
            old(self).asset_bal(owner, mint) >= amount,
        ensures
            final(self).asset_ledger() == old(self).asset_ledger().insert(
                crate::addr::spec_pack_key(owner, mint),
                (old(self).asset_bal(owner, mint) - amount) as u64,
            ),
            final(self).escrow_ledger() == old(self).escrow_ledger(),
            same_except_custody(*old(self), *final(self)),
    {
        let k = crate::addr::pack_key(owner, mint);
        let b = match self.wallets.get(&k) {
            Some(v) => *v,
            None => 0,
        };
        self.wallets.insert(k, b - amount);
    }

    /// Deposit through the legacy asset service: add `amount` units of
    /// `mint` to `owner`'s holding, creating the destination account if
    /// it does not yet exist.
    fn legacy_deposit(&mut self, owner: u64, mint: u64, amount: u64)
        requires
            old(self).asset_bal(owner, mint) + amount <= u64::MAX,
        ensures
            final(self).asset_ledger() == old(self).asset_ledger().insert(
                crate::addr::spec_pack_key(owner, mint),
                (old(self).asset_bal(owner, mint) + amount) as u64,
            ),
            final(self).escrow_ledger() == old(self).escrow_ledger(),
            same_except_custody(*old(self), *final(self)),
    {
        let k = crate::addr::pack_key(owner, mint);
        let b = match self.wallets.get(&k) {
            Some(v) => *v,
            None => 0,
        };
        self.wallets.insert(k, b + amount);
    }

    /// Deposit through the extended asset service: add `amount` units of
    /// `mint` to `owner`'s holding, creating the destination account if
    /// it does not yet exist.
    fn extended_deposit(&mut self, owner: u64, mint: u64, amount: u64)
        requires
            old(self).asset_bal(owner, mint) + amount <= u64::MAX,
        ensures
            final(self).asset_ledger() == old(self).asset_ledger().insert(
                crate::addr::spec_pack_key(owner, mint),
                (old(self).asset_bal(owner, mint) + amount) as u64,
            ),
            final(self).escrow_ledger() == old(self).escrow_ledger(),
            same_except_custody(*old(self), *final(self)),
    {
        let k = crate::addr::pack_key(owner, mint);
        let b = match self.wallets.get(&k) {
            Some(v) => *v,
            None => 0,
        };
        self.wallets.insert(k, b + amount);
    }

    /// Escrow custody adapter, inbound: move `amount` units of `mint`
    /// out of `from_owner`'s holding into a newly created escrow account
    /// owned by the authority derived with `authority_bump`.  The asset
    /// service implementation is selected by the mint's registered owner
    /// at call time, and the movement and the account creation happen
    /// together or not at all.
    fn fund_escrow(&mut self, mint: u64, from_owner: u64, amount: u64, authority_bump: u8)
        requires
            !old(self).escrow_ledger().contains_key(mint),
            old(self).asset_bal(from_owner, mint) >= amount,
        ensures
            final(self).asset_ledger() == old(self).asset_ledger().insert(
                crate::addr::spec_pack_key(from_owner, mint),
                (old(self).asset_bal(from_owner, mint) - amount) as u64,
            ),
            final(self).escrow_ledger() == old(self).escrow_ledger().insert(
                mint,
                EscrowAccount { amount, authority_bump },
            ),
            same_except_custody(*old(self), *final(self)),
    {
        if self.mint_is_extended(mint) {
            self.extended_withdraw(from_owner, mint, amount);
        } else {
            self.legacy_withdraw(from_owner, mint, amount);
        }
        self.escrows.insert(mint, EscrowAccount { amount, authority_bump });
    }

    /// Escrow custody adapter, outbound: verify that re-deriving the
    /// escrow authority from the supplied seeds reproduces the owner the
    /// escrow account was created with — the only way escrow-owned funds
    /// can move — then hand the full escrowed amount to `dest_owner` and
    /// close the escrow account.  The asset service implementation is
    /// selected by the mint's registered owner at call time.
    fn drain_escrow(&mut self, mint: u64, dest_owner: u64, authority_proof: AuthoritySeeds)
        requires
            old(self).escrow_ledger().contains_key(mint),
            old(self).asset_bal(dest_owner, mint) + old(self).escrow_ledger()[mint].amount
                <= u64::MAX,
            authority_proof.mint == mint,
            authority_proof.bump == old(self).escrow_ledger()[mint].authority_bump,
        ensures
            final(self).asset_ledger() == old(self).asset_ledger().insert(
                crate::addr::spec_pack_key(dest_owner, mint),
                (old(self).asset_bal(dest_owner, mint)
                    + old(self).escrow_ledger()[mint].amount) as u64,
            ),
            final(self).escrow_ledger() == old(self).escrow_ledger().remove(mint),
            same_except_custody(*old(self), *final(self)),
    {
        let esc = *self.escrows.get(&mint).unwrap();
        // The ledger host's authority verification: the supplied seeds
        // must re-derive the recorded escrow owner.
        assert(authority_proof.mint == mint && authority_proof.bump == esc.authority_bump);
        if self.mint_is_extended(mint) {
            self.extended_deposit(dest_owner, mint, esc.amount);
        } else {
            self.legacy_deposit(dest_owner, mint, esc.amount);
        }
        self.escrows.remove(&mint);
    }

    /// Whether `mint`'s type descriptor is registered to the extended
    /// asset service.
    pub fn mint_is_extended(&self, mint: u64) -> (r: bool)
        ensures
            r == self.mint_is_extended_spec(mint),
    {
        match self.extended_mints.get(&mint) {
            Some(b) => *b,
            None => false,
        }
    }

    /// What a List call with these arguments returns on this state: `Ok`
    /// exactly when the quantity is positive, the supplied fee account is
    /// the configured one, no listing is live for `mint`, the lister's
    /// chosen disambiguator is free, the lister can pay the maker fee,
    /// and the lister holds the offered amount; otherwise the first
    /// failing check's error, in this order.
    pub open spec fn list_outcome(
        self,
        lister: u64,
        mint: u64,
        input: ListInput,
        protocol_fee_account: u64,
    ) -> Result<(), MarketError> {
        if input.amount_to_sell == 0 {
            Err(MarketError::InvalidAmount)
        } else if protocol_fee_account != self.fee_account_id() {
            Err(MarketError::ProtocolFeeAccountMismatch)
        } else if self.listings().contains_key(mint) {
            Err(MarketError::ListingAlreadyExists)
        } else if self.listings_by_lister().contains_key(
            spec_lister_key(lister, input.lister_index),
        ) {
            Err(MarketError::ListerIndexCollision)
        } else {
            match pay_outcome(self.lamport_ledger(), lister, self.fee_account_id(), MAKER_FEE) {
                Some(e) => Err(e),
                None => if self.asset_bal(lister, mint) < input.amount_to_sell {
                    Err(MarketError::InsufficientAssetBalance)
                } else {
                    Ok(())
                },
            }
        }
    }

    /// List: create a listing.  Atomically materializes the lister's
    /// activity counters and counts the new listing, collects the maker
    /// fee, stamps both index records with identical contents, and moves
    /// the offered amount into a fresh escrow account owned by the
    /// authority derived with `bump`.  On an error nothing changes.
    pub fn list_v1(
        &mut self,
        lister: u64,
        mint: u64,
        input: ListInput,
        now: i64,
        protocol_fee_account: u64,
        bump: u8,
    ) -> (r: Result<(), MarketError>)
        requires
            old(self).wf(),
            old(self).list_outcome(lister, mint, input, protocol_fee_account) is Ok
                ==> counters_or_new(old(self).counters(), lister).listing_count < u64::MAX,
        ensures
            final(self).wf(),
            r == old(self).list_outcome(lister, mint, input, protocol_fee_account),
            r is Ok ==> list_transition(*old(self), *final(self), lister, mint, input, now, bump),
            r is Err ==> same_state(*old(self), *final(self)),
    {
        if input.amount_to_sell == 0 {
            return Err(MarketError::InvalidAmount);
        }
        if protocol_fee_account != self.fee_account {
            return Err(MarketError::ProtocolFeeAccountMismatch);
        }
        if self.mint_index.contains_key(&mint) {
            return Err(MarketError::ListingAlreadyExists);
        }
        let lkey = lister_key(lister, input.lister_index);
        if self.lister_index.contains_key(&lkey) {
            return Err(MarketError::ListerIndexCollision);
        }
        if let Some(e) = pay_check(&self.lamports, lister, self.fee_account, MAKER_FEE) {
            return Err(e);
        }
        let have = self.asset_balance(lister, mint);
        if have < input.amount_to_sell {
            return Err(MarketError::InsufficientAssetBalance);
        }
        // Every check has passed; the effects below cannot fail.
        let c = match self.activity.get(&lister) {
            Some(c) => *c,
            None => ActivityCounters::new(lister),
        };
        let c2 = ActivityCounters {
            actor: lister,
            listing_count: c.listing_count + 1,
            sold_count: c.sold_count,
            purchase_count: c.purchase_count,
            total_amount_sold: c.total_amount_sold,
            total_amount_bought: c.total_amount_bought,
        };
        self.activity.insert(lister, c2);
        let fee_to = self.fee_account;
        pay_on(&mut self.lamports, lister, fee_to, MAKER_FEE);
        let mint_rec = populate_index(
            mint,
            lister,
            input.listing_price_lamports,
            bump,
            now,
            input.lister_index,
            input.amount_to_sell,
        );
        let lister_rec = populate_index(
            mint,
            lister,
            input.listing_price_lamports,
            bump,
            now,
            input.lister_index,
            input.amount_to_sell,
        );
        self.mint_index.insert(mint, mint_rec);
        self.lister_index.insert(lkey, lister_rec);
        proof {
            assert(self.escrow_ledger() == old(self).escrow_ledger());
            assert(!old(self).escrow_ledger().contains_key(mint));
        }
        self.fund_escrow(mint, lister, input.amount_to_sell, bump);
        self.events.push(MarketEvent::Listed(ListedEvent { id: RecordAddr::MintIndex { mint } }));
        proof {
            self.lemma_list_preserves_wf(*old(self), lister, mint, input, now, bump);
        }
        Ok(())
    }

    /// A state reached from a well-formed one by a List transition is
    /// well-formed again.
    proof fn lemma_list_preserves_wf(
        self,
        pre: Market,
        lister: u64,
        mint: u64,
        input: ListInput,
        now: i64,
        bump: u8,
    )
        requires
            pre.wf(),
            !pre.listings().contains_key(mint),
            !pre.listings_by_lister().contains_key(spec_lister_key(lister, input.lister_index)),
            list_transition(pre, self, lister, mint, input, now, bump),
        ensures
            self.wf(),
    {
        let rec = listing_record(lister, mint, input, now, bump);
        let newkey = spec_lister_key(lister, input.lister_index);
        assert forall|m: u64| #[trigger] self.listings().contains_key(m) implies {
            let r = self.listings()[m];
            &&& r.mint == m
            &&& self.listings_by_lister().contains_key(spec_lister_key(r.lister, r.lister_index))
            &&& self.listings_by_lister()[spec_lister_key(r.lister, r.lister_index)] == r
            &&& self.escrow_ledger().contains_key(m)
            &&& self.escrow_ledger()[m].amount == r.amount_to_sell
            &&& self.escrow_ledger()[m].authority_bump == r.bump
            &&& self.counters().contains_key(r.lister)
        } by {
            if m != mint {
                let r = pre.listings()[m];
                assert(pre.listings().contains_key(m));
                assert(spec_lister_key(r.lister, r.lister_index) != newkey);
            }
        }
        assert forall|k: u128| #[trigger] self.listings_by_lister().contains_key(k) implies {
            let r = self.listings_by_lister()[k];
            &&& spec_lister_key(r.lister, r.lister_index) == k
            &&& self.listings().contains_key(r.mint)
            &&& self.listings()[r.mint] == r
        } by {
            if k != newkey {
                let r = pre.listings_by_lister()[k];
                assert(pre.listings_by_lister().contains_key(k));
                assert(r.mint != mint);
            }
        }
        assert forall|m: u64| #[trigger] self.escrow_ledger().contains_key(m) implies self.listings().contains_key(m) by {
            if m != mint {
                assert(pre.escrow_ledger().contains_key(m));
            }
        }
        assert forall|a: u64| #[trigger] self.counters().contains_key(a) implies self.counters()[a].actor == a by {
            if a != lister {
                assert(pre.counters().contains_key(a));
            }
        }
    }

    /// What an Execute call with these arguments returns on this state:
    /// `Ok` exactly when a live listing exists for `mint`, the supplied
    /// lister-path coordinates name a record of that very mint, the
    /// supplied fee account is the configured one, the buyer's holding
    /// can take the escrowed amount, and the buyer can pay the price,
    /// the net taker fee and the maker-fee refund in sequence; otherwise
    /// the first failing check's error, in this order.
    pub open spec fn execute_outcome(
        self,
        buyer: u64,
        mint: u64,
        lister: u64,
        lister_idx: u8,
        protocol_fee_account: u64,
    ) -> Result<(), MarketError> {
        let k = spec_lister_key(lister, lister_idx);
        if !self.listings().contains_key(mint) {
            Err(MarketError::ListingNotFound)
        } else if !self.listings_by_lister().contains_key(k) {
            Err(MarketError::ListingNotFound)
        } else if self.listings_by_lister()[k].mint != mint {
            Err(MarketError::MintMismatch)
        } else if protocol_fee_account != self.fee_account_id() {
            Err(MarketError::ProtocolFeeAccountMismatch)
        } else {
            let rec = self.listings()[mint];
            let price = rec.price_in_lamports;
            if self.asset_bal(buyer, mint) + rec.amount_to_sell > u64::MAX {
                Err(MarketError::BalanceOverflow)
            } else {
                let l0 = self.lamport_ledger();
                match pay_outcome(l0, buyer, rec.lister, price) {
                    Some(e) => Err(e),
                    None => {
                        let l1 = xfer(l0, buyer, rec.lister, price);
                        match pay_outcome(
                            l1,
                            buyer,
                            self.fee_account_id(),
                            (TAKER_FEE - MAKER_FEE) as u64,
                        ) {
                            Some(e) => Err(e),
                            None => {
                                let l2 = xfer(
                                    l1,
                                    buyer,
                                    self.fee_account_id(),
                                    (TAKER_FEE - MAKER_FEE) as u64,
                                );
                                match pay_outcome(l2, buyer, rec.lister, MAKER_FEE) {
                                    Some(e) => Err(e),
                                    None => Ok(()),
                                }
                            },
                        }
                    },
                }
            }
        }
    }

    /// The counter increments of an Execute on `mint` credited to the
    /// recorded lister and to `buyer` stay within range.
    pub open spec fn execute_counters_fit(self, buyer: u64, mint: u64) -> bool {
        let rec = self.listings()[mint];
        let price = rec.price_in_lamports;
        let lc = counters_or_new(self.counters(), rec.lister);
        let bc = counters_or_new(counters_after_sale(self.counters(), rec.lister, price), buyer);
        &&& lc.sold_count < u64::MAX
        &&& lc.total_amount_sold + price <= u64::MAX
        &&& bc.purchase_count < u64::MAX
        &&& bc.total_amount_bought + price <= u64::MAX
    }

    /// What a Delist call with these arguments returns on this state:
    /// `Ok` exactly when a live listing exists for `mint`, the caller's
    /// own lister-path coordinates name a record of that very mint — so
    /// the caller is the recorded lister — and the caller's holding can
    /// take the escrowed amount back; otherwise the first failing
    /// check's error, in this order.
    pub open spec fn delist_outcome(self, caller: u64, mint: u64, lister_idx: u8) -> Result<
        (),
        MarketError,
    > {
        let k = spec_lister_key(caller, lister_idx);
        if !self.listings().contains_key(mint) {
            Err(MarketError::ListingNotFound)
        } else if !self.listings_by_lister().contains_key(k) {
            Err(MarketError::ListingNotFound)
        } else if self.listings_by_lister()[k].mint != mint {
            Err(MarketError::MintMismatch)
        } else if self.asset_bal(caller, mint) + self.listings()[mint].amount_to_sell
            > u64::MAX {
            Err(MarketError::BalanceOverflow)
        } else {
            Ok(())
        }
    }

    /// A state reached from a well-formed one by closing the listing of
    /// `mint` — removing both index records and the escrow account, with
    /// counters that keep every actor's stamp — is well-formed again.
    proof fn lemma_close_preserves_wf(self, pre: Market, mint: u64, k: u128)
        requires
            pre.wf(),
            pre.listings().contains_key(mint),
            k == spec_lister_key(
                pre.listings()[mint].lister,
                pre.listings()[mint].lister_index,
            ),
            self.listings() == pre.listings().remove(mint),
            self.listings_by_lister() == pre.listings_by_lister().remove(k),
            self.escrow_ledger() == pre.escrow_ledger().remove(mint),
            forall|a: u64| #[trigger] self.counters().contains_key(a)
                ==> self.counters()[a].actor == a,
            forall|a: u64| pre.counters().contains_key(a) ==> #[trigger] self.counters().contains_key(a),
        ensures
            self.wf(),
    {
        let recm = pre.listings()[mint];
        assert forall|m: u64| #[trigger] self.listings().contains_key(m) implies {
            let r = self.listings()[m];
            &&& r.mint == m
            &&& self.listings_by_lister().contains_key(spec_lister_key(r.lister, r.lister_index))
            &&& self.listings_by_lister()[spec_lister_key(r.lister, r.lister_index)] == r
            &&& self.escrow_ledger().contains_key(m)
            &&& self.escrow_ledger()[m].amount == r.amount_to_sell
            &&& self.escrow_ledger()[m].authority_bump == r.bump
            &&& self.counters().contains_key(r.lister)
        } by {
            let r = pre.listings()[m];
            assert(pre.listings().contains_key(m));
            if spec_lister_key(r.lister, r.lister_index) == k {
                assert(pre.listings_by_lister()[k] == r);
                assert(pre.listings_by_lister().contains_key(k));
                assert(pre.listings_by_lister()[k] == recm);
                assert(r.mint == m && recm.mint == mint);
                assert(false);
            }
        }
        assert forall|kk: u128| #[trigger] self.listings_by_lister().contains_key(kk) implies {
            let r = self.listings_by_lister()[kk];
            &&& spec_lister_key(r.lister, r.lister_index) == kk
            &&& self.listings().contains_key(r.mint)
            &&& self.listings()[r.mint] == r
        } by {
            let r = pre.listings_by_lister()[kk];
            assert(pre.listings_by_lister().contains_key(kk));
            if r.mint == mint {
                assert(pre.listings()[mint] == r);
                assert(spec_lister_key(r.lister, r.lister_index) == k);
                assert(false);
            }
        }
        assert forall|m: u64| #[trigger] self.escrow_ledger().contains_key(m) implies self.listings().contains_key(m) by {
            assert(pre.escrow_ledger().contains_key(m));
        }
    }

    /// Execute: complete a purchase.  Atomically counts the sale for the
    /// recorded lister and the purchase for the buyer, moves the
    /// escrowed asset to the buyer under the derived escrow authority,
    /// pays the price and the maker-fee refund to the lister and the net
    /// taker fee to the protocol, and closes both index records and the
    /// escrow account.  On an error nothing changes.
    pub fn execute_v1(
        &mut self,
        buyer: u64,
        mint: u64,
        lister: u64,
        lister_idx: u8,
        protocol_fee_account: u64,
    ) -> (r: Result<(), MarketError>)
        requires
            old(self).wf(),
            old(self).execute_outcome(buyer, mint, lister, lister_idx, protocol_fee_account)
                is Ok ==> old(self).execute_counters_fit(buyer, mint),
        ensures
            final(self).wf(),
            r == old(self).execute_outcome(buyer, mint, lister, lister_idx, protocol_fee_account),
            r is Ok ==> execute_transition(
                *old(self),
                *final(self),
                buyer,
                mint,
                lister,
                lister_idx,
            ),
            r is Err ==> same_state(*old(self), *final(self)),
    {
        let mrec = match self.mint_index.get(&mint) {
            Some(rec) => *rec,
            None => {
                return Err(MarketError::ListingNotFound);
            },
        };
        let lkey = lister_key(lister, lister_idx);
        let lrec = match self.lister_index.get(&lkey) {
            Some(rec) => *rec,
            None => {
                return Err(MarketError::ListingNotFound);
            },
        };
        if lrec.mint != mint {
            return Err(MarketError::MintMismatch);
        }
        if protocol_fee_account != self.fee_account {
            return Err(MarketError::ProtocolFeeAccountMismatch);
        }
        proof {
            crate::addr::lemma_lister_key_injective(
                lrec.lister,
                lrec.lister_index,
                lister,
                lister_idx,
            );
            assert(lrec == mrec);
        }
        let bal_b = self.asset_balance(buyer, mint);
        if bal_b > u64::MAX - mrec.amount_to_sell {
            return Err(MarketError::BalanceOverflow);
        }
        // The three monetary legs are tried on a scratch copy of the
        // balances and committed only if all of them can be applied.
        let mut scratch = self.lamports.clone();
        if let Some(e) = pay_on(&mut scratch, buyer, lister, mrec.price_in_lamports) {
            return Err(e);
        }
        if let Some(e) = pay_on(&mut scratch, buyer, self.fee_account, TAKER_FEE - MAKER_FEE) {
            return Err(e);
        }
        if let Some(e) = pay_on(&mut scratch, buyer, lister, MAKER_FEE) {
            return Err(e);
        }
        self.lamports = scratch;
        // Count the sale and the purchase.
        let lc = *self.activity.get(&lister).unwrap();
        let lc2 = ActivityCounters {
            actor: lc.actor,
            listing_count: lc.listing_count,
            sold_count: lc.sold_count + 1,
            purchase_count: lc.purchase_count,
            total_amount_sold: lc.total_amount_sold + mrec.price_in_lamports,
            total_amount_bought: lc.total_amount_bought,
        };
        self.activity.insert(lister, lc2);
        let bc = match self.activity.get(&buyer) {
            Some(c) => *c,
            None => ActivityCounters::new(buyer),
        };
        let bc2 = ActivityCounters {
            actor: bc.actor,
            listing_count: bc.listing_count,
            sold_count: bc.sold_count,
            purchase_count: bc.purchase_count + 1,
            total_amount_sold: bc.total_amount_sold,
            total_amount_bought: bc.total_amount_bought + mrec.price_in_lamports,
        };
        self.activity.insert(buyer, bc2);
        // Hand the escrowed asset to the buyer under the derived authority.
        let authority_proof = AuthoritySeeds { mint, bump: mrec.bump };
        self.drain_escrow(mint, buyer, authority_proof);
        // Close both index records together.
        self.mint_index.remove(&mint);
        self.lister_index.remove(&lkey);
        self.events.push(
            MarketEvent::Executed(ExecuteEvent { id: RecordAddr::MintIndex { mint } }),
        );
        proof {
            self.lemma_close_preserves_wf(*old(self), mint, lkey);
        }
        Ok(())
    }

    /// Delist: cancel a listing.  The caller must be the recorded lister
    /// of `mint`'s listing, named through the caller's own lister-path
    /// coordinates.  Atomically counts the listing as closed, returns
    /// the escrowed asset to the caller under the derived authority, and
    /// closes both index records and the escrow account.  No fee is
    /// refunded on this path.  On an error nothing changes.
    pub fn delist_v1(&mut self, caller: u64, mint: u64, lister_idx: u8) -> (r: Result<
        (),
        MarketError,
    >)
        requires
            old(self).wf(),
            old(self).delist_outcome(caller, mint, lister_idx) is Ok ==> counters_or_new(
                old(self).counters(),
                caller,
            ).listing_count >= 1,
        ensures
            final(self).wf(),
            r == old(self).delist_outcome(caller, mint, lister_idx),
            r is Ok ==> delist_transition(*old(self), *final(self), caller, mint, lister_idx),
            r is Err ==> same_state(*old(self), *final(self)),
    {
        let mrec = match self.mint_index.get(&mint) {
            Some(rec) => *rec,
            None => {
                return Err(MarketError::ListingNotFound);
            },
        };
        let lkey = lister_key(caller, lister_idx);
        let lrec = match self.lister_index.get(&lkey) {
            Some(rec) => *rec,
            None => {
                return Err(MarketError::ListingNotFound);
            },
        };
        // The explicit mint-match check: the mint parameter alone must
        // not be trusted to close an unrelated lister-indexed record.
        if lrec.mint != mint {
            return Err(MarketError::MintMismatch);
        }
        proof {
            crate::addr::lemma_lister_key_injective(
                lrec.lister,
                lrec.lister_index,
                caller,
                lister_idx,
            );
            assert(lrec == mrec);
        }
        let bal_c = self.asset_balance(caller, mint);
        if bal_c > u64::MAX - mrec.amount_to_sell {
            return Err(MarketError::BalanceOverflow);
        }
        // Every check has passed; the effects below cannot fail.
        let c = match self.activity.get(&caller) {
            Some(c) => *c,
            None => ActivityCounters::new(caller),
        };
        let c2 = ActivityCounters {
            actor: caller,
            listing_count: c.listing_count - 1,
            sold_count: c.sold_count,
            purchase_count: c.purchase_count,
            total_amount_sold: c.total_amount_sold,
            total_amount_bought: c.total_amount_bought,
        };
        self.activity.insert(caller, c2);
        // Return the escrowed asset to the lister under the derived authority.
        let authority_proof = AuthoritySeeds { mint, bump: mrec.bump };
        self.drain_escrow(mint, caller, authority_proof);
        // Close both index records together.
        self.mint_index.remove(&mint);
        self.lister_index.remove(&lkey);
        self.events.push(
            MarketEvent::Delisted(DelistEvent { id: RecordAddr::MintIndex { mint } }),
        );
        proof {
            self.lemma_close_preserves_wf(*old(self), mint, lkey);
        }
        Ok(())
    }

    /// Register `mint`'s type descriptor with the extended asset service
    /// (`true`) or the legacy one (`false`).  The custody adapter selects
    /// the service implementation from this registration at call time.
    pub fn register_mint(&mut self, mint: u64, extended: bool)
        requires
            old(self).wf(),
        ensures
            final(self).wf(),
            final(self).mint_registry() == old(self).mint_registry().insert(mint, extended),
            same_except_registry(*old(self), *final(self)),
    {
        self.extended_mints.insert(mint, extended);
        proof {
            assert(self.listings() == old(self).listings());
            assert(self.listings_by_lister() == old(self).listings_by_lister());
            assert(self.counters() == old(self).counters());
            assert(self.escrow_ledger() == old(self).escrow_ledger());
            assert(self.wf());
        }
    }
}

} // verus!
