//! Record types persisted by the marketplace: the per-listing index record,
//! the per-actor activity counters, and the lister profile record.

use vstd::prelude::*;

verus! {

/// One lookup record for a listing.  For every live listing there are two
/// byte-identical copies of this record, reachable under two derivation
/// paths: one addressed by the mint alone, one addressed by the pair
/// (lister, lister_index).
#[derive(Clone, Copy, PartialEq, Eq, Structural, Debug)]
pub struct ListingIndex {
    /// Identifier of the asset type being sold.
    pub mint: u64,
    /// Identifier of the seller.
    pub lister: u64,
    /// Sale price, in the smallest monetary unit.
    pub price_in_lamports: u64,
    /// Timestamp at listing creation.
    pub creation_time: i64,
    /// Small integer chosen by the lister to disambiguate concurrent
    /// listings by the same lister.
    pub lister_index: u8,
    /// Quantity of the asset held in escrow for this listing.
    pub amount_to_sell: u64,
    /// Derivation salt recorded so that the record's own address and the
    /// escrow authority address can be re-derived later.
    pub bump: u8,
}

/// Lifetime activity accumulators for one participant.  Created lazily on
/// the first operation that touches the actor, and never destroyed.
#[derive(Clone, Copy, PartialEq, Eq, Structural, Debug)]
pub struct ActivityCounters {
    /// Owning participant identifier.
    pub actor: u64,
    /// Incremented on List, decremented on Delist.
    pub listing_count: u64,
    /// Incremented on Execute where this actor is the lister.
    pub sold_count: u64,
    /// Incremented on Execute where this actor is the buyer.
    pub purchase_count: u64,
    /// Accumulates the sale price on Execute where this actor is the lister.
    pub total_amount_sold: u64,
    /// Accumulates the sale price on Execute where this actor is the buyer.
    pub total_amount_bought: u64,
}

impl ActivityCounters {
    /// Fresh counters for an actor that has no activity yet.
    pub open spec fn spec_new(actor: u64) -> ActivityCounters {
        ActivityCounters {
            actor,
            listing_count: 0,
            sold_count: 0,
            purchase_count: 0,
            total_amount_sold: 0,
            total_amount_bought: 0,
        }
    }

    /// Fresh counters for an actor that has no activity yet.
    pub fn new(actor: u64) -> (r: ActivityCounters)
        ensures
            r == ActivityCounters::spec_new(actor),
    {
        ActivityCounters {
            actor,
            listing_count: 0,
            sold_count: 0,
            purchase_count: 0,
            total_amount_sold: 0,
            total_amount_bought: 0,
        }
    }
}

/// Lister profile metadata.  Pure data storage with no behavior attached;
/// kept for completeness of the record model.
#[derive(Clone, Debug)]
pub struct ListerConfig {
    pub name: String,
    pub avatar_url: String,
    pub wallet_id: u64,
}

/// Caller-supplied parameters of a List operation.
#[derive(Clone, Copy, PartialEq, Eq, Structural, Debug)]
pub struct ListInput {
    /// Quantity of the asset to place in escrow; must be positive.
    pub amount_to_sell: u64,
    /// Sale price, in the smallest monetary unit.
    pub listing_price_lamports: u64,
    /// Disambiguator chosen by the lister; must be unused by this lister.
    pub lister_index: u8,
}

} // verus!
