use shop22::addr::{
    derive_activity_counters_addr, derive_lister_index_addr, derive_mint_index_addr, RecordAddr,
};
use shop22::errors::MarketError;
use shop22::market::{Market, MarketEvent, MAKER_FEE, TAKER_FEE};
use shop22::state::ListInput;

const FEE_ACCT: u64 = 999;

fn input(amount: u64, price: u64, idx: u8) -> ListInput {
    ListInput {
        amount_to_sell: amount,
        listing_price_lamports: price,
        lister_index: idx,
    }
}

fn funded_market() -> Market {
    let mut m = Market::new(FEE_ACCT);
    m.credit_lamports(1, 10_000_000).unwrap();
    m.credit_asset(1, 7, 5).unwrap();
    m
}

#[test]
fn list_creates_dual_records_and_escrow() {
    let mut m = funded_market();
    let r = m.list_v1(1, 7, input(2, 50, 3), 1000, FEE_ACCT, 42);
    assert_eq!(r, Ok(()));
    assert!(m.is_live(7));
    let by_mint = m.listing_for_mint(7).unwrap();
    let by_lister = m.listing_for_lister(1, 3).unwrap();
    assert_eq!(by_mint, by_lister);
    assert_eq!(by_mint.mint, 7);
    assert_eq!(by_mint.lister, 1);
    assert_eq!(by_mint.price_in_lamports, 50);
    assert_eq!(by_mint.creation_time, 1000);
    assert_eq!(by_mint.lister_index, 3);
    assert_eq!(by_mint.amount_to_sell, 2);
    assert_eq!(by_mint.bump, 42);
    assert_eq!(m.escrow_balance(7), 2);
    assert_eq!(m.asset_balance(1, 7), 3);
    assert_eq!(m.lamport_balance(1), 10_000_000 - MAKER_FEE);
    assert_eq!(m.lamport_balance(FEE_ACCT), MAKER_FEE);
    let c = m.activity_of(1).unwrap();
    assert_eq!(c.actor, 1);
    assert_eq!(c.listing_count, 1);
    assert_eq!(c.sold_count, 0);
    assert_eq!(
        m.events()[0],
        MarketEvent::Listed(shop22::market::ListedEvent {
            id: RecordAddr::MintIndex { mint: 7 }
        })
    );
}

#[test]
fn execute_full_scenario() {
    // Lister L = 1 on mint M = 7, buyer B = 2, amount 1, price 1_000_000_000.
    let mut m = Market::new(FEE_ACCT);
    m.credit_lamports(1, MAKER_FEE).unwrap();
    m.credit_asset(1, 7, 1).unwrap();
    m.credit_lamports(2, 1_005_000_000).unwrap();
    assert_eq!(m.list_v1(1, 7, input(1, 1_000_000_000, 0), 500, FEE_ACCT, 9), Ok(()));
    assert_eq!(m.lamport_balance(1), 0); // maker fee deducted from the lister
    assert_eq!(m.asset_balance(1, 7), 0); // lister's asset balance -1
    let fee_before_execute = m.lamport_balance(FEE_ACCT);
    let r = m.execute_v1(2, 7, 1, 0, FEE_ACCT);
    assert_eq!(r, Ok(()));
    // Buyer holds the asset; records are gone under both paths.
    assert_eq!(m.asset_balance(2, 7), 1);
    assert!(!m.is_live(7));
    assert!(m.listing_for_mint(7).is_none());
    assert!(m.listing_for_lister(1, 0).is_none());
    assert_eq!(m.escrow_balance(7), 0);
    // Buyer paid price + net taker fee + maker refund = 1_005_000_000.
    assert_eq!(m.lamport_balance(2), 0);
    // Lister received price + maker-fee refund = 1_002_000_000.
    assert_eq!(m.lamport_balance(1), 1_002_000_000);
    // The protocol's net taker-side revenue on the sale is 3_000_000.
    assert_eq!(m.lamport_balance(FEE_ACCT) - fee_before_execute, TAKER_FEE - MAKER_FEE);
    assert_eq!(m.lamport_balance(FEE_ACCT) - fee_before_execute, 3_000_000);
    // Counters on both sides.
    let lc = m.activity_of(1).unwrap();
    assert_eq!(lc.sold_count, 1);
    assert_eq!(lc.total_amount_sold, 1_000_000_000);
    assert_eq!(lc.listing_count, 1); // Execute does not decrement it
    let bc = m.activity_of(2).unwrap();
    assert_eq!(bc.actor, 2);
    assert_eq!(bc.purchase_count, 1);
    assert_eq!(bc.total_amount_bought, 1_000_000_000);
    assert_eq!(bc.sold_count, 0);
    assert_eq!(
        m.events()[1],
        MarketEvent::Executed(shop22::market::ExecuteEvent {
            id: RecordAddr::MintIndex { mint: 7 }
        })
    );
}

#[test]
fn list_then_delist_restores_asset_but_not_fee() {
    let mut m = funded_market();
    let asset_before = m.asset_balance(1, 7);
    let lamports_before = m.lamport_balance(1);
    assert_eq!(m.list_v1(1, 7, input(4, 123, 0), 10, FEE_ACCT, 1), Ok(()));
    assert_eq!(m.delist_v1(1, 7, 0), Ok(()));
    // Asset back to the pre-List value; both records gone.
    assert_eq!(m.asset_balance(1, 7), asset_before);
    assert!(!m.is_live(7));
    assert!(m.listing_for_lister(1, 0).is_none());
    assert_eq!(m.escrow_balance(7), 0);
    // No fee refunded on this path.
    assert_eq!(m.lamport_balance(1), lamports_before - MAKER_FEE);
    assert_eq!(m.lamport_balance(FEE_ACCT), MAKER_FEE);
    let c = m.activity_of(1).unwrap();
    assert_eq!(c.listing_count, 0);
    assert_eq!(
        m.events()[1],
        MarketEvent::Delisted(shop22::market::DelistEvent {
            id: RecordAddr::MintIndex { mint: 7 }
        })
    );
}

#[test]
fn settled_listing_rejects_further_settlement() {
    let mut m = funded_market();
    m.credit_lamports(2, 2_000_000_000).unwrap();
    assert_eq!(m.list_v1(1, 7, input(1, 100, 0), 10, FEE_ACCT, 1), Ok(()));
    assert_eq!(m.execute_v1(2, 7, 1, 0, FEE_ACCT), Ok(()));
    let buyer_after = m.lamport_balance(2);
    // A second Execute and a Delist for the same mint must both fail
    // with "listing not found" and change nothing.
    assert_eq!(m.execute_v1(2, 7, 1, 0, FEE_ACCT), Err(MarketError::ListingNotFound));
    assert_eq!(m.delist_v1(1, 7, 0), Err(MarketError::ListingNotFound));
    assert_eq!(m.lamport_balance(2), buyer_after);
    assert_eq!(m.asset_balance(2, 7), 1);
}

#[test]
fn delisted_listing_rejects_execute() {
    let mut m = funded_market();
    m.credit_lamports(2, 2_000_000_000).unwrap();
    assert_eq!(m.list_v1(1, 7, input(1, 100, 0), 10, FEE_ACCT, 1), Ok(()));
    assert_eq!(m.delist_v1(1, 7, 0), Ok(()));
    assert_eq!(m.execute_v1(2, 7, 1, 0, FEE_ACCT), Err(MarketError::ListingNotFound));
    assert_eq!(m.delist_v1(1, 7, 0), Err(MarketError::ListingNotFound));
}

#[test]
fn execute_with_foreign_lister_index_fails_mint_match() {
    // Lister 1 lists mint 7; lister 2 lists mint 8, both under index 0.
    let mut m = funded_market();
    m.credit_lamports(2, 10_000_000).unwrap();
    m.credit_asset(2, 8, 1).unwrap();
    m.credit_lamports(3, 2_000_000_000).unwrap();
    assert_eq!(m.list_v1(1, 7, input(1, 100, 0), 10, FEE_ACCT, 1), Ok(()));
    assert_eq!(m.list_v1(2, 8, input(1, 100, 0), 10, FEE_ACCT, 1), Ok(()));
    // Supplying mint 7 with lister 2's index record must fail the
    // explicit mint-match check, not close an unrelated record.
    assert_eq!(m.execute_v1(3, 7, 2, 0, FEE_ACCT), Err(MarketError::MintMismatch));
    assert!(m.is_live(7));
    assert!(m.is_live(8));
    assert!(m.listing_for_lister(2, 0).is_some());
}

#[test]
fn operations_leave_other_listings_untouched() {
    let mut m = funded_market();
    m.credit_lamports(2, 10_000_000).unwrap();
    m.credit_asset(2, 8, 3).unwrap();
    m.credit_lamports(3, 2_000_000_000).unwrap();
    assert_eq!(m.list_v1(1, 7, input(1, 100, 0), 10, FEE_ACCT, 1), Ok(()));
    assert_eq!(m.list_v1(2, 8, input(3, 200, 5), 11, FEE_ACCT, 2), Ok(()));
    let other_record = m.listing_for_mint(8).unwrap();
    let other_counters = m.activity_of(2).unwrap();
    assert_eq!(m.execute_v1(3, 7, 1, 0, FEE_ACCT), Ok(()));
    // Listing B is exactly as before.
    assert_eq!(m.listing_for_mint(8), Some(other_record));
    assert_eq!(m.listing_for_lister(2, 5), Some(other_record));
    assert_eq!(m.escrow_balance(8), 3);
    assert_eq!(m.activity_of(2), Some(other_counters));
}

#[test]
fn list_rejects_zero_amount() {
    let mut m = funded_market();
    assert_eq!(
        m.list_v1(1, 7, input(0, 100, 0), 10, FEE_ACCT, 1),
        Err(MarketError::InvalidAmount)
    );
    assert!(!m.is_live(7));
}

#[test]
fn list_rejects_wrong_fee_account() {
    let mut m = funded_market();
    assert_eq!(
        m.list_v1(1, 7, input(1, 100, 0), 10, FEE_ACCT + 1, 1),
        Err(MarketError::ProtocolFeeAccountMismatch)
    );
    assert_eq!(m.lamport_balance(1), 10_000_000);
}

#[test]
fn execute_rejects_wrong_fee_account() {
    let mut m = funded_market();
    m.credit_lamports(2, 2_000_000_000).unwrap();
    assert_eq!(m.list_v1(1, 7, input(1, 100, 0), 10, FEE_ACCT, 1), Ok(()));
    assert_eq!(
        m.execute_v1(2, 7, 1, 0, FEE_ACCT + 1),
        Err(MarketError::ProtocolFeeAccountMismatch)
    );
    assert!(m.is_live(7));
}

#[test]
fn list_rejects_duplicate_mint() {
    let mut m = funded_market();
    m.credit_lamports(2, 10_000_000).unwrap();
    m.credit_asset(2, 7, 1).unwrap();
    assert_eq!(m.list_v1(1, 7, input(1, 100, 0), 10, FEE_ACCT, 1), Ok(()));
    assert_eq!(
        m.list_v1(2, 7, input(1, 100, 0), 10, FEE_ACCT, 1),
        Err(MarketError::ListingAlreadyExists)
    );
}

#[test]
fn list_rejects_lister_index_collision() {
    let mut m = funded_market();
    m.credit_asset(1, 8, 1).unwrap();
    assert_eq!(m.list_v1(1, 7, input(1, 100, 4), 10, FEE_ACCT, 1), Ok(()));
    assert_eq!(
        m.list_v1(1, 8, input(1, 100, 4), 10, FEE_ACCT, 1),
        Err(MarketError::ListerIndexCollision)
    );
    // A different index works.
    assert_eq!(m.list_v1(1, 8, input(1, 100, 5), 10, FEE_ACCT, 1), Ok(()));
}

#[test]
fn list_rejects_insufficient_asset_balance() {
    let mut m = funded_market();
    assert_eq!(
        m.list_v1(1, 7, input(6, 100, 0), 10, FEE_ACCT, 1),
        Err(MarketError::InsufficientAssetBalance)
    );
}

#[test]
fn list_rejects_insufficient_maker_fee() {
    let mut m = Market::new(FEE_ACCT);
    m.credit_lamports(1, MAKER_FEE - 1).unwrap();
    m.credit_asset(1, 7, 1).unwrap();
    assert_eq!(
        m.list_v1(1, 7, input(1, 100, 0), 10, FEE_ACCT, 1),
        Err(MarketError::InsufficientFunds)
    );
}

#[test]
fn execute_rejects_insufficient_buyer_funds() {
    let mut m = funded_market();
    m.credit_lamports(2, 99).unwrap();
    assert_eq!(m.list_v1(1, 7, input(1, 100, 0), 10, FEE_ACCT, 1), Ok(()));
    assert_eq!(m.execute_v1(2, 7, 1, 0, FEE_ACCT), Err(MarketError::InsufficientFunds));
    assert!(m.is_live(7));
    assert_eq!(m.lamport_balance(2), 99);
}

#[test]
fn execute_rejects_lister_balance_overflow() {
    let mut m = funded_market();
    m.credit_lamports(2, 2_000_000_000).unwrap();
    assert_eq!(m.list_v1(1, 7, input(1, 100, 0), 10, FEE_ACCT, 1), Ok(()));
    // Fill the lister's balance to the brim: receiving the price would overflow.
    let headroom = u64::MAX - m.lamport_balance(1);
    m.credit_lamports(1, headroom).unwrap();
    assert_eq!(m.execute_v1(2, 7, 1, 0, FEE_ACCT), Err(MarketError::BalanceOverflow));
    assert!(m.is_live(7));
    assert_eq!(m.lamport_balance(2), 2_000_000_000);
}

#[test]
fn credit_rejects_overflow() {
    let mut m = Market::new(FEE_ACCT);
    m.credit_lamports(1, u64::MAX).unwrap();
    assert_eq!(m.credit_lamports(1, 1), Err(MarketError::BalanceOverflow));
    m.credit_asset(1, 7, u64::MAX).unwrap();
    assert_eq!(m.credit_asset(1, 7, 1), Err(MarketError::BalanceOverflow));
}

#[test]
fn extended_mint_round_trip() {
    let mut m = funded_market();
    assert!(!m.mint_is_extended(7));
    m.register_mint(7, true);
    assert!(m.mint_is_extended(7));
    m.credit_lamports(2, 2_000_000_000).unwrap();
    assert_eq!(m.list_v1(1, 7, input(2, 100, 0), 10, FEE_ACCT, 1), Ok(()));
    assert_eq!(m.execute_v1(2, 7, 1, 0, FEE_ACCT), Ok(()));
    assert_eq!(m.asset_balance(2, 7), 2);
}

#[test]
fn derived_addresses_carry_their_seeds() {
    assert_eq!(derive_mint_index_addr(7), RecordAddr::MintIndex { mint: 7 });
    assert_eq!(
        derive_lister_index_addr(1, 3),
        RecordAddr::ListerIndex {
            lister: 1,
            lister_index: 3
        }
    );
    assert_eq!(
        derive_activity_counters_addr(5),
        RecordAddr::ActivityCounters { actor: 5 }
    );
    assert_ne!(
        derive_mint_index_addr(7),
        derive_lister_index_addr(7, 0)
    );
}

#[test]
fn counters_are_created_lazily_and_never_destroyed() {
    let mut m = funded_market();
    m.credit_lamports(2, 2_000_000_000).unwrap();
    assert!(m.activity_of(1).is_none());
    assert!(m.activity_of(2).is_none());
    assert_eq!(m.list_v1(1, 7, input(1, 100, 0), 10, FEE_ACCT, 1), Ok(()));
    assert!(m.activity_of(1).is_some());
    assert_eq!(m.execute_v1(2, 7, 1, 0, FEE_ACCT), Ok(()));
    // Both records outlive the listing.
    assert!(m.activity_of(1).is_some());
    let bc = m.activity_of(2).unwrap();
    assert_eq!(bc.actor, 2);
}

#[test]
fn buyer_may_be_the_lister() {
    // A lister buying back their own listing: the price and the maker
    // refund net out; only the net taker fee leaves.
    let mut m = Market::new(FEE_ACCT);
    m.credit_lamports(1, 10_000_000).unwrap();
    m.credit_asset(1, 7, 1).unwrap();
    assert_eq!(m.list_v1(1, 7, input(1, 100, 0), 10, FEE_ACCT, 1), Ok(()));
    let before = m.lamport_balance(1);
    assert_eq!(m.execute_v1(1, 7, 1, 0, FEE_ACCT), Ok(()));
    assert_eq!(m.lamport_balance(1), before - (TAKER_FEE - MAKER_FEE));
    assert_eq!(m.asset_balance(1, 7), 1);
    let c = m.activity_of(1).unwrap();
    assert_eq!(c.sold_count, 1);
    assert_eq!(c.purchase_count, 1);
    assert_eq!(c.total_amount_sold, 100);
    assert_eq!(c.total_amount_bought, 100);
}

#[test]
fn delist_by_wrong_caller_fails() {
    let mut m = funded_market();
    assert_eq!(m.list_v1(1, 7, input(1, 100, 0), 10, FEE_ACCT, 1), Ok(()));
    // Actor 2 has no lister index record for (2, 0): not the recorded lister.
    assert_eq!(m.delist_v1(2, 7, 0), Err(MarketError::ListingNotFound));
    assert!(m.is_live(7));
    assert_eq!(m.asset_balance(2, 7), 0);
}

#[test]
fn error_descriptions_are_distinct() {
    let errs = [
        MarketError::InvalidAmount,
        MarketError::ProtocolFeeAccountMismatch,
        MarketError::ListingAlreadyExists,
        MarketError::ListerIndexCollision,
        MarketError::ListingNotFound,
        MarketError::MintMismatch,
        MarketError::InsufficientAssetBalance,
        MarketError::InsufficientFunds,
        MarketError::BalanceOverflow,
    ];
    for i in 0..errs.len() {
        for j in 0..errs.len() {
            if i != j {
                assert_ne!(errs[i].describe(), errs[j].describe());
            }
        }
    }
    assert_eq!(MarketError::ListingNotFound.describe(), "listing not found");
}
