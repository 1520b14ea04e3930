//! A ledger-hosted escrow marketplace, modeled and verified as a state
//! machine.  A seller ("lister") places a fungible asset into escrow and
//! advertises a price; a buyer may complete the purchase, or the seller may
//! reclaim the asset.  Each listing is tracked by two synchronized index
//! records — one keyed by the asset (mint), one keyed by the seller and a
//! seller-chosen disambiguator — which are created and destroyed in lockstep.

pub mod addr;
pub mod errors;
pub mod state;
pub mod market;
pub mod laws;
