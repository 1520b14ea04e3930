//! Errors with which a marketplace operation can be rejected.  Every
//! failure aborts the whole operation: nothing observable changes.

use vstd::prelude::*;

verus! {

/// Why an operation was rejected.
#[derive(Clone, Copy, PartialEq, Eq, Structural, Debug)]
pub enum MarketError {
    /// List: the requested quantity was zero.
    InvalidAmount,
    /// The supplied protocol fee account is not the configured one.
    ProtocolFeeAccountMismatch,
    /// List: a live listing already exists for this mint.
    ListingAlreadyExists,
    /// List: the lister already has a listing under this lister_index.
    ListerIndexCollision,
    /// Execute/Delist: no live listing under the given derivation path.
    ListingNotFound,
    /// Execute/Delist: the lister-index record found under the supplied
    /// path does not belong to the supplied mint.
    MintMismatch,
    /// List: the lister holds fewer asset units than offered for sale.
    InsufficientAssetBalance,
    /// A monetary transfer failed because the source balance is short.
    InsufficientFunds,
    /// A transfer failed because the destination balance would exceed the
    /// largest representable amount.
    BalanceOverflow,
}

impl MarketError {
    /// A short human-readable name for the error.
    pub fn describe(&self) -> String {
        match self {
            MarketError::InvalidAmount => "invalid amount".to_string(),
            MarketError::ProtocolFeeAccountMismatch => "protocol fee account mismatch".to_string(),
            MarketError::ListingAlreadyExists => "listing already exists".to_string(),
            MarketError::ListerIndexCollision => "lister index collision".to_string(),
            MarketError::ListingNotFound => "listing not found".to_string(),
            MarketError::MintMismatch => "mint mismatch".to_string(),
            MarketError::InsufficientAssetBalance => "insufficient asset balance".to_string(),
            MarketError::InsufficientFunds => "insufficient funds".to_string(),
            MarketError::BalanceOverflow => "balance overflow".to_string(),
        }
    }
}

} // verus!
