//! Deterministic address derivation for the marketplace's records.
//!
//! Every record lives at an address computed from seed components alone, so
//! any caller who knows the components can re-derive the address; no lookup
//! table is needed and no private key ever exists for a derived address.
//! Derivation is collision-resistant by construction: distinct derivation
//! paths are distinct variants, and within a path the seed components are
//! carried verbatim.

use vstd::prelude::*;

verus! {

/// The address of a marketplace record, as derived from its seed
/// components.  Two addresses are equal exactly when their derivation
/// paths and seed components are equal.
#[derive(Clone, Copy, PartialEq, Eq, Structural, Debug)]
pub enum RecordAddr {
    /// The mint index: the listing record addressed by the mint alone.
    MintIndex { mint: u64 },
    /// The lister index: the listing record addressed by the lister and
    /// the lister-chosen disambiguator.
    ListerIndex { lister: u64, lister_index: u8 },
    /// The per-actor activity counters record.
    ActivityCounters { actor: u64 },
}

/// Derive the address of the mint index record for `mint`.
pub fn derive_mint_index_addr(mint: u64) -> (r: RecordAddr)
    ensures
        r == (RecordAddr::MintIndex { mint }),
{
    RecordAddr::MintIndex { mint }
}

/// Derive the address of the lister index record for `(lister, lister_index)`.
pub fn derive_lister_index_addr(lister: u64, lister_index: u8) -> (r: RecordAddr)
    ensures
        r == (RecordAddr::ListerIndex { lister, lister_index }),
{
    RecordAddr::ListerIndex { lister, lister_index }
}

/// Derive the address of the activity counters record for `actor`.
pub fn derive_activity_counters_addr(actor: u64) -> (r: RecordAddr)
    ensures
        r == (RecordAddr::ActivityCounters { actor }),
{
    RecordAddr::ActivityCounters { actor }
}

/// The proof of authority over a listing's escrow account: the seed
/// components and salt from which the escrow authority address — the mint
/// index record's own address — was derived.  The custody logic accepts a
/// movement out of escrow only if re-deriving the authority from this
/// proof reproduces the authority recorded when the escrow was created.
#[derive(Clone, Copy, PartialEq, Eq, Structural, Debug)]
pub struct AuthoritySeeds {
    /// The mint seed component of the escrow authority address.
    pub mint: u64,
    /// The derivation salt recorded in the listing records.
    pub bump: u8,
}

/// One storage key for a pair of 64-bit seed components: the high
/// component in the upper 64 bits, the low component in the lower 64 bits.
pub open spec fn spec_pack_key(hi: u64, lo: u64) -> u128 {
    (hi as u128 * 0x1_0000_0000_0000_0000 + lo as u128) as u128
}

/// Computes `spec_pack_key(hi, lo)`.
pub fn pack_key(hi: u64, lo: u64) -> (r: u128)
    ensures
        r == spec_pack_key(hi, lo),
{
    (hi as u128) * 0x1_0000_0000_0000_0000u128 + (lo as u128)
}

/// Packing is injective: a packed key determines both seed components.
pub proof fn lemma_pack_key_injective(h1: u64, l1: u64, h2: u64, l2: u64)
    requires
        spec_pack_key(h1, l1) == spec_pack_key(h2, l2),
    ensures
        h1 == h2,
        l1 == l2,
{
    assert(h1 == h2 && l1 == l2) by (nonlinear_arith)
        requires
            h1 as u128 * 0x1_0000_0000_0000_0000 + l1 as u128 == h2 as u128
                * 0x1_0000_0000_0000_0000 + l2 as u128,
            (l1 as u128) < 0x1_0000_0000_0000_0000,
            (l2 as u128) < 0x1_0000_0000_0000_0000,
    ;
}

/// The storage key of the lister index record for `(lister, lister_index)`.
pub open spec fn spec_lister_key(lister: u64, lister_index: u8) -> u128 {
    spec_pack_key(lister, lister_index as u64)
}

/// Computes `spec_lister_key(lister, lister_index)`.
pub fn lister_key(lister: u64, lister_index: u8) -> (r: u128)
    ensures
        r == spec_lister_key(lister, lister_index),
{
    pack_key(lister, lister_index as u64)
}

/// Lister keys are injective in both seed components.
pub proof fn lemma_lister_key_injective(l1: u64, i1: u8, l2: u64, i2: u8)
    requires
        spec_lister_key(l1, i1) == spec_lister_key(l2, i2),
    ensures
        l1 == l2,
        i1 == i2,
{
    lemma_pack_key_injective(l1, i1 as u64, l2, i2 as u64);
}

} // verus!
