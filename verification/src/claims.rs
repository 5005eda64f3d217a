//! The claim values that claim events carry.

use vstd::prelude::*;

verus! {

/// What a pending claim pays out.
#[derive(Clone, Copy, Debug, PartialEq, Eq, Structural)]
pub enum ClaimType {
    Refund,
    Reward,
    Yield,
}

/// A claim that a user can collect.
#[derive(Clone, Copy, Debug, PartialEq, Eq, Structural)]
pub struct PendingClaim {
    pub claim_type: ClaimType,
    pub amount: i128,
    /// The source (bond, slash, ...) that generated the claim.
    pub source_id: u64,
}

/// The outcome of processing a user's claims.
pub struct ClaimResult {
    pub processed_count: u32,
    pub total_amount: i128,
    pub claim_types: Vec<ClaimType>,
}

} // verus!
