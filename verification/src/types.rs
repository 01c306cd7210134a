//! Value types of the escrow: identities, time bounds, the stored record,
//! the storage keys, and the error taxonomy.

use vstd::prelude::*;

verus! {

/// An identity on the host ledger: an account or a contract instance.
///
/// Identities are opaque to the escrow logic — all it ever does is compare
/// them for equality — so they are modelled by a plain numeric id.
#[derive(Clone, Copy, PartialEq, Eq, Structural, Debug)]
pub struct Address(pub u64);

/// Keys under which the contract keeps its two pieces of persistent state.
#[derive(Clone, Copy, PartialEq, Eq, Structural, Debug)]
pub enum DataKey {
    /// Present exactly from the first successful deposit on: gates any
    /// further deposit for the lifetime of the instance.
    Init,
    /// Holds the claimable balance record while the escrow is live.
    Balance,
}

/// Which side of the timestamp a claim must fall on.
#[derive(Clone, Copy, PartialEq, Eq, Structural, Debug)]
pub enum TimeBoundKind {
    /// Claims are allowed up to and including the timestamp.
    Before,
    /// Claims are allowed from the timestamp on, inclusive.
    After,
}

/// The time condition governing release of the escrowed funds.
#[derive(Clone, Copy, PartialEq, Eq, Structural, Debug)]
pub struct TimeBound {
    pub kind: TimeBoundKind,
    pub timestamp: u64,
}

/// The escrow record: what is held, how much, for whom, and until/from when.
#[derive(Clone, Debug)]
pub struct ClaimableBalance {
    /// The asset held in custody.
    pub token: Address,
    /// The exact amount moved into custody at deposit time; a claim always
    /// consumes it whole.
    pub amount: i128,
    /// The identities allowed to claim; at most ten, duplicates harmless.
    pub claimants: Vec<Address>,
    /// The condition under which a claim may succeed.
    pub time_bound: TimeBound,
}

/// Whether a clock reading satisfies a time bound.  Both bounds are
/// inclusive: a claim exactly at the timestamp succeeds either way.
pub open spec fn time_bound_satisfied(now: u64, time_bound: TimeBound) -> bool {
    match time_bound.kind {
        TimeBoundKind::Before => now <= time_bound.timestamp,
        TimeBoundKind::After => now >= time_bound.timestamp,
    }
}

/// Every way a call on the escrow can fail.  Failure is fatal to the call:
/// nothing is committed.
#[derive(Clone, Copy, PartialEq, Eq, Structural, Debug)]
pub enum Error {
    /// Deposit named more than ten claimants.
    TooManyClaimants,
    /// Deposit attempted against an instance that already accepted one.
    AlreadyInitialized,
    /// The caller did not supply a valid authorization proof for this call.
    AuthorizationFailure,
    /// The asset ledger refused to move the funds.
    TransferFailure,
    /// Claim attempted with no live record: never deposited, or already
    /// claimed — the two are indistinguishable by design.
    NoActiveEscrow,
    /// Claim attempted outside the permitted time window.
    TimeConditionUnmet,
    /// The caller is not among the stored claimants.
    ClaimantNotAllowed,
}

} // verus!
