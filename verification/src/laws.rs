//! The guarantees the escrow gives across calls, proved once and for all
//! from the contracts of `deposit` and `claim`.

use vstd::prelude::*;

use crate::contract::claim_outcome;
use crate::contract::claim_transition;
use crate::contract::deposit_outcome;
use crate::contract::deposit_transition;
use crate::host::Env;
use crate::ledger::can_transfer;
use crate::types::Address;
use crate::types::ClaimableBalance;
use crate::types::Error;
use crate::types::TimeBound;
use crate::types::TimeBoundKind;
use crate::types::time_bound_satisfied;

verus! {

/// A record is only ever stored with the initialization marker set:
/// deposit is its sole constructor.  Preserved by both entry points, so it
/// holds of every environment a fresh instance can reach.
pub open spec fn record_implies_initialized(env: Env) -> bool {
    env.storage.balance is Some ==> env.storage.init
}

/// While a record is live, the instance's custody of its asset covers the
/// recorded amount, and the amount itself is non-negative — the funds a
/// claim is to pay out are really there.
pub open spec fn custody_covers_record(env: Env) -> bool {
    env.storage.balance matches Some(b) ==> b.amount >= 0 && env.ledger.spec_balance(
        b.token,
        env.contract_address,
    ) >= b.amount as int
}

/// Single-shot deposit: after any successful deposit, every further
/// deposit on the instance fails with `AlreadyInitialized`, whatever its
/// arguments — except that a claimant list over the limit is rejected as
/// `TooManyClaimants` before the guard is even consulted.
pub proof fn lemma_single_shot_deposit(
    pre: Env,
    post: Env,
    from: Address,
    token: Address,
    amount: i128,
    claimants: Seq<Address>,
    time_bound: TimeBound,
    from2: Address,
    token2: Address,
    amount2: i128,
    claimants2: Seq<Address>,
    time_bound2: TimeBound,
)
    requires
        deposit_outcome(pre, from, token, amount, claimants, time_bound) is Ok,
        deposit_transition(pre, post, from, token, amount, claimants, time_bound),
        claimants2.len() <= 10,
    ensures
        deposit_outcome(post, from2, token2, amount2, claimants2, time_bound2) == Err::<(),
            Error,
        >(Error::AlreadyInitialized),
{
}

/// Time-bound correctness: for a claimant that is authorized, listed, and
/// payable, the claim succeeds exactly when the clock satisfies the stored
/// bound — at or before the timestamp for `Before`, at or after it for
/// `After`; the boundary itself succeeds in both cases.
pub proof fn lemma_time_bound_correctness(env: Env, claimant: Address, b: ClaimableBalance)
    requires
        env.storage.balance == Some(b),
        env.auths@.contains(claimant),
        b.claimants@.contains(claimant),
        can_transfer(env.ledger, b.token, env.contract_address, claimant, b.amount),
    ensures
        claim_outcome(env, claimant) is Ok <==> time_bound_satisfied(env.timestamp, b.time_bound),
        b.time_bound.kind == TimeBoundKind::Before ==> (claim_outcome(env, claimant) is Ok
            <==> env.timestamp <= b.time_bound.timestamp),
        b.time_bound.kind == TimeBoundKind::After ==> (claim_outcome(env, claimant) is Ok
            <==> env.timestamp >= b.time_bound.timestamp),
        env.timestamp == b.time_bound.timestamp ==> claim_outcome(env, claimant) is Ok,
{
}

/// Claimant restriction: an identity absent from the stored claimants can
/// never claim, and once it is authorized and the time window is open, the
/// failure it sees is exactly `ClaimantNotAllowed`.
pub proof fn lemma_claimant_restriction(env: Env, claimant: Address, b: ClaimableBalance)
    requires
        env.storage.balance == Some(b),
        !b.claimants@.contains(claimant),
    ensures
        !(claim_outcome(env, claimant) is Ok),
        env.auths@.contains(claimant) && time_bound_satisfied(env.timestamp, b.time_bound)
            ==> claim_outcome(env, claimant) == Err::<(), Error>(Error::ClaimantNotAllowed),
{
}

/// Exactly-once claim: after a successful claim, no identity whatsoever
/// can claim again; every authorized identity sees `NoActiveEscrow`, and an
/// unauthorized one is stopped earlier with `AuthorizationFailure`.
pub proof fn lemma_exactly_once_claim(pre: Env, post: Env, claimant: Address)
    requires
        claim_outcome(pre, claimant) is Ok,
        claim_transition(pre, post, claimant),
    ensures
        forall|other: Address| !(#[trigger] claim_outcome(post, other) is Ok),
        forall|other: Address|
            post.auths@.contains(other) ==> #[trigger] claim_outcome(post, other) == Err::<(),
                Error,
            >(Error::NoActiveEscrow),
{
}

/// Authorization gating: a call whose environment carries no valid proof
/// for the acting identity never succeeds — and since the entry points
/// leave the environment untouched on every failure, it mutates no storage
/// and moves no funds.
pub proof fn lemma_authorization_gating(
    env: Env,
    from: Address,
    token: Address,
    amount: i128,
    claimants: Seq<Address>,
    time_bound: TimeBound,
)
    requires
        !env.auths@.contains(from),
    ensures
        !(deposit_outcome(env, from, token, amount, claimants, time_bound) is Ok),
        claim_outcome(env, from) == Err::<(), Error>(Error::AuthorizationFailure),
{
}

/// When success is owed: with a live, funded record (which
/// [`custody_covers_record`] guarantees of every reachable state), an
/// authorized, listed claimant inside the time window is refused only when
/// their own balance could no longer be represented.
pub proof fn lemma_claim_success_owed(env: Env, claimant: Address, b: ClaimableBalance)
    requires
        env.wf(),
        custody_covers_record(env),
        env.storage.balance == Some(b),
        env.auths@.contains(claimant),
        time_bound_satisfied(env.timestamp, b.time_bound),
        b.claimants@.contains(claimant),
        claimant != env.contract_address ==> env.ledger.spec_balance(b.token, claimant)
            + b.amount as int <= i128::MAX as int,
    ensures
        claim_outcome(env, claimant) is Ok,
{
}

/// A successful deposit into an instance whose custody of the asset was
/// empty leaves custody holding exactly the recorded amount — the exact
/// form of fund conservation at the moment the record is created.
pub proof fn lemma_deposit_fills_custody(
    pre: Env,
    post: Env,
    from: Address,
    token: Address,
    amount: i128,
    claimants: Seq<Address>,
    time_bound: TimeBound,
)
    requires
        deposit_outcome(pre, from, token, amount, claimants, time_bound) is Ok,
        deposit_transition(pre, post, from, token, amount, claimants, time_bound),
        pre.ledger.spec_balance(token, pre.contract_address) == 0,
    ensures
        post.ledger.spec_balance(token, post.contract_address) == amount as int,
{
}

/// Both entry points preserve [`record_implies_initialized`]: a fresh
/// instance can never reach a state holding a record without the marker.
pub proof fn lemma_record_implies_initialized_preserved(
    pre: Env,
    post: Env,
    from: Address,
    token: Address,
    amount: i128,
    claimants: Seq<Address>,
    time_bound: TimeBound,
    claimant: Address,
)
    requires
        record_implies_initialized(pre),
    ensures
        deposit_transition(pre, post, from, token, amount, claimants, time_bound)
            ==> record_implies_initialized(post),
        claim_transition(pre, post, claimant) ==> record_implies_initialized(post),
{
}

/// Both entry points preserve [`custody_covers_record`]: a successful
/// deposit funds the record it stores, and a successful claim deletes the
/// record it pays out.
pub proof fn lemma_custody_covers_record_preserved(
    pre: Env,
    post: Env,
    from: Address,
    token: Address,
    amount: i128,
    claimants: Seq<Address>,
    time_bound: TimeBound,
    claimant: Address,
)
    requires
        pre.wf(),
        custody_covers_record(pre),
    ensures
        deposit_outcome(pre, from, token, amount, claimants, time_bound) is Ok
            && deposit_transition(pre, post, from, token, amount, claimants, time_bound)
            ==> custody_covers_record(post),
        claim_transition(pre, post, claimant) ==> custody_covers_record(post),
{
    if deposit_outcome(pre, from, token, amount, claimants, time_bound) is Ok
        && deposit_transition(pre, post, from, token, amount, claimants, time_bound) {
        pre.ledger.lemma_balance_nonnegative(token, pre.contract_address);
    }
}

} // verus!
