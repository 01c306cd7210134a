//! The escrow controller: the `deposit` and `claim` entry points, and the
//! spec-level account of exactly what each returns and how each moves the
//! environment.

use vstd::prelude::*;

use crate::host::Env;
use crate::ledger::can_transfer;
use crate::ledger::ledger_moved;
use crate::types::Address;
use crate::types::ClaimableBalance;
use crate::types::DataKey;
use crate::types::Error;
use crate::types::TimeBound;
use crate::types::TimeBoundKind;
use crate::types::time_bound_satisfied;

verus! {

/// The escrow controller.  A contract instance supports exactly one escrow
/// over its lifetime: created by [`ClaimableBalanceContract::deposit`],
/// consumed by [`ClaimableBalanceContract::claim`].
pub struct ClaimableBalanceContract;

/// What `deposit` returns on environment `env`, checked in the order the
/// controller checks: claimant count, the one-shot initialization guard,
/// the depositor's authorization, then the transfer into custody.
pub open spec fn deposit_outcome(
    env: Env,
    from: Address,
    token: Address,
    amount: i128,
    claimants: Seq<Address>,
    time_bound: TimeBound,
) -> Result<(), Error> {
    if claimants.len() > 10 {
        Err(Error::TooManyClaimants)
    } else if env.storage.init {
        Err(Error::AlreadyInitialized)
    } else if !env.auths@.contains(from) {
        Err(Error::AuthorizationFailure)
    } else if !can_transfer(env.ledger, token, from, env.contract_address, amount) {
        Err(Error::TransferFailure)
    } else {
        Ok(())
    }
}

/// How a successful deposit moves the environment: `amount` units of
/// `token` pass from the depositor into custody and no other balance
/// changes, the record is stored as given, the initialization marker is
/// set, and nothing else of the host changes.
pub open spec fn deposit_transition(
    pre: Env,
    post: Env,
    from: Address,
    token: Address,
    amount: i128,
    claimants: Seq<Address>,
    time_bound: TimeBound,
) -> bool {
    &&& post.timestamp == pre.timestamp
    &&& post.auths == pre.auths
    &&& post.contract_address == pre.contract_address
    &&& post.storage.init
    &&& post.storage.balance matches Some(b) && b.token == token && b.amount == amount
        && b.claimants@ == claimants && b.time_bound == time_bound
    &&& ledger_moved(pre.ledger, post.ledger, token, from, pre.contract_address, amount)
}

/// What `claim` returns on environment `env`, checked in the order the
/// controller checks: the claimant's authorization, the record's existence,
/// the time bound, membership in the stored claimants, then the transfer
/// out of custody.
pub open spec fn claim_outcome(env: Env, claimant: Address) -> Result<(), Error> {
    if !env.auths@.contains(claimant) {
        Err(Error::AuthorizationFailure)
    } else {
        match env.storage.balance {
            None => Err(Error::NoActiveEscrow),
            Some(b) => {
                if !time_bound_satisfied(env.timestamp, b.time_bound) {
                    Err(Error::TimeConditionUnmet)
                } else if !b.claimants@.contains(claimant) {
                    Err(Error::ClaimantNotAllowed)
                } else if !can_transfer(env.ledger, b.token, env.contract_address, claimant, b.amount) {
                    Err(Error::TransferFailure)
                } else {
                    Ok(())
                }
            }
        }
    }
}

/// How a successful claim moves the environment: the whole stored amount
/// passes from custody to the claimant and no other balance changes, the
/// record is deleted, and everything else of the host — the initialization
/// marker included — stays as it was.
pub open spec fn claim_transition(pre: Env, post: Env, claimant: Address) -> bool {
    match pre.storage.balance {
        None => false,
        Some(b) => {
            &&& post.timestamp == pre.timestamp
            &&& post.auths == pre.auths
            &&& post.contract_address == pre.contract_address
            &&& post.storage.init == pre.storage.init
            &&& post.storage.balance is None
            &&& ledger_moved(
                pre.ledger,
                post.ledger,
                b.token,
                pre.contract_address,
                claimant,
                b.amount,
            )
        }
    }
}

/// Whether the host clock, as the environment reports it, satisfies the
/// given time bound.  Both bounds are inclusive.
pub fn check_time_bound(env: &Env, time_bound: &TimeBound) -> (r: bool)
    ensures
        r == time_bound_satisfied(env.timestamp, *time_bound),
{
    match time_bound.kind {
        TimeBoundKind::Before => env.timestamp <= time_bound.timestamp,
        TimeBoundKind::After => env.timestamp >= time_bound.timestamp,
    }
}

/// Whether the instance has already accepted its one deposit.
pub fn is_initialized(env: &Env) -> (r: bool)
    ensures
        r == env.storage.init,
{
    env.storage.has(&DataKey::Init)
}

fn contains_address(addresses: &Vec<Address>, address: Address) -> (r: bool)
    ensures
        r == addresses@.contains(address),
{
    let mut i: usize = 0;
    while i < addresses.len()
        invariant
            i <= addresses@.len(),
            forall|j: int| 0 <= j < i ==> addresses@[j] != address,
        decreases addresses@.len() - i,
    {
        if addresses[i] == address {
            return true;
        }
        i = i + 1;
    }
    false
}

impl ClaimableBalanceContract {
    /// Lock `amount` units of `token`, taken from `from`, for the given
    /// `claimants` under `time_bound`.  Fails — leaving the environment
    /// untouched — exactly as [`deposit_outcome`] says; on success the
    /// environment moves as [`deposit_transition`] says.
    ///
    /// The amount is not required to be positive: a zero amount is accepted
    /// (the transfer of nothing succeeds), and a negative one is rejected by
    /// the ledger itself as `TransferFailure`, matching what the asset
    /// collaborator enforces.
    pub fn deposit(
        env: &mut Env,
        from: Address,
        token: Address,
        amount: i128,
        claimants: Vec<Address>,
        time_bound: TimeBound,
    ) -> (r: Result<(), Error>)
        requires
            old(env).wf(),
        ensures
            final(env).wf(),
            r == deposit_outcome(*old(env), from, token, amount, claimants@, time_bound),
            r is Ok ==> deposit_transition(
                *old(env),
                *final(env),
                from,
                token,
                amount,
                claimants@,
                time_bound,
            ),
            r is Err ==> *final(env) == *old(env),
    {
        if claimants.len() > 10 {
            return Err(Error::TooManyClaimants);
        }
        if is_initialized(env) {
            return Err(Error::AlreadyInitialized);
        }
        if !contains_address(&env.auths, from) {
            return Err(Error::AuthorizationFailure);
        }
        let contract_address = env.contract_address;
        match env.ledger.transfer(token, from, contract_address, amount) {
            Err(_) => Err(Error::TransferFailure),
            Ok(()) => {
                env.storage.balance = Some(
                    ClaimableBalance { token, amount, claimants, time_bound },
                );
                env.storage.init = true;
                Ok(())
            }
        }
    }

    /// Release the whole escrowed amount to `claimant`.  Fails — leaving
    /// the environment untouched — exactly as [`claim_outcome`] says; on
    /// success the environment moves as [`claim_transition`] says.
    pub fn claim(env: &mut Env, claimant: Address) -> (r: Result<(), Error>)
        requires
            old(env).wf(),
        ensures
            final(env).wf(),
            r == claim_outcome(*old(env), claimant),
            r is Ok ==> claim_transition(*old(env), *final(env), claimant),
            r is Err ==> *final(env) == *old(env),
    {
        if !contains_address(&env.auths, claimant) {
            return Err(Error::AuthorizationFailure);
        }
        let (token, amount) = match &env.storage.balance {
            None => {
                return Err(Error::NoActiveEscrow);
            }
            Some(balance) => {
                if !check_time_bound(env, &balance.time_bound) {
                    return Err(Error::TimeConditionUnmet);
                }
                if !contains_address(&balance.claimants, claimant) {
                    return Err(Error::ClaimantNotAllowed);
                }
                (balance.token, balance.amount)
            }
        };
        let contract_address = env.contract_address;
        match env.ledger.transfer(token, contract_address, claimant, amount) {
            Err(_) => Err(Error::TransferFailure),
            Ok(()) => {
                env.storage.remove(&DataKey::Balance);
                Ok(())
            }
        }
    }
}

} // verus!
