//! A model of the host the contract runs on: its per-instance key-value
//! storage, and the call environment — clock reading, authorization proofs
//! supplied with the call, the instance's own address, and the asset ledger.
//!
//! The controller takes the environment as an explicit `&mut` dependency, so
//! its two entry points are verified against every state the host could be
//! in, and tests can drive them without a host.

use vstd::prelude::*;

use crate::ledger::TokenLedger;
use crate::types::Address;
use crate::types::ClaimableBalance;
use crate::types::DataKey;

verus! {

/// The contract instance's persistent storage: one slot per [`DataKey`].
///
/// `init` stands for the presence of the [`DataKey::Init`] marker, `balance`
/// for the value stored under [`DataKey::Balance`].
pub struct InstanceStorage {
    /// Set on the first successful deposit, never cleared.
    pub init: bool,
    /// The live escrow record, if any.
    pub balance: Option<ClaimableBalance>,
}

impl InstanceStorage {
    /// Storage as it is at contract creation: both slots empty.
    pub fn new() -> (s: InstanceStorage)
        ensures
            !s.init,
            s.balance is None,
    {
        InstanceStorage { init: false, balance: None }
    }

    /// Whether the slot for `key` holds a value.
    pub fn has(&self, key: &DataKey) -> (r: bool)
        ensures
            r == match *key {
                DataKey::Init => self.init,
                DataKey::Balance => self.balance is Some,
            },
    {
        match key {
            DataKey::Init => self.init,
            DataKey::Balance => self.balance.is_some(),
        }
    }

    /// Empty the slot for `key`, leaving the other untouched.
    pub fn remove(&mut self, key: &DataKey)
        ensures
            *key is Init ==> !final(self).init && final(self).balance == old(self).balance,
            *key is Balance ==> final(self).init == old(self).init && final(self).balance is None,
    {
        match key {
            DataKey::Init => {
                self.init = false;
            }
            DataKey::Balance => {
                self.balance = None;
            }
        }
    }
}

/// Everything of the host that one call on the contract can observe or
/// affect.
pub struct Env {
    /// The host clock at the time of the call.
    pub timestamp: u64,
    /// The identities for which the call carries a valid authorization
    /// proof — what the host's authorization provider would accept.
    pub auths: Vec<Address>,
    /// The address under which the contract instance holds custody.
    pub contract_address: Address,
    /// The instance's persistent storage.
    pub storage: InstanceStorage,
    /// The balances of every fungible asset on the host.
    pub ledger: TokenLedger,
}

impl Env {
    /// The environment is usable: its ledger is well-formed.
    pub open spec fn wf(&self) -> bool {
        self.ledger.wf()
    }
}

} // verus!
