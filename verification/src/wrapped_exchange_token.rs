//! The optional wrapped exchange token.
//!
//! A plain fungible companion of the primary token: its total supply is
//! kept in lock-step with the primary supply, and its vault holds every
//! wrapped unit that has not been exchanged out to a user.

use vstd::prelude::*;

use crate::amount::Amount;
use crate::resources::ResourcePolicy;
use crate::resources::Vault;

verus! {

/// The wrapped token's sub-ledger: its vault, its total supply, and the
/// declarative policy its resource was created with.
#[derive(Debug, PartialEq, Eq)]
pub struct WrappedExchangeToken {
    pub vault: Vault,
    pub total_supply: Amount,
    pub policy: ResourcePolicy,
}

impl WrappedExchangeToken {
    pub fn vault(&self) -> (r: &Vault)
        ensures
            *r == self.vault,
    {
        &self.vault
    }

    pub fn total_supply(&self) -> (r: Amount)
        ensures
            r == self.total_supply,
    {
        self.total_supply
    }
}

} // verus!
