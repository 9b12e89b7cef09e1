//! Resources, vaults, buckets and proofs.
//!
//! The engine owns the real resource substrate; the issuer works on the
//! revealed quantities. A vault holds a non-negative revealed balance, a
//! bucket carries tokens between vaults, and a proof attests that the caller
//! holds badges without transferring them.

use vstd::prelude::*;

use crate::access::AccessRule;
use crate::amount::Amount;
use crate::metadata::Metadata;
use crate::user_data::UserData;

verus! {

/// The two fungible resources the issuer owns: the primary stable token and
/// the optional wrapped exchange token.
#[derive(Clone, Copy, Debug, PartialEq, Eq, Structural)]
pub enum ResourceKind {
    Stable,
    Wrapped,
}

/// A container for a revealed quantity of one resource.
#[derive(Clone, Debug, PartialEq, Eq)]
pub struct Vault {
    balance: Amount,
}

impl Vault {
    pub closed spec fn spec_balance(self) -> int {
        self.balance@
    }

    /// A vault balance is never negative.
    pub open spec fn wf(self) -> bool {
        self.spec_balance() >= 0
    }

    pub fn new_empty() -> (r: Vault)
        ensures
            r.spec_balance() == 0,
    {
        Vault { balance: Amount(0) }
    }

    pub fn with_balance(balance: Amount) -> (r: Vault)
        requires
            balance@ >= 0,
        ensures
            r.spec_balance() == balance@,
    {
        Vault { balance }
    }

    pub fn balance(&self) -> (r: Amount)
        ensures
            r@ == self.spec_balance(),
    {
        self.balance
    }

    /// Add a bucket's worth of tokens. Callers check the bounds first and
    /// fail their whole call before any mutation.
    pub(crate) fn deposit(&mut self, amount: Amount)
        requires
            0 <= amount@,
            old(self).spec_balance() + amount@ <= i64::MAX,
        ensures
            final(self).spec_balance() == old(self).spec_balance() + amount@,
    {
        self.balance = Amount(self.balance.0 + amount.0);
    }

    /// Remove tokens. Callers check sufficiency first and fail their whole
    /// call before any mutation.
    pub(crate) fn withdraw(&mut self, amount: Amount)
        requires
            0 <= amount@ <= old(self).spec_balance(),
        ensures
            final(self).spec_balance() == old(self).spec_balance() - amount@,
    {
        self.balance = Amount(self.balance.0 - amount.0);
    }
}

/// A transient container carrying tokens between vaults. The engine never
/// produces a bucket with a negative amount.
#[derive(Clone, Copy, Debug, PartialEq, Eq, Structural)]
pub struct TokenBucket {
    pub resource: ResourceKind,
    pub amount: Amount,
}

impl TokenBucket {
    pub open spec fn wf(self) -> bool {
        self.amount@ >= 0
    }

    pub fn new(resource: ResourceKind, amount: Amount) -> (r: TokenBucket)
        requires
            amount@ >= 0,
        ensures
            r == (TokenBucket { resource, amount }),
    {
        TokenBucket { resource, amount }
    }

    pub fn amount(&self) -> (r: Amount)
        ensures
            r == self.amount,
    {
        self.amount
    }

    pub fn resource(&self) -> (r: ResourceKind)
        ensures
            r == self.resource,
    {
        self.resource
    }
}

/// A bucket holding one recalled or freshly minted user badge.
#[derive(Clone, Copy, Debug, PartialEq, Eq, Structural)]
pub struct UserBadgeBucket {
    pub data: UserData,
}

/// A bucket holding one admin badge. The badge minted at instantiation has
/// id zero and no employee id.
#[derive(Clone, Debug, PartialEq, Eq)]
pub struct AdminBadgeBucket {
    pub badge_id: u64,
    pub employee_id: Option<String>,
}

/// The badge resources a proof can attest to.
#[derive(Clone, Copy, Debug, PartialEq, Eq, Structural)]
pub enum BadgeResource {
    Admin,
    User,
}

/// A caller-supplied attestation of holding badges of one resource, without
/// transferring them.
#[derive(Clone, Debug, PartialEq, Eq)]
pub struct BadgeProof {
    pub resource: BadgeResource,
    pub badge_ids: Vec<u64>,
}

impl BadgeProof {
    pub fn new(resource: BadgeResource, badge_ids: Vec<u64>) -> (r: BadgeProof)
        ensures
            r.resource == resource,
            r.badge_ids@ == badge_ids@,
    {
        BadgeProof { resource, badge_ids }
    }
}

/// A caller-supplied cryptographic proof of the value of a confidential
/// output. The issuer never inspects it; it is handed on to the engine's
/// proof verifier.
#[derive(Clone, Debug, PartialEq, Eq)]
pub struct StealthValueProof {
    pub bytes: Vec<u8>,
}

/// An auditor key under which confidential amounts of the token can be
/// viewed. The issuer only stores it into the token resource's policy.
#[derive(Clone, Debug, PartialEq, Eq)]
pub struct ViewKey {
    pub bytes: Vec<u8>,
}

/// The declarative policy a resource is created with: its symbol and
/// metadata, which credential each action demands, whether deposits route
/// through the issuer's authorization hook, and the optional auditor view
/// key. An action not restricted at construction is unrestricted.
#[derive(Debug, PartialEq, Eq)]
pub struct ResourcePolicy {
    pub symbol: Option<String>,
    pub metadata: Metadata,
    pub mintable: AccessRule,
    pub burnable: AccessRule,
    pub depositable: AccessRule,
    pub withdrawable: AccessRule,
    pub recallable: AccessRule,
    pub updatable_non_fungible_data: AccessRule,
    pub deposits_hooked: bool,
    pub view_key: Option<ViewKey>,
}

} // verus!
