//! Failure reasons.
//!
//! Every failure is synchronous and terminal for the enclosing call: a
//! method that returns one of these errors has changed nothing. The
//! variants follow the checks the methods make, so each error names the
//! exact condition under which it is returned.

use vstd::prelude::*;

verus! {

#[derive(Clone, Copy, Debug, PartialEq, Eq, Structural)]
pub enum StableCoinError {
    /// Instantiation: the metadata has no `provider_name` entry, or its
    /// value is blank.
    MissingProviderName,
    /// Instantiation: the initial supply is negative.
    NegativeInitialSupply,
    /// An operation amount that must be positive is zero or negative.
    NonPositiveAmount,
    /// A vault does not hold the amount to be withdrawn or burned.
    InsufficientBalance,
    /// A balance or the total supply would exceed the representable range.
    BalanceOverflow,
    /// A bucket carries a different resource than the vault it is meant
    /// for.
    ResourceMismatch,
    /// The wrapped token was not enabled at instantiation.
    WrappedTokenNotEnabled,
    /// A proof attests to a different badge resource than required.
    WrongProofResource,
    /// A proof that must carry exactly one user badge carries none or
    /// several.
    ProofMustContainExactlyOneBadge,
    /// A proof that must carry at least one admin badge carries none.
    ProofMustContainBadge,
    /// No live badge exists for the user id.
    UnknownUser,
    /// A badge for the user id already exists.
    DuplicateUserId,
    /// An admin badge with this id already exists.
    DuplicateAdminBadgeId,
    /// The amount exceeds the user's remaining wrapped-exchange limit.
    ExchangeLimitExceeded,
    /// The fee exceeds the amount being exchanged.
    InsufficientFundsForFee,
    /// An exchange limit to be set is zero or negative.
    NonPositiveLimit,
    /// The user's badge is already held in the blacklist vault.
    UserAlreadyBlacklisted,
    /// The user's badge is not held in the blacklist vault.
    UserNotBlacklisted,
    /// The user's account has no vault for the token to be recalled.
    NoVaultForToken,
    /// A percentage fee above one hundred.
    PercentageOutOfRange,
    /// The issuer is paused, so the deposit is rejected.
    TokenPaused,
    /// A deposit attempted from a static template function, with no caller
    /// component.
    DepositNotPermittedFromTemplate,
    /// A deposit whose destination component is not an account.
    DepositMustBeToAccount,
    /// The destination account holds no user badge, neither free nor
    /// locked.
    AccountLacksUserBadge,
}

} // verus!
