//! Laws of the issuer, stated and proved once for all states.
//!
//! Each proof function here states a property that relates several
//! operations, over the same spec functions the operations' own contracts
//! use: a caller holding those contracts can apply these laws directly.

use vstd::prelude::*;

use crate::amount::Amount;
use crate::errors::StableCoinError;
use crate::issuer::blacklist_registry_post;
use crate::issuer::unblacklist_registry_post;
use crate::issuer::AuthHookCaller;
use crate::issuer::CallerComponent;
use crate::issuer::ResourceAuthAction;
use crate::issuer::TariStableCoin;
use crate::registry::UserRecord;
use crate::resources::BadgeProof;
use crate::resources::TokenBucket;
use crate::user_data::UserId;
use crate::user_data::UserMutableData;

verus! {

/// Supply pairing: whenever the wrapped token is enabled, a well-formed
/// issuer's wrapped total supply equals the primary total supply. Every
/// operation requires and re-establishes well-formedness, so across any
/// sequence of supply changes the two supplies agree at every observation
/// point.
pub proof fn lemma_wrapped_supply_pairing(issuer: TariStableCoin)
    requires
        issuer.wf(),
        issuer.wrapped_enabled(),
    ensures
        issuer.spec_wrapped_supply() == issuer.token_total_supply@,
{
}

/// Exchange-limit monotonicity: a permitted exchange leaves the user's
/// remaining limit lower by exactly the transacted amount (`post` is the
/// state the exchange contract prescribes), and a subsequent exchange
/// whose amount exceeds the new remaining limit is rejected.
pub proof fn lemma_exchange_limit_monotonic(
    pre: TariStableCoin,
    post: TariStableCoin,
    badge_proof: BadgeProof,
    bucket: TokenBucket,
    second_bucket: TokenBucket,
)
    requires
        pre.wf(),
        pre.spec_exchange_stable_check(badge_proof, bucket) is Ok,
        post.user_registry@ == pre.user_registry@.insert(
            badge_proof.badge_ids@[0],
            (UserRecord {
                data: pre.user_registry@[badge_proof.badge_ids@[0]].data,
                mutable: UserMutableData {
                    wrapped_exchange_limit: Amount(
                        (pre.user_registry@[badge_proof.badge_ids@[0]].mutable.wrapped_exchange_limit@
                            - bucket.amount@) as i64,
                    ),
                    ..pre.user_registry@[badge_proof.badge_ids@[0]].mutable
                },
            }),
        ),
        second_bucket.resource == bucket.resource,
        second_bucket.amount@ > 0,
        second_bucket.amount@
            > pre.user_registry@[badge_proof.badge_ids@[0]].mutable.wrapped_exchange_limit@
            - bucket.amount@,
    ensures
        post.user_registry@[badge_proof.badge_ids@[0]].mutable.wrapped_exchange_limit@
            == pre.user_registry@[badge_proof.badge_ids@[0]].mutable.wrapped_exchange_limit@
            - bucket.amount@,
        post.spec_exchange_stable_check(badge_proof, second_bucket) == Err::<
            (),
            StableCoinError,
        >(StableCoinError::ExchangeLimitExceeded),
{
}

/// Exchange-limit gating on its own: whenever the bucket and proof are
/// otherwise valid and the amount exceeds the user's remaining limit, the
/// exchange is rejected for exactly that reason.
pub proof fn lemma_exchange_over_limit_rejected(
    issuer: TariStableCoin,
    badge_proof: BadgeProof,
    bucket: TokenBucket,
)
    requires
        bucket.resource is Stable,
        bucket.amount@ > 0,
        badge_proof.resource is User,
        badge_proof.badge_ids@.len() == 1,
        issuer.user_registry@.contains_key(badge_proof.badge_ids@[0]),
        bucket.amount@
            > issuer.user_registry@[badge_proof.badge_ids@[0]].mutable.wrapped_exchange_limit@,
    ensures
        issuer.spec_exchange_stable_check(badge_proof, bucket) == Err::<
            (),
            StableCoinError,
        >(StableCoinError::ExchangeLimitExceeded),
{
}

/// Deposit gating: a deposit to an account holding no user badge — no
/// badge vault at all, or one with neither free nor locked balance — is
/// rejected regardless of any amount involved, and a deposit to a paused
/// issuer is rejected regardless of the caller.
pub proof fn lemma_deposit_gating(issuer: TariStableCoin, caller: AuthHookCaller)
    ensures
        issuer.is_paused ==> issuer.spec_deposit_auth_check(ResourceAuthAction::Deposit, caller)
            == Err::<(), StableCoinError>(StableCoinError::TokenPaused),
        (!issuer.is_paused && (caller.component_state matches Some(
            CallerComponent::Account { user_badge_vault },
        ) && (user_badge_vault is None || (user_badge_vault matches Some(vb) && vb.balance@ == 0
            && vb.locked@ == 0)))) ==> issuer.spec_deposit_auth_check(
            ResourceAuthAction::Deposit,
            caller,
        ) == Err::<(), StableCoinError>(StableCoinError::AccountLacksUserBadge),
{
}

/// Blacklist round-trip: blacklisting and then reinstating the same user
/// restores the registry exactly — the immutable identity data is never
/// touched, the exchange limit survives, and the blacklist flag returns to
/// false.
pub proof fn lemma_blacklist_roundtrip(users: Map<u64, UserRecord>, user_id: UserId)
    requires
        users.contains_key(user_id.0),
        !users[user_id.0].mutable.is_blacklisted,
    ensures
        blacklist_registry_post(users, user_id)[user_id.0].data == users[user_id.0].data,
        blacklist_registry_post(users, user_id)[user_id.0].mutable.is_blacklisted,
        unblacklist_registry_post(blacklist_registry_post(users, user_id), user_id) == users,
{
    assert(unblacklist_registry_post(blacklist_registry_post(users, user_id), user_id)
        =~= users);
}

/// Duplicate-user rejection: once a record for a user id is in the
/// registry — as it is after any successful creation — a later creation
/// with the same id fails.
pub proof fn lemma_duplicate_user_rejected(
    pre: TariStableCoin,
    post: TariStableCoin,
    user_id: UserId,
    record: UserRecord,
)
    requires
        post.user_registry@ == pre.user_registry@.insert(user_id.0, record),
    ensures
        post.spec_create_new_user_check(user_id) == Err::<
            (),
            StableCoinError,
        >(StableCoinError::DuplicateUserId),
{
}

} // verus!
