use stable_coin::Amount;
use stable_coin::BadgeProof;
use stable_coin::BadgeResource;
use stable_coin::ComponentAddress;
use stable_coin::Metadata;
use stable_coin::ResourceKind;
use stable_coin::StableCoinError;
use stable_coin::TariStableCoin;
use stable_coin::TokenBucket;
use stable_coin::UserId;

fn issuer_with_user(supply: i64) -> TariStableCoin {
    let mut metadata = Metadata::new();
    metadata.insert("provider_name".to_string(), "Acme".to_string());
    let (mut issuer, _badge) = TariStableCoin::instantiate(
        Amount(supply),
        "USDX".to_string(),
        metadata,
        None,
        true,
    )
    .expect("instantiation succeeds");
    issuer
        .create_new_user(UserId(1), ComponentAddress(500), 42)
        .expect("user is created");
    issuer
}

#[test]
fn new_user_starts_with_defaults() {
    let issuer = issuer_with_user(1000);
    let record = issuer.user_registry.get(UserId(1)).expect("user exists");
    assert_eq!(record.data.user_id, UserId(1));
    assert_eq!(record.data.user_account, ComponentAddress(500));
    assert_eq!(record.data.created_at_epoch, 42);
    assert!(!record.mutable.is_blacklisted);
    assert_eq!(record.mutable.wrapped_exchange_limit, Amount(1000));
    let data = issuer.get_user_data(UserId(1)).expect("user exists");
    assert_eq!(data, record.data);
    assert_eq!(
        issuer.get_user_data(UserId(9)).err(),
        Some(StableCoinError::UnknownUser)
    );
}

#[test]
fn duplicate_user_is_rejected() {
    let mut issuer = issuer_with_user(1000);
    assert_eq!(
        issuer
            .create_new_user(UserId(1), ComponentAddress(777), 50)
            .err(),
        Some(StableCoinError::DuplicateUserId)
    );
    // The original record is untouched by the rejected call.
    let record = issuer.user_registry.get(UserId(1)).expect("user exists");
    assert_eq!(record.data.user_account, ComponentAddress(500));
}

#[test]
fn exchange_limit_is_charged_and_enforced() {
    let mut issuer = issuer_with_user(10_000);
    issuer.increase_supply(Amount(9_000)).expect("mint succeeds");
    let user_proof = BadgeProof::new(BadgeResource::User, vec![1]);

    // Default limit is 1000: exchange 600, leaving 400.
    issuer
        .exchange_stable_for_wrapped_tokens(
            &user_proof,
            TokenBucket::new(ResourceKind::Stable, Amount(600)),
        )
        .expect("first exchange succeeds");
    let record = issuer.user_registry.get(UserId(1)).expect("user exists");
    assert_eq!(record.mutable.wrapped_exchange_limit, Amount(400));

    // 401 exceeds the new remaining limit and is rejected without change.
    assert_eq!(
        issuer
            .exchange_stable_for_wrapped_tokens(
                &user_proof,
                TokenBucket::new(ResourceKind::Stable, Amount(401)),
            )
            .err(),
        Some(StableCoinError::ExchangeLimitExceeded)
    );
    let record = issuer.user_registry.get(UserId(1)).expect("user exists");
    assert_eq!(record.mutable.wrapped_exchange_limit, Amount(400));

    // Exactly the remaining limit still goes through.
    issuer
        .exchange_stable_for_wrapped_tokens(
            &user_proof,
            TokenBucket::new(ResourceKind::Stable, Amount(400)),
        )
        .expect("exchange at the limit succeeds");
    let record = issuer.user_registry.get(UserId(1)).expect("user exists");
    assert_eq!(record.mutable.wrapped_exchange_limit, Amount(0));
}

#[test]
fn exchange_validates_proof_and_bucket() {
    let mut issuer = issuer_with_user(1000);
    let user_proof = BadgeProof::new(BadgeResource::User, vec![1]);
    assert_eq!(
        issuer
            .exchange_stable_for_wrapped_tokens(
                &user_proof,
                TokenBucket::new(ResourceKind::Wrapped, Amount(10)),
            )
            .err(),
        Some(StableCoinError::ResourceMismatch)
    );
    assert_eq!(
        issuer
            .exchange_stable_for_wrapped_tokens(
                &user_proof,
                TokenBucket::new(ResourceKind::Stable, Amount(0)),
            )
            .err(),
        Some(StableCoinError::NonPositiveAmount)
    );
    let admin_proof = BadgeProof::new(BadgeResource::Admin, vec![0]);
    assert_eq!(
        issuer
            .exchange_stable_for_wrapped_tokens(
                &admin_proof,
                TokenBucket::new(ResourceKind::Stable, Amount(10)),
            )
            .err(),
        Some(StableCoinError::WrongProofResource)
    );
    let two_badges = BadgeProof::new(BadgeResource::User, vec![1, 2]);
    assert_eq!(
        issuer
            .exchange_stable_for_wrapped_tokens(
                &two_badges,
                TokenBucket::new(ResourceKind::Stable, Amount(10)),
            )
            .err(),
        Some(StableCoinError::ProofMustContainExactlyOneBadge)
    );
    let stranger = BadgeProof::new(BadgeResource::User, vec![9]);
    assert_eq!(
        issuer
            .exchange_stable_for_wrapped_tokens(
                &stranger,
                TokenBucket::new(ResourceKind::Stable, Amount(10)),
            )
            .err(),
        Some(StableCoinError::UnknownUser)
    );
}

#[test]
fn exchange_without_wrapped_token_fails() {
    let mut metadata = Metadata::new();
    metadata.insert("provider_name".to_string(), "Acme".to_string());
    let (mut issuer, _badge) = TariStableCoin::instantiate(
        Amount(1000),
        "USDX".to_string(),
        metadata,
        None,
        false,
    )
    .expect("instantiation succeeds");
    issuer
        .create_new_user(UserId(1), ComponentAddress(500), 42)
        .expect("user is created");
    let user_proof = BadgeProof::new(BadgeResource::User, vec![1]);
    assert_eq!(
        issuer
            .exchange_stable_for_wrapped_tokens(
                &user_proof,
                TokenBucket::new(ResourceKind::Stable, Amount(10)),
            )
            .err(),
        Some(StableCoinError::WrappedTokenNotEnabled)
    );
    assert_eq!(
        issuer
            .exchange_wrapped_for_stable_tokens(
                &user_proof,
                TokenBucket::new(ResourceKind::Wrapped, Amount(10)),
            )
            .err(),
        Some(StableCoinError::WrappedTokenNotEnabled)
    );
}

#[test]
fn set_exchange_limits() {
    let mut issuer = issuer_with_user(1000);
    issuer
        .set_user_exchange_limit(UserId(1), Amount(50), "admin-key".to_string())
        .expect("limit is set");
    let record = issuer.user_registry.get(UserId(1)).expect("user exists");
    assert_eq!(record.mutable.wrapped_exchange_limit, Amount(50));
    assert!(!record.mutable.is_blacklisted);
    assert_eq!(
        issuer
            .set_user_exchange_limit(UserId(1), Amount(0), "admin-key".to_string())
            .err(),
        Some(StableCoinError::NonPositiveLimit)
    );
    assert_eq!(
        issuer
            .set_user_exchange_limit(UserId(9), Amount(5), "admin-key".to_string())
            .err(),
        Some(StableCoinError::UnknownUser)
    );
    issuer
        .set_user_wrapped_exchange_limit(UserId(1), Amount(0))
        .expect("zero is legal on the exchange path");
    let record = issuer.user_registry.get(UserId(1)).expect("user exists");
    assert_eq!(record.mutable.wrapped_exchange_limit, Amount(0));
}

#[test]
fn blacklist_round_trip_preserves_user_data() {
    let mut issuer = issuer_with_user(1000);
    let before = issuer.user_registry.get(UserId(1)).expect("user exists");

    issuer
        .blacklist_user(stable_coin::VaultId(77), UserId(1))
        .expect("blacklisting succeeds");
    let record = issuer.user_registry.get(UserId(1)).expect("user exists");
    assert!(record.mutable.is_blacklisted);
    assert_eq!(record.data, before.data);
    assert_eq!(
        record.mutable.wrapped_exchange_limit,
        before.mutable.wrapped_exchange_limit
    );
    assert_eq!(
        issuer.blacklist_user(stable_coin::VaultId(77), UserId(1)).err(),
        Some(StableCoinError::UserAlreadyBlacklisted)
    );

    let badge = issuer
        .remove_from_blacklist(UserId(1))
        .expect("reinstatement succeeds");
    assert_eq!(badge.data, before.data);
    let record = issuer.user_registry.get(UserId(1)).expect("user exists");
    assert_eq!(record, before);
    assert_eq!(
        issuer.remove_from_blacklist(UserId(1)).err(),
        Some(StableCoinError::UserNotBlacklisted)
    );
    assert_eq!(
        issuer.remove_from_blacklist(UserId(9)).err(),
        Some(StableCoinError::UnknownUser)
    );
}

#[test]
fn recall_revealed_tokens_claws_back_into_treasury() {
    let mut issuer = issuer_with_user(1000);
    issuer
        .recall_revealed_tokens(UserId(1), Amount(30), Some(Amount(80)))
        .expect("recall succeeds");
    assert_eq!(issuer.token_vault.balance(), Amount(1030));
    assert_eq!(
        issuer
            .recall_revealed_tokens(UserId(1), Amount(90), Some(Amount(80)))
            .err(),
        Some(StableCoinError::InsufficientBalance)
    );
    assert_eq!(
        issuer.recall_revealed_tokens(UserId(1), Amount(5), None).err(),
        Some(StableCoinError::NoVaultForToken)
    );
    assert_eq!(
        issuer
            .recall_revealed_tokens(UserId(9), Amount(5), Some(Amount(80)))
            .err(),
        Some(StableCoinError::UnknownUser)
    );
}
