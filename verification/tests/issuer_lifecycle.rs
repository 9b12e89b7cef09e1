use stable_coin::AccessRule;
use stable_coin::AdminBadgeBucket;
use stable_coin::Amount;
use stable_coin::ComponentAddress;
use stable_coin::Event;
use stable_coin::IssuerMethod;
use stable_coin::Metadata;
use stable_coin::ResourceKind;
use stable_coin::BadgeProof;
use stable_coin::BadgeResource;
use stable_coin::StableCoinError;
use stable_coin::TariStableCoin;
use stable_coin::TokenBucket;
use stable_coin::UserId;

fn acme_metadata() -> Metadata {
    let mut metadata = Metadata::new();
    metadata.insert("provider_name".to_string(), "Acme".to_string());
    metadata
}

fn new_issuer(supply: i64, wrapped: bool) -> TariStableCoin {
    let (issuer, _badge) = TariStableCoin::instantiate(
        Amount(supply),
        "USDX".to_string(),
        acme_metadata(),
        None,
        wrapped,
    )
    .expect("instantiation succeeds");
    issuer
}

#[test]
fn end_to_end_exchange() {
    let (mut issuer, admin_badge) = TariStableCoin::instantiate(
        Amount(1000),
        "USDX".to_string(),
        acme_metadata(),
        None,
        true,
    )
    .expect("instantiation succeeds");

    assert_eq!(
        admin_badge,
        AdminBadgeBucket { badge_id: 0, employee_id: None }
    );
    assert_eq!(issuer.total_supply(), Amount(1000));
    assert_eq!(
        issuer.wrapped_token.as_ref().map(|w| w.total_supply()),
        Some(Amount(1000))
    );

    issuer
        .create_new_user(UserId(1), ComponentAddress(500), 42)
        .expect("user is created");

    let user_proof = BadgeProof::new(BadgeResource::User, vec![1]);
    let bucket = TokenBucket::new(ResourceKind::Stable, Amount(100));
    let wrapped = issuer
        .exchange_stable_for_wrapped_tokens(&user_proof, bucket)
        .expect("exchange succeeds");

    // One percent fee on 100 is 1: 99 wrapped units come back.
    assert_eq!(wrapped.resource(), ResourceKind::Wrapped);
    assert_eq!(wrapped.amount(), Amount(99));
    // The user's remaining limit drops by exactly the transacted amount.
    let record = issuer.user_registry.get(UserId(1)).expect("user exists");
    assert_eq!(record.mutable.wrapped_exchange_limit, Amount(900));
    // The whole bucket, fee included, stays in the treasury.
    assert_eq!(issuer.token_vault.balance(), Amount(1100));
}

#[test]
fn exchange_back_has_no_fee_and_no_limit() {
    let mut issuer = new_issuer(1000, true);
    issuer
        .create_new_user(UserId(1), ComponentAddress(500), 42)
        .expect("user is created");
    let user_proof = BadgeProof::new(BadgeResource::User, vec![1]);
    issuer
        .exchange_stable_for_wrapped_tokens(
            &user_proof,
            TokenBucket::new(ResourceKind::Stable, Amount(100)),
        )
        .expect("exchange succeeds");

    let stable = issuer
        .exchange_wrapped_for_stable_tokens(
            &user_proof,
            TokenBucket::new(ResourceKind::Wrapped, Amount(99)),
        )
        .expect("exchange back succeeds");
    assert_eq!(stable.resource(), ResourceKind::Stable);
    assert_eq!(stable.amount(), Amount(99));
    // The limit is only charged in the stable-to-wrapped direction.
    let record = issuer.user_registry.get(UserId(1)).expect("user exists");
    assert_eq!(record.mutable.wrapped_exchange_limit, Amount(900));
    // The fee in the event log is recorded as zero.
    match issuer.events.last().expect("an event was emitted") {
        Event::ExchangeWrappedForStableTokens { fee, amount, .. } => {
            assert_eq!(*fee, Amount(0));
            assert_eq!(*amount, Amount(99));
        }
        other => panic!("unexpected event {:?}", other),
    }
}

#[test]
fn supply_pairing_is_kept() {
    let mut issuer = new_issuer(1000, true);
    issuer.increase_supply(Amount(250)).expect("mint succeeds");
    assert_eq!(issuer.total_supply(), Amount(1250));
    assert_eq!(
        issuer.wrapped_token.as_ref().map(|w| w.total_supply()),
        Some(Amount(1250))
    );
    issuer.decrease_supply(Amount(400)).expect("burn succeeds");
    assert_eq!(issuer.total_supply(), Amount(850));
    assert_eq!(
        issuer.wrapped_token.as_ref().map(|w| w.total_supply()),
        Some(Amount(850))
    );
    issuer.increase_supply(Amount(1)).expect("mint succeeds");
    assert_eq!(issuer.total_supply(), Amount(851));
    assert_eq!(
        issuer.wrapped_token.as_ref().map(|w| w.total_supply()),
        Some(Amount(851))
    );
}

#[test]
fn supply_errors() {
    let mut issuer = new_issuer(10, true);
    assert_eq!(
        issuer.increase_supply(Amount(0)),
        Err(StableCoinError::NonPositiveAmount)
    );
    assert_eq!(
        issuer.increase_supply(Amount(-5)),
        Err(StableCoinError::NonPositiveAmount)
    );
    assert_eq!(
        issuer.decrease_supply(Amount(11)),
        Err(StableCoinError::InsufficientBalance)
    );
    assert_eq!(
        issuer.increase_supply(Amount(i64::MAX)),
        Err(StableCoinError::BalanceOverflow)
    );
    assert_eq!(issuer.total_supply(), Amount(10));
}

#[test]
fn treasury_withdraw_and_deposit() {
    let mut issuer = new_issuer(1000, false);
    let bucket = issuer.withdraw(Amount(300)).expect("withdraw succeeds");
    assert_eq!(bucket.resource(), ResourceKind::Stable);
    assert_eq!(bucket.amount(), Amount(300));
    assert_eq!(issuer.token_vault.balance(), Amount(700));
    assert_eq!(
        issuer.withdraw(Amount(701)),
        Err(StableCoinError::InsufficientBalance)
    );
    assert_eq!(
        issuer.withdraw(Amount(0)),
        Err(StableCoinError::NonPositiveAmount)
    );
    issuer.deposit(bucket).expect("deposit succeeds");
    assert_eq!(issuer.token_vault.balance(), Amount(1000));
    assert_eq!(
        issuer.deposit(TokenBucket::new(ResourceKind::Wrapped, Amount(1))),
        Err(StableCoinError::ResourceMismatch)
    );
}

#[test]
fn instantiation_rejects_bad_input() {
    assert_eq!(
        TariStableCoin::instantiate(
            Amount(-1),
            "USDX".to_string(),
            acme_metadata(),
            None,
            false,
        )
        .err(),
        Some(StableCoinError::NegativeInitialSupply)
    );

    let empty = Metadata::new();
    assert_eq!(
        TariStableCoin::instantiate(Amount(5), "USDX".to_string(), empty, None, false).err(),
        Some(StableCoinError::MissingProviderName)
    );

    let mut blank = Metadata::new();
    blank.insert("provider_name".to_string(), " \t\r\n ".to_string());
    assert_eq!(
        TariStableCoin::instantiate(Amount(5), "USDX".to_string(), blank, None, false).err(),
        Some(StableCoinError::MissingProviderName)
    );
}

#[test]
fn instantiation_declares_access_rules() {
    let issuer = new_issuer(1000, true);
    assert_eq!(
        issuer.access_rules.rule_for_method(IssuerMethod::TotalSupply),
        AccessRule::AllowAll
    );
    assert_eq!(
        issuer
            .access_rules
            .rule_for_method(IssuerMethod::ExchangeStableForWrappedTokens),
        AccessRule::RequireUserOrAdmin
    );
    assert_eq!(
        issuer
            .access_rules
            .rule_for_method(IssuerMethod::ExchangeWrappedForStableTokens),
        AccessRule::RequireUserOrAdmin
    );
    assert_eq!(
        issuer
            .access_rules
            .rule_for_method(IssuerMethod::AuthorizeUserDeposit),
        AccessRule::AllowAll
    );
    // Everything not named falls to the admin-only default.
    assert_eq!(
        issuer.access_rules.rule_for_method(IssuerMethod::IncreaseSupply),
        AccessRule::RequireAdmin
    );
    assert_eq!(
        issuer.access_rules.rule_for_method(IssuerMethod::BlacklistUser),
        AccessRule::RequireAdmin
    );
    assert_eq!(issuer.owner_rule, AccessRule::RequireAdmin);

    let token_policy = &issuer.token_policy;
    assert_eq!(token_policy.mintable, AccessRule::RequireAdmin);
    assert_eq!(token_policy.burnable, AccessRule::RequireAdmin);
    assert_eq!(token_policy.depositable, AccessRule::RequireUserOrAdmin);
    assert_eq!(token_policy.withdrawable, AccessRule::RequireUserOrAdmin);
    assert_eq!(token_policy.recallable, AccessRule::RequireAdmin);
    assert!(token_policy.deposits_hooked);
    assert_eq!(token_policy.symbol.as_deref(), Some("USDX"));
    let wrapped_policy = &issuer.wrapped_token.as_ref().expect("wrapped enabled").policy;
    assert_eq!(wrapped_policy.symbol.as_deref(), Some("wUSDX"));
    assert!(!wrapped_policy.deposits_hooked);
}

#[test]
fn config_setters_log_old_and_new() {
    let mut issuer = new_issuer(10, false);
    issuer.set_config_transfer_fee_percentage(3).expect("in range");
    assert_eq!(
        issuer.config.transfer_fee,
        stable_coin::FeeSpec::Percentage(3)
    );
    assert_eq!(
        issuer.set_config_transfer_fee_percentage(101),
        Err(StableCoinError::PercentageOutOfRange)
    );
    issuer.set_config_transfer_fee_fixed(Amount(9));
    assert_eq!(issuer.config.transfer_fee, stable_coin::FeeSpec::Fixed(Amount(9)));
    let event = issuer.events.last().expect("an event was emitted");
    assert_eq!(event.name(), "config.set_transfer_fee_fixed");
    assert_eq!(
        event.entries(),
        vec![
            ("old_transfer_fee", "3%".to_string()),
            ("new_transfer_fee", "9".to_string()),
        ]
    );
}

#[test]
fn admin_badges_are_unique() {
    let mut issuer = new_issuer(10, false);
    let badge = issuer
        .create_new_admin(17, "emp-42".to_string())
        .expect("admin is created");
    assert_eq!(badge.badge_id, 17);
    assert_eq!(badge.employee_id.as_deref(), Some("emp-42"));
    // Badge zero was minted at instantiation; its id is taken.
    assert_eq!(
        issuer.create_new_admin(0, "emp-43".to_string()).err(),
        Some(StableCoinError::DuplicateAdminBadgeId)
    );
    assert_eq!(
        issuer.create_new_admin(17, "emp-44".to_string()).err(),
        Some(StableCoinError::DuplicateAdminBadgeId)
    );
    assert_eq!(issuer.admin_badge_ids, vec![0, 17]);
}

#[test]
fn burn_and_freeze_are_logged() {
    let mut issuer = new_issuer(10, false);
    issuer.burn_utxos(
        stable_coin::UtxoId(5),
        stable_coin::StealthValueProof { bytes: vec![1, 2, 3] },
        "signer-key".to_string(),
    );
    let event = issuer.events.last().expect("an event was emitted");
    assert_eq!(event.name(), "burn_utxos");
    assert_eq!(
        event.entries(),
        vec![
            ("tx_signer", "signer-key".to_string()),
            ("utxo_id", "5".to_string()),
        ]
    );

    let utxos = vec![stable_coin::UtxoId(1), stable_coin::UtxoId(2)];
    issuer.freeze_utxos(&utxos, "signer-key".to_string());
    let event = issuer.events.last().expect("an event was emitted");
    assert_eq!(event.name(), "admin.freeze_utxos");
    assert_eq!(
        event.entries(),
        vec![
            ("tx_signer", "signer-key".to_string()),
            ("num_utxos", "2".to_string()),
        ]
    );
    issuer.unfreeze_utxos(&utxos, "signer-key".to_string());
    assert_eq!(
        issuer.events.last().expect("an event was emitted").name(),
        "admin.unfreeze_utxos"
    );
}
