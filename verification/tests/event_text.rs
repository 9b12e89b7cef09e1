use stable_coin::Amount;
use stable_coin::BadgeProof;
use stable_coin::BadgeResource;
use stable_coin::ComponentAddress;
use stable_coin::Event;
use stable_coin::Metadata;
use stable_coin::ResourceKind;
use stable_coin::TariStableCoin;
use stable_coin::TokenBucket;
use stable_coin::UserId;
use stable_coin::decimal::amount_to_string;
use stable_coin::decimal::percent_string;
use stable_coin::decimal::u64_to_padded_string;
use stable_coin::decimal::u64_to_string;

#[test]
fn decimal_rendering() {
    assert_eq!(u64_to_string(0), "0");
    assert_eq!(u64_to_string(7), "7");
    assert_eq!(u64_to_string(1023), "1023");
    assert_eq!(u64_to_string(u64::MAX), "18446744073709551615");
    assert_eq!(amount_to_string(Amount(-45)), "-45");
    assert_eq!(amount_to_string(Amount(i64::MIN)), "-9223372036854775808");
    assert_eq!(amount_to_string(Amount(0)), "0");
    assert_eq!(percent_string(5), "5%");
    assert_eq!(percent_string(100), "100%");
}

#[test]
fn user_ids_render_zero_padded() {
    assert_eq!(u64_to_padded_string(7, 19), "0000000000000000007");
    assert_eq!(u64_to_padded_string(1234567890123456789, 19), "1234567890123456789");
    assert_eq!(
        u64_to_padded_string(u64::MAX, 19),
        "18446744073709551615"
    );
    assert_eq!(UserId(7).to_display_string(), "0000000000000000007");
}

#[test]
fn event_names_follow_the_operations() {
    assert_eq!(Event::IncreaseSupply { amount: Amount(1) }.name(), "increase_supply");
    assert_eq!(Event::DecreaseSupply { amount: Amount(1) }.name(), "decrease_supply");
    assert_eq!(Event::Withdraw { amount: Amount(1) }.name(), "withdraw");
    assert_eq!(Event::Deposit { amount: Amount(1) }.name(), "deposit");
    assert_eq!(Event::CreateNewUser { user_id: UserId(1) }.name(), "create_new_user");
    assert_eq!(Event::BlacklistUser { user_id: UserId(1) }.name(), "blacklist_user");
    assert_eq!(
        Event::RemoveFromBlacklist { user_id: UserId(1) }.name(),
        "remove_from_blacklist"
    );
    assert_eq!(
        Event::Paused { tx_signer: "k".to_string(), admin_badge: 0 }.name(),
        "admin.paused"
    );
}

#[test]
fn the_audit_trail_of_an_exchange() {
    let mut metadata = Metadata::new();
    metadata.insert("provider_name".to_string(), "Acme".to_string());
    let (mut issuer, _badge) = TariStableCoin::instantiate(
        Amount(1000),
        "USDX".to_string(),
        metadata,
        None,
        true,
    )
    .expect("instantiation succeeds");
    issuer
        .create_new_user(UserId(1), ComponentAddress(500), 42)
        .expect("user is created");
    let user_proof = BadgeProof::new(BadgeResource::User, vec![1]);
    issuer
        .exchange_stable_for_wrapped_tokens(
            &user_proof,
            TokenBucket::new(ResourceKind::Stable, Amount(100)),
        )
        .expect("exchange succeeds");

    // Creating the user logged one event; the exchange logged the limit
    // update and then the exchange itself.
    let names: Vec<&str> = issuer.events.iter().map(|e| e.name()).collect();
    assert_eq!(
        names,
        vec![
            "create_new_user",
            "set_user_wrapped_exchange_limit",
            "exchange_stable_for_wrapped_tokens",
        ]
    );

    assert_eq!(
        issuer.events[0].entries(),
        vec![("user_id", "0000000000000000001".to_string())]
    );
    assert_eq!(
        issuer.events[1].entries(),
        vec![
            ("user_id", "0000000000000000001".to_string()),
            ("limit", "900".to_string()),
        ]
    );
    assert_eq!(
        issuer.events[2].entries(),
        vec![
            ("user_id", "0000000000000000001".to_string()),
            ("amount", "100".to_string()),
            ("fee", "1".to_string()),
        ]
    );
}

#[test]
fn supply_events_carry_decimal_amounts() {
    let mut metadata = Metadata::new();
    metadata.insert("provider_name".to_string(), "Acme".to_string());
    let (mut issuer, _badge) = TariStableCoin::instantiate(
        Amount(10),
        "USDX".to_string(),
        metadata,
        None,
        false,
    )
    .expect("instantiation succeeds");
    issuer.increase_supply(Amount(25)).expect("mint succeeds");
    issuer.decrease_supply(Amount(5)).expect("burn succeeds");
    assert_eq!(
        issuer.events[0].entries(),
        vec![("amount", "25".to_string())]
    );
    assert_eq!(issuer.events[1].name(), "decrease_supply");
    assert_eq!(
        issuer.events[1].entries(),
        vec![("revealed_burn_amount", "5".to_string())]
    );
}
