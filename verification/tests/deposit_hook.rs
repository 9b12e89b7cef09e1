use stable_coin::Amount;
use stable_coin::AuthHookCaller;
use stable_coin::BadgeProof;
use stable_coin::BadgeResource;
use stable_coin::CallerComponent;
use stable_coin::ComponentAddress;
use stable_coin::Metadata;
use stable_coin::ResourceAuthAction;
use stable_coin::StableCoinError;
use stable_coin::TariStableCoin;
use stable_coin::UserId;
use stable_coin::VaultBalances;

fn new_issuer() -> TariStableCoin {
    let mut metadata = Metadata::new();
    metadata.insert("provider_name".to_string(), "Acme".to_string());
    let (issuer, _badge) = TariStableCoin::instantiate(
        Amount(1000),
        "USDX".to_string(),
        metadata,
        None,
        true,
    )
    .expect("instantiation succeeds");
    issuer
}

/// An account that holds `badges` user badges free and `locked` locked.
fn account_with_badges(badges: i64, locked: i64) -> AuthHookCaller {
    AuthHookCaller {
        component_state: Some(CallerComponent::Account {
            user_badge_vault: Some(VaultBalances {
                balance: Amount(badges),
                locked: Amount(locked),
            }),
        }),
    }
}

#[test]
fn it_creates_and_funds_a_user_account() {
    let mut issuer = new_issuer();
    let badge = issuer
        .create_new_user(UserId(1), ComponentAddress(500), 42)
        .expect("user account is registered");
    assert_eq!(badge.data.user_id, UserId(1));

    // Fund the account: the engine consults the hook before the deposit
    // lands; the account holds the badge it was just sent, so the deposit
    // of 500 units is authorized.
    let bucket = issuer.withdraw(Amount(500)).expect("funds withdrawn");
    assert_eq!(bucket.amount(), Amount(500));
    issuer
        .authorize_user_deposit(ResourceAuthAction::Deposit, account_with_badges(1, 0))
        .expect("deposit to a badge-holding account is authorized");
}

#[test]
fn it_allows_a_user_to_transact() {
    let mut issuer = new_issuer();
    issuer
        .create_new_user(UserId(1), ComponentAddress(500), 42)
        .expect("first user is registered");
    issuer
        .create_new_user(UserId(2), ComponentAddress(501), 42)
        .expect("second user is registered");

    // A transfer of 50 units lands in the destination account; the hook
    // authorizes it because the destination holds its own user badge.
    issuer
        .authorize_user_deposit(ResourceAuthAction::Deposit, account_with_badges(1, 0))
        .expect("transfer to a badge-holding account is authorized");
    // A self-transfer can find the badge locked mid-transaction.
    issuer
        .authorize_user_deposit(ResourceAuthAction::Deposit, account_with_badges(0, 1))
        .expect("a locked badge still authorizes the deposit");
    // Withdrawals are not gated by the hook at all.
    issuer
        .authorize_user_deposit(ResourceAuthAction::Withdraw, account_with_badges(0, 0))
        .expect("withdrawals follow the ordinary access rules");
}

#[test]
fn it_rejects_transaction_if_dest_is_on_deny_list() {
    let mut issuer = new_issuer();
    issuer
        .create_new_user(UserId(1), ComponentAddress(500), 42)
        .expect("first user is registered");
    issuer
        .create_new_user(UserId(2), ComponentAddress(501), 42)
        .expect("second user is registered");

    // Deny-list the destination: its badge is recalled into the issuer's
    // blacklist vault, so the destination account no longer holds one.
    issuer
        .blacklist_user(stable_coin::VaultId(77), UserId(2))
        .expect("blacklisting succeeds");
    assert_eq!(
        issuer.authorize_user_deposit(ResourceAuthAction::Deposit, account_with_badges(0, 0)),
        Err(StableCoinError::AccountLacksUserBadge)
    );

    // Reinstate the user: the badge bucket returns for redeposit, and a
    // transfer to the account (holding its badge again) succeeds.
    let badge = issuer
        .remove_from_blacklist(UserId(2))
        .expect("reinstatement succeeds");
    assert_eq!(badge.data.user_id, UserId(2));
    issuer
        .authorize_user_deposit(ResourceAuthAction::Deposit, account_with_badges(1, 0))
        .expect("transfer succeeds after reinstatement");
}

#[test]
fn deposit_gating_rejects_unknown_destinations() {
    let issuer = new_issuer();
    assert_eq!(
        issuer.authorize_user_deposit(
            ResourceAuthAction::Deposit,
            AuthHookCaller { component_state: None },
        ),
        Err(StableCoinError::DepositNotPermittedFromTemplate)
    );
    assert_eq!(
        issuer.authorize_user_deposit(
            ResourceAuthAction::Deposit,
            AuthHookCaller { component_state: Some(CallerComponent::NotAnAccount) },
        ),
        Err(StableCoinError::DepositMustBeToAccount)
    );
    assert_eq!(
        issuer.authorize_user_deposit(
            ResourceAuthAction::Deposit,
            AuthHookCaller {
                component_state: Some(CallerComponent::Account { user_badge_vault: None }),
            },
        ),
        Err(StableCoinError::AccountLacksUserBadge)
    );
    // The amount plays no part: the same account is rejected whatever is
    // being deposited.
    assert_eq!(
        issuer.authorize_user_deposit(ResourceAuthAction::Deposit, account_with_badges(0, 0)),
        Err(StableCoinError::AccountLacksUserBadge)
    );
}

#[test]
fn paused_issuer_rejects_every_deposit() {
    let mut issuer = new_issuer();
    let admin_proof = BadgeProof::new(BadgeResource::Admin, vec![0]);
    issuer
        .pause(&admin_proof, "signer-key".to_string())
        .expect("pause succeeds");
    assert!(issuer.is_paused);
    // Even a fully badged account is rejected while paused.
    assert_eq!(
        issuer.authorize_user_deposit(ResourceAuthAction::Deposit, account_with_badges(5, 5)),
        Err(StableCoinError::TokenPaused)
    );
    // Non-deposit actions are still allowed.
    issuer
        .authorize_user_deposit(ResourceAuthAction::Recall, account_with_badges(0, 0))
        .expect("recalls follow the ordinary access rules");
}

#[test]
fn pause_demands_an_admin_badge() {
    let mut issuer = new_issuer();
    let user_proof = BadgeProof::new(BadgeResource::User, vec![1]);
    assert_eq!(
        issuer.pause(&user_proof, "signer-key".to_string()),
        Err(StableCoinError::WrongProofResource)
    );
    let empty_proof = BadgeProof::new(BadgeResource::Admin, vec![]);
    assert_eq!(
        issuer.pause(&empty_proof, "signer-key".to_string()),
        Err(StableCoinError::ProofMustContainBadge)
    );
    assert!(!issuer.is_paused);
}
