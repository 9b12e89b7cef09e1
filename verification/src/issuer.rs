//! The stable-coin issuer.
//!
//! One stateful component owns the primary token vault, the badge
//! resources, the user registry, the optional wrapped-token sub-ledger, the
//! pause flag and the fee configuration, and exposes every state-changing
//! operation plus the deposit-authorization hook.
//!
//! The external engine executes one call at a time and applies it
//! atomically, so every method here checks all its conditions before the
//! first mutation: a method that returns an error has changed nothing.
//! Facts only the engine knows — the caller's account contents, the
//! consensus epoch, the transaction signer, the balance of a vault to be
//! recalled from — enter as plain arguments.

use vstd::prelude::*;

use crate::access::AccessRule;
use crate::access::AccessRules;
use crate::access::IssuerMethod;
use crate::amount::Amount;
use crate::config::spec_fee;
use crate::config::FeeSpec;
use crate::config::StableCoinConfig;
use crate::config::default_config;
use crate::errors::StableCoinError;
use crate::events::Event;
use crate::ids::ComponentAddress;
use crate::ids::UtxoId;
use crate::ids::VaultId;
use crate::metadata::is_blank;
use crate::metadata::has_visible_character;
use crate::metadata::lookup;
use crate::metadata::Metadata;
use crate::registry::UserRecord;
use crate::registry::UserRegistry;
use crate::resources::AdminBadgeBucket;
use crate::resources::BadgeProof;
use crate::resources::BadgeResource;
use crate::resources::ResourceKind;
use crate::resources::ResourcePolicy;
use crate::resources::StealthValueProof;
use crate::resources::TokenBucket;
use crate::resources::UserBadgeBucket;
use crate::resources::Vault;
use crate::resources::ViewKey;
use crate::user_data::UserData;
use crate::user_data::UserId;
use crate::user_data::UserMutableData;
use crate::wrapped_exchange_token::WrappedExchangeToken;

verus! {

/// The vault actions the engine reports to the authorization hook.
#[derive(Clone, Copy, Debug, PartialEq, Eq, Structural)]
pub enum ResourceAuthAction {
    Mint,
    Burn,
    Deposit,
    Withdraw,
    Recall,
}

/// What the destination account's user-badge vault holds: its free balance
/// and its locked balance (locked covers a badge that is mid-transaction,
/// as in a self-transfer).
#[derive(Clone, Copy, Debug, PartialEq, Eq, Structural)]
pub struct VaultBalances {
    pub balance: Amount,
    pub locked: Amount,
}

/// The destination component of a deposit, as the engine resolves it.
#[derive(Clone, Copy, Debug, PartialEq, Eq, Structural)]
pub enum CallerComponent {
    /// An account, with its vault for the issuer's user-badge resource, if
    /// it holds one.
    Account { user_badge_vault: Option<VaultBalances> },
    /// A component that is not an account.
    NotAnAccount,
}

/// The caller context the engine hands to the authorization hook. A static
/// template call resolves to no component at all.
#[derive(Clone, Copy, Debug, PartialEq, Eq, Structural)]
pub struct AuthHookCaller {
    pub component_state: Option<CallerComponent>,
}

/// The issuer's state.
pub struct TariStableCoin {
    pub config: StableCoinConfig,
    /// The treasury: the issuer's own vault of the primary token.
    pub token_vault: Vault,
    /// Total revealed supply of the primary token.
    pub token_total_supply: Amount,
    /// The declarative policy of the primary token resource.
    pub token_policy: ResourcePolicy,
    /// The declarative policy of the user-badge resource.
    pub user_badge_policy: ResourcePolicy,
    /// One badge record per user id; blacklisted badges are held by the
    /// issuer and flagged here.
    pub user_registry: UserRegistry,
    /// The ids of all minted admin badges; badge zero is minted at
    /// instantiation.
    pub admin_badge_ids: Vec<u64>,
    /// The wrapped-token sub-ledger, when enabled.
    pub wrapped_token: Option<WrappedExchangeToken>,
    /// Once set, the authorization hook rejects every deposit.
    pub is_paused: bool,
    /// The per-method rules the engine enforces on callers.
    pub access_rules: AccessRules,
    /// Ownership of the component itself.
    pub owner_rule: AccessRule,
    /// The append-only audit trail.
    pub events: Vec<Event>,
}

impl TariStableCoin {
    pub open spec fn wrapped_enabled(self) -> bool {
        self.wrapped_token is Some
    }

    pub open spec fn spec_treasury_balance(self) -> int {
        self.token_vault.spec_balance()
    }

    pub open spec fn spec_wrapped_supply(self) -> int {
        match self.wrapped_token {
            Some(w) => w.total_supply@,
            None => 0,
        }
    }

    pub open spec fn spec_wrapped_vault_balance(self) -> int {
        match self.wrapped_token {
            Some(w) => w.vault.spec_balance(),
            None => 0,
        }
    }

    /// Well-formedness: balances and supplies are non-negative, the
    /// configuration is valid, every registry record is keyed by its own
    /// user id, and — when the wrapped token is enabled — the wrapped total
    /// supply equals the primary total supply.
    pub open spec fn wf(self) -> bool {
        &&& self.config.wf()
        &&& self.token_vault.wf()
        &&& self.token_total_supply@ >= 0
        &&& (match self.wrapped_token {
            Some(w) => w.vault.wf() && w.total_supply@ == self.token_total_supply@,
            None => true,
        })
        &&& forall|id: u64|
            self.user_registry@.contains_key(id) ==> (#[trigger] self.user_registry@[id]).data.user_id.0 == id
        &&& forall|i: int, j: int|
            0 <= i < j < self.admin_badge_ids@.len() ==> #[trigger] self.admin_badge_ids@[i]
                != #[trigger] self.admin_badge_ids@[j]
    }
}

/// A non-blank `provider_name` metadata entry, demanded before anything is
/// created.
pub open spec fn provider_name_present(metadata: Seq<(String, String)>) -> bool {
    match lookup(metadata, "provider_name"@) {
        Some(value) => !is_blank(value),
        None => false,
    }
}

/// Why instantiation fails, or nothing: the checks in the order they are
/// made.
pub open spec fn spec_instantiate_check(
    initial_supply: int,
    metadata: Seq<(String, String)>,
) -> Result<(), StableCoinError> {
    if !provider_name_present(metadata) {
        Err(StableCoinError::MissingProviderName)
    } else if initial_supply < 0 {
        Err(StableCoinError::NegativeInitialSupply)
    } else {
        Ok(())
    }
}

/// The policy the primary token resource is created with.
pub open spec fn token_policy_ok(
    p: ResourcePolicy,
    symbol: Seq<char>,
    metadata: Seq<(String, String)>,
    view_key: Option<ViewKey>,
) -> bool {
    &&& p.symbol matches Some(s) && s@ == symbol
    &&& p.metadata@ == metadata
    &&& p.mintable == AccessRule::RequireAdmin
    &&& p.burnable == AccessRule::RequireAdmin
    &&& p.depositable == AccessRule::RequireUserOrAdmin
    &&& p.withdrawable == AccessRule::RequireUserOrAdmin
    &&& p.recallable == AccessRule::RequireAdmin
    &&& p.updatable_non_fungible_data == AccessRule::AllowAll
    &&& p.deposits_hooked
    &&& p.view_key == view_key
}

/// The policy the user-badge resource is created with: only an admin may
/// deposit, recall or rewrite badges.
pub open spec fn user_badge_policy_ok(p: ResourcePolicy, provider_name: Seq<char>) -> bool {
    &&& p.symbol is None
    &&& p.metadata@.len() == 1
    &&& p.metadata@[0].0@ == "provider_name"@
    &&& p.metadata@[0].1@ == provider_name
    &&& p.mintable == AccessRule::RequireAdmin
    &&& p.burnable == AccessRule::RequireAdmin
    &&& p.depositable == AccessRule::RequireAdmin
    &&& p.withdrawable == AccessRule::AllowAll
    &&& p.recallable == AccessRule::RequireAdmin
    &&& p.updatable_non_fungible_data == AccessRule::RequireAdmin
    &&& !p.deposits_hooked
    &&& p.view_key is None
}

/// The policy the wrapped token resource is created with: minting and
/// burning are admin-gated, transfers are unrestricted.
pub open spec fn wrapped_policy_ok(
    p: ResourcePolicy,
    symbol: Seq<char>,
    metadata: Seq<(String, String)>,
) -> bool {
    &&& p.symbol matches Some(s) && s@ == seq!['w'] + symbol
    &&& p.metadata@ == metadata
    &&& p.mintable == AccessRule::RequireAdmin
    &&& p.burnable == AccessRule::RequireAdmin
    &&& p.depositable == AccessRule::AllowAll
    &&& p.withdrawable == AccessRule::AllowAll
    &&& p.recallable == AccessRule::AllowAll
    &&& p.updatable_non_fungible_data == AccessRule::AllowAll
    &&& !p.deposits_hooked
    &&& p.view_key is None
}

/// A registry after blacklisting: the user's badge is relocated into the
/// issuer's blacklist vault and its mutable flag set; the immutable
/// identity data and the exchange limit are untouched.
pub open spec fn blacklist_registry_post(
    users: Map<u64, UserRecord>,
    user_id: UserId,
) -> Map<u64, UserRecord> {
    users.insert(
        user_id.0,
        UserRecord {
            data: users[user_id.0].data,
            mutable: UserMutableData { is_blacklisted: true, ..users[user_id.0].mutable },
        },
    )
}

/// A registry after reinstatement: the flag is cleared; everything else is
/// untouched.
pub open spec fn unblacklist_registry_post(
    users: Map<u64, UserRecord>,
    user_id: UserId,
) -> Map<u64, UserRecord> {
    users.insert(
        user_id.0,
        UserRecord {
            data: users[user_id.0].data,
            mutable: UserMutableData { is_blacklisted: false, ..users[user_id.0].mutable },
        },
    )
}

/// The method table declared at instantiation: `total_supply` is public,
/// the two exchange methods take a user or an admin, the hook must be
/// callable by the engine on any deposit, and everything else defaults to
/// admin-only.
pub open spec fn instantiation_access_rules(rules: AccessRules) -> bool {
    &&& rules.spec_entries() == seq![
        (IssuerMethod::TotalSupply, AccessRule::AllowAll),
        (IssuerMethod::ExchangeStableForWrappedTokens, AccessRule::RequireUserOrAdmin),
        (IssuerMethod::ExchangeWrappedForStableTokens, AccessRule::RequireUserOrAdmin),
        (IssuerMethod::AuthorizeUserDeposit, AccessRule::AllowAll),
    ]
    &&& rules.spec_default_rule() == AccessRule::RequireAdmin
}

impl TariStableCoin {
    /// Create the issuer: validate the metadata, mint admin badge zero,
    /// declare the badge and token resources with their access rules, mint
    /// the initial supply (and the equal wrapped supply when enabled), and
    /// hand the first admin credential back to the caller.
    ///
    /// Fails fast — before any resource is described — when the metadata
    /// lacks a non-blank `provider_name` or the initial supply is negative.
    pub fn instantiate(
        initial_token_supply: Amount,
        token_symbol: String,
        token_metadata: Metadata,
        view_key: Option<ViewKey>,
        enable_wrapped_token: bool,
    ) -> (r: Result<(TariStableCoin, AdminBadgeBucket), StableCoinError>)
        ensures
            r is Ok <==> spec_instantiate_check(initial_token_supply@, token_metadata@) is Ok,
            r matches Err(e) ==> spec_instantiate_check(initial_token_supply@, token_metadata@)
                == Err::<(), StableCoinError>(e),
            r matches Ok(pair) ==> {
                let issuer = pair.0;
                &&& issuer.wf()
                &&& issuer.config == default_config()
                &&& issuer.token_total_supply@ == initial_token_supply@
                &&& issuer.spec_treasury_balance() == initial_token_supply@
                &&& issuer.wrapped_enabled() == enable_wrapped_token
                &&& (enable_wrapped_token ==> issuer.spec_wrapped_supply() == initial_token_supply@
                    && issuer.spec_wrapped_vault_balance() == initial_token_supply@)
                &&& issuer.user_registry@ == Map::<u64, UserRecord>::empty()
                &&& issuer.admin_badge_ids@ == seq![0u64]
                &&& !issuer.is_paused
                &&& issuer.events@ == Seq::<Event>::empty()
                &&& token_policy_ok(
                    issuer.token_policy,
                    token_symbol@,
                    token_metadata@,
                    view_key,
                )
                &&& (match lookup(token_metadata@, "provider_name"@) {
                    Some(value) => user_badge_policy_ok(issuer.user_badge_policy, value),
                    None => false,
                })
                &&& (enable_wrapped_token ==> (match issuer.wrapped_token {
                    Some(w) => wrapped_policy_ok(w.policy, token_symbol@, token_metadata@),
                    None => false,
                }))
                &&& instantiation_access_rules(issuer.access_rules)
                &&& issuer.owner_rule == AccessRule::RequireAdmin
                &&& pair.1 == (AdminBadgeBucket { badge_id: 0u64, employee_id: None })
            },
    {
        let provider_name: String = match token_metadata.get(&"provider_name".to_owned()) {
            Some(value) => {
                if has_visible_character(value) {
                    value.clone()
                } else {
                    return Err(StableCoinError::MissingProviderName);
                }
            },
            None => {
                return Err(StableCoinError::MissingProviderName);
            },
        };
        proof {
            assert(lookup(token_metadata@, "provider_name"@) == Some(provider_name@));
        }
        if initial_token_supply.is_negative() {
            return Err(StableCoinError::NegativeInitialSupply);
        }

        let config = StableCoinConfig::default();

        let mut user_badge_metadata = Metadata::new();
        user_badge_metadata.insert("provider_name".to_owned(), provider_name);
        let user_badge_policy = ResourcePolicy {
            symbol: None,
            metadata: user_badge_metadata,
            mintable: AccessRule::RequireAdmin,
            burnable: AccessRule::RequireAdmin,
            depositable: AccessRule::RequireAdmin,
            withdrawable: AccessRule::AllowAll,
            recallable: AccessRule::RequireAdmin,
            updatable_non_fungible_data: AccessRule::RequireAdmin,
            deposits_hooked: false,
            view_key: None,
        };

        let token_policy = ResourcePolicy {
            symbol: Some(token_symbol.clone()),
            metadata: token_metadata.duplicate(),
            mintable: AccessRule::RequireAdmin,
            burnable: AccessRule::RequireAdmin,
            depositable: AccessRule::RequireUserOrAdmin,
            withdrawable: AccessRule::RequireUserOrAdmin,
            recallable: AccessRule::RequireAdmin,
            updatable_non_fungible_data: AccessRule::AllowAll,
            deposits_hooked: true,
            view_key,
        };

        let wrapped_token = if enable_wrapped_token {
            let mut wrapped_symbol = "w".to_owned();
            wrapped_symbol.append(token_symbol.as_str());
            proof {
                reveal_strlit("w");
                assert(wrapped_symbol@ =~= seq!['w'] + token_symbol@);
            }
            let wrapped_policy = ResourcePolicy {
                symbol: Some(wrapped_symbol),
                metadata: token_metadata,
                mintable: AccessRule::RequireAdmin,
                burnable: AccessRule::RequireAdmin,
                depositable: AccessRule::AllowAll,
                withdrawable: AccessRule::AllowAll,
                recallable: AccessRule::AllowAll,
                updatable_non_fungible_data: AccessRule::AllowAll,
                deposits_hooked: false,
                view_key: None,
            };
            Some(
                WrappedExchangeToken {
                    vault: Vault::with_balance(initial_token_supply),
                    total_supply: initial_token_supply,
                    policy: wrapped_policy,
                },
            )
        } else {
            None
        };

        let access_rules = AccessRules::new()
            .add_method_rule(IssuerMethod::TotalSupply, AccessRule::AllowAll)
            .add_method_rule(
                IssuerMethod::ExchangeStableForWrappedTokens,
                AccessRule::RequireUserOrAdmin,
            )
            .add_method_rule(
                IssuerMethod::ExchangeWrappedForStableTokens,
                AccessRule::RequireUserOrAdmin,
            )
            .add_method_rule(IssuerMethod::AuthorizeUserDeposit, AccessRule::AllowAll)
            .default(AccessRule::RequireAdmin);
        proof {
            assert(instantiation_access_rules(access_rules)) by {
                assert(access_rules.spec_entries() =~= seq![
                    (IssuerMethod::TotalSupply, AccessRule::AllowAll),
                    (IssuerMethod::ExchangeStableForWrappedTokens, AccessRule::RequireUserOrAdmin),
                    (IssuerMethod::ExchangeWrappedForStableTokens, AccessRule::RequireUserOrAdmin),
                    (IssuerMethod::AuthorizeUserDeposit, AccessRule::AllowAll),
                ]);
            }
        }

        let mut admin_badge_ids: Vec<u64> = Vec::new();
        admin_badge_ids.push(0);
        proof {
            assert(admin_badge_ids@ =~= seq![0u64]);
        }

        let issuer = TariStableCoin {
            config,
            token_vault: Vault::with_balance(initial_token_supply),
            token_total_supply: initial_token_supply,
            token_policy,
            user_badge_policy,
            user_registry: UserRegistry::new(),
            admin_badge_ids,
            wrapped_token,
            is_paused: false,
            access_rules,
            owner_rule: AccessRule::RequireAdmin,
            events: Vec::new(),
        };
        Ok((issuer, AdminBadgeBucket { badge_id: 0, employee_id: None }))
    }

    /// The total revealed supply of the primary token.
    pub fn total_supply(&self) -> (r: Amount)
        ensures
            r == self.token_total_supply,
    {
        self.token_total_supply
    }

    /// Why increasing the supply fails, or nothing: the checks in the
    /// order they are made.
    pub open spec fn spec_increase_supply_check(self, amount: int) -> Result<(), StableCoinError> {
        if amount <= 0 {
            Err(StableCoinError::NonPositiveAmount)
        } else if self.token_total_supply@ + amount > i64::MAX {
            Err(StableCoinError::BalanceOverflow)
        } else if self.spec_treasury_balance() + amount > i64::MAX {
            Err(StableCoinError::BalanceOverflow)
        } else if self.wrapped_enabled() && self.spec_wrapped_vault_balance() + amount > i64::MAX {
            Err(StableCoinError::BalanceOverflow)
        } else {
            Ok(())
        }
    }

    /// Mint `amount` new primary units into the treasury and — when the
    /// wrapped token is enabled — the same amount into the wrapped vault,
    /// keeping the paired supplies equal.
    pub fn increase_supply(&mut self, amount: Amount) -> (r: Result<(), StableCoinError>)
        requires
            old(self).wf(),
        ensures
            final(self).wf(),
            r is Ok <==> old(self).spec_increase_supply_check(amount@) is Ok,
            r matches Err(e) ==> old(self).spec_increase_supply_check(amount@) == Err::<
                (),
                StableCoinError,
            >(e) && *final(self) == *old(self),
            r is Ok ==> {
                &&& final(self).token_total_supply@ == old(self).token_total_supply@ + amount@
                &&& final(self).spec_treasury_balance() == old(self).spec_treasury_balance()
                    + amount@
                &&& final(self).wrapped_enabled() == old(self).wrapped_enabled()
                &&& (old(self).wrapped_enabled() ==> final(self).spec_wrapped_supply() == old(
                    self,
                ).spec_wrapped_supply() + amount@ && final(self).spec_wrapped_vault_balance()
                    == old(self).spec_wrapped_vault_balance() + amount@)
                &&& final(self).events@ == old(self).events@.push(
                    (Event::IncreaseSupply { amount }),
                )
                &&& *final(self) == (TariStableCoin {
                    token_vault: final(self).token_vault,
                    token_total_supply: final(self).token_total_supply,
                    wrapped_token: final(self).wrapped_token,
                    events: final(self).events,
                    ..*old(self)
                })
            },
    {
        if !amount.is_positive() {
            return Err(StableCoinError::NonPositiveAmount);
        }
        let new_supply = match self.token_total_supply.checked_add(amount) {
            Some(v) => v,
            None => {
                return Err(StableCoinError::BalanceOverflow);
            },
        };
        if self.token_vault.balance().checked_add(amount).is_none() {
            return Err(StableCoinError::BalanceOverflow);
        }
        match &self.wrapped_token {
            Some(w) => {
                if w.vault.balance().checked_add(amount).is_none() {
                    return Err(StableCoinError::BalanceOverflow);
                }
            },
            None => {},
        }

        self.token_total_supply = new_supply;
        self.token_vault.deposit(amount);
        match &mut self.wrapped_token {
            Some(w) => {
                w.vault.deposit(amount);
                w.total_supply = Amount(w.total_supply.0 + amount.0);
            },
            None => {},
        }
        self.events.push(Event::IncreaseSupply { amount });
        Ok(())
    }

    /// Why decreasing the supply fails, or nothing: the checks in the
    /// order they are made.
    pub open spec fn spec_decrease_supply_check(self, amount: int) -> Result<(), StableCoinError> {
        if amount <= 0 {
            Err(StableCoinError::NonPositiveAmount)
        } else if amount > self.spec_treasury_balance() {
            Err(StableCoinError::InsufficientBalance)
        } else if amount > self.token_total_supply@ {
            Err(StableCoinError::InsufficientBalance)
        } else if self.wrapped_enabled() && amount > self.spec_wrapped_vault_balance() {
            Err(StableCoinError::InsufficientBalance)
        } else {
            Ok(())
        }
    }

    /// Withdraw `amount` from the treasury and burn it — and symmetrically
    /// from the wrapped vault when the wrapped token is enabled — keeping
    /// the paired supplies equal.
    pub fn decrease_supply(&mut self, amount: Amount) -> (r: Result<(), StableCoinError>)
        requires
            old(self).wf(),
        ensures
            final(self).wf(),
            r is Ok <==> old(self).spec_decrease_supply_check(amount@) is Ok,
            r matches Err(e) ==> old(self).spec_decrease_supply_check(amount@) == Err::<
                (),
                StableCoinError,
            >(e) && *final(self) == *old(self),
            r is Ok ==> {
                &&& final(self).token_total_supply@ == old(self).token_total_supply@ - amount@
                &&& final(self).spec_treasury_balance() == old(self).spec_treasury_balance()
                    - amount@
                &&& final(self).wrapped_enabled() == old(self).wrapped_enabled()
                &&& (old(self).wrapped_enabled() ==> final(self).spec_wrapped_supply() == old(
                    self,
                ).spec_wrapped_supply() - amount@ && final(self).spec_wrapped_vault_balance()
                    == old(self).spec_wrapped_vault_balance() - amount@)
                &&& final(self).events@ == old(self).events@.push(
                    (Event::DecreaseSupply { amount }),
                )
                &&& *final(self) == (TariStableCoin {
                    token_vault: final(self).token_vault,
                    token_total_supply: final(self).token_total_supply,
                    wrapped_token: final(self).wrapped_token,
                    events: final(self).events,
                    ..*old(self)
                })
            },
    {
        if !amount.is_positive() {
            return Err(StableCoinError::NonPositiveAmount);
        }
        if amount.0 > self.token_vault.balance().0 {
            return Err(StableCoinError::InsufficientBalance);
        }
        if amount.0 > self.token_total_supply.0 {
            return Err(StableCoinError::InsufficientBalance);
        }
        match &self.wrapped_token {
            Some(w) => {
                if amount.0 > w.vault.balance().0 {
                    return Err(StableCoinError::InsufficientBalance);
                }
            },
            None => {},
        }

        self.token_vault.withdraw(amount);
        self.token_total_supply = Amount(self.token_total_supply.0 - amount.0);
        match &mut self.wrapped_token {
            Some(w) => {
                w.vault.withdraw(amount);
                w.total_supply = Amount(w.total_supply.0 - amount.0);
            },
            None => {},
        }
        self.events.push(Event::DecreaseSupply { amount });
        Ok(())
    }

    /// Why a treasury withdrawal fails, or nothing.
    pub open spec fn spec_withdraw_check(self, amount: int) -> Result<(), StableCoinError> {
        if amount <= 0 {
            Err(StableCoinError::NonPositiveAmount)
        } else if amount > self.spec_treasury_balance() {
            Err(StableCoinError::InsufficientBalance)
        } else {
            Ok(())
        }
    }

    /// Move `amount` out of the treasury into a bucket handed back to the
    /// (admin-gated) caller.
    pub fn withdraw(&mut self, amount: Amount) -> (r: Result<TokenBucket, StableCoinError>)
        requires
            old(self).wf(),
        ensures
            final(self).wf(),
            r is Ok <==> old(self).spec_withdraw_check(amount@) is Ok,
            r matches Err(e) ==> old(self).spec_withdraw_check(amount@) == Err::<
                (),
                StableCoinError,
            >(e) && *final(self) == *old(self),
            r matches Ok(bucket) ==> {
                &&& bucket == (TokenBucket { resource: ResourceKind::Stable, amount })
                &&& final(self).spec_treasury_balance() == old(self).spec_treasury_balance()
                    - amount@
                &&& final(self).events@ == old(self).events@.push((Event::Withdraw { amount }))
                &&& *final(self) == (TariStableCoin {
                    token_vault: final(self).token_vault,
                    events: final(self).events,
                    ..*old(self)
                })
            },
    {
        if !amount.is_positive() {
            return Err(StableCoinError::NonPositiveAmount);
        }
        if amount.0 > self.token_vault.balance().0 {
            return Err(StableCoinError::InsufficientBalance);
        }
        self.token_vault.withdraw(amount);
        self.events.push(Event::Withdraw { amount });
        Ok(TokenBucket::new(ResourceKind::Stable, amount))
    }

    /// Why a treasury deposit fails, or nothing.
    pub open spec fn spec_deposit_check(self, bucket: TokenBucket) -> Result<
        (),
        StableCoinError,
    > {
        if !(bucket.resource is Stable) {
            Err(StableCoinError::ResourceMismatch)
        } else if self.spec_treasury_balance() + bucket.amount@ > i64::MAX {
            Err(StableCoinError::BalanceOverflow)
        } else {
            Ok(())
        }
    }

    /// Deposit a bucket of the primary token into the treasury.
    pub fn deposit(&mut self, bucket: TokenBucket) -> (r: Result<(), StableCoinError>)
        requires
            old(self).wf(),
            bucket.wf(),
        ensures
            final(self).wf(),
            r is Ok <==> old(self).spec_deposit_check(bucket) is Ok,
            r matches Err(e) ==> old(self).spec_deposit_check(bucket) == Err::<
                (),
                StableCoinError,
            >(e) && *final(self) == *old(self),
            r is Ok ==> {
                &&& final(self).spec_treasury_balance() == old(self).spec_treasury_balance()
                    + bucket.amount@
                &&& final(self).events@ == old(self).events@.push(
                    (Event::Deposit { amount: bucket.amount }),
                )
                &&& *final(self) == (TariStableCoin {
                    token_vault: final(self).token_vault,
                    events: final(self).events,
                    ..*old(self)
                })
            },
    {
        match bucket.resource {
            ResourceKind::Stable => {},
            ResourceKind::Wrapped => {
                return Err(StableCoinError::ResourceMismatch);
            },
        }
        let amount = bucket.amount;
        if self.token_vault.balance().checked_add(amount).is_none() {
            return Err(StableCoinError::BalanceOverflow);
        }
        self.token_vault.deposit(amount);
        self.events.push(Event::Deposit { amount });
        Ok(())
    }

    /// Why the hook rejects, or nothing: only deposits are gated; a deposit
    /// is rejected while the issuer is paused, when the destination is not
    /// a live account, and when the destination account holds no user badge
    /// (neither free nor locked).
    pub open spec fn spec_deposit_auth_check(
        self,
        action: ResourceAuthAction,
        caller: AuthHookCaller,
    ) -> Result<(), StableCoinError> {
        if !(action is Deposit) {
            Ok(())
        } else if self.is_paused {
            Err(StableCoinError::TokenPaused)
        } else {
            match caller.component_state {
                None => Err(StableCoinError::DepositNotPermittedFromTemplate),
                Some(CallerComponent::NotAnAccount) => Err(StableCoinError::DepositMustBeToAccount),
                Some(CallerComponent::Account { user_badge_vault }) => match user_badge_vault {
                    None => Err(StableCoinError::AccountLacksUserBadge),
                    Some(vb) => if vb.balance@ == 0 && vb.locked@ == 0 {
                        Err(StableCoinError::AccountLacksUserBadge)
                    } else {
                        Ok(())
                    },
                },
            }
        }
    }

    /// Why minting an admin badge fails, or nothing.
    pub open spec fn spec_create_new_admin_check(self, badge_id: u64) -> Result<
        (),
        StableCoinError,
    > {
        if self.admin_badge_ids@.contains(badge_id) {
            Err(StableCoinError::DuplicateAdminBadgeId)
        } else {
            Ok(())
        }
    }

    /// Mint a new admin badge carrying the employee id and hand it back.
    /// The engine draws the badge id at random; it enters here as an
    /// argument and must not collide with an existing badge.
    pub fn create_new_admin(&mut self, badge_id: u64, employee_id: String) -> (r: Result<
        AdminBadgeBucket,
        StableCoinError,
    >)
        requires
            old(self).wf(),
        ensures
            final(self).wf(),
            r is Ok <==> old(self).spec_create_new_admin_check(badge_id) is Ok,
            r matches Err(e) ==> old(self).spec_create_new_admin_check(badge_id) == Err::<
                (),
                StableCoinError,
            >(e) && *final(self) == *old(self),
            r matches Ok(badge) ==> {
                &&& badge.badge_id == badge_id
                &&& badge.employee_id == Some(employee_id)
                &&& final(self).admin_badge_ids@ == old(self).admin_badge_ids@.push(badge_id)
                &&& final(self).events@ == old(self).events@.push(
                    (Event::CreateNewAdmin { admin_id: badge_id }),
                )
                &&& *final(self) == (TariStableCoin {
                    admin_badge_ids: final(self).admin_badge_ids,
                    events: final(self).events,
                    ..*old(self)
                })
            },
    {
        let mut i: usize = 0;
        while i < self.admin_badge_ids.len()
            invariant
                *self == *old(self),
                old(self).wf(),
                i <= self.admin_badge_ids@.len(),
                forall|j: int| 0 <= j < i ==> self.admin_badge_ids@[j] != badge_id,
            decreases self.admin_badge_ids@.len() - i,
        {
            if self.admin_badge_ids[i] == badge_id {
                return Err(StableCoinError::DuplicateAdminBadgeId);
            }
            i = i + 1;
        }
        proof {
            assert(!self.admin_badge_ids@.contains(badge_id)) by {
                if self.admin_badge_ids@.contains(badge_id) {
                    let j = choose|j: int|
                        0 <= j < self.admin_badge_ids@.len() && self.admin_badge_ids@[j]
                            == badge_id;
                    assert(self.admin_badge_ids@[j] == badge_id);
                }
            }
        }
        self.events.push(Event::CreateNewAdmin { admin_id: badge_id });
        self.admin_badge_ids.push(badge_id);
        Ok(AdminBadgeBucket { badge_id, employee_id: Some(employee_id) })
    }

    /// Why creating a user fails, or nothing: a second badge for a user id
    /// is never minted.
    pub open spec fn spec_create_new_user_check(self, user_id: UserId) -> Result<
        (),
        StableCoinError,
    > {
        if self.user_registry@.contains_key(user_id.0) {
            Err(StableCoinError::DuplicateUserId)
        } else {
            Ok(())
        }
    }

    /// Mint a badge for a new user: immutable identity data (the id, the
    /// linked account, the consensus epoch the engine reports) plus mutable
    /// data starting unblacklisted with the configured default exchange
    /// limit. The badge comes back in a bucket for deposit into the user's
    /// account.
    pub fn create_new_user(
        &mut self,
        user_id: UserId,
        user_account: ComponentAddress,
        current_epoch: u64,
    ) -> (r: Result<UserBadgeBucket, StableCoinError>)
        requires
            old(self).wf(),
        ensures
            final(self).wf(),
            r is Ok <==> old(self).spec_create_new_user_check(user_id) is Ok,
            r matches Err(e) ==> old(self).spec_create_new_user_check(user_id) == Err::<
                (),
                StableCoinError,
            >(e) && *final(self) == *old(self),
            r matches Ok(badge) ==> {
                let data = UserData { user_id, user_account, created_at_epoch: current_epoch };
                let mutable = UserMutableData {
                    is_blacklisted: false,
                    wrapped_exchange_limit: old(self).config.default_exchange_limit,
                };
                &&& badge == (UserBadgeBucket { data })
                &&& final(self).user_registry@ == old(self).user_registry@.insert(
                    user_id.0,
                    (UserRecord { data, mutable }),
                )
                &&& final(self).events@ == old(self).events@.push(
                    (Event::CreateNewUser { user_id }),
                )
                &&& *final(self) == (TariStableCoin {
                    user_registry: final(self).user_registry,
                    events: final(self).events,
                    ..*old(self)
                })
            },
    {
        if self.user_registry.contains(user_id) {
            return Err(StableCoinError::DuplicateUserId);
        }
        let data = UserData { user_id, user_account, created_at_epoch: current_epoch };
        let record = UserRecord {
            data,
            mutable: UserMutableData {
                is_blacklisted: false,
                wrapped_exchange_limit: self.config.default_exchange_limit,
            },
        };
        self.user_registry.insert(record);
        self.events.push(Event::CreateNewUser { user_id });
        Ok(UserBadgeBucket { data })
    }

    /// Why setting a user's exchange limit fails, or nothing.
    pub open spec fn spec_set_user_exchange_limit_check(self, user_id: UserId, limit: int) -> Result<
        (),
        StableCoinError,
    > {
        if limit <= 0 {
            Err(StableCoinError::NonPositiveLimit)
        } else if !self.user_registry@.contains_key(user_id.0) {
            Err(StableCoinError::UnknownUser)
        } else {
            Ok(())
        }
    }

    /// Admin operation: replace a user's wrapped-exchange limit with a
    /// positive amount, preserving the blacklist flag. The transaction
    /// signer enters the audit trail.
    pub fn set_user_exchange_limit(
        &mut self,
        user_id: UserId,
        limit: Amount,
        admin: String,
    ) -> (r: Result<(), StableCoinError>)
        requires
            old(self).wf(),
        ensures
            final(self).wf(),
            r is Ok <==> old(self).spec_set_user_exchange_limit_check(user_id, limit@) is Ok,
            r matches Err(e) ==> old(self).spec_set_user_exchange_limit_check(user_id, limit@)
                == Err::<(), StableCoinError>(e) && *final(self) == *old(self),
            r is Ok ==> {
                let old_record = old(self).user_registry@[user_id.0];
                &&& final(self).user_registry@ == old(self).user_registry@.insert(
                    user_id.0,
                    (UserRecord {
                        data: old_record.data,
                        mutable: UserMutableData {
                            wrapped_exchange_limit: limit,
                            ..old_record.mutable
                        },
                    }),
                )
                &&& final(self).events@ == old(self).events@.push(
                    (Event::SetUserExchangeLimit { user_id, limit, admin }),
                )
                &&& *final(self) == (TariStableCoin {
                    user_registry: final(self).user_registry,
                    events: final(self).events,
                    ..*old(self)
                })
            },
    {
        if !limit.is_positive() {
            return Err(StableCoinError::NonPositiveLimit);
        }
        let record = match self.user_registry.get(user_id) {
            Some(record) => record,
            None => {
                return Err(StableCoinError::UnknownUser);
            },
        };
        let mut mutable = record.mutable;
        mutable.set_wrapped_exchange_limit(limit);
        self.user_registry.set_mutable(user_id, mutable);
        self.events.push(Event::SetUserExchangeLimit { user_id, limit, admin });
        Ok(())
    }

    /// Why rewriting a user's remaining limit fails, or nothing.
    pub open spec fn spec_set_user_wrapped_exchange_limit_check(self, user_id: UserId) -> Result<
        (),
        StableCoinError,
    > {
        if !self.user_registry@.contains_key(user_id.0) {
            Err(StableCoinError::UnknownUser)
        } else {
            Ok(())
        }
    }

    /// Rewrite a user's remaining wrapped-exchange limit, preserving the
    /// blacklist flag. The exchange path uses this to charge the
    /// transacted amount against the limit, so zero is a legal value here.
    pub fn set_user_wrapped_exchange_limit(&mut self, user_id: UserId, new_limit: Amount) -> (r:
        Result<(), StableCoinError>)
        requires
            old(self).wf(),
        ensures
            final(self).wf(),
            r is Ok <==> old(self).spec_set_user_wrapped_exchange_limit_check(user_id) is Ok,
            r matches Err(e) ==> old(self).spec_set_user_wrapped_exchange_limit_check(user_id)
                == Err::<(), StableCoinError>(e) && *final(self) == *old(self),
            r is Ok ==> {
                let old_record = old(self).user_registry@[user_id.0];
                &&& final(self).user_registry@ == old(self).user_registry@.insert(
                    user_id.0,
                    (UserRecord {
                        data: old_record.data,
                        mutable: UserMutableData {
                            wrapped_exchange_limit: new_limit,
                            ..old_record.mutable
                        },
                    }),
                )
                &&& final(self).events@ == old(self).events@.push(
                    (Event::SetUserWrappedExchangeLimit { user_id, limit: new_limit }),
                )
                &&& *final(self) == (TariStableCoin {
                    user_registry: final(self).user_registry,
                    events: final(self).events,
                    ..*old(self)
                })
            },
    {
        let record = match self.user_registry.get(user_id) {
            Some(record) => record,
            None => {
                return Err(StableCoinError::UnknownUser);
            },
        };
        let mut mutable = record.mutable;
        mutable.set_wrapped_exchange_limit(new_limit);
        self.user_registry.set_mutable(user_id, mutable);
        self.events.push(Event::SetUserWrappedExchangeLimit { user_id, limit: new_limit });
        Ok(())
    }

    /// Why blacklisting fails, or nothing: the badge must exist and must
    /// not already sit in the blacklist vault.
    pub open spec fn spec_blacklist_user_check(self, user_id: UserId) -> Result<
        (),
        StableCoinError,
    > {
        if !self.user_registry@.contains_key(user_id.0) {
            Err(StableCoinError::UnknownUser)
        } else if self.user_registry@[user_id.0].mutable.is_blacklisted {
            Err(StableCoinError::UserAlreadyBlacklisted)
        } else {
            Ok(())
        }
    }

    /// Admin operation: recall the user's badge from the vault it sits in
    /// (the engine performs the recall from `vault_id`), flip its
    /// blacklist flag, and hold the badge in the issuer's blacklist vault.
    /// The badge is not destroyed: its identity data survives for a later
    /// reinstatement, and the user can no longer authorize deposits because
    /// the badge no longer resides in their account.
    #[allow(unused_variables)]
    pub fn blacklist_user(&mut self, vault_id: VaultId, user_id: UserId) -> (r: Result<
        (),
        StableCoinError,
    >)
        requires
            old(self).wf(),
        ensures
            final(self).wf(),
            r is Ok <==> old(self).spec_blacklist_user_check(user_id) is Ok,
            r matches Err(e) ==> old(self).spec_blacklist_user_check(user_id) == Err::<
                (),
                StableCoinError,
            >(e) && *final(self) == *old(self),
            r is Ok ==> {
                &&& final(self).user_registry@ == blacklist_registry_post(
                    old(self).user_registry@,
                    user_id,
                )
                &&& final(self).events@ == old(self).events@.push(
                    (Event::BlacklistUser { user_id }),
                )
                &&& *final(self) == (TariStableCoin {
                    user_registry: final(self).user_registry,
                    events: final(self).events,
                    ..*old(self)
                })
            },
    {
        let record = match self.user_registry.get(user_id) {
            Some(record) => record,
            None => {
                return Err(StableCoinError::UnknownUser);
            },
        };
        if record.mutable.is_blacklisted {
            return Err(StableCoinError::UserAlreadyBlacklisted);
        }
        let mutable = UserMutableData { is_blacklisted: true, ..record.mutable };
        self.user_registry.set_mutable(user_id, mutable);
        self.events.push(Event::BlacklistUser { user_id });
        Ok(())
    }

    /// Why reinstatement fails, or nothing.
    pub open spec fn spec_remove_from_blacklist_check(self, user_id: UserId) -> Result<
        (),
        StableCoinError,
    > {
        if !self.user_registry@.contains_key(user_id.0) {
            Err(StableCoinError::UnknownUser)
        } else if !self.user_registry@[user_id.0].mutable.is_blacklisted {
            Err(StableCoinError::UserNotBlacklisted)
        } else {
            Ok(())
        }
    }

    /// Admin operation: withdraw the user's badge from the blacklist
    /// vault, clear its flag, and return the badge bucket — bearing the
    /// identity data it was minted with — for redeposit into the user's
    /// account.
    pub fn remove_from_blacklist(&mut self, user_id: UserId) -> (r: Result<
        UserBadgeBucket,
        StableCoinError,
    >)
        requires
            old(self).wf(),
        ensures
            final(self).wf(),
            r is Ok <==> old(self).spec_remove_from_blacklist_check(user_id) is Ok,
            r matches Err(e) ==> old(self).spec_remove_from_blacklist_check(user_id) == Err::<
                (),
                StableCoinError,
            >(e) && *final(self) == *old(self),
            r matches Ok(badge) ==> {
                &&& badge == (UserBadgeBucket { data: old(self).user_registry@[user_id.0].data })
                &&& final(self).user_registry@ == unblacklist_registry_post(
                    old(self).user_registry@,
                    user_id,
                )
                &&& final(self).events@ == old(self).events@.push(
                    (Event::RemoveFromBlacklist { user_id }),
                )
                &&& *final(self) == (TariStableCoin {
                    user_registry: final(self).user_registry,
                    events: final(self).events,
                    ..*old(self)
                })
            },
    {
        let record = match self.user_registry.get(user_id) {
            Some(record) => record,
            None => {
                return Err(StableCoinError::UnknownUser);
            },
        };
        if !record.mutable.is_blacklisted {
            return Err(StableCoinError::UserNotBlacklisted);
        }
        let mutable = UserMutableData { is_blacklisted: false, ..record.mutable };
        self.user_registry.set_mutable(user_id, mutable);
        self.events.push(Event::RemoveFromBlacklist { user_id });
        Ok(UserBadgeBucket { data: record.data })
    }

    /// The immutable identity data of a user's badge.
    pub fn get_user_data(&self, user_id: UserId) -> (r: Result<UserData, StableCoinError>)
        ensures
            match r {
                Ok(data) => self.user_registry@.contains_key(user_id.0) && data
                    == self.user_registry@[user_id.0].data,
                Err(e) => e == StableCoinError::UnknownUser && !self.user_registry@.contains_key(
                    user_id.0,
                ),
            },
    {
        match self.user_registry.get(user_id) {
            Some(record) => Ok(record.data),
            None => Err(StableCoinError::UnknownUser),
        }
    }

    /// Why a recall fails, or nothing: the user must exist, their account
    /// must hold a vault for the token, and that vault must cover the
    /// amount.
    pub open spec fn spec_recall_check(
        self,
        user_id: UserId,
        amount: int,
        account_vault_balance: Option<Amount>,
    ) -> Result<(), StableCoinError> {
        if !self.user_registry@.contains_key(user_id.0) {
            Err(StableCoinError::UnknownUser)
        } else if account_vault_balance is None {
            Err(StableCoinError::NoVaultForToken)
        } else if amount <= 0 {
            Err(StableCoinError::NonPositiveAmount)
        } else if amount > account_vault_balance.unwrap()@ {
            Err(StableCoinError::InsufficientBalance)
        } else if self.spec_treasury_balance() + amount > i64::MAX {
            Err(StableCoinError::BalanceOverflow)
        } else {
            Ok(())
        }
    }

    /// Regulatory clawback of revealed balances: force-withdraw `amount`
    /// from the user's own account vault into the treasury. The engine
    /// locates the account and performs the recall; what it reports of the
    /// account's vault for the token — its revealed balance, or that no
    /// such vault exists — enters as `account_vault_balance`.
    pub fn recall_revealed_tokens(
        &mut self,
        user_id: UserId,
        amount: Amount,
        account_vault_balance: Option<Amount>,
    ) -> (r: Result<(), StableCoinError>)
        requires
            old(self).wf(),
            account_vault_balance matches Some(b) ==> b@ >= 0,
        ensures
            final(self).wf(),
            r is Ok <==> old(self).spec_recall_check(user_id, amount@, account_vault_balance)
                is Ok,
            r matches Err(e) ==> old(self).spec_recall_check(
                user_id,
                amount@,
                account_vault_balance,
            ) == Err::<(), StableCoinError>(e) && *final(self) == *old(self),
            r is Ok ==> {
                &&& final(self).spec_treasury_balance() == old(self).spec_treasury_balance()
                    + amount@
                &&& final(self).events@ == old(self).events@.push(
                    (Event::RecallTokens { user_id, amount }),
                )
                &&& *final(self) == (TariStableCoin {
                    token_vault: final(self).token_vault,
                    events: final(self).events,
                    ..*old(self)
                })
            },
    {
        if !self.user_registry.contains(user_id) {
            return Err(StableCoinError::UnknownUser);
        }
        let available = match account_vault_balance {
            Some(balance) => balance,
            None => {
                return Err(StableCoinError::NoVaultForToken);
            },
        };
        if !amount.is_positive() {
            return Err(StableCoinError::NonPositiveAmount);
        }
        if amount.0 > available.0 {
            return Err(StableCoinError::InsufficientBalance);
        }
        if self.token_vault.balance().checked_add(amount).is_none() {
            return Err(StableCoinError::BalanceOverflow);
        }
        self.token_vault.deposit(amount);
        self.events.push(Event::RecallTokens { user_id, amount });
        Ok(())
    }

    /// Pass a confidential output to the engine's burner, recording the
    /// burn in the audit trail. The value proof is consumed by the engine's
    /// proof verifier, never inspected here; revealed balances are
    /// untouched.
    #[allow(unused_variables)]
    pub fn burn_utxos(
        &mut self,
        utxo: UtxoId,
        value_proof: StealthValueProof,
        tx_signer: String,
    )
        ensures
            final(self).events@ == old(self).events@.push(
                (Event::BurnUtxos { tx_signer, utxo_id: utxo }),
            ),
            *final(self) == (TariStableCoin { events: final(self).events, ..*old(self) }),
    {
        self.events.push(Event::BurnUtxos { tx_signer, utxo_id: utxo });
    }

    /// Replace the transfer fee with a fixed amount, logging the old and
    /// new values.
    pub fn set_config_transfer_fee_fixed(&mut self, new_fee: Amount)
        requires
            old(self).wf(),
        ensures
            final(self).wf(),
            final(self).config == (StableCoinConfig {
                transfer_fee: FeeSpec::Fixed(new_fee),
                ..old(self).config
            }),
            final(self).events@ == old(self).events@.push(
                (Event::SetTransferFeeFixed {
                    old_transfer_fee: old(self).config.transfer_fee,
                    new_transfer_fee: new_fee,
                }),
            ),
            *final(self) == (TariStableCoin {
                config: final(self).config,
                events: final(self).events,
                ..*old(self)
            }),
    {
        self.events.push(
            Event::SetTransferFeeFixed {
                old_transfer_fee: self.config.transfer_fee,
                new_transfer_fee: new_fee,
            },
        );
        self.config.transfer_fee = FeeSpec::Fixed(new_fee);
    }

    /// Why replacing the transfer fee with a percentage fails, or nothing.
    pub open spec fn spec_set_transfer_fee_percentage_check(new_fee_perc: u8) -> Result<
        (),
        StableCoinError,
    > {
        if new_fee_perc > 100 {
            Err(StableCoinError::PercentageOutOfRange)
        } else {
            Ok(())
        }
    }

    /// Replace the transfer fee with a percentage between zero and one
    /// hundred, logging the old and new values.
    pub fn set_config_transfer_fee_percentage(&mut self, new_fee_perc: u8) -> (r: Result<
        (),
        StableCoinError,
    >)
        requires
            old(self).wf(),
        ensures
            final(self).wf(),
            r is Ok <==> Self::spec_set_transfer_fee_percentage_check(new_fee_perc) is Ok,
            r matches Err(e) ==> Self::spec_set_transfer_fee_percentage_check(new_fee_perc)
                == Err::<(), StableCoinError>(e) && *final(self) == *old(self),
            r is Ok ==> {
                &&& final(self).config == (StableCoinConfig {
                    transfer_fee: FeeSpec::Percentage(new_fee_perc),
                    ..old(self).config
                })
                &&& final(self).events@ == old(self).events@.push(
                    (Event::SetTransferFeePercentage {
                        old_transfer_fee: old(self).config.transfer_fee,
                        new_fee_percentage: new_fee_perc,
                    }),
                )
                &&& *final(self) == (TariStableCoin {
                    config: final(self).config,
                    events: final(self).events,
                    ..*old(self)
                })
            },
    {
        if new_fee_perc > 100 {
            return Err(StableCoinError::PercentageOutOfRange);
        }
        self.events.push(
            Event::SetTransferFeePercentage {
                old_transfer_fee: self.config.transfer_fee,
                new_fee_percentage: new_fee_perc,
            },
        );
        self.config.transfer_fee = FeeSpec::Percentage(new_fee_perc);
        Ok(())
    }

    /// Why pausing fails, or nothing: the caller must prove possession of
    /// at least one admin badge.
    pub open spec fn spec_pause_check(badge_proof: BadgeProof) -> Result<(), StableCoinError> {
        if !(badge_proof.resource is Admin) {
            Err(StableCoinError::WrongProofResource)
        } else if badge_proof.badge_ids@.len() == 0 {
            Err(StableCoinError::ProofMustContainBadge)
        } else {
            Ok(())
        }
    }

    /// Set the pause flag: from here on the authorization hook rejects
    /// every deposit of the primary token. There is deliberately no
    /// symmetric unpause in this surface: once paused, deposits stay gated.
    pub fn pause(&mut self, badge_proof: &BadgeProof, tx_signer: String) -> (r: Result<
        (),
        StableCoinError,
    >)
        requires
            old(self).wf(),
        ensures
            final(self).wf(),
            r is Ok <==> Self::spec_pause_check(*badge_proof) is Ok,
            r matches Err(e) ==> Self::spec_pause_check(*badge_proof) == Err::<
                (),
                StableCoinError,
            >(e) && *final(self) == *old(self),
            r is Ok ==> {
                &&& final(self).is_paused
                &&& final(self).events@ == old(self).events@.push(
                    (Event::Paused { tx_signer, admin_badge: badge_proof.badge_ids@[0] }),
                )
                &&& *final(self) == (TariStableCoin {
                    is_paused: true,
                    events: final(self).events,
                    ..*old(self)
                })
            },
    {
        match badge_proof.resource {
            BadgeResource::Admin => {},
            BadgeResource::User => {
                return Err(StableCoinError::WrongProofResource);
            },
        }
        if badge_proof.badge_ids.len() == 0 {
            return Err(StableCoinError::ProofMustContainBadge);
        }
        let admin_badge = badge_proof.badge_ids[0];
        self.is_paused = true;
        self.events.push(Event::Paused { tx_signer, admin_badge });
        Ok(())
    }

    /// Pass a list of confidential outputs to the engine's freeze
    /// mechanism, recording how many (not which) were frozen.
    pub fn freeze_utxos(&mut self, utxos: &Vec<UtxoId>, tx_signer: String)
        ensures
            final(self).events@ == old(self).events@.push(
                (Event::FreezeUtxos { tx_signer, num_utxos: utxos@.len() as usize }),
            ),
            *final(self) == (TariStableCoin { events: final(self).events, ..*old(self) }),
    {
        let num_utxos = utxos.len();
        self.events.push(Event::FreezeUtxos { tx_signer, num_utxos });
    }

    /// Pass a list of confidential outputs to the engine's unfreeze
    /// mechanism, recording how many (not which) were unfrozen.
    pub fn unfreeze_utxos(&mut self, utxos: &Vec<UtxoId>, tx_signer: String)
        ensures
            final(self).events@ == old(self).events@.push(
                (Event::UnfreezeUtxos { tx_signer, num_utxos: utxos@.len() as usize }),
            ),
            *final(self) == (TariStableCoin { events: final(self).events, ..*old(self) }),
    {
        let num_utxos = utxos.len();
        self.events.push(Event::UnfreezeUtxos { tx_signer, num_utxos });
    }

    /// Why an exchange of stable for wrapped tokens fails, or nothing: the
    /// checks in the order they are made.
    pub open spec fn spec_exchange_stable_check(
        self,
        badge_proof: BadgeProof,
        bucket: TokenBucket,
    ) -> Result<(), StableCoinError> {
        if !(bucket.resource is Stable) {
            Err(StableCoinError::ResourceMismatch)
        } else if bucket.amount@ <= 0 {
            Err(StableCoinError::NonPositiveAmount)
        } else if !(badge_proof.resource is User) {
            Err(StableCoinError::WrongProofResource)
        } else if badge_proof.badge_ids@.len() != 1 {
            Err(StableCoinError::ProofMustContainExactlyOneBadge)
        } else if !self.user_registry@.contains_key(badge_proof.badge_ids@[0]) {
            Err(StableCoinError::UnknownUser)
        } else {
            let record = self.user_registry@[badge_proof.badge_ids@[0]];
            let fee = spec_fee(self.config.wrapped_exchange_fee, bucket.amount@);
            if bucket.amount@ > record.mutable.wrapped_exchange_limit@ {
                Err(StableCoinError::ExchangeLimitExceeded)
            } else if fee > bucket.amount@ {
                Err(StableCoinError::InsufficientFundsForFee)
            } else if self.spec_treasury_balance() + bucket.amount@ > i64::MAX {
                Err(StableCoinError::BalanceOverflow)
            } else if !self.wrapped_enabled() {
                Err(StableCoinError::WrappedTokenNotEnabled)
            } else if bucket.amount@ - fee > self.spec_wrapped_vault_balance() {
                Err(StableCoinError::InsufficientBalance)
            } else {
                Ok(())
            }
        }
    }

    /// Exchange a bucket of stable tokens for wrapped tokens, on behalf of
    /// the one user badge the proof carries. The amount is charged against
    /// the user's remaining exchange limit, which drops by exactly the
    /// amount; the exchange fee stays in the treasury, and the net amount
    /// comes back as wrapped tokens.
    pub fn exchange_stable_for_wrapped_tokens(
        &mut self,
        badge_proof: &BadgeProof,
        bucket: TokenBucket,
    ) -> (r: Result<TokenBucket, StableCoinError>)
        requires
            old(self).wf(),
            bucket.wf(),
        ensures
            final(self).wf(),
            r is Ok <==> old(self).spec_exchange_stable_check(*badge_proof, bucket) is Ok,
            r matches Err(e) ==> old(self).spec_exchange_stable_check(*badge_proof, bucket)
                == Err::<(), StableCoinError>(e) && *final(self) == *old(self),
            r matches Ok(wrapped_bucket) ==> {
                let uid = badge_proof.badge_ids@[0];
                let old_record = old(self).user_registry@[uid];
                let amount = bucket.amount;
                let fee = spec_fee(old(self).config.wrapped_exchange_fee, amount@);
                let new_limit = Amount(
                    (old_record.mutable.wrapped_exchange_limit@ - amount@) as i64,
                );
                &&& wrapped_bucket.resource is Wrapped
                &&& wrapped_bucket.amount@ == amount@ - fee
                &&& final(self).user_registry@ == old(self).user_registry@.insert(
                    uid,
                    (UserRecord {
                        data: old_record.data,
                        mutable: UserMutableData {
                            wrapped_exchange_limit: new_limit,
                            ..old_record.mutable
                        },
                    }),
                )
                &&& final(self).spec_treasury_balance() == old(self).spec_treasury_balance()
                    + amount@
                &&& final(self).spec_wrapped_vault_balance() == old(
                    self,
                ).spec_wrapped_vault_balance() - (amount@ - fee)
                &&& final(self).token_total_supply == old(self).token_total_supply
                &&& final(self).spec_wrapped_supply() == old(self).spec_wrapped_supply()
                &&& final(self).wrapped_enabled()
                &&& final(self).events@ == old(self).events@.push(
                    (Event::SetUserWrappedExchangeLimit {
                        user_id: old_record.data.user_id,
                        limit: new_limit,
                    }),
                ).push(
                    (Event::ExchangeStableForWrappedTokens {
                        user_id: old_record.data.user_id,
                        amount,
                        fee: Amount(fee as i64),
                    }),
                )
                &&& *final(self) == (TariStableCoin {
                    token_vault: final(self).token_vault,
                    user_registry: final(self).user_registry,
                    wrapped_token: final(self).wrapped_token,
                    events: final(self).events,
                    ..*old(self)
                })
            },
    {
        match bucket.resource {
            ResourceKind::Stable => {},
            ResourceKind::Wrapped => {
                return Err(StableCoinError::ResourceMismatch);
            },
        }
        if !bucket.amount.is_positive() {
            return Err(StableCoinError::NonPositiveAmount);
        }
        match badge_proof.resource {
            BadgeResource::User => {},
            BadgeResource::Admin => {
                return Err(StableCoinError::WrongProofResource);
            },
        }
        if badge_proof.badge_ids.len() != 1 {
            return Err(StableCoinError::ProofMustContainExactlyOneBadge);
        }
        let user_id = UserId(badge_proof.badge_ids[0]);
        let record = match self.user_registry.get(user_id) {
            Some(record) => record,
            None => {
                return Err(StableCoinError::UnknownUser);
            },
        };

        let amount = bucket.amount;
        if amount.0 > record.mutable.wrapped_exchange_limit.0 {
            return Err(StableCoinError::ExchangeLimitExceeded);
        }
        let fee = self.config.wrapped_exchange_fee.calculate_fee(amount);
        proof {
            match self.config.wrapped_exchange_fee {
                FeeSpec::Fixed(_) => {},
                FeeSpec::Percentage(p) => {
                    crate::config::lemma_percentage_bounds(amount@, p as int);
                },
            }
        }
        if fee.0 > amount.0 {
            return Err(StableCoinError::InsufficientFundsForFee);
        }
        let net = Amount(amount.0 - fee.0);
        if self.token_vault.balance().checked_add(amount).is_none() {
            return Err(StableCoinError::BalanceOverflow);
        }
        match &self.wrapped_token {
            Some(w) => {
                if net.0 > w.vault.balance().0 {
                    return Err(StableCoinError::InsufficientBalance);
                }
            },
            None => {
                return Err(StableCoinError::WrappedTokenNotEnabled);
            },
        }

        let new_limit = Amount(record.mutable.wrapped_exchange_limit.0 - amount.0);
        match self.set_user_wrapped_exchange_limit(user_id, new_limit) {
            Ok(()) => {},
            Err(_) => {
                return unreached();
            },
        }
        self.token_vault.deposit(amount);
        match &mut self.wrapped_token {
            Some(w) => {
                w.vault.withdraw(net);
            },
            None => {
                return unreached();
            },
        }
        self.events.push(
            Event::ExchangeStableForWrappedTokens { user_id: record.data.user_id, amount, fee },
        );
        Ok(TokenBucket::new(ResourceKind::Wrapped, net))
    }

    /// Why an exchange of wrapped for stable tokens fails, or nothing: the
    /// checks in the order they are made.
    pub open spec fn spec_exchange_wrapped_check(
        self,
        badge_proof: BadgeProof,
        wrapped_bucket: TokenBucket,
    ) -> Result<(), StableCoinError> {
        if !(badge_proof.resource is User) {
            Err(StableCoinError::WrongProofResource)
        } else if !self.wrapped_enabled() {
            Err(StableCoinError::WrappedTokenNotEnabled)
        } else if !(wrapped_bucket.resource is Wrapped) {
            Err(StableCoinError::ResourceMismatch)
        } else if wrapped_bucket.amount@ == 0 {
            Err(StableCoinError::NonPositiveAmount)
        } else if badge_proof.badge_ids@.len() != 1 {
            Err(StableCoinError::ProofMustContainExactlyOneBadge)
        } else if !self.user_registry@.contains_key(badge_proof.badge_ids@[0]) {
            Err(StableCoinError::UnknownUser)
        } else if self.spec_wrapped_vault_balance() + wrapped_bucket.amount@ > i64::MAX {
            Err(StableCoinError::BalanceOverflow)
        } else if wrapped_bucket.amount@ > self.spec_treasury_balance() {
            Err(StableCoinError::InsufficientBalance)
        } else {
            Ok(())
        }
    }

    /// Exchange wrapped tokens back into stable tokens, on behalf of the
    /// one user badge the proof carries. Deliberately asymmetric to the
    /// other direction: no exchange-limit check and no fee, so the limit
    /// can never trap funds in the wrapped form.
    pub fn exchange_wrapped_for_stable_tokens(
        &mut self,
        badge_proof: &BadgeProof,
        wrapped_bucket: TokenBucket,
    ) -> (r: Result<TokenBucket, StableCoinError>)
        requires
            old(self).wf(),
            wrapped_bucket.wf(),
        ensures
            final(self).wf(),
            r is Ok <==> old(self).spec_exchange_wrapped_check(*badge_proof, wrapped_bucket)
                is Ok,
            r matches Err(e) ==> old(self).spec_exchange_wrapped_check(*badge_proof, wrapped_bucket)
                == Err::<(), StableCoinError>(e) && *final(self) == *old(self),
            r matches Ok(bucket) ==> {
                let uid = badge_proof.badge_ids@[0];
                let amount = wrapped_bucket.amount;
                &&& bucket == (TokenBucket { resource: ResourceKind::Stable, amount })
                &&& final(self).spec_treasury_balance() == old(self).spec_treasury_balance()
                    - amount@
                &&& final(self).spec_wrapped_vault_balance() == old(
                    self,
                ).spec_wrapped_vault_balance() + amount@
                &&& final(self).token_total_supply == old(self).token_total_supply
                &&& final(self).spec_wrapped_supply() == old(self).spec_wrapped_supply()
                &&& final(self).user_registry@ == old(self).user_registry@
                &&& final(self).events@ == old(self).events@.push(
                    (Event::ExchangeWrappedForStableTokens {
                        user_id: old(self).user_registry@[uid].data.user_id,
                        amount,
                        fee: Amount(0),
                    }),
                )
                &&& *final(self) == (TariStableCoin {
                    token_vault: final(self).token_vault,
                    wrapped_token: final(self).wrapped_token,
                    events: final(self).events,
                    ..*old(self)
                })
            },
    {
        match badge_proof.resource {
            BadgeResource::User => {},
            BadgeResource::Admin => {
                return Err(StableCoinError::WrongProofResource);
            },
        }
        let wrapped_vault_balance = match &self.wrapped_token {
            Some(w) => w.vault.balance(),
            None => {
                return Err(StableCoinError::WrappedTokenNotEnabled);
            },
        };
        match wrapped_bucket.resource {
            ResourceKind::Wrapped => {},
            ResourceKind::Stable => {
                return Err(StableCoinError::ResourceMismatch);
            },
        }
        if wrapped_bucket.amount.is_zero() {
            return Err(StableCoinError::NonPositiveAmount);
        }
        if badge_proof.badge_ids.len() != 1 {
            return Err(StableCoinError::ProofMustContainExactlyOneBadge);
        }
        let user_id = UserId(badge_proof.badge_ids[0]);
        let record = match self.user_registry.get(user_id) {
            Some(record) => record,
            None => {
                return Err(StableCoinError::UnknownUser);
            },
        };

        let amount = wrapped_bucket.amount;
        if wrapped_vault_balance.checked_add(amount).is_none() {
            return Err(StableCoinError::BalanceOverflow);
        }
        if amount.0 > self.token_vault.balance().0 {
            return Err(StableCoinError::InsufficientBalance);
        }

        match &mut self.wrapped_token {
            Some(w) => {
                w.vault.deposit(amount);
            },
            None => {
                return unreached();
            },
        }
        self.token_vault.withdraw(amount);
        self.events.push(
            Event::ExchangeWrappedForStableTokens {
                user_id: record.data.user_id,
                amount,
                fee: Amount(0),
            },
        );
        Ok(TokenBucket::new(ResourceKind::Stable, amount))
    }

    /// The compliance chokepoint: the engine invokes this on every
    /// attempted deposit of the primary token into any vault, so every
    /// inbound transfer is gated on the recipient being a recognized
    /// account, independent of who initiates the transfer. Actions other
    /// than deposits follow the ordinary resource access rules.
    pub fn authorize_user_deposit(
        &self,
        action: ResourceAuthAction,
        caller: AuthHookCaller,
    ) -> (r: Result<(), StableCoinError>)
        ensures
            r == self.spec_deposit_auth_check(action, caller),
    {
        match action {
            ResourceAuthAction::Deposit => {
                if self.is_paused {
                    return Err(StableCoinError::TokenPaused);
                }
                let component_state = match caller.component_state {
                    Some(state) => state,
                    None => {
                        return Err(StableCoinError::DepositNotPermittedFromTemplate);
                    },
                };
                let vault_balances = match component_state {
                    CallerComponent::Account { user_badge_vault } => match user_badge_vault {
                        Some(vb) => vb,
                        None => {
                            return Err(StableCoinError::AccountLacksUserBadge);
                        },
                    },
                    CallerComponent::NotAnAccount => {
                        return Err(StableCoinError::DepositMustBeToAccount);
                    },
                };
                if vault_balances.balance.is_zero() && vault_balances.locked.is_zero() {
                    return Err(StableCoinError::AccountLacksUserBadge);
                }
                Ok(())
            },
            _ => Ok(()),
        }
    }
}

} // verus!
