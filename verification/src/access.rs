//! Declarative per-method access rules.
//!
//! The issuer does not check capabilities itself: at construction time it
//! declares, per method, which credentials the engine must demand. A rule is
//! a predicate over the caller's presented badges; the table maps method
//! names to rules, with a default for every method not named.

use vstd::prelude::*;

verus! {

/// A capability predicate over the caller's presented badges.
#[derive(Clone, Copy, Debug, PartialEq, Eq, Structural)]
pub enum AccessRule {
    AllowAll,
    RequireAdmin,
    RequireUserOrAdmin,
}

/// The badges a caller presents: possession of an admin badge and/or a user
/// badge of this issuer.
#[derive(Clone, Copy, Debug, PartialEq, Eq, Structural)]
pub struct Credentials {
    pub has_admin_badge: bool,
    pub has_user_badge: bool,
}

/// Whether the presented credentials satisfy a rule.
pub open spec fn spec_authorized(rule: AccessRule, credentials: Credentials) -> bool {
    match rule {
        AccessRule::AllowAll => true,
        AccessRule::RequireAdmin => credentials.has_admin_badge,
        AccessRule::RequireUserOrAdmin => credentials.has_admin_badge
            || credentials.has_user_badge,
    }
}

impl AccessRule {
    pub fn is_authorized(&self, credentials: &Credentials) -> (r: bool)
        ensures
            r == spec_authorized(*self, *credentials),
    {
        match self {
            AccessRule::AllowAll => true,
            AccessRule::RequireAdmin => credentials.has_admin_badge,
            AccessRule::RequireUserOrAdmin => credentials.has_admin_badge
                || credentials.has_user_badge,
        }
    }
}

/// The methods of the issuer, as named in its access-rule table.
#[derive(Clone, Copy, Debug, PartialEq, Eq, Structural)]
pub enum IssuerMethod {
    Instantiate,
    AuthorizeUserDeposit,
    IncreaseSupply,
    DecreaseSupply,
    TotalSupply,
    Withdraw,
    Deposit,
    ExchangeStableForWrappedTokens,
    ExchangeWrappedForStableTokens,
    RecallRevealedTokens,
    BurnUtxos,
    CreateNewAdmin,
    CreateNewUser,
    SetUserExchangeLimit,
    BlacklistUser,
    RemoveFromBlacklist,
    GetUserData,
    SetUserWrappedExchangeLimit,
    SetConfigTransferFeeFixed,
    SetConfigTransferFeePercentage,
    Pause,
    FreezeUtxos,
    UnfreezeUtxos,
}

impl IssuerMethod {
    /// The method's name, as it appears in the access-rule table the engine
    /// evaluates.
    pub fn name(&self) -> (r: &'static str)
        ensures
            *self is Instantiate ==> r@ == "instantiate"@,
            *self is AuthorizeUserDeposit ==> r@ == "authorize_user_deposit"@,
            *self is IncreaseSupply ==> r@ == "increase_supply"@,
            *self is DecreaseSupply ==> r@ == "decrease_supply"@,
            *self is TotalSupply ==> r@ == "total_supply"@,
            *self is Withdraw ==> r@ == "withdraw"@,
            *self is Deposit ==> r@ == "deposit"@,
            *self is ExchangeStableForWrappedTokens ==> r@
                == "exchange_stable_for_wrapped_tokens"@,
            *self is ExchangeWrappedForStableTokens ==> r@
                == "exchange_wrapped_for_stable_tokens"@,
            *self is RecallRevealedTokens ==> r@ == "recall_revealed_tokens"@,
            *self is BurnUtxos ==> r@ == "burn_utxos"@,
            *self is CreateNewAdmin ==> r@ == "create_new_admin"@,
            *self is CreateNewUser ==> r@ == "create_new_user"@,
            *self is SetUserExchangeLimit ==> r@ == "set_user_exchange_limit"@,
            *self is BlacklistUser ==> r@ == "blacklist_user"@,
            *self is RemoveFromBlacklist ==> r@ == "remove_from_blacklist"@,
            *self is GetUserData ==> r@ == "get_user_data"@,
            *self is SetUserWrappedExchangeLimit ==> r@ == "set_user_wrapped_exchange_limit"@,
            *self is SetConfigTransferFeeFixed ==> r@ == "set_config_transfer_fee_fixed"@,
            *self is SetConfigTransferFeePercentage ==> r@
                == "set_config_transfer_fee_percentage"@,
            *self is Pause ==> r@ == "pause"@,
            *self is FreezeUtxos ==> r@ == "freeze_utxos"@,
            *self is UnfreezeUtxos ==> r@ == "unfreeze_utxos"@,
    {
        match self {
            IssuerMethod::Instantiate => "instantiate",
            IssuerMethod::AuthorizeUserDeposit => "authorize_user_deposit",
            IssuerMethod::IncreaseSupply => "increase_supply",
            IssuerMethod::DecreaseSupply => "decrease_supply",
            IssuerMethod::TotalSupply => "total_supply",
            IssuerMethod::Withdraw => "withdraw",
            IssuerMethod::Deposit => "deposit",
            IssuerMethod::ExchangeStableForWrappedTokens => "exchange_stable_for_wrapped_tokens",
            IssuerMethod::ExchangeWrappedForStableTokens => "exchange_wrapped_for_stable_tokens",
            IssuerMethod::RecallRevealedTokens => "recall_revealed_tokens",
            IssuerMethod::BurnUtxos => "burn_utxos",
            IssuerMethod::CreateNewAdmin => "create_new_admin",
            IssuerMethod::CreateNewUser => "create_new_user",
            IssuerMethod::SetUserExchangeLimit => "set_user_exchange_limit",
            IssuerMethod::BlacklistUser => "blacklist_user",
            IssuerMethod::RemoveFromBlacklist => "remove_from_blacklist",
            IssuerMethod::GetUserData => "get_user_data",
            IssuerMethod::SetUserWrappedExchangeLimit => "set_user_wrapped_exchange_limit",
            IssuerMethod::SetConfigTransferFeeFixed => "set_config_transfer_fee_fixed",
            IssuerMethod::SetConfigTransferFeePercentage => "set_config_transfer_fee_percentage",
            IssuerMethod::Pause => "pause",
            IssuerMethod::FreezeUtxos => "freeze_utxos",
            IssuerMethod::UnfreezeUtxos => "unfreeze_utxos",
        }
    }
}

/// The rule the table yields for a method: the first entry naming the
/// method, or the default rule when none does.
pub open spec fn rule_in(
    entries: Seq<(IssuerMethod, AccessRule)>,
    method: IssuerMethod,
    default_rule: AccessRule,
) -> AccessRule
    decreases entries.len(),
{
    if entries.len() == 0 {
        default_rule
    } else if entries[0].0 == method {
        entries[0].1
    } else {
        rule_in(entries.drop_first(), method, default_rule)
    }
}

/// A method-to-rule table with a default, declared once at instantiation
/// and evaluated by the engine on every call.
pub struct AccessRules {
    entries: Vec<(IssuerMethod, AccessRule)>,
    default_rule: AccessRule,
}

impl AccessRules {
    pub closed spec fn spec_entries(self) -> Seq<(IssuerMethod, AccessRule)> {
        self.entries@
    }

    pub closed spec fn spec_default_rule(self) -> AccessRule {
        self.default_rule
    }

    /// The rule governing a method.
    pub open spec fn spec_rule_for(self, method: IssuerMethod) -> AccessRule {
        rule_in(self.spec_entries(), method, self.spec_default_rule())
    }

    /// An empty table: every method falls to the default, which starts as
    /// allow-all until `default` replaces it.
    pub fn new() -> (r: AccessRules)
        ensures
            r.spec_entries() == Seq::<(IssuerMethod, AccessRule)>::empty(),
            r.spec_default_rule() == AccessRule::AllowAll,
    {
        AccessRules { entries: Vec::new(), default_rule: AccessRule::AllowAll }
    }

    pub fn add_method_rule(self, method: IssuerMethod, rule: AccessRule) -> (r: AccessRules)
        ensures
            r.spec_entries() == self.spec_entries().push((method, rule)),
            r.spec_default_rule() == self.spec_default_rule(),
    {
        let mut entries = self.entries;
        entries.push((method, rule));
        AccessRules { entries, default_rule: self.default_rule }
    }

    pub fn default(self, rule: AccessRule) -> (r: AccessRules)
        ensures
            r.spec_entries() == self.spec_entries(),
            r.spec_default_rule() == rule,
    {
        AccessRules { entries: self.entries, default_rule: rule }
    }

    /// Look the method up in the table.
    pub fn rule_for_method(&self, method: IssuerMethod) -> (r: AccessRule)
        ensures
            r == self.spec_rule_for(method),
    {
        let ghost all = self.entries@;
        proof {
            assert(all.skip(0) =~= all);
        }
        let mut i: usize = 0;
        while i < self.entries.len()
            invariant
                i <= self.entries@.len(),
                all == self.entries@,
                rule_in(all, method, self.default_rule) == rule_in(
                    all.skip(i as int),
                    method,
                    self.default_rule,
                ),
            decreases self.entries@.len() - i,
        {
            let entry = self.entries[i];
            proof {
                assert(all.skip(i as int)[0] == all[i as int]);
                assert(all.skip(i as int).drop_first() =~= all.skip(i as int + 1));
            }
            if entry.0 == method {
                return entry.1;
            }
            i = i + 1;
        }
        proof {
            assert(all.skip(i as int) =~= Seq::<(IssuerMethod, AccessRule)>::empty());
        }
        self.default_rule
    }

    /// Whether the presented credentials may call the method, under the
    /// rule the table yields for it.
    pub fn authorize(&self, method: IssuerMethod, credentials: &Credentials) -> (r: bool)
        ensures
            r == spec_authorized(self.spec_rule_for(method), *credentials),
    {
        let rule = self.rule_for_method(method);
        rule.is_authorized(credentials)
    }
}

} // verus!
