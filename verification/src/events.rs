//! The audit trail.
//!
//! Every state-changing operation appends one structured event named after
//! the operation. External observers rely on the exact event names, field
//! names and decimal renderings, so `name` and `entries` pin them down; the
//! issuer's contracts state which event each operation appends.

use vstd::prelude::*;

use crate::amount::Amount;
use crate::config::FeeSpec;
use crate::decimal::dec_digits;
use crate::decimal::int_chars;
use crate::decimal::padded_chars;
use crate::decimal::amount_to_string;
use crate::decimal::percent_string;
use crate::decimal::u64_to_string;
use crate::ids::UtxoId;
use crate::user_data::UserId;
use crate::user_data::USER_ID_DISPLAY_WIDTH;

verus! {

/// One record of the append-only event log.
#[derive(Clone, Debug, PartialEq, Eq)]
pub enum Event {
    IncreaseSupply { amount: Amount },
    DecreaseSupply { amount: Amount },
    Withdraw { amount: Amount },
    Deposit { amount: Amount },
    ExchangeStableForWrappedTokens { user_id: UserId, amount: Amount, fee: Amount },
    ExchangeWrappedForStableTokens { user_id: UserId, amount: Amount, fee: Amount },
    RecallTokens { user_id: UserId, amount: Amount },
    BurnUtxos { tx_signer: String, utxo_id: UtxoId },
    CreateNewAdmin { admin_id: u64 },
    CreateNewUser { user_id: UserId },
    SetUserExchangeLimit { user_id: UserId, limit: Amount, admin: String },
    BlacklistUser { user_id: UserId },
    RemoveFromBlacklist { user_id: UserId },
    SetUserWrappedExchangeLimit { user_id: UserId, limit: Amount },
    SetTransferFeeFixed { old_transfer_fee: FeeSpec, new_transfer_fee: Amount },
    SetTransferFeePercentage { old_transfer_fee: FeeSpec, new_fee_percentage: u8 },
    Paused { tx_signer: String, admin_badge: u64 },
    FreezeUtxos { tx_signer: String, num_utxos: usize },
    UnfreezeUtxos { tx_signer: String, num_utxos: usize },
}

/// The display rendering of a fee rule: the amount for a fixed fee, the
/// percentage followed by a percent sign otherwise.
pub open spec fn fee_spec_chars(fee: FeeSpec) -> Seq<char> {
    match fee {
        FeeSpec::Fixed(amount) => int_chars(amount@),
        FeeSpec::Percentage(p) => dec_digits(p as nat) + seq!['%'],
    }
}

pub fn fee_spec_to_string(fee: &FeeSpec) -> (r: String)
    ensures
        r@ == fee_spec_chars(*fee),
{
    match fee {
        FeeSpec::Fixed(amount) => amount_to_string(*amount),
        FeeSpec::Percentage(p) => percent_string(*p),
    }
}

/// The rendering of a user id in an event: fixed-width and zero-padded.
pub open spec fn user_id_chars(user_id: UserId) -> Seq<char> {
    padded_chars(user_id.0 as nat, USER_ID_DISPLAY_WIDTH as nat)
}

/// The key-value pairs an event carries, with every amount and identifier
/// as a decimal string.
pub open spec fn spec_event_entries(e: Event) -> Seq<(Seq<char>, Seq<char>)> {
    match e {
        Event::IncreaseSupply { amount } => seq![("amount"@, int_chars(amount@))],
        Event::DecreaseSupply { amount } => seq![("revealed_burn_amount"@, int_chars(amount@))],
        Event::Withdraw { amount } => seq![("amount_withdrawn"@, int_chars(amount@))],
        Event::Deposit { amount } => seq![("amount"@, int_chars(amount@))],
        Event::ExchangeStableForWrappedTokens { user_id, amount, fee } => seq![
            ("user_id"@, user_id_chars(user_id)),
            ("amount"@, int_chars(amount@)),
            ("fee"@, int_chars(fee@)),
        ],
        Event::ExchangeWrappedForStableTokens { user_id, amount, fee } => seq![
            ("user_id"@, user_id_chars(user_id)),
            ("amount"@, int_chars(amount@)),
            ("fee"@, int_chars(fee@)),
        ],
        Event::RecallTokens { user_id, amount } => seq![
            ("user_id"@, user_id_chars(user_id)),
            ("revealed_amount"@, int_chars(amount@)),
        ],
        Event::BurnUtxos { tx_signer, utxo_id } => seq![
            ("tx_signer"@, tx_signer@),
            ("utxo_id"@, dec_digits(utxo_id.0 as nat)),
        ],
        Event::CreateNewAdmin { admin_id } => seq![("admin_id"@, dec_digits(admin_id as nat))],
        Event::CreateNewUser { user_id } => seq![("user_id"@, user_id_chars(user_id))],
        Event::SetUserExchangeLimit { user_id, limit, admin } => seq![
            ("user_id"@, user_id_chars(user_id)),
            ("limit"@, int_chars(limit@)),
            ("admin"@, admin@),
        ],
        Event::BlacklistUser { user_id } => seq![("user_id"@, user_id_chars(user_id))],
        Event::RemoveFromBlacklist { user_id } => seq![("user_id"@, user_id_chars(user_id))],
        Event::SetUserWrappedExchangeLimit { user_id, limit } => seq![
            ("user_id"@, user_id_chars(user_id)),
            ("limit"@, int_chars(limit@)),
        ],
        Event::SetTransferFeeFixed { old_transfer_fee, new_transfer_fee } => seq![
            ("old_transfer_fee"@, fee_spec_chars(old_transfer_fee)),
            ("new_transfer_fee"@, int_chars(new_transfer_fee@)),
        ],
        Event::SetTransferFeePercentage { old_transfer_fee, new_fee_percentage } => seq![
            ("old_transfer_fee"@, fee_spec_chars(old_transfer_fee)),
            ("new_transfer_fee"@, dec_digits(new_fee_percentage as nat) + seq!['%']),
        ],
        Event::Paused { tx_signer, admin_badge } => seq![
            ("tx_signer"@, tx_signer@),
            ("admin_badge"@, dec_digits(admin_badge as nat)),
        ],
        Event::FreezeUtxos { tx_signer, num_utxos } => seq![
            ("tx_signer"@, tx_signer@),
            ("num_utxos"@, dec_digits(num_utxos as nat)),
        ],
        Event::UnfreezeUtxos { tx_signer, num_utxos } => seq![
            ("tx_signer"@, tx_signer@),
            ("num_utxos"@, dec_digits(num_utxos as nat)),
        ],
    }
}

impl Event {
    /// The event's name: the operation that emitted it.
    pub fn name(&self) -> (r: &'static str)
        ensures
            *self is IncreaseSupply ==> r@ == "increase_supply"@,
            *self is DecreaseSupply ==> r@ == "decrease_supply"@,
            *self is Withdraw ==> r@ == "withdraw"@,
            *self is Deposit ==> r@ == "deposit"@,
            *self is ExchangeStableForWrappedTokens ==> r@
                == "exchange_stable_for_wrapped_tokens"@,
            *self is ExchangeWrappedForStableTokens ==> r@
                == "exchange_wrapped_for_stable_tokens"@,
            *self is RecallTokens ==> r@ == "recall_tokens"@,
            *self is BurnUtxos ==> r@ == "burn_utxos"@,
            *self is CreateNewAdmin ==> r@ == "create_new_admin"@,
            *self is CreateNewUser ==> r@ == "create_new_user"@,
            *self is SetUserExchangeLimit ==> r@ == "set_user_exchange_limit"@,
            *self is BlacklistUser ==> r@ == "blacklist_user"@,
            *self is RemoveFromBlacklist ==> r@ == "remove_from_blacklist"@,
            *self is SetUserWrappedExchangeLimit ==> r@ == "set_user_wrapped_exchange_limit"@,
            *self is SetTransferFeeFixed ==> r@ == "config.set_transfer_fee_fixed"@,
            *self is SetTransferFeePercentage ==> r@ == "config.set_transfer_fee_percentage"@,
            *self is Paused ==> r@ == "admin.paused"@,
            *self is FreezeUtxos ==> r@ == "admin.freeze_utxos"@,
            *self is UnfreezeUtxos ==> r@ == "admin.unfreeze_utxos"@,
    {
        match self {
            Event::IncreaseSupply { .. } => "increase_supply",
            Event::DecreaseSupply { .. } => "decrease_supply",
            Event::Withdraw { .. } => "withdraw",
            Event::Deposit { .. } => "deposit",
            Event::ExchangeStableForWrappedTokens { .. } => "exchange_stable_for_wrapped_tokens",
            Event::ExchangeWrappedForStableTokens { .. } => "exchange_wrapped_for_stable_tokens",
            Event::RecallTokens { .. } => "recall_tokens",
            Event::BurnUtxos { .. } => "burn_utxos",
            Event::CreateNewAdmin { .. } => "create_new_admin",
            Event::CreateNewUser { .. } => "create_new_user",
            Event::SetUserExchangeLimit { .. } => "set_user_exchange_limit",
            Event::BlacklistUser { .. } => "blacklist_user",
            Event::RemoveFromBlacklist { .. } => "remove_from_blacklist",
            Event::SetUserWrappedExchangeLimit { .. } => "set_user_wrapped_exchange_limit",
            Event::SetTransferFeeFixed { .. } => "config.set_transfer_fee_fixed",
            Event::SetTransferFeePercentage { .. } => "config.set_transfer_fee_percentage",
            Event::Paused { .. } => "admin.paused",
            Event::FreezeUtxos { .. } => "admin.freeze_utxos",
            Event::UnfreezeUtxos { .. } => "admin.unfreeze_utxos",
        }
    }

    /// The event's key-value pairs, every amount and identifier rendered as
    /// a decimal string.
    pub fn entries(&self) -> (r: Vec<(&'static str, String)>)
        ensures
            r@.len() == spec_event_entries(*self).len(),
            forall|i: int|
                0 <= i < r@.len() ==> (#[trigger] r@[i]).0@ == spec_event_entries(*self)[i].0
                    && r@[i].1@ == spec_event_entries(*self)[i].1,
    {
        let mut r: Vec<(&'static str, String)> = Vec::new();
        match self {
            Event::IncreaseSupply { amount } => {
                r.push(("amount", amount_to_string(*amount)));
            },
            Event::DecreaseSupply { amount } => {
                r.push(("revealed_burn_amount", amount_to_string(*amount)));
            },
            Event::Withdraw { amount } => {
                r.push(("amount_withdrawn", amount_to_string(*amount)));
            },
            Event::Deposit { amount } => {
                r.push(("amount", amount_to_string(*amount)));
            },
            Event::ExchangeStableForWrappedTokens { user_id, amount, fee } => {
                r.push(("user_id", user_id.to_display_string()));
                r.push(("amount", amount_to_string(*amount)));
                r.push(("fee", amount_to_string(*fee)));
            },
            Event::ExchangeWrappedForStableTokens { user_id, amount, fee } => {
                r.push(("user_id", user_id.to_display_string()));
                r.push(("amount", amount_to_string(*amount)));
                r.push(("fee", amount_to_string(*fee)));
            },
            Event::RecallTokens { user_id, amount } => {
                r.push(("user_id", user_id.to_display_string()));
                r.push(("revealed_amount", amount_to_string(*amount)));
            },
            Event::BurnUtxos { tx_signer, utxo_id } => {
                r.push(("tx_signer", tx_signer.clone()));
                r.push(("utxo_id", u64_to_string(utxo_id.0)));
            },
            Event::CreateNewAdmin { admin_id } => {
                r.push(("admin_id", u64_to_string(*admin_id)));
            },
            Event::CreateNewUser { user_id } => {
                r.push(("user_id", user_id.to_display_string()));
            },
            Event::SetUserExchangeLimit { user_id, limit, admin } => {
                r.push(("user_id", user_id.to_display_string()));
                r.push(("limit", amount_to_string(*limit)));
                r.push(("admin", admin.clone()));
            },
            Event::BlacklistUser { user_id } => {
                r.push(("user_id", user_id.to_display_string()));
            },
            Event::RemoveFromBlacklist { user_id } => {
                r.push(("user_id", user_id.to_display_string()));
            },
            Event::SetUserWrappedExchangeLimit { user_id, limit } => {
                r.push(("user_id", user_id.to_display_string()));
                r.push(("limit", amount_to_string(*limit)));
            },
            Event::SetTransferFeeFixed { old_transfer_fee, new_transfer_fee } => {
                r.push(("old_transfer_fee", fee_spec_to_string(old_transfer_fee)));
                r.push(("new_transfer_fee", amount_to_string(*new_transfer_fee)));
            },
            Event::SetTransferFeePercentage { old_transfer_fee, new_fee_percentage } => {
                r.push(("old_transfer_fee", fee_spec_to_string(old_transfer_fee)));
                r.push(("new_transfer_fee", percent_string(*new_fee_percentage)));
            },
            Event::Paused { tx_signer, admin_badge } => {
                r.push(("tx_signer", tx_signer.clone()));
                r.push(("admin_badge", u64_to_string(*admin_badge)));
            },
            Event::FreezeUtxos { tx_signer, num_utxos } => {
                r.push(("tx_signer", tx_signer.clone()));
                r.push(("num_utxos", u64_to_string(*num_utxos as u64)));
            },
            Event::UnfreezeUtxos { tx_signer, num_utxos } => {
                r.push(("tx_signer", tx_signer.clone()));
                r.push(("num_utxos", u64_to_string(*num_utxos as u64)));
            },
        }
        r
    }
}

} // verus!
