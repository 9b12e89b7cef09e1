//! User identity records.
//!
//! Each user badge carries an immutable part (the user id, the linked
//! account, the creation epoch) and a mutable part (the blacklist flag and
//! the remaining wrapped-exchange limit). Exactly one live badge exists per
//! user id; compliance operations rewrite only the mutable part.

use vstd::prelude::*;

use crate::amount::Amount;
use crate::decimal::padded_chars;
use crate::decimal::u64_to_padded_string;
use crate::ids::ComponentAddress;

verus! {

/// A stable, externally assigned user identifier.
#[derive(Clone, Copy, Debug, PartialEq, Eq, Structural)]
pub struct UserId(pub u64);

/// Width of the rendered form of a user id: the identifier is shown as a
/// zero-padded decimal string of at least this many characters.
pub const USER_ID_DISPLAY_WIDTH: usize = 19;

impl UserId {
    /// The fixed-width, zero-padded decimal rendering used in events.
    pub fn to_display_string(&self) -> (r: String)
        ensures
            r@ == padded_chars(self.0 as nat, USER_ID_DISPLAY_WIDTH as nat),
    {
        u64_to_padded_string(self.0, USER_ID_DISPLAY_WIDTH)
    }
}

/// The immutable identity data minted into a user badge.
#[derive(Clone, Copy, Debug, PartialEq, Eq, Structural)]
pub struct UserData {
    pub user_id: UserId,
    pub user_account: ComponentAddress,
    pub created_at_epoch: u64,
}

/// The mutable data of a user badge.
#[derive(Clone, Copy, Debug, PartialEq, Eq, Structural)]
pub struct UserMutableData {
    pub is_blacklisted: bool,
    pub wrapped_exchange_limit: Amount,
}

impl UserMutableData {
    pub fn set_wrapped_exchange_limit(&mut self, limit: Amount)
        ensures
            *final(self) == (UserMutableData { wrapped_exchange_limit: limit, ..*old(self) }),
    {
        self.wrapped_exchange_limit = limit;
    }
}

} // verus!
