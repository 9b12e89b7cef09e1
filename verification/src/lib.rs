//! A regulated stable-coin issuer: a single stateful component that mints,
//! moves, exchanges and revokes a fungible "stable" token, guarded by
//! badge-based access control, an optional paired "wrapped" token for
//! liquidity exchange, and compliance primitives (blacklist, recall, pause).
//!
//! The issuer only states the rules: an external execution engine owns the
//! vault substrate, enforces the declared access rules, and applies each call
//! atomically. Engine-supplied facts (the caller's account contents, the
//! consensus epoch, the transaction signer) enter as plain arguments, and
//! every state transition here is verified.

pub mod access;
pub mod amount;
pub mod config;
pub mod decimal;
pub mod errors;
pub mod events;
pub mod ids;
pub mod issuer;
pub mod laws;
pub mod metadata;
pub mod registry;
pub mod resources;
pub mod user_data;
pub mod wrapped_exchange_token;

pub use access::AccessRule;
pub use access::AccessRules;
pub use access::Credentials;
pub use access::IssuerMethod;
pub use amount::Amount;
pub use config::FeeSpec;
pub use config::StableCoinConfig;
pub use errors::StableCoinError;
pub use events::Event;
pub use ids::ComponentAddress;
pub use issuer::AuthHookCaller;
pub use issuer::CallerComponent;
pub use issuer::ResourceAuthAction;
pub use issuer::TariStableCoin;
pub use issuer::VaultBalances;
pub use ids::UtxoId;
pub use ids::VaultId;
pub use metadata::Metadata;
pub use registry::UserRecord;
pub use registry::UserRegistry;
pub use resources::AdminBadgeBucket;
pub use resources::BadgeProof;
pub use resources::BadgeResource;
pub use resources::ResourceKind;
pub use resources::ResourcePolicy;
pub use resources::StealthValueProof;
pub use resources::TokenBucket;
pub use resources::UserBadgeBucket;
pub use resources::Vault;
pub use resources::ViewKey;
pub use user_data::UserData;
pub use user_data::UserId;
pub use user_data::UserMutableData;
pub use wrapped_exchange_token::WrappedExchangeToken;
