//! OAuth2 sign-in against Discord, session tokens, and reconciliation of
//! Discord entitlements into a subscription tier.
//!
//! The library holds the decisions and does no I/O: requests to Discord
//! and operations on the storage are handed out as values, and what came
//! of them is handed back in.

pub mod auth;
pub mod config;
pub mod encryption;
pub mod error;
pub mod models;
pub mod provider;
pub mod reconcile;
pub mod routes;
pub mod storage;
pub mod text;
pub mod time;

pub use config::{Config, ConfigError, DiscordConfig, SecurityConfig, ServerConfig};
pub use error::{Error, StorageError};
pub use models::{SubscriptionSource, SubscriptionTier, User};
pub use storage::{EntitlementStorage, MemoryStorage, Storage, UserStorage};
pub use time::Timestamp;
