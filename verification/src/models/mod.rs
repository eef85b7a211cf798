//! Data models: users, entitlements and subscription state.

pub mod subscription;
pub mod user;

pub use subscription::{SubscriptionSource, SubscriptionTier};
pub use user::{EntitlementUpsertParams, User, UserUpsertParams};
