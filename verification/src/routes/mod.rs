//! The operations that callers reach over HTTP.

pub mod auth;


pub use auth::{exchange_code, get_current_user, logout, refresh_token, revoke_token};
