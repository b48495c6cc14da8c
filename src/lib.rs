//! Authenticated client layer for the Tinkoff Invest API: the credential
//! facade, the request interceptor that stamps outbound metadata, the
//! process configuration and a small timestamp value type.

pub mod api;
pub mod config;
pub mod datetime;
pub mod error;
pub mod extensions;

pub use config::ApiConfig;
pub use datetime::DateTime;
pub use error::{Error, Result};
