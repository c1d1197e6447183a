//! Configuration loading for a feed-forwarding service: a YAML file naming a
//! credential token, an optional proxy, a datastore address and a set of
//! per-destination feed subscriptions is read, validated and resolved into an
//! immutable, fully-defaulted `Config` value.
pub mod client;
pub mod config;
pub mod laws;
pub mod node;
pub mod numtext;

pub use client::ApiConfig;
pub use config::ChatId;
pub use config::Config;
pub use config::ConfigError;
pub use config::FeedConfig;
pub use config::FeedKind;
