//! User configuration of the client.
pub mod knotty_config;
