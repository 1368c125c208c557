//! Startup configuration for a dynamic-DNS updater: the credential, the
//! domain and the switches are read from the environment and from the
//! command line, merged, and checked before any network work begins.

pub mod text;
pub mod config;
pub mod cli;
pub mod resolve;
