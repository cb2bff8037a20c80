//! The configuration logic of the Floresta node's foreign-function layer.
pub mod config;
pub mod error;
pub mod hex;
pub mod logging;
