//! Shutdown configuration and template metadata, with verified contracts.

pub mod metadata;
pub mod shutdown;
pub mod sig;
pub mod sig_set;
