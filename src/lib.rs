//! Lazy-mint proxy: a verified orchestrator that reads the asset count of a
//! collection, mints a token, attaches one pseudo-randomly selected asset to it
//! and hands the token over to the caller.

pub mod proxy;
pub mod selector;
pub mod traits;
pub mod types;
