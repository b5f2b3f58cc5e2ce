//! What the sample plugins decide and compute, apart from their calls across
//! the bridge.

pub mod audit;
pub mod auth;
pub mod template;
