//! The entities that the store behind the bridge keeps, and the statements
//! that are sent to it.

pub mod migrations;
pub mod operations;
pub mod schema;
