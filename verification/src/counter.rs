//! A counter-and-attributes contract: it binds a base name at instantiation,
//! keeps a counter that costs an optional fixed fee to increment, writes
//! attributes under sub-names of its base name, forwards funds, and migrates
//! with a version upgrade check.

pub mod contract;
pub mod error;
pub mod msg;
pub mod state;
pub mod types;
pub mod version_info;
