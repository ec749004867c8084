//! A self-registration name service: accounts register lowercase names for a
//! configured fee (overpayment refunded), names resolve to addresses, and the
//! registry supports substring search and version-gated migration.

pub mod error;
pub mod helpers;
pub mod instantiate;
pub mod migrate;
pub mod msg;
pub mod query;
pub mod register;
pub mod search;
pub mod state;
pub mod version_info;
