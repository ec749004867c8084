//! A bilateral order-matching engine: ask/bid escrow records, a canonical
//! match predicate over coin multisets, settlement-instruction building, and
//! creation-fee handling, together with the companion contracts that share
//! its helper logic (a name registry and a counter contract with
//! version-gated migrations).
//!
//! All host interaction (persistent storage, message dispatch, identity) is
//! abstracted behind plain values: the orchestrator functions take the
//! contract state and the caller's context as arguments and return settlement
//! instructions for the host to execute atomically, alongside the state
//! change already made.

pub mod charclass;
pub mod coin;
pub mod contract;
pub mod contract_info;
pub mod counter;
pub mod error;
pub mod instructions;
pub mod laws;
pub mod match_engine;
pub mod msg;
pub mod nameservice;
pub mod numeric;
pub mod orders;
pub mod scope;
pub mod semver_util;
pub mod starter;
pub mod string_order;
