//! Verified core of a risk-gated swap pipeline for a token exchange.

pub mod account;
pub mod action;
pub mod contract;
pub mod engine;
pub mod engine_laws;
pub mod engine_model;
pub mod error;
pub mod gas;
pub mod identity;
pub mod laws;
pub mod ledger;
pub mod message;
pub mod pipeline_model;
pub mod risk;
pub mod state;
