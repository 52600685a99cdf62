//! Chain-integration layer for a Solana-backed application.
//!
//! The crate provides the four core components of the integration layer —
//! the JSON-RPC client helpers, the multi-source price cache, the
//! block-polling listener state machine, and the wallet signature
//! verifier — together with the plain data types that the surrounding
//! application exchanges with them.  Network and clock effects are kept
//! behind small trusted wrappers; everything that decides or computes is
//! verified.

pub mod api;
pub mod config;
pub mod crypto;
pub mod encoding;
pub mod errors;
pub mod solana_client;
pub mod models;
pub mod price_service;
pub mod response;
pub mod services;
pub mod text;
pub mod time_utils;
pub mod transaction_listener;
pub mod wallet_verifier;
