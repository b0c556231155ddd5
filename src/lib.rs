//! Escrow and matching engine for a peer-to-peer asset exchange.
//!
//! Sellers escrow an asset in a listing with an ask; buyers escrow value in a
//! bucket and swap it for a listing. Every operation is a pure transition on an
//! explicit [`market::Market`] value that yields the asset transfers to perform.
pub mod asset;
pub mod error;
pub mod types;
pub mod model;
pub mod market;
pub mod laws;
pub mod msg;
