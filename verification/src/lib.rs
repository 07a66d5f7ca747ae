//! Verified rules of two Soroban contracts for satellite ground-station
//! passes: a registry that anchors pass events as timestamped proofs, and a
//! binary prediction market on the maximum elevation of a pass.
pub mod anchor;
pub mod market;
pub mod market_laws;
pub mod market_proofs;

pub use anchor::{AnchorError, PassAnchorContract, PassAnchorRecord};
pub use market::{
    BetPlaced, Claimed, Market, MarketConfig, MarketError, Position, PredictionMarketContract,
};
