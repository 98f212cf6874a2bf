//! A latency-sensitive arbitrage engine.
//!
//! The engine tracks the price of an asset on the venue where it trades
//! against an independently sourced reference price, detects when the two
//! diverge by more than a configured fraction, and sizes a corrective order
//! under a daily loss cap.

pub mod config;
pub mod executor;
pub mod feeds;
pub mod fixed;
pub mod outside;
pub mod pipeline;
pub mod risk_manager;
pub mod strategy;
