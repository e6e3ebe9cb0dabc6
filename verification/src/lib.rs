//! A pari-mutuel prediction-market settlement engine.
//!
//! The engine tracks a protocol-wide configuration, independent markets and
//! per-user betting positions, and computes the pooled, proportional payouts
//! when a market is resolved.  Everything here is pure logic over plain
//! values: account storage, authorization and token custody are external
//! collaborators that the surrounding application provides.

pub mod laws;
pub mod ops;
pub mod settle;
pub mod state;
