//! The decisions of a liquidation agent for a collateralized lending pool,
//! verified with Verus.
//!
//! The agent rebuilds the borrowers of the pool from its borrow and supply
//! events, looks for borrowers whose health factor has fallen below one,
//! works out what liquidating each of them would earn, and names the
//! transaction that executes the best opportunity. This crate holds what is
//! decided and computed on the way; it never talks to a node. A caller
//! fetches what a step needs, hands it in as plain values, and carries out
//! what the step hands back.
//!
//! - [`u256`], [`i256`], [`address`]: the numbers and addresses of the
//!   chain, with values that the verifier can see. Wide arithmetic is done
//!   by `ethers` behind a small set of trusted operations.
//! - [`wad_ray_math`], [`checked`], [`arith`]: the protocol's fixed-point
//!   arithmetic and its laws.
//! - [`deployment`]: the supported networks.
//! - [`asset_set`], [`borrowers`], [`sync`]: borrower positions folded from
//!   events, and the block windows in which events are asked for.
//! - [`tokens`], [`prices`]: the reserves' parameters and the oracle's
//!   prices of one cycle.
//! - [`scanner`]: the search for underwater borrowers.
//! - [`evaluator`], [`opportunity`], [`selection`]: sizing a liquidation,
//!   estimating its profit, choosing the best.
//! - [`execution`]: the liquidation and approval transactions.
//! - [`strategy`]: the agent's long-lived state.

pub mod address;
pub mod arith;
pub mod asset_set;
pub mod borrowers;
pub mod checked;
pub mod deployment;
pub mod evaluator;
pub mod execution;
pub mod i256;
pub mod opportunity;
pub mod prices;
pub mod scanner;
pub mod selection;
pub mod strategy;
pub mod sync;
pub mod tokens;
pub mod u256;
pub mod wad_ray_math;
