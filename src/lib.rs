//! Honeypot detection for tokens traded on a constant-product AMM.
//!
//! The library holds the logic of a forked-state round-trip swap: the ABI
//! codec for the handful of contract calls involved, pair resolution, the
//! orchestration of the two swap legs as a state machine, and the classifier
//! that turns execution outcomes into a verdict.  Executing calls against the
//! chain state is left to the caller, who feeds each outcome back in.

pub mod address;
pub mod word;
pub mod hash;
pub mod abi;
pub mod call;
pub mod error;
pub mod verdict;
pub mod erc20;
pub mod uniswapv2;
pub mod amm;
pub mod simulation;
pub mod cli;
