//! Causal asset transfer: a per-process state machine that admits transfers
//! from each peer in strict per-sender order, holds them until they can be
//! validated against the local ledger, and applies only the valid ones.

pub mod bank;
pub mod clock;
pub mod laws;
pub mod process;
