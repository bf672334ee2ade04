//! Broadcast engine for scripted deployments: partitions simulated
//! transactions into per-chain sequences, fills in chain-specific fields,
//! decides how and in which order they are submitted, and tracks pending
//! hashes and receipts so that an interrupted run can be resumed.
//!
//! The library decides and computes; the program around it talks to the
//! endpoints, the signers and the disk.

pub mod args;
pub mod bundle;
pub mod chains;
pub mod cost;
pub mod engine;
pub mod error;
pub mod fees;
pub mod gas;
pub mod kind;
pub mod polling;
pub mod primitives;
pub mod providers;
pub mod replay;
pub mod report;
pub mod script;
pub mod send;
pub mod sequence;
pub mod transaction;
pub mod uint;
