//! What can go wrong between a simulated script and its last receipt.

use vstd::prelude::*;
use crate::primitives::Address;

verus! {

/// A setting that rules a run out before anything is sent.
#[derive(Clone, Copy, Debug, PartialEq, Eq)]
pub enum ConfigError {
    /// Unlocked accounts were asked for and no sender was configured.
    MissingSender,
    /// A transaction comes from an address for which no signer is known.
    UnknownSigner { address: Address },
    /// A transaction comes from an address that is not among the unlocked ones.
    SenderNotUnlocked { address: Address },
    /// A transaction names no endpoint and no fork URL was configured.
    MissingForkUrl,
    /// An endpoint is used that the provider registry does not hold.
    UnknownEndpoint,
    /// The contracts are to be verified after the run, and the check made
    /// before the run found that they cannot be.
    VerificationImpossible,
}

/// Why a run stopped.
#[derive(Clone, Copy, Debug, PartialEq, Eq)]
pub enum BroadcastError {
    Config(ConfigError),
    /// An endpoint could not be reached, or answered with an error.
    Rpc,
    /// The chain rejects the fee-market estimate; legacy mode may work.
    FeeMarketUnsupported,
    /// The next nonce of the sender could not be queried.
    NonceQueryFailed,
    /// The endpoint reports another next nonce than the transaction carries.
    NonceDrift { expected: Option<u64>, got: u64 },
    GasEstimationFailed,
    SigningFailed,
    /// Receipts were still missing when the deadline passed.
    PendingReceiptsIncomplete,
    /// The sequence could not be written to disk.
    Persist,
    /// Broadcasting was asked for and the script produced no transaction.
    NoTransactions,
    /// The engine was handed an event that it was not waiting for.
    UnexpectedEvent,
}

} // verus!
