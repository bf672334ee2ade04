//! Chain classification: which chains refuse batched submission and which
//! estimate gas from state that is still in flight.

use vstd::prelude::*;

verus! {

pub const ARBITRUM: u64 = 42161;
pub const ARBITRUM_TESTNET: u64 = 421611;
pub const ARBITRUM_GOERLI: u64 = 421613;
pub const ARBITRUM_SEPOLIA: u64 = 421614;
pub const MOONBEAM: u64 = 1284;
pub const MOONRIVER: u64 = 1285;
pub const MOONBASE: u64 = 1287;
pub const MOONBEAM_DEV: u64 = 1281;

/// The chains of the Arbitrum family.
pub open spec fn arbitrum_family(chain: u64) -> bool {
    chain == ARBITRUM || chain == ARBITRUM_TESTNET || chain == ARBITRUM_GOERLI || chain
        == ARBITRUM_SEPOLIA
}

/// The chains of the Moonbeam family.
pub open spec fn moonbeam_family(chain: u64) -> bool {
    chain == MOONBEAM || chain == MOONRIVER || chain == MOONBASE || chain == MOONBEAM_DEV
}

/// A chain supports batched submission unless it belongs to the Arbitrum family.
pub open spec fn supports_batching(chain: u64) -> bool {
    !arbitrum_family(chain)
}

/// A chain whose gas estimate depends on transactions that are still in flight.
pub open spec fn different_gas_calc(chain: u64) -> bool {
    arbitrum_family(chain) || moonbeam_family(chain)
}

/// Whether transactions may be submitted to `chain` in batches.
pub fn has_batch_support(chain: u64) -> (supported: bool)
    ensures
        supported == supports_batching(chain),
{
    !(chain == ARBITRUM || chain == ARBITRUM_TESTNET || chain == ARBITRUM_GOERLI || chain
        == ARBITRUM_SEPOLIA)
}

/// Whether gas on `chain` has to be estimated again right before each submission.
pub fn has_different_gas_calc(chain: u64) -> (different: bool)
    ensures
        different == different_gas_calc(chain),
{
    chain == ARBITRUM || chain == ARBITRUM_TESTNET || chain == ARBITRUM_GOERLI || chain
        == ARBITRUM_SEPOLIA || chain == MOONBEAM || chain == MOONRIVER || chain == MOONBASE
        || chain == MOONBEAM_DEV
}

} // verus!
