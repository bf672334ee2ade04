//! Gas estimates: when gas is estimated again right before a submission, and
//! what becomes of the estimate.

use vstd::prelude::*;
use crate::args::ScriptArgs;
use crate::chains::{different_gas_calc, has_different_gas_calc};
use crate::error::BroadcastError;
use crate::transaction::FinalTransaction;
use crate::uint::{ethers_checked_div, ethers_checked_mul, modulus, U256};

verus! {

/// Gas is estimated again right before a submission unless the limit is
/// frozen, on chains that estimate from state in flight and whenever the
/// simulation was skipped.
pub open spec fn needs_estimate(chain: u64, skip_simulation: bool, is_fixed_gas_limit: bool) -> bool {
    !is_fixed_gas_limit && (different_gas_calc(chain) || skip_simulation)
}

/// An estimate multiplied by a percentage, rounded down.
pub open spec fn scaled(estimate: nat, multiplier: u64) -> nat {
    estimate * (multiplier as nat) / 100
}

/// The limit that an estimate gives: the estimate scaled by the multiplier,
/// as long as the product of the two fits in 256 bits.
pub open spec fn limit_from(estimate: Option<U256>, multiplier: u64) -> Option<nat> {
    if estimate is Some && estimate->0@ * (multiplier as nat) < modulus() {
        Some(scaled(estimate->0@, multiplier))
    } else {
        None
    }
}

/// Whether gas has to be estimated again right before a submission.
pub fn needs_gas_estimate(chain: u64, skip_simulation: bool, is_fixed_gas_limit: bool) -> (needed: bool)
    ensures
        needed == needs_estimate(chain, skip_simulation, is_fixed_gas_limit),
{
    !is_fixed_gas_limit && (has_different_gas_calc(chain) || skip_simulation)
}

/// Scales an estimate by a percentage. There is no result where the product
/// of estimate and percentage does not fit in 256 bits.
pub fn scale_estimate(estimate: U256, multiplier: u64) -> (limit: Option<U256>)
    ensures
        limit is Some <==> estimate@ * (multiplier as nat) < modulus(),
        limit is Some ==> limit->0@ == scaled(estimate@, multiplier),
{
    match ethers_checked_mul(estimate, U256::from_u64(multiplier)) {
        Some(product) => ethers_checked_div(product, U256::from_u64(100)),
        None => None,
    }
}

/// The transaction as it is handed to the endpoint for an estimate: without
/// a gas limit, since some endpoints answer with the limit they were given.
pub fn estimate_request(tx: FinalTransaction) -> (request: FinalTransaction)
    ensures
        request@ == tx@.with_gas_limit(None),
{
    tx.with_gas_limit(None)
}

impl ScriptArgs {
    /// Sets the gas limit from what the endpoint estimated for
    /// `estimate_request` of the transaction: the estimate scaled by the
    /// multiplier of the run. Fails where the endpoint gave no estimate or the
    /// scaled estimate cannot be computed in 256 bits.
    pub fn estimate_gas(&self, tx: FinalTransaction, estimate: Option<U256>) -> (result: Result<
        FinalTransaction,
        BroadcastError,
    >)
        ensures
            result is Ok <==> limit_from(estimate, self.gas_estimate_multiplier) is Some,
            result is Ok ==> result->Ok_0@.body().gas_limit is Some
                && result->Ok_0@.body().gas_limit->0@ == limit_from(
                estimate,
                self.gas_estimate_multiplier,
            )->0 && result->Ok_0@ == tx@.with_gas_limit(result->Ok_0@.body().gas_limit),
            result is Err ==> result->Err_0 == BroadcastError::GasEstimationFailed,
    {
        match estimate {
            None => Err(BroadcastError::GasEstimationFailed),
            Some(estimated) => match scale_estimate(estimated, self.gas_estimate_multiplier) {
                None => Err(BroadcastError::GasEstimationFailed),
                Some(limit) => Ok(tx.with_gas_limit(Some(limit))),
            },
        }
    }
}

} // verus!
