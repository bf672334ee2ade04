//! The settings of a run.

use vstd::prelude::*;
use crate::primitives::Address;
use crate::uint::U256;

verus! {

/// What the user asked for, as far as the engine depends on it.
#[derive(Clone, Debug, PartialEq, Eq)]
pub struct ScriptArgs {
    /// Send the transactions instead of only simulating them.
    pub broadcast: bool,
    /// Send through accounts that the endpoint holds unlocked.
    pub unlocked: bool,
    /// Confirm each transaction before the next is sent.
    pub slow: bool,
    /// Skip the on-chain simulation that fills in gas.
    pub skip_simulation: bool,
    /// Verify the deployed contracts after the run.
    pub verify: bool,
    /// Use legacy transactions on every chain.
    pub legacy: bool,
    /// The price that overrides every fee field.
    pub with_gas_price: Option<U256>,
    /// The priority fee that overrides the estimated one.
    pub priority_gas_price: Option<U256>,
    /// What gas estimates are multiplied by, in percent.
    pub gas_estimate_multiplier: u64,
    /// The account that sends where a transaction names no other.
    pub sender: Option<Address>,
    /// The endpoint of transactions that name none.
    pub fork_url: Option<String>,
    /// The signature of the script function that was run.
    pub sig: String,
}

impl ScriptArgs {
    /// The settings of a run for which the user asked for nothing: a
    /// simulation with no override, in which gas estimates are raised by
    /// three tenths.
    pub open spec fn plain(&self) -> bool {
        &&& !self.broadcast
        &&& !self.unlocked
        &&& !self.slow
        &&& !self.skip_simulation
        &&& !self.verify
        &&& !self.legacy
        &&& self.with_gas_price is None
        &&& self.priority_gas_price is None
        &&& self.gas_estimate_multiplier == 130
        &&& self.sender is None
        &&& self.fork_url is None
        &&& self.sig@.len() == 0
    }
}

impl Default for ScriptArgs {
    fn default() -> (args: ScriptArgs)
        ensures
            args.plain(),
    {
        ScriptArgs {
            broadcast: false,
            unlocked: false,
            slow: false,
            skip_simulation: false,
            verify: false,
            legacy: false,
            with_gas_price: None,
            priority_gas_price: None,
            gas_estimate_multiplier: 130,
            sender: None,
            fork_url: None,
            sig: String::new(),
        }
    }
}

} // verus!
