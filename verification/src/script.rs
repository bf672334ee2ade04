//! The decisions around a run: what becomes of the transactions that a
//! script recorded, and how its sequences are deployed.

use vstd::prelude::*;
use crate::args::ScriptArgs;
use crate::error::{BroadcastError, ConfigError};
use crate::sequence::ScriptSequence;
use crate::transaction::{rpc_view, AbstractTransaction};

verus! {

/// What to do with the transactions that a script recorded.
#[derive(Clone, Copy, Debug, PartialEq, Eq, Structural)]
pub enum Handling {
    /// The script recorded nothing: there is nothing to do.
    Nothing,
    /// A transaction names no endpoint and there is no fork URL: the user is
    /// told to pass one, and nothing else happens.
    MissingRpc,
    /// The sequences are created, and deployed as `deployment_plan` says.
    CreateSequences,
}

/// How the sequences of a script are deployed.
#[derive(Clone, Copy, Debug, PartialEq, Eq, Structural)]
pub enum Deployment {
    /// Nothing is sent: the run was a simulation.
    Simulated,
    /// The sequences go out as one multi-chain deployment.
    MultiChain,
    /// The one sequence goes out with `single_deployment`.
    SingleChain,
}

impl ScriptArgs {
    /// Some call names no endpoint while no fork URL is configured.
    pub open spec fn missing_rpc(&self, calls: Seq<AbstractTransaction>) -> bool {
        self.fork_url is None && exists|i: int|
            0 <= i < calls.len() && (#[trigger] calls[i]).rpc is None
    }

    pub open spec fn handling_of(&self, calls: Option<Vec<AbstractTransaction>>) -> Handling {
        match calls {
            None => Handling::Nothing,
            Some(recorded) => if self.missing_rpc(recorded@) {
                Handling::MissingRpc
            } else {
                Handling::CreateSequences
            },
        }
    }

    /// With more than one sequence the deployment spans chains. Nothing is
    /// sent unless broadcasting was asked for and there is a sequence to send.
    pub open spec fn plan_of(&self, sequences: nat) -> Deployment {
        if !self.broadcast || sequences == 0 {
            Deployment::Simulated
        } else if sequences > 1 {
            Deployment::MultiChain
        } else {
            Deployment::SingleChain
        }
    }

    /// Decides what becomes of the transactions that a script recorded.
    pub fn handle_broadcastable_transactions(&self, calls: &Option<Vec<AbstractTransaction>>) -> (handling:
        Handling)
        ensures
            handling == self.handling_of(*calls),
    {
        match calls {
            None => Handling::Nothing,
            Some(recorded) => {
                if self.fork_url.is_some() {
                    return Handling::CreateSequences;
                }
                let mut i: usize = 0;
                while i < recorded.len()
                    invariant
                        self.fork_url is None,
                        *calls == Some(*recorded),
                        i <= recorded@.len(),
                        forall|j: int| 0 <= j < i ==> (#[trigger] recorded@[j]).rpc is Some,
                    decreases recorded@.len() - i,
                {
                    if recorded[i].rpc.is_none() {
                        assert(recorded@[i as int].rpc is None);
                        return Handling::MissingRpc;
                    }
                    i += 1;
                }
                Handling::CreateSequences
            },
        }
    }

    /// Decides how the sequences of a script are deployed.
    pub fn deployment_plan(&self, deployments: &Vec<ScriptSequence>) -> (plan: Deployment)
        ensures
            plan == self.plan_of(deployments@.len()),
    {
        if !self.broadcast || deployments.len() == 0 {
            Deployment::Simulated
        } else if deployments.len() > 1 {
            Deployment::MultiChain
        } else {
            Deployment::SingleChain
        }
    }

    /// Whether a deployment may start: unless the contracts are to be
    /// verified after the run and the check made before the run has failed.
    pub open spec fn may_start(&self, preflight_passed: bool) -> bool {
        !self.verify || preflight_passed
    }

    /// Whether the check for verification is made before the run: it is
    /// where the contracts are to be verified after it.
    pub fn needs_preflight(&self) -> (needed: bool)
        ensures
            needed == self.verify,
    {
        self.verify
    }

    /// Prepares the one sequence of a single-chain deployment.
    /// `preflight_passed` is the outcome of the check for verification, where
    /// `needs_preflight` asked for it; it is not looked at otherwise.
    ///
    /// Where the deployment may not start, the sequence stays as it was and
    /// nothing is sent. Else the libraries that the script was linked with are
    /// recorded, and the endpoint comes back that the transactions go to, which
    /// is the one that the first transaction names.
    pub fn single_deployment(
        &self,
        deployment_sequence: &mut ScriptSequence,
        libraries: Vec<String>,
        preflight_passed: bool,
    ) -> (result: Result<Option<String>, BroadcastError>)
        ensures
            result is Ok <==> self.may_start(preflight_passed),
            result is Err ==> result->Err_0 == BroadcastError::Config(
                ConfigError::VerificationImpossible,
            ) && *final(deployment_sequence) == *old(deployment_sequence),
            result is Ok ==> final(deployment_sequence).libraries == libraries,
            final(deployment_sequence).transactions == old(deployment_sequence).transactions,
            final(deployment_sequence).pending == old(deployment_sequence).pending,
            final(deployment_sequence).receipts == old(deployment_sequence).receipts,
            final(deployment_sequence).return_values == old(deployment_sequence).return_values,
            final(deployment_sequence).target == old(deployment_sequence).target,
            final(deployment_sequence).signature == old(deployment_sequence).signature,
            final(deployment_sequence).chain == old(deployment_sequence).chain,
            final(deployment_sequence).broadcast == old(deployment_sequence).broadcast,
            result is Ok ==> rpc_view(result->Ok_0) == if old(deployment_sequence).transactions@.len()
                > 0 {
                rpc_view(old(deployment_sequence).transactions@[0].rpc)
            } else {
                None
            },
    {
        if self.verify && !preflight_passed {
            return Err(BroadcastError::Config(ConfigError::VerificationImpossible));
        }
        deployment_sequence.add_libraries(libraries);
        if deployment_sequence.transactions.len() > 0 {
            match &deployment_sequence.transactions[0].rpc {
                Some(url) => Ok(Some(url.clone())),
                None => Ok(None),
            }
        } else {
            Ok(None)
        }
    }
}

} // verus!
