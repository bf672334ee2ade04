//! From the transactions of a script to one sequence per run of
//! transactions that go to the same endpoint.

use vstd::prelude::*;
use crate::args::ScriptArgs;
use crate::chains::{different_gas_calc, has_different_gas_calc};
use crate::cost::{gas_per_endpoint, GasByEndpoint};
use crate::error::{BroadcastError, ConfigError};
use crate::gas::{limit_from, scale_estimate};
use crate::providers::ProviderRegistry;
use crate::sequence::{copy_returns, returns_view, NamedReturn, ScriptSequence};
use crate::transaction::{
    chosen_shape,
    rpc_view,
    AbstractTransaction,
    TxWithMetadata,
    TxWithMetadataView,
};
use crate::uint::U256;

verus! {

/// What bundling makes of the transactions of a script.
#[derive(Clone, Debug, PartialEq, Eq)]
pub struct Bundle {
    /// One sequence for each run of transactions that go to the same endpoint.
    pub deployments: Vec<ScriptSequence>,
    /// The gas of the transactions of each endpoint, over all sequences;
    /// empty where the simulation was skipped.
    pub gas: GasByEndpoint,
}

/// The outcome of asking an endpoint for the gas of the transaction at
/// `index`: none where no estimate was made or the endpoint gave none.
pub open spec fn estimate_at(estimates: Seq<Option<U256>>, index: int) -> Option<U256> {
    if 0 <= index < estimates.len() {
        estimates[index]
    } else {
        None
    }
}

impl ScriptArgs {
    /// The endpoint that a transaction goes to: its own, or else the fork URL.
    pub open spec fn endpoint_for(&self, rpc: Option<Seq<char>>) -> Option<Seq<char>> {
        if rpc is Some {
            rpc
        } else {
            rpc_view(self.fork_url)
        }
    }

    /// While bundling, gas is estimated again on chains that estimate from
    /// state in flight, unless the simulation was skipped.
    pub open spec fn reestimates(&self, chain: u64) -> bool {
        !self.skip_simulation && different_gas_calc(chain)
    }

    /// Whether transactions for an endpoint are legacy transactions: where
    /// the user asks for that on every chain, or the chain of the endpoint
    /// takes no others.
    pub open spec fn legacy_on(&self, chain_is_legacy: bool) -> bool {
        self.legacy || chain_is_legacy
    }

    /// A transaction made ready for its endpoint: in the shape that the user
    /// or the chain asks for, with the chain id, and with the endpoint written
    /// into it.
    pub open spec fn targeted(
        tx: TxWithMetadataView,
        endpoint: Seq<char>,
        is_legacy: bool,
        chain: u64,
    ) -> TxWithMetadataView {
        let shaped = tx.with_type(is_legacy);
        TxWithMetadataView {
            transaction: shaped.transaction.with_chain_id(chain),
            rpc: Some(endpoint),
            ..shaped
        }
    }

    /// Why a transaction cannot be made ready: it names no endpoint and there
    /// is no fork URL, or the registry does not hold its endpoint.
    pub open spec fn ready_error(
        &self,
        tx: TxWithMetadataView,
        registry: &ProviderRegistry,
    ) -> Option<BroadcastError> {
        if self.endpoint_for(tx.rpc) is None {
            Some(BroadcastError::Config(ConfigError::MissingForkUrl))
        } else if registry.registered(self.endpoint_for(tx.rpc)->0) is None {
            Some(BroadcastError::Config(ConfigError::UnknownEndpoint))
        } else {
            None
        }
    }

    /// `ready` is `tx` made ready for its endpoint. Where gas is estimated
    /// again and the estimate can be scaled, the gas limit is the scaled
    /// estimate; an estimate that failed leaves the gas limit as it was.
    pub open spec fn is_ready(
        &self,
        tx: TxWithMetadataView,
        registry: &ProviderRegistry,
        estimate: Option<U256>,
        ready: TxWithMetadataView,
    ) -> bool {
        let endpoint = self.endpoint_for(tx.rpc)->0;
        let info = registry.registered(endpoint)->0;
        let base = Self::targeted(tx, endpoint, self.legacy_on(info.is_legacy), info.chain);
        let limit = limit_from(estimate, self.gas_estimate_multiplier);
        if self.reestimates(info.chain) && limit is Some {
            &&& ready.transaction.body().gas_limit is Some
            &&& ready.transaction.body().gas_limit->0@ == limit->0
            &&& ready == TxWithMetadataView {
                transaction: base.transaction.with_gas_limit(ready.transaction.body().gas_limit),
                ..base
            }
        } else {
            ready == base
        }
    }

    /// Whether gas is estimated again for a transaction on this chain while
    /// the transactions are bundled.
    pub fn reestimates_gas(&self, chain: u64) -> (again: bool)
        ensures
            again == self.reestimates(chain),
    {
        !self.skip_simulation && has_different_gas_calc(chain)
    }

    /// Makes a transaction ready for its endpoint. `estimate` is what the
    /// endpoint estimated for the transaction, if it was asked and answered.
    pub fn ready(&self, tx: TxWithMetadata, registry: &ProviderRegistry, estimate: Option<U256>) -> (result:
        Result<TxWithMetadata, BroadcastError>)
        ensures
            result is Err <==> self.ready_error(tx@, registry) is Some,
            result is Err ==> result->Err_0 == self.ready_error(tx@, registry)->0,
            result is Ok ==> self.is_ready(tx@, registry, estimate, result->Ok_0@),
    {
        let TxWithMetadata { transaction, rpc, is_fixed_gas_limit, zk } = tx;
        let endpoint: String = match rpc {
            Some(url) => url,
            None => match &self.fork_url {
                Some(url) => url.clone(),
                None => {
                    return Err(BroadcastError::Config(ConfigError::MissingForkUrl));
                },
            },
        };
        let (is_legacy, chain) = match registry.get(&endpoint) {
            Some(info) => (info.is_legacy, info.chain),
            None => {
                return Err(BroadcastError::Config(ConfigError::UnknownEndpoint));
            },
        };
        let shaped = (TxWithMetadata { transaction, rpc: Some(endpoint), is_fixed_gas_limit, zk })
            .change_type(self.legacy || is_legacy);
        let TxWithMetadata { transaction, rpc, is_fixed_gas_limit, zk } = shaped;
        let mut transaction = transaction.with_chain_id(chain);
        if self.reestimates_gas(chain) {
            if let Some(estimated) = estimate {
                if let Some(limit) = scale_estimate(estimated, self.gas_estimate_multiplier) {
                    transaction = transaction.with_gas_limit(Some(limit));
                }
            }
        }
        Ok(TxWithMetadata { transaction, rpc, is_fixed_gas_limit, zk })
    }

    /// Makes every transaction ready for its endpoint, in order, or reports
    /// why the first that cannot be made ready cannot.
    pub fn ready_all(
        &self,
        transactions: Vec<TxWithMetadata>,
        registry: &ProviderRegistry,
        estimates: &Vec<Option<U256>>,
    ) -> (result: Result<Vec<TxWithMetadata>, BroadcastError>)
        ensures
            result is Ok <==> forall|i: int|
                0 <= i < transactions@.len() ==> self.ready_error(
                    (#[trigger] transactions@[i])@,
                    registry,
                ) is None,
            result is Ok ==> result->Ok_0@.len() == transactions@.len() && forall|i: int|
                0 <= i < transactions@.len() ==> self.is_ready(
                    transactions@[i]@,
                    registry,
                    estimate_at(estimates@, i),
                    (#[trigger] result->Ok_0@[i])@,
                ),
            result is Err ==> exists|i: int|
                0 <= i < transactions@.len() && self.ready_error(
                    (#[trigger] transactions@[i])@,
                    registry,
                ) == Some(result->Err_0) && forall|j: int|
                    0 <= j < i ==> self.ready_error((#[trigger] transactions@[j])@, registry)
                        is None,
    {
        let mut rest = transactions;
        let mut ready: Vec<TxWithMetadata> = Vec::new();
        let mut index: usize = 0;
        let total = rest.len();
        assert(rest@ =~= transactions@.skip(0));
        while rest.len() > 0
            invariant
                total == transactions@.len(),
                index <= transactions@.len(),
                rest@ == transactions@.skip(index as int),
                ready@.len() == index,
                forall|i: int|
                    0 <= i < index ==> self.ready_error((#[trigger] transactions@[i])@, registry)
                        is None,
                forall|i: int|
                    0 <= i < index ==> self.is_ready(
                        transactions@[i]@,
                        registry,
                        estimate_at(estimates@, i),
                        (#[trigger] ready@[i])@,
                    ),
            decreases rest@.len(),
        {
            assert(rest@.len() == transactions@.len() - index);
            let tx = rest.remove(0);
            assert(tx == transactions@[index as int]);
            assert(rest@ =~= transactions@.skip(index + 1));
            let estimate = if index < estimates.len() {
                estimates[index]
            } else {
                None
            };
            match self.ready(tx, registry, estimate) {
                Err(error) => {
                    return Err(error);
                },
                Ok(made) => {
                    ready.push(made);
                },
            }
            index += 1;
        }
        Ok(ready)
    }
}

/// What being ready comes to, field by field: a ready transaction names its
/// endpoint and carries the chain id of that endpoint; it is a legacy
/// transaction where the user or the chain asks for that, else a typed-712
/// transaction where it has such metadata, else a fee-market transaction;
/// and its sender, target, value, data and nonce are what they were, as are
/// its metadata and whether its gas limit is frozen.
pub proof fn lemma_ready_keeps_the_call(
    args: &ScriptArgs,
    tx: TxWithMetadataView,
    registry: &ProviderRegistry,
    estimate: Option<U256>,
    ready: TxWithMetadataView,
)
    requires
        args.ready_error(tx, registry) is None,
        args.is_ready(tx, registry, estimate, ready),
    ensures
        ready.rpc == args.endpoint_for(tx.rpc),
        ready.transaction.body().chain_id == Some(
            registry.registered(args.endpoint_for(tx.rpc)->0)->0.chain,
        ),
        ready.transaction.shape() == chosen_shape(
            args.legacy || registry.registered(args.endpoint_for(tx.rpc)->0)->0.is_legacy,
            tx.zk is Some,
        ),
        ready.transaction.body().nonce == tx.transaction.body().nonce,
        ready.transaction.body().from == tx.transaction.body().from,
        ready.transaction.body().to == tx.transaction.body().to,
        ready.transaction.body().value == tx.transaction.body().value,
        ready.transaction.body().data == tx.transaction.body().data,
        ready.zk == tx.zk,
        ready.is_fixed_gas_limit == tx.is_fixed_gas_limit,
        !args.reestimates(registry.registered(args.endpoint_for(tx.rpc)->0)->0.chain)
            ==> ready.transaction.body().gas_limit == tx.transaction.body().gas_limit,
{
}

/// The endpoint that a transaction names.
pub open spec fn endpoint(tx: TxWithMetadata) -> Option<Seq<char>> {
    rpc_view(tx.rpc)
}

/// The lists of a list, one after the other.
pub open spec fn joined(groups: Seq<Seq<TxWithMetadata>>) -> Seq<TxWithMetadata>
    decreases groups.len(),
{
    if groups.len() == 0 {
        Seq::empty()
    } else {
        joined(groups.drop_last()) + groups.last()
    }
}

/// Every transaction of the list names the endpoint that the first names.
pub open spec fn uniform(group: Seq<TxWithMetadata>) -> bool {
    forall|i: int| 0 <= i < group.len() ==> endpoint(#[trigger] group[i]) == endpoint(group[0])
}

/// The lists are the runs of `transactions` that name the same endpoint: one
/// after the other they are `transactions`, none is empty, each names one
/// endpoint, and each names another endpoint than the one before it.
pub open spec fn is_partition(
    transactions: Seq<TxWithMetadata>,
    groups: Seq<Seq<TxWithMetadata>>,
) -> bool {
    &&& joined(groups) == transactions
    &&& forall|k: int| 0 <= k < groups.len() ==> (#[trigger] groups[k]).len() > 0 && uniform(groups[k])
    &&& forall|k: int|
        0 <= k < groups.len() - 1 ==> endpoint((#[trigger] groups[k])[0]) != endpoint(
            groups[k + 1][0],
        )
}

/// The lists of a list of vectors.
pub open spec fn group_views(groups: Seq<Vec<TxWithMetadata>>) -> Seq<Seq<TxWithMetadata>> {
    Seq::new(groups.len(), |k: int| groups[k]@)
}

/// Whether two transactions name the same endpoint.
pub fn same_endpoint(a: &TxWithMetadata, b: &TxWithMetadata) -> (same: bool)
    ensures
        same == (endpoint(*a) == endpoint(*b)),
{
    match (&a.rpc, &b.rpc) {
        (Some(left), Some(right)) => *left == *right,
        (None, None) => true,
        _ => false,
    }
}

/// Splits transactions into runs that name the same endpoint, keeping
/// their order.
pub fn partition_by_endpoint(transactions: Vec<TxWithMetadata>) -> (groups: Vec<Vec<TxWithMetadata>>)
    ensures
        is_partition(transactions@, group_views(groups@)),
{
    let mut rest = transactions;
    let mut groups: Vec<Vec<TxWithMetadata>> = Vec::new();
    let mut current: Vec<TxWithMetadata> = Vec::new();
    let ghost mut done: int = 0;
    assert(group_views(groups@) =~= Seq::<Seq<TxWithMetadata>>::empty());
    assert(joined(group_views(groups@)) + current@ =~= transactions@.take(0));
    assert(rest@ =~= transactions@.skip(0));
    while rest.len() > 0
        invariant
            0 <= done <= transactions@.len(),
            rest@ == transactions@.skip(done),
            joined(group_views(groups@)) + current@ == transactions@.take(done),
            forall|k: int|
                0 <= k < groups@.len() ==> (#[trigger] group_views(groups@)[k]).len() > 0 && uniform(
                    group_views(groups@)[k],
                ),
            forall|k: int|
                0 <= k < groups@.len() - 1 ==> endpoint((#[trigger] group_views(groups@)[k])[0])
                    != endpoint(group_views(groups@)[k + 1][0]),
            uniform(current@),
            current@.len() > 0 && groups@.len() > 0 ==> endpoint(groups@.last()@[0]) != endpoint(
                current@[0],
            ),
            groups@.len() > 0 ==> current@.len() > 0,
        decreases rest@.len(),
    {
        let tx = rest.remove(0);
        assert(tx == transactions@[done]);
        assert(rest@ =~= transactions@.skip(done + 1));
        if current.len() > 0 && !same_endpoint(&current[0], &tx) {
            let ghost before = group_views(groups@);
            let ghost closed = current@;
            groups.push(current);
            current = Vec::new();
            proof {
                assert(group_views(groups@) =~= before.push(closed));
                assert(group_views(groups@).drop_last() =~= before);
                assert(joined(group_views(groups@)) == joined(before) + closed);
                assert(joined(group_views(groups@)) + current@ =~= transactions@.take(done));
                assert forall|k: int| 0 <= k < groups@.len() - 1 implies endpoint(
                    (#[trigger] group_views(groups@)[k])[0],
                ) != endpoint(group_views(groups@)[k + 1][0]) by {
                    if k < before.len() - 1 {
                        assert(group_views(groups@)[k] == before[k]);
                        assert(group_views(groups@)[k + 1] == before[k + 1]);
                    }
                }
            }
        }
        let ghost held = current@;
        current.push(tx);
        proof {
            assert(transactions@.take(done + 1) =~= transactions@.take(done).push(tx));
            assert(joined(group_views(groups@)) + current@ =~= (joined(group_views(groups@)) + held).push(
                tx,
            ));
            assert forall|i: int| 0 <= i < current@.len() implies endpoint(
                #[trigger] current@[i],
            ) == endpoint(current@[0]) by {
                if i < held.len() {
                    assert(current@[i] == held[i]);
                    assert(current@[0] == held[0]);
                }
            }
            done = done + 1;
        }
    }
    if current.len() > 0 {
        let ghost before = group_views(groups@);
        let ghost closed = current@;
        groups.push(current);
        proof {
            assert(group_views(groups@) =~= before.push(closed));
            assert(group_views(groups@).drop_last() =~= before);
            assert(joined(group_views(groups@)) == joined(before) + closed);
            assert forall|k: int| 0 <= k < groups@.len() - 1 implies endpoint(
                (#[trigger] group_views(groups@)[k])[0],
            ) != endpoint(group_views(groups@)[k + 1][0]) by {
                if k < before.len() - 1 {
                    assert(group_views(groups@)[k] == before[k]);
                    assert(group_views(groups@)[k + 1] == before[k + 1]);
                }
            }
        }
    }
    assert(transactions@.take(transactions@.len() as int) =~= transactions@);
    assert(joined(group_views(groups@)) =~= transactions@);
    groups
}

/// Every transaction of a group is among the transactions that the groups
/// make up together.
pub proof fn lemma_joined_holds_groups(groups: Seq<Seq<TxWithMetadata>>, k: int, j: int)
    requires
        0 <= k < groups.len(),
        0 <= j < groups[k].len(),
    ensures
        exists|i: int| 0 <= i < joined(groups).len() && #[trigger] joined(groups)[i] == groups[k][j],
    decreases groups.len(),
{
    if k == groups.len() - 1 {
        let i = joined(groups.drop_last()).len() + j;
        assert(joined(groups)[i] == groups[k][j]);
    } else {
        lemma_joined_holds_groups(groups.drop_last(), k, j);
        let i = choose|i: int|
            0 <= i < joined(groups.drop_last()).len() && #[trigger] joined(groups.drop_last())[i]
                == groups.drop_last()[k][j];
        assert(joined(groups)[i] == groups[k][j]);
    }
}

/// The transactions of each sequence of a list.
pub open spec fn sequence_groups(deployments: Seq<ScriptSequence>) -> Seq<Seq<TxWithMetadata>> {
    Seq::new(deployments.len(), |k: int| deployments[k].transactions@)
}

/// The chain id that a transaction carries, and zero for one that carries none.
pub open spec fn chain_or_zero(tx: TxWithMetadata) -> u64 {
    match tx@.transaction.body().chain_id {
        Some(chain) => chain,
        None => 0,
    }
}

/// A transaction has been made ready: it names an endpoint that the
/// registry holds and carries the chain id of that endpoint.
pub open spec fn settled(tx: TxWithMetadata, registry: &ProviderRegistry) -> bool {
    &&& endpoint(tx) is Some
    &&& registry.registered(endpoint(tx)->0) is Some
    &&& tx@.transaction.body().chain_id == Some(registry.registered(endpoint(tx)->0)->0.chain)
}

impl ScriptArgs {
    /// A fresh sequence made of `group` for this run: nothing sent yet, for
    /// the chain of the group's first transaction.
    pub open spec fn fresh_sequence(
        &self,
        sequence: ScriptSequence,
        group: Seq<TxWithMetadata>,
        target: Seq<char>,
        return_values: Seq<NamedReturn>,
    ) -> bool {
        &&& sequence.transactions@ == group
        &&& sequence.pending@.len() == 0
        &&& sequence.receipts@.len() == 0
        &&& sequence.libraries@.len() == 0
        &&& returns_view(sequence.return_values@) == returns_view(return_values)
        &&& sequence.signature@ == self.sig@
        &&& sequence.target@ == target
        &&& sequence.chain == chain_or_zero(group[0])
        &&& sequence.broadcast == self.broadcast
    }

    /// `bundle` is what bundling makes of `transactions`: each transaction
    /// is made ready for its endpoint, the ready transactions are split, in
    /// order, into runs that go to the same endpoint, and each run becomes a
    /// fresh sequence for the chain of that endpoint. Unless the simulation
    /// was skipped, the gas of the ready transactions is summed up by endpoint.
    pub open spec fn bundled(
        &self,
        transactions: Seq<TxWithMetadata>,
        target: Seq<char>,
        registry: &ProviderRegistry,
        estimates: Seq<Option<U256>>,
        return_values: Seq<NamedReturn>,
        bundle: Bundle,
    ) -> bool {
        let deployments = bundle.deployments@;
        let groups = sequence_groups(deployments);
        let all = joined(groups);
        &&& if self.skip_simulation {
            bundle.gas.endpoints@.len() == 0 && bundle.gas.gas@.len() == 0
        } else {
            bundle.gas.sums_up(all)
        }
        &&& all.len() == transactions.len()
        &&& forall|i: int|
            0 <= i < transactions.len() ==> self.is_ready(
                transactions[i]@,
                registry,
                estimate_at(estimates, i),
                (#[trigger] all[i])@,
            )
        &&& is_partition(all, groups)
        &&& forall|k: int|
            0 <= k < deployments.len() ==> self.fresh_sequence(
                #[trigger] deployments[k],
                groups[k],
                target,
                return_values,
            ) && deployments[k].wf() && settled(groups[k][0], registry) && deployments[k].chain
                == registry.registered(endpoint(groups[k][0])->0)->0.chain
    }

    /// Turns the transactions of a script into one sequence per run of
    /// transactions that go to the same endpoint. `estimates` holds, by
    /// position, what the endpoints estimated for the transactions that were
    /// made ready with `ready`. Fails where a transaction cannot be made
    /// ready, with the error of the first such transaction.
    pub fn bundle_transactions(
        &self,
        transactions: Vec<TxWithMetadata>,
        target: &String,
        registry: &ProviderRegistry,
        estimates: &Vec<Option<U256>>,
        return_values: &Vec<NamedReturn>,
    ) -> (result: Result<Bundle, BroadcastError>)
        ensures
            result is Ok <==> forall|i: int|
                0 <= i < transactions@.len() ==> self.ready_error(
                    (#[trigger] transactions@[i])@,
                    registry,
                ) is None,
            result is Ok ==> self.bundled(
                transactions@,
                target@,
                registry,
                estimates@,
                return_values@,
                result->Ok_0,
            ),
            result is Err ==> exists|i: int|
                0 <= i < transactions@.len() && self.ready_error(
                    (#[trigger] transactions@[i])@,
                    registry,
                ) == Some(result->Err_0) && forall|j: int|
                    0 <= j < i ==> self.ready_error((#[trigger] transactions@[j])@, registry)
                        is None,
    {
        let ready = match self.ready_all(transactions, registry, estimates) {
            Ok(ready) => ready,
            Err(error) => {
                return Err(error);
            },
        };
        let ghost all = ready@;
        assert forall|i: int| 0 <= i < all.len() implies settled(#[trigger] all[i], registry) by {
            assert(self.is_ready(
                transactions@[i]@,
                registry,
                estimate_at(estimates@, i),
                all[i]@,
            ));
        }
        let gas = if self.skip_simulation {
            GasByEndpoint { endpoints: Vec::new(), gas: Vec::new() }
        } else {
            gas_per_endpoint(&ready)
        };
        let groups = partition_by_endpoint(ready);
        let ghost views = group_views(groups@);
        assert forall|k: int| 0 <= k < groups@.len() implies (#[trigger] groups@[k])@.len() > 0 by {
            assert(views[k].len() > 0);
        }
        let deployments = self.sequences_from(groups, target, return_values);
        proof {
            assert(sequence_groups(deployments@) =~= views);
            assert forall|k: int| 0 <= k < deployments@.len() implies settled(
                (#[trigger] views[k])[0],
                registry,
            ) by {
                lemma_joined_holds_groups(views, k, 0);
            }
        }
        Ok(Bundle { deployments, gas })
    }

    /// One fresh sequence for each group, in order.
    fn sequences_from(
        &self,
        groups: Vec<Vec<TxWithMetadata>>,
        target: &String,
        return_values: &Vec<NamedReturn>,
    ) -> (deployments: Vec<ScriptSequence>)
        requires
            forall|k: int| 0 <= k < groups@.len() ==> (#[trigger] groups@[k])@.len() > 0,
        ensures
            deployments@.len() == groups@.len(),
            forall|k: int|
                0 <= k < groups@.len() ==> self.fresh_sequence(
                    #[trigger] deployments@[k],
                    groups@[k]@,
                    target@,
                    return_values@,
                ) && deployments@[k].wf(),
    {
        let mut rest = groups;
        let mut deployments: Vec<ScriptSequence> = Vec::new();
        let ghost mut done: int = 0;
        assert(rest@ =~= groups@.skip(0));
        while rest.len() > 0
            invariant
                0 <= done <= groups@.len(),
                rest@ == groups@.skip(done),
                deployments@.len() == done,
                forall|k: int| 0 <= k < groups@.len() ==> (#[trigger] groups@[k])@.len() > 0,
                forall|k: int|
                    0 <= k < done ==> self.fresh_sequence(
                        #[trigger] deployments@[k],
                        groups@[k]@,
                        target@,
                        return_values@,
                    ) && deployments@[k].wf(),
            decreases rest@.len(),
        {
            assert(rest@.len() == groups@.len() - done);
            let group = rest.remove(0);
            proof {
                assert(group == groups@[done]);
                assert(rest@ =~= groups@.skip(done + 1));
            }
            let chain: u64 = match group[0].transaction.chain_id() {
                Some(id) => id,
                None => 0,
            };
            let sequence = ScriptSequence::new(
                group,
                copy_returns(return_values),
                self.sig.clone(),
                target.clone(),
                chain,
                self.broadcast,
            );
            deployments.push(sequence);
            proof {
                done = done + 1;
            }
        }
        deployments
    }

    /// The sequences of a script. A script that produced no transaction has
    /// none, which is an error where broadcasting was asked for. Else the
    /// transactions are bundled.
    pub fn create_script_sequences(
        &self,
        transactions: Vec<TxWithMetadata>,
        target: &String,
        registry: &ProviderRegistry,
        estimates: &Vec<Option<U256>>,
        return_values: &Vec<NamedReturn>,
    ) -> (result: Result<Bundle, BroadcastError>)
        ensures
            transactions@.len() == 0 && self.broadcast ==> result == Err::<Bundle, BroadcastError>(
                BroadcastError::NoTransactions,
            ),
            transactions@.len() == 0 && !self.broadcast ==> result is Ok
                && result->Ok_0.deployments@.len() == 0 && result->Ok_0.gas.endpoints@.len() == 0
                && result->Ok_0.gas.gas@.len() == 0,
            transactions@.len() > 0 ==> (result is Ok <==> forall|i: int|
                0 <= i < transactions@.len() ==> self.ready_error(
                    (#[trigger] transactions@[i])@,
                    registry,
                ) is None),
            transactions@.len() > 0 && result is Ok ==> self.bundled(
                transactions@,
                target@,
                registry,
                estimates@,
                return_values@,
                result->Ok_0,
            ),
            transactions@.len() > 0 && result is Err ==> exists|i: int|
                0 <= i < transactions@.len() && self.ready_error(
                    (#[trigger] transactions@[i])@,
                    registry,
                ) == Some(result->Err_0) && forall|j: int|
                    0 <= j < i ==> self.ready_error((#[trigger] transactions@[j])@, registry)
                        is None,
    {
        if transactions.len() > 0 {
            self.bundle_transactions(transactions, target, registry, estimates, return_values)
        } else if self.broadcast {
            Err(BroadcastError::NoTransactions)
        } else {
            Ok(
                Bundle {
                    deployments: Vec::new(),
                    gas: GasByEndpoint { endpoints: Vec::new(), gas: Vec::new() },
                },
            )
        }
    }

    /// The transactions that stand for the calls of a script when the
    /// simulation is skipped: each call as it is, in order. Where the
    /// simulation is not skipped there is no result, and the simulation has to
    /// fill in the gas.
    pub fn fills_transactions_with_gas(&self, calls: Vec<AbstractTransaction>) -> (filled: Option<
        Vec<TxWithMetadata>,
    >)
        ensures
            filled is Some <==> self.skip_simulation,
            filled is Some ==> filled->0@.len() == calls@.len() && forall|i: int|
                0 <= i < calls@.len() ==> (#[trigger] filled->0@[i])@ == calls@[i].as_transaction(),
    {
        if !self.skip_simulation {
            return None;
        }
        let mut rest = calls;
        let mut filled: Vec<TxWithMetadata> = Vec::new();
        let ghost mut done: int = 0;
        assert(rest@ =~= calls@.skip(0));
        while rest.len() > 0
            invariant
                0 <= done <= calls@.len(),
                rest@ == calls@.skip(done),
                filled@.len() == done,
                forall|i: int|
                    0 <= i < done ==> (#[trigger] filled@[i])@ == calls@[i].as_transaction(),
            decreases rest@.len(),
        {
            assert(rest@.len() == calls@.len() - done);
            let call = rest.remove(0);
            proof {
                assert(call == calls@[done]);
                assert(rest@ =~= calls@.skip(done + 1));
                done = done + 1;
            }
            filled.push(TxWithMetadata::from_abstract(call));
        }
        Some(filled)
    }
}

} // verus!
