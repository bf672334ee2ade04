//! The fee fields of a transaction: which snapshot of the chain's fees a run
//! takes, and how the snapshot and the user's overrides fill them.

use vstd::prelude::*;
use crate::args::ScriptArgs;
use crate::error::BroadcastError;
use crate::providers::ProviderInfo;
use crate::transaction::{
    AbstractTransaction,
    FinalTransaction,
    FinalTransactionView,
    Shape,
    TxWithMetadata,
};
use crate::uint::U256;

verus! {

/// Which fees to ask the endpoint for.
#[derive(Clone, Copy, Debug, PartialEq, Eq, Structural)]
pub enum FeeQuery {
    /// The fee cap and the priority fee of the fee market.
    FeeMarket,
    /// The gas price.
    GasPrice,
}

/// The fees that the endpoint reported, once for the whole run.
#[derive(Clone, Copy, Debug, PartialEq, Eq)]
pub enum FeeSnapshot {
    FeeMarket { max_fee_per_gas: U256, max_priority_fee_per_gas: U256 },
    GasPrice(U256),
    /// The endpoint gave no answer.
    Unavailable,
}

/// A legacy transaction asks for the gas price, the other shapes for the
/// fee-market pair.
pub open spec fn query_for(shape: Shape) -> FeeQuery {
    if shape == Shape::Legacy {
        FeeQuery::GasPrice
    } else {
        FeeQuery::FeeMarket
    }
}

/// The snapshot that a run takes, by the shape of its first transaction.
pub fn fee_query(shape: Shape) -> (query: FeeQuery)
    ensures
        query == query_for(shape),
{
    match shape {
        Shape::Legacy => FeeQuery::GasPrice,
        _ => FeeQuery::FeeMarket,
    }
}

/// The fee fields filled in. A price that the user set overrides everything.
/// Else a legacy transaction takes the gas price of the snapshot, and the
/// other shapes take its fee cap and, unless the user set a priority fee, its
/// priority fee. A snapshot that lacks what the shape needs is an error.
pub open spec fn filled(
    tx: FinalTransactionView,
    with_gas_price: Option<U256>,
    priority_gas_price: Option<U256>,
    snapshot: FeeSnapshot,
) -> Result<FinalTransactionView, BroadcastError> {
    if with_gas_price is Some {
        Ok(tx.with_gas_price(with_gas_price->0))
    } else if tx.shape() == Shape::Legacy {
        match snapshot {
            FeeSnapshot::GasPrice(price) => Ok(tx.with_gas_price(price)),
            _ => Err(BroadcastError::Rpc),
        }
    } else {
        match snapshot {
            FeeSnapshot::FeeMarket { max_fee_per_gas, max_priority_fee_per_gas } => Ok(
                tx.with_fee_pair(
                    max_fee_per_gas,
                    if priority_gas_price is Some {
                        priority_gas_price->0
                    } else {
                        max_priority_fee_per_gas
                    },
                ),
            ),
            _ => Err(BroadcastError::FeeMarketUnsupported),
        }
    }
}

/// Fills in the fee fields of a transaction.
pub fn fill_fees(
    tx: FinalTransaction,
    with_gas_price: Option<U256>,
    priority_gas_price: Option<U256>,
    snapshot: FeeSnapshot,
) -> (result: Result<FinalTransaction, BroadcastError>)
    ensures
        result is Ok <==> filled(tx@, with_gas_price, priority_gas_price, snapshot) is Ok,
        result is Ok ==> result->Ok_0@ == filled(
            tx@,
            with_gas_price,
            priority_gas_price,
            snapshot,
        )->Ok_0,
        result is Err ==> result->Err_0 == filled(
            tx@,
            with_gas_price,
            priority_gas_price,
            snapshot,
        )->Err_0,
{
    if let Some(price) = with_gas_price {
        return Ok(tx.with_gas_price(price));
    }
    match tx.shape() {
        Shape::Legacy => match snapshot {
            FeeSnapshot::GasPrice(price) => Ok(tx.with_gas_price(price)),
            _ => Err(BroadcastError::Rpc),
        },
        _ => match snapshot {
            FeeSnapshot::FeeMarket { max_fee_per_gas, max_priority_fee_per_gas } => {
                let priority = match priority_gas_price {
                    Some(fee) => fee,
                    None => max_priority_fee_per_gas,
                };
                Ok(tx.with_fee_pair(max_fee_per_gas, priority))
            },
            _ => Err(BroadcastError::FeeMarketUnsupported),
        },
    }
}

/// What a typed-712 chain estimates for one transaction.
#[derive(Clone, Copy, Debug, PartialEq, Eq)]
pub struct Fee {
    pub gas_limit: U256,
    pub max_fee_per_gas: U256,
    pub max_priority_fee_per_gas: U256,
}

impl FinalTransactionView {
    /// A typed-712 transaction with the estimate of its chain: gas limit, fee
    /// cap and priority fee are those of the estimate, whatever they were, and
    /// the gas price is attached beside them. Other shapes have no such
    /// estimate and stay as they are.
    pub open spec fn with_fee_estimate(self, fee: Fee, gas_price: U256) -> FinalTransactionView {
        match self {
            FinalTransactionView::Typed712 { body, factory_deps, .. } => {
                (FinalTransactionView::Typed712 {
                    body,
                    gas_price: Some(gas_price),
                    max_fee_per_gas: Some(fee.max_fee_per_gas),
                    max_priority_fee_per_gas: Some(fee.max_priority_fee_per_gas),
                    factory_deps,
                }).with_gas_limit(Some(fee.gas_limit))
            },
            _ => self,
        }
    }
}

/// Sets what the chain estimated on a typed-712 transaction.
pub fn apply_fee_estimate(tx: FinalTransaction, fee: Fee, gas_price: U256) -> (changed: FinalTransaction)
    ensures
        changed@ == tx@.with_fee_estimate(fee, gas_price),
{
    match tx {
        FinalTransaction::Typed712 { body, factory_deps, .. } => {
            (FinalTransaction::Typed712 {
                body,
                gas_price: Some(gas_price),
                max_fee_per_gas: Some(fee.max_fee_per_gas),
                max_priority_fee_per_gas: Some(fee.max_priority_fee_per_gas),
                factory_deps,
            }).with_gas_limit(Some(fee.gas_limit))
        },
        other => other,
    }
}

/// The fees that a transaction of the given shape is filled from: the gas
/// price of its endpoint for a legacy transaction, the estimated pair of fee
/// cap and priority fee for the other shapes.
pub open spec fn snapshot_for(
    shape: Shape,
    gas_price: Option<U256>,
    fee_pair: Option<(U256, U256)>,
) -> FeeSnapshot {
    if shape == Shape::Legacy {
        match gas_price {
            Some(price) => FeeSnapshot::GasPrice(price),
            None => FeeSnapshot::Unavailable,
        }
    } else {
        match fee_pair {
            Some(pair) => FeeSnapshot::FeeMarket {
                max_fee_per_gas: pair.0,
                max_priority_fee_per_gas: pair.1,
            },
            None => FeeSnapshot::Unavailable,
        }
    }
}

impl ScriptArgs {
    /// What a simulated call becomes on the chain of an endpoint: it gets
    /// the shape that the chain or the user asks for, the chain id, and its
    /// fees. Its nonce is the one that was recorded with the call: none is
    /// set or changed here.
    pub open spec fn finalized_call(
        &self,
        call: AbstractTransaction,
        info: ProviderInfo,
        fee_pair: Option<(U256, U256)>,
    ) -> Result<FinalTransactionView, BroadcastError> {
        let shaped = call.as_transaction().with_type(self.legacy || info.is_legacy).transaction;
        filled(
            shaped.with_chain_id(info.chain),
            self.with_gas_price,
            self.priority_gas_price,
            snapshot_for(shaped.shape(), info.gas_price, fee_pair),
        )
    }

    /// Turns a simulated call into a transaction for the chain of an
    /// endpoint. `fee_pair` is the estimated fee cap and priority fee of that
    /// chain, where it has a fee market and the estimate was made.
    pub fn finalize(
        &self,
        call: AbstractTransaction,
        info: &ProviderInfo,
        fee_pair: Option<(U256, U256)>,
    ) -> (result: Result<FinalTransaction, BroadcastError>)
        ensures
            result is Ok <==> self.finalized_call(call, *info, fee_pair) is Ok,
            result is Ok ==> result->Ok_0@ == self.finalized_call(call, *info, fee_pair)->Ok_0
                && result->Ok_0@.body().nonce == call.nonce && result->Ok_0@.body().chain_id == Some(
                info.chain,
            ),
            result is Err ==> result->Err_0 == self.finalized_call(call, *info, fee_pair)->Err_0,
    {
        let shaped = TxWithMetadata::from_abstract(call).change_type(self.legacy || info.is_legacy);
        let snapshot = match shaped.transaction.shape() {
            Shape::Legacy => match info.gas_price {
                Some(price) => FeeSnapshot::GasPrice(price),
                None => FeeSnapshot::Unavailable,
            },
            _ => match fee_pair {
                Some(pair) => FeeSnapshot::FeeMarket {
                    max_fee_per_gas: pair.0,
                    max_priority_fee_per_gas: pair.1,
                },
                None => FeeSnapshot::Unavailable,
            },
        };
        fill_fees(
            shaped.transaction.with_chain_id(info.chain),
            self.with_gas_price,
            self.priority_gas_price,
            snapshot,
        )
    }
}

} // verus!
