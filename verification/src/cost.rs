//! What a script is expected to cost: the gas of its transactions summed up
//! by endpoint, and the amount that this gas costs at a price.

use vstd::prelude::*;
use vstd::arithmetic::div_mod::{lemma_add_mod_noop, lemma_small_mod};
use crate::args::ScriptArgs;
use crate::bundle::endpoint;
use crate::error::BroadcastError;
use crate::providers::ProviderInfo;
use crate::report::amount;
use crate::transaction::TxWithMetadata;
use crate::uint::{
    alloy_saturating_mul,
    alloy_wrapping_add,
    lemma_value_determines_limbs,
    modulus,
    U256,
};

verus! {

/// The gas of the transactions of each endpoint: the sum at a position is
/// that of the endpoint at the same position. Sums are kept in 256 bits and
/// wrap around beyond that.
#[derive(Clone, Debug, PartialEq, Eq)]
pub struct GasByEndpoint {
    pub endpoints: Vec<String>,
    pub gas: Vec<U256>,
}

/// The gas limit of a transaction, zero where it has none.
pub open spec fn gas_of(tx: TxWithMetadata) -> nat {
    amount(tx@.transaction.body().gas_limit)
}

/// The gas of the transactions that name the endpoint `rpc`.
pub open spec fn endpoint_gas(transactions: Seq<TxWithMetadata>, rpc: Seq<char>) -> nat
    decreases transactions.len(),
{
    if transactions.len() == 0 {
        0
    } else {
        endpoint_gas(transactions.drop_last(), rpc) + if endpoint(transactions.last()) == Some(
            rpc,
        ) {
            gas_of(transactions.last())
        } else {
            0
        }
    }
}

/// Some transaction names the endpoint `rpc`.
pub open spec fn names(transactions: Seq<TxWithMetadata>, rpc: Seq<char>) -> bool {
    exists|i: int| 0 <= i < transactions.len() && endpoint(#[trigger] transactions[i]) == Some(rpc)
}

/// The list of endpoints holds `rpc`.
pub open spec fn lists(endpoints: Seq<String>, rpc: Seq<char>) -> bool {
    exists|k: int| 0 <= k < endpoints.len() && (#[trigger] endpoints[k])@ == rpc
}

impl GasByEndpoint {
    /// These are the sums of `transactions`: every endpoint that a
    /// transaction names is listed once, nothing else is, and each sum is the
    /// gas of the transactions of its endpoint.
    pub open spec fn sums_up(&self, transactions: Seq<TxWithMetadata>) -> bool {
        &&& self.endpoints@.len() == self.gas@.len()
        &&& forall|a: int, b: int|
            0 <= a < b < self.endpoints@.len() ==> (#[trigger] self.endpoints@[a])@ != (
            #[trigger] self.endpoints@[b])@
        &&& forall|k: int|
            0 <= k < self.endpoints@.len() ==> names(transactions, (#[trigger] self.endpoints@[k])@)
        &&& forall|k: int|
            0 <= k < self.endpoints@.len() ==> (#[trigger] self.gas@[k])@ == endpoint_gas(
                transactions,
                self.endpoints@[k]@,
            ) % modulus()
        &&& forall|i: int|
            0 <= i < transactions.len() && endpoint(#[trigger] transactions[i]) is Some ==> lists(
                self.endpoints@,
                endpoint(transactions[i])->0,
            )
    }
}

/// Transactions that do not name an endpoint add nothing to its gas.
pub proof fn lemma_unnamed_endpoint_has_no_gas(transactions: Seq<TxWithMetadata>, rpc: Seq<char>)
    requires
        !names(transactions, rpc),
    ensures
        endpoint_gas(transactions, rpc) == 0,
    decreases transactions.len(),
{
    if transactions.len() > 0 {
        let rest = transactions.drop_last();
        assert(endpoint(transactions[transactions.len() - 1]) != Some(rpc));
        assert(!names(rest, rpc)) by {
            if names(rest, rpc) {
                let i = choose|i: int| 0 <= i < rest.len() && endpoint(#[trigger] rest[i]) == Some(rpc);
                assert(endpoint(transactions[i]) == Some(rpc));
            }
        }
        lemma_unnamed_endpoint_has_no_gas(rest, rpc);
    }
}

/// Where `url` stands in a list of endpoints.
fn position_of(endpoints: &Vec<String>, url: &String) -> (position: Option<usize>)
    ensures
        position is Some ==> position->0 < endpoints@.len() && endpoints@[position->0 as int]@
            == url@,
        position is None ==> !lists(endpoints@, url@),
{
    let mut k: usize = 0;
    while k < endpoints.len()
        invariant
            k <= endpoints@.len(),
            forall|j: int| 0 <= j < k ==> (#[trigger] endpoints@[j])@ != url@,
        decreases endpoints@.len() - k,
    {
        if endpoints[k] == *url {
            return Some(k);
        }
        k += 1;
    }
    None
}

/// Sums up the gas limits of the transactions by the endpoint they name.
/// A transaction that names no endpoint is left out.
pub fn gas_per_endpoint(transactions: &Vec<TxWithMetadata>) -> (totals: GasByEndpoint)
    ensures
        totals.sums_up(transactions@),
{
    let mut totals = GasByEndpoint { endpoints: Vec::new(), gas: Vec::new() };
    let mut i: usize = 0;
    while i < transactions.len()
        invariant
            i <= transactions@.len(),
            totals.sums_up(transactions@.take(i as int)),
        decreases transactions@.len() - i,
    {
        let ghost before = transactions@.take(i as int);
        let ghost now = transactions@.take(i + 1);
        let ghost held = totals;
        let tx = &transactions[i];
        proof {
            assert(now.drop_last() =~= before);
            assert(now.last() == *tx);
            assert forall|r: Seq<char>| names(before, r) implies names(now, r) by {
                let j = choose|j: int| 0 <= j < before.len() && endpoint(#[trigger] before[j]) == Some(r);
                assert(now[j] == before[j]);
            }
        }
        match &tx.rpc {
            None => {},
            Some(url) => {
                let gas = match tx.transaction.gas_limit() {
                    Some(limit) => limit,
                    None => U256::zero(),
                };
                proof {
                    lemma_value_determines_limbs(gas, gas);
                    lemma_small_mod(gas@, modulus());
                    assert(names(now, url@)) by {
                        assert(endpoint(now[i as int]) == Some(url@));
                    }
                }
                match position_of(&totals.endpoints, url) {
                    Some(k) => {
                        let sum = alloy_wrapping_add(totals.gas[k], gas);
                        totals.gas.set(k, sum);
                        proof {
                            lemma_add_mod_noop(
                                endpoint_gas(before, url@) as int,
                                gas@ as int,
                                modulus() as int,
                            );
                        }
                    },
                    None => {
                        proof {
                            assert(!names(before, url@)) by {
                                if names(before, url@) {
                                    let j = choose|j: int|
                                        0 <= j < before.len() && endpoint(#[trigger] before[j])
                                            == Some(url@);
                                    assert(lists(held.endpoints@, endpoint(before[j])->0));
                                }
                            }
                            lemma_unnamed_endpoint_has_no_gas(before, url@);
                        }
                        totals.endpoints.push(url.clone());
                        totals.gas.push(gas);
                    },
                }
            },
        }
        proof {
            assert forall|j: int| 0 <= j < now.len() && endpoint(#[trigger] now[j]) is Some implies lists(
                totals.endpoints@,
                endpoint(now[j])->0,
            ) by {
                if j < before.len() {
                    assert(now[j] == before[j]);
                    assert(lists(held.endpoints@, endpoint(before[j])->0));
                    let k = choose|k: int|
                        0 <= k < held.endpoints@.len() && (#[trigger] held.endpoints@[k])@
                            == endpoint(before[j])->0;
                    assert(totals.endpoints@[k]@ == endpoint(now[j])->0);
                } else {
                    let url = tx.rpc->0;
                    if lists(held.endpoints@, url@) {
                        let k = choose|k: int|
                            0 <= k < held.endpoints@.len() && (#[trigger] held.endpoints@[k])@
                                == url@;
                        assert(totals.endpoints@[k]@ == url@);
                    } else {
                        assert(totals.endpoints@[totals.endpoints@.len() - 1]@ == url@);
                    }
                }
            }
            assert forall|k: int| 0 <= k < totals.endpoints@.len() implies names(
                now,
                (#[trigger] totals.endpoints@[k])@,
            ) by {
                if k < held.endpoints@.len() {
                    assert(totals.endpoints@[k]@ == held.endpoints@[k]@);
                    assert(names(before, held.endpoints@[k]@));
                }
            }
            assert forall|k: int| 0 <= k < totals.endpoints@.len() implies (
            #[trigger] totals.gas@[k])@ == endpoint_gas(now, totals.endpoints@[k]@) % modulus() by {
                if k < held.endpoints@.len() {
                    assert(totals.endpoints@[k]@ == held.endpoints@[k]@);
                    assert(held.gas@[k]@ == endpoint_gas(before, held.endpoints@[k]@) % modulus());
                }
            }
            assert forall|a: int, b: int| 0 <= a < b < totals.endpoints@.len() implies (
            #[trigger] totals.endpoints@[a])@ != (#[trigger] totals.endpoints@[b])@ by {
                if b < held.endpoints@.len() {
                    assert(totals.endpoints@[a]@ == held.endpoints@[a]@);
                    assert(totals.endpoints@[b]@ == held.endpoints@[b]@);
                } else {
                    assert(totals.endpoints@[a]@ == held.endpoints@[a]@);
                    assert(lists(held.endpoints@, held.endpoints@[a]@));
                }
            }
        }
        i += 1;
    }
    assert(transactions@.take(transactions@.len() as int) =~= transactions@);
    totals
}

/// What the gas of one endpoint is expected to cost.
#[derive(Clone, Copy, Debug, PartialEq, Eq)]
pub struct CostEstimate {
    pub chain: u64,
    /// The price of a unit of gas.
    pub gas_price: U256,
    pub total_gas: U256,
    /// Gas times price, or the largest amount where the product is larger.
    pub amount: U256,
}

/// Gas times price, capped at the largest 256-bit amount.
pub open spec fn capped_cost(gas: nat, price: nat) -> nat {
    if gas * price < modulus() {
        gas * price
    } else {
        (modulus() - 1) as nat
    }
}

impl ScriptArgs {
    /// The price that the estimate is made with: the user's where one is
    /// set, else the one that the endpoint reported.
    pub open spec fn price_for(&self, reported: Option<U256>) -> Option<U256> {
        if self.with_gas_price is Some {
            self.with_gas_price
        } else {
            reported
        }
    }

    /// Estimates what `total_gas` costs on the chain of an endpoint. Fails
    /// where the user set no price and the endpoint reported none.
    pub fn cost_estimate(&self, info: &ProviderInfo, total_gas: U256) -> (estimate: Result<
        CostEstimate,
        BroadcastError,
    >)
        ensures
            estimate is Ok <==> self.price_for(info.gas_price) is Some,
            estimate is Ok ==> estimate->Ok_0.chain == info.chain && estimate->Ok_0.total_gas
                == total_gas && Some(estimate->Ok_0.gas_price) == self.price_for(info.gas_price)
                && estimate->Ok_0.amount@ == capped_cost(total_gas@, estimate->Ok_0.gas_price@),
            estimate is Err ==> estimate->Err_0 == BroadcastError::Rpc,
    {
        let price = match self.with_gas_price {
            Some(price) => Some(price),
            None => info.gas_price,
        };
        match price {
            None => Err(BroadcastError::Rpc),
            Some(gas_price) => Ok(
                CostEstimate {
                    chain: info.chain,
                    gas_price,
                    total_gas,
                    amount: alloy_saturating_mul(total_gas, gas_price),
                },
            ),
        }
    }
}

} // verus!
