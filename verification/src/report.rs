//! What a run has cost: the totals over the receipts.

use vstd::prelude::*;
use vstd::arithmetic::div_mod::{lemma_add_mod_noop, lemma_small_mod};
use crate::sequence::Receipt;
use crate::uint::{
    alloy_checked_div,
    alloy_wrapping_add,
    alloy_wrapping_mul,
    lemma_value_determines_limbs,
    modulus,
    U256,
};

verus! {

/// The sums over the receipts of a run. Each is kept in 256 bits and wraps
/// around beyond that.
#[derive(Clone, Copy, Debug, PartialEq, Eq)]
pub struct Totals {
    /// The gas that was used.
    pub gas_used: U256,
    /// The sum of the prices that were paid per unit of gas.
    pub gas_price: U256,
    /// The sum of gas used times price paid.
    pub paid: U256,
}

/// An amount that a receipt may lack: zero where it does.
pub open spec fn amount(value: Option<U256>) -> nat {
    match value {
        Some(number) => number@,
        None => 0,
    }
}

/// The gas used by all receipts.
pub open spec fn gas_sum(receipts: Seq<Receipt>) -> nat
    decreases receipts.len(),
{
    if receipts.len() == 0 {
        0
    } else {
        gas_sum(receipts.drop_last()) + amount(receipts.last().gas_used)
    }
}

/// The sum of the prices of all receipts.
pub open spec fn price_sum(receipts: Seq<Receipt>) -> nat
    decreases receipts.len(),
{
    if receipts.len() == 0 {
        0
    } else {
        price_sum(receipts.drop_last()) + amount(receipts.last().effective_gas_price)
    }
}

/// What all receipts paid: gas used times price, summed up.
pub open spec fn paid_sum(receipts: Seq<Receipt>) -> nat
    decreases receipts.len(),
{
    if receipts.len() == 0 {
        0
    } else {
        paid_sum(receipts.drop_last()) + amount(receipts.last().gas_used) * amount(
            receipts.last().effective_gas_price,
        )
    }
}

fn or_zero(value: Option<U256>) -> (number: U256)
    ensures
        number@ == amount(value),
{
    match value {
        Some(number) => number,
        None => U256::zero(),
    }
}

/// Sums up what the receipts report.
pub fn tally(receipts: &Vec<Receipt>) -> (totals: Totals)
    ensures
        totals.gas_used@ == gas_sum(receipts@) % modulus(),
        totals.gas_price@ == price_sum(receipts@) % modulus(),
        totals.paid@ == paid_sum(receipts@) % modulus(),
{
    let mut totals = Totals { gas_used: U256::zero(), gas_price: U256::zero(), paid: U256::zero() };
    let mut i: usize = 0;
    proof {
        assert(receipts@.take(0) =~= Seq::<Receipt>::empty());
        lemma_small_mod(0, modulus());
    }
    while i < receipts.len()
        invariant
            i <= receipts@.len(),
            totals.gas_used@ == gas_sum(receipts@.take(i as int)) % modulus(),
            totals.gas_price@ == price_sum(receipts@.take(i as int)) % modulus(),
            totals.paid@ == paid_sum(receipts@.take(i as int)) % modulus(),
        decreases receipts@.len() - i,
    {
        let gas_used = or_zero(receipts[i].gas_used);
        let gas_price = or_zero(receipts[i].effective_gas_price);
        let cost = alloy_wrapping_mul(gas_used, gas_price);
        proof {
            let before = receipts@.take(i as int);
            let now = receipts@.take(i + 1);
            assert(now.drop_last() =~= before);
            assert(now.last() == receipts@[i as int]);
            let m = modulus() as int;
            lemma_value_determines_limbs(gas_used, gas_used);
            lemma_value_determines_limbs(gas_price, gas_price);
            lemma_small_mod(gas_used@, modulus());
            lemma_small_mod(gas_price@, modulus());
            lemma_add_mod_noop(gas_sum(before) as int, gas_used@ as int, m);
            lemma_add_mod_noop(price_sum(before) as int, gas_price@ as int, m);
            lemma_add_mod_noop(paid_sum(before) as int, (gas_used@ * gas_price@) as int, m);
        }
        totals = Totals {
            gas_used: alloy_wrapping_add(totals.gas_used, gas_used),
            gas_price: alloy_wrapping_add(totals.gas_price, gas_price),
            paid: alloy_wrapping_add(totals.paid, cost),
        };
        i += 1;
    }
    assert(receipts@.take(receipts@.len() as int) =~= receipts@);
    totals
}

impl Totals {
    /// The average price per unit of gas over `receipts` receipts, rounded
    /// down. There is none for no receipts.
    pub fn average_gas_price(&self, receipts: usize) -> (average: Option<U256>)
        ensures
            average is Some <==> receipts != 0,
            average is Some ==> average->0@ == self.gas_price@ / (receipts as nat),
    {
        alloy_checked_div(self.gas_price, U256::from_u64(receipts as u64))
    }
}

} // verus!
