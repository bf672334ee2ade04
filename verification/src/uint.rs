//! 256-bit unsigned amounts (gas, prices, values) held as four 64-bit limbs,
//! least significant first, with the arithmetic of the `alloy_primitives` and
//! `ethers_core` integer types behind stated contracts.

use vstd::prelude::*;

verus! {

/// Two to the power 256.
pub open spec fn modulus() -> nat {
    0x1_0000_0000_0000_0000_0000_0000_0000_0000_0000_0000_0000_0000_0000_0000_0000_0000nat
}

/// The number that four limbs stand for, least significant limb first.
pub open spec fn limbs_value(limbs: [u64; 4]) -> nat {
    (limbs[0] as nat) + (limbs[1] as nat) * 0x1_0000_0000_0000_0000nat + (limbs[2] as nat)
        * 0x1_0000_0000_0000_0000_0000_0000_0000_0000nat + (limbs[3] as nat)
        * 0x1_0000_0000_0000_0000_0000_0000_0000_0000_0000_0000_0000_0000nat
}

/// An unsigned 256-bit integer.
#[derive(Clone, Copy, Debug, PartialEq, Eq, Hash)]
pub struct U256 {
    pub limbs: [u64; 4],
}

impl View for U256 {
    type V = nat;

    open spec fn view(&self) -> nat {
        limbs_value(self.limbs)
    }
}

/// A number below two to the power 64 and a multiple of that power add up to
/// the same total only where both parts agree.
proof fn lemma_low_and_high_parts(low_a: nat, high_a: nat, low_b: nat, high_b: nat)
    requires
        low_a < 0x1_0000_0000_0000_0000nat,
        low_b < 0x1_0000_0000_0000_0000nat,
        low_a + 0x1_0000_0000_0000_0000nat * high_a == low_b + 0x1_0000_0000_0000_0000nat
            * high_b,
    ensures
        low_a == low_b,
        high_a == high_b,
{
}

/// Every value is below two to the power 256, and two values are the same
/// number exactly when their limbs agree.
pub proof fn lemma_value_determines_limbs(a: U256, b: U256)
    ensures
        a@ < modulus(),
        (a@ == b@) <==> (a == b),
{
    let a0 = a.limbs[0] as nat;
    let a1 = a.limbs[1] as nat;
    let a2 = a.limbs[2] as nat;
    let a3 = a.limbs[3] as nat;
    let b0 = b.limbs[0] as nat;
    let b1 = b.limbs[1] as nat;
    let b2 = b.limbs[2] as nat;
    let b3 = b.limbs[3] as nat;
    let base = 0x1_0000_0000_0000_0000nat;
    assert(a@ == a0 + base * (a1 + base * (a2 + base * a3)));
    assert(b@ == b0 + base * (b1 + base * (b2 + base * b3)));
    if a@ == b@ {
        lemma_low_and_high_parts(
            a0,
            a1 + base * (a2 + base * a3),
            b0,
            b1 + base * (b2 + base * b3),
        );
        lemma_low_and_high_parts(a1, a2 + base * a3, b1, b2 + base * b3);
        lemma_low_and_high_parts(a2, a3, b2, b3);
        assert(a.limbs =~= b.limbs);
    }
}

impl U256 {
    pub fn from_limbs(limbs: [u64; 4]) -> (value: U256)
        ensures
            value.limbs == limbs,
    {
        U256 { limbs }
    }

    pub fn zero() -> (value: U256)
        ensures
            value@ == 0,
    {
        U256 { limbs: [0, 0, 0, 0] }
    }

    pub fn from_u64(low: u64) -> (value: U256)
        ensures
            value@ == low,
    {
        U256 { limbs: [low, 0, 0, 0] }
    }

    /// Whether both hold the same number.
    pub fn same(&self, other: &U256) -> (equal: bool)
        ensures
            equal == (self@ == other@),
            equal == (*self == *other),
    {
        proof {
            lemma_value_determines_limbs(*self, *other);
        }
        let equal = self.limbs[0] == other.limbs[0] && self.limbs[1] == other.limbs[1]
            && self.limbs[2] == other.limbs[2] && self.limbs[3] == other.limbs[3];
        proof {
            if equal {
                assert(self.limbs =~= other.limbs);
            }
        }
        equal
    }

    pub fn is_zero(&self) -> (zero: bool)
        ensures
            zero == (self@ == 0),
    {
        self.limbs[0] == 0 && self.limbs[1] == 0 && self.limbs[2] == 0 && self.limbs[3] == 0
    }

    /// The number as a `u64`, where it fits.
    pub fn to_u64(&self) -> (low: Option<u64>)
        ensures
            low is Some <==> self@ <= u64::MAX,
            low is Some ==> low->0 == self@,
    {
        if self.limbs[1] == 0 && self.limbs[2] == 0 && self.limbs[3] == 0 {
            Some(self.limbs[0])
        } else {
            None
        }
    }
}

/// `+` of `alloy_primitives::U256`, which wraps around at two to the power 256.
#[verifier::external_body]
pub(crate) fn alloy_wrapping_add(a: U256, b: U256) -> (sum: U256)
    ensures
        sum@ == (a@ + b@) % modulus(),
{
    let sum = alloy_primitives::U256::from_limbs(a.limbs) + alloy_primitives::U256::from_limbs(b.limbs);
    U256 { limbs: sum.into_limbs() }
}

/// `*` of `alloy_primitives::U256`, which wraps around at two to the power 256.
#[verifier::external_body]
pub(crate) fn alloy_wrapping_mul(a: U256, b: U256) -> (product: U256)
    ensures
        product@ == (a@ * b@) % modulus(),
{
    let product = alloy_primitives::U256::from_limbs(a.limbs) * alloy_primitives::U256::from_limbs(b.limbs);
    U256 { limbs: product.into_limbs() }
}

/// `saturating_mul` of `alloy_primitives::U256`: the product, or the largest
/// value where the product does not fit.
#[verifier::external_body]
pub(crate) fn alloy_saturating_mul(a: U256, b: U256) -> (product: U256)
    ensures
        product@ == if a@ * b@ < modulus() { a@ * b@ } else { (modulus() - 1) as nat },
{
    let product = alloy_primitives::U256::from_limbs(a.limbs).saturating_mul(alloy_primitives::U256::from_limbs(b.limbs));
    U256 { limbs: product.into_limbs() }
}

/// `checked_div` of `alloy_primitives::U256`: the quotient rounded down, and
/// nothing for a zero divisor.
#[verifier::external_body]
pub(crate) fn alloy_checked_div(a: U256, b: U256) -> (quotient: Option<U256>)
    ensures
        quotient is Some <==> b@ != 0,
        quotient is Some ==> quotient->0@ == a@ / b@,
{
    let quotient = alloy_primitives::U256::from_limbs(a.limbs).checked_div(alloy_primitives::U256::from_limbs(b.limbs));
    quotient.map(|q| U256 { limbs: q.into_limbs() })
}

/// `checked_mul` of `ethers_core::types::U256`: the product where it fits in
/// 256 bits, and nothing where it does not.
#[verifier::external_body]
pub(crate) fn ethers_checked_mul(a: U256, b: U256) -> (product: Option<U256>)
    ensures
        product is Some <==> a@ * b@ < modulus(),
        product is Some ==> product->0@ == a@ * b@,
{
    let product = ethers_core::types::U256(a.limbs).checked_mul(ethers_core::types::U256(b.limbs));
    product.map(|p| U256 { limbs: p.0 })
}

/// `checked_div` of `ethers_core::types::U256`: the quotient rounded down, and
/// nothing for a zero divisor.
#[verifier::external_body]
pub(crate) fn ethers_checked_div(a: U256, b: U256) -> (quotient: Option<U256>)
    ensures
        quotient is Some <==> b@ != 0,
        quotient is Some ==> quotient->0@ == a@ / b@,
{
    let quotient = ethers_core::types::U256(a.limbs).checked_div(ethers_core::types::U256(b.limbs));
    quotient.map(|q| U256 { limbs: q.0 })
}

} // verus!
