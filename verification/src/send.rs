//! One submission: what has to happen before a transaction is handed to the
//! endpoint, and the bytes that a locally signed transaction is sent as.

use vstd::prelude::*;
use ethers_core::types as eth;
use crate::args::ScriptArgs;
use crate::error::BroadcastError;
use crate::gas::{needs_estimate, needs_gas_estimate};
use crate::kind::SendTransactionKind;
use crate::primitives::Address;
use crate::transaction::{FinalTransaction, FinalTransactionView, Shape, EIP712_TX_TYPE};
use crate::uint::U256;

verus! {

/// The byte in front of the encoding of a signed fee-market transaction.
pub const FEE_MARKET_TX_TYPE: u8 = 2;

/// What a local signer signs.
#[derive(Clone, Copy, Debug, PartialEq, Eq, Structural)]
pub enum Signing {
    /// The encoded unsigned transaction.
    Transaction,
    /// The structured form of a typed-712 transaction, after the chain's own
    /// fee estimate has been set on it.
    TypedData,
}

/// What the raw path does with a transaction before it is sent.
#[derive(Clone, Copy, Debug, PartialEq, Eq, Structural)]
pub struct RawSteps {
    /// Estimate gas again right before the submission.
    pub estimate_gas: bool,
    /// Ask the chain for its own fee estimate and set it on the transaction.
    pub estimate_fee: bool,
    pub signing: Signing,
}

/// One transaction with everything that was decided about its submission.
#[derive(Clone, Debug, PartialEq, Eq)]
pub struct SendPlan {
    /// The position of the transaction in its sequence.
    pub index: usize,
    pub transaction: FinalTransaction,
    pub kind: SendTransactionKind,
    /// Ask the endpoint for the sender's next nonce first, and send only
    /// where it is the nonce of the transaction.
    pub check_nonce: bool,
    /// Estimate gas again right before the submission.
    pub estimate_gas: bool,
    /// Ask the chain for its own fee estimate before signing.
    pub estimate_fee: bool,
    /// What the local signer signs; nothing for an unlocked account.
    pub signing: Option<Signing>,
}

pub struct SendPlanView {
    pub index: usize,
    pub transaction: FinalTransactionView,
    pub kind: SendTransactionKind,
    pub check_nonce: bool,
    pub estimate_gas: bool,
    pub estimate_fee: bool,
    pub signing: Option<Signing>,
}

impl View for SendPlan {
    type V = SendPlanView;

    open spec fn view(&self) -> SendPlanView {
        SendPlanView {
            index: self.index,
            transaction: self.transaction@,
            kind: self.kind,
            check_nonce: self.check_nonce,
            estimate_gas: self.estimate_gas,
            estimate_fee: self.estimate_fee,
            signing: self.signing,
        }
    }
}

/// A typed-712 transaction is signed as structured data, the other shapes as
/// encoded transactions.
pub open spec fn signing_for(shape: Shape) -> Signing {
    if shape == Shape::Typed712 {
        Signing::TypedData
    } else {
        Signing::Transaction
    }
}

/// The steps of the raw path.
pub open spec fn raw_steps(
    chain: u64,
    skip_simulation: bool,
    is_fixed_gas_limit: bool,
    shape: Shape,
) -> RawSteps {
    RawSteps {
        estimate_gas: needs_estimate(chain, skip_simulation, is_fixed_gas_limit),
        estimate_fee: shape == Shape::Typed712,
        signing: signing_for(shape),
    }
}

/// Everything that is decided about one submission. The nonce is checked
/// against the endpoint in sequential runs only. Gas is estimated again under
/// the same condition for both kinds. Only a raw submission is signed, and
/// only a typed-712 transaction that is signed gets the fee estimate of its
/// chain.
pub open spec fn planned_send(
    index: usize,
    transaction: FinalTransactionView,
    kind: SendTransactionKind,
    sequential: bool,
    chain: u64,
    skip_simulation: bool,
    is_fixed_gas_limit: bool,
) -> SendPlanView {
    SendPlanView {
        index,
        transaction,
        kind,
        check_nonce: sequential,
        estimate_gas: needs_estimate(chain, skip_simulation, is_fixed_gas_limit),
        estimate_fee: kind is Raw && transaction.shape() == Shape::Typed712,
        signing: if kind is Raw {
            Some(signing_for(transaction.shape()))
        } else {
            None
        },
    }
}

/// The outcome of holding a transaction's nonce against the next nonce that
/// the endpoint reports for its sender, where `None` stands for a query that
/// failed.
pub open spec fn nonce_verdict(tx_nonce: Option<u64>, reported: Option<u64>) -> Result<
    (),
    BroadcastError,
> {
    match reported {
        None => Err(BroadcastError::NonceQueryFailed),
        Some(got) => if tx_nonce == Some(got) {
            Ok(())
        } else {
            Err(BroadcastError::NonceDrift { expected: tx_nonce, got })
        },
    }
}

/// Holds a transaction's nonce against what the endpoint reported.
pub fn check_nonce(tx_nonce: Option<u64>, reported: Option<u64>) -> (verdict: Result<
    (),
    BroadcastError,
>)
    ensures
        verdict == nonce_verdict(tx_nonce, reported),
{
    match reported {
        None => Err(BroadcastError::NonceQueryFailed),
        Some(got) => {
            let matches = match tx_nonce {
                Some(nonce) => nonce == got,
                None => false,
            };
            if matches {
                Ok(())
            } else {
                Err(BroadcastError::NonceDrift { expected: tx_nonce, got })
            }
        },
    }
}

impl ScriptArgs {
    /// Decides the steps of the raw path for a transaction of the given
    /// shape: whether gas is estimated again, and what is signed.
    pub fn broadcast(&self, signer_chain: u64, shape: Shape, is_fixed_gas_limit: bool) -> (steps:
        RawSteps)
        ensures
            steps == raw_steps(signer_chain, self.skip_simulation, is_fixed_gas_limit, shape),
    {
        let typed = match shape {
            Shape::Typed712 => true,
            _ => false,
        };
        RawSteps {
            estimate_gas: needs_gas_estimate(signer_chain, self.skip_simulation, is_fixed_gas_limit),
            estimate_fee: typed,
            signing: if typed {
                Signing::TypedData
            } else {
                Signing::Transaction
            },
        }
    }

    /// Decides how the transaction at `index` is submitted.
    pub fn send_transaction(
        &self,
        index: usize,
        transaction: FinalTransaction,
        kind: SendTransactionKind,
        sequential_broadcast: bool,
        chain: u64,
        is_fixed_gas_limit: bool,
    ) -> (plan: SendPlan)
        ensures
            plan@ == planned_send(
                index,
                transaction@,
                kind,
                sequential_broadcast,
                chain,
                self.skip_simulation,
                is_fixed_gas_limit,
            ),
    {
        plan_send(
            index,
            transaction,
            kind,
            sequential_broadcast,
            chain,
            self.skip_simulation,
            is_fixed_gas_limit,
        )
    }
}

/// Decides how the transaction at `index` is submitted.
pub fn plan_send(
    index: usize,
    transaction: FinalTransaction,
    kind: SendTransactionKind,
    sequential: bool,
    chain: u64,
    skip_simulation: bool,
    is_fixed_gas_limit: bool,
) -> (plan: SendPlan)
    ensures
        plan@ == planned_send(
            index,
            transaction@,
            kind,
            sequential,
            chain,
            skip_simulation,
            is_fixed_gas_limit,
        ),
{
    let estimate_gas = needs_gas_estimate(chain, skip_simulation, is_fixed_gas_limit);
    let typed = match transaction.shape() {
        Shape::Typed712 => true,
        _ => false,
    };
    let (estimate_fee, signing) = match kind {
        SendTransactionKind::Unlocked(_) => (false, None),
        SendTransactionKind::Raw(_) => (
            typed,
            Some(
                if typed {
                    Signing::TypedData
                } else {
                    Signing::Transaction
                },
            ),
        ),
    };
    SendPlan {
        index,
        transaction,
        kind,
        check_nonce: sequential,
        estimate_gas,
        estimate_fee,
        signing,
    }
}

/// One thing that is done for a submission after the nonce has been looked at.
#[derive(Clone, Copy, Debug, PartialEq, Eq, Structural)]
pub enum Step {
    /// Ask the endpoint to estimate gas for `estimate_request` of the
    /// transaction, and set the limit with `estimate_gas`.
    EstimateGas,
    /// Ask the chain for its own fee estimate, and set it with
    /// `apply_fee_estimate`.
    EstimateFee,
    /// Have the local signer sign the transaction as it then stands, which
    /// `signable` has to accept first.
    Sign(Signing),
    /// Send the signed payload.
    SendRaw,
    /// Hand the transaction to the endpoint, which signs for the unlocked
    /// account.
    SendUnlocked,
}

/// The steps of a submission, in their order: the gas estimate, where one is
/// made, comes first; an unlocked account then sends; a local signer gets the
/// fee estimate of the chain, where one is made, signs and sends raw.
pub open spec fn steps_of(plan: SendPlanView) -> Seq<Step> {
    let estimate = if plan.estimate_gas {
        seq![Step::EstimateGas]
    } else {
        Seq::<Step>::empty()
    };
    match plan.signing {
        None => estimate + seq![Step::SendUnlocked],
        Some(signing) => estimate + (if plan.estimate_fee {
            seq![Step::EstimateFee]
        } else {
            Seq::<Step>::empty()
        }) + seq![Step::Sign(signing), Step::SendRaw],
    }
}

/// What follows the look at the nonce. A plan that checks the nonce goes on
/// only where the endpoint reported the nonce of the transaction; it ends
/// with the error of the check otherwise, and nothing else is done for the
/// transaction. A plan that does not check the nonce goes on in any case.
pub open spec fn steps_after(plan: SendPlanView, reported: Option<u64>) -> Result<
    Seq<Step>,
    BroadcastError,
> {
    if plan.check_nonce {
        match nonce_verdict(plan.transaction.body().nonce, reported) {
            Err(error) => Err(error),
            Ok(_) => Ok(steps_of(plan)),
        }
    } else {
        Ok(steps_of(plan))
    }
}

/// Whether a transaction may be signed: it names its chain, has its nonce,
/// and has a gas limit above zero.
pub open spec fn may_be_signed(tx: FinalTransactionView) -> bool {
    tx.body().chain_id is Some && tx.ready_to_sign(tx.body().chain_id->0)
}

/// Refuses to have a transaction signed that is not ready for it.
pub fn signable(transaction: &FinalTransaction) -> (verdict: Result<(), BroadcastError>)
    ensures
        verdict is Ok <==> may_be_signed(transaction@),
        verdict is Err ==> verdict->Err_0 == BroadcastError::SigningFailed,
{
    let ready = match transaction.chain_id() {
        Some(chain) => transaction.is_ready_to_sign(chain),
        None => false,
    };
    if ready {
        Ok(())
    } else {
        Err(BroadcastError::SigningFailed)
    }
}

impl SendPlan {
    /// The steps of the submission, once the nonce has been looked at.
    /// `reported` is the next nonce that the endpoint reported for the sender,
    /// or nothing where the query failed; a plan that does not check the nonce
    /// asks for none and does not look at it.
    pub fn steps_after_nonce(&self, reported: Option<u64>) -> (result: Result<
        Vec<Step>,
        BroadcastError,
    >)
        ensures
            result is Ok <==> steps_after(self@, reported) is Ok,
            result is Ok ==> result->Ok_0@ == steps_after(self@, reported)->Ok_0,
            result is Err ==> steps_after(self@, reported) == Err::<Seq<Step>, BroadcastError>(
                result->Err_0,
            ),
    {
        if self.check_nonce {
            match check_nonce(self.transaction.nonce(), reported) {
                Err(error) => {
                    return Err(error);
                },
                Ok(_) => {},
            }
        }
        let mut steps: Vec<Step> = Vec::new();
        if self.estimate_gas {
            steps.push(Step::EstimateGas);
        }
        match self.signing {
            None => {
                steps.push(Step::SendUnlocked);
            },
            Some(signing) => {
                if self.estimate_fee {
                    steps.push(Step::EstimateFee);
                }
                steps.push(Step::Sign(signing));
                steps.push(Step::SendRaw);
            },
        }
        assert(steps@ =~= steps_of(self@));
        Ok(steps)
    }
}

/// What a signer returns.
#[derive(Clone, Copy, Debug, PartialEq, Eq)]
pub struct Signature {
    pub r: U256,
    pub s: U256,
    pub v: u64,
}

/// The encoding that `ethers_core` gives a signed legacy transaction with
/// these fields.
pub uninterp spec fn legacy_signed_rlp(
    nonce: Option<u64>,
    gas_price: Option<[u64; 4]>,
    gas: Option<[u64; 4]>,
    to: Option<[u8; 20]>,
    value: [u64; 4],
    data: Seq<u8>,
    r: [u64; 4],
    s: [u64; 4],
    v: u64,
) -> Seq<u8>;

/// The encoding that `ethers_core` gives a signed fee-market transaction
/// with these fields, without the type byte in front.
pub uninterp spec fn fee_market_signed_rlp(
    chain_id: Option<u64>,
    nonce: Option<u64>,
    max_priority_fee_per_gas: Option<[u64; 4]>,
    max_fee_per_gas: Option<[u64; 4]>,
    gas: Option<[u64; 4]>,
    to: Option<[u8; 20]>,
    value: [u64; 4],
    data: Seq<u8>,
    r: [u64; 4],
    s: [u64; 4],
    v: u64,
) -> Seq<u8>;

/// `rlp_signed` of `ethers_core::types::TransactionRequest`, on a request
/// with the given fields and no others set. The contract names the bytes
/// that come back and says nothing else of them.
#[verifier::external_body]
fn ethers_legacy_rlp_signed(
    nonce: Option<u64>,
    gas_price: Option<[u64; 4]>,
    gas: Option<[u64; 4]>,
    to: Option<[u8; 20]>,
    value: [u64; 4],
    data: &Vec<u8>,
    r: [u64; 4],
    s: [u64; 4],
    v: u64,
) -> (encoded: Vec<u8>)
    ensures
        encoded@ == legacy_signed_rlp(nonce, gas_price, gas, to, value, data@, r, s, v),
{
    let request = eth::TransactionRequest {
        to: to.map(|a| eth::H160(a).into()),
        gas: gas.map(eth::U256),
        gas_price: gas_price.map(eth::U256),
        value: Some(eth::U256(value)),
        data: Some(data.clone().into()),
        nonce: nonce.map(eth::U256::from),
        ..Default::default()
    };
    let signature = eth::Signature { r: eth::U256(r), s: eth::U256(s), v };
    request.rlp_signed(&signature).to_vec()
}

/// The recovery value can be brought back to 0 or 1 for the chain: it is 0
/// or 1 already, or at least twice the chain id plus 35, with the chain id of
/// the main network standing in for a missing one.
pub open spec fn recovery_fits(v: u64, chain_id: Option<u64>) -> bool {
    let chain = if chain_id is Some {
        chain_id->0
    } else {
        1u64
    };
    v <= 1 || (chain <= 0x7fff_ffff_ffff_ffee && v >= chain * 2 + 35)
}

/// `rlp_signed` of `ethers_core::types::Eip1559TransactionRequest`, on a
/// request with the given fields, an empty access list and nothing else set.
/// The call brings the recovery value back to 0 or 1 by subtracting twice the
/// chain id plus 35, which `recovery_fits` keeps from overflowing. The
/// contract names the bytes that come back and says nothing else of them.
#[verifier::external_body]
fn ethers_fee_market_rlp_signed(
    chain_id: Option<u64>,
    nonce: Option<u64>,
    max_priority_fee_per_gas: Option<[u64; 4]>,
    max_fee_per_gas: Option<[u64; 4]>,
    gas: Option<[u64; 4]>,
    to: Option<[u8; 20]>,
    value: [u64; 4],
    data: &Vec<u8>,
    r: [u64; 4],
    s: [u64; 4],
    v: u64,
) -> (encoded: Vec<u8>)
    requires
        recovery_fits(v, chain_id),
    ensures
        encoded@ == fee_market_signed_rlp(
            chain_id,
            nonce,
            max_priority_fee_per_gas,
            max_fee_per_gas,
            gas,
            to,
            value,
            data@,
            r,
            s,
            v,
        ),
{
    let request = eth::Eip1559TransactionRequest {
        to: to.map(|a| eth::H160(a).into()),
        gas: gas.map(eth::U256),
        value: Some(eth::U256(value)),
        data: Some(data.clone().into()),
        nonce: nonce.map(eth::U256::from),
        max_priority_fee_per_gas: max_priority_fee_per_gas.map(eth::U256),
        max_fee_per_gas: max_fee_per_gas.map(eth::U256),
        chain_id: chain_id.map(eth::U64::from),
        ..Default::default()
    };
    let signature = eth::Signature { r: eth::U256(r), s: eth::U256(s), v };
    request.rlp_signed(&signature).to_vec()
}

/// The limbs of an optional amount.
pub open spec fn limbs_of(amount: Option<U256>) -> Option<[u64; 4]> {
    match amount {
        Some(value) => Some(value.limbs),
        None => None,
    }
}

/// The bytes of an optional address.
pub open spec fn bytes_of(address: Option<Address>) -> Option<[u8; 20]> {
    match address {
        Some(value) => Some(value.bytes),
        None => None,
    }
}

fn amount_limbs(amount: Option<U256>) -> (limbs: Option<[u64; 4]>)
    ensures
        limbs == limbs_of(amount),
{
    match amount {
        Some(value) => Some(value.limbs),
        None => None,
    }
}

fn address_bytes(address: Option<Address>) -> (bytes: Option<[u8; 20]>)
    ensures
        bytes == bytes_of(address),
{
    match address {
        Some(value) => Some(value.bytes),
        None => None,
    }
}

/// The bytes that a signed transaction is sent as. A legacy transaction is
/// its signed encoding. A fee-market transaction is the type byte followed
/// by its signed encoding, where the recovery value fits the chain. The
/// encoding of a typed-712 transaction is not made here: see `typed_payload`.
pub open spec fn payload_of(tx: FinalTransactionView, signature: Signature) -> Option<Seq<u8>> {
    match tx {
        FinalTransactionView::Legacy { body, gas_price } => Some(
            legacy_signed_rlp(
                body.nonce,
                limbs_of(gas_price),
                limbs_of(body.gas_limit),
                bytes_of(body.to),
                body.value.limbs,
                body.data,
                signature.r.limbs,
                signature.s.limbs,
                signature.v,
            ),
        ),
        FinalTransactionView::FeeMarket { body, max_fee_per_gas, max_priority_fee_per_gas } => {
            if recovery_fits(signature.v, body.chain_id) {
                Some(
                    seq![FEE_MARKET_TX_TYPE] + fee_market_signed_rlp(
                        body.chain_id,
                        body.nonce,
                        limbs_of(max_priority_fee_per_gas),
                        limbs_of(max_fee_per_gas),
                        limbs_of(body.gas_limit),
                        bytes_of(body.to),
                        body.value.limbs,
                        body.data,
                        signature.r.limbs,
                        signature.s.limbs,
                        signature.v,
                    ),
                )
            } else {
                None
            }
        },
        FinalTransactionView::Typed712 { .. } => None,
    }
}

/// `prefix` followed by `rest`.
fn prefixed(prefix: u8, rest: &Vec<u8>) -> (bytes: Vec<u8>)
    ensures
        bytes@ == seq![prefix] + rest@,
{
    let mut bytes: Vec<u8> = Vec::new();
    bytes.push(prefix);
    let mut i: usize = 0;
    while i < rest.len()
        invariant
            i <= rest.len(),
            bytes@ == seq![prefix] + rest@.take(i as int),
        decreases rest.len() - i,
    {
        bytes.push(rest[i]);
        assert(seq![prefix] + rest@.take(i + 1) =~= (seq![prefix] + rest@.take(i as int)).push(
            rest@[i as int],
        ));
        i += 1;
    }
    assert(rest@.take(rest.len() as int) =~= rest@);
    bytes
}

/// The bytes that a signed legacy or fee-market transaction is sent as.
pub fn raw_payload(tx: &FinalTransaction, signature: &Signature) -> (payload: Option<Vec<u8>>)
    ensures
        payload is Some <==> payload_of(tx@, *signature) is Some,
        payload is Some ==> payload->0@ == payload_of(tx@, *signature)->0,
{
    match tx {
        FinalTransaction::Legacy { body, gas_price } => Some(
            ethers_legacy_rlp_signed(
                body.nonce,
                amount_limbs(*gas_price),
                amount_limbs(body.gas_limit),
                address_bytes(body.to),
                body.value.limbs,
                &body.data,
                signature.r.limbs,
                signature.s.limbs,
                signature.v,
            ),
        ),
        FinalTransaction::FeeMarket { body, max_fee_per_gas, max_priority_fee_per_gas } => {
            let chain: u64 = match body.chain_id {
                Some(id) => id,
                None => 1,
            };
            if signature.v <= 1 || (chain <= 0x7fff_ffff_ffff_ffee && signature.v >= chain * 2
                + 35) {
                let encoded = ethers_fee_market_rlp_signed(
                    body.chain_id,
                    body.nonce,
                    amount_limbs(*max_priority_fee_per_gas),
                    amount_limbs(*max_fee_per_gas),
                    amount_limbs(body.gas_limit),
                    address_bytes(body.to),
                    body.value.limbs,
                    &body.data,
                    signature.r.limbs,
                    signature.s.limbs,
                    signature.v,
                );
                Some(prefixed(FEE_MARKET_TX_TYPE, &encoded))
            } else {
                None
            }
        },
        FinalTransaction::Typed712 { .. } => None,
    }
}

/// The bytes that a signed typed-712 transaction is sent as: the type byte
/// followed by the signed encoding of the request.
pub fn typed_payload(encoded: &Vec<u8>) -> (payload: Vec<u8>)
    ensures
        payload@ == seq![EIP712_TX_TYPE] + encoded@,
{
    prefixed(EIP712_TX_TYPE, encoded)
}

} // verus!
