//! Transactions in their three shapes, and what the engine keeps beside each.

use vstd::prelude::*;
use crate::primitives::Address;
use crate::uint::U256;

verus! {

/// The byte in front of the encoding of a typed-712 transaction.
pub const EIP712_TX_TYPE: u8 = 0x71;

/// Which of the three shapes a transaction has.
#[derive(Clone, Copy, Debug, PartialEq, Eq, Structural)]
pub enum Shape {
    Legacy,
    FeeMarket,
    Typed712,
}

/// The fields that every shape has.
#[derive(Clone, Debug, PartialEq, Eq)]
pub struct TxBody {
    pub from: Address,
    pub to: Option<Address>,
    pub value: U256,
    pub data: Vec<u8>,
    pub nonce: Option<u64>,
    pub gas_limit: Option<U256>,
    pub chain_id: Option<u64>,
}

/// A body with its call data as a sequence of bytes.
pub struct TxBodyView {
    pub from: Address,
    pub to: Option<Address>,
    pub value: U256,
    pub data: Seq<u8>,
    pub nonce: Option<u64>,
    pub gas_limit: Option<U256>,
    pub chain_id: Option<u64>,
}

impl View for TxBody {
    type V = TxBodyView;

    open spec fn view(&self) -> TxBodyView {
        TxBodyView {
            from: self.from,
            to: self.to,
            value: self.value,
            data: self.data@,
            nonce: self.nonce,
            gas_limit: self.gas_limit,
            chain_id: self.chain_id,
        }
    }
}

/// A transaction on its way to a chain.
#[derive(Clone, Debug, PartialEq, Eq)]
pub enum FinalTransaction {
    Legacy { body: TxBody, gas_price: Option<U256> },
    FeeMarket {
        body: TxBody,
        max_fee_per_gas: Option<U256>,
        max_priority_fee_per_gas: Option<U256>,
    },
    Typed712 {
        body: TxBody,
        gas_price: Option<U256>,
        max_fee_per_gas: Option<U256>,
        max_priority_fee_per_gas: Option<U256>,
        factory_deps: Vec<Vec<u8>>,
    },
}

/// A transaction with its byte fields as sequences.
pub enum FinalTransactionView {
    Legacy { body: TxBodyView, gas_price: Option<U256> },
    FeeMarket {
        body: TxBodyView,
        max_fee_per_gas: Option<U256>,
        max_priority_fee_per_gas: Option<U256>,
    },
    Typed712 {
        body: TxBodyView,
        gas_price: Option<U256>,
        max_fee_per_gas: Option<U256>,
        max_priority_fee_per_gas: Option<U256>,
        factory_deps: Seq<Seq<u8>>,
    },
}

/// The byte arrays of a list, each as a sequence.
pub open spec fn blobs_view(blobs: Seq<Vec<u8>>) -> Seq<Seq<u8>> {
    Seq::new(blobs.len(), |i: int| blobs[i]@)
}

impl View for FinalTransaction {
    type V = FinalTransactionView;

    open spec fn view(&self) -> FinalTransactionView {
        match *self {
            FinalTransaction::Legacy { body, gas_price } => FinalTransactionView::Legacy {
                body: body@,
                gas_price,
            },
            FinalTransaction::FeeMarket {
                body,
                max_fee_per_gas,
                max_priority_fee_per_gas,
            } => FinalTransactionView::FeeMarket {
                body: body@,
                max_fee_per_gas,
                max_priority_fee_per_gas,
            },
            FinalTransaction::Typed712 {
                body,
                gas_price,
                max_fee_per_gas,
                max_priority_fee_per_gas,
                factory_deps,
            } => FinalTransactionView::Typed712 {
                body: body@,
                gas_price,
                max_fee_per_gas,
                max_priority_fee_per_gas,
                factory_deps: blobs_view(factory_deps@),
            },
        }
    }
}

impl FinalTransactionView {
    pub open spec fn body(self) -> TxBodyView {
        match self {
            FinalTransactionView::Legacy { body, .. } => body,
            FinalTransactionView::FeeMarket { body, .. } => body,
            FinalTransactionView::Typed712 { body, .. } => body,
        }
    }

    pub open spec fn shape(self) -> Shape {
        match self {
            FinalTransactionView::Legacy { .. } => Shape::Legacy,
            FinalTransactionView::FeeMarket { .. } => Shape::FeeMarket,
            FinalTransactionView::Typed712 { .. } => Shape::Typed712,
        }
    }

    /// The same transaction with another body.
    pub open spec fn with_body(self, body: TxBodyView) -> FinalTransactionView {
        match self {
            FinalTransactionView::Legacy { gas_price, .. } => FinalTransactionView::Legacy {
                body,
                gas_price,
            },
            FinalTransactionView::FeeMarket {
                max_fee_per_gas,
                max_priority_fee_per_gas,
                ..
            } => FinalTransactionView::FeeMarket {
                body,
                max_fee_per_gas,
                max_priority_fee_per_gas,
            },
            FinalTransactionView::Typed712 {
                gas_price,
                max_fee_per_gas,
                max_priority_fee_per_gas,
                factory_deps,
                ..
            } => FinalTransactionView::Typed712 {
                body,
                gas_price,
                max_fee_per_gas,
                max_priority_fee_per_gas,
                factory_deps,
            },
        }
    }

    pub open spec fn with_chain_id(self, chain: u64) -> FinalTransactionView {
        self.with_body(TxBodyView { chain_id: Some(chain), ..self.body() })
    }

    pub open spec fn with_nonce(self, nonce: u64) -> FinalTransactionView {
        self.with_body(TxBodyView { nonce: Some(nonce), ..self.body() })
    }

    pub open spec fn with_gas_limit(self, gas_limit: Option<U256>) -> FinalTransactionView {
        self.with_body(TxBodyView { gas_limit, ..self.body() })
    }

    /// One price for every fee field that the shape has.
    pub open spec fn with_gas_price(self, price: U256) -> FinalTransactionView {
        match self {
            FinalTransactionView::Legacy { body, .. } => FinalTransactionView::Legacy {
                body,
                gas_price: Some(price),
            },
            FinalTransactionView::FeeMarket { body, .. } => FinalTransactionView::FeeMarket {
                body,
                max_fee_per_gas: Some(price),
                max_priority_fee_per_gas: Some(price),
            },
            FinalTransactionView::Typed712 { body, factory_deps, .. } => {
                FinalTransactionView::Typed712 {
                    body,
                    gas_price: Some(price),
                    max_fee_per_gas: Some(price),
                    max_priority_fee_per_gas: Some(price),
                    factory_deps,
                }
            },
        }
    }

    /// The fee pair of a fee-market or typed-712 transaction set; a legacy
    /// transaction has no such pair and stays as it is.
    pub open spec fn with_fee_pair(self, max_fee: U256, max_priority: U256) -> FinalTransactionView {
        match self {
            FinalTransactionView::Legacy { .. } => self,
            FinalTransactionView::FeeMarket { body, .. } => FinalTransactionView::FeeMarket {
                body,
                max_fee_per_gas: Some(max_fee),
                max_priority_fee_per_gas: Some(max_priority),
            },
            FinalTransactionView::Typed712 { body, gas_price, factory_deps, .. } => {
                FinalTransactionView::Typed712 {
                    body,
                    gas_price,
                    max_fee_per_gas: Some(max_fee),
                    max_priority_fee_per_gas: Some(max_priority),
                    factory_deps,
                }
            },
        }
    }

    /// The price that a legacy encoding of this transaction carries: its gas
    /// price where the shape has one that is set, else its fee cap, else its
    /// priority fee.
    pub open spec fn legacy_price(self) -> Option<U256> {
        match self {
            FinalTransactionView::Legacy { gas_price, .. } => gas_price,
            FinalTransactionView::FeeMarket {
                max_fee_per_gas,
                max_priority_fee_per_gas,
                ..
            } => if max_fee_per_gas is Some {
                max_fee_per_gas
            } else {
                max_priority_fee_per_gas
            },
            FinalTransactionView::Typed712 {
                gas_price,
                max_fee_per_gas,
                max_priority_fee_per_gas,
                ..
            } => if gas_price is Some {
                gas_price
            } else if max_fee_per_gas is Some {
                max_fee_per_gas
            } else {
                max_priority_fee_per_gas
            },
        }
    }

    /// The fee cap that a fee-market encoding of this transaction carries.
    pub open spec fn fee_cap(self) -> Option<U256> {
        match self {
            FinalTransactionView::Legacy { gas_price, .. } => gas_price,
            FinalTransactionView::FeeMarket { max_fee_per_gas, .. } => max_fee_per_gas,
            FinalTransactionView::Typed712 { max_fee_per_gas, .. } => max_fee_per_gas,
        }
    }

    /// The priority fee that a fee-market encoding of this transaction carries.
    pub open spec fn priority_fee(self) -> Option<U256> {
        match self {
            FinalTransactionView::Legacy { gas_price, .. } => gas_price,
            FinalTransactionView::FeeMarket { max_priority_fee_per_gas, .. } => {
                max_priority_fee_per_gas
            },
            FinalTransactionView::Typed712 { max_priority_fee_per_gas, .. } => {
                max_priority_fee_per_gas
            },
        }
    }

    /// The transaction in another shape: the body is kept, the fee fields are
    /// carried over as far as the new shape has them, and `factory_deps`
    /// become the dependencies of a typed-712 transaction.
    pub open spec fn reshaped(self, shape: Shape, factory_deps: Seq<Seq<u8>>) -> FinalTransactionView {
        match shape {
            Shape::Legacy => FinalTransactionView::Legacy {
                body: self.body(),
                gas_price: self.legacy_price(),
            },
            Shape::FeeMarket => FinalTransactionView::FeeMarket {
                body: self.body(),
                max_fee_per_gas: self.fee_cap(),
                max_priority_fee_per_gas: self.priority_fee(),
            },
            Shape::Typed712 => FinalTransactionView::Typed712 {
                body: self.body(),
                gas_price: self.legacy_price(),
                max_fee_per_gas: self.fee_cap(),
                max_priority_fee_per_gas: self.priority_fee(),
                factory_deps,
            },
        }
    }

    /// Ready to sign for `chain`: the chain id is that of the endpoint, the
    /// nonce is set, and the gas limit is set and positive.
    pub open spec fn ready_to_sign(self, chain: u64) -> bool {
        &&& self.body().chain_id == Some(chain)
        &&& self.body().nonce is Some
        &&& self.body().gas_limit is Some
        &&& self.body().gas_limit->0@ > 0
    }
}

/// A copy of a byte array.
pub fn copy_bytes(bytes: &Vec<u8>) -> (copy: Vec<u8>)
    ensures
        copy@ == bytes@,
{
    let mut copy: Vec<u8> = Vec::new();
    let mut i: usize = 0;
    while i < bytes.len()
        invariant
            i <= bytes.len(),
            copy@ == bytes@.take(i as int),
        decreases bytes.len() - i,
    {
        copy.push(bytes[i]);
        assert(bytes@.take(i + 1) =~= bytes@.take(i as int).push(bytes@[i as int]));
        i += 1;
    }
    assert(bytes@.take(bytes.len() as int) =~= bytes@);
    copy
}

/// A copy of a list of byte arrays.
pub fn copy_blobs(blobs: &Vec<Vec<u8>>) -> (copy: Vec<Vec<u8>>)
    ensures
        blobs_view(copy@) == blobs_view(blobs@),
{
    let mut copy: Vec<Vec<u8>> = Vec::new();
    let mut i: usize = 0;
    while i < blobs.len()
        invariant
            i <= blobs.len(),
            copy.len() == i,
            forall|j: int| 0 <= j < i ==> copy@[j]@ == blobs@[j]@,
        decreases blobs.len() - i,
    {
        copy.push(copy_bytes(&blobs[i]));
        i += 1;
    }
    assert(blobs_view(copy@) =~= blobs_view(blobs@));
    copy
}

impl TxBody {
    /// A copy of the body.
    pub fn duplicate(&self) -> (copy: TxBody)
        ensures
            copy@ == self@,
    {
        TxBody {
            from: self.from,
            to: self.to,
            value: self.value,
            data: copy_bytes(&self.data),
            nonce: self.nonce,
            gas_limit: self.gas_limit,
            chain_id: self.chain_id,
        }
    }
}

impl FinalTransaction {
    /// A copy of the transaction.
    pub fn duplicate(&self) -> (copy: FinalTransaction)
        ensures
            copy@ == self@,
    {
        match self {
            FinalTransaction::Legacy { body, gas_price } => FinalTransaction::Legacy {
                body: body.duplicate(),
                gas_price: *gas_price,
            },
            FinalTransaction::FeeMarket {
                body,
                max_fee_per_gas,
                max_priority_fee_per_gas,
            } => FinalTransaction::FeeMarket {
                body: body.duplicate(),
                max_fee_per_gas: *max_fee_per_gas,
                max_priority_fee_per_gas: *max_priority_fee_per_gas,
            },
            FinalTransaction::Typed712 {
                body,
                gas_price,
                max_fee_per_gas,
                max_priority_fee_per_gas,
                factory_deps,
            } => FinalTransaction::Typed712 {
                body: body.duplicate(),
                gas_price: *gas_price,
                max_fee_per_gas: *max_fee_per_gas,
                max_priority_fee_per_gas: *max_priority_fee_per_gas,
                factory_deps: copy_blobs(factory_deps),
            },
        }
    }

    pub fn shape(&self) -> (shape: Shape)
        ensures
            shape == self@.shape(),
    {
        match self {
            FinalTransaction::Legacy { .. } => Shape::Legacy,
            FinalTransaction::FeeMarket { .. } => Shape::FeeMarket,
            FinalTransaction::Typed712 { .. } => Shape::Typed712,
        }
    }

    pub fn body(&self) -> (body: &TxBody)
        ensures
            body@ == self@.body(),
    {
        match self {
            FinalTransaction::Legacy { body, .. } => body,
            FinalTransaction::FeeMarket { body, .. } => body,
            FinalTransaction::Typed712 { body, .. } => body,
        }
    }

    pub fn from(&self) -> (from: Address)
        ensures
            from == self@.body().from,
    {
        self.body().from
    }

    pub fn nonce(&self) -> (nonce: Option<u64>)
        ensures
            nonce == self@.body().nonce,
    {
        self.body().nonce
    }

    pub fn gas_limit(&self) -> (gas_limit: Option<U256>)
        ensures
            gas_limit == self@.body().gas_limit,
    {
        self.body().gas_limit
    }

    pub fn chain_id(&self) -> (chain_id: Option<u64>)
        ensures
            chain_id == self@.body().chain_id,
    {
        self.body().chain_id
    }

    /// The same transaction with another body.
    pub fn with_body(self, body: TxBody) -> (changed: FinalTransaction)
        ensures
            changed@ == self@.with_body(body@),
    {
        match self {
            FinalTransaction::Legacy { body: _, gas_price } => FinalTransaction::Legacy {
                body,
                gas_price,
            },
            FinalTransaction::FeeMarket {
                body: _,
                max_fee_per_gas,
                max_priority_fee_per_gas,
            } => FinalTransaction::FeeMarket { body, max_fee_per_gas, max_priority_fee_per_gas },
            FinalTransaction::Typed712 {
                body: _,
                gas_price,
                max_fee_per_gas,
                max_priority_fee_per_gas,
                factory_deps,
            } => FinalTransaction::Typed712 {
                body,
                gas_price,
                max_fee_per_gas,
                max_priority_fee_per_gas,
                factory_deps,
            },
        }
    }

    pub fn with_chain_id(self, chain: u64) -> (changed: FinalTransaction)
        ensures
            changed@ == self@.with_chain_id(chain),
    {
        match self {
            FinalTransaction::Legacy { body, gas_price } => FinalTransaction::Legacy {
                body: TxBody { chain_id: Some(chain), ..body },
                gas_price,
            },
            FinalTransaction::FeeMarket {
                body,
                max_fee_per_gas,
                max_priority_fee_per_gas,
            } => FinalTransaction::FeeMarket {
                body: TxBody { chain_id: Some(chain), ..body },
                max_fee_per_gas,
                max_priority_fee_per_gas,
            },
            FinalTransaction::Typed712 {
                body,
                gas_price,
                max_fee_per_gas,
                max_priority_fee_per_gas,
                factory_deps,
            } => FinalTransaction::Typed712 {
                body: TxBody { chain_id: Some(chain), ..body },
                gas_price,
                max_fee_per_gas,
                max_priority_fee_per_gas,
                factory_deps,
            },
        }
    }

    pub fn with_nonce(self, nonce: u64) -> (changed: FinalTransaction)
        ensures
            changed@ == self@.with_nonce(nonce),
    {
        match self {
            FinalTransaction::Legacy { body, gas_price } => FinalTransaction::Legacy {
                body: TxBody { nonce: Some(nonce), ..body },
                gas_price,
            },
            FinalTransaction::FeeMarket {
                body,
                max_fee_per_gas,
                max_priority_fee_per_gas,
            } => FinalTransaction::FeeMarket {
                body: TxBody { nonce: Some(nonce), ..body },
                max_fee_per_gas,
                max_priority_fee_per_gas,
            },
            FinalTransaction::Typed712 {
                body,
                gas_price,
                max_fee_per_gas,
                max_priority_fee_per_gas,
                factory_deps,
            } => FinalTransaction::Typed712 {
                body: TxBody { nonce: Some(nonce), ..body },
                gas_price,
                max_fee_per_gas,
                max_priority_fee_per_gas,
                factory_deps,
            },
        }
    }

    /// The gas limit set, or cleared where `gas_limit` is `None`.
    pub fn with_gas_limit(self, gas_limit: Option<U256>) -> (changed: FinalTransaction)
        ensures
            changed@ == self@.with_gas_limit(gas_limit),
    {
        match self {
            FinalTransaction::Legacy { body, gas_price } => FinalTransaction::Legacy {
                body: TxBody { gas_limit, ..body },
                gas_price,
            },
            FinalTransaction::FeeMarket {
                body,
                max_fee_per_gas,
                max_priority_fee_per_gas,
            } => FinalTransaction::FeeMarket {
                body: TxBody { gas_limit, ..body },
                max_fee_per_gas,
                max_priority_fee_per_gas,
            },
            FinalTransaction::Typed712 {
                body,
                gas_price,
                max_fee_per_gas,
                max_priority_fee_per_gas,
                factory_deps,
            } => FinalTransaction::Typed712 {
                body: TxBody { gas_limit, ..body },
                gas_price,
                max_fee_per_gas,
                max_priority_fee_per_gas,
                factory_deps,
            },
        }
    }

    /// One price for every fee field that the shape has.
    pub fn with_gas_price(self, price: U256) -> (changed: FinalTransaction)
        ensures
            changed@ == self@.with_gas_price(price),
    {
        match self {
            FinalTransaction::Legacy { body, .. } => FinalTransaction::Legacy {
                body,
                gas_price: Some(price),
            },
            FinalTransaction::FeeMarket { body, .. } => FinalTransaction::FeeMarket {
                body,
                max_fee_per_gas: Some(price),
                max_priority_fee_per_gas: Some(price),
            },
            FinalTransaction::Typed712 { body, factory_deps, .. } => FinalTransaction::Typed712 {
                body,
                gas_price: Some(price),
                max_fee_per_gas: Some(price),
                max_priority_fee_per_gas: Some(price),
                factory_deps,
            },
        }
    }

    /// The fee pair set on a fee-market or typed-712 transaction; a legacy
    /// transaction comes back as it is.
    pub fn with_fee_pair(self, max_fee: U256, max_priority: U256) -> (changed: FinalTransaction)
        ensures
            changed@ == self@.with_fee_pair(max_fee, max_priority),
    {
        match self {
            FinalTransaction::Legacy { body, gas_price } => FinalTransaction::Legacy {
                body,
                gas_price,
            },
            FinalTransaction::FeeMarket { body, .. } => FinalTransaction::FeeMarket {
                body,
                max_fee_per_gas: Some(max_fee),
                max_priority_fee_per_gas: Some(max_priority),
            },
            FinalTransaction::Typed712 { body, gas_price, factory_deps, .. } => {
                FinalTransaction::Typed712 {
                    body,
                    gas_price,
                    max_fee_per_gas: Some(max_fee),
                    max_priority_fee_per_gas: Some(max_priority),
                    factory_deps,
                }
            },
        }
    }

    pub fn legacy_price(&self) -> (price: Option<U256>)
        ensures
            price == self@.legacy_price(),
    {
        match self {
            FinalTransaction::Legacy { gas_price, .. } => *gas_price,
            FinalTransaction::FeeMarket { max_fee_per_gas, max_priority_fee_per_gas, .. } => {
                if max_fee_per_gas.is_some() {
                    *max_fee_per_gas
                } else {
                    *max_priority_fee_per_gas
                }
            },
            FinalTransaction::Typed712 {
                gas_price,
                max_fee_per_gas,
                max_priority_fee_per_gas,
                ..
            } => {
                if gas_price.is_some() {
                    *gas_price
                } else if max_fee_per_gas.is_some() {
                    *max_fee_per_gas
                } else {
                    *max_priority_fee_per_gas
                }
            },
        }
    }

    pub fn fee_cap(&self) -> (cap: Option<U256>)
        ensures
            cap == self@.fee_cap(),
    {
        match self {
            FinalTransaction::Legacy { gas_price, .. } => *gas_price,
            FinalTransaction::FeeMarket { max_fee_per_gas, .. } => *max_fee_per_gas,
            FinalTransaction::Typed712 { max_fee_per_gas, .. } => *max_fee_per_gas,
        }
    }

    pub fn priority_fee(&self) -> (fee: Option<U256>)
        ensures
            fee == self@.priority_fee(),
    {
        match self {
            FinalTransaction::Legacy { gas_price, .. } => *gas_price,
            FinalTransaction::FeeMarket { max_priority_fee_per_gas, .. } => {
                *max_priority_fee_per_gas
            },
            FinalTransaction::Typed712 { max_priority_fee_per_gas, .. } => {
                *max_priority_fee_per_gas
            },
        }
    }

    /// The transaction in another shape; `factory_deps` are used for the
    /// typed-712 shape only.
    pub fn reshaped(self, shape: Shape, factory_deps: Vec<Vec<u8>>) -> (changed: FinalTransaction)
        ensures
            changed@ == self@.reshaped(shape, blobs_view(factory_deps@)),
    {
        let gas_price = self.legacy_price();
        let max_fee_per_gas = self.fee_cap();
        let max_priority_fee_per_gas = self.priority_fee();
        let body = self.into_body();
        match shape {
            Shape::Legacy => FinalTransaction::Legacy { body, gas_price },
            Shape::FeeMarket => FinalTransaction::FeeMarket {
                body,
                max_fee_per_gas,
                max_priority_fee_per_gas,
            },
            Shape::Typed712 => FinalTransaction::Typed712 {
                body,
                gas_price,
                max_fee_per_gas,
                max_priority_fee_per_gas,
                factory_deps,
            },
        }
    }

    /// Whether the transaction is ready to be signed for `chain`.
    pub fn is_ready_to_sign(&self, chain: u64) -> (ready: bool)
        ensures
            ready == self@.ready_to_sign(chain),
    {
        let body = self.body();
        let chain_matches = match body.chain_id {
            Some(id) => id == chain,
            None => false,
        };
        let gas_positive = match body.gas_limit {
            Some(gas) => !gas.is_zero(),
            None => false,
        };
        chain_matches && body.nonce.is_some() && gas_positive
    }

    /// The body taken out of the transaction.
    pub fn into_body(self) -> (body: TxBody)
        ensures
            body@ == self@.body(),
    {
        match self {
            FinalTransaction::Legacy { body, .. } => body,
            FinalTransaction::FeeMarket { body, .. } => body,
            FinalTransaction::Typed712 { body, .. } => body,
        }
    }
}

/// What a typed-712 chain needs beside the transaction itself.
#[derive(Clone, Debug, PartialEq, Eq)]
pub struct ZkTransaction {
    pub factory_deps: Vec<Vec<u8>>,
}

/// A call as the simulation produced it, before any chain-specific field is set.
#[derive(Clone, Debug, PartialEq, Eq)]
pub struct AbstractTransaction {
    pub from: Address,
    pub to: Option<Address>,
    pub data: Vec<u8>,
    pub value: U256,
    /// The nonce that the sender had when the call was recorded.
    pub nonce: Option<u64>,
    pub gas: Option<U256>,
    pub rpc: Option<String>,
    pub zk: Option<ZkTransaction>,
}

/// A transaction with the endpoint it goes to, whether its gas limit is
/// frozen, and its typed-712 metadata.
#[derive(Clone, Debug, PartialEq, Eq)]
pub struct TxWithMetadata {
    pub transaction: FinalTransaction,
    pub rpc: Option<String>,
    pub is_fixed_gas_limit: bool,
    pub zk: Option<ZkTransaction>,
}

pub struct TxWithMetadataView {
    pub transaction: FinalTransactionView,
    pub rpc: Option<Seq<char>>,
    pub is_fixed_gas_limit: bool,
    pub zk: Option<Seq<Seq<u8>>>,
}

/// An optional endpoint as a sequence of characters.
pub open spec fn rpc_view(rpc: Option<String>) -> Option<Seq<char>> {
    match rpc {
        Some(url) => Some(url@),
        None => None,
    }
}

/// Optional typed-712 metadata as sequences of bytes.
pub open spec fn zk_view(zk: Option<ZkTransaction>) -> Option<Seq<Seq<u8>>> {
    match zk {
        Some(meta) => Some(blobs_view(meta.factory_deps@)),
        None => None,
    }
}

impl View for TxWithMetadata {
    type V = TxWithMetadataView;

    open spec fn view(&self) -> TxWithMetadataView {
        TxWithMetadataView {
            transaction: self.transaction@,
            rpc: rpc_view(self.rpc),
            is_fixed_gas_limit: self.is_fixed_gas_limit,
            zk: zk_view(self.zk),
        }
    }
}

/// The shape that a transaction takes on a chain: legacy where the chain or
/// the user asks for it, else typed-712 where the transaction carries such
/// metadata, else fee-market.
pub open spec fn chosen_shape(is_legacy: bool, has_metadata: bool) -> Shape {
    if is_legacy {
        Shape::Legacy
    } else if has_metadata {
        Shape::Typed712
    } else {
        Shape::FeeMarket
    }
}

impl TxWithMetadataView {
    /// The factory dependencies of the metadata, none where there is no metadata.
    pub open spec fn factory_deps(self) -> Seq<Seq<u8>> {
        match self.zk {
            Some(deps) => deps,
            None => Seq::empty(),
        }
    }

    /// The transaction in the shape that the chain asks for.
    pub open spec fn with_type(self, is_legacy: bool) -> TxWithMetadataView {
        TxWithMetadataView {
            transaction: self.transaction.reshaped(
                chosen_shape(is_legacy, self.zk is Some),
                self.factory_deps(),
            ),
            ..self
        }
    }

    /// What a simulated call becomes when no simulation fills in its gas: a
    /// legacy transaction with no chain or price yet, that keeps the caller,
    /// target, value, data, nonce, gas, endpoint and metadata of the call.
    pub open spec fn from_call(
        from: Address,
        to: Option<Address>,
        data: Seq<u8>,
        value: U256,
        nonce: Option<u64>,
        gas: Option<U256>,
        rpc: Option<Seq<char>>,
        zk: Option<Seq<Seq<u8>>>,
    ) -> TxWithMetadataView {
        TxWithMetadataView {
            transaction: FinalTransactionView::Legacy {
                body: TxBodyView {
                    from,
                    to,
                    value,
                    data,
                    nonce,
                    gas_limit: gas,
                    chain_id: None,
                },
                gas_price: None,
            },
            rpc,
            is_fixed_gas_limit: false,
            zk,
        }
    }
}

impl AbstractTransaction {
    /// What `from_call` makes of this call.
    pub open spec fn as_transaction(self) -> TxWithMetadataView {
        TxWithMetadataView::from_call(
            self.from,
            self.to,
            self.data@,
            self.value,
            self.nonce,
            self.gas,
            rpc_view(self.rpc),
            zk_view(self.zk),
        )
    }
}

impl TxWithMetadata {
    /// The transaction that stands for a simulated call.
    pub fn from_abstract(call: AbstractTransaction) -> (tx: TxWithMetadata)
        ensures
            tx@ == call.as_transaction(),
    {
        TxWithMetadata {
            transaction: FinalTransaction::Legacy {
                body: TxBody {
                    from: call.from,
                    to: call.to,
                    value: call.value,
                    data: call.data,
                    nonce: call.nonce,
                    gas_limit: call.gas,
                    chain_id: None,
                },
                gas_price: None,
            },
            rpc: call.rpc,
            is_fixed_gas_limit: false,
            zk: call.zk,
        }
    }

    /// The transaction in the shape that the chain asks for.
    pub fn change_type(self, is_legacy: bool) -> (changed: TxWithMetadata)
        ensures
            changed@ == self@.with_type(is_legacy),
    {
        let TxWithMetadata { transaction, rpc, is_fixed_gas_limit, zk } = self;
        let (shape, deps) = match &zk {
            Some(meta) => (
                if is_legacy {
                    Shape::Legacy
                } else {
                    Shape::Typed712
                },
                copy_blobs(&meta.factory_deps),
            ),
            None => (
                if is_legacy {
                    Shape::Legacy
                } else {
                    Shape::FeeMarket
                },
                Vec::new(),
            ),
        };
        proof {
            assert(blobs_view(Seq::<Vec<u8>>::empty()) =~= Seq::<Seq<u8>>::empty());
        }
        TxWithMetadata { transaction: transaction.reshaped(shape, deps), rpc, is_fixed_gas_limit, zk }
    }

    /// A copy of the transaction and what is kept beside it.
    pub fn duplicate(&self) -> (copy: TxWithMetadata)
        ensures
            copy@ == self@,
    {
        TxWithMetadata {
            transaction: self.transaction.duplicate(),
            rpc: match &self.rpc {
                Some(url) => Some(url.clone()),
                None => None,
            },
            is_fixed_gas_limit: self.is_fixed_gas_limit,
            zk: match &self.zk {
                Some(meta) => Some(ZkTransaction { factory_deps: copy_blobs(&meta.factory_deps) }),
                None => None,
            },
        }
    }
}

} // verus!
