//! The record of one chain's deployment: its transactions in order, the
//! hashes under which they were submitted, and the receipts that came back.

use vstd::prelude::*;
use crate::primitives::TxHash;
use crate::transaction::{TxWithMetadata, TxWithMetadataView};
use crate::uint::U256;

verus! {

/// What a chain reports of a mined transaction.
#[derive(Clone, Copy, Debug, PartialEq, Eq)]
pub struct Receipt {
    pub transaction_hash: TxHash,
    pub gas_used: Option<U256>,
    pub effective_gas_price: Option<U256>,
}

/// A value that the script returned.
#[derive(Clone, Debug, PartialEq, Eq)]
pub struct NamedReturn {
    pub name: String,
    pub internal_type: String,
    pub value: String,
}

/// A returned value as sequences of characters: name, type and value.
pub open spec fn return_view(value: NamedReturn) -> (Seq<char>, Seq<char>, Seq<char>) {
    (value.name@, value.internal_type@, value.value@)
}

/// Returned values as sequences of characters.
pub open spec fn returns_view(values: Seq<NamedReturn>) -> Seq<(Seq<char>, Seq<char>, Seq<char>)> {
    Seq::new(values.len(), |i: int| return_view(values[i]))
}

/// A copy of a list of returned values.
pub fn copy_returns(values: &Vec<NamedReturn>) -> (copy: Vec<NamedReturn>)
    ensures
        returns_view(copy@) == returns_view(values@),
{
    let mut copy: Vec<NamedReturn> = Vec::new();
    let mut i: usize = 0;
    while i < values.len()
        invariant
            i <= values@.len(),
            copy@.len() == i,
            forall|j: int| 0 <= j < i ==> return_view(copy@[j]) == return_view(values@[j]),
        decreases values@.len() - i,
    {
        let value = &values[i];
        copy.push(
            NamedReturn {
                name: value.name.clone(),
                internal_type: value.internal_type.clone(),
                value: value.value.clone(),
            },
        );
        i += 1;
    }
    assert(returns_view(copy@) =~= returns_view(values@));
    copy
}

/// The transactions of one chain with their hashes and receipts. The hash at
/// a position is that of the transaction at the same position, and so is the
/// receipt.
#[derive(Clone, Debug, PartialEq, Eq)]
pub struct ScriptSequence {
    pub transactions: Vec<TxWithMetadata>,
    pub pending: Vec<TxHash>,
    pub receipts: Vec<Receipt>,
    pub libraries: Vec<String>,
    pub return_values: Vec<NamedReturn>,
    pub target: String,
    pub signature: String,
    pub chain: u64,
    pub broadcast: bool,
}

/// The transactions of a list, each by its view.
pub open spec fn transactions_view(transactions: Seq<TxWithMetadata>) -> Seq<TxWithMetadataView> {
    Seq::new(transactions.len(), |i: int| transactions[i]@)
}

/// Every receipt is that of the hash at its position.
pub open spec fn receipts_match(pending: Seq<TxHash>, receipts: Seq<Receipt>) -> bool {
    &&& receipts.len() <= pending.len()
    &&& forall|i: int| 0 <= i < receipts.len() ==> (#[trigger] receipts[i]).transaction_hash == pending[i]
}

impl ScriptSequence {
    /// No more hashes than transactions, no more receipts than hashes, and
    /// each receipt belongs to the hash at its position.
    pub open spec fn wf(&self) -> bool {
        &&& self.pending@.len() <= self.transactions@.len()
        &&& receipts_match(self.pending@, self.receipts@)
    }

    /// Every transaction has its hash and its receipt.
    pub open spec fn complete(&self) -> bool {
        &&& self.pending@.len() == self.transactions@.len()
        &&& self.receipts@.len() == self.transactions@.len()
    }

    /// This record is `before` with `hashes` and `receipts` added at the end
    /// of its two lists, and nothing else changed.
    pub open spec fn advanced_by(
        &self,
        before: &ScriptSequence,
        hashes: Seq<TxHash>,
        receipts: Seq<Receipt>,
    ) -> bool {
        &&& self.transactions == before.transactions
        &&& self.pending@ == before.pending@ + hashes
        &&& self.receipts@ == before.receipts@ + receipts
        &&& self.libraries == before.libraries
        &&& self.return_values == before.return_values
        &&& self.target == before.target
        &&& self.signature == before.signature
        &&& self.chain == before.chain
        &&& self.broadcast == before.broadcast
    }

    /// Both records hold the same transactions, hashes and receipts.
    pub open spec fn same_progress(&self, other: &ScriptSequence) -> bool {
        &&& self.transactions == other.transactions
        &&& self.pending@ == other.pending@
        &&& self.receipts@ == other.receipts@
    }

    /// A record of transactions of which none has been sent.
    pub fn new(
        transactions: Vec<TxWithMetadata>,
        return_values: Vec<NamedReturn>,
        signature: String,
        target: String,
        chain: u64,
        broadcast: bool,
    ) -> (sequence: ScriptSequence)
        ensures
            sequence.wf(),
            sequence.transactions == transactions,
            sequence.pending@.len() == 0,
            sequence.receipts@.len() == 0,
            sequence.libraries@.len() == 0,
            sequence.return_values == return_values,
            sequence.signature == signature,
            sequence.target == target,
            sequence.chain == chain,
            sequence.broadcast == broadcast,
    {
        ScriptSequence {
            transactions,
            pending: Vec::new(),
            receipts: Vec::new(),
            libraries: Vec::new(),
            return_values,
            target,
            signature,
            chain,
            broadcast,
        }
    }

    /// Whether the record is well formed.
    pub fn is_well_formed(&self) -> (ok: bool)
        ensures
            ok == self.wf(),
    {
        if self.pending.len() > self.transactions.len() || self.receipts.len()
            > self.pending.len() {
            return false;
        }
        let mut i: usize = 0;
        while i < self.receipts.len()
            invariant
                i <= self.receipts.len(),
                self.receipts.len() <= self.pending.len(),
                forall|j: int|
                    0 <= j < i ==> (#[trigger] self.receipts@[j]).transaction_hash
                        == self.pending@[j],
            decreases self.receipts.len() - i,
        {
            if !self.receipts[i].transaction_hash.same(&self.pending[i]) {
                return false;
            }
            i += 1;
        }
        true
    }

    /// Records the hash under which the transaction at `index` was submitted.
    /// Hashes are recorded in the order of the transactions: the hash is taken
    /// where `index` is the first position without one, and refused elsewhere.
    pub fn add_pending(&mut self, index: usize, hash: TxHash) -> (recorded: bool)
        requires
            old(self).wf(),
        ensures
            final(self).wf(),
            recorded == (index == old(self).pending@.len() && index < old(self).transactions@.len()),
            recorded ==> final(self).advanced_by(old(self), seq![hash], seq![]),
            !recorded ==> *final(self) == *old(self),
    {
        if index == self.pending.len() && index < self.transactions.len() {
            self.pending.push(hash);
            assert(self.pending@ =~= old(self).pending@ + seq![hash]);
            assert(self.receipts@ =~= old(self).receipts@ + Seq::<Receipt>::empty());
            true
        } else {
            false
        }
    }

    /// Records the receipt of the transaction at `index`. Receipts are
    /// recorded in the order of the transactions: the receipt is taken where
    /// `index` is the first position without one, a hash is recorded there, and
    /// the receipt is that of this hash; it is refused elsewhere.
    pub fn add_receipt(&mut self, index: usize, receipt: Receipt) -> (recorded: bool)
        requires
            old(self).wf(),
        ensures
            final(self).wf(),
            recorded == (index == old(self).receipts@.len() && index < old(self).pending@.len()
                && receipt.transaction_hash == old(self).pending@[index as int]),
            recorded ==> final(self).advanced_by(old(self), seq![], seq![receipt]),
            !recorded ==> *final(self) == *old(self),
    {
        if index == self.receipts.len() && index < self.pending.len()
            && receipt.transaction_hash.same(&self.pending[index]) {
            self.receipts.push(receipt);
            assert(self.receipts@ =~= old(self).receipts@ + seq![receipt]);
            assert(self.pending@ =~= old(self).pending@ + Seq::<TxHash>::empty());
            true
        } else {
            false
        }
    }

    /// Records hashes for the next transactions without one, in order: as
    /// many as there are, up to `limit` and up to the number of transactions
    /// that are left. Returns how many were recorded.
    pub fn add_hashes(&mut self, hashes: &Vec<TxHash>, limit: usize) -> (count: usize)
        requires
            old(self).wf(),
        ensures
            final(self).wf(),
            count <= hashes@.len(),
            count <= limit,
            old(self).pending@.len() + count <= old(self).transactions@.len(),
            count == hashes@.len() || count == limit || old(self).pending@.len() + count == old(
                self,
            ).transactions@.len(),
            final(self).advanced_by(old(self), hashes@.take(count as int), seq![]),
    {
        let mut count: usize = 0;
        assert(self.pending@ =~= old(self).pending@ + hashes@.take(0));
        assert(self.receipts@ =~= old(self).receipts@ + Seq::<Receipt>::empty());
        while count < hashes.len() && count < limit && self.pending.len() < self.transactions.len()
            invariant
                self.wf(),
                count <= hashes@.len(),
                count <= limit,
                self.pending@.len() == old(self).pending@.len() + count,
                self.advanced_by(old(self), hashes@.take(count as int), seq![]),
            decreases hashes@.len() - count,
        {
            let ghost before = *self;
            let index = self.pending.len();
            let recorded = self.add_pending(index, hashes[count]);
            assert(recorded);
            proof {
                lemma_advance_twice(
                    old(self),
                    &before,
                    self,
                    hashes@.take(count as int),
                    seq![],
                    seq![hashes@[count as int]],
                    seq![],
                );
                assert(hashes@.take(count as int) + seq![hashes@[count as int]] =~= hashes@.take(
                    count + 1,
                ));
                assert(Seq::<Receipt>::empty() + Seq::<Receipt>::empty() =~= Seq::<
                    Receipt,
                >::empty());
            }
            count += 1;
        }
        count
    }

    /// Records receipts for the next hashes without one, in order, up to the
    /// first receipt that is not that of the next hash. Returns how many were
    /// recorded.
    pub fn add_receipts(&mut self, receipts: &Vec<Receipt>) -> (count: usize)
        requires
            old(self).wf(),
        ensures
            final(self).wf(),
            count <= receipts@.len(),
            old(self).receipts@.len() + count <= old(self).pending@.len(),
            count == receipts@.len() || old(self).receipts@.len() + count == old(
                self,
            ).pending@.len() || receipts@[count as int].transaction_hash != old(
                self,
            ).pending@[old(self).receipts@.len() + count],
            final(self).advanced_by(old(self), seq![], receipts@.take(count as int)),
    {
        let mut count: usize = 0;
        assert(self.receipts@ =~= old(self).receipts@ + receipts@.take(0));
        assert(self.pending@ =~= old(self).pending@ + Seq::<TxHash>::empty());
        while count < receipts.len() && self.receipts.len() < self.pending.len()
            invariant
                self.wf(),
                count <= receipts@.len(),
                self.receipts@.len() == old(self).receipts@.len() + count,
                self.advanced_by(old(self), seq![], receipts@.take(count as int)),
            decreases receipts@.len() - count,
        {
            let ghost before = *self;
            let index = self.receipts.len();
            let recorded = self.add_receipt(index, receipts[count]);
            if !recorded {
                return count;
            }
            proof {
                lemma_advance_twice(
                    old(self),
                    &before,
                    self,
                    seq![],
                    receipts@.take(count as int),
                    seq![],
                    seq![receipts@[count as int]],
                );
                assert(receipts@.take(count as int) + seq![receipts@[count as int]]
                    =~= receipts@.take(count + 1));
                assert(Seq::<TxHash>::empty() + Seq::<TxHash>::empty() =~= Seq::<TxHash>::empty());
            }
            count += 1;
        }
        count
    }

    /// Sets the libraries that the script was linked with.
    pub fn add_libraries(&mut self, libraries: Vec<String>)
        ensures
            final(self).libraries == libraries,
            final(self).transactions == old(self).transactions,
            final(self).pending == old(self).pending,
            final(self).receipts == old(self).receipts,
            final(self).return_values == old(self).return_values,
            final(self).target == old(self).target,
            final(self).signature == old(self).signature,
            final(self).chain == old(self).chain,
            final(self).broadcast == old(self).broadcast,
    {
        self.libraries = libraries;
    }

    /// How many transactions count as mined: those that have a receipt.
    pub fn already_broadcast(&self) -> (count: usize)
        ensures
            count == self.receipts@.len(),
    {
        self.receipts.len()
    }

    /// Whether every transaction has its hash and its receipt.
    pub fn is_complete(&self) -> (complete: bool)
        ensures
            complete == self.complete(),
    {
        self.pending.len() == self.transactions.len() && self.receipts.len()
            == self.transactions.len()
    }

    /// The hashes that have no receipt yet, in order.
    pub fn outstanding(&self) -> (hashes: Vec<TxHash>)
        requires
            self.wf(),
        ensures
            hashes@ == self.pending@.skip(self.receipts@.len() as int),
    {
        let mut hashes: Vec<TxHash> = Vec::new();
        let mut i: usize = self.receipts.len();
        assert(self.pending@.subrange(i as int, i as int) =~= Seq::<TxHash>::empty());
        while i < self.pending.len()
            invariant
                self.receipts.len() <= i <= self.pending.len(),
                hashes@ == self.pending@.subrange(self.receipts.len() as int, i as int),
            decreases self.pending.len() - i,
        {
            hashes.push(self.pending[i]);
            assert(self.pending@.subrange(self.receipts.len() as int, i + 1)
                =~= self.pending@.subrange(self.receipts.len() as int, i as int).push(
                self.pending@[i as int],
            ));
            i += 1;
        }
        assert(self.pending@.subrange(self.receipts.len() as int, self.pending.len() as int)
            =~= self.pending@.skip(self.receipts@.len() as int));
        hashes
    }
}

/// The sequences of a deployment that spans chains. They share the target
/// contract and the signature of the script function.
#[derive(Clone, Debug, PartialEq, Eq)]
pub struct MultiChainSequence {
    pub deployments: Vec<ScriptSequence>,
    pub target: String,
    pub signature: String,
}

/// Every sequence of the list is for this target and this signature.
pub open spec fn all_share(deployments: Seq<ScriptSequence>, target: Seq<char>, signature: Seq<char>) -> bool {
    forall|k: int|
        0 <= k < deployments.len() ==> (#[trigger] deployments[k]).target@ == target
            && deployments[k].signature@ == signature
}

impl MultiChainSequence {
    pub open spec fn wf(&self) -> bool {
        all_share(self.deployments@, self.target@, self.signature@)
    }

    /// Binds sequences into one deployment. There is no result where a
    /// sequence is for another target or another signature.
    pub fn new(deployments: Vec<ScriptSequence>, signature: String, target: String) -> (bundle: Option<
        MultiChainSequence,
    >)
        ensures
            bundle is Some <==> all_share(deployments@, target@, signature@),
            bundle is Some ==> bundle->0.wf() && bundle->0.deployments == deployments
                && bundle->0.target == target && bundle->0.signature == signature,
    {
        let mut k: usize = 0;
        while k < deployments.len()
            invariant
                k <= deployments@.len(),
                forall|j: int|
                    0 <= j < k ==> (#[trigger] deployments@[j]).target@ == target@
                        && deployments@[j].signature@ == signature@,
            decreases deployments@.len() - k,
        {
            if !(deployments[k].target == target && deployments[k].signature == signature) {
                return None;
            }
            k += 1;
        }
        Some(MultiChainSequence { deployments, target, signature })
    }
}

/// In a complete, well-formed record there are as many hashes and receipts
/// as transactions, and the receipt at each position carries the hash at
/// that position.
pub proof fn lemma_complete_record(sequence: &ScriptSequence)
    requires
        sequence.wf(),
        sequence.complete(),
    ensures
        sequence.pending@.len() == sequence.transactions@.len(),
        sequence.receipts@.len() == sequence.transactions@.len(),
        forall|i: int|
            0 <= i < sequence.transactions@.len() ==> sequence.pending@[i] == (
            #[trigger] sequence.receipts@[i]).transaction_hash,
{
}

/// Progress adds up: a record advanced twice is the record advanced once by
/// both lots of hashes and receipts, one after the other.
pub proof fn lemma_advance_twice(
    start: &ScriptSequence,
    middle: &ScriptSequence,
    end: &ScriptSequence,
    first_hashes: Seq<TxHash>,
    first_receipts: Seq<Receipt>,
    more_hashes: Seq<TxHash>,
    more_receipts: Seq<Receipt>,
)
    requires
        middle.advanced_by(start, first_hashes, first_receipts),
        end.advanced_by(middle, more_hashes, more_receipts),
    ensures
        end.advanced_by(start, first_hashes + more_hashes, first_receipts + more_receipts),
{
    assert(end.pending@ =~= start.pending@ + (first_hashes + more_hashes));
    assert(end.receipts@ =~= start.receipts@ + (first_receipts + more_receipts));
}

/// A run that stops after the first `done` transactions and is resumed for
/// the rest ends with the same transactions, hashes and receipts as a run
/// that goes through without a stop, where the chain answers both alike.
pub proof fn lemma_resume_reaches_same_record(
    start: &ScriptSequence,
    interrupted: &ScriptSequence,
    resumed: &ScriptSequence,
    uninterrupted: &ScriptSequence,
    hashes: Seq<TxHash>,
    receipts: Seq<Receipt>,
    done: int,
)
    requires
        0 <= done <= hashes.len(),
        hashes.len() == receipts.len(),
        interrupted.advanced_by(start, hashes.take(done), receipts.take(done)),
        resumed.advanced_by(interrupted, hashes.skip(done), receipts.skip(done)),
        uninterrupted.advanced_by(start, hashes, receipts),
    ensures
        resumed.same_progress(uninterrupted),
        resumed.advanced_by(start, hashes, receipts),
{
    lemma_advance_twice(
        start,
        interrupted,
        resumed,
        hashes.take(done),
        receipts.take(done),
        hashes.skip(done),
        receipts.skip(done),
    );
    assert(hashes.take(done) + hashes.skip(done) =~= hashes);
    assert(receipts.take(done) + receipts.skip(done) =~= receipts);
}

} // verus!
