//! How transactions are sent: through accounts that the endpoint holds
//! unlocked, or signed locally and sent raw.

use vstd::prelude::*;
use crate::chains::{has_batch_support, supports_batching};
use crate::error::ConfigError;
use crate::primitives::Address;

verus! {

/// A set of addresses, kept as a list in which no address occurs twice.
#[derive(Clone, Debug)]
pub struct AddressSet {
    pub items: Vec<Address>,
}

impl View for AddressSet {
    type V = Set<Address>;

    open spec fn view(&self) -> Set<Address> {
        self.items@.to_set()
    }
}

impl AddressSet {
    /// No address occurs twice in the list.
    pub open spec fn wf(&self) -> bool {
        self.items@.no_duplicates()
    }

    pub fn new() -> (set: AddressSet)
        ensures
            set.wf(),
            set@ == Set::<Address>::empty(),
    {
        let set = AddressSet { items: Vec::new() };
        assert(set.items@.to_set() =~= Set::<Address>::empty());
        set
    }

    pub fn contains(&self, address: &Address) -> (found: bool)
        ensures
            found == self@.contains(*address),
    {
        let mut i: usize = 0;
        while i < self.items.len()
            invariant
                i <= self.items.len(),
                forall|j: int| 0 <= j < i ==> self.items@[j] != *address,
            decreases self.items.len() - i,
        {
            if self.items[i].same(address) {
                assert(self.items@.contains(*address));
                return true;
            }
            i += 1;
        }
        false
    }

    /// Adds an address unless the set holds it already.
    pub fn insert(&mut self, address: Address)
        requires
            old(self).wf(),
        ensures
            final(self).wf(),
            final(self)@ == old(self)@.insert(address),
    {
        if !self.contains(&address) {
            self.items.push(address);
            assert(self.items@.to_set() =~= old(self).items@.to_set().insert(address)) by {
                assert forall|a: Address|
                    self.items@.contains(a) <==> (old(self).items@.contains(a) || a
                        == address) by {
                    if old(self).items@.contains(a) {
                        let k = choose|k: int|
                            0 <= k < old(self).items@.len() && old(self).items@[k] == a;
                        assert(self.items@[k] == a);
                    }
                    if a == address {
                        assert(self.items@[self.items@.len() - 1] == a);
                    }
                }
            }
        } else {
            assert(self@ =~= old(self)@.insert(address));
        }
    }

    /// Adds every address of a list.
    pub fn extend(&mut self, addresses: &Vec<Address>)
        requires
            old(self).wf(),
        ensures
            final(self).wf(),
            final(self)@ == old(self)@.union(addresses@.to_set()),
    {
        let mut i: usize = 0;
        assert(addresses@.take(0).to_set() =~= Set::<Address>::empty());
        assert(self@ =~= old(self)@.union(addresses@.take(0).to_set()));
        while i < addresses.len()
            invariant
                i <= addresses.len(),
                self.wf(),
                self@ == old(self)@.union(addresses@.take(i as int).to_set()),
            decreases addresses.len() - i,
        {
            self.insert(addresses[i]);
            assert(addresses@.take(i + 1) =~= addresses@.take(i as int).push(addresses@[i as int]));
            assert(addresses@.take(i + 1).to_set() =~= addresses@.take(i as int).to_set().insert(
                addresses@[i as int],
            )) by {
                addresses@.take(i as int).lemma_push_to_set_commute(addresses@[i as int]);
            }
            assert(self@ =~= old(self)@.union(addresses@.take(i + 1).to_set()));
            i += 1;
        }
        assert(addresses@.take(addresses.len() as int) =~= addresses@);
    }

    /// How many addresses the set holds.
    pub fn len(&self) -> (count: usize)
        requires
            self.wf(),
        ensures
            count == self@.len(),
    {
        proof {
            self.items@.unique_seq_to_set();
        }
        self.items.len()
    }
}

/// Position `i` holds the first of `senders` that is not among `known`.
pub open spec fn is_first_unknown(senders: Seq<Address>, known: Set<Address>, i: int) -> bool {
    &&& 0 <= i < senders.len()
    &&& !known.contains(senders[i])
    &&& forall|j: int| 0 <= j < i ==> known.contains(#[trigger] senders[j])
}

/// How to send a single transaction.
#[derive(Clone, Copy, Debug, PartialEq, Eq)]
pub enum SendTransactionKind {
    /// Through the endpoint, which holds the account unlocked.
    Unlocked(Address),
    /// Signed by the local signer of this address and sent raw.
    Raw(Address),
}

/// How to send all transactions of a run.
#[derive(Clone, Debug)]
pub enum SendTransactionsKind {
    /// Through the endpoint; the set holds the unlocked accounts.
    Unlocked(AddressSet),
    /// Signed locally; the set holds the addresses that have a signer.
    Raw(AddressSet),
}

impl SendTransactionsKind {
    pub open spec fn wf(&self) -> bool {
        match self {
            SendTransactionsKind::Unlocked(set) => set.wf(),
            SendTransactionsKind::Raw(set) => set.wf(),
        }
    }

    pub open spec fn is_unlocked(&self) -> bool {
        self is Unlocked
    }

    /// The accounts that can send.
    pub open spec fn addresses(&self) -> Set<Address> {
        match self {
            SendTransactionsKind::Unlocked(set) => set@,
            SendTransactionsKind::Raw(set) => set@,
        }
    }

    /// How a sender's transactions are sent, where the sender can send at all.
    pub open spec fn kind_of(&self, address: Address) -> Result<SendTransactionKind, ConfigError> {
        if self.addresses().contains(address) {
            if self.is_unlocked() {
                Ok(SendTransactionKind::Unlocked(address))
            } else {
                Ok(SendTransactionKind::Raw(address))
            }
        } else if self.is_unlocked() {
            Err(ConfigError::SenderNotUnlocked { address })
        } else {
            Err(ConfigError::UnknownSigner { address })
        }
    }

    /// The way to send the transactions of one sender.
    pub fn for_sender(&self, address: &Address) -> (kind: Result<SendTransactionKind, ConfigError>)
        ensures
            kind == self.kind_of(*address),
    {
        match self {
            SendTransactionsKind::Unlocked(unlocked) => {
                if !unlocked.contains(address) {
                    Err(ConfigError::SenderNotUnlocked { address: *address })
                } else {
                    Ok(SendTransactionKind::Unlocked(*address))
                }
            },
            SendTransactionsKind::Raw(wallets) => {
                if wallets.contains(address) {
                    Ok(SendTransactionKind::Raw(*address))
                } else {
                    Err(ConfigError::UnknownSigner { address: *address })
                }
            },
        }
    }

    /// How many accounts can send.
    pub fn signers_count(&self) -> (count: usize)
        requires
            self.wf(),
        ensures
            count == self.addresses().len(),
    {
        match self {
            SendTransactionsKind::Unlocked(unlocked) => unlocked.len(),
            SendTransactionsKind::Raw(signers) => signers.len(),
        }
    }

    /// Settles how a run sends. With `unlocked`, the configured sender and
    /// every address in `senders` count as unlocked, and a sender has to be
    /// configured. Without it, the accounts are those in `signers`, and every
    /// address in `senders` has to be among them: the first that is not is
    /// reported.
    pub fn resolve(
        unlocked: bool,
        sender: Option<Address>,
        senders: &Vec<Address>,
        signers: &Vec<Address>,
    ) -> (kind: Result<SendTransactionsKind, ConfigError>)
        ensures
            unlocked && sender is None ==> kind == Err::<SendTransactionsKind, ConfigError>(
                ConfigError::MissingSender,
            ),
            unlocked && sender is Some ==> kind is Ok && kind->Ok_0.is_unlocked()
                && kind->Ok_0.addresses() == senders@.to_set().insert(sender->0),
            !unlocked ==> (kind is Ok <==> senders@.to_set().subset_of(signers@.to_set())),
            !unlocked && kind is Ok ==> !kind->Ok_0.is_unlocked() && kind->Ok_0.addresses()
                == signers@.to_set(),
            !unlocked && kind is Err ==> exists|i: int|
                #[trigger] is_first_unknown(senders@, signers@.to_set(), i) && kind->Err_0 == (
                ConfigError::UnknownSigner { address: senders[i] }),
            kind is Ok ==> kind->Ok_0.wf(),
    {
        let mut set = AddressSet::new();
        if unlocked {
            match sender {
                None => Err(ConfigError::MissingSender),
                Some(configured) => {
                    set.insert(configured);
                    set.extend(senders);
                    assert(set@ =~= senders@.to_set().insert(configured));
                    Ok(SendTransactionsKind::Unlocked(set))
                },
            }
        } else {
            set.extend(signers);
            assert(set@ =~= signers@.to_set());
            let mut i: usize = 0;
            while i < senders.len()
                invariant
                    !unlocked,
                    i <= senders.len(),
                    set@ == signers@.to_set(),
                    forall|j: int| 0 <= j < i ==> signers@.to_set().contains(#[trigger] senders[j]),
                decreases senders.len() - i,
            {
                if !set.contains(&senders[i]) {
                    assert(senders@.to_set().contains(senders[i as int])) by {
                        assert(senders@.contains(senders[i as int]));
                    }
                    assert(is_first_unknown(senders@, signers@.to_set(), i as int));
                    return Err(ConfigError::UnknownSigner { address: senders[i] });
                }
                i += 1;
            }
            assert(senders@.to_set().subset_of(signers@.to_set())) by {
                assert forall|a: Address| senders@.to_set().contains(a) implies signers@.to_set().contains(
                    a,
                ) by {
                    let k = choose|k: int| 0 <= k < senders@.len() && senders@[k] == a;
                    assert(signers@.to_set().contains(senders[k]));
                }
            }
            Ok(SendTransactionsKind::Raw(set))
        }
    }
}

/// Whether each transaction has to be confirmed before the next is sent:
/// with more or fewer than one account there is no other way to keep their
/// order, the user may ask for it, and some chains accept no batches.
pub open spec fn sequential(signers: nat, slow: bool, chain: u64) -> bool {
    signers != 1 || slow || !supports_batching(chain)
}

/// Decides between sequential and batched submission.
pub fn is_sequential(signers: usize, slow: bool, chain: u64) -> (decision: bool)
    ensures
        decision == sequential(signers as nat, slow, chain),
{
    signers != 1 || slow || !has_batch_support(chain)
}

} // verus!
