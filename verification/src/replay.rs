//! A run against outcomes that are known beforehand: what the endpoint
//! answers is taken from a list instead of being asked for. This is how a run
//! is rehearsed, and it shows where a run ends when nothing goes wrong.

use vstd::prelude::*;
use crate::engine::{Action, Broadcaster, Event, Phase};
use crate::fees::{query_for, FeeQuery, FeeSnapshot};
use crate::primitives::TxHash;
use crate::sequence::{lemma_advance_twice, Receipt};

verus! {

/// What the endpoint answers during a run.
#[derive(Clone, Debug, PartialEq, Eq)]
pub struct Outcomes {
    /// The fees that it reports.
    pub fees: FeeSnapshot,
    /// The hashes of the transactions that are sent, in the order of the
    /// transactions.
    pub hashes: Vec<TxHash>,
    /// The receipts that arrive, in the order of the hashes without one.
    pub receipts: Vec<Receipt>,
}

/// The items of a list from one position up to another.
fn part<T: Copy>(items: &Vec<T>, from: usize, count: usize) -> (part: Vec<T>)
    ensures
        from <= items@.len() ==> part@ == items@.subrange(
            from as int,
            if items@.len() - from < count {
                items@.len() as int
            } else {
                from + count
            },
        ),
        from > items@.len() ==> part@.len() == 0,
{
    let mut part: Vec<T> = Vec::new();
    if from > items.len() {
        return part;
    }
    let end = if items.len() - from < count {
        items.len()
    } else {
        from + count
    };
    let mut i: usize = from;
    assert(items@.subrange(from as int, from as int) =~= Seq::<T>::empty());
    while i < end
        invariant
            from <= i <= end <= items@.len(),
            part@ == items@.subrange(from as int, i as int),
        decreases end - i,
    {
        part.push(items[i]);
        assert(items@.subrange(from as int, i + 1) =~= items@.subrange(from as int, i as int).push(
            items@[i as int],
        ));
        i += 1;
    }
    part
}

/// How far a phase is from the end of a run when nothing more is recorded.
pub open spec fn rank(phase: Phase) -> nat {
    match phase {
        Phase::Finished(_) => 0,
        Phase::Failing(_) => 1,
        Phase::Resuming | Phase::Sending | Phase::Confirming => 2,
        Phase::Pricing | Phase::Checkpoint | Phase::Closing => 3,
    }
}

impl Broadcaster {
    /// The run has not failed.
    pub open spec fn healthy(&self) -> bool {
        match self.phase {
            Phase::Failing(_) => false,
            Phase::Finished(Some(_)) => false,
            _ => true,
        }
    }

    /// Every transaction that is still to be sent can be given its plan
    /// under these fees, and the fees are of the kind that the run asks for.
    pub open spec fn can_price(&self, fees: FeeSnapshot) -> bool {
        (self.phase is Resuming || self.phase is Pricing) && self.hashes() < self.total() ==> {
            &&& query_for(self.sequence.transactions@[self.hashes()]@.transaction.shape())
                == FeeQuery::FeeMarket ==> fees is FeeMarket
            &&& forall|i: int|
                self.hashes() <= i < self.total() ==> (#[trigger] self.finalized(i, fees)) is Ok
        }
    }

    /// The outcomes hold a hash for every transaction without one and a
    /// receipt for every transaction without one, and each receipt is that of
    /// the hash at its position.
    pub open spec fn answered_by(&self, outcomes: &Outcomes) -> bool {
        let all = self.sequence.pending@ + outcomes.hashes@;
        &&& outcomes.hashes@.len() == self.total() - self.hashes()
        &&& outcomes.receipts@.len() == self.total() - self.mined()
        &&& forall|i: int|
            0 <= i < outcomes.receipts@.len() ==> (#[trigger] outcomes.receipts@[i]).transaction_hash
                == all[self.mined() + i]
    }

    /// Runs the engine to its end against outcomes that are known
    /// beforehand: every query for fees is answered with the fees of the
    /// outcomes, every submission with the next hashes, every wait for receipts
    /// with the next receipts, and every save succeeds.
    ///
    /// The run ends, and what it has recorded by then is a part of the
    /// outcomes, in their order. A run that is healthy, can be priced and finds
    /// all its answers in the outcomes ends well, with all of them recorded.
    pub fn replay(&mut self, outcomes: &Outcomes) -> (end: Action)
        requires
            old(self).wf(),
        ensures
            final(self).wf(),
            final(self).same_run(old(self)),
            end == final(self).expected_action(),
            end is Done || end is Fail,
            final(self).hashes() - old(self).hashes() <= outcomes.hashes@.len(),
            final(self).mined() - old(self).mined() <= outcomes.receipts@.len(),
            final(self).sequence.advanced_by(
                &old(self).sequence,
                outcomes.hashes@.take(final(self).hashes() - old(self).hashes()),
                outcomes.receipts@.take(final(self).mined() - old(self).mined()),
            ),
            old(self).healthy() && old(self).can_price(outcomes.fees) && old(self).answered_by(
                outcomes,
            ) ==> end is Done && final(self).sequence.advanced_by(
                &old(self).sequence,
                outcomes.hashes@,
                outcomes.receipts@,
            ),
    {
        let first_hash = self.sequence.pending.len();
        let first_receipt = self.sequence.receipts.len();
        let ghost good = self.healthy() && self.can_price(outcomes.fees) && self.answered_by(outcomes);
        let mut action = self.current_action();
        proof {
            assert(self.sequence.pending@ =~= old(self).sequence.pending@ + outcomes.hashes@.take(0));
            assert(self.sequence.receipts@ =~= old(self).sequence.receipts@
                + outcomes.receipts@.take(0));
        }
        while !ends(&action)
            invariant
                self.wf(),
                self.same_run(old(self)),
                action == self.expected_action(),
                first_hash == old(self).hashes(),
                first_receipt == old(self).mined(),
                first_hash <= self.hashes(),
                first_receipt <= self.mined(),
                self.hashes() - first_hash <= outcomes.hashes@.len(),
                self.mined() - first_receipt <= outcomes.receipts@.len(),
                self.sequence.advanced_by(
                    &old(self).sequence,
                    outcomes.hashes@.take(self.hashes() - first_hash),
                    outcomes.receipts@.take(self.mined() - first_receipt),
                ),
                good == (old(self).healthy() && old(self).can_price(outcomes.fees) && old(
                    self,
                ).answered_by(outcomes)),
                good ==> self.healthy(),
                self.phase is Resuming || self.phase is Pricing ==> self.hashes() == first_hash && (
                old(self).phase is Resuming || old(self).phase is Pricing),
            decreases 2 * self.total() - self.hashes() - self.mined(), rank(self.phase),
        {
            let ghost before = *self;
            let event = match action {
                Action::QueryFees(_) => Event::Fees(outcomes.fees),
                Action::Send { first, count, .. } => Event::Sent {
                    hashes: part(&outcomes.hashes, first - first_hash, count),
                    error: None,
                },
                Action::PollReceipts { first, count } => Event::Receipts(
                    part(&outcomes.receipts, first - first_receipt, count),
                ),
                _ => Event::Saved,
            };
            let ghost given = event;
            action = self.step(event);
            proof {
                let sent = outcomes.hashes@.take(before.hashes() - first_hash);
                let got = outcomes.receipts@.take(before.mined() - first_receipt);
                let more_sent = outcomes.hashes@.subrange(
                    before.hashes() - first_hash,
                    self.hashes() - first_hash,
                );
                let more_got = outcomes.receipts@.subrange(
                    before.mined() - first_receipt,
                    self.mined() - first_receipt,
                );
                assert(self.sequence.advanced_by(&before.sequence, more_sent, more_got)) by {
                    assert(self.sequence.pending@ =~= before.sequence.pending@ + more_sent);
                    assert(self.sequence.receipts@ =~= before.sequence.receipts@ + more_got);
                }
                lemma_advance_twice(
                    &old(self).sequence,
                    &before.sequence,
                    &self.sequence,
                    sent,
                    got,
                    more_sent,
                    more_got,
                );
                assert(sent + more_sent =~= outcomes.hashes@.take(self.hashes() - first_hash));
                assert(got + more_got =~= outcomes.receipts@.take(self.mined() - first_receipt));
                if good {
                    let all = old(self).sequence.pending@ + outcomes.hashes@;
                    assert(old(self).answered_by(outcomes));
                    assert(forall|i: int|
                        0 <= i < before.hashes() ==> before.sequence.pending@[i] == all[i]);
                    match before.phase {
                        Phase::Resuming | Phase::Confirming => {
                            let offset = before.mined() - first_receipt;
                            let taken = self.mined() - before.mined();
                            let fed = given->Receipts_0@;
                            assert(fed.len() == before.hashes() - before.mined());
                            if taken < fed.len() {
                                assert(fed[taken] == outcomes.receipts@[offset + taken]);
                                assert(outcomes.receipts@[offset + taken].transaction_hash
                                    == all[first_receipt + (offset + taken)]);
                            }
                        },
                        Phase::Pricing => {
                            assert(before.start == before.hashes());
                            assert(forall|i: int|
                                before.hashes() <= i < before.total() ==> (
                                #[trigger] before.finalized(i, outcomes.fees)) == old(
                                    self,
                                ).finalized(i, outcomes.fees));
                        },
                        Phase::Sending => {
                            let fed = given->Sent_hashes@;
                            assert(fed.len() == before.asked_to_send());
                        },
                        _ => {},
                    }
                    assert(self.healthy());
                }
            }
        }
        proof {
            if good {
                assert(outcomes.hashes@.take(outcomes.hashes@.len() as int) =~= outcomes.hashes@);
                assert(outcomes.receipts@.take(outcomes.receipts@.len() as int)
                    =~= outcomes.receipts@);
            }
        }
        action
    }
}

/// Whether an action ends a run.
pub fn ends(action: &Action) -> (over: bool)
    ensures
        over == (*action is Done || *action is Fail),
{
    match action {
        Action::Done => true,
        Action::Fail(_) => true,
        _ => false,
    }
}

} // verus!
