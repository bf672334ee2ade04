//! The broadcaster: drives one sequence to completion. It decides what has
//! to happen next, and whoever runs it does that and reports back.

use vstd::prelude::*;
use crate::args::ScriptArgs;
use crate::error::BroadcastError;
use crate::fees::{fee_query, fill_fees, filled, query_for, FeeQuery, FeeSnapshot};
use crate::kind::{is_sequential, sequential, AddressSet, SendTransactionsKind};
use crate::primitives::{Address, TxHash};
use crate::send::{plan_send, planned_send, SendPlan, SendPlanView};
use crate::sequence::{lemma_complete_record, Receipt, ScriptSequence};
use crate::transaction::TxWithMetadata;
use crate::uint::U256;

verus! {

/// How many transactions are sent before their receipts are awaited and the
/// sequence is saved.
pub const BATCH_SIZE: usize = 100;

/// How many submissions of a batch are in flight at once.
pub const SEND_WIDTH: usize = 7;

/// What the engine asks for.
#[derive(Clone, Copy, Debug, PartialEq, Eq)]
pub enum Action {
    /// Ask the endpoint for its fees, once.
    QueryFees(FeeQuery),
    /// Submit the transactions at `first .. first + count` by their plans,
    /// at most `width` at a time, and report their hashes in this order.
    Send { first: usize, count: usize, width: usize },
    /// Wait for the receipts of the hashes at `first .. first + count`, and
    /// report them in this order.
    PollReceipts { first: usize, count: usize },
    /// Write the sequence to disk.
    Save,
    /// Every transaction has its receipt.
    Done,
    /// The run has failed.
    Fail(BroadcastError),
}

/// What happened to the last thing the engine asked for.
#[derive(Clone, Debug, PartialEq, Eq)]
pub enum Event {
    /// The fees that the endpoint reported.
    Fees(FeeSnapshot),
    /// The hashes of the transactions that were submitted, in the order of
    /// the transactions, and the error that stopped the rest, if any.
    Sent { hashes: Vec<TxHash>, error: Option<BroadcastError> },
    /// The receipts that arrived before the deadline, in the order of the
    /// hashes they were asked for.
    Receipts(Vec<Receipt>),
    Saved,
    SaveFailed,
}

/// What the engine is waiting for.
#[derive(Clone, Copy, Debug, PartialEq, Eq)]
pub enum Phase {
    /// For the receipts of hashes that an earlier run left without one.
    Resuming,
    /// For the fees.
    Pricing,
    /// For the hashes of the transactions that are being submitted.
    Sending,
    /// For the sequence to be saved with the hashes of a batch.
    Checkpoint,
    /// For the receipts of the hashes that have none.
    Confirming,
    /// For the sequence to be saved at the end of a batch.
    Closing,
    /// For the sequence to be saved before the error is reported.
    Failing(BroadcastError),
    /// For nothing: the run is over, with an error or without.
    Finished(Option<BroadcastError>),
}

/// One run over one sequence.
#[derive(Clone, Debug)]
pub struct Broadcaster {
    pub sequence: ScriptSequence,
    pub kind: SendTransactionsKind,
    pub chain: u64,
    pub sequential: bool,
    pub with_gas_price: Option<U256>,
    pub priority_gas_price: Option<U256>,
    pub skip_simulation: bool,
    /// The position of the first transaction that this run sends.
    pub start: usize,
    /// The fees that the endpoint reported, once it has.
    pub fees: Option<FeeSnapshot>,
    /// The plans of the transactions from `start` on, once the fees are known.
    pub plans: Vec<SendPlan>,
    pub phase: Phase,
}

/// The senders of the transactions from position `from` on.
pub open spec fn tail_senders(transactions: Seq<TxWithMetadata>, from: int) -> Seq<Address> {
    Seq::new(
        (transactions.len() - from) as nat,
        |i: int| transactions[from + i]@.transaction.body().from,
    )
}

/// How many transactions a batch takes from position `index` on, where
/// batches of `BATCH_SIZE` are counted from `start`: up to the end of
/// the batch that holds `index`, or to the last transaction.
pub open spec fn batch_room(start: int, index: int, total: int) -> int {
    let to_boundary = BATCH_SIZE - (index - start) % (BATCH_SIZE as int);
    if total - index < to_boundary {
        total - index
    } else {
        to_boundary
    }
}

impl Broadcaster {
    pub open spec fn total(&self) -> int {
        self.sequence.transactions.len() as int
    }

    pub open spec fn hashes(&self) -> int {
        self.sequence.pending.len() as int
    }

    pub open spec fn mined(&self) -> int {
        self.sequence.receipts.len() as int
    }

    /// The plan of the transaction at `index` under a fee snapshot: the
    /// sender has to be able to send, the transaction gets the chain id of the
    /// run and its fees, and the rest is decided as for any submission.
    pub open spec fn finalized(&self, index: int, snapshot: FeeSnapshot) -> Result<
        SendPlanView,
        BroadcastError,
    > {
        let tx = self.sequence.transactions@[index]@;
        match self.kind.kind_of(tx.transaction.body().from) {
            Err(error) => Err(BroadcastError::Config(error)),
            Ok(kind) => match filled(
                tx.transaction.with_chain_id(self.chain),
                self.with_gas_price,
                self.priority_gas_price,
                snapshot,
            ) {
                Err(error) => Err(error),
                Ok(transaction) => Ok(
                    planned_send(
                        index as usize,
                        transaction,
                        kind,
                        self.sequential,
                        self.chain,
                        self.skip_simulation,
                        tx.is_fixed_gas_limit,
                    ),
                ),
            },
        }
    }

    /// The fees are known and every transaction from `start` on has its plan.
    pub open spec fn priced(&self) -> bool {
        &&& self.fees is Some
        &&& self.start <= self.total()
        &&& self.plans@.len() == self.total() - self.start
        &&& forall|j: int|
            0 <= j < self.plans@.len() ==> self.finalized(self.start + j, self.fees->0) == Ok::<
                SendPlanView,
                BroadcastError,
            >((#[trigger] self.plans@[j])@)
    }

    pub open spec fn wf(&self) -> bool {
        &&& self.sequence.wf()
        &&& self.kind.wf()
        &&& match self.phase {
            Phase::Resuming => self.mined() < self.hashes(),
            Phase::Pricing => self.mined() == self.hashes() && self.hashes() < self.total()
                && self.start == self.mined(),
            Phase::Sending => self.priced() && self.mined() == self.hashes() && self.hashes()
                < self.total() && self.start <= self.mined(),
            Phase::Checkpoint => self.priced() && !self.sequential && self.mined() < self.hashes()
                && self.start <= self.mined(),
            Phase::Confirming => self.priced() && self.mined() < self.hashes() && self.start
                <= self.mined(),
            Phase::Closing => self.mined() == self.hashes() && (self.hashes() == self.total() || (
                self.priced() && self.start <= self.mined())),
            Phase::Failing(_) => true,
            Phase::Finished(Some(_)) => true,
            Phase::Finished(None) => self.sequence.complete(),
        }
    }

    /// What the engine is waiting for, as the request that it made.
    pub open spec fn expected_action(&self) -> Action {
        match self.phase {
            Phase::Resuming | Phase::Confirming => Action::PollReceipts {
                first: self.mined() as usize,
                count: (self.hashes() - self.mined()) as usize,
            },
            Phase::Pricing => Action::QueryFees(
                query_for(self.sequence.transactions@[self.hashes()]@.transaction.shape()),
            ),
            Phase::Sending => if self.sequential {
                Action::Send { first: self.hashes() as usize, count: 1, width: 1 }
            } else {
                Action::Send {
                    first: self.hashes() as usize,
                    count: batch_room(self.start as int, self.hashes(), self.total()) as usize,
                    width: SEND_WIDTH,
                }
            },
            Phase::Checkpoint | Phase::Closing | Phase::Failing(_) => Action::Save,
            Phase::Finished(None) => Action::Done,
            Phase::Finished(Some(error)) => Action::Fail(error),
        }
    }

    /// The settings of the run are those of `before`.
    pub open spec fn same_run(&self, before: &Broadcaster) -> bool {
        &&& self.kind == before.kind
        &&& self.chain == before.chain
        &&& self.sequential == before.sequential
        &&& self.with_gas_price == before.with_gas_price
        &&& self.priority_gas_price == before.priority_gas_price
        &&& self.skip_simulation == before.skip_simulation
    }

    /// The fees and the plans are those of `before`.
    pub open spec fn same_plans(&self, before: &Broadcaster) -> bool {
        &&& self.fees == before.fees
        &&& self.plans == before.plans
    }

    /// The record took the first receipts of `receipts`, up to the first
    /// that is not that of the next hash without one.
    pub open spec fn took_receipts(&self, before: &Broadcaster, receipts: Seq<Receipt>) -> bool {
        let taken = self.mined() - before.mined();
        &&& 0 <= taken <= receipts.len()
        &&& self.sequence.advanced_by(&before.sequence, seq![], receipts.take(taken))
        &&& (taken == receipts.len() || self.mined() == self.hashes()
            || receipts[taken].transaction_hash != self.sequence.pending@[self.mined()])
    }

    /// The record took the first hashes of `hashes`, as many as were asked for.
    pub open spec fn took_hashes(&self, before: &Broadcaster, hashes: Seq<TxHash>, asked: int) -> bool {
        let taken = self.hashes() - before.hashes();
        &&& 0 <= taken <= hashes.len()
        &&& taken <= asked
        &&& (taken == hashes.len() || taken == asked)
        &&& self.sequence.advanced_by(&before.sequence, hashes.take(taken), seq![])
    }

    /// The event was not the one that the engine was waiting for: nothing is
    /// recorded and the run fails.
    pub open spec fn rejected(&self, before: &Broadcaster) -> bool {
        &&& self.sequence == before.sequence
        &&& self.start == before.start
        &&& self.same_plans(before)
        &&& self.phase == Phase::Failing(BroadcastError::UnexpectedEvent)
    }

    /// Nothing is recorded, the plans stay, and the engine waits for
    /// something else.
    pub open spec fn moved_on(&self, before: &Broadcaster, phase: Phase) -> bool {
        &&& self.sequence == before.sequence
        &&& self.start == before.start
        &&& self.same_plans(before)
        &&& self.phase == phase
    }

    /// How many transactions the last request asked to send.
    pub open spec fn asked_to_send(&self) -> int {
        if self.sequential {
            1
        } else {
            batch_room(self.start as int, self.hashes(), self.total())
        }
    }

    /// What receipts lead to: a failure while a hash is still without one,
    /// else the next submission of a sequential run inside a batch, else the
    /// save that closes the batch.
    pub open spec fn after_receipts(&self) -> Phase {
        if self.mined() < self.hashes() {
            Phase::Failing(BroadcastError::PendingReceiptsIncomplete)
        } else if self.sequential && self.mined() < self.total() && (self.mined() - self.start) % (
        BATCH_SIZE as int) != 0 {
            Phase::Sending
        } else {
            Phase::Closing
        }
    }

    /// What the fees lead to. A run whose first transaction asks for the
    /// fee-market pair fails where the endpoint reported none. Else every
    /// transaction from `start` on gets its plan and the first batch is sent,
    /// or the run fails with the error of the first transaction that cannot
    /// be given one.
    pub open spec fn priced_from(&self, before: &Broadcaster, snapshot: FeeSnapshot) -> bool {
        let first = before.sequence.transactions@[before.hashes()]@.transaction.shape();
        if query_for(first) == FeeQuery::FeeMarket && !(snapshot is FeeMarket) {
            self.same_plans(before) && self.phase == Phase::Failing(
                BroadcastError::FeeMarketUnsupported,
            )
        } else {
            ||| (self.phase == Phase::Sending && self.fees == Some(snapshot))
            ||| self.same_plans(before) && exists|i: int|
                before.start <= i < before.total() && #[trigger] before.finalized(i, snapshot) is Err
                    && self.phase == Phase::Failing(before.finalized(i, snapshot)->Err_0)
                    && forall|j: int|
                    before.start <= j < i ==> #[trigger] before.finalized(j, snapshot) is Ok
        }
    }

    /// This state is what `before` becomes on `event`.
    pub open spec fn stepped_from(&self, before: &Broadcaster, event: &Event) -> bool {
        &&& self.same_run(before)
        &&& match before.phase {
            Phase::Finished(_) => *self == *before,
            Phase::Failing(error) => self.moved_on(before, Phase::Finished(Some(error))),
            Phase::Resuming => match event {
                Event::Receipts(receipts) => {
                    &&& self.took_receipts(before, receipts@)
                    &&& self.same_plans(before)
                    &&& if self.mined() < self.hashes() {
                        self.start == before.start && self.phase == Phase::Failing(
                            BroadcastError::PendingReceiptsIncomplete,
                        )
                    } else if self.hashes() == self.total() {
                        self.start == before.start && self.phase == Phase::Closing
                    } else {
                        self.start == self.mined() && self.phase == Phase::Pricing
                    }
                },
                _ => self.rejected(before),
            },
            Phase::Pricing => match event {
                Event::Fees(snapshot) => {
                    &&& self.sequence == before.sequence
                    &&& self.start == before.start
                    &&& self.priced_from(before, *snapshot)
                },
                _ => self.rejected(before),
            },
            Phase::Sending => match event {
                Event::Sent { hashes, error } => {
                    &&& self.took_hashes(before, hashes@, before.asked_to_send())
                    &&& self.start == before.start
                    &&& self.same_plans(before)
                    &&& self.phase == (if *error is Some {
                        Phase::Failing(error->0)
                    } else if self.hashes() - before.hashes() < before.asked_to_send() {
                        Phase::Failing(BroadcastError::UnexpectedEvent)
                    } else if self.sequential {
                        Phase::Confirming
                    } else {
                        Phase::Checkpoint
                    })
                },
                _ => self.rejected(before),
            },
            Phase::Checkpoint => match event {
                Event::Saved => self.moved_on(before, Phase::Confirming),
                Event::SaveFailed => self.moved_on(
                    before,
                    Phase::Finished(Some(BroadcastError::Persist)),
                ),
                _ => self.rejected(before),
            },
            Phase::Confirming => match event {
                Event::Receipts(receipts) => {
                    &&& self.took_receipts(before, receipts@)
                    &&& self.start == before.start
                    &&& self.same_plans(before)
                    &&& self.phase == self.after_receipts()
                },
                _ => self.rejected(before),
            },
            Phase::Closing => match event {
                Event::Saved => self.moved_on(
                    before,
                    if self.hashes() == self.total() {
                        Phase::Finished(None)
                    } else {
                        Phase::Sending
                    },
                ),
                Event::SaveFailed => self.moved_on(
                    before,
                    Phase::Finished(Some(BroadcastError::Persist)),
                ),
                _ => self.rejected(before),
            },
        }
    }

    /// The plan of the transaction at `index` under a fee snapshot.
    fn finalize(&self, index: usize, snapshot: FeeSnapshot) -> (result: Result<
        SendPlan,
        BroadcastError,
    >)
        requires
            index < self.total(),
        ensures
            result is Ok ==> self.finalized(index as int, snapshot) == Ok::<
                SendPlanView,
                BroadcastError,
            >(result->Ok_0@),
            result is Err ==> self.finalized(index as int, snapshot) == Err::<
                SendPlanView,
                BroadcastError,
            >(result->Err_0),
    {
        let tx = &self.sequence.transactions[index];
        let from = tx.transaction.from();
        match self.kind.for_sender(&from) {
            Err(error) => Err(BroadcastError::Config(error)),
            Ok(kind) => {
                let transaction = tx.transaction.duplicate().with_chain_id(self.chain);
                match fill_fees(
                    transaction,
                    self.with_gas_price,
                    self.priority_gas_price,
                    snapshot,
                ) {
                    Err(error) => Err(error),
                    Ok(with_fees) => Ok(
                        plan_send(
                            index,
                            with_fees,
                            kind,
                            self.sequential,
                            self.chain,
                            self.skip_simulation,
                            tx.is_fixed_gas_limit,
                        ),
                    ),
                }
            },
        }
    }

    /// The plans of the transactions from `start` on, or the error of the
    /// first that cannot be given one.
    fn build_plans(&self, snapshot: FeeSnapshot) -> (result: Result<Vec<SendPlan>, BroadcastError>)
        requires
            self.start <= self.total(),
        ensures
            result is Ok ==> result->Ok_0@.len() == self.total() - self.start && forall|j: int|
                0 <= j < result->Ok_0@.len() ==> self.finalized(self.start + j, snapshot) == Ok::<
                    SendPlanView,
                    BroadcastError,
                >((#[trigger] result->Ok_0@[j])@),
            result is Err ==> exists|i: int|
                self.start <= i < self.total() && #[trigger] self.finalized(i, snapshot) is Err
                    && result->Err_0 == self.finalized(i, snapshot)->Err_0 && forall|j: int|
                    self.start <= j < i ==> #[trigger] self.finalized(j, snapshot) is Ok,
    {
        let mut plans: Vec<SendPlan> = Vec::new();
        let mut index: usize = self.start;
        while index < self.sequence.transactions.len()
            invariant
                self.start <= index <= self.total(),
                plans@.len() == index - self.start,
                forall|j: int|
                    0 <= j < plans@.len() ==> self.finalized(self.start + j, snapshot) == Ok::<
                        SendPlanView,
                        BroadcastError,
                    >((#[trigger] plans@[j])@),
            decreases self.total() - index,
        {
            match self.finalize(index, snapshot) {
                Err(error) => {
                    assert forall|j: int| self.start <= j < index implies #[trigger] self.finalized(
                        j,
                        snapshot,
                    ) is Ok by {
                        let k = j - self.start;
                        assert(self.finalized(self.start + k, snapshot) == Ok::<
                            SendPlanView,
                            BroadcastError,
                        >(plans@[k]@));
                    }
                    assert(self.finalized(index as int, snapshot) is Err);
                    return Err(error);
                },
                Ok(plan) => {
                    plans.push(plan);
                },
            }
            index += 1;
        }
        Ok(plans)
    }

    /// Takes in what happened to the last request and says what has to
    /// happen next.
    pub fn step(&mut self, event: Event) -> (action: Action)
        requires
            old(self).wf(),
        ensures
            final(self).wf(),
            final(self).stepped_from(old(self), &event),
            action == final(self).expected_action(),
    {
        match self.phase {
            Phase::Finished(_) => {},
            Phase::Failing(error) => {
                self.phase = Phase::Finished(Some(error));
            },
            Phase::Resuming => match &event {
                Event::Receipts(receipts) => {
                    let _ = self.sequence.add_receipts(receipts);
                    if self.sequence.receipts.len() < self.sequence.pending.len() {
                        self.phase = Phase::Failing(BroadcastError::PendingReceiptsIncomplete);
                    } else if self.sequence.pending.len() == self.sequence.transactions.len() {
                        self.phase = Phase::Closing;
                    } else {
                        self.start = self.sequence.receipts.len();
                        self.phase = Phase::Pricing;
                    }
                },
                _ => {
                    self.phase = Phase::Failing(BroadcastError::UnexpectedEvent);
                },
            },
            Phase::Pricing => match &event {
                Event::Fees(snapshot) => {
                    let first = self.sequence.transactions[self.sequence.pending.len()].transaction.shape();
                    let answered = match fee_query(first) {
                        FeeQuery::GasPrice => true,
                        FeeQuery::FeeMarket => match snapshot {
                            FeeSnapshot::FeeMarket { .. } => true,
                            _ => false,
                        },
                    };
                    if !answered {
                        self.phase = Phase::Failing(BroadcastError::FeeMarketUnsupported);
                    } else {
                        match self.build_plans(*snapshot) {
                            Ok(plans) => {
                                self.plans = plans;
                                self.fees = Some(*snapshot);
                                self.phase = Phase::Sending;
                                assert(self.priced()) by {
                                    assert forall|j: int| 0 <= j < self.plans@.len() implies self.finalized(
                                        self.start + j,
                                        self.fees->0,
                                    ) == Ok::<SendPlanView, BroadcastError>(
                                        (#[trigger] self.plans@[j])@,
                                    ) by {
                                        assert(self.finalized(self.start + j, *snapshot) == old(
                                            self,
                                        ).finalized(self.start + j, *snapshot));
                                    }
                                }
                            },
                            Err(error) => {
                                self.phase = Phase::Failing(error);
                            },
                        }
                    }
                },
                _ => {
                    self.phase = Phase::Failing(BroadcastError::UnexpectedEvent);
                },
            },
            Phase::Sending => match &event {
                Event::Sent { hashes, error } => {
                    let asked = match self.current_action() {
                        Action::Send { count, .. } => count,
                        _ => 0,
                    };
                    let taken = self.sequence.add_hashes(hashes, asked);
                    self.phase = match error {
                        Some(failure) => Phase::Failing(*failure),
                        None => if taken < asked {
                            Phase::Failing(BroadcastError::UnexpectedEvent)
                        } else if self.sequential {
                            Phase::Confirming
                        } else {
                            Phase::Checkpoint
                        },
                    };
                },
                _ => {
                    self.phase = Phase::Failing(BroadcastError::UnexpectedEvent);
                },
            },
            Phase::Checkpoint => match &event {
                Event::Saved => {
                    self.phase = Phase::Confirming;
                },
                Event::SaveFailed => {
                    self.phase = Phase::Finished(Some(BroadcastError::Persist));
                },
                _ => {
                    self.phase = Phase::Failing(BroadcastError::UnexpectedEvent);
                },
            },
            Phase::Confirming => match &event {
                Event::Receipts(receipts) => {
                    let _ = self.sequence.add_receipts(receipts);
                    let mined = self.sequence.receipts.len();
                    if mined < self.sequence.pending.len() {
                        self.phase = Phase::Failing(BroadcastError::PendingReceiptsIncomplete);
                    } else if self.sequential && mined < self.sequence.transactions.len() && (mined
                        - self.start) % BATCH_SIZE != 0 {
                        self.phase = Phase::Sending;
                    } else {
                        self.phase = Phase::Closing;
                    }
                },
                _ => {
                    self.phase = Phase::Failing(BroadcastError::UnexpectedEvent);
                },
            },
            Phase::Closing => match &event {
                Event::Saved => {
                    if self.sequence.pending.len() == self.sequence.transactions.len() {
                        self.phase = Phase::Finished(None);
                    } else {
                        self.phase = Phase::Sending;
                    }
                },
                Event::SaveFailed => {
                    self.phase = Phase::Finished(Some(BroadcastError::Persist));
                },
                _ => {
                    self.phase = Phase::Failing(BroadcastError::UnexpectedEvent);
                },
            },
        }
        self.current_action()
    }

    /// The request that the engine is waiting on.
    pub fn current_action(&self) -> (action: Action)
        requires
            self.wf(),
        ensures
            action == self.expected_action(),
    {
        let hashes = self.sequence.pending.len();
        let mined = self.sequence.receipts.len();
        let total = self.sequence.transactions.len();
        match self.phase {
            Phase::Resuming => Action::PollReceipts { first: mined, count: hashes - mined },
            Phase::Confirming => Action::PollReceipts { first: mined, count: hashes - mined },
            Phase::Pricing => Action::QueryFees(
                fee_query(self.sequence.transactions[hashes].transaction.shape()),
            ),
            Phase::Sending => {
                if self.sequential {
                    Action::Send { first: hashes, count: 1, width: 1 }
                } else {
                    let to_boundary = BATCH_SIZE - (hashes - self.start) % BATCH_SIZE;
                    let count = if total - hashes < to_boundary {
                        total - hashes
                    } else {
                        to_boundary
                    };
                    Action::Send { first: hashes, count, width: SEND_WIDTH }
                }
            },
            Phase::Checkpoint => Action::Save,
            Phase::Closing => Action::Save,
            Phase::Failing(_) => Action::Save,
            Phase::Finished(None) => Action::Done,
            Phase::Finished(Some(error)) => Action::Fail(error),
        }
    }

    /// The plan of the transaction at `index`, once the fees are known and
    /// where the run sends that transaction.
    pub fn plan(&self, index: usize) -> (plan: Option<&SendPlan>)
        requires
            self.wf(),
        ensures
            plan is Some <==> self.start <= index && index - self.start < self.plans@.len(),
            plan is Some ==> *plan->0 == self.plans@[index - self.start],
            plan is Some && self.priced() ==> self.finalized(index as int, self.fees->0) == Ok::<
                SendPlanView,
                BroadcastError,
            >(plan->0@),
    {
        if index >= self.start && index - self.start < self.plans.len() {
            Some(&self.plans[index - self.start])
        } else {
            None
        }
    }
}

/// The senders of the transactions from position `from` on.
fn senders_from(transactions: &Vec<TxWithMetadata>, from: usize) -> (senders: Vec<Address>)
    requires
        from <= transactions@.len(),
    ensures
        senders@ == tail_senders(transactions@, from as int),
{
    let mut senders: Vec<Address> = Vec::new();
    let mut index: usize = from;
    while index < transactions.len()
        invariant
            from <= index <= transactions@.len(),
            senders@.len() == index - from,
            forall|j: int|
                0 <= j < senders@.len() ==> senders@[j] == transactions@[from
                    + j]@.transaction.body().from,
        decreases transactions@.len() - index,
    {
        senders.push(transactions[index].transaction.from());
        index += 1;
    }
    assert(senders@ =~= tail_senders(transactions@, from as int));
    senders
}

/// What a run over a sequence waits for first: nothing where every
/// transaction has its receipt, else the receipts of hashes that were left
/// without one, else the fees.
pub open spec fn first_phase(sequence: &ScriptSequence) -> Phase {
    if sequence.receipts@.len() == sequence.transactions@.len() {
        Phase::Finished(None)
    } else if sequence.receipts@.len() < sequence.pending@.len() {
        Phase::Resuming
    } else {
        Phase::Pricing
    }
}

impl ScriptArgs {
    /// Starts a run that sends the transactions which have no receipt yet.
    /// `chain` is the chain id that the endpoint reported, and `signers` are
    /// the addresses that have a local signer.
    ///
    /// Where nothing is left to send, the run is over at once and no account
    /// is needed. Else the accounts are settled as `SendTransactionsKind::resolve`
    /// says for the senders of the transactions without a receipt, and the
    /// run fails before anything is sent where they cannot be.
    pub fn send_transactions(
        &self,
        deployment_sequence: ScriptSequence,
        chain: u64,
        signers: &Vec<Address>,
    ) -> (result: Result<Broadcaster, BroadcastError>)
        requires
            deployment_sequence.wf(),
        ensures
            result is Ok ==> ({
                let engine = result->Ok_0;
                &&& engine.wf()
                &&& engine.sequence == deployment_sequence
                &&& engine.chain == chain
                &&& engine.with_gas_price == self.with_gas_price
                &&& engine.priority_gas_price == self.priority_gas_price
                &&& engine.skip_simulation == self.skip_simulation
                &&& engine.sequential == sequential(
                    engine.kind.addresses().len(),
                    self.slow,
                    chain,
                )
                &&& engine.start == deployment_sequence.receipts@.len()
                &&& engine.fees is None
                &&& engine.plans@.len() == 0
                &&& engine.phase == first_phase(&deployment_sequence)
            }),
            deployment_sequence.complete() ==> result is Ok && result->Ok_0.kind.addresses()
                == Set::<Address>::empty(),
            !deployment_sequence.complete() && self.unlocked ==> (result is Ok
                <==> self.sender is Some),
            !deployment_sequence.complete() && self.unlocked && result is Ok
                ==> result->Ok_0.kind.is_unlocked() && result->Ok_0.kind.addresses()
                == tail_senders(
                deployment_sequence.transactions@,
                deployment_sequence.receipts@.len() as int,
            ).to_set().insert(self.sender->0),
            !deployment_sequence.complete() && self.unlocked && result is Err ==> result->Err_0
                == BroadcastError::Config(crate::error::ConfigError::MissingSender),
            !deployment_sequence.complete() && !self.unlocked ==> (result is Ok <==> tail_senders(
                deployment_sequence.transactions@,
                deployment_sequence.receipts@.len() as int,
            ).to_set().subset_of(signers@.to_set())),
            !deployment_sequence.complete() && !self.unlocked && result is Ok
                ==> !result->Ok_0.kind.is_unlocked() && result->Ok_0.kind.addresses()
                == signers@.to_set(),
            !deployment_sequence.complete() && !self.unlocked && result is Err ==> exists|i: int|
                #[trigger] crate::kind::is_first_unknown(
                    tail_senders(
                        deployment_sequence.transactions@,
                        deployment_sequence.receipts@.len() as int,
                    ),
                    signers@.to_set(),
                    i,
                ) && result->Err_0 == BroadcastError::Config(
                    crate::error::ConfigError::UnknownSigner {
                        address: tail_senders(
                            deployment_sequence.transactions@,
                            deployment_sequence.receipts@.len() as int,
                        )[i],
                    },
                ),
    {
        let mined = deployment_sequence.receipts.len();
        let kind = if mined == deployment_sequence.transactions.len() {
            SendTransactionsKind::Raw(AddressSet::new())
        } else {
            let senders = senders_from(&deployment_sequence.transactions, mined);
            match SendTransactionsKind::resolve(self.unlocked, self.sender, &senders, signers) {
                Ok(kind) => kind,
                Err(error) => {
                    return Err(BroadcastError::Config(error));
                },
            }
        };
        let sequential_broadcast = is_sequential(kind.signers_count(), self.slow, chain);
        let phase = if mined == deployment_sequence.transactions.len() {
            Phase::Finished(None)
        } else if mined < deployment_sequence.pending.len() {
            Phase::Resuming
        } else {
            Phase::Pricing
        };
        Ok(
            Broadcaster {
                sequence: deployment_sequence,
                kind,
                chain,
                sequential: sequential_broadcast,
                with_gas_price: self.with_gas_price,
                priority_gas_price: self.priority_gas_price,
                skip_simulation: self.skip_simulation,
                start: mined,
                fees: None,
                plans: Vec::new(),
                phase,
            },
        )
    }
}

/// A submission is asked for only when every hash has its receipt, and it
/// starts at the first transaction without a hash. A sequential run asks
/// for one transaction at a time, so that none is sent while an earlier one
/// lacks its receipt. A batched run asks for the transactions up to the end
/// of the batch, at most `BATCH_SIZE` of them, `SEND_WIDTH` at a time.
pub proof fn lemma_send_follows_receipts(engine: &Broadcaster, first: usize, count: usize, width: usize)
    requires
        engine.wf(),
        engine.expected_action() == (Action::Send { first, count, width }),
    ensures
        first == engine.mined(),
        first == engine.hashes(),
        1 <= count <= BATCH_SIZE,
        first + count <= engine.total(),
        engine.sequential ==> count == 1 && width == 1,
        !engine.sequential ==> width == SEND_WIDTH && (first + count == engine.total() || (first
            + count - engine.start) % (BATCH_SIZE as int) == 0),
{
    if !engine.sequential {
        let offset = engine.hashes() - engine.start;
        assert(offset == 100 * (offset / 100) + offset % 100);
        assert((100 * (offset / 100 + 1)) % 100 == 0) by (nonlinear_arith);
    }
}

/// The hashes of a batch are recorded in the order in which they were
/// reported: the hash at place `j` of the report becomes the hash of the
/// transaction `j` places after the first of the request.
pub proof fn lemma_hashes_keep_order(
    before: &Broadcaster,
    after: &Broadcaster,
    hashes: Vec<TxHash>,
    error: Option<BroadcastError>,
)
    requires
        before.wf(),
        before.phase == Phase::Sending,
        after.stepped_from(before, &(Event::Sent { hashes, error })),
    ensures
        after.hashes() - before.hashes() <= hashes@.len(),
        forall|j: int|
            0 <= j < after.hashes() - before.hashes() ==> #[trigger] after.sequence.pending@[
                before.hashes() + j] == hashes@[j],
        forall|i: int|
            0 <= i < before.hashes() ==> #[trigger] after.sequence.pending@[i]
                == before.sequence.pending@[i],
{
}

/// When the engine says that it is done, there are as many hashes and
/// receipts as transactions, and each receipt carries the hash at its position.
pub proof fn lemma_done_is_complete(engine: &Broadcaster)
    requires
        engine.wf(),
        engine.expected_action() == Action::Done,
    ensures
        engine.hashes() == engine.total(),
        engine.mined() == engine.total(),
        forall|i: int|
            0 <= i < engine.total() ==> engine.sequence.pending@[i] == (
            #[trigger] engine.sequence.receipts@[i]).transaction_hash,
{
    lemma_complete_record(&engine.sequence);
}

} // verus!
