use tx_broadcast::args::ScriptArgs;
use tx_broadcast::engine::{Action, Broadcaster, Event, Phase, BATCH_SIZE, SEND_WIDTH};
use tx_broadcast::error::{BroadcastError, ConfigError};
use tx_broadcast::fees::{FeeQuery, FeeSnapshot};
use tx_broadcast::kind::SendTransactionKind;
use tx_broadcast::primitives::{Address, TxHash};
use tx_broadcast::replay::{ends, Outcomes};
use tx_broadcast::send::{check_nonce, Signing};
use tx_broadcast::sequence::{Receipt, ScriptSequence};
use tx_broadcast::transaction::{FinalTransaction, TxBody, TxWithMetadata, ZkTransaction};
use tx_broadcast::uint::U256;

fn address(n: u8) -> Address {
    Address::new([n; 20])
}

fn hash(n: usize) -> TxHash {
    let mut bytes = [0u8; 32];
    bytes[24..].copy_from_slice(&(n as u64 + 1).to_be_bytes());
    TxHash::new(bytes)
}

fn body(from: Address, nonce: u64) -> TxBody {
    TxBody {
        from,
        to: Some(address(0xee)),
        value: U256::zero(),
        data: vec![0xde, 0xad],
        nonce: Some(nonce),
        gas_limit: Some(U256::from_u64(21_000)),
        chain_id: None,
    }
}

fn legacy(from: Address, nonce: u64) -> TxWithMetadata {
    TxWithMetadata {
        transaction: FinalTransaction::Legacy { body: body(from, nonce), gas_price: None },
        rpc: Some(String::from("http://a")),
        is_fixed_gas_limit: false,
        zk: None,
    }
}

fn fee_market(from: Address, nonce: u64) -> TxWithMetadata {
    TxWithMetadata {
        transaction: FinalTransaction::FeeMarket {
            body: body(from, nonce),
            max_fee_per_gas: None,
            max_priority_fee_per_gas: None,
        },
        rpc: Some(String::from("http://a")),
        is_fixed_gas_limit: false,
        zk: None,
    }
}

fn args() -> ScriptArgs {
    ScriptArgs {
        broadcast: true,
        unlocked: false,
        slow: false,
        skip_simulation: false,
        verify: false,
        legacy: false,
        with_gas_price: None,
        priority_gas_price: None,
        gas_estimate_multiplier: 130,
        sender: None,
        fork_url: None,
        sig: String::from("run()"),
    }
}

fn sequence(transactions: Vec<TxWithMetadata>) -> ScriptSequence {
    ScriptSequence::new(
        transactions,
        Vec::new(),
        String::from("run()"),
        String::from("Deploy"),
        1,
        true,
    )
}

fn receipt(of: TxHash) -> Receipt {
    Receipt {
        transaction_hash: of,
        gas_used: Some(U256::from_u64(21_000)),
        effective_gas_price: Some(U256::from_u64(3)),
    }
}

fn pair() -> FeeSnapshot {
    FeeSnapshot::FeeMarket {
        max_fee_per_gas: U256::from_u64(100),
        max_priority_fee_per_gas: U256::from_u64(2),
    }
}

#[derive(Default)]
struct Calls {
    fee_market_queries: usize,
    gas_price_queries: usize,
    batches: Vec<(usize, usize, usize)>,
    raw_sends: usize,
    unlocked_sends: usize,
    nonce_queries: usize,
    gas_estimates: usize,
    typed_signings: usize,
    polls: Vec<(usize, usize)>,
    saves: usize,
    /// The receipts at the time of each sequential send.
    receipts_at_send: Vec<(usize, usize)>,
}

/// Plays the endpoint: every query is answered, every transaction is mined.
fn drive(engine: &mut Broadcaster, snapshot: FeeSnapshot, calls: &mut Calls) -> Action {
    let mut action = engine.current_action();
    let mut steps = 0;
    loop {
        steps += 1;
        assert!(steps < 10_000, "the engine does not come to an end");
        let event = match action {
            Action::QueryFees(FeeQuery::FeeMarket) => {
                calls.fee_market_queries += 1;
                Event::Fees(snapshot)
            }
            Action::QueryFees(FeeQuery::GasPrice) => {
                calls.gas_price_queries += 1;
                Event::Fees(snapshot)
            }
            Action::Send { first, count, width } => {
                calls.batches.push((first, count, width));
                let mut hashes = Vec::new();
                for index in first..first + count {
                    let plan = engine.plan(index).expect("a plan for each transaction that is sent");
                    assert_eq!(plan.index, index);
                    calls.receipts_at_send.push((index, engine.sequence.receipts.len()));
                    if plan.check_nonce {
                        calls.nonce_queries += 1;
                    }
                    if plan.estimate_gas {
                        calls.gas_estimates += 1;
                    }
                    if plan.signing == Some(Signing::TypedData) {
                        calls.typed_signings += 1;
                    }
                    match plan.kind {
                        SendTransactionKind::Raw(_) => calls.raw_sends += 1,
                        SendTransactionKind::Unlocked(_) => calls.unlocked_sends += 1,
                    }
                    hashes.push(hash(index));
                }
                Event::Sent { hashes, error: None }
            }
            Action::PollReceipts { first, count } => {
                calls.polls.push((first, count));
                let receipts =
                    engine.sequence.pending[first..first + count].iter().map(|h| receipt(*h)).collect();
                Event::Receipts(receipts)
            }
            Action::Save => {
                calls.saves += 1;
                Event::Saved
            }
            Action::Done | Action::Fail(_) => return action,
        };
        action = engine.step(event);
    }
}

fn run_batched(total: usize) -> (Broadcaster, Calls) {
    let signer = address(1);
    let transactions = (0..total).map(|n| fee_market(signer, n as u64)).collect();
    let mut engine = args().send_transactions(sequence(transactions), 1, &vec![signer]).unwrap();
    let mut calls = Calls::default();
    assert_eq!(drive(&mut engine, pair(), &mut calls), Action::Done);
    (engine, calls)
}

fn assert_complete(engine: &Broadcaster, total: usize) {
    assert_eq!(engine.sequence.pending.len(), total);
    assert_eq!(engine.sequence.receipts.len(), total);
    for i in 0..total {
        assert_eq!(engine.sequence.pending[i], hash(i));
        assert_eq!(engine.sequence.receipts[i].transaction_hash, engine.sequence.pending[i]);
    }
    assert!(engine.sequence.is_well_formed());
    assert!(engine.sequence.is_complete());
}

#[test]
fn single_signer_fee_market_run_of_250_goes_out_in_three_batches() {
    let (engine, calls) = run_batched(250);
    assert!(!engine.sequential);
    assert_eq!(calls.batches, vec![(0, 100, 7), (100, 100, 7), (200, 50, 7)]);
    assert_eq!(calls.fee_market_queries, 1);
    assert_eq!(calls.gas_price_queries, 0);
    assert_eq!(calls.raw_sends, 250);
    assert_eq!(calls.unlocked_sends, 0);
    assert_eq!(calls.nonce_queries, 0);
    assert_eq!(calls.polls, vec![(0, 100), (100, 100), (200, 50)]);
    // once with the hashes of each batch, once with its receipts
    assert_eq!(calls.saves, 6);
    assert_complete(&engine, 250);
}

#[test]
fn batch_of_exactly_100() {
    let (engine, calls) = run_batched(100);
    assert_eq!(calls.batches, vec![(0, 100, 7)]);
    assert_complete(&engine, 100);
}

#[test]
fn batch_of_101() {
    let (engine, calls) = run_batched(101);
    assert_eq!(calls.batches, vec![(0, 100, 7), (100, 1, 7)]);
    assert_complete(&engine, 101);
}

#[test]
fn batch_of_199() {
    let (engine, calls) = run_batched(199);
    assert_eq!(calls.batches, vec![(0, 100, 7), (100, 99, 7)]);
    assert_complete(&engine, 199);
}

#[test]
fn batch_of_200() {
    let (engine, calls) = run_batched(200);
    assert_eq!(calls.batches, vec![(0, 100, 7), (100, 100, 7)]);
    assert_complete(&engine, 200);
}

#[test]
fn batch_constants() {
    assert_eq!(BATCH_SIZE, 100);
    assert_eq!(SEND_WIDTH, 7);
}

#[test]
fn filled_plans_carry_chain_and_fees() {
    let signer = address(1);
    let mut engine =
        args().send_transactions(sequence(vec![fee_market(signer, 4)]), 5, &vec![signer]).unwrap();
    assert_eq!(engine.current_action(), Action::QueryFees(FeeQuery::FeeMarket));
    assert!(engine.plan(0).is_none());
    assert_eq!(engine.step(Event::Fees(pair())), Action::Send { first: 0, count: 1, width: 7 });
    let plan = engine.plan(0).unwrap();
    let mut expected = body(signer, 4);
    expected.chain_id = Some(5);
    assert_eq!(
        plan.transaction,
        FinalTransaction::FeeMarket {
            body: expected,
            max_fee_per_gas: Some(U256::from_u64(100)),
            max_priority_fee_per_gas: Some(U256::from_u64(2)),
        }
    );
    assert_eq!(plan.kind, SendTransactionKind::Raw(signer));
    assert_eq!(plan.signing, Some(Signing::Transaction));
    assert!(!plan.check_nonce);
    assert!(!plan.estimate_gas);
    assert!(engine.plan(1).is_none());
    // the sequence itself keeps the transaction as it was
    assert_eq!(engine.sequence.transactions[0], fee_market(signer, 4));
}

#[test]
fn unlocked_run_on_a_chain_with_its_own_gas_calculation_is_sequential() {
    let sender = address(9);
    let mut with = args();
    with.unlocked = true;
    with.sender = Some(sender);
    with.skip_simulation = true;
    let transactions = (0..3).map(|n| legacy(sender, n)).collect();
    let mut engine = with.send_transactions(sequence(transactions), 42161, &Vec::new()).unwrap();
    assert!(engine.sequential);
    let mut calls = Calls::default();
    assert_eq!(drive(&mut engine, FeeSnapshot::GasPrice(U256::from_u64(7)), &mut calls), Action::Done);
    assert_eq!(calls.batches, vec![(0, 1, 1), (1, 1, 1), (2, 1, 1)]);
    assert_eq!(calls.gas_estimates, 3);
    assert_eq!(calls.unlocked_sends, 3);
    assert_eq!(calls.raw_sends, 0);
    assert_eq!(calls.nonce_queries, 3);
    assert_eq!(calls.gas_price_queries, 1);
    // no transaction is sent while an earlier one lacks its receipt
    assert_eq!(calls.receipts_at_send, vec![(0, 0), (1, 1), (2, 2)]);
    assert_eq!(calls.polls, vec![(0, 1), (1, 1), (2, 1)]);
    assert_eq!(calls.saves, 1);
    assert_complete(&engine, 3);
}

#[test]
fn slow_run_saves_at_the_end_of_each_batch() {
    let signer = address(1);
    let mut with = args();
    with.slow = true;
    let transactions = (0..101).map(|n| legacy(signer, n)).collect();
    let mut engine = with.send_transactions(sequence(transactions), 1, &vec![signer]).unwrap();
    assert!(engine.sequential);
    let mut calls = Calls::default();
    assert_eq!(drive(&mut engine, FeeSnapshot::GasPrice(U256::from_u64(7)), &mut calls), Action::Done);
    assert_eq!(calls.batches.len(), 101);
    assert_eq!(calls.saves, 2);
    assert_eq!(calls.nonce_queries, 101);
    for (index, receipts) in calls.receipts_at_send.iter() {
        assert_eq!(index, receipts);
    }
    assert_complete(&engine, 101);
}

#[test]
fn two_signers_make_a_run_sequential() {
    let transactions = vec![legacy(address(1), 0), legacy(address(2), 0)];
    let engine =
        args().send_transactions(sequence(transactions), 1, &vec![address(1), address(2)]).unwrap();
    assert!(engine.sequential);
}

#[test]
fn nonce_drift_stops_the_run_before_anything_is_sent() {
    let signer = address(1);
    let mut with = args();
    with.slow = true;
    let mut engine =
        with.send_transactions(sequence(vec![legacy(signer, 5)]), 1, &vec![signer]).unwrap();
    assert_eq!(engine.current_action(), Action::QueryFees(FeeQuery::GasPrice));
    let action = engine.step(Event::Fees(FeeSnapshot::GasPrice(U256::from_u64(7))));
    assert_eq!(action, Action::Send { first: 0, count: 1, width: 1 });
    let plan = engine.plan(0).unwrap();
    assert!(plan.check_nonce);
    let drift = check_nonce(plan.transaction.nonce(), Some(7)).unwrap_err();
    assert_eq!(drift, BroadcastError::NonceDrift { expected: Some(5), got: 7 });
    // the driver sends nothing and reports the error
    let action = engine.step(Event::Sent { hashes: Vec::new(), error: Some(drift) });
    assert_eq!(action, Action::Save);
    assert_eq!(engine.step(Event::Saved), Action::Fail(drift));
    assert_eq!(engine.sequence.pending.len(), 0);
    assert_eq!(engine.sequence.receipts.len(), 0);
    // the run stays over
    assert_eq!(engine.step(Event::Saved), Action::Fail(drift));
}

fn half_done() -> ScriptSequence {
    let signer = address(1);
    let mut record = sequence((0..4).map(|n| fee_market(signer, n)).collect());
    assert!(record.add_pending(0, hash(0)));
    assert!(record.add_pending(1, hash(1)));
    assert!(record.add_receipt(0, receipt(hash(0))));
    assert!(record.add_receipt(1, receipt(hash(1))));
    record
}

#[test]
fn resume_sends_only_what_has_no_receipt() {
    let mut engine = args().send_transactions(half_done(), 1, &vec![address(1)]).unwrap();
    assert_eq!(engine.start, 2);
    let mut calls = Calls::default();
    assert_eq!(drive(&mut engine, pair(), &mut calls), Action::Done);
    assert_eq!(calls.batches, vec![(2, 2, 7)]);
    assert_eq!(calls.polls, vec![(2, 2)]);
    assert_eq!(calls.raw_sends, 2);
    assert_complete(&engine, 4);
}

#[test]
fn resume_polls_hashes_that_were_left_without_a_receipt() {
    let mut record = half_done();
    assert!(record.add_pending(2, hash(2)));
    assert!(record.add_pending(3, hash(3)));
    let mut engine = args().send_transactions(record, 1, &vec![address(1)]).unwrap();
    assert_eq!(engine.phase, Phase::Resuming);
    let mut calls = Calls::default();
    assert_eq!(drive(&mut engine, pair(), &mut calls), Action::Done);
    assert!(calls.batches.is_empty());
    assert_eq!(calls.raw_sends, 0);
    assert_eq!(calls.fee_market_queries, 0);
    assert_eq!(calls.polls, vec![(2, 2)]);
    assert_complete(&engine, 4);
}

#[test]
fn resumed_run_ends_like_an_uninterrupted_one() {
    let (whole, _) = run_batched(4);
    let mut engine = args().send_transactions(half_done(), 1, &vec![address(1)]).unwrap();
    let mut calls = Calls::default();
    assert_eq!(drive(&mut engine, pair(), &mut calls), Action::Done);
    assert_eq!(engine.sequence, whole.sequence);
}

#[test]
fn complete_sequence_is_done_at_once() {
    let mut record = sequence(vec![legacy(address(1), 0)]);
    assert!(record.add_pending(0, hash(0)));
    assert!(record.add_receipt(0, receipt(hash(0))));
    // no signer is looked for when nothing is left to send
    let mut engine = args().send_transactions(record, 1, &Vec::new()).unwrap();
    assert_eq!(engine.current_action(), Action::Done);
    assert_eq!(engine.step(Event::Saved), Action::Done);
}

#[test]
fn missing_receipts_leave_the_hashes_for_a_resume() {
    let signer = address(1);
    let transactions = (0..3).map(|n| fee_market(signer, n)).collect();
    let mut engine = args().send_transactions(sequence(transactions), 1, &vec![signer]).unwrap();
    engine.step(Event::Fees(pair()));
    let action = engine.step(Event::Sent { hashes: vec![hash(0), hash(1), hash(2)], error: None });
    assert_eq!(action, Action::Save);
    assert_eq!(engine.step(Event::Saved), Action::PollReceipts { first: 0, count: 3 });
    // only the first receipt arrives before the deadline
    assert_eq!(engine.step(Event::Receipts(vec![receipt(hash(0))])), Action::Save);
    assert_eq!(
        engine.step(Event::Saved),
        Action::Fail(BroadcastError::PendingReceiptsIncomplete)
    );
    assert_eq!(engine.sequence.pending, vec![hash(0), hash(1), hash(2)]);
    assert_eq!(engine.sequence.receipts, vec![receipt(hash(0))]);
    assert!(engine.sequence.is_well_formed());
}

#[test]
fn receipt_of_another_hash_is_not_recorded() {
    let signer = address(1);
    let mut engine =
        args().send_transactions(sequence(vec![fee_market(signer, 0)]), 1, &vec![signer]).unwrap();
    engine.step(Event::Fees(pair()));
    engine.step(Event::Sent { hashes: vec![hash(0)], error: None });
    engine.step(Event::Saved);
    assert_eq!(engine.step(Event::Receipts(vec![receipt(hash(7))])), Action::Save);
    assert!(engine.sequence.receipts.is_empty());
    assert_eq!(engine.phase, Phase::Failing(BroadcastError::PendingReceiptsIncomplete));
}

#[test]
fn failed_send_keeps_the_hashes_that_came_back() {
    let signer = address(1);
    let transactions = (0..3).map(|n| fee_market(signer, n)).collect();
    let mut engine = args().send_transactions(sequence(transactions), 1, &vec![signer]).unwrap();
    engine.step(Event::Fees(pair()));
    let action =
        engine.step(Event::Sent { hashes: vec![hash(0)], error: Some(BroadcastError::Rpc) });
    assert_eq!(action, Action::Save);
    assert_eq!(engine.sequence.pending, vec![hash(0)]);
    assert_eq!(engine.step(Event::Saved), Action::Fail(BroadcastError::Rpc));
}

#[test]
fn more_hashes_than_were_asked_for_are_not_recorded() {
    let signer = address(1);
    let mut engine =
        args().send_transactions(sequence(vec![fee_market(signer, 0)]), 1, &vec![signer]).unwrap();
    engine.step(Event::Fees(pair()));
    engine.step(Event::Sent { hashes: vec![hash(0), hash(1)], error: None });
    assert_eq!(engine.sequence.pending, vec![hash(0)]);
}

#[test]
fn save_failure_ends_the_run() {
    let signer = address(1);
    let mut engine =
        args().send_transactions(sequence(vec![fee_market(signer, 0)]), 1, &vec![signer]).unwrap();
    engine.step(Event::Fees(pair()));
    engine.step(Event::Sent { hashes: vec![hash(0)], error: None });
    assert_eq!(engine.step(Event::SaveFailed), Action::Fail(BroadcastError::Persist));
}

#[test]
fn unexpected_event_fails_the_run() {
    let signer = address(1);
    let mut engine =
        args().send_transactions(sequence(vec![fee_market(signer, 0)]), 1, &vec![signer]).unwrap();
    assert_eq!(engine.step(Event::Saved), Action::Save);
    assert_eq!(engine.step(Event::Saved), Action::Fail(BroadcastError::UnexpectedEvent));
}

#[test]
fn fee_market_run_needs_the_fee_market_estimate() {
    let signer = address(1);
    let mut with = args();
    with.with_gas_price = Some(U256::from_u64(9));
    let mut engine =
        with.send_transactions(sequence(vec![fee_market(signer, 0)]), 1, &vec![signer]).unwrap();
    assert_eq!(engine.step(Event::Fees(FeeSnapshot::Unavailable)), Action::Save);
    assert_eq!(engine.step(Event::Saved), Action::Fail(BroadcastError::FeeMarketUnsupported));
}

#[test]
fn legacy_run_without_a_gas_price_fails_unless_the_user_set_one() {
    let signer = address(1);
    let mut engine =
        args().send_transactions(sequence(vec![legacy(signer, 0)]), 1, &vec![signer]).unwrap();
    assert_eq!(engine.step(Event::Fees(FeeSnapshot::Unavailable)), Action::Save);
    assert_eq!(engine.step(Event::Saved), Action::Fail(BroadcastError::Rpc));

    let mut with = args();
    with.with_gas_price = Some(U256::from_u64(9));
    let mut engine =
        with.send_transactions(sequence(vec![legacy(signer, 0)]), 1, &vec![signer]).unwrap();
    assert_eq!(
        engine.step(Event::Fees(FeeSnapshot::Unavailable)),
        Action::Send { first: 0, count: 1, width: 7 }
    );
    match &engine.plan(0).unwrap().transaction {
        FinalTransaction::Legacy { gas_price, .. } => assert_eq!(*gas_price, Some(U256::from_u64(9))),
        other => panic!("not a legacy transaction: {other:?}"),
    }
}

#[test]
fn unknown_signer_is_reported_before_anything_happens() {
    let transactions = vec![legacy(address(1), 0), legacy(address(2), 0), legacy(address(3), 0)];
    let error = args().send_transactions(sequence(transactions), 1, &vec![address(1)]).unwrap_err();
    assert_eq!(error, BroadcastError::Config(ConfigError::UnknownSigner { address: address(2) }));
}

#[test]
fn unlocked_run_needs_a_sender() {
    let mut with = args();
    with.unlocked = true;
    let error =
        with.send_transactions(sequence(vec![legacy(address(1), 0)]), 1, &Vec::new()).unwrap_err();
    assert_eq!(error, BroadcastError::Config(ConfigError::MissingSender));
}

#[test]
fn unlocked_senders_are_the_configured_one_and_those_of_the_tail() {
    let mut with = args();
    with.unlocked = true;
    with.sender = Some(address(9));
    let transactions = vec![legacy(address(9), 0), legacy(address(9), 1)];
    let engine = with.send_transactions(sequence(transactions), 1, &Vec::new()).unwrap();
    assert_eq!(engine.kind.signers_count(), 1);
    assert!(!engine.sequential);

    let transactions = vec![legacy(address(9), 0), legacy(address(4), 0)];
    let engine = with.send_transactions(sequence(transactions), 1, &Vec::new()).unwrap();
    assert_eq!(engine.kind.signers_count(), 2);
    assert!(engine.sequential);
}

#[test]
fn typed_712_transaction_is_signed_as_typed_data_and_sent_raw() {
    let signer = address(1);
    let deps = vec![vec![1u8, 2, 3], vec![4u8, 5]];
    let tx = TxWithMetadata {
        transaction: FinalTransaction::Typed712 {
            body: body(signer, 0),
            gas_price: None,
            max_fee_per_gas: None,
            max_priority_fee_per_gas: None,
            factory_deps: deps.clone(),
        },
        rpc: Some(String::from("http://zk")),
        is_fixed_gas_limit: false,
        zk: Some(ZkTransaction { factory_deps: deps.clone() }),
    };
    let mut engine = args().send_transactions(sequence(vec![tx]), 300, &vec![signer]).unwrap();
    let mut calls = Calls::default();
    assert_eq!(engine.current_action(), Action::QueryFees(FeeQuery::FeeMarket));
    engine.step(Event::Fees(pair()));
    match &engine.plan(0).unwrap().transaction {
        FinalTransaction::Typed712 { factory_deps, body, .. } => {
            assert_eq!(*factory_deps, deps);
            assert_eq!(body.chain_id, Some(300));
        }
        other => panic!("not a typed transaction: {other:?}"),
    }
    assert_eq!(engine.plan(0).unwrap().signing, Some(Signing::TypedData));
    assert!(engine.plan(0).unwrap().estimate_fee);
    assert_eq!(drive(&mut engine, pair(), &mut calls), Action::Done);
    assert_eq!(calls.typed_signings, 1);
    assert_eq!(calls.raw_sends, 1);
}

#[test]
fn signing_failure_is_reported_after_a_save() {
    let signer = address(1);
    let mut with = args();
    with.slow = true;
    let transactions = (0..2).map(|n| legacy(signer, n)).collect();
    let mut engine = with.send_transactions(sequence(transactions), 1, &vec![signer]).unwrap();
    engine.step(Event::Fees(FeeSnapshot::GasPrice(U256::from_u64(7))));
    engine.step(Event::Sent { hashes: vec![hash(0)], error: None });
    assert_eq!(
        engine.step(Event::Receipts(vec![receipt(hash(0))])),
        Action::Send { first: 1, count: 1, width: 1 }
    );
    let action =
        engine.step(Event::Sent { hashes: Vec::new(), error: Some(BroadcastError::SigningFailed) });
    assert_eq!(action, Action::Save);
    assert_eq!(engine.step(Event::SaveFailed), Action::Fail(BroadcastError::SigningFailed));
    assert_eq!(engine.sequence.pending, vec![hash(0)]);
    assert_eq!(engine.sequence.receipts.len(), 1);
}

#[test]
fn send_that_reports_too_few_hashes_fails_the_run() {
    let signer = address(1);
    let transactions = (0..3).map(|n| fee_market(signer, n)).collect();
    let mut engine = args().send_transactions(sequence(transactions), 1, &vec![signer]).unwrap();
    engine.step(Event::Fees(pair()));
    assert_eq!(engine.step(Event::Sent { hashes: vec![hash(0), hash(1)], error: None }), Action::Save);
    assert_eq!(engine.step(Event::Saved), Action::Fail(BroadcastError::UnexpectedEvent));
    assert_eq!(engine.sequence.pending, vec![hash(0), hash(1)]);
}

fn outcomes(from: usize, to: usize, receipts_from: usize, receipts_to: usize) -> Outcomes {
    Outcomes {
        fees: pair(),
        hashes: (from..to).map(hash).collect(),
        receipts: (receipts_from..receipts_to).map(|n| receipt(hash(n))).collect(),
    }
}

#[test]
fn replay_of_a_whole_run_records_every_outcome() {
    let signer = address(1);
    let transactions = (0..250).map(|n| fee_market(signer, n as u64)).collect();
    let mut engine = args().send_transactions(sequence(transactions), 1, &vec![signer]).unwrap();
    assert_eq!(engine.replay(&outcomes(0, 250, 0, 250)), Action::Done);
    assert_complete(&engine, 250);
    let (driven, _) = run_batched(250);
    assert_eq!(engine.sequence, driven.sequence);
}

#[test]
fn replay_of_an_interrupted_run_and_its_resume_end_like_a_whole_run() {
    let signer = address(1);
    let transactions = || (0..150).map(|n| fee_market(signer, n as u64)).collect();
    let mut whole = args().send_transactions(sequence(transactions()), 1, &vec![signer]).unwrap();
    assert_eq!(whole.replay(&outcomes(0, 150, 0, 150)), Action::Done);

    // the first run gets only 30 receipts before the deadline
    let mut first = args().send_transactions(sequence(transactions()), 1, &vec![signer]).unwrap();
    assert_eq!(
        first.replay(&outcomes(0, 150, 0, 30)),
        Action::Fail(BroadcastError::PendingReceiptsIncomplete)
    );
    assert_eq!(first.sequence.pending.len(), 100);
    assert_eq!(first.sequence.receipts.len(), 30);
    assert!(first.sequence.is_well_formed());

    // the second picks up the 70 hashes without a receipt and sends the other 50
    let mut second = args().send_transactions(first.sequence, 1, &vec![signer]).unwrap();
    assert_eq!(second.phase, Phase::Resuming);
    assert_eq!(second.replay(&outcomes(100, 150, 30, 150)), Action::Done);
    assert_eq!(second.sequence, whole.sequence);
}

#[test]
fn replay_ends_even_where_the_outcomes_run_out() {
    let signer = address(1);
    let transactions = || (0..5).map(|n| legacy(signer, n as u64)).collect();
    let mut slow = args();
    slow.slow = true;
    let mut engine = slow.send_transactions(sequence(transactions()), 1, &vec![signer]).unwrap();
    let mut short = outcomes(0, 2, 0, 2);
    short.fees = FeeSnapshot::GasPrice(U256::from_u64(1));
    assert_eq!(engine.replay(&short), Action::Fail(BroadcastError::UnexpectedEvent));
    assert_eq!(engine.sequence.pending, vec![hash(0), hash(1)]);
    assert_eq!(engine.sequence.receipts.len(), 2);

    // a receipt of another hash stops the run where it stands
    let mut engine = slow.send_transactions(sequence(transactions()), 1, &vec![signer]).unwrap();
    let mut wrong = outcomes(0, 5, 0, 5);
    wrong.fees = FeeSnapshot::GasPrice(U256::from_u64(1));
    wrong.receipts[1] = receipt(hash(9));
    assert_eq!(engine.replay(&wrong), Action::Fail(BroadcastError::PendingReceiptsIncomplete));
    assert_eq!(engine.sequence.pending, vec![hash(0), hash(1)]);
    assert_eq!(engine.sequence.receipts, vec![receipt(hash(0))]);

    // fees of the wrong kind fail the run before anything is sent
    let mut engine = slow.send_transactions(sequence(transactions()), 1, &vec![signer]).unwrap();
    assert_eq!(engine.replay(&outcomes(0, 5, 0, 5)), Action::Fail(BroadcastError::Rpc));
    assert!(engine.sequence.pending.is_empty());
    assert!(ends(&Action::Done) && ends(&Action::Fail(BroadcastError::Rpc)) && !ends(&Action::Save));
}
