use tx_broadcast::args::ScriptArgs;
use tx_broadcast::bundle::{partition_by_endpoint, same_endpoint, Bundle};
use tx_broadcast::cost::GasByEndpoint;
use tx_broadcast::fees::{apply_fee_estimate, Fee};
use tx_broadcast::error::{BroadcastError, ConfigError};
use tx_broadcast::primitives::Address;
use tx_broadcast::providers::{is_legacy_chain, ProviderInfo, ProviderRegistry};
use tx_broadcast::sequence::NamedReturn;
use tx_broadcast::transaction::{
    AbstractTransaction, FinalTransaction, Shape, TxBody, TxWithMetadata, ZkTransaction,
};
use tx_broadcast::uint::U256;

fn args() -> ScriptArgs {
    ScriptArgs {
        broadcast: true,
        unlocked: false,
        slow: false,
        skip_simulation: false,
        verify: false,
        legacy: false,
        with_gas_price: None,
        priority_gas_price: None,
        gas_estimate_multiplier: 130,
        sender: None,
        fork_url: None,
        sig: String::from("run()"),
    }
}

fn body(nonce: u64) -> TxBody {
    TxBody {
        from: Address::new([1; 20]),
        to: None,
        value: U256::from_u64(nonce),
        data: vec![nonce as u8],
        nonce: Some(nonce),
        gas_limit: Some(U256::from_u64(100)),
        chain_id: None,
    }
}

fn tx(rpc: Option<&str>, nonce: u64) -> TxWithMetadata {
    TxWithMetadata {
        transaction: FinalTransaction::Legacy {
            body: body(nonce),
            gas_price: Some(U256::from_u64(8)),
        },
        rpc: rpc.map(String::from),
        is_fixed_gas_limit: false,
        zk: None,
    }
}

/// Endpoint A is a fee-market chain, B a legacy chain, M estimates gas from
/// state in flight.
fn registry() -> ProviderRegistry {
    let mut registry = ProviderRegistry::new();
    assert!(registry.get_or_init(String::from("A"), false, 1, Some(U256::from_u64(20))));
    assert!(registry.get_or_init(String::from("B"), true, 77, None));
    assert!(registry.get_or_init(String::from("M"), false, 1284, None));
    registry
}

fn returned() -> Vec<NamedReturn> {
    vec![NamedReturn {
        name: String::from("deployed"),
        internal_type: String::from("address"),
        value: String::from("0x00"),
    }]
}

fn bundle(transactions: Vec<TxWithMetadata>) -> Vec<Vec<u64>> {
    let deployments = args()
        .bundle_transactions(transactions, &String::from("Deploy"), &registry(), &Vec::new(), &returned())
        .unwrap()
        .deployments;
    deployments
        .iter()
        .map(|d| d.transactions.iter().map(|t| t.transaction.nonce().unwrap()).collect())
        .collect()
}

#[test]
fn alternating_endpoints_make_three_sequences() {
    let groups = bundle(vec![tx(Some("A"), 0), tx(Some("B"), 1), tx(Some("A"), 2)]);
    assert_eq!(groups, vec![vec![0], vec![1], vec![2]]);
}

#[test]
fn runs_of_one_endpoint_stay_together() {
    let transactions =
        vec![tx(Some("A"), 0), tx(Some("A"), 1), tx(Some("B"), 2), tx(Some("B"), 3), tx(Some("A"), 4)];
    let deployments = args()
        .bundle_transactions(transactions, &String::from("Deploy"), &registry(), &Vec::new(), &returned())
        .unwrap()
        .deployments;
    let lengths: Vec<usize> = deployments.iter().map(|d| d.transactions.len()).collect();
    assert_eq!(lengths, vec![2, 2, 1]);
    let chains: Vec<u64> = deployments.iter().map(|d| d.chain).collect();
    assert_eq!(chains, vec![1, 77, 1]);
    for deployment in &deployments {
        assert!(deployment.pending.is_empty() && deployment.receipts.is_empty());
        assert!(deployment.libraries.is_empty());
        assert_eq!(deployment.return_values, returned());
        assert_eq!(deployment.target, "Deploy");
        assert_eq!(deployment.signature, "run()");
        assert!(deployment.broadcast);
        assert!(deployment.is_well_formed());
    }
    assert_eq!(bundle(vec![tx(Some("A"), 0), tx(Some("A"), 1)]), vec![vec![0, 1]]);
}

#[test]
fn bundling_nothing_gives_no_sequence() {
    assert!(bundle(Vec::new()).is_empty());
}

#[test]
fn transaction_without_endpoint_goes_to_the_fork_url() {
    let mut with = args();
    with.fork_url = Some(String::from("A"));
    let deployments = with
        .bundle_transactions(
            vec![tx(Some("A"), 0), tx(None, 1), tx(Some("B"), 2)],
            &String::from("Deploy"),
            &registry(),
            &Vec::new(),
            &returned(),
        )
        .unwrap()
        .deployments;
    assert_eq!(deployments.len(), 2);
    assert_eq!(deployments[0].transactions.len(), 2);
    assert_eq!(deployments[0].transactions[1].rpc, Some(String::from("A")));
}

#[test]
fn transaction_without_endpoint_or_fork_url_is_refused() {
    let error = args()
        .bundle_transactions(
            vec![tx(Some("A"), 0), tx(None, 1), tx(Some("nowhere"), 2)],
            &String::from("Deploy"),
            &registry(),
            &Vec::new(),
            &returned(),
        )
        .unwrap_err();
    assert_eq!(error, BroadcastError::Config(ConfigError::MissingForkUrl));
}

#[test]
fn endpoint_that_was_never_initialised_is_refused() {
    let error = args().ready(tx(Some("nowhere"), 0), &registry(), None).unwrap_err();
    assert_eq!(error, BroadcastError::Config(ConfigError::UnknownEndpoint));
}

#[test]
fn ready_transaction_has_shape_chain_and_endpoint() {
    let made = args().ready(tx(Some("A"), 3), &registry(), Some(U256::from_u64(5000))).unwrap();
    let mut expected = body(3);
    expected.chain_id = Some(1);
    assert_eq!(
        made,
        TxWithMetadata {
            transaction: FinalTransaction::FeeMarket {
                body: expected,
                max_fee_per_gas: Some(U256::from_u64(8)),
                max_priority_fee_per_gas: Some(U256::from_u64(8)),
            },
            rpc: Some(String::from("A")),
            is_fixed_gas_limit: false,
            zk: None,
        }
    );
    let legacy = args().ready(tx(Some("B"), 3), &registry(), None).unwrap();
    assert_eq!(legacy.transaction.shape(), Shape::Legacy);
    assert_eq!(legacy.transaction.chain_id(), Some(77));
}

#[test]
fn gas_is_estimated_again_while_bundling_on_chains_that_need_it() {
    let made = args().ready(tx(Some("M"), 3), &registry(), Some(U256::from_u64(5000))).unwrap();
    assert_eq!(made.transaction.gas_limit(), Some(U256::from_u64(6500)));
    // a failed estimate leaves the gas as it was
    let kept = args().ready(tx(Some("M"), 3), &registry(), None).unwrap();
    assert_eq!(kept.transaction.gas_limit(), Some(U256::from_u64(100)));
    let unscalable = args().ready(tx(Some("M"), 3), &registry(), Some(U256 { limbs: [u64::MAX; 4] }));
    assert_eq!(unscalable.unwrap().transaction.gas_limit(), Some(U256::from_u64(100)));
    // and nothing is estimated when the simulation is skipped
    let mut with = args();
    with.skip_simulation = true;
    let skipped = with.ready(tx(Some("M"), 3), &registry(), Some(U256::from_u64(5000))).unwrap();
    assert_eq!(skipped.transaction.gas_limit(), Some(U256::from_u64(100)));
}

#[test]
fn estimates_are_taken_by_position() {
    let estimates = vec![None, Some(U256::from_u64(1000))];
    let ready = args()
        .ready_all(vec![tx(Some("M"), 0), tx(Some("M"), 1), tx(Some("M"), 2)], &registry(), &estimates)
        .unwrap();
    let gas: Vec<Option<U256>> = ready.iter().map(|t| t.transaction.gas_limit()).collect();
    assert_eq!(
        gas,
        vec![Some(U256::from_u64(100)), Some(U256::from_u64(1300)), Some(U256::from_u64(100))]
    );
}

#[test]
fn typed_metadata_makes_a_typed_transaction_unless_the_chain_is_legacy() {
    let deps = vec![vec![1u8, 2], vec![3u8]];
    let mut typed = tx(Some("A"), 0);
    typed.zk = Some(ZkTransaction { factory_deps: deps.clone() });
    let made = args().ready(typed, &registry(), None).unwrap();
    match &made.transaction {
        FinalTransaction::Typed712 { factory_deps, gas_price, max_fee_per_gas, .. } => {
            assert_eq!(*factory_deps, deps);
            assert_eq!(*gas_price, Some(U256::from_u64(8)));
            assert_eq!(*max_fee_per_gas, Some(U256::from_u64(8)));
        }
        other => panic!("not a typed transaction: {other:?}"),
    }
    assert_eq!(made.zk, Some(ZkTransaction { factory_deps: deps.clone() }));
    let mut on_legacy = tx(Some("B"), 0);
    on_legacy.zk = Some(ZkTransaction { factory_deps: deps });
    assert_eq!(args().ready(on_legacy, &registry(), None).unwrap().transaction.shape(), Shape::Legacy);
}

#[test]
fn partition_keeps_every_transaction_in_order() {
    let groups = partition_by_endpoint(vec![
        tx(None, 0),
        tx(None, 1),
        tx(Some("A"), 2),
        tx(None, 3),
        tx(Some("B"), 4),
        tx(Some("B"), 5),
    ]);
    let nonces: Vec<Vec<u64>> =
        groups.iter().map(|g| g.iter().map(|t| t.transaction.nonce().unwrap()).collect()).collect();
    assert_eq!(nonces, vec![vec![0, 1], vec![2], vec![3], vec![4, 5]]);
    assert!(same_endpoint(&tx(None, 0), &tx(None, 1)));
    assert!(!same_endpoint(&tx(None, 0), &tx(Some("A"), 1)));
    assert!(!same_endpoint(&tx(Some("B"), 0), &tx(Some("A"), 1)));
}

#[test]
fn empty_script_is_an_error_only_when_broadcasting() {
    let created =
        args().create_script_sequences(Vec::new(), &String::from("Deploy"), &registry(), &Vec::new(), &returned());
    assert_eq!(created, Err(BroadcastError::NoTransactions));
    let mut simulate = args();
    simulate.broadcast = false;
    let created = simulate.create_script_sequences(
        Vec::new(),
        &String::from("Deploy"),
        &registry(),
        &Vec::new(),
        &returned(),
    );
    assert_eq!(
        created,
        Ok(Bundle {
            deployments: Vec::new(),
            gas: GasByEndpoint { endpoints: Vec::new(), gas: Vec::new() },
        })
    );
}

#[test]
fn script_with_transactions_is_bundled() {
    let created = args()
        .create_script_sequences(
            vec![tx(Some("A"), 0), tx(Some("B"), 1)],
            &String::from("Deploy"),
            &registry(),
            &Vec::new(),
            &returned(),
        )
        .unwrap();
    assert_eq!(created.deployments.len(), 2);
    assert_eq!(created.gas.endpoints, vec![String::from("A"), String::from("B")]);
}

#[test]
fn bundle_sums_gas_by_endpoint_over_all_sequences() {
    let transactions = vec![tx(Some("A"), 0), tx(Some("M"), 1), tx(Some("A"), 2), tx(Some("M"), 3)];
    let estimates = vec![None, Some(U256::from_u64(1000)), None, None];
    let bundle = args()
        .bundle_transactions(transactions, &String::from("Deploy"), &registry(), &estimates, &returned())
        .unwrap();
    assert_eq!(bundle.deployments.len(), 4);
    assert_eq!(bundle.gas.endpoints, vec![String::from("A"), String::from("M")]);
    assert_eq!(bundle.gas.gas, vec![U256::from_u64(200), U256::from_u64(1400)]);
    let mut with = args();
    with.skip_simulation = true;
    let skipped = with
        .bundle_transactions(vec![tx(Some("A"), 0)], &String::from("Deploy"), &registry(), &Vec::new(), &returned())
        .unwrap();
    assert!(skipped.gas.endpoints.is_empty() && skipped.gas.gas.is_empty());
    assert_eq!(skipped.deployments.len(), 1);
}

#[test]
fn call_is_finalized_for_its_chain() {
    let call = AbstractTransaction {
        from: Address::new([4; 20]),
        to: None,
        data: vec![1, 2, 3],
        value: U256::from_u64(10),
        nonce: None,
        gas: Some(U256::from_u64(99)),
        rpc: None,
        zk: None,
    };
    let registry = registry();
    let on_a = registry.get(&String::from("A")).unwrap();
    let pair = Some((U256::from_u64(60), U256::from_u64(3)));
    let body = TxBody {
        from: Address::new([4; 20]),
        to: None,
        value: U256::from_u64(10),
        data: vec![1, 2, 3],
        nonce: None,
        gas_limit: Some(U256::from_u64(99)),
        chain_id: Some(1),
    };
    let mut with = args();
    with.priority_gas_price = Some(U256::from_u64(5));
    assert_eq!(
        with.finalize(call, on_a, pair),
        Ok(FinalTransaction::FeeMarket {
            body,
            max_fee_per_gas: Some(U256::from_u64(60)),
            max_priority_fee_per_gas: Some(U256::from_u64(5)),
        })
    );
}

#[test]
fn call_on_a_legacy_chain_takes_the_gas_price_of_its_endpoint() {
    let call = || AbstractTransaction {
        from: Address::new([4; 20]),
        to: None,
        data: Vec::new(),
        value: U256::zero(),
        nonce: None,
        gas: None,
        rpc: None,
        zk: Some(ZkTransaction { factory_deps: vec![vec![1]] }),
    };
    let registry = registry();
    let on_a = registry.get(&String::from("A")).unwrap();
    let on_b = registry.get(&String::from("B")).unwrap();
    let mut legacy = args();
    legacy.legacy = true;
    match legacy.finalize(call(), on_a, None).unwrap() {
        FinalTransaction::Legacy { gas_price, body } => {
            assert_eq!(gas_price, Some(U256::from_u64(20)));
            assert_eq!(body.chain_id, Some(1));
            assert_eq!(body.nonce, None);
        }
        other => panic!("not a legacy transaction: {other:?}"),
    }
    // endpoint B reported no gas price
    assert_eq!(args().finalize(call(), on_b, None), Err(BroadcastError::Rpc));
    // with metadata and no legacy chain the transaction is typed, and needs the pair
    assert_eq!(args().finalize(call(), on_a, None), Err(BroadcastError::FeeMarketUnsupported));
    let typed = args().finalize(call(), on_a, Some((U256::from_u64(60), U256::from_u64(3)))).unwrap();
    assert_eq!(typed.shape(), Shape::Typed712);
}

#[test]
fn chain_estimate_overrides_the_fees_of_a_typed_transaction() {
    let typed = FinalTransaction::Typed712 {
        body: body(0),
        gas_price: Some(U256::from_u64(1)),
        max_fee_per_gas: Some(U256::from_u64(2)),
        max_priority_fee_per_gas: None,
        factory_deps: vec![vec![9]],
    };
    let fee = Fee {
        gas_limit: U256::from_u64(500_000),
        max_fee_per_gas: U256::from_u64(250),
        max_priority_fee_per_gas: U256::from_u64(0),
    };
    let mut expected = body(0);
    expected.gas_limit = Some(U256::from_u64(500_000));
    assert_eq!(
        apply_fee_estimate(typed, fee, U256::from_u64(240)),
        FinalTransaction::Typed712 {
            body: expected,
            gas_price: Some(U256::from_u64(240)),
            max_fee_per_gas: Some(U256::from_u64(250)),
            max_priority_fee_per_gas: Some(U256::from_u64(0)),
            factory_deps: vec![vec![9]],
        }
    );
    let legacy = tx(None, 0).transaction;
    assert_eq!(apply_fee_estimate(legacy, fee, U256::from_u64(240)), tx(None, 0).transaction);
}

#[test]
fn skipped_simulation_takes_the_calls_as_they_are() {
    let call = AbstractTransaction {
        from: Address::new([4; 20]),
        to: Some(Address::new([5; 20])),
        data: vec![1, 2, 3],
        value: U256::from_u64(10),
        nonce: None,
        gas: Some(U256::from_u64(99)),
        rpc: Some(String::from("A")),
        zk: Some(ZkTransaction { factory_deps: vec![vec![7]] }),
    };
    let mut with = args();
    with.skip_simulation = true;
    let filled = with.fills_transactions_with_gas(vec![call]).unwrap();
    assert_eq!(
        filled,
        vec![TxWithMetadata {
            transaction: FinalTransaction::Legacy {
                body: TxBody {
                    from: Address::new([4; 20]),
                    to: Some(Address::new([5; 20])),
                    value: U256::from_u64(10),
                    data: vec![1, 2, 3],
                    nonce: None,
                    gas_limit: Some(U256::from_u64(99)),
                    chain_id: None,
                },
                gas_price: None,
            },
            rpc: Some(String::from("A")),
            is_fixed_gas_limit: false,
            zk: Some(ZkTransaction { factory_deps: vec![vec![7]] }),
        }]
    );
    assert_eq!(args().fills_transactions_with_gas(Vec::new()), None);
}

#[test]
fn registry_keeps_the_first_entry_of_an_endpoint() {
    let mut registry = registry();
    assert!(!registry.get_or_init(String::from("A"), true, 5, None));
    assert_eq!(
        registry.get(&String::from("A")),
        Some(&ProviderInfo {
            url: String::from("A"),
            chain: 1,
            is_legacy: false,
            gas_price: Some(U256::from_u64(20)),
        })
    );
    assert_eq!(registry.get(&String::from("C")), None);
    assert_eq!(registry.providers.len(), 3);
}

#[test]
fn legacy_chains_are_recognised() {
    let mut registry = ProviderRegistry::new();
    registry.get_or_init(String::from("fantom"), false, 250, None);
    registry.get_or_init(String::from("mainnet"), false, 1, None);
    registry.get_or_init(String::from("forced"), true, 1, None);
    registry.get_or_init(String::from("unknown"), false, 999_999_999, None);
    assert!(registry.get(&String::from("fantom")).unwrap().is_legacy);
    assert!(!registry.get(&String::from("mainnet")).unwrap().is_legacy);
    assert!(registry.get(&String::from("forced")).unwrap().is_legacy);
    assert!(!registry.get(&String::from("unknown")).unwrap().is_legacy);
}

#[test]
fn legacy_flag_makes_every_transaction_legacy_while_bundling() {
    let mut legacy = args();
    legacy.legacy = true;
    // endpoint A is a fee-market chain
    let made = legacy.ready(tx(Some("A"), 3), &registry(), None).unwrap();
    let mut expected = body(3);
    expected.chain_id = Some(1);
    assert_eq!(
        made,
        TxWithMetadata {
            transaction: FinalTransaction::Legacy {
                body: expected,
                gas_price: Some(U256::from_u64(8)),
            },
            rpc: Some(String::from("A")),
            is_fixed_gas_limit: false,
            zk: None,
        }
    );
    let mut typed = tx(Some("A"), 0);
    typed.zk = Some(ZkTransaction { factory_deps: vec![vec![1u8]] });
    assert_eq!(legacy.ready(typed, &registry(), None).unwrap().transaction.shape(), Shape::Legacy);
    let bundle = legacy
        .bundle_transactions(
            vec![tx(Some("A"), 0), tx(Some("B"), 1), tx(Some("M"), 2)],
            &String::from("Deploy"),
            &registry(),
            &Vec::new(),
            &returned(),
        )
        .unwrap();
    for deployment in &bundle.deployments {
        for ready in &deployment.transactions {
            assert_eq!(ready.transaction.shape(), Shape::Legacy);
        }
    }
    // the nonce of a transaction is neither set nor changed
    let nonces: Vec<Option<u64>> = bundle
        .deployments
        .iter()
        .flat_map(|d| d.transactions.iter().map(|t| t.transaction.nonce()))
        .collect();
    assert_eq!(nonces, vec![Some(0), Some(1), Some(2)]);
}

#[test]
fn gas_is_estimated_again_while_bundling_by_chain_and_simulation() {
    assert!(args().reestimates_gas(1284));
    assert!(args().reestimates_gas(42161));
    assert!(!args().reestimates_gas(1));
    let mut skipped = args();
    skipped.skip_simulation = true;
    assert!(!skipped.reestimates_gas(1284));
}

#[test]
fn recorded_nonce_stays_with_the_call() {
    let call = AbstractTransaction {
        from: Address::new([4; 20]),
        to: None,
        data: vec![1],
        value: U256::zero(),
        nonce: Some(41),
        gas: None,
        rpc: Some(String::from("A")),
        zk: None,
    };
    let mut with = args();
    with.skip_simulation = true;
    let filled = with.fills_transactions_with_gas(vec![call.clone()]).unwrap();
    assert_eq!(filled[0].transaction.nonce(), Some(41));
    let registry = registry();
    let on_a = registry.get(&String::from("A")).unwrap();
    let made = with.finalize(call, on_a, Some((U256::from_u64(60), U256::from_u64(3)))).unwrap();
    assert_eq!(made.nonce(), Some(41));
    assert_eq!(made.chain_id(), Some(1));
}

#[test]
fn unknown_chain_counts_as_one_with_a_fee_market() {
    assert!(is_legacy_chain(false, 250));
    assert!(is_legacy_chain(false, 56));
    assert!(!is_legacy_chain(false, 1));
    assert!(!is_legacy_chain(false, 999_999_999));
    assert!(is_legacy_chain(true, 1));
    assert!(is_legacy_chain(true, 999_999_999));
}
