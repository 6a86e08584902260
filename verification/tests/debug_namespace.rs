use node_core::debug::{
    into_recorded_calls, only_top_call, BatchFeeInput, BlockId, BlockResolution, BlockTag, CallConfig, DebugCall,
    DebugCallType, DebugNamespace, TracerConfig, TxSenderConfig, Web3Error,
};
use node_core::primitives::{Address, L1BatchNumber, L2ChainId, MiniblockNumber, H256, U256};
use node_core::trace_call::{CallExecution, CallTransaction, Execution, ExecutionResult};
use node_core::trace_transaction::{
    MiniblockToExecute, Receipt, Replay, ReplayQuery, ReplayStep, Transaction,
};
use node_core::vm_utils::SystemContracts;

const TOP_CALL: Option<TracerConfig> = Some(TracerConfig {
    tracer_config: CallConfig {
        only_top_call: true,
    },
});
const ALL_CALLS: Option<TracerConfig> = Some(TracerConfig {
    tracer_config: CallConfig {
        only_top_call: false,
    },
});

fn u256(number: u64) -> U256 {
    U256([number, 0, 0, 0])
}

fn call(gas: u64, calls: Vec<DebugCall>) -> DebugCall {
    DebugCall {
        call_type: DebugCallType::Call,
        from: Address([1; 20]),
        to: Address([2; 20]),
        gas: u256(gas),
        gas_used: u256(gas - 1),
        value: u256(3),
        output: vec![4],
        input: vec![5, 6],
        error: None,
        revert_reason: Some("reason".to_string()),
        calls,
    }
}

/// Stands for the caches of the storage.
type Caches = &'static str;

fn namespace() -> DebugNamespace<Caches> {
    DebugNamespace::new(
        BatchFeeInput::L1Pegged {
            fair_l2_gas_price: 10,
            l1_gas_price: 20,
        },
        L2ChainId(270),
        TxSenderConfig {
            chain_id: L2ChainId(271),
            vm_execution_cache_misses_limit: Some(1000),
        },
        "caches of the sender",
        80_000_000,
    )
}

fn transaction(mark: u8) -> Transaction<u8> {
    Transaction {
        tx: mark,
        hash: H256([mark; 32]),
        gas_limit: u256(1_000_000 + mark as u64),
        value: u256(mark as u64),
        calldata: vec![mark, mark],
    }
}

fn receipt(transaction_index: u64) -> Receipt {
    Receipt {
        block_number: 17,
        l1_batch_number: Some(5),
        transaction_index,
        gas_used: Some(u256(21_000)),
    }
}

fn replay_query(
    transaction_index: u64,
    options: Option<TracerConfig>,
) -> ReplayQuery<&'static str, u8> {
    let namespace = namespace();
    let query = namespace.debug_trace_transaction_impl(H256([9; 32]), options);
    assert_eq!(query.tx_hash, H256([9; 32]));
    let connection: Result<(), &str> = Ok(());
    let query = query.connected::<(), &str>(connection).unwrap();
    assert_eq!(query.tx_hash, H256([9; 32]));
    let query = query.found(receipt(0));
    assert_eq!(query.number, MiniblockNumber(17));
    assert_eq!(query.limit, Some(1));
    let query = query.found(MiniblockToExecute {
        number: MiniblockNumber(17),
        txs: vec![transaction(1), transaction(2), transaction(3)],
    });
    assert_eq!(query.tx_hash, H256([3; 32]));
    query.found(receipt(transaction_index), vec!["inner", "other"])
}

fn replay(
    transaction_index: u64,
    options: Option<TracerConfig>,
) -> Replay<&'static str, u8, &'static str, &'static str> {
    replay_query(transaction_index, options).ready("environment", "permit")
}

#[test]
fn all_calls_are_traced_by_default() {
    assert!(!only_top_call(None));
    assert!(!only_top_call(ALL_CALLS));
    assert!(only_top_call(TOP_CALL));
}

#[test]
fn configuration_is_kept() {
    let namespace = namespace();
    assert_eq!(namespace.sender_config().chain_id, L2ChainId(271));
    let args = namespace.shared_args();
    assert_eq!(args.operator_account, Address([0; 20]));
    assert_eq!(args.fee_input, namespace.batch_fee_input);
    assert_eq!(args.base_system_contracts, SystemContracts::EthCall);
    assert_eq!(*args.caches, "caches of the sender");
    assert_eq!(args.validation_computational_gas_limit, 80_000_000);
    assert_eq!(args.chain_id, L2ChainId(271));
}

#[test]
fn block_traces_keep_their_order() {
    let query = namespace().debug_trace_block_impl(BlockId::Number(BlockTag::Latest), None);
    assert_eq!(query.block_id, BlockId::Number(BlockTag::Latest));
    let query = query
        .resolved(BlockResolution::<_, &str, &str>::Resolved(MiniblockNumber(17)))
        .unwrap();
    assert_eq!(query.number, MiniblockNumber(17));
    let traces: Result<Vec<DebugCall>, &str> = Ok(vec![
        call(10, vec![call(5, vec![])]),
        call(20, vec![]),
        call(30, vec![call(7, vec![]), call(8, vec![])]),
    ]);
    let answer = query.fetched::<&str, &str>(traces).unwrap();
    let gas: Vec<u64> = answer.iter().map(|entry| entry.result.gas.0[0]).collect();
    let calls: Vec<usize> = answer.iter().map(|entry| entry.result.calls.len()).collect();
    assert_eq!(gas, vec![10, 20, 30]);
    assert_eq!(calls, vec![1, 0, 2]);
}

#[test]
fn block_traces_are_cut_to_top_calls() {
    let query = namespace().debug_trace_block_impl(BlockId::Hash(H256([7; 32])), TOP_CALL);
    let query = query
        .resolved(BlockResolution::<_, &str, &str>::Resolved(MiniblockNumber(17)))
        .unwrap();
    let traces: Result<Vec<DebugCall>, &str> =
        Ok(vec![call(10, vec![call(5, vec![])]), call(20, vec![])]);
    let answer = query.fetched::<&str, &str>(traces).unwrap();
    assert_eq!(answer.len(), 2);
    for (entry, gas) in answer.iter().zip([10, 20]) {
        assert!(entry.result.calls.is_empty());
        assert_eq!(entry.result.gas, u256(gas));
        assert_eq!(entry.result.gas_used, u256(gas - 1));
        assert_eq!(entry.result.input, vec![5, 6]);
        assert_eq!(entry.result.output, vec![4]);
        assert_eq!(entry.result.revert_reason.as_deref(), Some("reason"));
    }
}

#[test]
fn failures_of_block_traces() {
    let query = namespace().debug_trace_block_impl(BlockId::Number(BlockTag::Number(3)), None);
    assert!(matches!(
        query.resolved(BlockResolution::<MiniblockNumber, &str, &str>::NoStorage("pool")),
        Err(Web3Error::InternalError)
    ));
    assert!(matches!(
        query.resolved(BlockResolution::<MiniblockNumber, &str, &str>::Failed(Web3Error::Service(
            "no block"
        ))),
        Err(Web3Error::Service("no block"))
    ));
    let query = query
        .resolved(BlockResolution::<_, &str, &str>::Resolved(MiniblockNumber(17)))
        .unwrap();
    assert!(matches!(
        query.fetched::<&str, &str>(Err("query")),
        Err(Web3Error::InternalError)
    ));
}

#[test]
fn transaction_trace_needs_storage() {
    let namespace = namespace();
    let query = namespace.debug_trace_transaction_impl(H256([9; 32]), None);
    assert!(matches!(
        query.connected::<(), &str>(Err("pool")),
        Err(Web3Error::InternalError)
    ));
}

#[test]
fn replay_starts_from_the_miniblock_before() {
    let query = replay_query(2, None);
    assert_eq!(query.vm_env.l1_batch_number, L1BatchNumber(5));
    assert_eq!(query.vm_env.validation_computational_gas_limit, 80_000_000);
    assert_eq!(query.vm_env.l2_chain_id, L2ChainId(270));
    assert_eq!(query.vm_env.miniblock_number, MiniblockNumber(17));
    assert_eq!(
        query.vm_env.base_system_contracts,
        SystemContracts::Playground
    );
    assert_eq!(query.plan.previous_batch_hash, None);
    assert_eq!(query.plan.storage_miniblock, MiniblockNumber(16));
    assert_eq!(query.plan.stored_trace, vec!["inner", "other"]);
}

#[test]
fn replay_runs_in_its_environment_and_under_its_permit() {
    let replay = replay(2, None);
    assert_eq!(replay.vm_env, "environment");
    assert_eq!(replay.permit, "permit");
    assert_eq!(replay.plan.storage_miniblock, MiniblockNumber(16));
    let txs: Vec<u8> = replay.plan.miniblock.txs.iter().map(|tx| tx.tx).collect();
    assert_eq!(txs, vec![1, 2, 3]);
}

#[test]
fn replay_executes_each_transaction_once() {
    let replay = replay(2, None);
    let expected = [(0, false), (1, false), (2, true)];
    for (executed, (tx_index, traced)) in expected.into_iter().enumerate() {
        assert_eq!(replay.step(executed), Some(ReplayStep { tx_index, traced }));
    }
    assert_eq!(replay.step(3), None);
}

#[test]
fn replay_executes_as_many_transactions_as_the_receipt_says() {
    let first = replay(0, None);
    assert_eq!(
        first.step(0),
        Some(ReplayStep {
            tx_index: 2,
            traced: true
        })
    );
    assert_eq!(first.step(1), None);
    let all = replay(3, None);
    assert_eq!(
        all.step(2),
        Some(ReplayStep {
            tx_index: 2,
            traced: false
        })
    );
    assert_eq!(
        all.step(3),
        Some(ReplayStep {
            tx_index: 2,
            traced: true
        })
    );
}

#[test]
fn traced_transaction_is_the_last_one() {
    let (call, answer) = replay(2, None).executed(Some(vec!["inner", "other"]));
    assert_eq!(call.gas, 1_000_003);
    assert_eq!(call.gas_used, 21_000);
    assert_eq!(call.value, u256(3));
    assert_eq!(call.input, vec![3, 3]);
    assert!(call.output.is_empty());
    assert!(call.revert_reason.is_none());
    assert_eq!(call.calls, vec!["inner", "other"]);
    assert!(!answer.only_top_call);
}

#[test]
fn transaction_trace_is_cut_to_the_top_call() {
    let (_, answer) = replay(2, TOP_CALL).executed(Some(vec!["inner", "other"]));
    let shown = answer.finish(call(10, vec![call(5, vec![])])).unwrap();
    assert!(shown.calls.is_empty());
    assert_eq!(shown.gas, u256(10));
    let (_, answer) = replay(2, ALL_CALLS).executed(Some(vec!["inner", "other"]));
    let shown = answer.finish(call(10, vec![call(5, vec![])])).unwrap();
    assert_eq!(shown.calls.len(), 1);
}

#[test]
fn tracer_without_calls_has_recorded_none() {
    assert!(into_recorded_calls::<u8>(None).is_empty());
    assert_eq!(into_recorded_calls(Some(vec![4, 5])), vec![4, 5]);
    let namespace = namespace();
    let connection: Result<(), &str> = Ok(());
    let replay = namespace
        .debug_trace_transaction_impl(H256([9; 32]), None)
        .connected::<(), &str>(connection)
        .unwrap()
        .found(receipt(0))
        .found(MiniblockToExecute {
            number: MiniblockNumber(17),
            txs: vec![transaction(1)],
        })
        .found(receipt(0), Vec::<u8>::new())
        .ready((), ());
    let (call, _) = replay.executed(None);
    assert!(call.calls.is_empty());
}

fn call_execution(
    namespace: &DebugNamespace<Caches>,
    options: Option<TracerConfig>,
) -> CallExecution<'_, Caches, &'static str, &'static str, &'static str> {
    let query = namespace.debug_trace_call_impl(None, options);
    assert_eq!(query.block_id, BlockId::Number(BlockTag::Pending));
    let query = query
        .resolved(BlockResolution::<_, &str, &str>::Resolved("block"))
        .unwrap();
    let tx: Result<CallTransaction<&str>, Web3Error<&str>> = Ok(CallTransaction {
        tx: "transaction",
        gas_limit: u256(500_000),
        value: u256(12),
        calldata: vec![1, 2, 3],
    });
    let query = query.converted(tx).unwrap();
    query.acquired::<&str, &str>(Some("permit")).unwrap()
}

#[test]
fn call_is_executed_with_the_namespace_configuration() {
    let namespace = namespace();
    let execution = call_execution(&namespace, None);
    assert_eq!(execution.permit, "permit");
    assert_eq!(execution.block_args, "block");
    assert_eq!(execution.tx.tx, "transaction");
    assert_eq!(execution.shared_args, namespace.shared_args());
    assert_eq!(
        execution.shared_args.base_system_contracts,
        SystemContracts::EthCall
    );
    assert_eq!(*execution.shared_args.caches, "caches of the sender");
    assert_eq!(execution.vm_execution_cache_misses_limit, Some(1000));
    assert!(execution.use_call_tracer);
    assert!(!call_execution(&namespace, TOP_CALL).use_call_tracer);
}

#[test]
fn call_is_executed_on_the_given_block() {
    let namespace = namespace();
    let query = namespace.debug_trace_call_impl(Some(BlockId::Hash(H256([8; 32]))), None);
    assert_eq!(query.block_id, BlockId::Hash(H256([8; 32])));
}

#[test]
fn successful_call() {
    let execution: Result<Execution, &str> = Ok(Execution {
        result: ExecutionResult::Success { output: vec![7, 8] },
        gas_used: 400,
    });
    let call = call_execution(&namespace(), None)
        .executed::<&str, &str, &str>(execution, Some(vec!["inner"]))
        .unwrap();
    assert_eq!(call.gas, 500_000);
    assert_eq!(call.gas_used, 400);
    assert_eq!(call.value, u256(12));
    assert_eq!(call.input, vec![1, 2, 3]);
    assert_eq!(call.output, vec![7, 8]);
    assert!(call.revert_reason.is_none());
    assert_eq!(call.calls, vec!["inner"]);
}

#[test]
fn reverted_call_is_an_answer() {
    let execution: Result<Execution, &str> = Ok(Execution {
        result: ExecutionResult::Revert {
            reason: "out of luck".to_string(),
        },
        gas_used: 300,
    });
    let call = call_execution(&namespace(), TOP_CALL)
        .executed::<&str, &str, &str>(execution, None)
        .unwrap();
    assert!(call.output.is_empty());
    assert_eq!(call.revert_reason.as_deref(), Some("out of luck"));
    assert!(call.calls.is_empty());
}

#[test]
fn halted_call_is_an_error() {
    let execution: Result<Execution, &str> = Ok(Execution {
        result: ExecutionResult::Halt {
            reason: "validation failed".to_string(),
        },
        gas_used: 0,
    });
    match call_execution(&namespace(), None).executed::<&str, &str, &str>(execution, None) {
        Err(Web3Error::SubmitTransactionError(message, data)) => {
            assert_eq!(message, "validation failed");
            assert!(data.is_empty());
        }
        other => panic!("unexpected result: {:?}", other),
    }
}

#[test]
fn failures_of_call_traces() {
    let namespace = namespace();
    let query = namespace.debug_trace_call_impl(None, None);
    assert!(matches!(
        query.resolved(BlockResolution::<&str, &str, &str>::NoStorage("pool")),
        Err(Web3Error::InternalError)
    ));
    assert!(matches!(
        query.resolved(BlockResolution::<&str, &str, &str>::Failed(Web3Error::Service(
            "no block"
        ))),
        Err(Web3Error::Service("no block"))
    ));
    let query = query
        .resolved(BlockResolution::<_, &str, &str>::Resolved("block"))
        .unwrap();
    assert!(matches!(
        query.converted::<&str, &str>(Err(Web3Error::Service("bad request"))),
        Err(Web3Error::Service("bad request"))
    ));
    let tx: Result<CallTransaction<&str>, Web3Error<&str>> = Ok(CallTransaction {
        tx: "transaction",
        gas_limit: u256(1),
        value: u256(0),
        calldata: vec![],
    });
    let query = query.converted(tx).unwrap();
    assert!(matches!(
        query.acquired::<&str, &str>(None),
        Err(Web3Error::InternalError)
    ));
    let execution: Result<Execution, &str> = Err("vm");
    assert!(matches!(
        call_execution(&namespace, None).executed::<&str, &str, &str>(execution, None),
        Err(Web3Error::InternalError)
    ));
}
