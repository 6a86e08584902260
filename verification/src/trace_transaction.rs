//! The trace of a transaction, obtained by executing its miniblock again.
//!
//! The steps follow each other by their types: each one says what has to be fetched or executed,
//! and takes the outcome to produce the next.
use vstd::prelude::*;

use crate::debug::{
    asks_for_top_call_only, into_recorded_calls, only_top_call, recorded_calls, DebugCall,
    DebugNamespace, HighLevelCall, TracerConfig, Web3Error,
};
use crate::primitives::{L1BatchNumber, MiniblockNumber, H256, U256};
use crate::vm_utils::{SystemContracts, VmEnvRequest};

verus! {

/// What a trace needs of the receipt of a transaction.
#[derive(Clone, Copy, Debug, PartialEq, Eq)]
pub struct Receipt {
    /// Number of the block with the transaction.
    pub block_number: u64,
    /// Number of the L1 batch with the transaction.
    pub l1_batch_number: Option<u64>,
    /// Index of the transaction in its block.
    pub transaction_index: u64,
    /// Gas that the transaction used.
    pub gas_used: Option<U256>,
}

/// What a trace needs of a transaction.
#[derive(Debug)]
pub struct Transaction<T> {
    /// The transaction, as it gets executed.
    pub tx: T,
    /// Hash of the transaction.
    pub hash: H256,
    /// Gas limit.
    pub gas_limit: U256,
    /// Value that is passed along.
    pub value: U256,
    /// Call data.
    pub calldata: Vec<u8>,
}

/// A miniblock with the transactions to execute.
#[derive(Debug)]
pub struct MiniblockToExecute<T> {
    /// Number of the miniblock.
    pub number: MiniblockNumber,
    /// Its transactions.
    pub txs: Vec<Transaction<T>>,
}

/// A connection to the storage is needed.
#[derive(Clone, Copy, Debug, PartialEq, Eq)]
pub struct ConnectionQuery<'a, S> {
    /// Hash of the transaction.
    pub tx_hash: H256,
    /// Whether the client has asked for the top call alone.
    pub only_top_call: bool,
    /// The namespace that was asked.
    pub namespace: &'a DebugNamespace<S>,
}

/// The receipt of the requested transaction is needed.
#[derive(Clone, Copy, Debug, PartialEq, Eq)]
pub struct ReceiptQuery<'a, S> {
    /// Hash of the transaction.
    pub tx_hash: H256,
    /// Whether the client has asked for the top call alone.
    pub only_top_call: bool,
    /// The namespace that was asked.
    pub namespace: &'a DebugNamespace<S>,
}

/// The miniblock of the requested transaction is needed.
#[derive(Clone, Copy, Debug, PartialEq, Eq)]
pub struct MiniblockQuery<'a, S> {
    /// Number of the miniblock.
    pub number: MiniblockNumber,
    /// Limit that is passed along with the number.
    pub limit: Option<u32>,
    /// Whether the client has asked for the top call alone.
    pub only_top_call: bool,
    /// The namespace that was asked.
    pub namespace: &'a DebugNamespace<S>,
}

/// The receipt and the stored call trace of the transaction that gets traced are needed.
#[derive(Debug)]
pub struct TracedTxQuery<'a, S, T> {
    /// Hash of the transaction: the last one of the miniblock.
    pub tx_hash: H256,
    /// The miniblock.
    pub miniblock: MiniblockToExecute<T>,
    /// Whether the client has asked for the top call alone.
    pub only_top_call: bool,
    /// The namespace that was asked.
    pub namespace: &'a DebugNamespace<S>,
}

/// How the transactions of a miniblock are executed again, and what is known of the last one.
#[derive(Debug)]
pub struct ReplayPlan<C, T> {
    /// Hash of the previous batch that the virtual machine is given.
    pub previous_batch_hash: Option<H256>,
    /// Miniblock whose state the virtual machine starts from.
    pub storage_miniblock: MiniblockNumber,
    /// How many transactions, from the first one on, are executed without a tracer.
    pub untraced: usize,
    /// Index of the transaction that is then executed with the call tracer.
    pub traced: usize,
    /// The miniblock.
    pub miniblock: MiniblockToExecute<T>,
    /// Receipt of the transaction that gets traced.
    pub receipt: Receipt,
    /// Calls of the stored trace of the transaction that gets traced.
    pub stored_trace: Vec<C>,
    /// Whether the client has asked for the top call alone.
    pub only_top_call: bool,
}

/// An environment for the virtual machine and a permit to run it are needed.
#[derive(Debug)]
pub struct ReplayQuery<C, T> {
    /// The environment.
    pub vm_env: VmEnvRequest,
    /// How the transactions are to be executed.
    pub plan: ReplayPlan<C, T>,
}

/// The transactions of the miniblock have to be executed again.
#[derive(Debug)]
pub struct Replay<C, T, V, P> {
    /// Environment of the virtual machine.
    pub vm_env: V,
    /// Permit to run the virtual machine, held until the replay is over.
    pub permit: P,
    /// How the transactions are to be executed.
    pub plan: ReplayPlan<C, T>,
}

/// One execution of a transaction in the course of a replay.
#[derive(Clone, Copy, Debug, PartialEq, Eq, Structural)]
pub struct ReplayStep {
    /// Index of the transaction in the miniblock.
    pub tx_index: usize,
    /// Whether it is executed with the call tracer.
    pub traced: bool,
}

/// The call of the traced transaction has to be put into the form that clients see.
#[derive(Clone, Copy, Debug, PartialEq, Eq, Structural)]
pub struct TransactionAnswer {
    /// Whether the client has asked for the top call alone.
    pub only_top_call: bool,
}

impl<S> DebugNamespace<S> {
    /// Starts the trace of a transaction.
    pub fn debug_trace_transaction_impl(
        &self,
        tx_hash: H256,
        options: Option<TracerConfig>,
    ) -> (query: ConnectionQuery<'_, S>)
        ensures
            query.tx_hash == tx_hash,
            query.only_top_call == asks_for_top_call_only(options),
            query.only_top_call == (options matches Some(options)
                && options.tracer_config.only_top_call),
            query.namespace == self,
    {
        ConnectionQuery { tx_hash, only_top_call: only_top_call(options), namespace: self }
    }
}

impl<'a, S> ConnectionQuery<'a, S> {
    /// Goes on if the storage could be accessed. Why it could not is not passed on.
    pub fn connected<E, F>(self, connection: Result<(), F>) -> (query: Result<
        ReceiptQuery<'a, S>,
        Web3Error<E>,
    >)
        ensures
            query == match connection {
                Ok(()) => Ok::<ReceiptQuery<'a, S>, Web3Error<E>>(
                    ReceiptQuery {
                        tx_hash: self.tx_hash,
                        only_top_call: self.only_top_call,
                        namespace: self.namespace,
                    },
                ),
                Err(_) => Err(Web3Error::InternalError),
            },
    {
        match connection {
            Ok(()) => Ok(
                ReceiptQuery {
                    tx_hash: self.tx_hash,
                    only_top_call: self.only_top_call,
                    namespace: self.namespace,
                },
            ),
            Err(_) => Err(Web3Error::InternalError),
        }
    }
}

impl<'a, S> ReceiptQuery<'a, S> {
    /// Goes on with the receipt of the requested transaction: its miniblock is asked for.
    pub fn found(self, receipt: Receipt) -> (query: MiniblockQuery<'a, S>)
        requires
            receipt.block_number <= u32::MAX,
        ensures
            query.number.0 == receipt.block_number,
            query.limit == Some(1u32),
            query.only_top_call == self.only_top_call,
            query.namespace == self.namespace,
    {
        MiniblockQuery {
            number: MiniblockNumber(receipt.block_number as u32),
            limit: Some(1),
            only_top_call: self.only_top_call,
            namespace: self.namespace,
        }
    }
}

impl<'a, S> MiniblockQuery<'a, S> {
    /// Goes on with the miniblock, which must have transactions: the last one gets traced.
    pub fn found<T>(self, miniblock: MiniblockToExecute<T>) -> (query: TracedTxQuery<'a, S, T>)
        requires
            miniblock.txs@.len() > 0,
        ensures
            query.tx_hash == miniblock.txs@.last().hash,
            query.miniblock == miniblock,
            query.only_top_call == self.only_top_call,
            query.namespace == self.namespace,
    {
        let tx_hash = miniblock.txs[miniblock.txs.len() - 1].hash;
        TracedTxQuery {
            tx_hash,
            miniblock,
            only_top_call: self.only_top_call,
            namespace: self.namespace,
        }
    }
}

impl<'a, S, T> TracedTxQuery<'a, S, T> {
    /// Goes on with the receipt and the stored call trace of the transaction that gets traced:
    /// says how the miniblock is executed again.
    pub fn found<C>(self, receipt: Receipt, stored_trace: Vec<C>) -> (query: ReplayQuery<C, T>)
        requires
            self.miniblock.txs@.len() > 0,
            self.miniblock.number.0 > 0,
            receipt.l1_batch_number matches Some(number) && number <= u32::MAX,
            receipt.transaction_index as usize <= self.miniblock.txs@.len(),
        ensures
            query.vm_env == (VmEnvRequest {
                l1_batch_number: L1BatchNumber(receipt.l1_batch_number->0 as u32),
                validation_computational_gas_limit: self.namespace.block_gas_limit,
                l2_chain_id: self.namespace.l2_chain_id,
                miniblock_number: self.miniblock.number,
                base_system_contracts: SystemContracts::Playground,
            }),
            query.plan.previous_batch_hash is None,
            query.plan.storage_miniblock.0 == self.miniblock.number.0 - 1,
            query.plan.untraced == receipt.transaction_index as usize,
            query.plan.traced == self.miniblock.txs@.len() - 1,
            query.plan.miniblock == self.miniblock,
            query.plan.receipt == receipt,
            query.plan.stored_trace == stored_trace,
            query.plan.only_top_call == self.only_top_call,
    {
        let l1_batch_number: u32 = match receipt.l1_batch_number {
            Some(number) => number as u32,
            None => 0,
        };
        ReplayQuery {
            vm_env: VmEnvRequest {
                l1_batch_number: L1BatchNumber(l1_batch_number),
                validation_computational_gas_limit: self.namespace.block_gas_limit,
                l2_chain_id: self.namespace.l2_chain_id,
                miniblock_number: self.miniblock.number,
                base_system_contracts: SystemContracts::Playground,
            },
            plan: ReplayPlan {
                previous_batch_hash: None,
                storage_miniblock: MiniblockNumber(self.miniblock.number.0 - 1),
                untraced: receipt.transaction_index as usize,
                traced: self.miniblock.txs.len() - 1,
                miniblock: self.miniblock,
                receipt,
                stored_trace,
                only_top_call: self.only_top_call,
            },
        }
    }
}

impl<C, T> ReplayQuery<C, T> {
    /// Goes on with the environment and the permit. There is no replay without them.
    pub fn ready<V, P>(self, vm_env: V, permit: P) -> (replay: Replay<C, T, V, P>)
        ensures
            replay == (Replay { vm_env, permit, plan: self.plan }),
    {
        Replay { vm_env, permit, plan: self.plan }
    }
}

impl<C, T, V, P> Replay<C, T, V, P> {
    /// The executions of a replay, in order: the untraced ones, then the traced one.
    pub open spec fn steps(self) -> Seq<ReplayStep> {
        Seq::new(
            self.plan.untraced as nat,
            |i: int| ReplayStep { tx_index: i as usize, traced: false },
        ).push(ReplayStep { tx_index: self.plan.traced, traced: true })
    }

    /// Returns the execution that comes after `executed` others, if there is one.
    pub fn step(&self, executed: usize) -> (step: Option<ReplayStep>)
        ensures
            match step {
                Some(step) => executed < self.steps().len() && step == self.steps()[executed as int],
                None => executed >= self.steps().len(),
            },
            executed < self.plan.untraced ==> (step matches Some(step) && step.tx_index == executed
                && !step.traced),
            executed == self.plan.untraced ==> (step matches Some(step) && step.tx_index
                == self.plan.traced && step.traced),
            executed > self.plan.untraced ==> step is None,
    {
        if executed < self.plan.untraced {
            Some(ReplayStep { tx_index: executed, traced: false })
        } else if executed == self.plan.untraced {
            Some(ReplayStep { tx_index: self.plan.traced, traced: true })
        } else {
            None
        }
    }

    /// Goes on with what the call tracer has recorded, if it has, which must be the stored call
    /// trace: returns the call to put into the form that clients see.
    pub fn executed(self, trace: Option<Vec<C>>) -> (traced: (HighLevelCall<C>, TransactionAnswer))
        requires
            self.plan.miniblock.txs@.len() > 0,
            self.plan.miniblock.txs@.last().gas_limit@ <= u32::MAX,
            self.plan.receipt.gas_used matches Some(gas_used) && gas_used@ <= u32::MAX,
            recorded_calls(trace) == self.plan.stored_trace@,
        ensures
            ({
                let tx = self.plan.miniblock.txs@.last();
                let (call, answer) = traced;
                &&& call.gas == tx.gas_limit@
                &&& call.gas_used == self.plan.receipt.gas_used->0@
                &&& call.value == tx.value
                &&& call.input == tx.calldata
                &&& call.output@ == Seq::<u8>::empty()
                &&& call.revert_reason is None
                &&& call.calls@ == recorded_calls(trace)
                &&& call.calls@ == self.plan.stored_trace@
                &&& trace matches Some(calls) ==> call.calls@ == calls@
                &&& trace is None ==> call.calls@.len() == 0
                &&& call.gas == tx.gas_limit.0[0]
                &&& call.gas_used == (self.plan.receipt.gas_used->0).0[0]
                &&& answer.only_top_call == self.plan.only_top_call
            }),
    {
        let gas_used = match self.plan.receipt.gas_used {
            Some(gas_used) => gas_used.as_u32(),
            None => 0,
        };
        let mut txs = self.plan.miniblock.txs;
        let last_tx = txs.pop().unwrap();
        let call = HighLevelCall {
            gas: last_tx.gas_limit.as_u32(),
            gas_used,
            value: last_tx.value,
            input: last_tx.calldata,
            output: Vec::new(),
            revert_reason: None,
            calls: into_recorded_calls(trace),
        };
        (call, TransactionAnswer { only_top_call: self.plan.only_top_call })
    }
}

impl TransactionAnswer {
    /// Ends the trace with the call in the form that clients see.
    pub fn finish(self, call: DebugCall) -> (answer: Option<DebugCall>)
        ensures
            answer matches Some(answer) && call.answered_by(self.only_top_call, answer),
            answer matches Some(answer) && answer == (DebugCall { calls: answer.calls, ..call }),
            self.only_top_call ==> (answer matches Some(answer) && answer.calls@.len() == 0),
            !self.only_top_call ==> answer == Some(call),
    {
        Some(call.restrict(self.only_top_call))
    }
}

/// A client that asks for all calls of a transaction gets the call as it is; one that asks for the
/// top call alone gets the same call without any call below it.
pub proof fn lemma_transaction_is_answered_in_full(
    call: DebugCall,
    all: Option<DebugCall>,
    top: Option<DebugCall>,
)
    requires
        call_ensures(
            TransactionAnswer::finish,
            (TransactionAnswer { only_top_call: false }, call),
            all,
        ),
        call_ensures(
            TransactionAnswer::finish,
            (TransactionAnswer { only_top_call: true }, call),
            top,
        ),
    ensures
        all == Some(call),
        top is Some,
        top->0.calls@.len() == 0,
        top->0 == (DebugCall { calls: top->0.calls, ..call }),
{
}

/// The traced call is that of the last transaction, over all calls of its stored trace.
pub proof fn lemma_traced_call_is_that_of_the_last_tx<C, T, V, P>(
    replay: Replay<C, T, V, P>,
    trace: Option<Vec<C>>,
    traced: (HighLevelCall<C>, TransactionAnswer),
)
    requires
        replay.plan.miniblock.txs@.len() > 0,
        call_ensures(Replay::<C, T, V, P>::executed, (replay, trace), traced),
    ensures
        traced.0.calls@ == replay.plan.stored_trace@,
        traced.0.value == replay.plan.miniblock.txs@.last().value,
        traced.0.input == replay.plan.miniblock.txs@.last().calldata,
        traced.0.output@.len() == 0,
        traced.0.revert_reason is None,
        traced.1.only_top_call == replay.plan.only_top_call,
{
}

/// A replay first executes as many transactions as its plan says, from the first one on and without
/// a tracer, and then ends with the traced one.
pub proof fn lemma_replay_ends_with_the_traced_tx<C, T, V, P>(replay: Replay<C, T, V, P>, i: int)
    requires
        0 <= i < replay.steps().len(),
    ensures
        replay.steps().len() == replay.plan.untraced + 1,
        replay.steps()[i].traced <==> i == replay.plan.untraced,
        replay.steps()[i].tx_index == if replay.steps()[i].traced {
            replay.plan.traced as int
        } else {
            i
        },
{
}

/// Where the receipt says of the last transaction that it is the last one, a replay executes each
/// transaction of the miniblock once and in order, and traces the last one alone.
pub proof fn lemma_replay_executes_each_tx_once<C, T, V, P>(replay: Replay<C, T, V, P>)
    requires
        replay.plan.miniblock.txs@.len() > 0,
        replay.plan.untraced == replay.plan.miniblock.txs@.len() - 1,
        replay.plan.traced == replay.plan.miniblock.txs@.len() - 1,
    ensures
        replay.steps().len() == replay.plan.miniblock.txs@.len(),
        forall|i: int|
            0 <= i < replay.steps().len() ==> {
                &&& (#[trigger] replay.steps()[i]).tx_index == i
                &&& replay.steps()[i].traced <==> i == replay.plan.miniblock.txs@.len() - 1
            },
{
}

/// To trace a transaction, the whole miniblock of its receipt is executed again from the state before
/// it, with the contracts of the playground and as a part of the batch that the receipt of the last
/// transaction names. That transaction is the one that gets traced.
pub proof fn lemma_replay_of_a_transaction<'a, S, T, C, E, F>(
    namespace: &'a DebugNamespace<S>,
    tx_hash: H256,
    options: Option<TracerConfig>,
    started: ConnectionQuery<'a, S>,
    connected: Result<ReceiptQuery<'a, S>, Web3Error<E>>,
    receipt: Receipt,
    miniblock_query: MiniblockQuery<'a, S>,
    miniblock: MiniblockToExecute<T>,
    last_query: TracedTxQuery<'a, S, T>,
    last_receipt: Receipt,
    stored_trace: Vec<C>,
    replay: ReplayQuery<C, T>,
)
    requires
        receipt.block_number <= u32::MAX,
        miniblock.txs@.len() > 0,
        miniblock.number.0 > 0,
        last_receipt.l1_batch_number matches Some(number) && number <= u32::MAX,
        last_receipt.transaction_index as usize <= miniblock.txs@.len(),
        call_ensures(
            DebugNamespace::<S>::debug_trace_transaction_impl,
            (namespace, tx_hash, options),
            started,
        ),
        call_ensures(
            ConnectionQuery::<'a, S>::connected::<E, F>,
            (started, Ok::<(), F>(())),
            connected,
        ),
        connected is Ok ==> call_ensures(
            ReceiptQuery::<'a, S>::found,
            (connected->Ok_0, receipt),
            miniblock_query,
        ),
        call_ensures(MiniblockQuery::<'a, S>::found::<T>, (miniblock_query, miniblock), last_query),
        call_ensures(
            TracedTxQuery::<'a, S, T>::found::<C>,
            (last_query, last_receipt, stored_trace),
            replay,
        ),
    ensures
        connected is Ok,
        connected->Ok_0.tx_hash == tx_hash,
        miniblock_query.number.0 == receipt.block_number,
        last_query.tx_hash == miniblock.txs@.last().hash,
        replay.vm_env.miniblock_number == miniblock.number,
        replay.vm_env.l1_batch_number.0 == last_receipt.l1_batch_number->0,
        replay.vm_env.l2_chain_id == namespace.l2_chain_id,
        replay.vm_env.validation_computational_gas_limit == namespace.block_gas_limit,
        replay.vm_env.base_system_contracts is Playground,
        replay.plan.storage_miniblock.0 + 1 == miniblock.number.0,
        replay.plan.previous_batch_hash is None,
        replay.plan.miniblock == miniblock,
        replay.plan.traced + 1 == miniblock.txs@.len(),
        replay.plan.untraced == last_receipt.transaction_index as usize,
        replay.plan.stored_trace == stored_trace,
        replay.plan.only_top_call <==> (options matches Some(options)
            && options.tracer_config.only_top_call),
{
}

} // verus!
