//! The `debug` namespace: call traces of blocks, transactions and calls.
use vstd::prelude::*;

use crate::primitives::{Address, L2ChainId, MiniblockNumber, H256, U256};
use crate::vm_utils::SystemContracts;

verus! {

/// Options of the call tracer.
#[derive(Clone, Copy, Debug, PartialEq, Eq, Structural)]
pub struct CallConfig {
    /// Whether calls made by the top call are left out.
    pub only_top_call: bool,
}

/// Options of a trace request.
#[derive(Clone, Copy, Debug, PartialEq, Eq, Structural)]
pub struct TracerConfig {
    /// Options of the call tracer.
    pub tracer_config: CallConfig,
}

/// The request asks for the top call alone. By default it does not.
pub open spec fn asks_for_top_call_only(options: Option<TracerConfig>) -> bool {
    options matches Some(options) && options.tracer_config.only_top_call
}

/// Returns whether the request asks for the top call alone.
pub fn only_top_call(options: Option<TracerConfig>) -> (only: bool)
    ensures
        only == asks_for_top_call_only(options),
        options is None ==> !only,
        options matches Some(options) ==> only == options.tracer_config.only_top_call,
{
    match options {
        Some(options) => options.tracer_config.only_top_call,
        None => false,
    }
}

/// A request without options asks for all calls, and one with options for what they say.
pub proof fn lemma_what_is_asked_for(options: Option<TracerConfig>, only: bool)
    requires
        call_ensures(only_top_call, (options,), only),
    ensures
        only == asks_for_top_call_only(options),
        only <==> (options matches Some(options) && options.tracer_config.only_top_call),
{
}

/// Kind of a call.
#[derive(Clone, Copy, Debug, PartialEq, Eq, Structural)]
pub enum DebugCallType {
    /// A call.
    Call,
    /// The creation of a contract.
    Create,
}

/// A traced call, as clients see it.
#[derive(Debug)]
pub struct DebugCall {
    /// Kind of the call.
    pub call_type: DebugCallType,
    /// Caller.
    pub from: Address,
    /// Callee.
    pub to: Address,
    /// Gas that the call was given.
    pub gas: U256,
    /// Gas that the call used.
    pub gas_used: U256,
    /// Value that was passed along.
    pub value: U256,
    /// Returned data.
    pub output: Vec<u8>,
    /// Call data.
    pub input: Vec<u8>,
    /// Error of the virtual machine.
    pub error: Option<String>,
    /// Reason of a revert.
    pub revert_reason: Option<String>,
    /// Calls that this call made.
    pub calls: Vec<DebugCall>,
}

impl DebugCall {
    /// `other` is the same call, save for the calls that it made.
    pub open spec fn same_frame(self, other: DebugCall) -> bool {
        &&& self.call_type == other.call_type
        &&& self.from == other.from
        &&& self.to == other.to
        &&& self.gas == other.gas
        &&& self.gas_used == other.gas_used
        &&& self.value == other.value
        &&& self.output == other.output
        &&& self.input == other.input
        &&& self.error == other.error
        &&& self.revert_reason == other.revert_reason
    }

    /// `answer` is what a client that asks, or does not ask, for the top call alone gets to see of
    /// this call.
    pub open spec fn answered_by(self, only_top_call: bool, answer: DebugCall) -> bool {
        &&& self.same_frame(answer)
        &&& answer.calls@ == if only_top_call {
            Seq::empty()
        } else {
            self.calls@
        }
    }

    /// Leaves out the calls that this call made if the client has asked for the top call alone.
    pub fn restrict(self, only_top_call: bool) -> (answer: DebugCall)
        ensures
            self.answered_by(only_top_call, answer),
            answer == (DebugCall { calls: answer.calls, ..self }),
            only_top_call ==> answer.calls@.len() == 0,
            !only_top_call ==> answer == self,
    {
        let mut result = self;
        if only_top_call {
            result.calls = Vec::new();
        }
        result
    }
}

/// An answer shows the call as it was traced: who called whom and how, with which gas and value,
/// and what came of it. If the client has asked for the top call alone, it shows no call below it,
/// however many there were; otherwise it shows all of them, in order.
pub proof fn lemma_what_an_answer_shows(call: DebugCall, only_top_call: bool, answer: DebugCall)
    requires
        call.answered_by(only_top_call, answer),
    ensures
        answer.call_type == call.call_type,
        answer.from == call.from,
        answer.to == call.to,
        answer.gas == call.gas,
        answer.gas_used == call.gas_used,
        answer.value == call.value,
        answer.output == call.output,
        answer.input == call.input,
        answer.error == call.error,
        answer.revert_reason == call.revert_reason,
        only_top_call ==> answer.calls@.len() == 0,
        !only_top_call ==> answer.calls@ == call.calls@,
{
}

/// A call that is shown in full is shown unchanged. One of which the top call alone is shown is left
/// without calls, and shown again it stays as it is.
pub proof fn lemma_restricting_a_call(call: DebugCall, all: DebugCall, top: DebugCall, again: DebugCall)
    requires
        call_ensures(DebugCall::restrict, (call, false), all),
        call_ensures(DebugCall::restrict, (call, true), top),
        call_ensures(DebugCall::restrict, (top, true), again),
    ensures
        all == call,
        top.calls@.len() == 0,
        top == (DebugCall { calls: top.calls, ..call }),
        again.calls@ == top.calls@,
        again == (DebugCall { calls: again.calls, ..top }),
{
}

/// What a client that asks for the top call alone gets is what it would get otherwise, without the
/// calls that the top call made.
pub proof fn lemma_top_call_is_the_same(call: DebugCall, all: DebugCall, top: DebugCall)
    requires
        call.answered_by(false, all),
        call.answered_by(true, top),
    ensures
        all.answered_by(true, top),
        all.calls@ == call.calls@,
{
}

/// The calls that a call tracer has recorded. One that was not used, or has not met a call, has
/// recorded none.
pub open spec fn recorded_calls<C>(trace: Option<Vec<C>>) -> Seq<C> {
    match trace {
        Some(calls) => calls@,
        None => Seq::empty(),
    }
}

/// Returns the calls that a call tracer has recorded.
pub fn into_recorded_calls<C>(trace: Option<Vec<C>>) -> (calls: Vec<C>)
    ensures
        calls@ == recorded_calls(trace),
        trace matches Some(recorded) ==> calls == recorded,
        trace is None ==> calls@.len() == 0,
{
    match trace {
        Some(calls) => calls,
        None => Vec::new(),
    }
}

/// All that a call tracer has recorded counts, in the order of recording, and nothing else does.
pub proof fn lemma_all_recorded_calls_count<C>(trace: Option<Vec<C>>, calls: Vec<C>)
    requires
        call_ensures(into_recorded_calls::<C>, (trace,), calls),
    ensures
        calls@ == recorded_calls(trace),
        trace matches Some(recorded) ==> calls@ == recorded@ && recorded_calls(trace) == recorded@,
        trace is None ==> calls@.len() == 0 && recorded_calls(trace).len() == 0,
{
}

/// An entry of the answer to a request for the traces of a block.
#[derive(Debug)]
pub struct ResultDebugCall {
    /// The traced call.
    pub result: DebugCall,
}

/// A call at the level of a whole transaction, over the calls that were traced below it.
#[derive(Debug)]
pub struct HighLevelCall<C> {
    /// Gas limit of the transaction.
    pub gas: u32,
    /// Gas that the transaction used.
    pub gas_used: u32,
    /// Value that was passed along.
    pub value: U256,
    /// Call data.
    pub input: Vec<u8>,
    /// Returned data.
    pub output: Vec<u8>,
    /// Reason of a revert.
    pub revert_reason: Option<String>,
    /// Traced calls.
    pub calls: Vec<C>,
}

/// Block that a request refers to by its position in the chain.
#[derive(Clone, Copy, Debug, PartialEq, Eq, Structural)]
pub enum BlockTag {
    /// The last block that is committed on L1.
    Committed,
    /// The last block that is final on L1.
    Finalized,
    /// The last sealed block.
    Latest,
    /// The first block.
    Earliest,
    /// The block after the last sealed one.
    Pending,
    /// The block with the given number.
    Number(u64),
}

/// Block that a request refers to.
#[derive(Clone, Copy, Debug, PartialEq, Eq)]
pub enum BlockId {
    /// The block with the given hash.
    Hash(H256),
    /// The block at the given position.
    Number(BlockTag),
}

/// Errors that clients see.
#[derive(Debug)]
pub enum Web3Error<E> {
    /// Something failed that is none of the client's business.
    InternalError,
    /// The transaction was not executed, for the given reason.
    SubmitTransactionError(String, Vec<u8>),
    /// A service has found fault with the request.
    Service(E),
}

/// How the search for the block of a request went. A block that is found is given as an `A`.
#[derive(Debug)]
pub enum BlockResolution<A, E, F> {
    /// The storage could not be accessed.
    NoStorage(F),
    /// The request cannot be answered for this block.
    Failed(Web3Error<E>),
    /// The block has been found.
    Resolved(A),
}

impl<A, E, F> BlockResolution<A, E, F> {
    /// The block, or the error to answer with.
    pub open spec fn outcome(self) -> Result<A, Web3Error<E>> {
        match self {
            BlockResolution::NoStorage(_) => Err(Web3Error::InternalError),
            BlockResolution::Failed(err) => Err(err),
            BlockResolution::Resolved(block) => Ok(block),
        }
    }

    /// Returns the block, or the error to answer with. Why the storage could not be accessed is
    /// not passed on.
    pub fn into_result(self) -> (result: Result<A, Web3Error<E>>)
        ensures
            result == self.outcome(),
            self is NoStorage ==> (result matches Err(err) && err is InternalError),
            self matches BlockResolution::Failed(fault) ==> (result matches Err(err) && err
                == fault),
            self matches BlockResolution::Resolved(block) ==> (result matches Ok(found) && found
                == block),
    {
        match self {
            BlockResolution::NoStorage(_) => Err(Web3Error::InternalError),
            BlockResolution::Failed(err) => Err(err),
            BlockResolution::Resolved(block) => Ok(block),
        }
    }
}

/// A block that was found is the one to go on with, and a fault that was found with the request is
/// the answer. That the storage could not be accessed is an internal error, whatever the reason.
pub proof fn lemma_outcome_of_resolution<A, E, F>(
    resolution: BlockResolution<A, E, F>,
    result: Result<A, Web3Error<E>>,
)
    requires
        call_ensures(BlockResolution::<A, E, F>::into_result, (resolution,), result),
    ensures
        result == resolution.outcome(),
        result is Ok <==> resolution is Resolved,
        result matches Ok(block) ==> resolution == BlockResolution::<A, E, F>::Resolved(block),
        result matches Err(err) ==> resolution is NoStorage && err is InternalError || resolution
            == BlockResolution::<A, E, F>::Failed(err),
{
}

/// The block whose traces are requested is needed.
#[derive(Clone, Copy, Debug, PartialEq, Eq)]
pub struct TracedBlockQuery {
    /// The block.
    pub block_id: BlockId,
    /// Whether the client has asked for top calls alone.
    pub only_top_call: bool,
}

/// The call traces of the transactions of the block are needed.
#[derive(Clone, Copy, Debug, PartialEq, Eq, Structural)]
pub struct CallTracesQuery {
    /// Number of the block.
    pub number: MiniblockNumber,
    /// Whether the client has asked for top calls alone.
    pub only_top_call: bool,
}

/// Fee input of a batch.
#[derive(Clone, Copy, Debug, PartialEq, Eq, Structural)]
pub enum BatchFeeInput {
    /// Prices are pegged to that of L1 gas.
    L1Pegged {
        /// Fair price of L2 gas.
        fair_l2_gas_price: u64,
        /// Price of L1 gas.
        l1_gas_price: u64,
    },
    /// The price of pubdata is independent of that of L1 gas.
    PubdataIndependent {
        /// Fair price of L2 gas.
        fair_l2_gas_price: u64,
        /// Fair price of pubdata.
        fair_pubdata_price: u64,
        /// Price of L1 gas.
        l1_gas_price: u64,
    },
}

/// Configuration of the transaction sender, as far as calls are concerned.
#[derive(Clone, Copy, Debug, PartialEq, Eq, Structural)]
pub struct TxSenderConfig {
    /// The chain that transactions are executed on.
    pub chain_id: L2ChainId,
    /// Limit on the cache misses of an execution.
    pub vm_execution_cache_misses_limit: Option<usize>,
}

/// Arguments shared by executions of transactions.
#[derive(Clone, Copy, Debug, PartialEq, Eq)]
pub struct TxSharedArgs<'a, S> {
    /// Account of the operator.
    pub operator_account: Address,
    /// Fee input of the batch.
    pub fee_input: BatchFeeInput,
    /// System contracts that the virtual machine runs with.
    pub base_system_contracts: SystemContracts,
    /// Caches of the storage.
    pub caches: &'a S,
    /// Limit on the computational gas of validation.
    pub validation_computational_gas_limit: u32,
    /// The chain that transactions are executed on.
    pub chain_id: L2ChainId,
}

/// `address` consists of zeros.
pub open spec fn is_zero_address(address: Address) -> bool {
    forall|i: int| 0 <= i < 20 ==> #[trigger] address.0[i] == 0
}

/// The `debug` namespace, over storage caches of type `S`.
#[derive(Clone, Copy, Debug, PartialEq, Eq)]
pub struct DebugNamespace<S> {
    /// Fee input that calls are executed with.
    pub batch_fee_input: BatchFeeInput,
    /// The chain that transactions are replayed on.
    pub l2_chain_id: L2ChainId,
    /// Configuration of the transaction sender.
    pub sender_config: TxSenderConfig,
    /// Storage caches of the transaction sender.
    pub storage_caches: S,
    /// Gas limit of a block.
    pub block_gas_limit: u32,
}

impl<S> DebugNamespace<S> {
    /// Creates the namespace.
    pub fn new(
        batch_fee_input: BatchFeeInput,
        l2_chain_id: L2ChainId,
        sender_config: TxSenderConfig,
        storage_caches: S,
        block_gas_limit: u32,
    ) -> (namespace: DebugNamespace<S>)
        ensures
            namespace == (DebugNamespace {
                batch_fee_input,
                l2_chain_id,
                sender_config,
                storage_caches,
                block_gas_limit,
            }),
    {
        DebugNamespace {
            batch_fee_input,
            l2_chain_id,
            sender_config,
            storage_caches,
            block_gas_limit,
        }
    }

    /// Returns the configuration of the transaction sender.
    pub fn sender_config(&self) -> (config: &TxSenderConfig)
        ensures
            *config == self.sender_config,
    {
        &self.sender_config
    }

    /// Starts the answer to a request for the traces of a block.
    pub fn debug_trace_block_impl(
        &self,
        block_id: BlockId,
        options: Option<TracerConfig>,
    ) -> (query: TracedBlockQuery)
        ensures
            query.block_id == block_id,
            query.only_top_call == asks_for_top_call_only(options),
            query.only_top_call == (options matches Some(options)
                && options.tracer_config.only_top_call),
    {
        TracedBlockQuery { block_id, only_top_call: only_top_call(options) }
    }

    /// `args` are those that calls are executed with.
    pub open spec fn shares(self, args: TxSharedArgs<S>) -> bool {
        &&& is_zero_address(args.operator_account)
        &&& args.fee_input == self.batch_fee_input
        &&& args.base_system_contracts == SystemContracts::EthCall
        &&& *args.caches == self.storage_caches
        &&& args.validation_computational_gas_limit == self.block_gas_limit
        &&& args.chain_id == self.sender_config.chain_id
    }

    /// Returns the arguments shared by executions of calls.
    pub fn shared_args(&self) -> (args: TxSharedArgs<'_, S>)
        ensures
            self.shares(args),
            args.operator_account.0@ == Seq::new(20, |i: int| 0u8),
            args.fee_input == self.batch_fee_input,
            args.base_system_contracts is EthCall,
            *args.caches == self.storage_caches,
            args.validation_computational_gas_limit == self.block_gas_limit,
            args.chain_id == self.sender_config.chain_id,
    {
        let sender_config = self.sender_config();
        let args = TxSharedArgs {
            operator_account: Address([0; 20]),
            fee_input: self.batch_fee_input,
            base_system_contracts: SystemContracts::EthCall,
            caches: &self.storage_caches,
            validation_computational_gas_limit: self.block_gas_limit,
            chain_id: sender_config.chain_id,
        };
        assert(args.operator_account.0@ =~= Seq::new(20, |i: int| 0u8));
        args
    }
}

/// Calls are executed with the very fee input, caches, limit and chain that the namespace was made
/// with, on behalf of the account zero.
pub proof fn lemma_what_calls_share<S>(namespace: DebugNamespace<S>, args: TxSharedArgs<S>)
    requires
        namespace.shares(args),
    ensures
        forall|i: int| 0 <= i < 20 ==> #[trigger] args.operator_account.0@[i] == 0,
        args.fee_input == namespace.batch_fee_input,
        args.base_system_contracts is EthCall,
        *args.caches == namespace.storage_caches,
        args.validation_computational_gas_limit == namespace.block_gas_limit,
        args.chain_id == namespace.sender_config.chain_id,
{
}

/// A namespace executes calls with what it was made with: made with another fee input or chain, it
/// would execute them with that one.
pub proof fn lemma_namespace_passes_on_its_configuration<S>(
    batch_fee_input: BatchFeeInput,
    l2_chain_id: L2ChainId,
    sender_config: TxSenderConfig,
    storage_caches: S,
    block_gas_limit: u32,
    namespace: DebugNamespace<S>,
    args: TxSharedArgs<S>,
)
    requires
        call_ensures(
            DebugNamespace::<S>::new,
            (batch_fee_input, l2_chain_id, sender_config, storage_caches, block_gas_limit),
            namespace,
        ),
        call_ensures(DebugNamespace::<S>::shared_args, (&namespace,), args),
    ensures
        args.fee_input == batch_fee_input,
        args.base_system_contracts is EthCall,
        *args.caches == storage_caches,
        args.validation_computational_gas_limit == block_gas_limit,
        args.chain_id == sender_config.chain_id,
{
}

impl TracedBlockQuery {
    /// Goes on if the block could be resolved: its call traces are asked for.
    pub fn resolved<E, F>(self, block: BlockResolution<MiniblockNumber, E, F>) -> (query: Result<
        CallTracesQuery,
        Web3Error<E>,
    >)
        ensures
            query == match block.outcome() {
                Ok(number) => Ok::<CallTracesQuery, Web3Error<E>>(
                    CallTracesQuery { number, only_top_call: self.only_top_call },
                ),
                Err(err) => Err(err),
            },
            block is NoStorage ==> (query matches Err(err) && err is InternalError),
            block matches BlockResolution::Failed(fault) ==> (query matches Err(err) && err
                == fault),
            block matches BlockResolution::Resolved(number) ==> (query matches Ok(query)
                && query.number == number && query.only_top_call == self.only_top_call),
    {
        match block.into_result() {
            Ok(number) => Ok(CallTracesQuery { number, only_top_call: self.only_top_call }),
            Err(err) => Err(err),
        }
    }
}

impl CallTracesQuery {
    /// Ends the answer with the call traces, which are answered in the given order.
    pub fn fetched<E, F>(self, call_traces: Result<Vec<DebugCall>, F>) -> (answer: Result<
        Vec<ResultDebugCall>,
        Web3Error<E>,
    >)
        ensures
            match call_traces {
                Ok(call_traces) => {
                    &&& answer matches Ok(answer)
                    &&& answer@.len() == call_traces@.len()
                    &&& forall|i: int|
                        0 <= i < answer@.len() ==> call_traces@[i].answered_by(
                            self.only_top_call,
                            (#[trigger] answer@[i]).result,
                        )
                    &&& forall|i: int|
                        0 <= i < answer@.len() ==> (#[trigger] answer@[i]).result == (DebugCall {
                            calls: answer@[i].result.calls,
                            ..call_traces@[i]
                        })
                    &&& self.only_top_call ==> forall|i: int|
                        0 <= i < answer@.len() ==> (#[trigger] answer@[i]).result.calls@.len() == 0
                    &&& !self.only_top_call ==> forall|i: int|
                        0 <= i < answer@.len() ==> (#[trigger] answer@[i]).result == call_traces@[i]
                },
                Err(_) => answer == Err::<Vec<ResultDebugCall>, Web3Error<E>>(
                    Web3Error::InternalError,
                ),
            },
    {
        let call_traces = match call_traces {
            Ok(call_traces) => call_traces,
            Err(_) => {
                return Err(Web3Error::InternalError);
            },
        };
        let only_top_call = self.only_top_call;
        let mut remaining = call_traces;
        // The traces in reverse order.
        let mut results: Vec<ResultDebugCall> = Vec::new();
        while remaining.len() > 0
            invariant
                only_top_call == self.only_top_call,
                remaining@.len() + results@.len() == call_traces@.len(),
                remaining@ == call_traces@.take(remaining@.len() as int),
                forall|i: int|
                    0 <= i < results@.len() ==> call_traces@[call_traces@.len() - 1
                        - i].answered_by(only_top_call, (#[trigger] results@[i]).result),
                forall|i: int|
                    0 <= i < results@.len() ==> (#[trigger] results@[i]).result == (DebugCall {
                        calls: results@[i].result.calls,
                        ..call_traces@[call_traces@.len() - 1 - i]
                    }),
                only_top_call ==> forall|i: int|
                    0 <= i < results@.len() ==> (#[trigger] results@[i]).result.calls@.len() == 0,
                !only_top_call ==> forall|i: int|
                    0 <= i < results@.len() ==> (#[trigger] results@[i]).result
                        == call_traces@[call_traces@.len() - 1 - i],
            decreases remaining@.len(),
        {
            if let Some(call_trace) = remaining.pop() {
                results.push(ResultDebugCall { result: call_trace.restrict(only_top_call) });
            }
        }
        let mut answer: Vec<ResultDebugCall> = Vec::new();
        let ghost reversed = results@;
        while results.len() > 0
            invariant
                answer@.len() + results@.len() == call_traces@.len() == reversed.len(),
                results@ == reversed.take(results@.len() as int),
                forall|i: int| 0 <= i < answer@.len() ==> #[trigger] answer@[i] == reversed[
                    reversed.len() - 1 - i
                ],
            decreases results@.len(),
        {
            if let Some(result) = results.pop() {
                answer.push(result);
            }
        }
        Ok(answer)
    }
}

/// The traces of a block are answered one by one and in order. A client that asks for all calls
/// gets each trace as it is; one that asks for top calls alone gets the same traces without the
/// calls below them.
pub proof fn lemma_block_traces_are_answered_in_full<E, F>(
    all_query: CallTracesQuery,
    top_query: CallTracesQuery,
    call_traces: Vec<DebugCall>,
    all: Result<Vec<ResultDebugCall>, Web3Error<E>>,
    top: Result<Vec<ResultDebugCall>, Web3Error<E>>,
    i: int,
)
    requires
        !all_query.only_top_call,
        top_query.only_top_call,
        call_ensures(
            CallTracesQuery::fetched::<E, F>,
            (all_query, Ok::<Vec<DebugCall>, F>(call_traces)),
            all,
        ),
        call_ensures(
            CallTracesQuery::fetched::<E, F>,
            (top_query, Ok::<Vec<DebugCall>, F>(call_traces)),
            top,
        ),
        0 <= i < call_traces@.len(),
    ensures
        all is Ok && all->Ok_0@.len() == call_traces@.len(),
        top is Ok && top->Ok_0@.len() == call_traces@.len(),
        all->Ok_0@[i].result == call_traces@[i],
        top->Ok_0@[i].result.calls@.len() == 0,
        top->Ok_0@[i].result == (DebugCall {
            calls: top->Ok_0@[i].result.calls,
            ..call_traces@[i]
        }),
{
}

/// The traces that are answered are those of the block that was asked for.
pub proof fn lemma_traces_are_those_of_the_block<S, E, F>(
    namespace: DebugNamespace<S>,
    block_id: BlockId,
    options: Option<TracerConfig>,
    asked: TracedBlockQuery,
    number: MiniblockNumber,
    resolved: Result<CallTracesQuery, Web3Error<E>>,
)
    requires
        call_ensures(
            DebugNamespace::<S>::debug_trace_block_impl,
            (&namespace, block_id, options),
            asked,
        ),
        call_ensures(
            TracedBlockQuery::resolved::<E, F>,
            (asked, BlockResolution::<MiniblockNumber, E, F>::Resolved(number)),
            resolved,
        ),
    ensures
        asked.block_id == block_id,
        resolved is Ok,
        resolved->Ok_0.number == number,
        resolved->Ok_0.only_top_call <==> (options matches Some(options)
            && options.tracer_config.only_top_call),
{
}

} // verus!
