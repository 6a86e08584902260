//! The trace of a call that is executed on top of a block without being part of it.
//!
//! The steps follow each other by their types: each one says what has to be fetched or executed,
//! and takes the outcome to produce the next, or the error to answer with.
use vstd::prelude::*;

use crate::debug::{
    asks_for_top_call_only, into_recorded_calls, only_top_call, recorded_calls, BlockId,
    BlockResolution, BlockTag, DebugNamespace, HighLevelCall, TracerConfig, TxSharedArgs, Web3Error,
};
use crate::primitives::U256;

verus! {

/// What a trace needs of the transaction that a call is turned into.
#[derive(Debug)]
pub struct CallTransaction<T> {
    /// The transaction, as it gets executed.
    pub tx: T,
    /// Gas limit.
    pub gas_limit: U256,
    /// Value that is passed along.
    pub value: U256,
    /// Call data.
    pub calldata: Vec<u8>,
}

/// Result of executing a transaction.
#[derive(Debug)]
pub enum ExecutionResult {
    /// It has succeeded and returned data.
    Success {
        /// The returned data.
        output: Vec<u8>,
    },
    /// It has been reverted.
    Revert {
        /// The reason, as text.
        reason: String,
    },
    /// It could not be executed to its end.
    Halt {
        /// The reason, as text.
        reason: String,
    },
}

/// What a trace needs of the execution of a transaction.
#[derive(Debug)]
pub struct Execution {
    /// The result.
    pub result: ExecutionResult,
    /// Gas that was used.
    pub gas_used: u32,
}

/// The block that the call is executed on is needed.
#[derive(Clone, Copy, Debug, PartialEq, Eq)]
pub struct BlockQuery<'a, S> {
    /// The block.
    pub block_id: BlockId,
    /// Whether the client has asked for the top call alone.
    pub only_top_call: bool,
    /// The namespace that was asked.
    pub namespace: &'a DebugNamespace<S>,
}

/// The transaction that the call is turned into is needed.
#[derive(Clone, Copy, Debug, PartialEq, Eq)]
pub struct CallTransactionQuery<'a, S, A> {
    /// The block that the call is executed on.
    pub block_args: A,
    /// Whether the client has asked for the top call alone.
    pub only_top_call: bool,
    /// The namespace that was asked.
    pub namespace: &'a DebugNamespace<S>,
}

/// A permit to run the virtual machine is needed.
#[derive(Debug)]
pub struct VmPermitQuery<'a, S, A, T> {
    /// The block that the call is executed on.
    pub block_args: A,
    /// The transaction.
    pub tx: CallTransaction<T>,
    /// Whether the client has asked for the top call alone.
    pub only_top_call: bool,
    /// The namespace that was asked.
    pub namespace: &'a DebugNamespace<S>,
}

/// The transaction has to be executed, once.
#[derive(Debug)]
pub struct CallExecution<'a, S, A, T, P> {
    /// Permit to run the virtual machine.
    pub permit: P,
    /// The block that the transaction is executed on.
    pub block_args: A,
    /// The transaction.
    pub tx: CallTransaction<T>,
    /// Arguments shared by executions.
    pub shared_args: TxSharedArgs<'a, S>,
    /// Limit on the cache misses of the execution.
    pub vm_execution_cache_misses_limit: Option<usize>,
    /// Whether the call tracer is used. There is no need for it where only the top call is asked
    /// for.
    pub use_call_tracer: bool,
}

/// The data that an execution has returned, with the reason of its revert; or the reason of its
/// halt.
pub open spec fn output_and_revert_reason(result: ExecutionResult) -> Result<
    (Seq<u8>, Option<String>),
    String,
> {
    match result {
        ExecutionResult::Success { output } => Ok((output@, None)),
        ExecutionResult::Revert { reason } => Ok((Seq::empty(), Some(reason))),
        ExecutionResult::Halt { reason } => Err(reason),
    }
}

impl<S> DebugNamespace<S> {
    /// Starts the trace of a call. Where no block is given, the call is executed on the pending
    /// one.
    pub fn debug_trace_call_impl(
        &self,
        block_id: Option<BlockId>,
        options: Option<TracerConfig>,
    ) -> (query: BlockQuery<'_, S>)
        ensures
            query.block_id == match block_id {
                Some(block_id) => block_id,
                None => BlockId::Number(BlockTag::Pending),
            },
            query.only_top_call == asks_for_top_call_only(options),
            query.only_top_call == (options matches Some(options)
                && options.tracer_config.only_top_call),
            query.namespace == self,
    {
        let block_id = match block_id {
            Some(block_id) => block_id,
            None => BlockId::Number(BlockTag::Pending),
        };
        BlockQuery { block_id, only_top_call: only_top_call(options), namespace: self }
    }
}

impl<'a, S> BlockQuery<'a, S> {
    /// Goes on if the block could be resolved: the call is executed on it.
    pub fn resolved<A, E, F>(self, block: BlockResolution<A, E, F>) -> (query: Result<
        CallTransactionQuery<'a, S, A>,
        Web3Error<E>,
    >)
        ensures
            query == match block.outcome() {
                Ok(block_args) => Ok::<CallTransactionQuery<'a, S, A>, Web3Error<E>>(
                    CallTransactionQuery {
                        block_args,
                        only_top_call: self.only_top_call,
                        namespace: self.namespace,
                    },
                ),
                Err(err) => Err(err),
            },
            block is NoStorage ==> (query matches Err(err) && err is InternalError),
            block matches BlockResolution::Failed(fault) ==> (query matches Err(err) && err
                == fault),
            block matches BlockResolution::Resolved(block_args) ==> (query matches Ok(query)
                && query.block_args == block_args),
    {
        match block.into_result() {
            Ok(block_args) => Ok(
                CallTransactionQuery {
                    block_args,
                    only_top_call: self.only_top_call,
                    namespace: self.namespace,
                },
            ),
            Err(err) => Err(err),
        }
    }
}

impl<'a, S, A> CallTransactionQuery<'a, S, A> {
    /// Goes on if the call could be turned into a transaction.
    pub fn converted<T, E>(self, tx: Result<CallTransaction<T>, Web3Error<E>>) -> (query: Result<
        VmPermitQuery<'a, S, A, T>,
        Web3Error<E>,
    >)
        ensures
            query == match tx {
                Ok(tx) => Ok::<VmPermitQuery<'a, S, A, T>, Web3Error<E>>(
                    VmPermitQuery {
                        block_args: self.block_args,
                        tx,
                        only_top_call: self.only_top_call,
                        namespace: self.namespace,
                    },
                ),
                Err(err) => Err(err),
            },
    {
        match tx {
            Ok(tx) => Ok(
                VmPermitQuery {
                    block_args: self.block_args,
                    tx,
                    only_top_call: self.only_top_call,
                    namespace: self.namespace,
                },
            ),
            Err(err) => Err(err),
        }
    }
}

impl<'a, S, A, T> VmPermitQuery<'a, S, A, T> {
    /// Goes on if there is a permit to run the virtual machine: the transaction is executed under
    /// it, on the block that was resolved.
    pub fn acquired<P, E>(self, permit: Option<P>) -> (execution: Result<
        CallExecution<'a, S, A, T, P>,
        Web3Error<E>,
    >)
        ensures
            match permit {
                Some(permit) => {
                    &&& execution matches Ok(execution)
                    &&& execution.permit == permit
                    &&& execution.block_args == self.block_args
                    &&& execution.tx == self.tx
                    &&& self.namespace.shares(execution.shared_args)
                    &&& execution.shared_args.operator_account.0@ == Seq::new(20, |i: int| 0u8)
                    &&& execution.shared_args.fee_input == self.namespace.batch_fee_input
                    &&& execution.shared_args.base_system_contracts is EthCall
                    &&& *execution.shared_args.caches == self.namespace.storage_caches
                    &&& execution.shared_args.validation_computational_gas_limit
                        == self.namespace.block_gas_limit
                    &&& execution.shared_args.chain_id == self.namespace.sender_config.chain_id
                    &&& execution.vm_execution_cache_misses_limit
                        == self.namespace.sender_config.vm_execution_cache_misses_limit
                    &&& execution.use_call_tracer == !self.only_top_call
                },
                None => execution == Err::<CallExecution<'a, S, A, T, P>, Web3Error<E>>(
                    Web3Error::InternalError,
                ),
            },
    {
        let permit = match permit {
            Some(permit) => permit,
            None => {
                return Err(Web3Error::InternalError);
            },
        };
        let sender_config = self.namespace.sender_config();
        Ok(
            CallExecution {
                permit,
                block_args: self.block_args,
                tx: self.tx,
                shared_args: self.namespace.shared_args(),
                vm_execution_cache_misses_limit: sender_config.vm_execution_cache_misses_limit,
                use_call_tracer: !self.only_top_call,
            },
        )
    }
}

impl<'a, S, A, T, P> CallExecution<'a, S, A, T, P> {
    /// Ends the trace with the outcome of the execution and with what the call tracer has recorded,
    /// if it was used and has: returns the call to put into the form that clients see.
    ///
    /// A reverted call is an answer; one that was not executed to its end is an error. Why it
    /// could not be executed at all is not passed on.
    pub fn executed<C, E, F>(
        self,
        execution: Result<Execution, F>,
        trace: Option<Vec<C>>,
    ) -> (call: Result<HighLevelCall<C>, Web3Error<E>>)
        requires
            execution matches Ok(execution) && !(execution.result is Halt)
                ==> self.tx.gas_limit@ <= u32::MAX,
            !self.use_call_tracer ==> trace is None,
        ensures
            match execution {
                Ok(execution) => match output_and_revert_reason(execution.result) {
                    Ok((output, revert_reason)) => {
                        &&& call matches Ok(call)
                        &&& call.gas == self.tx.gas_limit@
                        &&& call.gas_used == execution.gas_used
                        &&& call.value == self.tx.value
                        &&& call.input == self.tx.calldata
                        &&& call.output@ == output
                        &&& call.revert_reason == revert_reason
                        &&& call.calls@ == recorded_calls(trace)
                        &&& !self.use_call_tracer ==> call.calls@ == Seq::<C>::empty()
                    },
                    Err(reason) => {
                        &&& call matches Err(Web3Error::SubmitTransactionError(message, data))
                        &&& message == reason
                        &&& data@ == Seq::<u8>::empty()
                    },
                },
                Err(_) => call == Err::<HighLevelCall<C>, Web3Error<E>>(Web3Error::InternalError),
            },
            execution matches Ok(execution) ==> (execution.result matches ExecutionResult::Success {
                output,
            } ==> (call matches Ok(call) && call.output@ == output@ && call.revert_reason is None)),
            execution matches Ok(execution) ==> (execution.result matches ExecutionResult::Revert {
                reason,
            } ==> (call matches Ok(call) && call.output@.len() == 0 && call.revert_reason == Some(
                reason,
            ))),
            execution matches Ok(execution) ==> (execution.result matches ExecutionResult::Halt {
                reason,
            } ==> (call matches Err(Web3Error::SubmitTransactionError(message, data)) && message
                == reason && data@.len() == 0)),
            call matches Ok(call) ==> (trace matches Some(calls) ==> call.calls@ == calls@),
            call matches Ok(call) ==> (trace is None ==> call.calls@.len() == 0),
            call matches Ok(call) ==> call.gas == self.tx.gas_limit.0[0],
    {
        let execution = match execution {
            Ok(execution) => execution,
            Err(_) => {
                return Err(Web3Error::InternalError);
            },
        };
        let (output, revert_reason) = match execution.result {
            ExecutionResult::Success { output } => (output, None),
            ExecutionResult::Revert { reason } => (Vec::new(), Some(reason)),
            ExecutionResult::Halt { reason } => {
                return Err(Web3Error::SubmitTransactionError(reason, Vec::new()));
            },
        };
        Ok(
            HighLevelCall {
                gas: self.tx.gas_limit.as_u32(),
                gas_used: execution.gas_used,
                value: self.tx.value,
                input: self.tx.calldata,
                output,
                revert_reason,
                calls: into_recorded_calls(trace),
            },
        )
    }
}

/// A call that was executed to its end is answered with what the execution says and with every call
/// that was recorded, in order: with all of the data that it returned if it succeeded, and with the
/// reason if it was reverted.
pub proof fn lemma_executed_call_is_answered_in_full<'a, S, A, T, P, C, E, F>(
    step: CallExecution<'a, S, A, T, P>,
    execution: Execution,
    trace: Option<Vec<C>>,
    call: Result<HighLevelCall<C>, Web3Error<E>>,
)
    requires
        !(execution.result is Halt),
        call_ensures(
            CallExecution::<'a, S, A, T, P>::executed::<C, E, F>,
            (step, Ok::<Execution, F>(execution), trace),
            call,
        ),
    ensures
        call is Ok,
        execution.result matches ExecutionResult::Success { output } ==> {
            &&& call->Ok_0.output@ == output@
            &&& call->Ok_0.revert_reason is None
        },
        execution.result matches ExecutionResult::Revert { reason } ==> {
            &&& call->Ok_0.output@.len() == 0
            &&& call->Ok_0.revert_reason == Some(reason)
        },
        trace matches Some(calls) ==> call->Ok_0.calls@ == calls@,
        trace is None ==> call->Ok_0.calls@.len() == 0,
        call->Ok_0.gas_used == execution.gas_used,
        call->Ok_0.value == step.tx.value,
        call->Ok_0.input == step.tx.calldata,
{
}

/// A call that was not executed to its end is answered with the reason alone, and one that could
/// not be executed at all with an internal error, whatever was recorded.
pub proof fn lemma_unexecuted_call_is_an_error<'a, S, A, T, P, C, E, F>(
    step: CallExecution<'a, S, A, T, P>,
    execution: Result<Execution, F>,
    trace: Option<Vec<C>>,
    call: Result<HighLevelCall<C>, Web3Error<E>>,
)
    requires
        execution matches Ok(execution) ==> execution.result is Halt,
        call_ensures(
            CallExecution::<'a, S, A, T, P>::executed::<C, E, F>,
            (step, execution, trace),
            call,
        ),
    ensures
        call is Err,
        execution is Err ==> call->Err_0 is InternalError,
        execution matches Ok(execution) ==> (execution.result matches ExecutionResult::Halt { reason }
            ==> (call->Err_0 matches Web3Error::SubmitTransactionError(message, data) && message
            == reason && data@.len() == 0)),
{
}

/// The call tracer adds the recorded calls to an answer, and changes nothing else of it.
pub proof fn lemma_tracer_adds_calls_only<'a, S, A, T, P, C, E, F>(
    step: CallExecution<'a, S, A, T, P>,
    execution: Result<Execution, F>,
    trace: Vec<C>,
    untraced: Result<HighLevelCall<C>, Web3Error<E>>,
    traced: Result<HighLevelCall<C>, Web3Error<E>>,
)
    requires
        call_ensures(
            CallExecution::<'a, S, A, T, P>::executed::<C, E, F>,
            (step, execution, None::<Vec<C>>),
            untraced,
        ),
        call_ensures(
            CallExecution::<'a, S, A, T, P>::executed::<C, E, F>,
            (step, execution, Some(trace)),
            traced,
        ),
    ensures
        traced is Ok <==> untraced is Ok,
        traced matches Ok(traced) ==> (untraced matches Ok(untraced) && {
            &&& untraced.calls@.len() == 0
            &&& traced.calls@ == trace@
            &&& traced.gas == untraced.gas
            &&& traced.gas_used == untraced.gas_used
            &&& traced.value == untraced.value
            &&& traced.input == untraced.input
            &&& traced.output@ == untraced.output@
            &&& traced.revert_reason == untraced.revert_reason
        }),
{
}

/// A call is executed with the very fee input, caches, limits and chain that the namespace was made
/// with, on the block that was resolved and under the permit that was acquired.
pub proof fn lemma_call_is_executed_as_configured<'a, S, A, T, P, E>(
    query: VmPermitQuery<'a, S, A, T>,
    permit: P,
    execution: Result<CallExecution<'a, S, A, T, P>, Web3Error<E>>,
)
    requires
        call_ensures(
            VmPermitQuery::<'a, S, A, T>::acquired::<P, E>,
            (query, Some(permit)),
            execution,
        ),
    ensures
        execution is Ok,
        execution->Ok_0.permit == permit,
        execution->Ok_0.block_args == query.block_args,
        execution->Ok_0.tx == query.tx,
        execution->Ok_0.shared_args.fee_input == query.namespace.batch_fee_input,
        execution->Ok_0.shared_args.base_system_contracts is EthCall,
        *execution->Ok_0.shared_args.caches == query.namespace.storage_caches,
        execution->Ok_0.shared_args.validation_computational_gas_limit
            == query.namespace.block_gas_limit,
        execution->Ok_0.shared_args.chain_id == query.namespace.sender_config.chain_id,
        execution->Ok_0.use_call_tracer <==> !query.only_top_call,
{
}

/// What comes of an execution: the data that it has returned, all of it, or the reason why it was
/// reverted, or the reason why it was halted.
pub proof fn lemma_what_comes_of_an_execution(result: ExecutionResult)
    ensures
        result matches ExecutionResult::Success { output } ==> output_and_revert_reason(result) == Ok::<
            (Seq<u8>, Option<String>),
            String,
        >((output@, None)),
        result matches ExecutionResult::Revert { reason } ==> {
            &&& output_and_revert_reason(result) matches Ok((output, revert_reason))
            &&& output.len() == 0
            &&& revert_reason == Some(reason)
        },
        result matches ExecutionResult::Halt { reason } ==> (output_and_revert_reason(result) matches Err(
            halt_reason,
        ) && halt_reason == reason),
{
}

/// A call is executed on the block that it names, or on the pending one if it names none, as the
/// transaction that it was turned into, and under the permit. It is traced unless the client has
/// asked for the top call alone.
pub proof fn lemma_call_is_executed_where_it_should_be<'a, S, A, T, P, E, F>(
    namespace: &'a DebugNamespace<S>,
    block_id: Option<BlockId>,
    options: Option<TracerConfig>,
    asked: BlockQuery<'a, S>,
    block_args: A,
    resolved: Result<CallTransactionQuery<'a, S, A>, Web3Error<E>>,
    tx: CallTransaction<T>,
    converted: Result<VmPermitQuery<'a, S, A, T>, Web3Error<E>>,
    permit: P,
    execution: Result<CallExecution<'a, S, A, T, P>, Web3Error<E>>,
)
    requires
        call_ensures(
            DebugNamespace::<S>::debug_trace_call_impl,
            (namespace, block_id, options),
            asked,
        ),
        call_ensures(
            BlockQuery::<'a, S>::resolved::<A, E, F>,
            (asked, BlockResolution::<A, E, F>::Resolved(block_args)),
            resolved,
        ),
        resolved is Ok ==> call_ensures(
            CallTransactionQuery::<'a, S, A>::converted::<T, E>,
            (resolved->Ok_0, Ok::<CallTransaction<T>, Web3Error<E>>(tx)),
            converted,
        ),
        converted is Ok ==> call_ensures(
            VmPermitQuery::<'a, S, A, T>::acquired::<P, E>,
            (converted->Ok_0, Some(permit)),
            execution,
        ),
    ensures
        block_id matches Some(block_id) ==> asked.block_id == block_id,
        block_id is None ==> asked.block_id == BlockId::Number(BlockTag::Pending),
        execution is Ok,
        execution->Ok_0.block_args == block_args,
        execution->Ok_0.tx == tx,
        execution->Ok_0.permit == permit,
        execution->Ok_0.shared_args.fee_input == namespace.batch_fee_input,
        execution->Ok_0.shared_args.chain_id == namespace.sender_config.chain_id,
        execution->Ok_0.vm_execution_cache_misses_limit
            == namespace.sender_config.vm_execution_cache_misses_limit,
        execution->Ok_0.use_call_tracer <==> !(options matches Some(options)
            && options.tracer_config.only_top_call),
{
}

} // verus!
