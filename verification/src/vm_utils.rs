//! Decisions taken around a virtual machine: how it executes a transaction, and the environment
//! in which it executes the transactions of an L1 batch.
use vstd::prelude::*;
use vstd::string::StringExecFns;

use crate::decimal::{append_decimal, decimal, lemma_number_can_be_told};
use crate::primitives::{L1BatchNumber, L2ChainId, MiniblockNumber};

verus! {

/// The execution of a transaction, by what the virtual machine has to do next.
#[derive(Clone, Copy, Debug, PartialEq, Eq, Structural)]
pub enum TxExecution {
    /// Make a snapshot.
    MakeSnapshot,
    /// Execute the transaction under the given tracers.
    InspectTransaction {
        /// Whether bytecodes are compressed.
        with_compression: bool,
    },
    /// Discard the latest snapshot without rolling back to it.
    PopSnapshotNoRollback,
    /// Nothing: the transaction has been executed.
    Finished,
}

/// What the virtual machine answers.
#[derive(Clone, Copy, Debug, PartialEq, Eq, Structural)]
pub enum VmReply {
    /// The snapshot has been made or discarded.
    Done,
    /// The transaction has been executed.
    Inspected {
        /// Whether its bytecodes could be compressed as asked.
        compression_succeeded: bool,
    },
}

impl TxExecution {
    /// `reply` answers what the virtual machine has to do next.
    pub open spec fn expects(self, reply: VmReply) -> bool {
        match self {
            TxExecution::MakeSnapshot => reply is Done,
            TxExecution::InspectTransaction { .. } => reply is Inspected,
            TxExecution::PopSnapshotNoRollback => reply is Done,
            TxExecution::Finished => false,
        }
    }

    /// Where the execution goes from here.
    pub open spec fn after(self, reply: VmReply) -> TxExecution {
        match (self, reply) {
            (TxExecution::MakeSnapshot, _) => TxExecution::InspectTransaction {
                with_compression: true,
            },
            (
                TxExecution::InspectTransaction { .. },
                VmReply::Inspected { compression_succeeded: true },
            ) => TxExecution::PopSnapshotNoRollback,
            _ => TxExecution::Finished,
        }
    }

    /// Where the execution goes from here, over several replies.
    pub open spec fn after_all(self, replies: Seq<VmReply>) -> TxExecution
        decreases replies.len(),
    {
        if replies.len() == 0 {
            self
        } else {
            self.after_all(replies.drop_last()).after(replies.last())
        }
    }

    /// Each of `replies` answers what the virtual machine has to do at that point.
    pub open spec fn expects_all(self, replies: Seq<VmReply>) -> bool
        decreases replies.len(),
    {
        replies.len() > 0 ==> {
            &&& self.expects_all(replies.drop_last())
            &&& self.after_all(replies.drop_last()).expects(replies.last())
        }
    }

    /// How many snapshots the virtual machine has made more than it has discarded.
    pub open spec fn snapshots_kept(self, replies: Seq<VmReply>) -> int
        decreases replies.len(),
    {
        if replies.len() == 0 {
            0
        } else {
            let kept = self.snapshots_kept(replies.drop_last());
            match self.after_all(replies.drop_last()) {
                TxExecution::MakeSnapshot => kept + 1,
                TxExecution::PopSnapshotNoRollback => kept - 1,
                _ => kept,
            }
        }
    }

    /// Goes on with what the virtual machine has answered.
    pub fn next(self, reply: VmReply) -> (step: TxExecution)
        requires
            self.expects(reply),
        ensures
            step == self.after(reply),
            self is MakeSnapshot ==> step == (TxExecution::InspectTransaction {
                with_compression: true,
            }),
            self is InspectTransaction ==> (reply matches VmReply::Inspected { compression_succeeded }
                ==> step == if compression_succeeded {
                TxExecution::PopSnapshotNoRollback
            } else {
                TxExecution::Finished
            }),
            self is PopSnapshotNoRollback ==> step is Finished,
    {
        match self {
            TxExecution::MakeSnapshot => TxExecution::InspectTransaction { with_compression: true },
            TxExecution::InspectTransaction { .. } => match reply {
                VmReply::Inspected { compression_succeeded: true } =>
                    TxExecution::PopSnapshotNoRollback,
                _ => TxExecution::Finished,
            },
            _ => TxExecution::Finished,
        }
    }
}

/// Starts the execution of a transaction. It never fails: where the bytecodes cannot be
/// compressed, the transaction counts as executed, and the snapshot is kept.
pub fn execute_tx() -> (step: TxExecution)
    ensures
        step == TxExecution::MakeSnapshot,
{
    TxExecution::MakeSnapshot
}

/// Whatever the virtual machine has to do next, its answer is awaited: that it is done with a
/// snapshot, or how the execution went. Nothing is awaited in the end.
pub proof fn lemma_awaited_replies(step: TxExecution, compression_succeeded: bool)
    ensures
        step.expects(VmReply::Done) <==> step is MakeSnapshot || step is PopSnapshotNoRollback,
        step.expects(VmReply::Inspected { compression_succeeded }) <==> step is InspectTransaction,
{
}

/// An execution leads from the snapshot to the transaction, and on to the end: by way of
/// discarding the snapshot after a successful compression, and directly after a failed one.
pub proof fn lemma_steps_of_execution(step: TxExecution, reply: VmReply, following: TxExecution)
    requires
        step.expects(reply),
        call_ensures(TxExecution::next, (step, reply), following),
    ensures
        following == step.after(reply),
        !(following is MakeSnapshot),
        following is InspectTransaction <==> step is MakeSnapshot,
        following matches TxExecution::InspectTransaction { with_compression } ==> with_compression,
        following is PopSnapshotNoRollback <==> (reply matches VmReply::Inspected {
            compression_succeeded,
        } && compression_succeeded),
{
}

/// A transaction is executed just once, with compression, on top of a fresh snapshot, and after
/// at most three replies. The snapshot is discarded if and only if the compression has succeeded.
pub proof fn lemma_execution_of_tx(replies: Seq<VmReply>)
    requires
        TxExecution::MakeSnapshot.expects_all(replies),
    ensures
        replies.len() <= 3,
        replies.len() >= 1 ==> TxExecution::MakeSnapshot.after_all(replies.take(1))
            == (TxExecution::InspectTransaction { with_compression: true }),
        TxExecution::MakeSnapshot.after_all(replies) is Finished ==> {
            &&& replies.len() >= 2
            &&& replies[1] matches VmReply::Inspected { compression_succeeded }
            &&& TxExecution::MakeSnapshot.snapshots_kept(replies) == if compression_succeeded {
                0int
            } else {
                1int
            }
            &&& replies.len() == if compression_succeeded {
                3int
            } else {
                2int
            }
        },
    decreases replies.len(),
{
    reveal_with_fuel(TxExecution::after_all, 5);
    reveal_with_fuel(TxExecution::expects_all, 5);
    reveal_with_fuel(TxExecution::snapshots_kept, 5);
    if replies.len() > 3 {
        lemma_execution_of_tx(replies.drop_last());
        let before = replies.drop_last();
        assert(before[1] == replies[1]);
    }
}

/// System contracts that a virtual machine runs with.
#[derive(Clone, Copy, Debug, PartialEq, Eq, Structural)]
pub enum SystemContracts {
    /// Those that are in force at the miniblock.
    OfMiniblock,
    /// Those of the playground.
    Playground,
    /// Those that the API loads for calls that are not part of a block.
    EthCall,
}

/// Request for the environment of a virtual machine.
#[derive(Clone, Copy, Debug, PartialEq, Eq, Structural)]
pub struct VmEnvRequest {
    /// The L1 batch that is executed.
    pub l1_batch_number: L1BatchNumber,
    /// Limit on the computational gas of validation.
    pub validation_computational_gas_limit: u32,
    /// The chain.
    pub l2_chain_id: L2ChainId,
    /// The miniblock that the environment is taken from.
    pub miniblock_number: MiniblockNumber,
    /// The system contracts.
    pub base_system_contracts: SystemContracts,
}

/// Reasons for not having an environment for an L1 batch.
#[derive(Debug)]
pub enum PrepareVmEnvError<E> {
    /// The range of miniblocks could not be read.
    MiniblockRange(E),
    /// The previous L1 batch has no miniblocks.
    NoPreviousMiniblock(L1BatchNumber),
    /// The environment could not be created.
    VmEnv(L1BatchNumber, E),
}

/// Text for an L1 batch whose predecessor has no miniblocks.
pub open spec fn no_previous_miniblock_message(l1_batch_number: L1BatchNumber) -> Seq<char> {
    "l1_batch_number L1BatchNumber("@ + decimal(l1_batch_number.0 as nat)
        + ") must have a previous miniblock to start from"@
}

/// Text for an L1 batch for which no environment could be created.
pub open spec fn vm_env_message(l1_batch_number: L1BatchNumber) -> Seq<char> {
    "failed to create vm env for l1_batch_number L1BatchNumber("@ + decimal(
        l1_batch_number.0 as nat,
    ) + ")"@
}

impl<E> PrepareVmEnvError<E> {
    /// Returns the text that says what was being done, where the error has one.
    pub fn context(&self) -> (context: Option<String>)
        ensures
            match *self {
                PrepareVmEnvError::MiniblockRange(_) => context is None,
                PrepareVmEnvError::NoPreviousMiniblock(number) => {
                    &&& context matches Some(text)
                    &&& text@ == no_previous_miniblock_message(number)
                    &&& text@ == "l1_batch_number L1BatchNumber("@ + decimal(number.0 as nat)
                        + ") must have a previous miniblock to start from"@
                },
                PrepareVmEnvError::VmEnv(number, _) => {
                    &&& context matches Some(text)
                    &&& text@ == vm_env_message(number)
                    &&& text@ == "failed to create vm env for l1_batch_number L1BatchNumber("@
                        + decimal(number.0 as nat) + ")"@
                },
            },
    {
        match self {
            PrepareVmEnvError::MiniblockRange(_) => None,
            PrepareVmEnvError::NoPreviousMiniblock(number) => {
                let mut text = String::from_str("l1_batch_number L1BatchNumber(");
                append_decimal(&mut text, number.0 as u64);
                text.append(") must have a previous miniblock to start from");
                Some(text)
            },
            PrepareVmEnvError::VmEnv(number, _) => {
                let mut text = String::from_str(
                    "failed to create vm env for l1_batch_number L1BatchNumber(",
                );
                append_decimal(&mut text, number.0 as u64);
                text.append(")");
                Some(text)
            },
        }
    }
}

/// Request for the range of miniblocks of the L1 batch before the one that is executed.
#[derive(Clone, Copy, Debug, PartialEq, Eq, Structural)]
pub struct MiniblockRangeQuery {
    /// The L1 batch whose miniblocks are asked for.
    pub prev_l1_batch_number: L1BatchNumber,
    /// The L1 batch that is executed.
    pub l1_batch_number: L1BatchNumber,
    /// The chain.
    pub l2_chain_id: L2ChainId,
}

/// Starts the preparation of the environment in which an L1 batch is executed. The batch must not
/// be the first one.
pub fn prepare_vm_env_for_l1_batch(l1_batch_number: L1BatchNumber, l2_chain_id: L2ChainId) -> (query:
    MiniblockRangeQuery)
    requires
        l1_batch_number.0 > 0,
    ensures
        query.prev_l1_batch_number.0 == l1_batch_number.0 - 1,
        query.l1_batch_number == l1_batch_number,
        query.l2_chain_id == l2_chain_id,
{
    MiniblockRangeQuery {
        prev_l1_batch_number: L1BatchNumber(l1_batch_number.0 - 1),
        l1_batch_number,
        l2_chain_id,
    }
}

impl MiniblockRangeQuery {
    /// Goes on with the first and the last miniblock of the previous L1 batch. The environment is
    /// taken from the last one, and validation is not limited.
    pub fn found<E>(
        self,
        range: Result<Option<(MiniblockNumber, MiniblockNumber)>, E>,
    ) -> (request: Result<VmEnvRequest, PrepareVmEnvError<E>>)
        ensures
            match range {
                Ok(Some((_, last))) => request == Ok::<VmEnvRequest, PrepareVmEnvError<E>>(
                    VmEnvRequest {
                        l1_batch_number: self.l1_batch_number,
                        validation_computational_gas_limit: u32::MAX,
                        l2_chain_id: self.l2_chain_id,
                        miniblock_number: last,
                        base_system_contracts: SystemContracts::OfMiniblock,
                    },
                ),
                Ok(None) => request == Err::<VmEnvRequest, PrepareVmEnvError<E>>(
                    PrepareVmEnvError::NoPreviousMiniblock(self.l1_batch_number),
                ),
                Err(err) => request == Err::<VmEnvRequest, PrepareVmEnvError<E>>(
                    PrepareVmEnvError::MiniblockRange(err),
                ),
            },
    {
        match range {
            Ok(Some((_first, miniblock_number))) => Ok(
                VmEnvRequest {
                    l1_batch_number: self.l1_batch_number,
                    validation_computational_gas_limit: u32::MAX,
                    l2_chain_id: self.l2_chain_id,
                    miniblock_number,
                    base_system_contracts: SystemContracts::OfMiniblock,
                },
            ),
            Ok(None) => Err(PrepareVmEnvError::NoPreviousMiniblock(self.l1_batch_number)),
            Err(err) => Err(PrepareVmEnvError::MiniblockRange(err)),
        }
    }
}

impl VmEnvRequest {
    /// Ends the preparation: returns the environment with the miniblock that it is taken from.
    pub fn built<V, E>(self, vm_env: Result<V, E>) -> (prepared: Result<
        (V, MiniblockNumber),
        PrepareVmEnvError<E>,
    >)
        ensures
            match vm_env {
                Ok(vm_env) => prepared == Ok::<(V, MiniblockNumber), PrepareVmEnvError<E>>(
                    (vm_env, self.miniblock_number),
                ),
                Err(err) => prepared == Err::<(V, MiniblockNumber), PrepareVmEnvError<E>>(
                    PrepareVmEnvError::VmEnv(self.l1_batch_number, err),
                ),
            },
    {
        match vm_env {
            Ok(vm_env) => Ok((vm_env, self.miniblock_number)),
            Err(err) => Err(PrepareVmEnvError::VmEnv(self.l1_batch_number, err)),
        }
    }
}

/// The virtual machine makes a snapshot, executes the transaction with compression, and then is done
/// with it if the compression has failed. Otherwise it is done once it has discarded the snapshot.
pub proof fn lemma_transaction_is_executed(
    start: TxExecution,
    execution: TxExecution,
    compression_succeeded: bool,
    outcome: TxExecution,
    done: TxExecution,
)
    requires
        call_ensures(execute_tx, (), start),
        call_ensures(TxExecution::next, (start, VmReply::Done), execution),
        call_ensures(
            TxExecution::next,
            (execution, VmReply::Inspected { compression_succeeded }),
            outcome,
        ),
        call_ensures(TxExecution::next, (outcome, VmReply::Done), done),
    ensures
        start is MakeSnapshot,
        execution matches TxExecution::InspectTransaction { with_compression } && with_compression,
        outcome is Finished <==> !compression_succeeded,
        outcome is PopSnapshotNoRollback <==> compression_succeeded,
        compression_succeeded ==> done is Finished,
{
}

/// An L1 batch is executed in the environment of the last miniblock before it, without a limit on
/// validation, and that miniblock is what is returned with the environment.
pub proof fn lemma_environment_of_l1_batch<V, E>(
    l1_batch_number: L1BatchNumber,
    l2_chain_id: L2ChainId,
    query: MiniblockRangeQuery,
    first: MiniblockNumber,
    last: MiniblockNumber,
    request: Result<VmEnvRequest, PrepareVmEnvError<E>>,
    vm_env: V,
    prepared: Result<(V, MiniblockNumber), PrepareVmEnvError<E>>,
)
    requires
        l1_batch_number.0 > 0,
        call_ensures(prepare_vm_env_for_l1_batch, (l1_batch_number, l2_chain_id), query),
        call_ensures(
            MiniblockRangeQuery::found::<E>,
            (query, Ok::<Option<(MiniblockNumber, MiniblockNumber)>, E>(Some((first, last)))),
            request,
        ),
        request is Ok ==> call_ensures(
            VmEnvRequest::built::<V, E>,
            (request->Ok_0, Ok::<V, E>(vm_env)),
            prepared,
        ),
    ensures
        query.prev_l1_batch_number.0 + 1 == l1_batch_number.0,
        request is Ok,
        request->Ok_0.l1_batch_number == l1_batch_number,
        request->Ok_0.l2_chain_id == l2_chain_id,
        request->Ok_0.miniblock_number == last,
        request->Ok_0.validation_computational_gas_limit == u32::MAX,
        request->Ok_0.base_system_contracts is OfMiniblock,
        prepared is Ok,
        prepared->Ok_0 == (vm_env, last),
{
}

/// The texts of errors tell which L1 batch they are about.
pub proof fn lemma_texts_tell_the_batch(a: L1BatchNumber, b: L1BatchNumber)
    ensures
        no_previous_miniblock_message(a) == no_previous_miniblock_message(b) ==> a.0 == b.0,
        vm_env_message(a) == vm_env_message(b) ==> a.0 == b.0,
{
    if no_previous_miniblock_message(a) == no_previous_miniblock_message(b) {
        lemma_number_can_be_told(
            "l1_batch_number L1BatchNumber("@,
            ") must have a previous miniblock to start from"@,
            a.0 as nat,
            b.0 as nat,
        );
    }
    if vm_env_message(a) == vm_env_message(b) {
        lemma_number_can_be_told(
            "failed to create vm env for l1_batch_number L1BatchNumber("@,
            ")"@,
            a.0 as nat,
            b.0 as nat,
        );
    }
}

} // verus!
