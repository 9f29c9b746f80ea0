//! The bookkeeping of a block: its transactions are executed one after the
//! other, each output takes its place, and a new epoch ends the block early.

use crate::aptos_vm::AptosVM;
use crate::output::{
    empty_output, has_new_epoch_event, should_restart_execution, VMOutput, VMOutputView,
};
use crate::transaction::TransactionStatus;
use crate::vm_status::VMStatus;
use vstd::prelude::*;

verus! {

/// The outputs of a block while it is executed.
pub struct BlockExecution {
    count: usize,
    outputs: Vec<VMOutput>,
    failure: Option<VMStatus>,
}

/// `n` outputs of transactions that were not executed and have to be
/// submitted again.
pub open spec fn skipped_outputs(n: nat) -> Seq<VMOutputView> {
    Seq::new(n, |i: int| empty_output(TransactionStatus::Retry))
}

impl BlockExecution {
    /// How many transactions the block has.
    pub closed spec fn count(&self) -> nat {
        self.count as nat
    }

    /// The outputs so far, in the order of the block.
    pub closed spec fn outputs(&self) -> Seq<VMOutputView> {
        Seq::new(self.outputs@.len(), |i: int| self.outputs@[i]@)
    }

    /// Why the block could not be executed, if it could not.
    pub closed spec fn failure(&self) -> Option<VMStatus> {
        self.failure
    }

    #[verifier::type_invariant]
    spec fn within_count(&self) -> bool {
        self.outputs@.len() <= self.count
    }

    /// The place of the transaction to execute next, if there is one: none
    /// once every transaction has its output or the block has failed.
    pub open spec fn spec_next_transaction(&self) -> Option<usize> {
        if self.failure() is None && self.outputs().len() < self.count() {
            Some(self.outputs().len() as usize)
        } else {
            None
        }
    }

    /// A block of `count` transactions, none of them executed.
    pub fn new(count: usize) -> (result: BlockExecution)
        ensures
            result.count() == count,
            result.outputs() == Seq::<VMOutputView>::empty(),
            result.failure() is None,
    {
        let result = BlockExecution { count, outputs: Vec::new(), failure: None };
        proof {
            assert(result.outputs() =~= Seq::<VMOutputView>::empty());
        }
        result
    }

    /// The place of the transaction to execute next, if there is one.
    #[verifier::when_used_as_spec(spec_next_transaction)]
    pub fn next_transaction(&self) -> (result: Option<usize>)
        ensures
            result == self.spec_next_transaction(),
            self.outputs().len() <= self.count(),
    {
        proof {
            use_type_invariant(self);
        }
        if self.failure.is_none() && self.outputs.len() < self.count {
            Some(self.outputs.len())
        } else {
            None
        }
    }

    /// Records the output of the transaction that was to be executed next.
    /// An output that announces a new epoch ends the block: the transactions
    /// after it are not executed, and their outputs say so.
    pub fn record_output(self, output: VMOutput) -> (result: BlockExecution)
        requires
            self.spec_next_transaction() is Some,
        ensures
            result.count() == self.count(),
            result.failure() is None,
            result.outputs() == if has_new_epoch_event(output@.change_set.events) {
                self.outputs().push(output@) + skipped_outputs(
                    (self.count() - self.outputs().len() - 1) as nat,
                )
            } else {
                self.outputs().push(output@)
            },
            result.outputs().len() <= result.count(),
    {
        proof {
            use_type_invariant(&self);
        }
        let ghost before = self.outputs();
        let ghost output_view = output@;
        let restart = should_restart_execution(&output);
        let count = self.count;
        let mut outputs = self.outputs;
        outputs.push(output);
        let ghost pushed = Seq::new(outputs@.len(), |i: int| outputs@[i]@);
        proof {
            assert(pushed =~= before.push(output_view));
        }
        if restart {
            let ghost start = outputs@.len();
            while outputs.len() < count
                invariant
                    start <= outputs@.len() <= count,
                    Seq::new(outputs@.len(), |i: int| outputs@[i]@) == pushed + skipped_outputs(
                        (outputs@.len() - start) as nat,
                    ),
                decreases count - outputs@.len(),
            {
                let ghost so_far = Seq::new(outputs@.len(), |i: int| outputs@[i]@);
                outputs.push(VMOutput::empty_with_status(TransactionStatus::Retry));
                proof {
                    let now = Seq::new(outputs@.len(), |i: int| outputs@[i]@);
                    assert(now =~= so_far.push(empty_output(TransactionStatus::Retry)));
                    assert(now =~= pushed + skipped_outputs((outputs@.len() - start) as nat));
                }
            }
        }
        BlockExecution { count, outputs, failure: None }
    }

    /// Records that the transaction that was to be executed next could not
    /// be run at all, which fails the block.
    pub fn record_failure(self, vm_status: VMStatus) -> (result: BlockExecution)
        ensures
            result.count() == self.count(),
            result.outputs() == self.outputs(),
            result.failure() == Some(vm_status),
    {
        proof {
            use_type_invariant(&self);
        }
        BlockExecution { count: self.count, outputs: self.outputs, failure: Some(vm_status) }
    }

    /// The outputs of the block, one for each of its transactions, or why
    /// the block could not be executed.
    pub fn into_outputs(self) -> (result: Result<Vec<VMOutput>, VMStatus>)
        requires
            self.spec_next_transaction() is None,
        ensures
            match result {
                Ok(outputs) => self.failure() is None && outputs@.len() == self.count()
                    && self.outputs() == Seq::new(outputs@.len(), |i: int| outputs@[i]@),
                Err(vm_status) => self.failure() == Some(vm_status),
            },
    {
        proof {
            use_type_invariant(&self);
        }
        match self.failure {
            Some(vm_status) => Err(vm_status),
            None => Ok(self.outputs),
        }
    }
}

impl AptosVM {
    /// Starts the execution of a block of `count` transactions. Each
    /// transaction is executed by `execute_single_transaction` and its
    /// output recorded at its place.
    pub fn execute_block(count: usize) -> (result: BlockExecution)
        ensures
            result.count() == count,
            result.outputs() == Seq::<VMOutputView>::empty(),
            result.failure() is None,
    {
        BlockExecution::new(count)
    }

    /// The same for a block that is executed in shards: the outputs are
    /// put together in the order of the block all the same.
    pub fn execute_block_sharded(count: usize) -> (result: BlockExecution)
        ensures
            result.count() == count,
            result.outputs() == Seq::<VMOutputView>::empty(),
            result.failure() is None,
    {
        BlockExecution::new(count)
    }
}

/// A block has as many outputs as transactions: whatever outputs are
/// recorded, once no transaction is left to execute and the block has not
/// failed, every transaction has its output.
pub proof fn law_output_length_equality(block: BlockExecution)
    requires
        block.spec_next_transaction() is None,
        block.failure() is None,
        block.outputs().len() <= block.count(),
    ensures
        block.outputs().len() == block.count(),
{
}

} // verus!
