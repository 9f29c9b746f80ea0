//! What the execution of one transaction hands back.

use crate::change_set::{empty_change_set, ChangeSetView, VMChangeSet};
use crate::transaction::{FeeStatement, TransactionStatus};
use crate::types::{
    new_epoch_event_key, spec_new_epoch_event_key, ContractEvent, EventKey, MoveTypeLayout,
};
use crate::vm_status::VMStatus;
use vstd::prelude::*;

verus! {

/// The outcome of one transaction: what it wants written, what it was
/// charged, and what becomes of it. `C` is how the change set is held.
pub struct VMOutputOf<C> {
    pub change_set: C,
    pub fee_statement: FeeStatement,
    pub status: TransactionStatus,
}

/// An outcome as the pipeline hands it out.
pub type VMOutput = VMOutputOf<VMChangeSet>;

/// An outcome as a mathematical value.
pub type VMOutputView = VMOutputOf<ChangeSetView>;

impl View for VMOutputOf<VMChangeSet> {
    type V = VMOutputView;

    open spec fn view(&self) -> VMOutputView {
        VMOutputOf {
            change_set: self.change_set@,
            fee_statement: self.fee_statement,
            status: self.status,
        }
    }
}

/// The outcome that writes nothing, charges nothing and has the given
/// status.
pub open spec fn empty_output(status: TransactionStatus) -> VMOutputView {
    VMOutputOf {
        change_set: empty_change_set(),
        fee_statement: FeeStatement::spec_zero(),
        status,
    }
}

/// The outcome of a transaction that is discarded because of `vm_status`.
pub open spec fn discarded_output(vm_status: VMStatus) -> VMOutputView {
    empty_output(TransactionStatus::Discard(vm_status.spec_status_code()))
}

/// Whether one of the events is filed under `key`.
pub open spec fn has_event_with_key(
    events: Seq<(ContractEvent, Option<MoveTypeLayout>)>,
    key: EventKey,
) -> bool {
    exists|i: int| 0 <= i < events.len() && (#[trigger] events[i]).0.key == Some(key)
}

/// Whether one of the events announces a new epoch.
pub open spec fn has_new_epoch_event(events: Seq<(ContractEvent, Option<MoveTypeLayout>)>) -> bool {
    has_event_with_key(events, spec_new_epoch_event_key())
}

/// Whether one of the events is filed under `key`.
pub fn has_event(events: &Vec<(ContractEvent, Option<MoveTypeLayout>)>, key: EventKey) -> (result:
    bool)
    ensures
        result == has_event_with_key(events@, key),
{
    let mut i: usize = 0;
    while i < events.len()
        invariant
            i <= events@.len(),
            forall|j: int| 0 <= j < i ==> (#[trigger] events@[j]).0.key != Some(key),
        decreases events@.len() - i,
    {
        match events[i].0.event_key() {
            Some(found) => {
                if found == key {
                    return true;
                }
            },
            None => {},
        }
        i += 1;
    }
    false
}

impl VMOutputOf<VMChangeSet> {
    pub fn new(change_set: VMChangeSet, fee_statement: FeeStatement, status: TransactionStatus) -> (result:
        VMOutput)
        ensures
            result.change_set == change_set,
            result.fee_statement == fee_statement,
            result.status == status,
    {
        VMOutputOf { change_set, fee_statement, status }
    }

    /// The outcome that writes nothing, charges nothing and has the given
    /// status.
    pub fn empty_with_status(status: TransactionStatus) -> (result: VMOutput)
        ensures
            result@ == empty_output(status),
    {
        VMOutputOf { change_set: VMChangeSet::empty(), fee_statement: FeeStatement::zero(), status }
    }

    pub fn change_set(&self) -> (result: &VMChangeSet)
        ensures
            *result == self.change_set,
    {
        &self.change_set
    }

    pub fn fee_statement(&self) -> (result: FeeStatement)
        ensures
            result == self.fee_statement,
    {
        self.fee_statement
    }

    pub fn status(&self) -> (result: &TransactionStatus)
        ensures
            *result == self.status,
    {
        &self.status
    }

    pub fn gas_used(&self) -> (result: u64)
        ensures
            result == self.fee_statement.total_charge_gas_units,
    {
        self.fee_statement.gas_used()
    }
}

/// The outcome of a transaction that is discarded because of `vm_status`:
/// nothing written, no event, nothing charged, and the status code of
/// `vm_status` as the reason.
pub fn discard_error_vm_status(vm_status: VMStatus) -> (result: (VMStatus, VMOutput))
    ensures
        result.0 == vm_status,
        result.1@ == discarded_output(vm_status),
{
    let vm_output = VMOutput::empty_with_status(
        TransactionStatus::Discard(vm_status.status_code()),
    );
    (vm_status, vm_output)
}

/// Whether the rest of the block has to wait for a new epoch: some event of
/// the outcome announces one.
pub fn should_restart_execution(vm_output: &VMOutput) -> (result: bool)
    ensures
        result == has_new_epoch_event(vm_output@.change_set.events),
{
    has_event(vm_output.change_set.events(), new_epoch_event_key())
}

} // verus!
