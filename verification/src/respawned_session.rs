//! The session that the epilogue runs in: it sees the base state with the
//! change set of the transaction laid over it, without the change set being
//! committed.

use crate::aggregator::{bounded_add_delta, merged_delta, BoundedMath, DeltaWithMax, SignedU128};
use crate::bcs_codec::{deserialize, le_bytes};
use crate::change_set::{
    has_creation, no_aggregator_writes, squash, ChangeSetView, GroupRead, VMChangeSet,
};
use crate::delayed_change::{
    applied_to_base, apply_base_id, ApplyBase, DelayedApplyChange, DelayedApplyChangeView,
    DelayedChange, DelayedChangeView, DelayedFieldID, DelayedFieldValue, DelayedFieldValueView,
    DelayedFieldsSpeculativeError, PanicError, PanicOr,
};
use crate::keyed_map::KeyedMap;
use crate::resolver::{
    anyhow_error, delayed_field_read_is, DelayedFieldRead, ExecutorView, ResourceGroupView,
    SlotRead, StateStorageUsage, StateViewId,
};
use crate::squash::deep;
use crate::transaction::SessionId;
use crate::types::{MoveTypeLayout, StateKey, StructTag, StructTagView};
use crate::vm_status::{StatusCode, VMStatus};
use crate::write_op::{
    added_to_data, data_with_delta, layout_view, write_op_bytes, write_op_state_value, LayoutWrite,
    LayoutWriteView, StateValue, StateValueView, WriteOp, WriteOpView,
};
use rand::Rng;
use vstd::prelude::*;

verus! {

/// The value if there is one, else the failure of an invariant.
pub fn unwrap_or_invariant_violation<T>(value: Option<T>) -> (result: Result<T, VMStatus>)
    ensures
        result == match value {
            Some(value) => Ok::<T, VMStatus>(value),
            None => Err(
                VMStatus::Error {
                    status_code: StatusCode::UNKNOWN_INVARIANT_VIOLATION_ERROR,
                    sub_status: None,
                },
            ),
        },
{
    match value {
        Some(value) => Ok(value),
        None => Err(VMStatus::error(StatusCode::UNKNOWN_INVARIANT_VIOLATION_ERROR, None)),
    }
}

/// Calls `gen_range(0, 100)` on the random number generator of the thread:
/// a number from 0 up to, but not including, 100.
#[verifier::external_body]
fn random_percent() -> (result: u32)
    ensures
        result < 100,
{
    rand::thread_rng().gen_range(0, 100)
}

/// Checks two layouts that are expected to match, given the number that
/// was drawn. That one is there and the other is not is always found. That
/// both are there and differ is looked for only when the number is 1,
/// because the comparison is expensive.
pub fn check_layout_matches(
    layout_1: Option<&MoveTypeLayout>,
    layout_2: Option<&MoveTypeLayout>,
    random_number: u32,
) -> (result: Result<(), PanicError>)
    ensures
        result is Err <==> (layout_1 is Some != layout_2 is Some) || (random_number == 1 && (match (
            layout_1,
            layout_2,
        ) {
            (Some(first), Some(second)) => first@ != second@,
            _ => false,
        })),
{
    match (layout_1, layout_2) {
        (Some(first), Some(second)) => {
            if random_number == 1 && !first.same(second) {
                Err(PanicError {  })
            } else {
                Ok(())
            }
        },
        (None, None) => Ok(()),
        _ => Err(PanicError {  }),
    }
}

/// Checks, now and then, two layouts that are expected to match. Whatever
/// number is drawn: a failure means that the layouts do not match, and
/// layouts of which only one is there always fail.
pub fn randomly_check_layout_matches(
    layout_1: Option<&MoveTypeLayout>,
    layout_2: Option<&MoveTypeLayout>,
) -> (result: Result<(), PanicError>)
    ensures
        (layout_1 is Some != layout_2 is Some) ==> result is Err,
        result is Err ==> (layout_1 is Some != layout_2 is Some) || (match (layout_1, layout_2) {
            (Some(first), Some(second)) => first@ != second@,
            _ => false,
        }),
{
    if layout_1.is_some() != layout_2.is_some() {
        return Err(PanicError {  });
    }
    if layout_1.is_some() {
        let random_number = random_percent();
        return check_layout_matches(layout_1, layout_2, random_number);
    }
    Ok(())
}

/// The write that stands for `delta` applied to the aggregator that the
/// base state holds as `base`: none where the base state holds no such
/// aggregator, where what it holds is not the encoding of a value, or where
/// the delta leaves the bounds.
pub open spec fn delta_as_write(base: Option<StateValueView>, delta: DeltaWithMax) -> Option<
    WriteOpView,
> {
    match base {
        None => None,
        Some(value) => match data_with_delta(value.data, delta) {
            Some(data) => Some(WriteOpView::Modification { data, metadata: None }),
            None => None,
        },
    }
}

/// The write that stands for `delta` applied to what the base state holds.
pub fn convert_aggregator_v1_delta(base: Option<StateValue>, delta: &DeltaWithMax) -> (result:
    Option<WriteOp>)
    ensures
        match result {
            Some(op) => delta_as_write(
                match base {
                    Some(value) => Some(value@),
                    None => None,
                },
                *delta,
            ) == Some(op@),
            None => delta_as_write(
                match base {
                    Some(value) => Some(value@),
                    None => None,
                },
                *delta,
            ) is None,
        },
{
    match base {
        None => None,
        Some(value) => match added_to_data(&value.data, delta) {
            Some(data) => Some(WriteOp::Modification { data, metadata: None }),
            None => None,
        },
    }
}

/// The base state with a change set laid over it: what the change set
/// writes is read from the change set, everything else from the base state.
pub struct ExecutorViewWithChangeSet<'r, E: ExecutorView, G: ResourceGroupView> {
    pub base_executor_view: &'r E,
    pub base_resource_group_view: &'r G,
    pub change_set: VMChangeSet,
}

/// What the change set says a plain slot holds: `None` where it does not
/// write the slot, else what the write leaves there.
pub open spec fn overlaid_value(writes: Map<Seq<u8>, WriteOpView>, key: Seq<u8>) -> Option<
    Option<StateValueView>,
> {
    if writes.contains_key(key) {
        Some(write_op_state_value(writes[key]))
    } else {
        None
    }
}

/// The layout as a mathematical value, where one is given.
pub open spec fn layout_view_of(layout: Option<&MoveTypeLayout>) -> Option<Seq<u8>> {
    match layout {
        Some(layout) => Some(layout@),
        None => None,
    }
}

/// What the change set says a resource holds.
pub open spec fn overlaid_resource(change_set: ChangeSetView, key: Seq<u8>) -> Option<
    Option<StateValueView>,
> {
    if change_set.resource_write_set.contains_key(key) {
        Some(write_op_state_value(change_set.resource_write_set[key].op))
    } else {
        None
    }
}

/// The write of the change set to a member of a resource group, if it
/// writes that member.
pub open spec fn overlaid_group_member(
    change_set: ChangeSetView,
    group_key: Seq<u8>,
    tag: StructTagView,
) -> Option<LayoutWriteView> {
    if change_set.resource_group_write_set.contains_key(group_key)
        && change_set.resource_group_write_set[group_key].inner_ops.contains_key(tag) {
        Some(change_set.resource_group_write_set[group_key].inner_ops[tag])
    } else {
        None
    }
}

/// What a read through the overlay gives where the change set holds a
/// delta for the aggregator: the delta applied to what the base state holds;
/// no aggregator in the base state, or a delta that cannot be applied, fails
/// the read.
pub open spec fn overlaid_delta(base: SlotRead, delta: DeltaWithMax) -> SlotRead {
    match base {
        None => None,
        Some(held) => match delta_as_write(held, delta) {
            Some(op) => Some(write_op_state_value(op)),
            None => None,
        },
    }
}

/// The value of a delayed field under the overlay, with at most `fuel`
/// steps from a field to the field it builds on. A field that the change set
/// creates has the value it was created with. A field that the change set
/// changes has the change applied to what it builds on: its own value in the
/// base state, or the value that another field has under the overlay. A
/// field that builds on itself, or on fields that build on each other in a
/// circle, has no value. Any other field is the base state's.
pub open spec fn overlaid_delayed_field<E: ExecutorView>(
    changes: Map<u64, DelayedChangeView>,
    base: &E,
    id: u64,
    fuel: nat,
) -> DelayedFieldRead
    decreases fuel,
{
    if !changes.contains_key(id) {
        base.delayed_field_at(id)
    } else {
        match changes[id] {
            DelayedChangeView::Create(value) => Ok(value),
            DelayedChangeView::Apply(apply) => {
                let base_value = match apply_base_id(apply, DelayedFieldID { id }) {
                    ApplyBase::Previous(base_id) => base.delayed_field_at(base_id.id),
                    ApplyBase::Current(base_id) => if base_id.id == id || fuel == 0 {
                        Err(PanicOr::CodeInvariantError)
                    } else {
                        overlaid_delayed_field(changes, base, base_id.id, (fuel - 1) as nat)
                    },
                };
                match base_value {
                    Err(error) => Err(error),
                    Ok(value) => match applied_to_base(apply, value) {
                        Some(applied) => Ok(applied),
                        None => Err(PanicOr::CodeInvariantError),
                    },
                }
            },
        }
    }
}

/// What is to be done about the question whether a delta can be added to
/// a delayed field.
#[derive(Debug, PartialEq, Eq)]
pub enum DeltaOutcomePlan {
    /// The change set knows the answer, or that there is none.
    Answer(Result<bool, PanicError>),
    /// The base state is to be asked, with this delta as what came before.
    Ask { base_delta: SignedU128 },
}

/// What is to be done about the question whether `delta` can be added to a
/// delayed field after `base_delta`, given what the change set records
/// against the field. A field that the change set creates is answered from
/// its value. A delta that the change set records is merged into what came
/// before, and the base state is asked. Nothing else can be recorded against
/// a field that takes deltas. A field without a record is the base state's.
pub open spec fn delta_outcome_plan(
    change: Option<DelayedChangeView>,
    base_delta: SignedU128,
    delta: SignedU128,
    max_value: u128,
) -> DeltaOutcomePlan {
    match change {
        Some(DelayedChangeView::Create(DelayedFieldValueView::Aggregator(value))) => match bounded_add_delta(
            max_value,
            value,
            base_delta,
        ) {
            Ok(prev) => DeltaOutcomePlan::Answer(
                Ok(bounded_add_delta(max_value, prev, delta) is Ok),
            ),
            Err(_) => DeltaOutcomePlan::Answer(Err(PanicError {  })),
        },
        Some(DelayedChangeView::Create(_)) => DeltaOutcomePlan::Answer(Err(PanicError {  })),
        Some(
            DelayedChangeView::Apply(
                DelayedApplyChangeView::AggregatorDelta { delta: change_delta },
            ),
        ) => match merged_delta(DeltaWithMax { update: base_delta, max_value }, change_delta) {
            Some(merged) => DeltaOutcomePlan::Ask { base_delta: merged.update },
            None => DeltaOutcomePlan::Answer(Err(PanicError {  })),
        },
        Some(DelayedChangeView::Apply(_)) => DeltaOutcomePlan::Answer(Err(PanicError {  })),
        None => DeltaOutcomePlan::Ask { base_delta },
    }
}

/// The recorded change as a mathematical value, where there is one.
pub open spec fn change_view(change: Option<&DelayedChange>) -> Option<DelayedChangeView> {
    match change {
        Some(change) => Some(change@),
        None => None,
    }
}

/// What is to be done about the question whether `delta` can be added to a
/// delayed field after `base_delta`.
pub fn plan_delta_outcome(
    change: Option<&DelayedChange>,
    base_delta: &SignedU128,
    delta: &SignedU128,
    max_value: u128,
) -> (result: DeltaOutcomePlan)
    ensures
        result == delta_outcome_plan(change_view(change), *base_delta, *delta, max_value),
{
    let math = BoundedMath::new(max_value);
    match change {
        Some(DelayedChange::Create(DelayedFieldValue::Aggregator(value))) => {
            match math.unsigned_add_delta(*value, base_delta) {
                Ok(prev) => DeltaOutcomePlan::Answer(
                    Ok(math.unsigned_add_delta(prev, delta).is_ok()),
                ),
                Err(_) => DeltaOutcomePlan::Answer(Err(PanicError {  })),
            }
        },
        Some(DelayedChange::Create(_)) => DeltaOutcomePlan::Answer(Err(PanicError {  })),
        Some(DelayedChange::Apply(DelayedApplyChange::AggregatorDelta { delta: change_delta })) => {
            match DeltaWithMax::create_merged_delta(
                &DeltaWithMax::new(*base_delta, max_value),
                change_delta,
            ) {
                Some(merged) => DeltaOutcomePlan::Ask { base_delta: merged.get_update() },
                None => DeltaOutcomePlan::Answer(Err(PanicError {  })),
            }
        },
        Some(DelayedChange::Apply(_)) => DeltaOutcomePlan::Answer(Err(PanicError {  })),
        None => DeltaOutcomePlan::Ask { base_delta: *base_delta },
    }
}

impl<'r, E: ExecutorView, G: ResourceGroupView> ExecutorViewWithChangeSet<'r, E, G> {
    pub fn new(
        base_executor_view: &'r E,
        base_resource_group_view: &'r G,
        change_set: VMChangeSet,
    ) -> (result: Self)
        ensures
            result.base_executor_view == base_executor_view,
            result.base_resource_group_view == base_resource_group_view,
            result.change_set == change_set,
    {
        ExecutorViewWithChangeSet { base_executor_view, base_resource_group_view, change_set }
    }

    /// The bytes of the resource under `state_key`.
    pub fn get_resource_bytes(&self, state_key: &StateKey, maybe_layout: Option<&MoveTypeLayout>) -> (result:
        Result<Option<Vec<u8>>, anyhow::Error>)
        ensures
            match result {
                Ok(Some(bytes)) => self.resource_at(state_key@, layout_view_of(maybe_layout))
                    matches Some(Some(held)) && held.data == bytes@,
                Ok(None) => self.resource_at(state_key@, layout_view_of(maybe_layout)) == Some(
                    None::<StateValueView>,
                ),
                Err(_) => self.resource_at(state_key@, layout_view_of(maybe_layout)) is None,
            },
    {
        match self.get_resource_state_value(state_key, maybe_layout) {
            Ok(Some(value)) => Ok(Some(value.data)),
            Ok(None) => Ok(None),
            Err(error) => Err(error),
        }
    }

    /// The bytes of the module under `state_key`.
    pub fn get_module_bytes(&self, state_key: &StateKey) -> (result: Result<
        Option<Vec<u8>>,
        anyhow::Error,
    >)
        ensures
            match result {
                Ok(Some(bytes)) => self.module_at(state_key@) matches Some(Some(held))
                    && held.data == bytes@,
                Ok(None) => self.module_at(state_key@) == Some(None::<StateValueView>),
                Err(_) => self.module_at(state_key@) is None,
            },
    {
        match self.get_module_state_value(state_key) {
            Ok(Some(value)) => Ok(Some(value.data)),
            Ok(None) => Ok(None),
            Err(error) => Err(error),
        }
    }

    /// The value of the aggregator under `id`.
    pub fn get_aggregator_v1_value(&self, id: &StateKey) -> (result: Result<
        Option<u128>,
        anyhow::Error,
    >)
        ensures
            match result {
                Ok(Some(number)) => self.aggregator_v1_at(id@) matches Some(Some(held))
                    && held.data == le_bytes(number as nat, 16),
                Ok(None) => self.aggregator_v1_at(id@) == Some(None::<StateValueView>),
                Err(_) => match self.aggregator_v1_at(id@) {
                    Some(Some(held)) => held.data.len() != 16,
                    Some(None) => false,
                    None => true,
                },
            },
    {
        match self.get_aggregator_v1_state_value(id) {
            Ok(Some(value)) => match deserialize(&value.data) {
                Some(number) => Ok(Some(number)),
                None => Err(anyhow_error("aggregator value is not the encoding of a number")),
            },
            Ok(None) => Ok(None),
            Err(error) => Err(error),
        }
    }

    /// The delayed field `id`, with at most `fuel` steps from a field to
    /// the field it builds on.
    fn delayed_field_value(&self, id: &DelayedFieldID, fuel: usize) -> (result: Result<
        DelayedFieldValue,
        PanicOr<DelayedFieldsSpeculativeError>,
    >)
        ensures
            delayed_field_read_is(
                result,
                overlaid_delayed_field(
                    self.change_set@.delayed_field_change_set,
                    self.base_executor_view,
                    id@,
                    fuel as nat,
                ),
            ),
        decreases fuel,
    {
        match self.change_set.delayed_field_change_set().get(id) {
            Some(DelayedChange::Create(value)) => Ok(value.duplicate()),
            Some(DelayedChange::Apply(apply)) => {
                let base_value = match apply.get_apply_base_id(id) {
                    ApplyBase::Previous(base_id) => {
                        match self.base_executor_view.get_delayed_field_value(&base_id) {
                            Ok(value) => value,
                            Err(error) => {
                                return Err(error);
                            },
                        }
                    },
                    ApplyBase::Current(base_id) => {
                        if base_id.id == id.id || fuel == 0 {
                            return Err(PanicOr::CodeInvariantError);
                        }
                        match self.delayed_field_value(&base_id, fuel - 1) {
                            Ok(value) => value,
                            Err(error) => {
                                return Err(error);
                            },
                        }
                    },
                };
                match apply.apply_to_base(base_value) {
                    Ok(value) => Ok(value),
                    Err(_) => Err(PanicOr::CodeInvariantError),
                }
            },
            None => self.base_executor_view.get_delayed_field_value(id),
        }
    }
}

impl<'r, E: ExecutorView, G: ResourceGroupView> ExecutorView for ExecutorViewWithChangeSet<
    'r,
    E,
    G,
> {
    /// A module that the change set writes is what the write leaves; any
    /// other is the base state's.
    open spec fn module_at(&self, state_key: Seq<u8>) -> SlotRead {
        match overlaid_value(self.change_set@.module_write_set, state_key) {
            Some(value) => Some(value),
            None => self.base_executor_view.module_at(state_key),
        }
    }

    /// A resource that the change set writes is what the write leaves; any
    /// other is the base state's.
    open spec fn resource_at(&self, state_key: Seq<u8>, layout: Option<Seq<u8>>) -> SlotRead {
        match overlaid_resource(self.change_set@, state_key) {
            Some(value) => Some(value),
            None => self.base_executor_view.resource_at(state_key, layout),
        }
    }

    /// An aggregator that the change set holds a delta for is the base
    /// state's value with the delta applied; one that the change set writes
    /// is what the write leaves; any other is the base state's.
    open spec fn aggregator_v1_at(&self, id: Seq<u8>) -> SlotRead {
        if self.change_set@.aggregator_v1_delta_set.contains_key(id) {
            overlaid_delta(
                self.base_executor_view.aggregator_v1_at(id),
                self.change_set@.aggregator_v1_delta_set[id],
            )
        } else {
            match overlaid_value(self.change_set@.aggregator_v1_write_set, id) {
                Some(value) => Some(value),
                None => self.base_executor_view.aggregator_v1_at(id),
            }
        }
    }

    /// The value of a delayed field under the overlay. A chain of fields
    /// that build on each other and is longer than the change set has fields
    /// runs in a circle.
    open spec fn delayed_field_at(&self, id: u64) -> DelayedFieldRead {
        overlaid_delayed_field(
            self.change_set@.delayed_field_change_set,
            self.base_executor_view,
            id,
            self.change_set@.delayed_field_change_set.dom().len(),
        )
    }

    /// Answers from the change set where `delta_outcome_plan` says so;
    /// else the base state is asked, with the delta that the plan names.
    open spec fn delta_outcome_at(
        &self,
        id: u64,
        base_delta: SignedU128,
        delta: SignedU128,
        max_value: u128,
    ) -> Result<bool, PanicOr<DelayedFieldsSpeculativeError>> {
        match delta_outcome_plan(
            if self.change_set@.delayed_field_change_set.contains_key(id) {
                Some(self.change_set@.delayed_field_change_set[id])
            } else {
                None
            },
            base_delta,
            delta,
            max_value,
        ) {
            DeltaOutcomePlan::Answer(Ok(possible)) => Ok(possible),
            DeltaOutcomePlan::Answer(Err(_)) => Err(PanicOr::CodeInvariantError),
            DeltaOutcomePlan::Ask {
                base_delta: merged,
            } => self.base_executor_view.delta_outcome_at(id, merged, delta, max_value),
        }
    }

    fn get_module_state_value(&self, state_key: &StateKey) -> (result: Result<
        Option<StateValue>,
        anyhow::Error,
    >) {
        match self.change_set.module_write_set().get(state_key) {
            Some(write_op) => Ok(write_op.as_state_value()),
            None => self.base_executor_view.get_module_state_value(state_key),
        }
    }

    fn get_resource_state_value(
        &self,
        state_key: &StateKey,
        maybe_layout: Option<&MoveTypeLayout>,
    ) -> (result: Result<Option<StateValue>, anyhow::Error>) {
        match self.change_set.resource_write_set().get(state_key) {
            Some(write) => Ok(write.op.as_state_value()),
            None => self.base_executor_view.get_resource_state_value(state_key, maybe_layout),
        }
    }

    fn get_aggregator_v1_state_value(&self, id: &StateKey) -> (result: Result<
        Option<StateValue>,
        anyhow::Error,
    >) {
        match self.change_set.aggregator_v1_delta_set().get(id) {
            Some(delta_op) => {
                let base = match self.base_executor_view.get_aggregator_v1_state_value(id) {
                    Ok(base) => base,
                    Err(error) => {
                        return Err(error);
                    },
                };
                match convert_aggregator_v1_delta(base, delta_op) {
                    Some(write_op) => Ok(write_op.as_state_value()),
                    None => Err(anyhow_error("the delta cannot be applied to the aggregator")),
                }
            },
            None => match self.change_set.aggregator_v1_write_set().get(id) {
                Some(write_op) => Ok(write_op.as_state_value()),
                None => self.base_executor_view.get_aggregator_v1_state_value(id),
            },
        }
    }

    /// Whether delayed fields are exchanged for identifiers is up to the
    /// base state.
    open spec fn delayed_field_optimization_capable(&self) -> bool {
        self.base_executor_view.delayed_field_optimization_capable()
    }

    /// The overlay is a view of what the base state is a view of.
    open spec fn view_id(&self) -> StateViewId {
        self.base_executor_view.view_id()
    }

    /// Fresh identifiers come from the base state.
    open spec fn hands_out(&self, id: DelayedFieldID) -> bool {
        self.base_executor_view.hands_out(id)
    }

    /// Which identifier a number stands for is up to the base state.
    open spec fn converts(&self, id: u64, outcome: Result<DelayedFieldID, PanicError>) -> bool {
        self.base_executor_view.converts(id, outcome)
    }

    /// The reads to exchange are those that the base state names.
    open spec fn names_reads_needing_exchange(
        &self,
        keys: Seq<DelayedFieldID>,
        skip: Seq<StateKey>,
        outcome: Result<KeyedMap<StateKey, LayoutWrite>, PanicError>,
    ) -> bool {
        self.base_executor_view.names_reads_needing_exchange(keys, skip, outcome)
    }

    /// The reads of groups to exchange are those that the base state
    /// names.
    open spec fn names_group_reads_needing_exchange(
        &self,
        keys: Seq<DelayedFieldID>,
        skip: Seq<StateKey>,
        outcome: Result<KeyedMap<StateKey, GroupRead>, PanicError>,
    ) -> bool {
        self.base_executor_view.names_group_reads_needing_exchange(keys, skip, outcome)
    }

    fn is_delayed_field_optimization_capable(&self) -> (result: bool) {
        self.base_executor_view.is_delayed_field_optimization_capable()
    }

    fn get_delayed_field_value(&self, id: &DelayedFieldID) -> (result: Result<
        DelayedFieldValue,
        PanicOr<DelayedFieldsSpeculativeError>,
    >) {
        let changes = self.change_set.delayed_field_change_set();
        let fuel = changes.len();
        proof {
            assert(deep(changes@).dom() =~= changes@.dom());
        }
        self.delayed_field_value(id, fuel)
    }

    fn delayed_field_try_add_delta_outcome(
        &self,
        id: &DelayedFieldID,
        base_delta: &SignedU128,
        delta: &SignedU128,
        max_value: u128,
    ) -> (result: Result<bool, PanicOr<DelayedFieldsSpeculativeError>>) {
        let change = self.change_set.delayed_field_change_set().get(id);
        match plan_delta_outcome(change, base_delta, delta, max_value) {
            DeltaOutcomePlan::Answer(Ok(possible)) => Ok(possible),
            DeltaOutcomePlan::Answer(Err(_)) => Err(PanicOr::CodeInvariantError),
            DeltaOutcomePlan::Ask {
                base_delta: merged,
            } => self.base_executor_view.delayed_field_try_add_delta_outcome(
                id,
                &merged,
                delta,
                max_value,
            ),
        }
    }

    fn generate_delayed_field_id(&self) -> (result: DelayedFieldID) {
        self.base_executor_view.generate_delayed_field_id()
    }

    fn validate_and_convert_delayed_field_id(&self, id: u64) -> (result: Result<
        DelayedFieldID,
        PanicError,
    >) {
        self.base_executor_view.validate_and_convert_delayed_field_id(id)
    }

    fn get_reads_needing_exchange(
        &self,
        delayed_write_set_keys: &Vec<DelayedFieldID>,
        skip: &Vec<StateKey>,
    ) -> (result: Result<KeyedMap<StateKey, LayoutWrite>, PanicError>) {
        self.base_executor_view.get_reads_needing_exchange(delayed_write_set_keys, skip)
    }

    fn get_group_reads_needing_exchange(
        &self,
        delayed_write_set_keys: &Vec<DelayedFieldID>,
        skip: &Vec<StateKey>,
    ) -> (result: Result<KeyedMap<StateKey, GroupRead>, PanicError>) {
        self.base_executor_view.get_group_reads_needing_exchange(delayed_write_set_keys, skip)
    }

    fn id(&self) -> (result: StateViewId) {
        self.base_executor_view.id()
    }

    /// The overlay does not know how much the state holds.
    fn get_usage(&self) -> (result: Result<StateStorageUsage, anyhow::Error>)
        ensures
            result is Err,
    {
        Err(anyhow_error("Unexpected access to get_usage()"))
    }
}

impl<'r, E: ExecutorView, G: ResourceGroupView> ResourceGroupView for ExecutorViewWithChangeSet<
    'r,
    E,
    G,
> {
    /// Under the overlay gas is of no interest, and every group has size
    /// zero.
    fn resource_group_size(&self, group_key: &StateKey) -> (result: Result<u64, anyhow::Error>)
        ensures
            result matches Ok(size) && size == 0,
    {
        Ok(0)
    }

    /// A member that the change set writes is what the write leaves; any
    /// other member is the base state's.
    open spec fn group_member_at(
        &self,
        group_key: Seq<u8>,
        resource_tag: StructTagView,
        layout: Option<Seq<u8>>,
    ) -> Option<Seq<u8>> {
        match overlaid_group_member(self.change_set@, group_key, resource_tag) {
            Some(write) => write_op_bytes(write.op),
            None => self.base_resource_group_view.group_member_at(group_key, resource_tag, layout),
        }
    }

    /// The read of a member that the change set writes may fail only
    /// where the layout asked for is not the one the member was written with;
    /// the read of any other member where the base state's may.
    open spec fn group_read_may_fail(
        &self,
        group_key: Seq<u8>,
        resource_tag: StructTagView,
        layout: Option<Seq<u8>>,
    ) -> bool {
        match overlaid_group_member(self.change_set@, group_key, resource_tag) {
            Some(write) => layout != write.layout,
            None => self.base_resource_group_view.group_read_may_fail(
                group_key,
                resource_tag,
                layout,
            ),
        }
    }

    fn get_resource_from_group(
        &self,
        group_key: &StateKey,
        resource_tag: &StructTag,
        maybe_layout: Option<&MoveTypeLayout>,
    ) -> (result: Result<Option<Vec<u8>>, anyhow::Error>) {
        let member = match self.change_set.resource_group_write_set().get(group_key) {
            Some(group) => group.inner_ops.get(resource_tag),
            None => None,
        };
        match member {
            Some(write) => {
                match randomly_check_layout_matches(maybe_layout, write.layout.as_ref()) {
                    Ok(_) => Ok(write.op.extract_raw_bytes()),
                    Err(_) => Err(anyhow_error("get_resource_from_group layout check")),
                }
            },
            None => self.base_resource_group_view.get_resource_from_group(
                group_key,
                resource_tag,
                maybe_layout,
            ),
        }
    }
}

/// The session that the epilogue runs in. It holds the overlay of the
/// transaction's change set over the base state, the session that reads
/// through it, until that is finished, and the storage fee to refund.
pub struct RespawnedSession<'r, E: ExecutorView, G: ResourceGroupView> {
    pub executor_view: ExecutorViewWithChangeSet<'r, E, G>,
    pub session: Option<SessionId>,
    pub storage_refund: u64,
}

/// What finishing a respawned session gives: the failure of the inner
/// session if it failed; the failure of an invariant if what the inner
/// session wants written creates a slot, or cannot follow what the
/// transaction wrote; else the two change sets as one.
pub open spec fn respawned_finish(
    previous: ChangeSetView,
    additional: Result<VMChangeSet, VMStatus>,
) -> Result<ChangeSetView, VMStatus> {
    match additional {
        Err(error) => Err(error),
        Ok(additional) => if has_creation(additional@) {
            Err(
                VMStatus::Error {
                    status_code: StatusCode::UNKNOWN_INVARIANT_VIOLATION_ERROR,
                    sub_status: None,
                },
            )
        } else {
            match squash(previous, additional@) {
                Some(change_set) => Ok(change_set),
                None => Err(
                    VMStatus::Error {
                        status_code: StatusCode::UNKNOWN_INVARIANT_VIOLATION_ERROR,
                        sub_status: None,
                    },
                ),
            }
        },
    }
}

impl<'r, E: ExecutorView, G: ResourceGroupView> RespawnedSession<'r, E, G> {
    /// Opens a session that sees `previous_session_change_set` laid over
    /// the base state.
    pub fn spawn(
        session_id: SessionId,
        base_executor_view: &'r E,
        base_resource_group_view: &'r G,
        previous_session_change_set: VMChangeSet,
        storage_refund: u64,
    ) -> (result: Result<Self, VMStatus>)
        ensures
            result matches Ok(respawned) && respawned.executor_view.change_set
                == previous_session_change_set && respawned.executor_view.base_executor_view
                == base_executor_view && respawned.executor_view.base_resource_group_view
                == base_resource_group_view && respawned.session == Some(session_id)
                && respawned.storage_refund == storage_refund,
    {
        let executor_view = ExecutorViewWithChangeSet::new(
            base_executor_view,
            base_resource_group_view,
            previous_session_change_set,
        );
        Ok(RespawnedSession { executor_view, session: Some(session_id), storage_refund })
    }

    /// Runs `fun` in the session, if it is still there.
    pub fn execute<T, F: FnOnce(SessionId) -> Result<T, VMStatus>>(&mut self, fun: F) -> (result:
        Result<T, VMStatus>)
        requires
            old(self).session matches Some(session_id) ==> call_requires(fun, (session_id,)),
        ensures
            *final(self) == *old(self),
            match old(self).session {
                Some(session_id) => call_ensures(fun, (session_id,), result),
                None => result == Err::<T, VMStatus>(
                    VMStatus::Error {
                        status_code: StatusCode::UNKNOWN_INVARIANT_VIOLATION_ERROR,
                        sub_status: None,
                    },
                ),
            },
    {
        match unwrap_or_invariant_violation(self.session) {
            Ok(session_id) => fun(session_id),
            Err(error) => Err(error),
        }
    }

    /// Finishes the respawned session, given what finishing the session
    /// that ran in it gave. What that session wants written must not create
    /// a slot: else a slot could be deleted for its refund and made again by
    /// the epilogue, over and over. The result is the change set of the
    /// transaction with that of the session laid over it.
    pub fn finish(self, additional_change_set: Result<VMChangeSet, VMStatus>) -> (result: Result<
        VMChangeSet,
        VMStatus,
    >)
        ensures
            match (self.session, result) {
                (None, result) => result == Err::<VMChangeSet, VMStatus>(
                    VMStatus::Error {
                        status_code: StatusCode::UNKNOWN_INVARIANT_VIOLATION_ERROR,
                        sub_status: None,
                    },
                ),
                (Some(_), Ok(change_set)) => respawned_finish(
                    self.executor_view.change_set@,
                    additional_change_set,
                ) == Ok::<ChangeSetView, VMStatus>(change_set@),
                (Some(_), Err(error)) => respawned_finish(
                    self.executor_view.change_set@,
                    additional_change_set,
                ) == Err::<ChangeSetView, VMStatus>(error),
            },
            result is Ok ==> (match additional_change_set {
                Ok(additional) => !has_creation(additional@),
                Err(_) => false,
            }),
    {
        match unwrap_or_invariant_violation(self.session) {
            Err(error) => {
                return Err(error);
            },
            Ok(_) => {},
        }
        let additional_change_set = match additional_change_set {
            Ok(additional) => additional,
            Err(error) => {
                return Err(error);
            },
        };
        if additional_change_set.has_creation() {
            return Err(VMStatus::error(StatusCode::UNKNOWN_INVARIANT_VIOLATION_ERROR, None));
        }
        let change_set = self.executor_view.change_set;
        match change_set.squash_additional_change_set(additional_change_set) {
            Ok(change_set) => Ok(change_set),
            Err(_) => Err(VMStatus::error(StatusCode::UNKNOWN_INVARIANT_VIOLATION_ERROR, None)),
        }
    }

    pub fn get_storage_fee_refund(&self) -> (result: u64)
        ensures
            result == self.storage_refund,
    {
        self.storage_refund
    }

    /// The overlay that the session reads through.
    pub fn executor_view(&self) -> (result: &ExecutorViewWithChangeSet<'r, E, G>)
        ensures
            *result == self.executor_view,
    {
        &self.executor_view
    }
}

/// Whether the base state can read every module and every resource that
/// the change set writes.
pub open spec fn slots_readable<E: ExecutorView>(
    executor_view: &E,
    change_set: ChangeSetView,
) -> bool {
    &&& forall|k: Seq<u8>| #[trigger]
        change_set.module_write_set.contains_key(k) ==> executor_view.module_at(k) is Some
    &&& forall|k: Seq<u8>| #[trigger]
        change_set.resource_write_set.contains_key(k) ==> executor_view.resource_at(
            k,
            None,
        ) is Some
}

/// Whether the read of some member of a group that the change set writes
/// may fail, read with the layout that the member is written with.
pub open spec fn member_read_may_fail<G: ResourceGroupView>(
    resource_group_view: &G,
    change_set: ChangeSetView,
) -> bool {
    exists|k: Seq<u8>, tag: StructTagView|
        change_set.resource_group_write_set.contains_key(k)
            && change_set.resource_group_write_set[k].inner_ops.contains_key(tag)
            && #[trigger] resource_group_view.group_read_may_fail(
            k,
            tag,
            change_set.resource_group_write_set[k].inner_ops[tag].layout,
        )
}

/// Reads, from the base state, every slot that the change set of a genesis
/// transaction writes, as every execution reads before it writes: the
/// modules, then the resources without a layout, then the members of the
/// groups, each with the layout it is written with. The change set must not
/// write aggregators. The first read that fails is a storage error; so a
/// module or a resource that cannot be read always is one, and a member of a
/// group only where its read may fail.
pub fn read_change_set<E: ExecutorView, G: ResourceGroupView>(
    executor_view: &E,
    resource_group_view: &G,
    change_set: &VMChangeSet,
) -> (result: Result<(), VMStatus>)
    requires
        no_aggregator_writes(change_set@),
    ensures
        match result {
            Ok(_) => slots_readable(executor_view, change_set@),
            Err(error) => error == (VMStatus::Error {
                status_code: StatusCode::STORAGE_ERROR,
                sub_status: None,
            }) && (!slots_readable(executor_view, change_set@) || member_read_may_fail(
                resource_group_view,
                change_set@,
            )),
        },
{
    let modules = change_set.module_write_set();
    let module_count = modules.len();
    let mut i: usize = 0;
    proof {
        assert(deep(modules@).dom() =~= modules@.dom());
    }
    while i < module_count
        invariant
            i <= module_count,
            module_count == modules.keys().len(),
            modules.consistent(),
            deep(modules@) == change_set@.module_write_set,
            forall|j: int| 0 <= j < i ==> executor_view.module_at(#[trigger] modules.keys()[j]) is Some,
        decreases module_count - i,
    {
        let key = modules.key_at(i);
        match executor_view.get_module_state_value(key) {
            Ok(_) => {},
            Err(_) => {
                proof {
                    assert(change_set@.module_write_set.contains_key(key@));
                }
                return Err(VMStatus::error(StatusCode::STORAGE_ERROR, None));
            },
        }
        i += 1;
    }
    proof {
        assert forall|k: Seq<u8>| #[trigger]
            change_set@.module_write_set.contains_key(k) implies executor_view.module_at(
            k,
        ) is Some by {
            modules.lemma_place_of(k);
        }
    }
    let resources = change_set.resource_write_set();
    let resource_count = resources.len();
    let mut i: usize = 0;
    proof {
        assert(deep(resources@).dom() =~= resources@.dom());
    }
    while i < resource_count
        invariant
            i <= resource_count,
            resource_count == resources.keys().len(),
            resources.consistent(),
            deep(resources@) == change_set@.resource_write_set,
            forall|j: int|
                0 <= j < i ==> executor_view.resource_at(
                    #[trigger] resources.keys()[j],
                    None,
                ) is Some,
        decreases resource_count - i,
    {
        let key = resources.key_at(i);
        match executor_view.get_resource_state_value(key, None) {
            Ok(_) => {},
            Err(_) => {
                proof {
                    assert(change_set@.resource_write_set.contains_key(key@));
                }
                return Err(VMStatus::error(StatusCode::STORAGE_ERROR, None));
            },
        }
        i += 1;
    }
    proof {
        assert forall|k: Seq<u8>| #[trigger]
            change_set@.resource_write_set.contains_key(k) implies executor_view.resource_at(
            k,
            None,
        ) is Some by {
            resources.lemma_place_of(k);
        }
        assert(slots_readable(executor_view, change_set@));
    }
    let groups = change_set.resource_group_write_set();
    let group_count = groups.len();
    let mut i: usize = 0;
    proof {
        assert(deep(groups@).dom() =~= groups@.dom());
    }
    while i < group_count
        invariant
            i <= group_count,
            group_count == groups.keys().len(),
            groups.consistent(),
            deep(groups@) == change_set@.resource_group_write_set,
            slots_readable(executor_view, change_set@),
        decreases group_count - i,
    {
        let state_key = groups.key_at(i);
        let inner_ops = groups.value_at(i).inner_ops();
        let inner_count = inner_ops.len();
        let mut j: usize = 0;
        proof {
            assert(deep(inner_ops@).dom() =~= inner_ops@.dom());
        }
        while j < inner_count
            invariant
                j <= inner_count,
                inner_count == inner_ops.keys().len(),
                inner_ops.consistent(),
                change_set@.resource_group_write_set.contains_key(state_key@),
                change_set@.resource_group_write_set[state_key@].inner_ops == deep(inner_ops@),
                slots_readable(executor_view, change_set@),
            decreases inner_count - j,
        {
            let tag = inner_ops.key_at(j);
            let write = inner_ops.value_at(j);
            let maybe_layout = write.layout.as_ref();
            match resource_group_view.get_resource_from_group(state_key, tag, maybe_layout) {
                Ok(_) => {},
                Err(_) => {
                    proof {
                        let held = change_set@.resource_group_write_set[state_key@].inner_ops;
                        assert(held.contains_key(tag@));
                        assert(held[tag@].layout == layout_view(write.layout));
                        assert(resource_group_view.group_read_may_fail(
                            state_key@,
                            tag@,
                            held[tag@].layout,
                        ));
                    }
                    return Err(VMStatus::error(StatusCode::STORAGE_ERROR, None));
                },
            }
            j += 1;
        }
        i += 1;
    }
    Ok(())
}

} // verus!
