//! What the execution core reads the base state through. Whoever runs the
//! core implements these for its storage.

use crate::aggregator::SignedU128;
use crate::change_set::GroupRead;
use crate::delayed_change::{
    DelayedFieldID, DelayedFieldValue, DelayedFieldValueView, DelayedFieldsSpeculativeError,
    PanicError, PanicOr,
};
use crate::keyed_map::KeyedMap;
use crate::types::{HashValue, MoveTypeLayout, StateKey, StructTag, StructTagView};
use crate::write_op::{LayoutWrite, StateValue, StateValueView};
use vstd::prelude::*;

verus! {

/// The error type of the `anyhow` crate, which reads of the state fail with.
#[verifier::external_type_specification]
#[verifier::external_body]
pub struct ExAnyhowError(anyhow::Error);

/// Calls `anyhow::Error::msg` with the given message.
#[verifier::external_body]
pub(crate) fn anyhow_error(message: &str) -> anyhow::Error {
    anyhow::Error::msg(message.to_string())
}

/// What a view of the state is a view of.
#[derive(Clone, Copy, Debug, PartialEq, Eq, Structural)]
pub enum StateViewId {
    /// The state a block is executed on.
    BlockExecution { block_id: HashValue },
    /// The state a chunk is executed on.
    ChunkExecution { first_version: u64 },
    /// The state a transaction is validated on.
    TransactionValidation { base_version: u64 },
    /// The state a transaction is replayed on.
    Replay,
    /// Any other state.
    Miscellaneous,
}

/// How much the state holds.
#[derive(Clone, Copy, Debug, PartialEq, Eq, Structural)]
pub struct StateStorageUsage {
    pub items: u64,
    pub bytes: u64,
}

/// What a read of a slot gives: `None` where the read fails, else what the
/// slot holds, if it holds anything.
pub type SlotRead = Option<Option<StateValueView>>;

/// What a read of a delayed field gives.
pub type DelayedFieldRead = Result<DelayedFieldValueView, PanicOr<DelayedFieldsSpeculativeError>>;

/// The content of a slot as a mathematical value, where there is one.
pub open spec fn state_value_view(value: Option<StateValue>) -> Option<StateValueView> {
    match value {
        Some(value) => Some(value@),
        None => None,
    }
}

/// Whether the outcome of a read is what the state holds.
pub open spec fn slot_read_is(
    outcome: Result<Option<StateValue>, anyhow::Error>,
    held: SlotRead,
) -> bool {
    match outcome {
        Ok(found) => held == Some(state_value_view(found)),
        Err(_) => held is None,
    }
}

/// Whether the outcome of a read of a delayed field is what the state holds.
pub open spec fn delayed_field_read_is(
    outcome: Result<DelayedFieldValue, PanicOr<DelayedFieldsSpeculativeError>>,
    held: DelayedFieldRead,
) -> bool {
    match outcome {
        Ok(found) => held == Ok::<
            DelayedFieldValueView,
            PanicOr<DelayedFieldsSpeculativeError>,
        >(found@),
        Err(error) => held == Err::<
            DelayedFieldValueView,
            PanicOr<DelayedFieldsSpeculativeError>,
        >(error),
    }
}

/// The base state, slot by slot. The state does not change while it is
/// read: what a read gives depends on nothing but what is asked for. The
/// functions that say what the state holds are for contracts alone; a state
/// that is not verified need not define them.
pub trait ExecutorView {
    /// What the state holds as the module under a key.
    open spec fn module_at(&self, state_key: Seq<u8>) -> SlotRead {
        arbitrary()
    }

    /// What the state holds as the resource under a key, read with a layout
    /// or without.
    open spec fn resource_at(&self, state_key: Seq<u8>, layout: Option<Seq<u8>>) -> SlotRead {
        arbitrary()
    }

    /// What the state holds as the aggregator under a key.
    open spec fn aggregator_v1_at(&self, id: Seq<u8>) -> SlotRead {
        arbitrary()
    }

    /// What the state holds as the value of a delayed field.
    open spec fn delayed_field_at(&self, id: u64) -> DelayedFieldRead {
        arbitrary()
    }

    /// Whether, by what the state holds, `delta` can be added to a delayed
    /// field after `base_delta` was, within `0..=max_value`.
    open spec fn delta_outcome_at(
        &self,
        id: u64,
        base_delta: SignedU128,
        delta: SignedU128,
        max_value: u128,
    ) -> Result<bool, PanicOr<DelayedFieldsSpeculativeError>> {
        arbitrary()
    }

    /// Whether the state exchanges delayed fields for identifiers.
    open spec fn delayed_field_optimization_capable(&self) -> bool {
        arbitrary()
    }

    /// What the state is a state of.
    open spec fn view_id(&self) -> StateViewId {
        arbitrary()
    }

    /// Whether the state may hand out `id` as a fresh identifier. Which
    /// identifiers are fresh changes as they are handed out, so this says
    /// what may come, not what comes.
    open spec fn hands_out(&self, id: DelayedFieldID) -> bool {
        true
    }

    /// Whether `outcome` is what the state may say of the number `id`
    /// when asked which identifier it stands for.
    open spec fn converts(&self, id: u64, outcome: Result<DelayedFieldID, PanicError>) -> bool {
        true
    }

    /// Whether `outcome` is what the state may name as the resources read
    /// that hold one of the delayed fields `keys`, but for those to skip.
    open spec fn names_reads_needing_exchange(
        &self,
        keys: Seq<DelayedFieldID>,
        skip: Seq<StateKey>,
        outcome: Result<KeyedMap<StateKey, LayoutWrite>, PanicError>,
    ) -> bool {
        true
    }

    /// Whether `outcome` is what the state may name as the resource groups
    /// read that hold one of the delayed fields `keys`, but for those to
    /// skip.
    open spec fn names_group_reads_needing_exchange(
        &self,
        keys: Seq<DelayedFieldID>,
        skip: Seq<StateKey>,
        outcome: Result<KeyedMap<StateKey, GroupRead>, PanicError>,
    ) -> bool {
        true
    }

    /// The module under `state_key`, if there is one.
    fn get_module_state_value(&self, state_key: &StateKey) -> (result: Result<
        Option<StateValue>,
        anyhow::Error,
    >)
        ensures
            slot_read_is(result, self.module_at(state_key@)),
    ;

    /// The resource under `state_key`, if there is one.
    fn get_resource_state_value(
        &self,
        state_key: &StateKey,
        maybe_layout: Option<&MoveTypeLayout>,
    ) -> (result: Result<Option<StateValue>, anyhow::Error>)
        ensures
            slot_read_is(
                result,
                self.resource_at(
                    state_key@,
                    match maybe_layout {
                        Some(layout) => Some(layout@),
                        None => None,
                    },
                ),
            ),
    ;

    /// The aggregator under `id`, if there is one.
    fn get_aggregator_v1_state_value(&self, id: &StateKey) -> (result: Result<
        Option<StateValue>,
        anyhow::Error,
    >)
        ensures
            slot_read_is(result, self.aggregator_v1_at(id@)),
    ;

    /// Whether delayed fields are exchanged for identifiers.
    fn is_delayed_field_optimization_capable(&self) -> (result: bool)
        ensures
            result == self.delayed_field_optimization_capable(),
    ;

    /// The value of the delayed field `id`.
    fn get_delayed_field_value(&self, id: &DelayedFieldID) -> (result: Result<
        DelayedFieldValue,
        PanicOr<DelayedFieldsSpeculativeError>,
    >)
        ensures
            delayed_field_read_is(result, self.delayed_field_at(id@)),
    ;

    /// Whether `delta` can be added to the field `id` after `base_delta`
    /// was, within `0..=max_value`.
    fn delayed_field_try_add_delta_outcome(
        &self,
        id: &DelayedFieldID,
        base_delta: &SignedU128,
        delta: &SignedU128,
        max_value: u128,
    ) -> (result: Result<bool, PanicOr<DelayedFieldsSpeculativeError>>)
        ensures
            result == self.delta_outcome_at(id@, *base_delta, *delta, max_value),
    ;

    /// A fresh identifier for a delayed field.
    fn generate_delayed_field_id(&self) -> (result: DelayedFieldID)
        ensures
            self.hands_out(result),
    ;

    /// The identifier that `id` stands for, if it stands for one.
    fn validate_and_convert_delayed_field_id(&self, id: u64) -> (result: Result<
        DelayedFieldID,
        PanicError,
    >)
        ensures
            self.converts(id, result),
    ;

    /// The resources read that hold one of the given delayed fields, but
    /// for those to skip.
    fn get_reads_needing_exchange(
        &self,
        delayed_write_set_keys: &Vec<DelayedFieldID>,
        skip: &Vec<StateKey>,
    ) -> (result: Result<KeyedMap<StateKey, LayoutWrite>, PanicError>)
        ensures
            self.names_reads_needing_exchange(delayed_write_set_keys@, skip@, result),
    ;

    /// The resource groups read that hold one of the given delayed fields,
    /// but for those to skip.
    fn get_group_reads_needing_exchange(
        &self,
        delayed_write_set_keys: &Vec<DelayedFieldID>,
        skip: &Vec<StateKey>,
    ) -> (result: Result<KeyedMap<StateKey, GroupRead>, PanicError>)
        ensures
            self.names_group_reads_needing_exchange(delayed_write_set_keys@, skip@, result),
    ;

    /// What the view is a view of.
    fn id(&self) -> (result: StateViewId)
        ensures
            result == self.view_id(),
    ;

    /// How much the state holds.
    fn get_usage(&self) -> Result<StateStorageUsage, anyhow::Error>;
}

/// The resource groups of the base state.
pub trait ResourceGroupView {
    /// The bytes that the state holds as a member of a group, if the group
    /// has that member.
    open spec fn group_member_at(
        &self,
        group_key: Seq<u8>,
        resource_tag: StructTagView,
        layout: Option<Seq<u8>>,
    ) -> Option<Seq<u8>> {
        arbitrary()
    }

    /// Whether the read of a member of a group may fail.
    open spec fn group_read_may_fail(
        &self,
        group_key: Seq<u8>,
        resource_tag: StructTagView,
        layout: Option<Seq<u8>>,
    ) -> bool {
        true
    }

    /// The size of the group under `group_key`.
    fn resource_group_size(&self, group_key: &StateKey) -> Result<u64, anyhow::Error>;

    /// The bytes of the member `resource_tag` of the group under
    /// `group_key`, if the group has that member. A read fails only where it
    /// may; one that succeeds gives what the state holds.
    fn get_resource_from_group(
        &self,
        group_key: &StateKey,
        resource_tag: &StructTag,
        maybe_layout: Option<&MoveTypeLayout>,
    ) -> (result: Result<Option<Vec<u8>>, anyhow::Error>)
        ensures
            match result {
                Ok(Some(bytes)) => self.group_member_at(
                    group_key@,
                    resource_tag@,
                    match maybe_layout {
                        Some(layout) => Some(layout@),
                        None => None,
                    },
                ) == Some(bytes@),
                Ok(None) => self.group_member_at(
                    group_key@,
                    resource_tag@,
                    match maybe_layout {
                        Some(layout) => Some(layout@),
                        None => None,
                    },
                ) is None,
                Err(_) => self.group_read_may_fail(
                    group_key@,
                    resource_tag@,
                    match maybe_layout {
                        Some(layout) => Some(layout@),
                        None => None,
                    },
                ),
            },
    ;
}

} // verus!
