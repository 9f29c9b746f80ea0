use aptos_vm::aggregator::{delta_add, SignedU128};
use aptos_vm::bcs_codec::serialize;
use aptos_vm::change_set::{GroupRead, GroupWrite, VMChangeSet};
use aptos_vm::delayed_change::{
    DelayedApplyChange, DelayedChange, DelayedFieldID, DelayedFieldValue,
    DelayedFieldsSpeculativeError, PanicError, PanicOr, SnapshotToStringFormula,
};
use aptos_vm::keyed_map::KeyedMap;
use aptos_vm::resolver::{ExecutorView, ResourceGroupView, StateStorageUsage, StateViewId};
use aptos_vm::respawned_session::{
    check_layout_matches, randomly_check_layout_matches, read_change_set,
    unwrap_or_invariant_violation, ExecutorViewWithChangeSet, RespawnedSession,
};
use aptos_vm::transaction::SessionId;
use aptos_vm::types::{
    AccountAddress, ContractEvent, MoveTypeLayout, StateKey, StructTag, TypeTag,
};
use aptos_vm::vm_status::{StatusCode, VMStatus};
use aptos_vm::write_op::{LayoutWrite, StateValue, StateValueMetadata, WriteOp};

/// A base state held in memory.
struct FakeDataStore {
    values: Vec<(Vec<u8>, Vec<u8>)>,
    groups: Vec<(Vec<u8>, Vec<(StructTag, Vec<u8>)>)>,
    delayed: Vec<(u64, DelayedFieldValue)>,
    fail_reads: bool,
    capable: bool,
    view_id: StateViewId,
    fresh_id: u64,
}

impl FakeDataStore {
    fn default() -> Self {
        FakeDataStore {
            values: vec![],
            groups: vec![],
            delayed: vec![],
            fail_reads: false,
            capable: false,
            view_id: StateViewId::Miscellaneous,
            fresh_id: 77,
        }
    }

    fn set_legacy(&mut self, key: StateKey, bytes: Vec<u8>) {
        self.values.push((key.bytes, bytes));
    }

    fn set_group(&mut self, key: StateKey, members: Vec<(StructTag, Vec<u8>)>) {
        self.groups.push((key.bytes, members));
    }

    fn value(&self, key: &StateKey) -> Result<Option<StateValue>, anyhow::Error> {
        if self.fail_reads {
            return Err(anyhow::Error::msg("the store is down"));
        }
        Ok(self
            .values
            .iter()
            .find(|(k, _)| *k == key.bytes)
            .map(|(_, v)| StateValue::new_legacy(v.clone())))
    }
}

impl ExecutorView for FakeDataStore {
    fn get_module_state_value(&self, state_key: &StateKey) -> Result<Option<StateValue>, anyhow::Error> {
        self.value(state_key)
    }

    fn get_resource_state_value(
        &self,
        state_key: &StateKey,
        _maybe_layout: Option<&MoveTypeLayout>,
    ) -> Result<Option<StateValue>, anyhow::Error> {
        self.value(state_key)
    }

    fn get_aggregator_v1_state_value(&self, id: &StateKey) -> Result<Option<StateValue>, anyhow::Error> {
        self.value(id)
    }

    fn is_delayed_field_optimization_capable(&self) -> bool {
        self.capable
    }

    fn get_delayed_field_value(
        &self,
        id: &DelayedFieldID,
    ) -> Result<DelayedFieldValue, PanicOr<DelayedFieldsSpeculativeError>> {
        match self.delayed.iter().find(|(k, _)| *k == id.id) {
            Some((_, value)) => Ok(value.clone()),
            None => Err(PanicOr::Or(DelayedFieldsSpeculativeError::NotFound(*id))),
        }
    }

    fn delayed_field_try_add_delta_outcome(
        &self,
        id: &DelayedFieldID,
        base_delta: &SignedU128,
        delta: &SignedU128,
        max_value: u128,
    ) -> Result<bool, PanicOr<DelayedFieldsSpeculativeError>> {
        let base = match self.get_delayed_field_value(id)? {
            DelayedFieldValue::Aggregator(value) => value as i128,
            _ => return Err(PanicOr::CodeInvariantError),
        };
        let signed = |d: &SignedU128| match d {
            SignedU128::Positive(v) => *v as i128,
            SignedU128::Negative(v) => -(*v as i128),
        };
        let after = base + signed(base_delta) + signed(delta);
        Ok(0 <= after && after <= max_value as i128)
    }

    fn generate_delayed_field_id(&self) -> DelayedFieldID {
        DelayedFieldID::new(self.fresh_id)
    }

    fn validate_and_convert_delayed_field_id(&self, id: u64) -> Result<DelayedFieldID, PanicError> {
        if id < self.fresh_id {
            Ok(DelayedFieldID::new(id))
        } else {
            Err(PanicError {})
        }
    }

    /// Names one read for each delayed field that it is asked about: the
    /// slot named after the field, unless it is to be skipped.
    fn get_reads_needing_exchange(
        &self,
        delayed_write_set_keys: &Vec<DelayedFieldID>,
        skip: &Vec<StateKey>,
    ) -> Result<KeyedMap<StateKey, LayoutWrite>, PanicError> {
        if self.fail_reads {
            return Err(PanicError {});
        }
        let mut reads = KeyedMap::new();
        for id in delayed_write_set_keys {
            let slot = StateKey::raw(vec![id.id as u8]);
            if !skip.contains(&slot) {
                reads.insert(slot, LayoutWrite::new(write(id.id as u128), None));
            }
        }
        Ok(reads)
    }

    /// The same for groups, each of the size of the number of its field.
    fn get_group_reads_needing_exchange(
        &self,
        delayed_write_set_keys: &Vec<DelayedFieldID>,
        skip: &Vec<StateKey>,
    ) -> Result<KeyedMap<StateKey, GroupRead>, PanicError> {
        if self.fail_reads {
            return Err(PanicError {});
        }
        let mut reads = KeyedMap::new();
        for id in delayed_write_set_keys {
            let slot = StateKey::raw(vec![id.id as u8]);
            if !skip.contains(&slot) {
                reads.insert(slot, GroupRead { metadata_op: write(0), group_size: id.id });
            }
        }
        Ok(reads)
    }

    fn id(&self) -> StateViewId {
        self.view_id
    }

    fn get_usage(&self) -> Result<StateStorageUsage, anyhow::Error> {
        Ok(StateStorageUsage { items: 0, bytes: 0 })
    }
}

impl ResourceGroupView for FakeDataStore {
    fn resource_group_size(&self, _group_key: &StateKey) -> Result<u64, anyhow::Error> {
        Ok(1234)
    }

    fn get_resource_from_group(
        &self,
        group_key: &StateKey,
        resource_tag: &StructTag,
        _maybe_layout: Option<&MoveTypeLayout>,
    ) -> Result<Option<Vec<u8>>, anyhow::Error> {
        if self.fail_reads {
            return Err(anyhow::Error::msg("the store is down"));
        }
        Ok(self
            .groups
            .iter()
            .find(|(k, _)| *k == group_key.bytes)
            .and_then(|(_, members)| members.iter().find(|(t, _)| t == resource_tag))
            .map(|(_, bytes)| bytes.clone()))
    }
}

fn key(s: &str) -> StateKey {
    StateKey::raw(s.to_string().into_bytes())
}

fn write(v: u128) -> WriteOp {
    WriteOp::Modification { data: serialize(v), metadata: None }
}

fn deletion() -> WriteOp {
    WriteOp::Deletion { metadata: None }
}

fn creation(v: u128) -> WriteOp {
    WriteOp::Creation {
        data: serialize(v),
        metadata: StateValueMetadata { deposit: 0, creation_time_usecs: 0 },
    }
}

type View<'r> = ExecutorViewWithChangeSet<'r, FakeDataStore, FakeDataStore>;

fn read_resource(view: &View, s: &str) -> u128 {
    bcs::from_bytes(&view.get_resource_bytes(&key(s), None).unwrap().unwrap()).unwrap()
}

fn read_module(view: &View, s: &str) -> u128 {
    bcs::from_bytes(&view.get_module_bytes(&key(s)).unwrap().unwrap()).unwrap()
}

fn read_aggregator(view: &View, s: &str) -> u128 {
    view.get_aggregator_v1_value(&key(s)).unwrap().unwrap()
}

fn read_resource_from_group(view: &View, s: &str, tag: &StructTag) -> u128 {
    bcs::from_bytes(&view.get_resource_from_group(&key(s), tag, None).unwrap().unwrap()).unwrap()
}

fn mock_tag_0() -> StructTag {
    StructTag {
        address: AccountAddress::one(),
        module: "a".to_string(),
        name: "a".to_string(),
        type_params: vec![TypeTag::U8],
    }
}

fn mock_tag_1() -> StructTag {
    StructTag {
        address: AccountAddress::one(),
        module: "abcde".to_string(),
        name: "fgh".to_string(),
        type_params: vec![TypeTag::U64],
    }
}

fn mock_tag_2() -> StructTag {
    StructTag {
        address: AccountAddress::one(),
        module: "abcdex".to_string(),
        name: "fghx".to_string(),
        type_params: vec![TypeTag::U128],
    }
}

fn map_of<V>(entries: Vec<(StateKey, V)>) -> KeyedMap<StateKey, V> {
    let mut map = KeyedMap::new();
    for (k, v) in entries {
        map.insert(k, v);
    }
    map
}

fn resources_only(entries: Vec<(StateKey, WriteOp)>) -> VMChangeSet {
    VMChangeSet::new(
        map_of(entries.into_iter().map(|(k, op)| (k, LayoutWrite::new(op, None))).collect()),
        KeyedMap::new(),
        KeyedMap::new(),
        KeyedMap::new(),
        KeyedMap::new(),
        KeyedMap::new(),
        KeyedMap::new(),
        KeyedMap::new(),
        vec![],
    )
    .unwrap()
}

#[test]
fn test_change_set_state_view() {
    let mut state_view = FakeDataStore::default();
    state_view.set_legacy(key("module_base"), serialize(10));
    state_view.set_legacy(key("module_both"), serialize(20));

    state_view.set_legacy(key("resource_base"), serialize(30));
    state_view.set_legacy(key("resource_both"), serialize(40));

    state_view.set_legacy(key("aggregator_base"), serialize(50));
    state_view.set_legacy(key("aggregator_both"), serialize(60));
    state_view.set_legacy(key("aggregator_delta_set"), serialize(70));

    let tree = vec![(mock_tag_0(), serialize(100)), (mock_tag_1(), serialize(200))];
    state_view.set_group(key("resource_group_base"), tree.clone());
    state_view.set_group(key("resource_group_both"), tree);

    let resource_write_set = map_of(vec![
        (key("resource_both"), LayoutWrite::new(write(80), None)),
        (key("resource_write_set"), LayoutWrite::new(write(90), None)),
    ]);

    let module_write_set =
        map_of(vec![(key("module_both"), write(100)), (key("module_write_set"), write(110))]);

    let aggregator_v1_write_set = map_of(vec![
        (key("aggregator_both"), write(120)),
        (key("aggregator_write_set"), write(130)),
    ]);

    let aggregator_v1_delta_set = map_of(vec![(key("aggregator_delta_set"), delta_add(1, 1000))]);

    let resource_group_write_set = map_of(vec![
        (
            key("resource_group_both"),
            GroupWrite::new(
                deletion(),
                vec![
                    (mock_tag_0(), LayoutWrite::new(write(1000), None)),
                    (mock_tag_2(), LayoutWrite::new(write(300), None)),
                ],
                0,
            ),
        ),
        (
            key("resource_group_write_set"),
            GroupWrite::new(deletion(), vec![(mock_tag_1(), LayoutWrite::new(write(5000), None))], 0),
        ),
    ]);

    let change_set = VMChangeSet::new(
        resource_write_set,
        resource_group_write_set,
        module_write_set,
        aggregator_v1_write_set,
        aggregator_v1_delta_set,
        KeyedMap::new(),
        KeyedMap::new(),
        KeyedMap::new(),
        vec![],
    )
    .unwrap();

    let view = ExecutorViewWithChangeSet::new(&state_view, &state_view, change_set);

    assert_eq!(read_module(&view, "module_base"), 10);
    assert_eq!(read_module(&view, "module_both"), 100);
    assert_eq!(read_module(&view, "module_write_set"), 110);

    assert_eq!(read_resource(&view, "resource_base"), 30);
    assert_eq!(read_resource(&view, "resource_both"), 80);
    assert_eq!(read_resource(&view, "resource_write_set"), 90);

    assert_eq!(read_aggregator(&view, "aggregator_base"), 50);
    assert_eq!(read_aggregator(&view, "aggregator_both"), 120);
    assert_eq!(read_aggregator(&view, "aggregator_write_set"), 130);
    assert_eq!(read_aggregator(&view, "aggregator_delta_set"), 71);

    assert_eq!(read_resource_from_group(&view, "resource_group_base", &mock_tag_0()), 100);
    assert_eq!(read_resource_from_group(&view, "resource_group_base", &mock_tag_1()), 200);
    assert_eq!(read_resource_from_group(&view, "resource_group_both", &mock_tag_0()), 1000);
    assert_eq!(read_resource_from_group(&view, "resource_group_both", &mock_tag_1()), 200);
    assert_eq!(read_resource_from_group(&view, "resource_group_both", &mock_tag_2()), 300);
    assert_eq!(read_resource_from_group(&view, "resource_group_write_set", &mock_tag_1()), 5000);
}

#[test]
fn overlay_reports_deleted_slots_as_absent() {
    let mut state_view = FakeDataStore::default();
    state_view.set_legacy(key("resource"), serialize(1));
    state_view.set_legacy(key("module"), serialize(2));
    let change_set = VMChangeSet::new(
        map_of(vec![(key("resource"), LayoutWrite::new(deletion(), None))]),
        KeyedMap::new(),
        map_of(vec![(key("module"), deletion())]),
        KeyedMap::new(),
        KeyedMap::new(),
        KeyedMap::new(),
        KeyedMap::new(),
        KeyedMap::new(),
        vec![],
    )
    .unwrap();
    let view = ExecutorViewWithChangeSet::new(&state_view, &state_view, change_set);
    assert_eq!(view.get_resource_bytes(&key("resource"), None).unwrap(), None);
    assert_eq!(view.get_module_bytes(&key("module")).unwrap(), None);
    assert_eq!(view.get_module_bytes(&key("nowhere")).unwrap(), None);
}

#[test]
fn overlay_group_size_is_zero_and_usage_is_refused() {
    let state_view = FakeDataStore::default();
    let view = ExecutorViewWithChangeSet::new(&state_view, &state_view, VMChangeSet::empty());
    assert_eq!(view.resource_group_size(&key("any")).unwrap(), 0);
    assert!(view.get_usage().is_err());
    assert_eq!(view.id(), StateViewId::Miscellaneous);
    assert_eq!(view.generate_delayed_field_id(), DelayedFieldID::new(77));
}

#[test]
fn overlay_delta_beyond_the_bound_has_no_value() {
    let mut state_view = FakeDataStore::default();
    state_view.set_legacy(key("aggregator"), serialize(999));
    let change_set = VMChangeSet::new(
        KeyedMap::new(),
        KeyedMap::new(),
        KeyedMap::new(),
        KeyedMap::new(),
        map_of(vec![(key("aggregator"), delta_add(2, 1000)), (key("gone"), delta_add(1, 10))]),
        KeyedMap::new(),
        KeyedMap::new(),
        KeyedMap::new(),
        vec![],
    )
    .unwrap();
    let view = ExecutorViewWithChangeSet::new(&state_view, &state_view, change_set);
    assert!(view.get_aggregator_v1_value(&key("aggregator")).is_err());
    assert!(view.get_aggregator_v1_value(&key("gone")).is_err());
}

fn delayed_changes(entries: Vec<(u64, DelayedChange)>) -> VMChangeSet {
    let mut map = KeyedMap::new();
    for (id, change) in entries {
        map.insert(DelayedFieldID::new(id), change);
    }
    VMChangeSet::new(
        KeyedMap::new(),
        KeyedMap::new(),
        KeyedMap::new(),
        KeyedMap::new(),
        KeyedMap::new(),
        map,
        KeyedMap::new(),
        KeyedMap::new(),
        vec![],
    )
    .unwrap()
}

#[test]
fn overlay_resolves_delayed_fields() {
    let mut state_view = FakeDataStore::default();
    state_view.delayed.push((1, DelayedFieldValue::Aggregator(100)));
    let change_set = delayed_changes(vec![
        (1, DelayedChange::Apply(DelayedApplyChange::AggregatorDelta { delta: delta_add(5, 1000) })),
        (2, DelayedChange::Create(DelayedFieldValue::Aggregator(7))),
        (
            3,
            DelayedChange::Apply(DelayedApplyChange::SnapshotDelta {
                base_aggregator: DelayedFieldID::new(1),
                delta: delta_add(10, 1000),
            }),
        ),
        (
            4,
            DelayedChange::Apply(DelayedApplyChange::SnapshotDerived {
                base_snapshot: DelayedFieldID::new(3),
                formula: SnapshotToStringFormula::Concat {
                    prefix: b"<".to_vec(),
                    suffix: b">".to_vec(),
                },
            }),
        ),
        (
            5,
            DelayedChange::Apply(DelayedApplyChange::SnapshotDelta {
                base_aggregator: DelayedFieldID::new(5),
                delta: delta_add(1, 1000),
            }),
        ),
    ]);
    let view = ExecutorViewWithChangeSet::new(&state_view, &state_view, change_set);
    // The delta builds on the base state's value.
    assert_eq!(
        view.get_delayed_field_value(&DelayedFieldID::new(1)),
        Ok(DelayedFieldValue::Aggregator(105))
    );
    assert_eq!(
        view.get_delayed_field_value(&DelayedFieldID::new(2)),
        Ok(DelayedFieldValue::Aggregator(7))
    );
    // The snapshot builds on the aggregator as the overlay shows it.
    assert_eq!(
        view.get_delayed_field_value(&DelayedFieldID::new(3)),
        Ok(DelayedFieldValue::Snapshot(115))
    );
    assert_eq!(
        view.get_delayed_field_value(&DelayedFieldID::new(4)),
        Ok(DelayedFieldValue::Derived(b"<115>".to_vec()))
    );
    // A field that builds on itself has no value.
    assert_eq!(
        view.get_delayed_field_value(&DelayedFieldID::new(5)),
        Err(PanicOr::CodeInvariantError)
    );
    // A field that the change set does not know is the base state's.
    assert_eq!(
        view.get_delayed_field_value(&DelayedFieldID::new(9)),
        Err(PanicOr::Or(DelayedFieldsSpeculativeError::NotFound(DelayedFieldID::new(9))))
    );
}

#[test]
fn overlay_delayed_fields_in_a_circle_have_no_value() {
    let state_view = FakeDataStore::default();
    let change_set = delayed_changes(vec![
        (
            1,
            DelayedChange::Apply(DelayedApplyChange::SnapshotDelta {
                base_aggregator: DelayedFieldID::new(2),
                delta: delta_add(1, 10),
            }),
        ),
        (
            2,
            DelayedChange::Apply(DelayedApplyChange::SnapshotDelta {
                base_aggregator: DelayedFieldID::new(1),
                delta: delta_add(1, 10),
            }),
        ),
    ]);
    let view = ExecutorViewWithChangeSet::new(&state_view, &state_view, change_set);
    assert_eq!(
        view.get_delayed_field_value(&DelayedFieldID::new(1)),
        Err(PanicOr::CodeInvariantError)
    );
}

#[test]
fn overlay_delta_outcome() {
    let mut state_view = FakeDataStore::default();
    state_view.delayed.push((1, DelayedFieldValue::Aggregator(90)));
    let change_set = delayed_changes(vec![
        (1, DelayedChange::Apply(DelayedApplyChange::AggregatorDelta { delta: delta_add(5, 100) })),
        (2, DelayedChange::Create(DelayedFieldValue::Aggregator(50))),
        (3, DelayedChange::Create(DelayedFieldValue::Snapshot(50))),
        (
            4,
            DelayedChange::Apply(DelayedApplyChange::SnapshotDelta {
                base_aggregator: DelayedFieldID::new(1),
                delta: delta_add(1, 100),
            }),
        ),
    ]);
    let view = ExecutorViewWithChangeSet::new(&state_view, &state_view, change_set);
    let zero = SignedU128::Positive(0);
    // 90 in the base state, 5 in the change set: 5 more fit, 6 more do not.
    assert_eq!(
        view.delayed_field_try_add_delta_outcome(
            &DelayedFieldID::new(1),
            &zero,
            &SignedU128::Positive(5),
            100
        ),
        Ok(true)
    );
    assert_eq!(
        view.delayed_field_try_add_delta_outcome(
            &DelayedFieldID::new(1),
            &zero,
            &SignedU128::Positive(6),
            100
        ),
        Ok(false)
    );
    // Created with 50: 20 were added before, 30 more fit, 31 more do not.
    assert_eq!(
        view.delayed_field_try_add_delta_outcome(
            &DelayedFieldID::new(2),
            &SignedU128::Positive(20),
            &SignedU128::Positive(30),
            100
        ),
        Ok(true)
    );
    assert_eq!(
        view.delayed_field_try_add_delta_outcome(
            &DelayedFieldID::new(2),
            &SignedU128::Positive(20),
            &SignedU128::Positive(31),
            100
        ),
        Ok(false)
    );
    assert_eq!(
        view.delayed_field_try_add_delta_outcome(
            &DelayedFieldID::new(2),
            &SignedU128::Negative(10),
            &SignedU128::Negative(41),
            100
        ),
        Ok(false)
    );
    // What is not an aggregator takes no delta.
    assert_eq!(
        view.delayed_field_try_add_delta_outcome(
            &DelayedFieldID::new(3),
            &zero,
            &SignedU128::Positive(1),
            100
        ),
        Err(PanicOr::CodeInvariantError)
    );
    assert_eq!(
        view.delayed_field_try_add_delta_outcome(
            &DelayedFieldID::new(4),
            &zero,
            &SignedU128::Positive(1),
            100
        ),
        Err(PanicOr::CodeInvariantError)
    );
    // A delta with another bound than the one recorded cannot be merged.
    assert_eq!(
        view.delayed_field_try_add_delta_outcome(
            &DelayedFieldID::new(1),
            &zero,
            &SignedU128::Positive(1),
            1000
        ),
        Err(PanicOr::CodeInvariantError)
    );
}

#[test]
fn layouts_are_checked_when_the_number_is_one() {
    let a = MoveTypeLayout { encoding: vec![1, 2] };
    let b = MoveTypeLayout { encoding: vec![1, 3] };
    assert_eq!(check_layout_matches(Some(&a), Some(&a), 1), Ok(()));
    assert_eq!(check_layout_matches(Some(&a), Some(&b), 1), Err(PanicError {}));
    assert_eq!(check_layout_matches(Some(&a), Some(&b), 0), Ok(()));
    assert_eq!(check_layout_matches(Some(&a), Some(&b), 99), Ok(()));
    assert_eq!(check_layout_matches(Some(&a), None, 50), Err(PanicError {}));
    assert_eq!(check_layout_matches(None, Some(&b), 50), Err(PanicError {}));
    assert_eq!(check_layout_matches(None, None, 1), Ok(()));
}

#[test]
fn random_layout_check_never_fails_equal_layouts() {
    let a = MoveTypeLayout { encoding: vec![1, 2] };
    let b = MoveTypeLayout { encoding: vec![1, 3] };
    let mut failures = 0;
    for _ in 0..2000 {
        assert_eq!(randomly_check_layout_matches(Some(&a), Some(&a)), Ok(()));
        assert_eq!(randomly_check_layout_matches(None, None), Ok(()));
        assert_eq!(randomly_check_layout_matches(Some(&a), None), Err(PanicError {}));
        if randomly_check_layout_matches(Some(&a), Some(&b)).is_err() {
            failures += 1;
        }
    }
    // One draw in a hundred looks at the layouts.
    assert!(failures < 2000);
}

#[test]
fn unwrap_or_invariant_violation_names_the_invariant() {
    assert_eq!(unwrap_or_invariant_violation(Some(3)), Ok(3));
    assert_eq!(
        unwrap_or_invariant_violation::<u8>(None),
        Err(VMStatus::error(StatusCode::UNKNOWN_INVARIANT_VIOLATION_ERROR, None))
    );
}

fn session_id() -> SessionId {
    SessionId::EpilogueMeta { sender: AccountAddress::one(), sequence_number: 4 }
}

#[test]
fn respawned_session_squashes_the_epilogue_onto_the_transaction() {
    let state_view = FakeDataStore::default();
    let previous = resources_only(vec![(key("a"), write(90)), (key("b"), creation(10))]);
    let mut session =
        RespawnedSession::spawn(session_id(), &state_view, &state_view, previous, 17).unwrap();
    assert_eq!(session.get_storage_fee_refund(), 17);
    assert_eq!(session.execute(|id| Ok::<SessionId, VMStatus>(id)), Ok(session_id()));
    assert_eq!(
        session.execute(|_| Err::<u8, VMStatus>(VMStatus::error(StatusCode::ABORTED, None))),
        Err(VMStatus::error(StatusCode::ABORTED, None))
    );
    // The session reads what the transaction wrote.
    assert_eq!(read_resource(session.executor_view(), "a"), 90);
    let additional = resources_only(vec![(key("a"), write(85))]);
    let change_set = session.finish(Ok(additional)).unwrap();
    let a = change_set.resource_write_set().get(&key("a")).unwrap();
    assert_eq!(a.op, write(85));
    let b = change_set.resource_write_set().get(&key("b")).unwrap();
    assert_eq!(b.op, creation(10));
    assert_eq!(change_set.resource_write_set().len(), 2);
}

#[test]
fn respawned_session_refuses_a_creation() {
    let state_view = FakeDataStore::default();
    let session = RespawnedSession::spawn(
        session_id(),
        &state_view,
        &state_view,
        resources_only(vec![(key("a"), write(90))]),
        0,
    )
    .unwrap();
    let additional = resources_only(vec![(key("fresh"), creation(1))]);
    assert_eq!(
        session.finish(Ok(additional)).err(),
        Some(VMStatus::error(StatusCode::UNKNOWN_INVARIANT_VIOLATION_ERROR, None))
    );
}

#[test]
fn respawned_session_refuses_what_cannot_be_squashed() {
    let state_view = FakeDataStore::default();
    let session = RespawnedSession::spawn(
        session_id(),
        &state_view,
        &state_view,
        resources_only(vec![(key("a"), deletion())]),
        0,
    )
    .unwrap();
    // A slot that is gone cannot be modified.
    let additional = resources_only(vec![(key("a"), write(1))]);
    assert_eq!(
        session.finish(Ok(additional)).err(),
        Some(VMStatus::error(StatusCode::UNKNOWN_INVARIANT_VIOLATION_ERROR, None))
    );
}

#[test]
fn respawned_session_hands_on_the_failure_of_its_session() {
    let state_view = FakeDataStore::default();
    let session =
        RespawnedSession::spawn(session_id(), &state_view, &state_view, VMChangeSet::empty(), 0)
            .unwrap();
    let failure = VMStatus::error(StatusCode::STORAGE_ERROR, Some(3));
    assert_eq!(session.finish(Err(failure.clone())).err(), Some(failure));
}

#[test]
fn respawned_session_without_a_session_cannot_run_or_finish() {
    let state_view = FakeDataStore::default();
    let mut session =
        RespawnedSession::spawn(session_id(), &state_view, &state_view, VMChangeSet::empty(), 0)
            .unwrap();
    session.session = None;
    let violation = VMStatus::error(StatusCode::UNKNOWN_INVARIANT_VIOLATION_ERROR, None);
    assert_eq!(session.execute(|_| Ok::<u8, VMStatus>(1)), Err(violation.clone()));
    assert_eq!(session.finish(Ok(VMChangeSet::empty())).err(), Some(violation));
}

#[test]
fn read_change_set_reads_every_written_slot() {
    let mut state_view = FakeDataStore::default();
    let change_set = VMChangeSet::new(
        map_of(vec![(key("resource"), LayoutWrite::new(write(1), None))]),
        map_of(vec![(
            key("group"),
            GroupWrite::new(write(0), vec![(mock_tag_0(), LayoutWrite::new(write(2), None))], 8),
        )]),
        map_of(vec![(key("module"), write(3))]),
        KeyedMap::new(),
        KeyedMap::new(),
        KeyedMap::new(),
        KeyedMap::new(),
        KeyedMap::new(),
        vec![],
    )
    .unwrap();
    assert!(change_set.has_no_aggregator_writes());
    assert_eq!(read_change_set(&state_view, &state_view, &change_set), Ok(()));
    state_view.fail_reads = true;
    assert_eq!(
        read_change_set(&state_view, &state_view, &change_set),
        Err(VMStatus::error(StatusCode::STORAGE_ERROR, None))
    );
    // Nothing to read, nothing to fail.
    assert_eq!(read_change_set(&state_view, &state_view, &VMChangeSet::empty()), Ok(()));
}

#[test]
fn events_are_not_touched_by_the_overlay() {
    let event = ContractEvent {
        key: None,
        sequence_number: 0,
        type_tag: TypeTag::Bool,
        event_data: vec![1],
    };
    let change_set = VMChangeSet::new(
        KeyedMap::new(),
        KeyedMap::new(),
        KeyedMap::new(),
        KeyedMap::new(),
        KeyedMap::new(),
        KeyedMap::new(),
        KeyedMap::new(),
        KeyedMap::new(),
        vec![(event.clone(), None)],
    )
    .unwrap();
    let state_view = FakeDataStore::default();
    let view = ExecutorViewWithChangeSet::new(&state_view, &state_view, change_set);
    assert_eq!(view.change_set.events().len(), 1);
    assert_eq!(view.change_set.events()[0].0, event);
}

#[test]
fn overlay_leaves_to_the_base_state_what_the_change_set_does_not_touch() {
    let mut state_view = FakeDataStore::default();
    state_view.capable = true;
    state_view.view_id = StateViewId::ChunkExecution { first_version: 9 };
    state_view.fresh_id = 41;
    let fields = vec![DelayedFieldID::new(1), DelayedFieldID::new(2), DelayedFieldID::new(3)];
    let skip = vec![StateKey::raw(vec![2])];
    {
        let view = ExecutorViewWithChangeSet::new(&state_view, &state_view, VMChangeSet::empty());
        assert!(view.is_delayed_field_optimization_capable());
        assert_eq!(view.id(), StateViewId::ChunkExecution { first_version: 9 });
        assert_eq!(view.generate_delayed_field_id(), DelayedFieldID::new(41));
        assert_eq!(view.validate_and_convert_delayed_field_id(40), Ok(DelayedFieldID::new(40)));
        assert_eq!(view.validate_and_convert_delayed_field_id(41), Err(PanicError {}));
        let reads = view.get_reads_needing_exchange(&fields, &skip).unwrap();
        assert_eq!(reads.len(), 2);
        assert_eq!(reads.get(&StateKey::raw(vec![1])), Some(&LayoutWrite::new(write(1), None)));
        assert_eq!(reads.get(&StateKey::raw(vec![3])), Some(&LayoutWrite::new(write(3), None)));
        assert!(reads.get(&StateKey::raw(vec![2])).is_none());
        let group_reads = view.get_group_reads_needing_exchange(&fields, &skip).unwrap();
        assert_eq!(group_reads.len(), 2);
        assert_eq!(group_reads.get(&StateKey::raw(vec![3])).unwrap().group_size, 3);
        assert!(view.get_usage().is_err());
    }
    state_view.capable = false;
    state_view.fail_reads = true;
    let view = ExecutorViewWithChangeSet::new(&state_view, &state_view, VMChangeSet::empty());
    assert!(!view.is_delayed_field_optimization_capable());
    assert_eq!(view.get_reads_needing_exchange(&fields, &skip).err(), Some(PanicError {}));
    assert_eq!(view.get_group_reads_needing_exchange(&fields, &skip).err(), Some(PanicError {}));
}

#[test]
fn read_change_set_fails_on_the_first_slot_that_cannot_be_read() {
    let written = |modules: Vec<(StateKey, WriteOp)>, resources: Vec<(StateKey, LayoutWrite)>| {
        VMChangeSet::new(
            map_of(resources),
            KeyedMap::new(),
            map_of(modules),
            KeyedMap::new(),
            KeyedMap::new(),
            KeyedMap::new(),
            KeyedMap::new(),
            KeyedMap::new(),
            vec![],
        )
        .unwrap()
    };
    let storage_error = Err(VMStatus::error(StatusCode::STORAGE_ERROR, None));
    let mut state_view = FakeDataStore::default();
    state_view.fail_reads = true;
    let only_module = written(vec![(key("module"), write(3))], vec![]);
    assert_eq!(read_change_set(&state_view, &state_view, &only_module), storage_error);
    let only_resource = written(vec![], vec![(key("resource"), LayoutWrite::new(write(1), None))]);
    assert_eq!(read_change_set(&state_view, &state_view, &only_resource), storage_error);
    state_view.fail_reads = false;
    assert_eq!(read_change_set(&state_view, &state_view, &only_module), Ok(()));
    assert_eq!(read_change_set(&state_view, &state_view, &only_resource), Ok(()));
}
