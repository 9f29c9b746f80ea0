//! The change set: what a finished session wants written, by kind of slot,
//! and the events it emitted.

use crate::aggregator::DeltaWithMax;
use crate::delayed_change::{DelayedChange, DelayedChangeView, DelayedFieldID};
use crate::keyed_map::{KeyedMap, MapKey};
use crate::squash::{
    deep, lemma_cancel_free_maps_combine, lemma_squash_maps_associative, maps_cancel_free,
    override_keyed_maps, squash_conflict, squash_keyed_maps, squash_maps, Squash,
};
use crate::types::{ContractEvent, MoveTypeLayout, StateKey, StructTag, StructTagView};
use crate::write_op::{
    squash_write_ops, write_with_delta, LayoutWrite, LayoutWriteView, WriteOp, WriteOpView,
};
use vstd::prelude::*;

verus! {

/// The writes to one resource group: the write to the group's own slot and
/// the writes to its members, by tag.
pub struct GroupWrite {
    pub metadata_op: WriteOp,
    pub inner_ops: KeyedMap<StructTag, LayoutWrite>,
    pub maybe_group_op_size: Option<u64>,
}

/// The writes to one resource group as a mathematical value.
pub struct GroupWriteView {
    pub metadata_op: WriteOpView,
    pub inner_ops: Map<StructTagView, LayoutWriteView>,
    pub maybe_group_op_size: Option<u64>,
}

impl View for GroupWrite {
    type V = GroupWriteView;

    open spec fn view(&self) -> GroupWriteView {
        GroupWriteView {
            metadata_op: self.metadata_op@,
            inner_ops: deep(self.inner_ops@),
            maybe_group_op_size: self.maybe_group_op_size,
        }
    }
}

/// The map that holds the first `n` of `entries`, a later entry replacing an
/// earlier one with the same key.
pub open spec fn inner_ops_of(entries: Seq<(StructTag, LayoutWrite)>, n: int) -> Map<
    StructTagView,
    LayoutWriteView,
>
    decreases n,
{
    if n <= 0 || n > entries.len() {
        Map::empty()
    } else {
        inner_ops_of(entries, n - 1).insert(entries[n - 1].0@, entries[n - 1].1@)
    }
}

impl GroupWrite {
    /// The writes to a group. The size of the group is kept unless the group
    /// itself is deleted.
    pub fn new(metadata_op: WriteOp, inner_ops: Vec<(StructTag, LayoutWrite)>, group_size: u64) -> (result:
        GroupWrite)
        ensures
            result@.metadata_op == metadata_op@,
            result@.inner_ops == inner_ops_of(inner_ops@, inner_ops@.len() as int),
            result@.maybe_group_op_size == if metadata_op@ is Deletion {
                None
            } else {
                Some(group_size)
            },
    {
        let maybe_group_op_size = if metadata_op.is_deletion() {
            None
        } else {
            Some(group_size)
        };
        let ghost all = inner_ops@;
        let mut map: KeyedMap<StructTag, LayoutWrite> = KeyedMap::new();
        proof {
            assert(deep(map@) =~= inner_ops_of(all, 0));
        }
        for entry in it: inner_ops.into_iter()
            invariant
                it.seq() == all,
                deep(map@) == inner_ops_of(all, it.index() as int),
        {
            let ghost before = deep(map@);
            let (tag, write) = entry;
            let ghost tag_view = tag@;
            let ghost write_view = write@;
            map.insert(tag, write);
            proof {
                assert(deep(map@) =~= before.insert(tag_view, write_view));
            }
        }
        GroupWrite { metadata_op, inner_ops: map, maybe_group_op_size }
    }

    pub fn metadata_op(&self) -> (result: &WriteOp)
        ensures
            *result == self.metadata_op,
    {
        &self.metadata_op
    }

    pub fn inner_ops(&self) -> (result: &KeyedMap<StructTag, LayoutWrite>)
        ensures
            *result == self.inner_ops,
    {
        &self.inner_ops
    }

    pub fn maybe_group_op_size(&self) -> (result: Option<u64>)
        ensures
            result == self.maybe_group_op_size,
    {
        self.maybe_group_op_size
    }
}

/// The one group write that stands for `earlier` followed by `later`. The
/// writes to the group's slot combine as writes do; where they cancel each
/// other the group is gone. Else the writes to the members combine tag by
/// tag, and the size is that of the later write.
pub open spec fn squash_group_writes(earlier: GroupWriteView, later: GroupWriteView) -> Option<
    Option<GroupWriteView>,
> {
    match squash_write_ops(earlier.metadata_op, later.metadata_op) {
        None => None,
        Some(None) => Some(None),
        Some(Some(metadata_op)) => if squash_conflict::<StructTagView, LayoutWrite>(
            earlier.inner_ops,
            later.inner_ops,
        ) {
            None
        } else {
            Some(
                Some(
                    GroupWriteView {
                        metadata_op,
                        inner_ops: squash_maps::<StructTagView, LayoutWrite>(
                            earlier.inner_ops,
                            later.inner_ops,
                        ),
                        maybe_group_op_size: later.maybe_group_op_size,
                    },
                ),
            )
        },
    }
}

impl Squash for GroupWrite {
    open spec fn squash_spec(earlier: GroupWriteView, later: GroupWriteView) -> Option<
        Option<GroupWriteView>,
    > {
        squash_group_writes(earlier, later)
    }

    open spec fn cancel_free(earlier: GroupWriteView, later: GroupWriteView) -> bool {
        &&& squash_write_ops(earlier.metadata_op, later.metadata_op) matches Some(Some(_))
        &&& maps_cancel_free::<StructTagView, LayoutWrite>(earlier.inner_ops, later.inner_ops)
    }

    proof fn lemma_cancel_free_combines(earlier: GroupWriteView, later: GroupWriteView) {
        lemma_cancel_free_maps_combine::<StructTagView, LayoutWrite>(
            earlier.inner_ops,
            later.inner_ops,
        );
    }

    proof fn lemma_squash_associative(
        first: GroupWriteView,
        second: GroupWriteView,
        third: GroupWriteView,
    ) {
        lemma_cancel_free_maps_combine::<StructTagView, LayoutWrite>(
            first.inner_ops,
            second.inner_ops,
        );
        lemma_cancel_free_maps_combine::<StructTagView, LayoutWrite>(
            second.inner_ops,
            third.inner_ops,
        );
        let first_second = squash_group_writes(first, second).unwrap().unwrap();
        let second_third = squash_group_writes(second, third).unwrap().unwrap();
        if squash_group_writes(first_second, third) is Some && squash_group_writes(
            first,
            second_third,
        ) is Some {
            WriteOp::lemma_squash_associative(
                first.metadata_op,
                second.metadata_op,
                third.metadata_op,
            );
            if squash_write_ops(first_second.metadata_op, third.metadata_op) matches Some(Some(_)) {
                lemma_squash_maps_associative::<StructTagView, LayoutWrite>(
                    first.inner_ops,
                    second.inner_ops,
                    third.inner_ops,
                );
            }
        }
    }

    fn squash(self, later: Self) -> (result: Option<Option<Self>>) {
        match self.metadata_op.squash(later.metadata_op) {
            None => None,
            Some(None) => Some(None),
            Some(Some(metadata_op)) => match squash_keyed_maps(self.inner_ops, later.inner_ops) {
                Err(_) => None,
                Ok(inner_ops) => Some(
                    Some(
                        GroupWrite {
                            metadata_op,
                            inner_ops,
                            maybe_group_op_size: later.maybe_group_op_size,
                        },
                    ),
                ),
            },
        }
    }
}

/// A read that has to be written back once delayed fields are exchanged:
/// the group's write and the size of the group.
pub struct GroupRead {
    pub metadata_op: WriteOp,
    pub group_size: u64,
}

impl View for GroupRead {
    type V = (WriteOpView, u64);

    open spec fn view(&self) -> (WriteOpView, u64) {
        (self.metadata_op@, self.group_size)
    }
}

/// What a finished session wants written, and the events it emitted. No key
/// is written both as a resource and as a resource group.
pub struct VMChangeSet {
    resource_write_set: KeyedMap<StateKey, LayoutWrite>,
    resource_group_write_set: KeyedMap<StateKey, GroupWrite>,
    module_write_set: KeyedMap<StateKey, WriteOp>,
    aggregator_v1_write_set: KeyedMap<StateKey, WriteOp>,
    aggregator_v1_delta_set: KeyedMap<StateKey, DeltaWithMax>,
    delayed_field_change_set: KeyedMap<DelayedFieldID, DelayedChange>,
    reads_needing_delayed_field_exchange: KeyedMap<StateKey, LayoutWrite>,
    group_reads_needing_delayed_field_exchange: KeyedMap<StateKey, GroupRead>,
    events: Vec<(ContractEvent, Option<MoveTypeLayout>)>,
}

/// A change set as a mathematical value.
pub struct ChangeSetView {
    pub resource_write_set: Map<Seq<u8>, LayoutWriteView>,
    pub resource_group_write_set: Map<Seq<u8>, GroupWriteView>,
    pub module_write_set: Map<Seq<u8>, WriteOpView>,
    pub aggregator_v1_write_set: Map<Seq<u8>, WriteOpView>,
    pub aggregator_v1_delta_set: Map<Seq<u8>, DeltaWithMax>,
    pub delayed_field_change_set: Map<u64, DelayedChangeView>,
    pub reads_needing_delayed_field_exchange: Map<Seq<u8>, LayoutWriteView>,
    pub group_reads_needing_delayed_field_exchange: Map<Seq<u8>, (WriteOpView, u64)>,
    pub events: Seq<(ContractEvent, Option<MoveTypeLayout>)>,
}

impl View for VMChangeSet {
    type V = ChangeSetView;

    closed spec fn view(&self) -> ChangeSetView {
        ChangeSetView {
            resource_write_set: deep(self.resource_write_set@),
            resource_group_write_set: deep(self.resource_group_write_set@),
            module_write_set: deep(self.module_write_set@),
            aggregator_v1_write_set: deep(self.aggregator_v1_write_set@),
            aggregator_v1_delta_set: deep(self.aggregator_v1_delta_set@),
            delayed_field_change_set: deep(self.delayed_field_change_set@),
            reads_needing_delayed_field_exchange: deep(self.reads_needing_delayed_field_exchange@),
            group_reads_needing_delayed_field_exchange: deep(
                self.group_reads_needing_delayed_field_exchange@,
            ),
            events: self.events@,
        }
    }
}

/// The change set that holds nothing.
pub open spec fn empty_change_set() -> ChangeSetView {
    ChangeSetView {
        resource_write_set: Map::empty(),
        resource_group_write_set: Map::empty(),
        module_write_set: Map::empty(),
        aggregator_v1_write_set: Map::empty(),
        aggregator_v1_delta_set: Map::empty(),
        delayed_field_change_set: Map::empty(),
        reads_needing_delayed_field_exchange: Map::empty(),
        group_reads_needing_delayed_field_exchange: Map::empty(),
        events: Seq::empty(),
    }
}

/// Whether a group write creates a slot: the group's own, or a member's.
pub open spec fn group_has_creation(group: GroupWriteView) -> bool {
    group.metadata_op is Creation || exists|tag: StructTagView|
        group.inner_ops.contains_key(tag) && (#[trigger] group.inner_ops[tag]).op is Creation
}

/// Whether any write of the change set creates a slot.
pub open spec fn has_creation(change_set: ChangeSetView) -> bool {
    ||| exists|k: Seq<u8>|
        change_set.resource_write_set.contains_key(k) && (
        #[trigger] change_set.resource_write_set[k]).op is Creation
    ||| exists|k: Seq<u8>|
        change_set.module_write_set.contains_key(k) && (
        #[trigger] change_set.module_write_set[k]) is Creation
    ||| exists|k: Seq<u8>|
        change_set.aggregator_v1_write_set.contains_key(k) && (
        #[trigger] change_set.aggregator_v1_write_set[k]) is Creation
    ||| exists|k: Seq<u8>|
        change_set.resource_group_write_set.contains_key(k) && group_has_creation(
            #[trigger] change_set.resource_group_write_set[k],
        )
}

/// Whether the change set writes no aggregator.
pub open spec fn no_aggregator_writes(change_set: ChangeSetView) -> bool {
    forall|k: Seq<u8>| !change_set.aggregator_v1_write_set.contains_key(k)
}

/// Whether no key is written both as a resource and as a resource group.
pub open spec fn resources_and_groups_apart(change_set: ChangeSetView) -> bool {
    forall|k: Seq<u8>|
        !(change_set.resource_write_set.contains_key(k)
            && #[trigger] change_set.resource_group_write_set.contains_key(k))
}

/// Whether some delta cannot be added to the write that stands before it.
pub open spec fn delta_fails(
    writes: Map<Seq<u8>, WriteOpView>,
    deltas: Map<Seq<u8>, DeltaWithMax>,
) -> bool {
    exists|k: Seq<u8>|
        writes.contains_key(k) && #[trigger] deltas.contains_key(k) && write_with_delta(
            writes[k],
            deltas[k],
        ) is None
}

/// The writes to aggregators, each with the delta added that follows it,
/// if one does.
pub open spec fn writes_with_deltas(
    writes: Map<Seq<u8>, WriteOpView>,
    deltas: Map<Seq<u8>, DeltaWithMax>,
) -> Map<Seq<u8>, WriteOpView> {
    Map::new(
        |k: Seq<u8>| writes.contains_key(k),
        |k: Seq<u8>|
            if deltas.contains_key(k) {
                write_with_delta(writes[k], deltas[k]).unwrap()
            } else {
                writes[k]
            },
    )
}

/// Whether `later` cannot follow `earlier`: some slot holds writes that
/// cannot follow each other, a delta cannot be added to the value that
/// `earlier` writes to an aggregator, or the two together write one key both
/// as a resource and as a group.
pub open spec fn squash_fails(earlier: ChangeSetView, later: ChangeSetView) -> bool {
    ||| squash_conflict::<Seq<u8>, LayoutWrite>(earlier.resource_write_set, later.resource_write_set)
    ||| squash_conflict::<Seq<u8>, GroupWrite>(
        earlier.resource_group_write_set,
        later.resource_group_write_set,
    )
    ||| squash_conflict::<Seq<u8>, WriteOp>(earlier.module_write_set, later.module_write_set)
    ||| delta_fails(earlier.aggregator_v1_write_set, later.aggregator_v1_delta_set)
    ||| squash_conflict::<Seq<u8>, WriteOp>(
        writes_with_deltas(earlier.aggregator_v1_write_set, later.aggregator_v1_delta_set),
        later.aggregator_v1_write_set,
    )
    ||| squash_conflict::<Seq<u8>, DeltaWithMax>(
        earlier.aggregator_v1_delta_set.remove_keys(later.aggregator_v1_write_set.dom()),
        later.aggregator_v1_delta_set.remove_keys(earlier.aggregator_v1_write_set.dom()),
    )
    ||| squash_conflict::<u64, DelayedChange>(
        earlier.delayed_field_change_set,
        later.delayed_field_change_set,
    )
    ||| !resources_and_groups_apart(squashed_unchecked(earlier, later))
}

/// The entries of `earlier` and of `later`; under a key of both, that of
/// `later`.
pub open spec fn overridden<K, V>(earlier: Map<K, V>, later: Map<K, V>) -> Map<K, V> {
    earlier.union_prefer_right(later)
}

/// The change set that stands for `earlier` followed by `later`, before it
/// is asked whether the two can follow each other. Writes combine slot by
/// slot; a later delta to an aggregator is added to the value that an
/// earlier write leaves there; a later write to an aggregator drops an
/// earlier delta to it; other deltas, and delayed changes, merge; of the
/// reads to write back the later one stands; the events of the later set
/// follow those of the earlier.
pub open spec fn squashed_unchecked(earlier: ChangeSetView, later: ChangeSetView) -> ChangeSetView {
    ChangeSetView {
        resource_write_set: squash_maps::<Seq<u8>, LayoutWrite>(
            earlier.resource_write_set,
            later.resource_write_set,
        ),
        resource_group_write_set: squash_maps::<Seq<u8>, GroupWrite>(
            earlier.resource_group_write_set,
            later.resource_group_write_set,
        ),
        module_write_set: squash_maps::<Seq<u8>, WriteOp>(
            earlier.module_write_set,
            later.module_write_set,
        ),
        aggregator_v1_write_set: squash_maps::<Seq<u8>, WriteOp>(
            writes_with_deltas(earlier.aggregator_v1_write_set, later.aggregator_v1_delta_set),
            later.aggregator_v1_write_set,
        ),
        aggregator_v1_delta_set: squash_maps::<Seq<u8>, DeltaWithMax>(
            earlier.aggregator_v1_delta_set.remove_keys(later.aggregator_v1_write_set.dom()),
            later.aggregator_v1_delta_set.remove_keys(earlier.aggregator_v1_write_set.dom()),
        ),
        delayed_field_change_set: squash_maps::<u64, DelayedChange>(
            earlier.delayed_field_change_set,
            later.delayed_field_change_set,
        ),
        reads_needing_delayed_field_exchange: overridden(
            earlier.reads_needing_delayed_field_exchange,
            later.reads_needing_delayed_field_exchange,
        ),
        group_reads_needing_delayed_field_exchange: overridden(
            earlier.group_reads_needing_delayed_field_exchange,
            later.group_reads_needing_delayed_field_exchange,
        ),
        events: earlier.events + later.events,
    }
}

/// The change set that stands for `earlier` followed by `later`, where
/// there is one.
pub open spec fn squash(earlier: ChangeSetView, later: ChangeSetView) -> Option<ChangeSetView> {
    if squash_fails(earlier, later) {
        None
    } else {
        Some(squashed_unchecked(earlier, later))
    }
}

/// Whether a map of writes holds a creation.
fn writes_have_creation(map: &KeyedMap<StateKey, WriteOp>) -> (result: bool)
    ensures
        result == exists|k: Seq<u8>|
            deep(map@).contains_key(k) && (#[trigger] deep(map@)[k]) is Creation,
{
    let n = map.len();
    let mut i: usize = 0;
    while i < n
        invariant
            i <= n,
            n == map.keys().len(),
            map.consistent(),
            forall|j: int| 0 <= j < i ==> !(deep(map@)[#[trigger] map.keys()[j]] is Creation),
        decreases n - i,
    {
        if map.value_at(i).is_creation() {
            proof {
                let k = map.keys()[i as int];
                assert(deep(map@).contains_key(k) && deep(map@)[k] is Creation);
            }
            return true;
        }
        i += 1;
    }
    proof {
        assert forall|k: Seq<u8>| deep(map@).contains_key(k) implies !((
        #[trigger] deep(map@)[k]) is Creation) by {
            map.lemma_place_of(k);
            let j = map.keys().index_of(k);
            assert(map.keys()[j] == k);
        }
    }
    false
}

/// Whether a map of writes with layouts holds a creation.
fn layout_writes_have_creation<K: MapKey>(map: &KeyedMap<K, LayoutWrite>) -> (result:
    bool)
    ensures
        result == exists|k: K::V|
            deep(map@).contains_key(k) && (#[trigger] deep(map@)[k]).op is Creation,
{
    let n = map.len();
    let mut i: usize = 0;
    while i < n
        invariant
            i <= n,
            n == map.keys().len(),
            map.consistent(),
            forall|j: int| 0 <= j < i ==> !(deep(map@)[#[trigger] map.keys()[j]].op is Creation),
        decreases n - i,
    {
        if map.value_at(i).op.is_creation() {
            proof {
                let k = map.keys()[i as int];
                assert(deep(map@).contains_key(k) && deep(map@)[k].op is Creation);
            }
            return true;
        }
        i += 1;
    }
    proof {
        assert forall|k: K::V| deep(map@).contains_key(k) implies !((
        #[trigger] deep(map@)[k]).op is Creation) by {
            map.lemma_place_of(k);
            let j = map.keys().index_of(k);
            assert(map.keys()[j] == k);
        }
    }
    false
}

/// Whether a map of group writes holds a creation.
fn groups_have_creation(map: &KeyedMap<StateKey, GroupWrite>) -> (result: bool)
    ensures
        result == exists|k: Seq<u8>|
            deep(map@).contains_key(k) && group_has_creation(#[trigger] deep(map@)[k]),
{
    let n = map.len();
    let mut i: usize = 0;
    while i < n
        invariant
            i <= n,
            n == map.keys().len(),
            map.consistent(),
            forall|j: int| 0 <= j < i ==> !group_has_creation(deep(map@)[#[trigger] map.keys()[j]]),
        decreases n - i,
    {
        let group = map.value_at(i);
        if group.metadata_op.is_creation() || layout_writes_have_creation(&group.inner_ops) {
            proof {
                let k = map.keys()[i as int];
                assert(deep(map@).contains_key(k) && group_has_creation(deep(map@)[k]));
            }
            return true;
        }
        i += 1;
    }
    proof {
        assert forall|k: Seq<u8>| deep(map@).contains_key(k) implies !group_has_creation(
            #[trigger] deep(map@)[k],
        ) by {
            map.lemma_place_of(k);
            let j = map.keys().index_of(k);
            assert(map.keys()[j] == k);
        }
    }
    false
}

/// Whether no key of `resources` is a key of `groups`.
fn keys_apart(
    resources: &KeyedMap<StateKey, LayoutWrite>,
    groups: &KeyedMap<StateKey, GroupWrite>,
) -> (result: bool)
    ensures
        result == forall|k: Seq<u8>|
            !(deep(resources@).contains_key(k) && #[trigger] deep(groups@).contains_key(k)),
{
    let n = resources.len();
    let mut i: usize = 0;
    while i < n
        invariant
            i <= n,
            n == resources.keys().len(),
            resources.consistent(),
            forall|j: int| 0 <= j < i ==> !deep(groups@).contains_key(
                #[trigger] resources.keys()[j],
            ),
        decreases n - i,
    {
        if groups.contains_key(resources.key_at(i)) {
            proof {
                let k = resources.keys()[i as int];
                assert(deep(resources@).contains_key(k) && deep(groups@).contains_key(k));
            }
            return false;
        }
        i += 1;
    }
    proof {
        assert forall|k: Seq<u8>|
            !(deep(resources@).contains_key(k) && #[trigger] deep(groups@).contains_key(k)) by {
            if deep(resources@).contains_key(k) {
                resources.lemma_place_of(k);
                let j = resources.keys().index_of(k);
                assert(resources.keys()[j] == k);
            }
        }
    }
    true
}

/// Adds each delta to the write that stands before it. `Err` says that
/// one cannot be added.
fn add_deltas(writes: KeyedMap<StateKey, WriteOp>, deltas: &KeyedMap<StateKey, DeltaWithMax>) -> (result:
    Result<KeyedMap<StateKey, WriteOp>, ()>)
    ensures
        match result {
            Ok(raised) => !delta_fails(deep(writes@), deep(deltas@)) && deep(raised@)
                == writes_with_deltas(deep(writes@), deep(deltas@)),
            Err(_) => delta_fails(deep(writes@), deep(deltas@)),
        },
{
    let ghost base = deep(writes@);
    let ghost added = deep(deltas@);
    let mut current = writes;
    let n = deltas.len();
    let mut i: usize = 0;
    proof {
        assert(deltas.keys().subrange(0, 0).to_set() =~= Set::<Seq<u8>>::empty());
        assert(writes_with_deltas(base, added.restrict(Set::<Seq<u8>>::empty())) =~= base);
    }
    while i < n
        invariant
            i <= n,
            n == deltas.keys().len(),
            deltas.consistent(),
            base == deep(writes@),
            added == deep(deltas@),
            deep(current@) == writes_with_deltas(
                base,
                added.restrict(deltas.keys().subrange(0, i as int).to_set()),
            ),
            !delta_fails(base, added.restrict(deltas.keys().subrange(0, i as int).to_set())),
        decreases n - i,
    {
        let ghost before = deep(current@);
        let ghost seen = deltas.keys().subrange(0, i as int).to_set();
        let ghost seen_next = deltas.keys().subrange(0, i as int + 1).to_set();
        let key = deltas.key_at(i);
        let delta = deltas.value_at(i);
        proof {
            let head = deltas.keys().subrange(0, i as int);
            let head_next = deltas.keys().subrange(0, i as int + 1);
            assert(head_next =~= head.push(key@));
            assert(seen_next =~= seen.insert(key@)) by {
                assert forall|k: Seq<u8>| seen_next.contains(k) <==> seen.insert(key@).contains(
                    k,
                ) by {
                    if head_next.contains(k) {
                        let j = choose|j: int| 0 <= j < head_next.len() && head_next[j] == k;
                        if j < i {
                            assert(head[j] == k);
                        }
                    }
                    if head.contains(k) {
                        let j = choose|j: int| 0 <= j < head.len() && head[j] == k;
                        assert(head_next[j] == k);
                    }
                    if k == key@ {
                        assert(head_next[i as int] == k);
                    }
                }
            }
            assert(!seen.contains(key@)) by {
                if head.contains(key@) {
                    let j = choose|j: int| 0 <= j < head.len() && head[j] == key@;
                    assert(deltas.keys()[j] == key@);
                }
            }
            assert(added.contains_key(key@) && added[key@] == *delta);
            assert(added.restrict(seen_next) =~= added.restrict(seen).insert(key@, *delta));
        }
        let ghost shallow = current@;
        proof {
            assert(before.dom() =~= base.dom());
            assert(before.contains_key(key@) == shallow.contains_key(key@));
            assert(!added.restrict(seen).contains_key(key@));
        }
        match current.remove_entry(key) {
            None => {
                proof {
                    assert(!base.contains_key(key@));
                    assert(deep(current@) =~= before);
                    assert(before =~= writes_with_deltas(base, added.restrict(seen_next)));
                }
            },
            Some((held, op)) => {
                let ghost op_view = op@;
                proof {
                    assert(before.contains_key(key@));
                    assert(before[key@] == shallow[key@]@);
                    assert(base.contains_key(key@) && base[key@] == op_view);
                }
                match op.with_delta(delta) {
                    Some(raised) => {
                        let ghost raised_view = raised@;
                        current.insert(held, raised);
                        proof {
                            assert(deep(current@) =~= before.insert(key@, raised_view));
                            assert(before.insert(key@, raised_view) =~= writes_with_deltas(
                                base,
                                added.restrict(seen_next),
                            ));
                        }
                    },
                    None => {
                        return Err(());
                    },
                }
            },
        }
        proof {
            assert forall|k: Seq<u8>|
                base.contains_key(k) && #[trigger] added.restrict(seen_next).contains_key(
                    k,
                ) implies write_with_delta(base[k], added.restrict(seen_next)[k]) is Some by {
                if k != key@ {
                    assert(added.restrict(seen).contains_key(k));
                }
            }
        }
        i += 1;
    }
    proof {
        assert(deltas.keys().subrange(0, n as int) =~= deltas.keys());
        assert(deltas.keys().to_set() =~= added.dom());
        assert(added.restrict(added.dom()) =~= added);
    }
    Ok(current)
}

/// Drops from `deltas` every key that `writes` holds.
fn drop_written(
    deltas: KeyedMap<StateKey, DeltaWithMax>,
    writes: &KeyedMap<StateKey, WriteOp>,
) -> (result: KeyedMap<StateKey, DeltaWithMax>)
    ensures
        deep(result@) == deep(deltas@).remove_keys(deep(writes@).dom()),
{
    let mut current = deltas;
    let n = writes.len();
    let mut i: usize = 0;
    proof {
        assert(writes.keys().subrange(0, 0).to_set() =~= Set::<Seq<u8>>::empty());
        assert(deep(deltas@).remove_keys(Set::<Seq<u8>>::empty()) =~= deep(deltas@));
    }
    while i < n
        invariant
            i <= n,
            n == writes.keys().len(),
            writes.consistent(),
            deep(current@) == deep(deltas@).remove_keys(
                writes.keys().subrange(0, i as int).to_set(),
            ),
        decreases n - i,
    {
        let ghost before = deep(current@);
        let key = writes.key_at(i);
        current.remove(key);
        proof {
            let head = writes.keys().subrange(0, i as int);
            let head_next = writes.keys().subrange(0, i as int + 1);
            assert(head_next =~= head.push(key@));
            assert(head_next.to_set() =~= head.to_set().insert(key@)) by {
                assert forall|k: Seq<u8>| head_next.to_set().contains(k) <==> head.to_set().insert(
                    key@,
                ).contains(k) by {
                    if head_next.contains(k) {
                        let j = choose|j: int| 0 <= j < head_next.len() && head_next[j] == k;
                        if j < i {
                            assert(head[j] == k);
                        }
                    }
                    if head.contains(k) {
                        let j = choose|j: int| 0 <= j < head.len() && head[j] == k;
                        assert(head_next[j] == k);
                    }
                    if k == key@ {
                        assert(head_next[i as int] == k);
                    }
                }
            }
            assert(deep(current@) =~= before.remove(key@));
            assert(deep(current@) =~= deep(deltas@).remove_keys(head_next.to_set()));
        }
        i += 1;
    }
    proof {
        assert(writes.keys().subrange(0, n as int) =~= writes.keys());
        assert(writes.keys().to_set() =~= deep(writes@).dom());
    }
    current
}

impl VMChangeSet {
    #[verifier::type_invariant]
    spec fn apart(&self) -> bool {
        resources_and_groups_apart(self@)
    }

    /// The change set that holds nothing.
    pub fn empty() -> (result: VMChangeSet)
        ensures
            result@ == empty_change_set(),
    {
        let result = VMChangeSet {
            resource_write_set: KeyedMap::new(),
            resource_group_write_set: KeyedMap::new(),
            module_write_set: KeyedMap::new(),
            aggregator_v1_write_set: KeyedMap::new(),
            aggregator_v1_delta_set: KeyedMap::new(),
            delayed_field_change_set: KeyedMap::new(),
            reads_needing_delayed_field_exchange: KeyedMap::new(),
            group_reads_needing_delayed_field_exchange: KeyedMap::new(),
            events: Vec::new(),
        };
        proof {
            let view = result@;
            assert(view.resource_write_set =~= Map::empty());
            assert(view.resource_group_write_set =~= Map::empty());
            assert(view.module_write_set =~= Map::empty());
            assert(view.aggregator_v1_write_set =~= Map::empty());
            assert(view.aggregator_v1_delta_set =~= Map::empty());
            assert(view.delayed_field_change_set =~= Map::empty());
            assert(view.reads_needing_delayed_field_exchange =~= Map::empty());
            assert(view.group_reads_needing_delayed_field_exchange =~= Map::empty());
        }
        result
    }

    /// A change set of the given parts; none where a key is written both as
    /// a resource and as a resource group.
    pub fn new(
        resource_write_set: KeyedMap<StateKey, LayoutWrite>,
        resource_group_write_set: KeyedMap<StateKey, GroupWrite>,
        module_write_set: KeyedMap<StateKey, WriteOp>,
        aggregator_v1_write_set: KeyedMap<StateKey, WriteOp>,
        aggregator_v1_delta_set: KeyedMap<StateKey, DeltaWithMax>,
        delayed_field_change_set: KeyedMap<DelayedFieldID, DelayedChange>,
        reads_needing_delayed_field_exchange: KeyedMap<StateKey, LayoutWrite>,
        group_reads_needing_delayed_field_exchange: KeyedMap<StateKey, GroupRead>,
        events: Vec<(ContractEvent, Option<MoveTypeLayout>)>,
    ) -> (result: Option<VMChangeSet>)
        ensures
            ({
                let view = ChangeSetView {
                    resource_write_set: deep(resource_write_set@),
                    resource_group_write_set: deep(resource_group_write_set@),
                    module_write_set: deep(module_write_set@),
                    aggregator_v1_write_set: deep(aggregator_v1_write_set@),
                    aggregator_v1_delta_set: deep(aggregator_v1_delta_set@),
                    delayed_field_change_set: deep(delayed_field_change_set@),
                    reads_needing_delayed_field_exchange: deep(
                        reads_needing_delayed_field_exchange@,
                    ),
                    group_reads_needing_delayed_field_exchange: deep(
                        group_reads_needing_delayed_field_exchange@,
                    ),
                    events: events@,
                };
                match result {
                    Some(change_set) => resources_and_groups_apart(view) && change_set@ == view,
                    None => !resources_and_groups_apart(view),
                }
            }),
    {
        if !keys_apart(&resource_write_set, &resource_group_write_set) {
            proof {
                let k = choose|k: Seq<u8>|
                    deep(resource_write_set@).contains_key(k) && #[trigger] deep(
                        resource_group_write_set@,
                    ).contains_key(k);
                let view = ChangeSetView {
                    resource_write_set: deep(resource_write_set@),
                    resource_group_write_set: deep(resource_group_write_set@),
                    module_write_set: deep(module_write_set@),
                    aggregator_v1_write_set: deep(aggregator_v1_write_set@),
                    aggregator_v1_delta_set: deep(aggregator_v1_delta_set@),
                    delayed_field_change_set: deep(delayed_field_change_set@),
                    reads_needing_delayed_field_exchange: deep(
                        reads_needing_delayed_field_exchange@,
                    ),
                    group_reads_needing_delayed_field_exchange: deep(
                        group_reads_needing_delayed_field_exchange@,
                    ),
                    events: events@,
                };
                assert(view.resource_write_set.contains_key(k));
                assert(view.resource_group_write_set.contains_key(k));
                assert(!resources_and_groups_apart(view));
            }
            return None;
        }
        Some(
            VMChangeSet {
                resource_write_set,
                resource_group_write_set,
                module_write_set,
                aggregator_v1_write_set,
                aggregator_v1_delta_set,
                delayed_field_change_set,
                reads_needing_delayed_field_exchange,
                group_reads_needing_delayed_field_exchange,
                events,
            },
        )
    }

    pub fn resource_write_set(&self) -> (result: &KeyedMap<StateKey, LayoutWrite>)
        ensures
            deep(result@) == self@.resource_write_set,
            resources_and_groups_apart(self@),
    {
        proof {
            use_type_invariant(self);
        }
        &self.resource_write_set
    }

    pub fn resource_group_write_set(&self) -> (result: &KeyedMap<StateKey, GroupWrite>)
        ensures
            deep(result@) == self@.resource_group_write_set,
    {
        &self.resource_group_write_set
    }

    pub fn module_write_set(&self) -> (result: &KeyedMap<StateKey, WriteOp>)
        ensures
            deep(result@) == self@.module_write_set,
    {
        &self.module_write_set
    }

    pub fn aggregator_v1_write_set(&self) -> (result: &KeyedMap<StateKey, WriteOp>)
        ensures
            deep(result@) == self@.aggregator_v1_write_set,
    {
        &self.aggregator_v1_write_set
    }

    pub fn aggregator_v1_delta_set(&self) -> (result: &KeyedMap<StateKey, DeltaWithMax>)
        ensures
            deep(result@) == self@.aggregator_v1_delta_set,
    {
        &self.aggregator_v1_delta_set
    }

    pub fn delayed_field_change_set(&self) -> (result: &KeyedMap<DelayedFieldID, DelayedChange>)
        ensures
            deep(result@) == self@.delayed_field_change_set,
    {
        &self.delayed_field_change_set
    }

    pub fn reads_needing_delayed_field_exchange(&self) -> (result: &KeyedMap<StateKey, LayoutWrite>)
        ensures
            deep(result@) == self@.reads_needing_delayed_field_exchange,
    {
        &self.reads_needing_delayed_field_exchange
    }

    pub fn group_reads_needing_delayed_field_exchange(&self) -> (result: &KeyedMap<
        StateKey,
        GroupRead,
    >)
        ensures
            deep(result@) == self@.group_reads_needing_delayed_field_exchange,
    {
        &self.group_reads_needing_delayed_field_exchange
    }

    pub fn events(&self) -> (result: &Vec<(ContractEvent, Option<MoveTypeLayout>)>)
        ensures
            result@ == self@.events,
    {
        &self.events
    }

    /// Whether the change set writes no aggregator.
    pub fn has_no_aggregator_writes(&self) -> (result: bool)
        ensures
            result == no_aggregator_writes(self@),
    {
        let result = self.aggregator_v1_write_set.is_empty();
        proof {
            if result {
                assert(self@.aggregator_v1_write_set =~= Map::empty());
            } else {
                assert(self.aggregator_v1_write_set.keys().len() > 0);
                let k = self.aggregator_v1_write_set.keys()[0];
                self.aggregator_v1_write_set.lemma_first_key();
                assert(self@.aggregator_v1_write_set.contains_key(k));
            }
        }
        result
    }

    /// Whether any write of the change set creates a slot.
    pub fn has_creation(&self) -> (result: bool)
        ensures
            result == has_creation(self@),
    {
        let in_resources = layout_writes_have_creation(&self.resource_write_set);
        let in_modules = writes_have_creation(&self.module_write_set);
        let in_aggregators = writes_have_creation(&self.aggregator_v1_write_set);
        let in_groups = groups_have_creation(&self.resource_group_write_set);
        proof {
            let view = self@;
            assert(view.resource_write_set == deep(self.resource_write_set@));
            assert(view.module_write_set == deep(self.module_write_set@));
            assert(view.aggregator_v1_write_set == deep(self.aggregator_v1_write_set@));
            assert(view.resource_group_write_set == deep(self.resource_group_write_set@));
        }
        in_resources || in_modules || in_aggregators || in_groups
    }

    /// The change set that stands for this one followed by `additional`;
    /// `Err` where the second cannot follow the first.
    pub fn squash_additional_change_set(self, additional: VMChangeSet) -> (result: Result<
        VMChangeSet,
        (),
    >)
        ensures
            match result {
                Ok(change_set) => squash(self@, additional@) == Some(change_set@),
                Err(_) => squash(self@, additional@) is None,
            },
    {
        let ghost earlier = self@;
        let ghost later = additional@;
        let raised_writes = match add_deltas(
            self.aggregator_v1_write_set,
            &additional.aggregator_v1_delta_set,
        ) {
            Ok(map) => map,
            Err(_) => {
                return Err(());
            },
        };
        proof {
            assert(deep(raised_writes@).dom() =~= earlier.aggregator_v1_write_set.dom());
        }
        let later_deltas = drop_written(additional.aggregator_v1_delta_set, &raised_writes);
        let kept_deltas = drop_written(
            self.aggregator_v1_delta_set,
            &additional.aggregator_v1_write_set,
        );
        let resource_write_set = match squash_keyed_maps(
            self.resource_write_set,
            additional.resource_write_set,
        ) {
            Ok(map) => map,
            Err(_) => {
                return Err(());
            },
        };
        let resource_group_write_set = match squash_keyed_maps(
            self.resource_group_write_set,
            additional.resource_group_write_set,
        ) {
            Ok(map) => map,
            Err(_) => {
                return Err(());
            },
        };
        let module_write_set = match squash_keyed_maps(
            self.module_write_set,
            additional.module_write_set,
        ) {
            Ok(map) => map,
            Err(_) => {
                return Err(());
            },
        };
        let aggregator_v1_write_set = match squash_keyed_maps(
            raised_writes,
            additional.aggregator_v1_write_set,
        ) {
            Ok(map) => map,
            Err(_) => {
                return Err(());
            },
        };
        let aggregator_v1_delta_set = match squash_keyed_maps(kept_deltas, later_deltas) {
            Ok(map) => map,
            Err(_) => {
                return Err(());
            },
        };
        let delayed_field_change_set = match squash_keyed_maps(
            self.delayed_field_change_set,
            additional.delayed_field_change_set,
        ) {
            Ok(map) => map,
            Err(_) => {
                return Err(());
            },
        };
        let reads_needing_delayed_field_exchange = override_keyed_maps(
            self.reads_needing_delayed_field_exchange,
            additional.reads_needing_delayed_field_exchange,
        );
        let group_reads_needing_delayed_field_exchange = override_keyed_maps(
            self.group_reads_needing_delayed_field_exchange,
            additional.group_reads_needing_delayed_field_exchange,
        );
        let mut events = self.events;
        let mut later_events = additional.events;
        events.append(&mut later_events);
        let ghost merged = ChangeSetView {
            resource_write_set: deep(resource_write_set@),
            resource_group_write_set: deep(resource_group_write_set@),
            module_write_set: deep(module_write_set@),
            aggregator_v1_write_set: deep(aggregator_v1_write_set@),
            aggregator_v1_delta_set: deep(aggregator_v1_delta_set@),
            delayed_field_change_set: deep(delayed_field_change_set@),
            reads_needing_delayed_field_exchange: deep(reads_needing_delayed_field_exchange@),
            group_reads_needing_delayed_field_exchange: deep(
                group_reads_needing_delayed_field_exchange@,
            ),
            events: events@,
        };
        proof {
            assert(merged == squashed_unchecked(earlier, later));
        }
        if !keys_apart(&resource_write_set, &resource_group_write_set) {
            proof {
                let k = choose|k: Seq<u8>|
                    deep(resource_write_set@).contains_key(k) && #[trigger] deep(
                        resource_group_write_set@,
                    ).contains_key(k);
                assert(merged.resource_group_write_set.contains_key(k));
                assert(!resources_and_groups_apart(merged));
            }
            return Err(());
        }
        proof {
            assert(resources_and_groups_apart(merged));
            assert(!squash_fails(earlier, later));
        }
        Ok(
            VMChangeSet {
                resource_write_set,
                resource_group_write_set,
                module_write_set,
                aggregator_v1_write_set,
                aggregator_v1_delta_set,
                delayed_field_change_set,
                reads_needing_delayed_field_exchange,
                group_reads_needing_delayed_field_exchange,
                events,
            },
        )
    }
}

} // verus!
