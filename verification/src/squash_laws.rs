//! What holds of squashing change sets.

use crate::aggregator::{bounded_add_delta, merged_delta, DeltaWithMax};
use crate::bcs_codec::{aggregator_value, lemma_value_of_encoding};
use crate::change_set::{
    delta_fails, empty_change_set, resources_and_groups_apart, squash, squashed_unchecked,
    writes_with_deltas, ChangeSetView, GroupWrite,
};
use crate::delayed_change::{DelayedChange, DelayedChangeView};
use crate::squash::{
    lemma_cancel_free_maps_combine, lemma_squash_maps_associative, maps_cancel_free,
    squash_conflict, squash_maps, Squash,
};
use crate::write_op::{
    squash_write_ops, write_op_bytes, write_with_delta, LayoutWrite, WriteOp, WriteOpView,
};
use vstd::prelude::*;

verus! {

/// Squashing a map with the empty map gives the map.
pub proof fn lemma_squash_maps_with_empty<K, V: Squash>(map: Map<K, V::V>)
    ensures
        squash_maps::<K, V>(map, Map::empty()) == map,
        squash_maps::<K, V>(Map::empty(), map) == map,
        !squash_conflict::<K, V>(map, Map::empty()),
        !squash_conflict::<K, V>(Map::empty(), map),
{
    assert(squash_maps::<K, V>(map, Map::empty()) =~= map);
    assert(squash_maps::<K, V>(Map::empty(), map) =~= map);
}

/// Squashing the empty change set onto a change set gives that change set.
pub proof fn law_squash_right_identity(change_set: ChangeSetView)
    requires
        resources_and_groups_apart(change_set),
    ensures
        squash(change_set, empty_change_set()) == Some(change_set),
{
    let empty = empty_change_set();
    lemma_squash_maps_with_empty::<Seq<u8>, LayoutWrite>(change_set.resource_write_set);
    lemma_squash_maps_with_empty::<Seq<u8>, GroupWrite>(change_set.resource_group_write_set);
    lemma_squash_maps_with_empty::<Seq<u8>, WriteOp>(change_set.module_write_set);
    lemma_squash_maps_with_empty::<Seq<u8>, WriteOp>(change_set.aggregator_v1_write_set);
    lemma_squash_maps_with_empty::<Seq<u8>, DeltaWithMax>(change_set.aggregator_v1_delta_set);
    lemma_squash_maps_with_empty::<u64, DelayedChange>(change_set.delayed_field_change_set);
    assert(change_set.aggregator_v1_delta_set.remove_keys(empty.aggregator_v1_write_set.dom())
        =~= change_set.aggregator_v1_delta_set);
    assert(empty.aggregator_v1_delta_set.remove_keys(change_set.aggregator_v1_write_set.dom())
        =~= Map::<Seq<u8>, DeltaWithMax>::empty());
    assert(writes_with_deltas(change_set.aggregator_v1_write_set, empty.aggregator_v1_delta_set)
        =~= change_set.aggregator_v1_write_set);
    assert(change_set.reads_needing_delayed_field_exchange.union_prefer_right(
        empty.reads_needing_delayed_field_exchange,
    ) =~= change_set.reads_needing_delayed_field_exchange);
    assert(change_set.group_reads_needing_delayed_field_exchange.union_prefer_right(
        empty.group_reads_needing_delayed_field_exchange,
    ) =~= change_set.group_reads_needing_delayed_field_exchange);
    assert(change_set.events + empty.events =~= change_set.events);
    assert(squashed_unchecked(change_set, empty) == change_set);
}

/// Squashing a change set onto the empty change set gives that change set.
pub proof fn law_squash_left_identity(change_set: ChangeSetView)
    requires
        resources_and_groups_apart(change_set),
    ensures
        squash(empty_change_set(), change_set) == Some(change_set),
{
    let empty = empty_change_set();
    lemma_squash_maps_with_empty::<Seq<u8>, LayoutWrite>(change_set.resource_write_set);
    lemma_squash_maps_with_empty::<Seq<u8>, GroupWrite>(change_set.resource_group_write_set);
    lemma_squash_maps_with_empty::<Seq<u8>, WriteOp>(change_set.module_write_set);
    lemma_squash_maps_with_empty::<Seq<u8>, WriteOp>(change_set.aggregator_v1_write_set);
    lemma_squash_maps_with_empty::<Seq<u8>, DeltaWithMax>(change_set.aggregator_v1_delta_set);
    lemma_squash_maps_with_empty::<u64, DelayedChange>(change_set.delayed_field_change_set);
    assert(empty.aggregator_v1_delta_set.remove_keys(change_set.aggregator_v1_write_set.dom())
        =~= Map::<Seq<u8>, DeltaWithMax>::empty());
    assert(change_set.aggregator_v1_delta_set.remove_keys(empty.aggregator_v1_write_set.dom())
        =~= change_set.aggregator_v1_delta_set);
    assert(writes_with_deltas(empty.aggregator_v1_write_set, change_set.aggregator_v1_delta_set)
        =~= Map::<Seq<u8>, WriteOpView>::empty());
    assert(empty.reads_needing_delayed_field_exchange.union_prefer_right(
        change_set.reads_needing_delayed_field_exchange,
    ) =~= change_set.reads_needing_delayed_field_exchange);
    assert(empty.group_reads_needing_delayed_field_exchange.union_prefer_right(
        change_set.group_reads_needing_delayed_field_exchange,
    ) =~= change_set.group_reads_needing_delayed_field_exchange);
    assert(empty.events + change_set.events =~= change_set.events);
    assert(squashed_unchecked(empty, change_set) == change_set);
}

/// Whether no write of `later` cancels a write of `earlier`: no slot that
/// one creates is deleted by the other, neither a plain slot nor a resource
/// group nor a member of one.
pub open spec fn free_of_cancelling(earlier: ChangeSetView, later: ChangeSetView) -> bool {
    &&& maps_cancel_free::<Seq<u8>, LayoutWrite>(
        earlier.resource_write_set,
        later.resource_write_set,
    )
    &&& maps_cancel_free::<Seq<u8>, GroupWrite>(
        earlier.resource_group_write_set,
        later.resource_group_write_set,
    )
    &&& maps_cancel_free::<Seq<u8>, WriteOp>(earlier.module_write_set, later.module_write_set)
    &&& maps_cancel_free::<Seq<u8>, WriteOp>(
        earlier.aggregator_v1_write_set,
        later.aggregator_v1_write_set,
    )
}

/// Maps without conflict whose values never cancel are free of cancelling.
proof fn lemma_deltas_cancel_free(
    earlier: Map<Seq<u8>, DeltaWithMax>,
    later: Map<Seq<u8>, DeltaWithMax>,
)
    requires
        !squash_conflict::<Seq<u8>, DeltaWithMax>(earlier, later),
    ensures
        maps_cancel_free::<Seq<u8>, DeltaWithMax>(earlier, later),
{
    assert forall|k: Seq<u8>| earlier.contains_key(k) && later.contains_key(k) implies <
        DeltaWithMax as Squash
    >::cancel_free(#[trigger] earlier[k], later[k]) by {
        assert(<DeltaWithMax as Squash>::squash_spec(earlier[k], later[k]) is Some);
    }
}

/// Maps without conflict whose values never cancel are free of cancelling.
proof fn lemma_changes_cancel_free(
    earlier: Map<u64, DelayedChangeView>,
    later: Map<u64, DelayedChangeView>,
)
    requires
        !squash_conflict::<u64, DelayedChange>(earlier, later),
    ensures
        maps_cancel_free::<u64, DelayedChange>(earlier, later),
{
    assert forall|k: u64| earlier.contains_key(k) && later.contains_key(k) implies <
        DelayedChange as Squash
    >::cancel_free(#[trigger] earlier[k], later[k]) by {
        assert(<DelayedChange as Squash>::squash_spec(earlier[k], later[k]) is Some);
    }
}

/// The writes to aggregators that `earlier` followed by `later` leaves.
spec fn squashed_writes(earlier: ChangeSetView, later: ChangeSetView) -> Map<
    Seq<u8>,
    WriteOpView,
> {
    squash_maps::<Seq<u8>, WriteOp>(
        writes_with_deltas(earlier.aggregator_v1_write_set, later.aggregator_v1_delta_set),
        later.aggregator_v1_write_set,
    )
}

/// The deltas to aggregators that `earlier` followed by `later` leaves.
spec fn squashed_deltas(earlier: ChangeSetView, later: ChangeSetView) -> Map<
    Seq<u8>,
    DeltaWithMax,
> {
    squash_maps::<Seq<u8>, DeltaWithMax>(
        earlier.aggregator_v1_delta_set.remove_keys(later.aggregator_v1_write_set.dom()),
        later.aggregator_v1_delta_set.remove_keys(earlier.aggregator_v1_write_set.dom()),
    )
}

/// Whether the writes and deltas to aggregators of `later` can follow those
/// of `earlier`.
spec fn aggregators_combine(earlier: ChangeSetView, later: ChangeSetView) -> bool {
    &&& !delta_fails(earlier.aggregator_v1_write_set, later.aggregator_v1_delta_set)
    &&& !squash_conflict::<Seq<u8>, WriteOp>(
        writes_with_deltas(earlier.aggregator_v1_write_set, later.aggregator_v1_delta_set),
        later.aggregator_v1_write_set,
    )
    &&& !squash_conflict::<Seq<u8>, DeltaWithMax>(
        earlier.aggregator_v1_delta_set.remove_keys(later.aggregator_v1_write_set.dom()),
        later.aggregator_v1_delta_set.remove_keys(earlier.aggregator_v1_write_set.dom()),
    )
}

/// Two deltas added one after the other to the value that a write leaves
/// give what the one delta gives that stands for both.
pub proof fn lemma_deltas_add_up(op: WriteOpView, first: DeltaWithMax, second: DeltaWithMax)
    requires
        write_with_delta(op, first) is Some,
        write_with_delta(write_with_delta(op, first).unwrap(), second) is Some,
        merged_delta(first, second) is Some,
    ensures
        write_with_delta(op, merged_delta(first, second).unwrap()) == write_with_delta(
            write_with_delta(op, first).unwrap(),
            second,
        ),
{
    let data = write_op_bytes(op).unwrap();
    let value = aggregator_value(data).unwrap();
    let raised = bounded_add_delta(first.max_value, value, first.update).unwrap();
    lemma_value_of_encoding(raised);
}

/// What a write combines to with a later write does not depend on the
/// value that it writes.
pub proof fn lemma_later_write_hides_delta(op: WriteOpView, delta: DeltaWithMax, later: WriteOpView)
    requires
        write_with_delta(op, delta) is Some,
    ensures
        squash_write_ops(write_with_delta(op, delta).unwrap(), later) == squash_write_ops(
            op,
            later,
        ),
{
}

/// A delta added to two writes combined is the first write combined with
/// the second with the delta added.
pub proof fn lemma_delta_reaches_later_write(
    earlier: WriteOpView,
    later: WriteOpView,
    delta: DeltaWithMax,
)
    requires
        squash_write_ops(earlier, later) matches Some(Some(_)),
    ensures
        match write_with_delta(later, delta) {
            Some(raised) => squash_write_ops(earlier, raised) matches Some(Some(both))
                && write_with_delta(squash_write_ops(earlier, later).unwrap().unwrap(), delta)
                == Some(both),
            None => write_with_delta(
                squash_write_ops(earlier, later).unwrap().unwrap(),
                delta,
            ) is None,
        },
{
}

/// Writes with deltas added cancel a later write no more than they did
/// without.
proof fn lemma_raised_writes_cancel_free(
    writes: Map<Seq<u8>, WriteOpView>,
    deltas: Map<Seq<u8>, DeltaWithMax>,
    later: Map<Seq<u8>, WriteOpView>,
)
    requires
        !delta_fails(writes, deltas),
        maps_cancel_free::<Seq<u8>, WriteOp>(writes, later),
    ensures
        maps_cancel_free::<Seq<u8>, WriteOp>(writes_with_deltas(writes, deltas), later),
        !squash_conflict::<Seq<u8>, WriteOp>(writes_with_deltas(writes, deltas), later),
        squash_maps::<Seq<u8>, WriteOp>(writes_with_deltas(writes, deltas), later).dom()
            == writes.dom().union(later.dom()),
{
    let raised = writes_with_deltas(writes, deltas);
    assert forall|k: Seq<u8>| raised.contains_key(k) && later.contains_key(k) implies <
        WriteOp as Squash
    >::cancel_free(#[trigger] raised[k], later[k]) by {
        assert(<WriteOp as Squash>::cancel_free(writes[k], later[k]));
        if deltas.contains_key(k) {
            lemma_later_write_hides_delta(writes[k], deltas[k], later[k]);
        }
    }
    lemma_cancel_free_maps_combine::<Seq<u8>, WriteOp>(raised, later);
    assert(raised.dom() =~= writes.dom());
}

/// Of three change sets of which neighbours are free of cancelling, the
/// deltas to aggregators that are left do not depend on which two are
/// squashed first.
proof fn lemma_squashed_deltas_associative(
    first: ChangeSetView,
    second: ChangeSetView,
    third: ChangeSetView,
    first_second: ChangeSetView,
    second_third: ChangeSetView,
)
    requires
        aggregators_combine(first, second),
        aggregators_combine(second, third),
        first_second.aggregator_v1_write_set == squashed_writes(first, second),
        first_second.aggregator_v1_delta_set == squashed_deltas(first, second),
        second_third.aggregator_v1_write_set == squashed_writes(second, third),
        second_third.aggregator_v1_delta_set == squashed_deltas(second, third),
        aggregators_combine(first_second, third),
        aggregators_combine(first, second_third),
        maps_cancel_free::<Seq<u8>, WriteOp>(
            first.aggregator_v1_write_set,
            second.aggregator_v1_write_set,
        ),
        maps_cancel_free::<Seq<u8>, WriteOp>(
            second.aggregator_v1_write_set,
            third.aggregator_v1_write_set,
        ),
    ensures
        squashed_deltas(first_second, third) == squashed_deltas(first, second_third),
{
    let first_writes = first.aggregator_v1_write_set.dom();
    let second_writes = second.aggregator_v1_write_set.dom();
    let third_writes = third.aggregator_v1_write_set.dom();
    lemma_raised_writes_cancel_free(
        first.aggregator_v1_write_set,
        second.aggregator_v1_delta_set,
        second.aggregator_v1_write_set,
    );
    lemma_raised_writes_cancel_free(
        second.aggregator_v1_write_set,
        third.aggregator_v1_delta_set,
        third.aggregator_v1_write_set,
    );
    let kept_first = first.aggregator_v1_delta_set.remove_keys(second_writes.union(third_writes));
    let kept_second = second.aggregator_v1_delta_set.remove_keys(first_writes.union(third_writes));
    let kept_third = third.aggregator_v1_delta_set.remove_keys(first_writes.union(second_writes));
    let early_first = first.aggregator_v1_delta_set.remove_keys(second_writes);
    let early_second = second.aggregator_v1_delta_set.remove_keys(first_writes);
    let late_second = second.aggregator_v1_delta_set.remove_keys(third_writes);
    let late_third = third.aggregator_v1_delta_set.remove_keys(second_writes);
    assert(first_second.aggregator_v1_delta_set.remove_keys(third_writes) =~= squash_maps::<
        Seq<u8>,
        DeltaWithMax,
    >(kept_first, kept_second));
    assert(third.aggregator_v1_delta_set.remove_keys(first_second.aggregator_v1_write_set.dom())
        =~= kept_third);
    assert(first.aggregator_v1_delta_set.remove_keys(second_third.aggregator_v1_write_set.dom())
        =~= kept_first);
    assert(second_third.aggregator_v1_delta_set.remove_keys(first_writes) =~= squash_maps::<
        Seq<u8>,
        DeltaWithMax,
    >(kept_second, kept_third));
    assert(!squash_conflict::<Seq<u8>, DeltaWithMax>(kept_first, kept_second)) by {
        if squash_conflict::<Seq<u8>, DeltaWithMax>(kept_first, kept_second) {
            let k = choose|k: Seq<u8>|
                kept_first.contains_key(k) && kept_second.contains_key(k) && <
                    DeltaWithMax as Squash
                >::squash_spec(#[trigger] kept_first[k], kept_second[k]) is None;
            assert(early_first.contains_key(k) && early_second.contains_key(k));
            assert(<DeltaWithMax as Squash>::squash_spec(early_first[k], early_second[k]) is None);
        }
    }
    assert(!squash_conflict::<Seq<u8>, DeltaWithMax>(kept_second, kept_third)) by {
        if squash_conflict::<Seq<u8>, DeltaWithMax>(kept_second, kept_third) {
            let k = choose|k: Seq<u8>|
                kept_second.contains_key(k) && kept_third.contains_key(k) && <
                    DeltaWithMax as Squash
                >::squash_spec(#[trigger] kept_second[k], kept_third[k]) is None;
            assert(late_second.contains_key(k) && late_third.contains_key(k));
            assert(<DeltaWithMax as Squash>::squash_spec(late_second[k], late_third[k]) is None);
        }
    }
    lemma_deltas_cancel_free(kept_first, kept_second);
    lemma_deltas_cancel_free(kept_second, kept_third);
    lemma_squash_maps_associative::<Seq<u8>, DeltaWithMax>(kept_first, kept_second, kept_third);
}

/// Of three change sets of which neighbours are free of cancelling, the
/// writes to aggregators that are left do not depend on which two are
/// squashed first.
proof fn lemma_squashed_writes_associative(
    first: ChangeSetView,
    second: ChangeSetView,
    third: ChangeSetView,
    first_second: ChangeSetView,
    second_third: ChangeSetView,
)
    requires
        aggregators_combine(first, second),
        aggregators_combine(second, third),
        first_second.aggregator_v1_write_set == squashed_writes(first, second),
        first_second.aggregator_v1_delta_set == squashed_deltas(first, second),
        second_third.aggregator_v1_write_set == squashed_writes(second, third),
        second_third.aggregator_v1_delta_set == squashed_deltas(second, third),
        aggregators_combine(first_second, third),
        aggregators_combine(first, second_third),
        maps_cancel_free::<Seq<u8>, WriteOp>(
            first.aggregator_v1_write_set,
            second.aggregator_v1_write_set,
        ),
        maps_cancel_free::<Seq<u8>, WriteOp>(
            second.aggregator_v1_write_set,
            third.aggregator_v1_write_set,
        ),
    ensures
        squashed_writes(first_second, third) == squashed_writes(first, second_third),
{
    let aw = first.aggregator_v1_write_set;
    let bw = second.aggregator_v1_write_set;
    let cw = third.aggregator_v1_write_set;
    let bd = second.aggregator_v1_delta_set;
    let cd = third.aggregator_v1_delta_set;
    let abw = first_second.aggregator_v1_write_set;
    let bcw = second_third.aggregator_v1_write_set;
    let bcd = second_third.aggregator_v1_delta_set;
    let left = squashed_writes(first_second, third);
    let right = squashed_writes(first, second_third);
    lemma_raised_writes_cancel_free(aw, bd, bw);
    lemma_raised_writes_cancel_free(bw, cd, cw);
    assert forall|k: Seq<u8>|
        #![trigger left.dom().contains(k)]
        #![trigger right.dom().contains(k)]
        #![trigger left[k]]
        #![trigger right[k]]
        left.dom().contains(k) == right.dom().contains(k) && (left.dom().contains(k) ==> left[k]
            == right[k]) by {
        let raised_first = writes_with_deltas(aw, bd);
        let raised_second = writes_with_deltas(bw, cd);
        let raised_left = writes_with_deltas(abw, cd);
        let raised_right = writes_with_deltas(aw, bcd);
        let early_second = bd.remove_keys(cw.dom());
        let late_third = cd.remove_keys(bw.dom());
        assert(abw.contains_key(k) == (aw.contains_key(k) || bw.contains_key(k)));
        assert(bcw.contains_key(k) == (bw.contains_key(k) || cw.contains_key(k)));
        assert(bcd.contains_key(k) == (early_second.contains_key(k) || late_third.contains_key(k)));
        if aw.contains_key(k) {
            let a = aw[k];
            assert(raised_first.contains_key(k));
            if bd.contains_key(k) {
                assert(write_with_delta(a, bd[k]) is Some);
            }
            if bcd.contains_key(k) {
                assert(write_with_delta(a, bcd[k]) is Some);
            }
            if bw.contains_key(k) {
                let b = bw[k];
                assert(<WriteOp as Squash>::cancel_free(a, b));
                if bd.contains_key(k) {
                    lemma_later_write_hides_delta(a, bd[k], b);
                }
                assert(abw[k] == squash_write_ops(a, b).unwrap().unwrap());
                if cd.contains_key(k) {
                    assert(write_with_delta(b, cd[k]) is Some);
                    assert(write_with_delta(abw[k], cd[k]) is Some);
                    lemma_delta_reaches_later_write(a, b, cd[k]);
                }
                if cw.contains_key(k) {
                    let c = cw[k];
                    assert(<WriteOp as Squash>::cancel_free(b, c));
                    if cd.contains_key(k) {
                        lemma_later_write_hides_delta(abw[k], cd[k], c);
                        lemma_later_write_hides_delta(b, cd[k], c);
                    }
                    assert(!bcd.contains_key(k));
                    assert(bcw[k] == squash_write_ops(b, c).unwrap().unwrap());
                    assert(raised_left.contains_key(k));
                    assert(raised_right.contains_key(k));
                    assert(squash_write_ops(raised_left[k], c) is Some);
                    assert(squash_write_ops(raised_right[k], bcw[k]) is Some);
                    <WriteOp as Squash>::lemma_squash_associative(a, b, c);
                } else {
                    assert(raised_second.contains_key(k));
                    assert(bcw[k] == raised_second[k]);
                    if bcd.contains_key(k) {
                        assert(bcd[k] == bd[k]);
                        lemma_later_write_hides_delta(a, bcd[k], bcw[k]);
                    }
                    assert(raised_left.contains_key(k));
                    assert(raised_right.contains_key(k));
                    assert(squash_write_ops(raised_right[k], bcw[k]) is Some);
                }
            } else {
                assert(abw[k] == raised_first[k]);
                if cw.contains_key(k) {
                    let c = cw[k];
                    assert(bcw[k] == c);
                    assert(raised_left.contains_key(k));
                    assert(raised_right.contains_key(k));
                    if cd.contains_key(k) {
                        assert(write_with_delta(abw[k], cd[k]) is Some);
                        lemma_later_write_hides_delta(abw[k], cd[k], c);
                    }
                    if bd.contains_key(k) {
                        lemma_later_write_hides_delta(a, bd[k], c);
                    }
                    if bcd.contains_key(k) {
                        lemma_later_write_hides_delta(a, bcd[k], c);
                    }
                    assert(squash_write_ops(raised_left[k], c) is Some);
                    assert(squash_write_ops(raised_right[k], c) is Some);
                } else {
                    assert(!bcw.contains_key(k));
                    assert(raised_left.contains_key(k));
                    assert(raised_right.contains_key(k));
                    if bd.contains_key(k) && cd.contains_key(k) {
                        assert(early_second.contains_key(k) && late_third.contains_key(k));
                        assert(merged_delta(bd[k], cd[k]) is Some);
                        assert(bcd[k] == merged_delta(bd[k], cd[k]).unwrap());
                        assert(write_with_delta(abw[k], cd[k]) is Some);
                        lemma_deltas_add_up(a, bd[k], cd[k]);
                    } else if bd.contains_key(k) {
                        assert(bcd[k] == bd[k]);
                    } else if cd.contains_key(k) {
                        assert(bcd[k] == cd[k]);
                    }
                }
            }
        } else {
            if bw.contains_key(k) {
                assert(abw[k] == bw[k]);
                assert(raised_second.contains_key(k));
                if cd.contains_key(k) {
                    assert(write_with_delta(bw[k], cd[k]) is Some);
                }
                assert(raised_left.contains_key(k));
                assert(raised_left[k] == raised_second[k]);
            }
        }
    }
    assert(left.dom() =~= right.dom());
    assert(left =~= right);
}

/// Of three change sets, it does not matter which two are squashed first,
/// where both ways are possible and no write cancels the write before it.
/// The events come out in the same order either way.
pub proof fn law_squash_associative_without_cancelling(
    first: ChangeSetView,
    second: ChangeSetView,
    third: ChangeSetView,
)
    requires
        squash(first, second) is Some,
        squash(second, third) is Some,
        squash(squash(first, second).unwrap(), third) is Some,
        squash(first, squash(second, third).unwrap()) is Some,
        free_of_cancelling(first, second),
        free_of_cancelling(second, third),
    ensures
        squash(squash(first, second).unwrap(), third) == squash(
            first,
            squash(second, third).unwrap(),
        ),
{
    let first_second = squash(first, second).unwrap();
    let second_third = squash(second, third).unwrap();
    let left = squash(first_second, third).unwrap();
    let right = squash(first, second_third).unwrap();
    lemma_squash_maps_associative::<Seq<u8>, LayoutWrite>(
        first.resource_write_set,
        second.resource_write_set,
        third.resource_write_set,
    );
    lemma_squash_maps_associative::<Seq<u8>, GroupWrite>(
        first.resource_group_write_set,
        second.resource_group_write_set,
        third.resource_group_write_set,
    );
    lemma_squash_maps_associative::<Seq<u8>, WriteOp>(
        first.module_write_set,
        second.module_write_set,
        third.module_write_set,
    );
    lemma_changes_cancel_free(first.delayed_field_change_set, second.delayed_field_change_set);
    lemma_changes_cancel_free(second.delayed_field_change_set, third.delayed_field_change_set);
    lemma_squash_maps_associative::<u64, DelayedChange>(
        first.delayed_field_change_set,
        second.delayed_field_change_set,
        third.delayed_field_change_set,
    );
    lemma_squashed_writes_associative(first, second, third, first_second, second_third);
    lemma_squashed_deltas_associative(first, second, third, first_second, second_third);
    assert(left.aggregator_v1_write_set == right.aggregator_v1_write_set);
    assert(left.aggregator_v1_delta_set == right.aggregator_v1_delta_set);
    assert(left.reads_needing_delayed_field_exchange
        =~= right.reads_needing_delayed_field_exchange);
    assert(left.group_reads_needing_delayed_field_exchange
        =~= right.group_reads_needing_delayed_field_exchange);
    assert(left.events =~= right.events);
}

} // verus!
