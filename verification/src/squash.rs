//! Combining what two change sets hold under one key, and whole maps key by
//! key.

use crate::keyed_map::{KeyedMap, MapKey};
use vstd::prelude::*;

verus! {

/// A value of which two, written one after the other under one key, combine
/// into one. The rule is stated over views.
pub trait Squash: View + Sized {
    /// `None` where `later` cannot follow `earlier`, `Some(None)` where the
    /// two cancel each other, else the value that stands for both.
    spec fn squash_spec(earlier: Self::V, later: Self::V) -> Option<Option<Self::V>>;

    fn squash(self, later: Self) -> (result: Option<Option<Self>>)
        ensures
            match result {
                None => Self::squash_spec(self@, later@) is None,
                Some(None) => Self::squash_spec(self@, later@) == Some(None::<Self::V>),
                Some(Some(combined)) => Self::squash_spec(self@, later@) == Some(Some(combined@)),
            },
    ;

    /// Whether the two combine into a value, with nothing in them that
    /// cancels each other.
    spec fn cancel_free(earlier: Self::V, later: Self::V) -> bool;

    /// Two values that are free of cancelling combine into a value.
    proof fn lemma_cancel_free_combines(earlier: Self::V, later: Self::V)
        requires
            Self::cancel_free(earlier, later),
        ensures
            Self::squash_spec(earlier, later) matches Some(Some(_)),
    ;

    /// Of three values of which neighbours are free of cancelling, it does
    /// not matter which two are combined first.
    proof fn lemma_squash_associative(first: Self::V, second: Self::V, third: Self::V)
        requires
            Self::cancel_free(first, second),
            Self::cancel_free(second, third),
            Self::squash_spec(Self::squash_spec(first, second).unwrap().unwrap(), third) is Some,
            Self::squash_spec(first, Self::squash_spec(second, third).unwrap().unwrap()) is Some,
        ensures
            Self::squash_spec(Self::squash_spec(first, second).unwrap().unwrap(), third)
                == Self::squash_spec(first, Self::squash_spec(second, third).unwrap().unwrap()),
    ;
}

/// Whether no key holds values in both maps that cancel each other, or
/// hold something that does.
pub open spec fn maps_cancel_free<K, V: Squash>(earlier: Map<K, V::V>, later: Map<K, V::V>) -> bool {
    forall|k: K|
        earlier.contains_key(k) && later.contains_key(k) ==> V::cancel_free(
            #[trigger] earlier[k],
            later[k],
        )
}

/// Maps that are free of cancelling combine without conflict, and every
/// key of either is a key of the result.
pub proof fn lemma_cancel_free_maps_combine<K, V: Squash>(earlier: Map<K, V::V>, later: Map<K, V::V>)
    requires
        maps_cancel_free::<K, V>(earlier, later),
    ensures
        !squash_conflict::<K, V>(earlier, later),
        squash_maps::<K, V>(earlier, later).dom() == earlier.dom().union(later.dom()),
{
    assert forall|k: K| earlier.contains_key(k) && later.contains_key(k) implies V::squash_spec(
        #[trigger] earlier[k],
        later[k],
    ) matches Some(Some(_)) by {
        V::lemma_cancel_free_combines(earlier[k], later[k]);
    }
    assert(squash_maps::<K, V>(earlier, later).dom() =~= earlier.dom().union(later.dom()));
}

/// Of three maps of which neighbours are free of cancelling, it does not
/// matter which two are squashed first.
pub proof fn lemma_squash_maps_associative<K, V: Squash>(
    first: Map<K, V::V>,
    second: Map<K, V::V>,
    third: Map<K, V::V>,
)
    requires
        maps_cancel_free::<K, V>(first, second),
        maps_cancel_free::<K, V>(second, third),
        !squash_conflict::<K, V>(squash_maps::<K, V>(first, second), third),
        !squash_conflict::<K, V>(first, squash_maps::<K, V>(second, third)),
    ensures
        squash_maps::<K, V>(squash_maps::<K, V>(first, second), third) == squash_maps::<K, V>(
            first,
            squash_maps::<K, V>(second, third),
        ),
{
    let left_inner = squash_maps::<K, V>(first, second);
    let right_inner = squash_maps::<K, V>(second, third);
    let left = squash_maps::<K, V>(left_inner, third);
    let right = squash_maps::<K, V>(first, right_inner);
    lemma_cancel_free_maps_combine::<K, V>(first, second);
    lemma_cancel_free_maps_combine::<K, V>(second, third);
    assert forall|k: K|
        #![trigger left.dom().contains(k)]
        #![trigger right.dom().contains(k)]
        #![trigger left[k]]
        #![trigger right[k]]
        left.dom().contains(k) == right.dom().contains(k) && (left.dom().contains(k) ==> left[k]
            == right[k]) by {
        if first.contains_key(k) && second.contains_key(k) {
            V::lemma_cancel_free_combines(first[k], second[k]);
        }
        if second.contains_key(k) && third.contains_key(k) {
            V::lemma_cancel_free_combines(second[k], third[k]);
        }
        if first.contains_key(k) && second.contains_key(k) && third.contains_key(k) {
            assert(left_inner.contains_key(k));
            assert(right_inner.contains_key(k));
            assert(V::squash_spec(left_inner[k], third[k]) is Some);
            assert(V::squash_spec(first[k], right_inner[k]) is Some);
            V::lemma_squash_associative(first[k], second[k], third[k]);
        }
    }
    assert(left.dom() =~= right.dom());
    assert(left =~= right);
}

/// The map with each value taken by its view.
pub open spec fn deep<K, V: View>(map: Map<K, V>) -> Map<K, V::V> {
    Map::new(|k: K| map.contains_key(k), |k: K| map[k]@)
}

/// Whether some key holds values in both maps that cannot follow each other.
pub open spec fn squash_conflict<K, V: Squash>(earlier: Map<K, V::V>, later: Map<K, V::V>) -> bool {
    exists|k: K|
        earlier.contains_key(k) && later.contains_key(k) && V::squash_spec(
            #[trigger] earlier[k],
            later[k],
        ) is None
}

/// The map that stands for `earlier` followed by `later`. A key of one map
/// only keeps its value; a key of both holds the two values combined, or is
/// gone where they cancel each other.
pub open spec fn squash_maps<K, V: Squash>(earlier: Map<K, V::V>, later: Map<K, V::V>) -> Map<
    K,
    V::V,
> {
    Map::new(
        |k: K|
            if earlier.contains_key(k) && later.contains_key(k) {
                V::squash_spec(earlier[k], later[k]) matches Some(Some(_))
            } else {
                earlier.contains_key(k) || later.contains_key(k)
            },
        |k: K|
            if earlier.contains_key(k) && later.contains_key(k) {
                V::squash_spec(earlier[k], later[k]).unwrap().unwrap()
            } else if later.contains_key(k) {
                later[k]
            } else {
                earlier[k]
            },
    )
}

/// Combines two maps key by key. `Err` says that some key holds values that
/// cannot follow each other.
pub fn squash_keyed_maps<K: MapKey, V: Squash>(
    earlier: KeyedMap<K, V>,
    later: KeyedMap<K, V>,
) -> (result: Result<KeyedMap<K, V>, ()>)
    ensures
        match result {
            Ok(map) => !squash_conflict::<K::V, V>(deep(earlier@), deep(later@)) && deep(map@)
                == squash_maps::<K::V, V>(deep(earlier@), deep(later@)),
            Err(_) => squash_conflict::<K::V, V>(deep(earlier@), deep(later@)),
        },
{
    let ghost order = later.keys();
    let ghost base = deep(earlier@);
    let ghost added = deep(later@);
    let mut current = earlier;
    let entries = later.into_entries();
    let ghost all = entries@;
    proof {
        assert(order.subrange(0, 0).to_set() =~= Set::<K::V>::empty());
        assert(added.restrict(Set::<K::V>::empty()) =~= Map::<K::V, V::V>::empty());
        assert(squash_maps::<K::V, V>(base, Map::<K::V, V::V>::empty()) =~= base);
    }
    for entry in it: entries.into_iter()
        invariant
            it.seq() == all,
            base == deep(earlier@),
            added == deep(later@),
            order.len() == all.len(),
            order.no_duplicates(),
            forall|i: int|
                0 <= i < all.len() ==> (#[trigger] all[i]).0@ == order[i] && added.contains_key(
                    order[i],
                ) && all[i].1@ == added[order[i]],
            forall|k: K::V| added.contains_key(k) ==> order.contains(k),
            deep(current@) == squash_maps::<K::V, V>(
                base,
                added.restrict(order.subrange(0, it.index() as int).to_set()),
            ),
            !squash_conflict::<K::V, V>(
                base,
                added.restrict(order.subrange(0, it.index() as int).to_set()),
            ),
    {
        let ghost n = it.index();
        let (key, value) = entry;
        let ghost seen = order.subrange(0, n as int).to_set();
        let ghost seen_next = order.subrange(0, n as int + 1).to_set();
        let ghost before = deep(current@);
        let ghost shallow = current@;
        proof {
            assert(key@ == order[n as int]);
            assert(value@ == added[key@]);
            let head = order.subrange(0, n as int);
            let head_next = order.subrange(0, n as int + 1);
            assert(!seen.contains(key@)) by {
                if head.contains(key@) {
                    let j = choose|j: int| 0 <= j < head.len() && head[j] == key@;
                    assert(order[j] == key@);
                }
            }
            assert(head_next =~= head.push(key@));
            assert(seen_next =~= seen.insert(key@)) by {
                assert forall|k: K::V| seen_next.contains(k) <==> seen.insert(key@).contains(
                    k,
                ) by {
                    if head_next.contains(k) {
                        let j = choose|j: int| 0 <= j < head_next.len() && head_next[j] == k;
                        if j < n {
                            assert(head[j] == k);
                        }
                    }
                    if head.contains(k) {
                        let j = choose|j: int| 0 <= j < head.len() && head[j] == k;
                        assert(head_next[j] == k);
                    }
                    if k == key@ {
                        assert(head_next[n as int] == k);
                    }
                }
            }
            assert(added.restrict(seen_next) =~= added.restrict(seen).insert(key@, value@));
            assert(!added.restrict(seen).contains_key(key@));
        }
        let ghost key_view = key@;
        let ghost value_view = value@;
        match current.remove(&key) {
            None => {
                current.insert(key, value);
                proof {
                    assert(!before.contains_key(key_view));
                    assert(!base.contains_key(key_view));
                    assert(deep(current@) =~= before.insert(key_view, value_view));
                    assert(deep(current@) =~= squash_maps::<K::V, V>(
                        base,
                        added.restrict(seen_next),
                    ));
                }
            },
            Some(present) => {
                let ghost removed = deep(current@);
                proof {
                    assert(shallow.contains_key(key_view) && shallow[key_view] == present);
                    assert(before.contains_key(key_view) && before[key_view] == present@);
                    let partial = squash_maps::<K::V, V>(base, added.restrict(seen));
                    assert(partial.contains_key(key_view));
                    assert(partial[key_view] == base[key_view]);
                    assert(base.contains_key(key_view) && base[key_view] == present@);
                    assert(removed =~= before.remove(key_view));
                }
                match present.squash(value) {
                    None => {
                        proof {
                            assert(V::squash_spec(base[key_view], added[key_view]) is None);
                            assert(squash_conflict::<K::V, V>(base, added));
                        }
                        return Err(());
                    },
                    Some(None) => {
                        proof {
                            assert(deep(current@) =~= squash_maps::<K::V, V>(
                                base,
                                added.restrict(seen_next),
                            ));
                        }
                    },
                    Some(Some(combined)) => {
                        let ghost combined_view = combined@;
                        current.insert(key, combined);
                        proof {
                            assert(deep(current@) =~= removed.insert(key_view, combined_view));
                            assert(deep(current@) =~= squash_maps::<K::V, V>(
                                base,
                                added.restrict(seen_next),
                            ));
                        }
                    },
                }
            },
        }
        proof {
            assert(!squash_conflict::<K::V, V>(base, added.restrict(seen_next))) by {
                if squash_conflict::<K::V, V>(base, added.restrict(seen_next)) {
                    let k = choose|k: K::V|
                        base.contains_key(k) && added.restrict(seen_next).contains_key(k)
                            && V::squash_spec(
                            #[trigger] base[k],
                            added.restrict(seen_next)[k],
                        ) is None;
                    if k != key_view {
                        assert(added.restrict(seen).contains_key(k));
                        assert(V::squash_spec(base[k], added.restrict(seen)[k]) is None);
                    }
                }
            }
        }
    }
    proof {
        assert(order.subrange(0, all.len() as int) =~= order);
        assert(added.restrict(order.to_set()) =~= added);
    }
    Ok(current)
}

/// Lays `later` over `earlier`: a key of both keeps the later value.
pub fn override_keyed_maps<K: MapKey, V: View>(earlier: KeyedMap<K, V>, later: KeyedMap<K, V>) -> (result:
    KeyedMap<K, V>)
    ensures
        deep(result@) == deep(earlier@).union_prefer_right(deep(later@)),
{
    let ghost order = later.keys();
    let ghost base = deep(earlier@);
    let ghost added = deep(later@);
    let mut current = earlier;
    let entries = later.into_entries();
    let ghost all = entries@;
    proof {
        assert(order.subrange(0, 0).to_set() =~= Set::<K::V>::empty());
        assert(base.union_prefer_right(added.restrict(Set::<K::V>::empty())) =~= base);
    }
    for entry in it: entries.into_iter()
        invariant
            it.seq() == all,
            order.len() == all.len(),
            forall|i: int|
                0 <= i < all.len() ==> (#[trigger] all[i]).0@ == order[i] && added.contains_key(
                    order[i],
                ) && all[i].1@ == added[order[i]],
            forall|k: K::V| added.contains_key(k) ==> order.contains(k),
            deep(current@) == base.union_prefer_right(
                added.restrict(order.subrange(0, it.index() as int).to_set()),
            ),
    {
        let ghost n = it.index();
        let (key, value) = entry;
        let ghost seen = order.subrange(0, n as int).to_set();
        let ghost seen_next = order.subrange(0, n as int + 1).to_set();
        let ghost before = deep(current@);
        let ghost key_view = key@;
        let ghost value_view = value@;
        proof {
            let head = order.subrange(0, n as int);
            let head_next = order.subrange(0, n as int + 1);
            assert(head_next =~= head.push(key_view));
            assert(seen_next =~= seen.insert(key_view)) by {
                assert forall|k: K::V| seen_next.contains(k) <==> seen.insert(key_view).contains(
                    k,
                ) by {
                    if head_next.contains(k) {
                        let j = choose|j: int| 0 <= j < head_next.len() && head_next[j] == k;
                        if j < n {
                            assert(head[j] == k);
                        }
                    }
                    if head.contains(k) {
                        let j = choose|j: int| 0 <= j < head.len() && head[j] == k;
                        assert(head_next[j] == k);
                    }
                    if k == key_view {
                        assert(head_next[n as int] == k);
                    }
                }
            }
            assert(added.restrict(seen_next) =~= added.restrict(seen).insert(key_view, value_view));
        }
        current.insert(key, value);
        proof {
            assert(deep(current@) =~= before.insert(key_view, value_view));
            assert(deep(current@) =~= base.union_prefer_right(added.restrict(seen_next)));
        }
    }
    proof {
        assert(order.subrange(0, all.len() as int) =~= order);
        assert(added.restrict(order.to_set()) =~= added);
    }
    current
}

} // verus!
