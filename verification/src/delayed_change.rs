//! Delayed fields: values that take their final form only at commit, and the
//! changes a transaction records against them.

use crate::aggregator::{bounded_add_delta, merged_delta, DeltaWithMax};
use crate::keyed_map::MapKey;
use crate::squash::Squash;
use vstd::prelude::*;

verus! {

/// The identifier of a delayed field.
#[derive(Clone, Copy, Debug, PartialEq, Eq, Hash, Structural)]
pub struct DelayedFieldID {
    pub id: u64,
}

impl View for DelayedFieldID {
    type V = u64;

    open spec fn view(&self) -> u64 {
        self.id
    }
}

impl MapKey for DelayedFieldID {
    fn key_eq(&self, other: &Self) -> (result: bool) {
        self.id == other.id
    }
}

impl DelayedFieldID {
    pub fn new(id: u64) -> (result: DelayedFieldID)
        ensures
            result.id == id,
    {
        DelayedFieldID { id }
    }
}

/// Why a read of a delayed field has no answer.
#[derive(Clone, Copy, Debug, PartialEq, Eq, Structural)]
pub enum DelayedFieldsSpeculativeError {
    /// The field is not known.
    NotFound(DelayedFieldID),
    /// Two reads of the field disagree.
    InconsistentRead,
    /// A delta could not be applied within the bounds.
    DeltaApplicationFailure,
}

/// The code itself is at fault.
#[derive(Clone, Copy, Debug, PartialEq, Eq, Structural)]
pub struct PanicError {}

/// Either the code is at fault, or the error that the operation knows.
#[derive(Clone, Copy, Debug, PartialEq, Eq)]
pub enum PanicOr<T> {
    CodeInvariantError,
    Or(T),
}

/// The value of a delayed field.
#[derive(Clone, Debug, PartialEq, Eq)]
pub enum DelayedFieldValue {
    Aggregator(u128),
    Snapshot(u128),
    Derived(Vec<u8>),
}

/// The value of a delayed field as a mathematical value.
pub enum DelayedFieldValueView {
    Aggregator(u128),
    Snapshot(u128),
    Derived(Seq<u8>),
}

impl View for DelayedFieldValue {
    type V = DelayedFieldValueView;

    open spec fn view(&self) -> DelayedFieldValueView {
        match self {
            DelayedFieldValue::Aggregator(value) => DelayedFieldValueView::Aggregator(*value),
            DelayedFieldValue::Snapshot(value) => DelayedFieldValueView::Snapshot(*value),
            DelayedFieldValue::Derived(bytes) => DelayedFieldValueView::Derived(bytes@),
        }
    }
}

impl DelayedFieldValue {
    /// The value of an aggregator; nothing else is one.
    pub fn into_aggregator_value(self) -> (result: Result<u128, PanicError>)
        ensures
            result == match self {
                DelayedFieldValue::Aggregator(value) => Ok::<u128, PanicError>(value),
                _ => Err(PanicError {  }),
            },
    {
        match self {
            DelayedFieldValue::Aggregator(value) => Ok(value),
            _ => Err(PanicError {  }),
        }
    }

    pub fn duplicate(&self) -> (result: DelayedFieldValue)
        ensures
            result@ == self@,
    {
        match self {
            DelayedFieldValue::Aggregator(value) => DelayedFieldValue::Aggregator(*value),
            DelayedFieldValue::Snapshot(value) => DelayedFieldValue::Snapshot(*value),
            DelayedFieldValue::Derived(bytes) => DelayedFieldValue::Derived(bytes.clone()),
        }
    }
}

/// The decimal digits of `n`, most significant first, as ASCII.
pub open spec fn decimal_digits(n: nat) -> Seq<u8>
    decreases n,
{
    if n < 10 {
        seq![(48 + n) as u8]
    } else {
        decimal_digits(n / 10).push((48 + n % 10) as u8)
    }
}

/// The decimal digits of `n`, most significant first, as ASCII.
pub fn to_decimal(n: u128) -> (result: Vec<u8>)
    ensures
        result@ == decimal_digits(n as nat),
{
    // The digits, least significant first.
    let mut reversed: Vec<u8> = Vec::new();
    let mut rest: u128 = n;
    while rest >= 10
        invariant
            decimal_digits(rest as nat) + reversed@.reverse() == decimal_digits(n as nat),
        decreases rest,
    {
        let digit: u8 = (48 + rest % 10) as u8;
        let ghost before = reversed@;
        reversed.push(digit);
        proof {
            assert(reversed@.reverse() =~= seq![digit] + before.reverse());
            assert(decimal_digits(rest as nat) == decimal_digits(rest as nat / 10).push(digit));
            assert(decimal_digits(rest as nat / 10) + reversed@.reverse() =~= decimal_digits(
                rest as nat,
            ) + before.reverse());
        }
        rest = rest / 10;
    }
    let mut result: Vec<u8> = Vec::new();
    result.push((48 + rest) as u8);
    let mut i: usize = reversed.len();
    proof {
        assert(result@ =~= decimal_digits(rest as nat));
    }
    while i > 0
        invariant
            i <= reversed@.len(),
            result@ + reversed@.subrange(0, i as int).reverse() == decimal_digits(n as nat),
        decreases i,
    {
        i -= 1;
        let ghost before = result@;
        result.push(reversed[i]);
        proof {
            let head = reversed@.subrange(0, i as int + 1);
            let shorter = reversed@.subrange(0, i as int);
            assert(head.reverse() =~= seq![reversed@[i as int]] + shorter.reverse());
            assert(result@ + shorter.reverse() =~= before + head.reverse());
        }
    }
    proof {
        assert(reversed@.subrange(0, 0).reverse() =~= Seq::<u8>::empty());
        assert(result@ + Seq::<u8>::empty() =~= result@);
    }
    result
}

/// How the text of a derived value is made from a snapshot.
#[derive(Clone, Debug, PartialEq, Eq)]
pub enum SnapshotToStringFormula {
    /// The decimal digits of the snapshot between a prefix and a suffix.
    Concat { prefix: Vec<u8>, suffix: Vec<u8> },
}

/// A formula as a mathematical value.
pub enum SnapshotToStringFormulaView {
    Concat { prefix: Seq<u8>, suffix: Seq<u8> },
}

impl View for SnapshotToStringFormula {
    type V = SnapshotToStringFormulaView;

    open spec fn view(&self) -> SnapshotToStringFormulaView {
        match self {
            SnapshotToStringFormula::Concat {
                prefix,
                suffix,
            } => SnapshotToStringFormulaView::Concat { prefix: prefix@, suffix: suffix@ },
        }
    }
}

/// The text that `formula` makes of `base`.
pub open spec fn formula_text(formula: SnapshotToStringFormulaView, base: u128) -> Seq<u8> {
    match formula {
        SnapshotToStringFormulaView::Concat { prefix, suffix } => prefix + decimal_digits(
            base as nat,
        ) + suffix,
    }
}

impl SnapshotToStringFormula {
    /// The text that the formula makes of `base`.
    pub fn apply_to(&self, base: u128) -> (result: Vec<u8>)
        ensures
            result@ == formula_text(self@, base),
    {
        match self {
            SnapshotToStringFormula::Concat { prefix, suffix } => {
                let mut result = prefix.clone();
                let mut digits = to_decimal(base);
                let mut tail = suffix.clone();
                result.append(&mut digits);
                result.append(&mut tail);
                result
            },
        }
    }

    pub fn duplicate(&self) -> (result: SnapshotToStringFormula)
        ensures
            result@ == self@,
    {
        match self {
            SnapshotToStringFormula::Concat { prefix, suffix } => SnapshotToStringFormula::Concat {
                prefix: prefix.clone(),
                suffix: suffix.clone(),
            },
        }
    }
}

/// A change that needs a value to be applied to.
#[derive(Clone, Debug, PartialEq, Eq)]
pub enum DelayedApplyChange {
    /// Adds a delta to the aggregator itself.
    AggregatorDelta { delta: DeltaWithMax },
    /// A snapshot of an aggregator, with a delta added.
    SnapshotDelta { base_aggregator: DelayedFieldID, delta: DeltaWithMax },
    /// A text derived from a snapshot.
    SnapshotDerived { base_snapshot: DelayedFieldID, formula: SnapshotToStringFormula },
}

/// A change to apply as a mathematical value.
pub enum DelayedApplyChangeView {
    AggregatorDelta { delta: DeltaWithMax },
    SnapshotDelta { base_aggregator: DelayedFieldID, delta: DeltaWithMax },
    SnapshotDerived { base_snapshot: DelayedFieldID, formula: SnapshotToStringFormulaView },
}

impl View for DelayedApplyChange {
    type V = DelayedApplyChangeView;

    open spec fn view(&self) -> DelayedApplyChangeView {
        match self {
            DelayedApplyChange::AggregatorDelta {
                delta,
            } => DelayedApplyChangeView::AggregatorDelta { delta: *delta },
            DelayedApplyChange::SnapshotDelta {
                base_aggregator,
                delta,
            } => DelayedApplyChangeView::SnapshotDelta {
                base_aggregator: *base_aggregator,
                delta: *delta,
            },
            DelayedApplyChange::SnapshotDerived {
                base_snapshot,
                formula,
            } => DelayedApplyChangeView::SnapshotDerived {
                base_snapshot: *base_snapshot,
                formula: formula@,
            },
        }
    }
}

/// The value that a change is applied to: that of a field before the
/// transaction, or that of a field as the transaction has left it.
#[derive(Clone, Copy, Debug, PartialEq, Eq, Structural)]
pub enum ApplyBase {
    Previous(DelayedFieldID),
    Current(DelayedFieldID),
}

/// The base of `change`, recorded against the field `id`. A delta builds on
/// the field's own earlier value; a snapshot and a derived text build on the
/// current value of the field they are taken from.
pub open spec fn apply_base_id(change: DelayedApplyChangeView, id: DelayedFieldID) -> ApplyBase {
    match change {
        DelayedApplyChangeView::AggregatorDelta { .. } => ApplyBase::Previous(id),
        DelayedApplyChangeView::SnapshotDelta { base_aggregator, .. } => ApplyBase::Current(
            base_aggregator,
        ),
        DelayedApplyChangeView::SnapshotDerived { base_snapshot, .. } => ApplyBase::Current(
            base_snapshot,
        ),
    }
}

/// `change` applied to `base`: none where the base is of the wrong kind or
/// the delta leaves the bounds.
pub open spec fn applied_to_base(
    change: DelayedApplyChangeView,
    base: DelayedFieldValueView,
) -> Option<DelayedFieldValueView> {
    match (base, change) {
        (
            DelayedFieldValueView::Aggregator(value),
            DelayedApplyChangeView::AggregatorDelta { delta },
        ) => match bounded_add_delta(delta.max_value, value, delta.update) {
            Ok(sum) => Some(DelayedFieldValueView::Aggregator(sum)),
            Err(_) => None,
        },
        (
            DelayedFieldValueView::Aggregator(value),
            DelayedApplyChangeView::SnapshotDelta { delta, .. },
        ) => match bounded_add_delta(delta.max_value, value, delta.update) {
            Ok(sum) => Some(DelayedFieldValueView::Snapshot(sum)),
            Err(_) => None,
        },
        (
            DelayedFieldValueView::Snapshot(value),
            DelayedApplyChangeView::SnapshotDerived { formula, .. },
        ) => Some(DelayedFieldValueView::Derived(formula_text(formula, value))),
        _ => None,
    }
}

impl DelayedApplyChange {
    pub fn get_apply_base_id(&self, id: &DelayedFieldID) -> (result: ApplyBase)
        ensures
            result == apply_base_id(self@, *id),
    {
        match self {
            DelayedApplyChange::AggregatorDelta { .. } => ApplyBase::Previous(*id),
            DelayedApplyChange::SnapshotDelta { base_aggregator, .. } => ApplyBase::Current(
                *base_aggregator,
            ),
            DelayedApplyChange::SnapshotDerived { base_snapshot, .. } => ApplyBase::Current(
                *base_snapshot,
            ),
        }
    }

    /// The change applied to `base_value`.
    pub fn apply_to_base(&self, base_value: DelayedFieldValue) -> (result: Result<
        DelayedFieldValue,
        PanicError,
    >)
        ensures
            match result {
                Ok(value) => applied_to_base(self@, base_value@) == Some(value@),
                Err(_) => applied_to_base(self@, base_value@) is None,
            },
    {
        match (base_value, self) {
            (
                DelayedFieldValue::Aggregator(value),
                DelayedApplyChange::AggregatorDelta { delta },
            ) => match delta.apply_to(value) {
                Ok(sum) => Ok(DelayedFieldValue::Aggregator(sum)),
                Err(_) => Err(PanicError {  }),
            },
            (
                DelayedFieldValue::Aggregator(value),
                DelayedApplyChange::SnapshotDelta { delta, .. },
            ) => match delta.apply_to(value) {
                Ok(sum) => Ok(DelayedFieldValue::Snapshot(sum)),
                Err(_) => Err(PanicError {  }),
            },
            (
                DelayedFieldValue::Snapshot(value),
                DelayedApplyChange::SnapshotDerived { formula, .. },
            ) => Ok(DelayedFieldValue::Derived(formula.apply_to(value))),
            _ => Err(PanicError {  }),
        }
    }
}

/// What a transaction records against a delayed field.
#[derive(Clone, Debug, PartialEq, Eq)]
pub enum DelayedChange {
    /// The field is new and has this value.
    Create(DelayedFieldValue),
    /// The field changes by this.
    Apply(DelayedApplyChange),
}

/// A recorded change as a mathematical value.
pub enum DelayedChangeView {
    Create(DelayedFieldValueView),
    Apply(DelayedApplyChangeView),
}

impl View for DelayedChange {
    type V = DelayedChangeView;

    open spec fn view(&self) -> DelayedChangeView {
        match self {
            DelayedChange::Create(value) => DelayedChangeView::Create(value@),
            DelayedChange::Apply(change) => DelayedChangeView::Apply(change@),
        }
    }
}

/// The one change that stands for `earlier` followed by `later` on the same
/// field. Nothing creates a field that has a change; a change applied to a
/// creation gives the creation of the changed value; two deltas merge; a
/// snapshot or a derived text takes no further change.
pub open spec fn merged_change(earlier: DelayedChangeView, later: DelayedChangeView) -> Option<
    DelayedChangeView,
> {
    match (earlier, later) {
        (_, DelayedChangeView::Create(_)) => None,
        (
            DelayedChangeView::Create(value),
            DelayedChangeView::Apply(change),
        ) => match applied_to_base(
            change,
            value,
        ) {
            Some(applied) => Some(DelayedChangeView::Create(applied)),
            None => None,
        },
        (
            DelayedChangeView::Apply(DelayedApplyChangeView::AggregatorDelta { delta: prev }),
            DelayedChangeView::Apply(DelayedApplyChangeView::AggregatorDelta { delta: next }),
        ) => match merged_delta(prev, next) {
            Some(delta) => Some(
                DelayedChangeView::Apply(DelayedApplyChangeView::AggregatorDelta { delta }),
            ),
            None => None,
        },
        (DelayedChangeView::Apply(_), DelayedChangeView::Apply(_)) => None,
    }
}

impl Squash for DelayedChange {
    open spec fn squash_spec(earlier: DelayedChangeView, later: DelayedChangeView) -> Option<
        Option<DelayedChangeView>,
    > {
        match merged_change(earlier, later) {
            Some(merged) => Some(Some(merged)),
            None => None,
        }
    }

    open spec fn cancel_free(earlier: DelayedChangeView, later: DelayedChangeView) -> bool {
        merged_change(earlier, later) is Some
    }

    proof fn lemma_cancel_free_combines(earlier: DelayedChangeView, later: DelayedChangeView) {
    }

    proof fn lemma_squash_associative(
        first: DelayedChangeView,
        second: DelayedChangeView,
        third: DelayedChangeView,
    ) {
    }

    fn squash(self, later: Self) -> (result: Option<Option<Self>>) {
        match (self, later) {
            (_, DelayedChange::Create(_)) => None,
            (DelayedChange::Create(value), DelayedChange::Apply(change)) => {
                match change.apply_to_base(value) {
                    Ok(applied) => Some(Some(DelayedChange::Create(applied))),
                    Err(_) => None,
                }
            },
            (
                DelayedChange::Apply(DelayedApplyChange::AggregatorDelta { delta: prev }),
                DelayedChange::Apply(DelayedApplyChange::AggregatorDelta { delta: next }),
            ) => match DeltaWithMax::create_merged_delta(&prev, &next) {
                Some(delta) => Some(
                    Some(DelayedChange::Apply(DelayedApplyChange::AggregatorDelta { delta })),
                ),
                None => None,
            },
            (DelayedChange::Apply(_), DelayedChange::Apply(_)) => None,
        }
    }
}

} // verus!
