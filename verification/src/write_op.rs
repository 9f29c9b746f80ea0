//! A pending write to one slot of the state, and how two writes to the same
//! slot, one after the other, combine into one.

use crate::aggregator::{bounded_add_delta, DeltaWithMax};
use crate::bcs_codec::{aggregator_value, deserialize, le_bytes, serialize};
use crate::squash::Squash;
use crate::types::MoveTypeLayout;
use vstd::prelude::*;

verus! {

/// What the state remembers of a slot besides its bytes.
#[derive(Clone, Copy, Debug, PartialEq, Eq, Structural)]
pub struct StateValueMetadata {
    pub deposit: u64,
    pub creation_time_usecs: u64,
}

/// The content of a slot: its bytes and what the state remembers of it.
#[derive(Clone, Debug, PartialEq, Eq)]
pub struct StateValue {
    pub data: Vec<u8>,
    pub metadata: Option<StateValueMetadata>,
}

/// The content of a slot as a mathematical value.
pub struct StateValueView {
    pub data: Seq<u8>,
    pub metadata: Option<StateValueMetadata>,
}

impl View for StateValue {
    type V = StateValueView;

    open spec fn view(&self) -> StateValueView {
        StateValueView { data: self.data@, metadata: self.metadata }
    }
}

impl StateValue {
    pub fn new_legacy(data: Vec<u8>) -> (result: StateValue)
        ensures
            result.data == data,
            result.metadata is None,
    {
        StateValue { data, metadata: None }
    }

    pub fn bytes(&self) -> (result: &Vec<u8>)
        ensures
            *result == self.data,
    {
        &self.data
    }
}

/// A pending write to one slot.
#[allow(inconsistent_fields)]
#[derive(Clone, Debug, PartialEq, Eq)]
pub enum WriteOp {
    /// The slot did not exist and is created.
    Creation { data: Vec<u8>, metadata: StateValueMetadata },
    /// The slot exists and gets new bytes.
    Modification { data: Vec<u8>, metadata: Option<StateValueMetadata> },
    /// The slot exists and is deleted.
    Deletion { metadata: Option<StateValueMetadata> },
}

/// A pending write as a mathematical value.
#[allow(inconsistent_fields)]
pub enum WriteOpView {
    Creation { data: Seq<u8>, metadata: StateValueMetadata },
    Modification { data: Seq<u8>, metadata: Option<StateValueMetadata> },
    Deletion { metadata: Option<StateValueMetadata> },
}

impl View for WriteOp {
    type V = WriteOpView;

    open spec fn view(&self) -> WriteOpView {
        match self {
            WriteOp::Creation { data, metadata } => WriteOpView::Creation {
                data: data@,
                metadata: *metadata,
            },
            WriteOp::Modification { data, metadata } => WriteOpView::Modification {
                data: data@,
                metadata: *metadata,
            },
            WriteOp::Deletion { metadata } => WriteOpView::Deletion { metadata: *metadata },
        }
    }
}

/// The content that a write leaves in its slot, if any.
pub open spec fn write_op_state_value(op: WriteOpView) -> Option<StateValueView> {
    match op {
        WriteOpView::Creation { data, metadata } => Some(
            StateValueView { data, metadata: Some(metadata) },
        ),
        WriteOpView::Modification { data, metadata } => Some(StateValueView { data, metadata }),
        WriteOpView::Deletion { .. } => None,
    }
}

/// The bytes that a write leaves in its slot, if any.
pub open spec fn write_op_bytes(op: WriteOpView) -> Option<Seq<u8>> {
    match op {
        WriteOpView::Creation { data, .. } => Some(data),
        WriteOpView::Modification { data, .. } => Some(data),
        WriteOpView::Deletion { .. } => None,
    }
}

/// What the state remembered of the slot before the write.
pub open spec fn write_op_metadata(op: WriteOpView) -> Option<StateValueMetadata> {
    match op {
        WriteOpView::Creation { metadata, .. } => Some(metadata),
        WriteOpView::Modification { metadata, .. } => metadata,
        WriteOpView::Deletion { metadata } => metadata,
    }
}

/// The one write that stands for `earlier` followed by `later` on the same
/// slot: `None` where the second cannot follow the first (a creation of what
/// exists, a change of what is gone), `Some(None)` where a deletion undoes a
/// creation and nothing is left to write. The bytes are those of the later
/// write; what the state remembers of the slot is taken from the earlier one.
pub open spec fn squash_write_ops(earlier: WriteOpView, later: WriteOpView) -> Option<
    Option<WriteOpView>,
> {
    match (earlier, later) {
        (WriteOpView::Creation { .. }, WriteOpView::Creation { .. }) => None,
        (WriteOpView::Modification { .. }, WriteOpView::Creation { .. }) => None,
        (WriteOpView::Deletion { .. }, WriteOpView::Modification { .. }) => None,
        (WriteOpView::Deletion { .. }, WriteOpView::Deletion { .. }) => None,
        (WriteOpView::Creation { metadata, .. }, WriteOpView::Modification { data, .. }) => Some(
            Some(WriteOpView::Creation { data, metadata }),
        ),
        (WriteOpView::Creation { .. }, WriteOpView::Deletion { .. }) => Some(None),
        (
            WriteOpView::Modification { metadata, .. },
            WriteOpView::Modification { data, .. },
        ) => Some(Some(WriteOpView::Modification { data, metadata })),
        (WriteOpView::Modification { metadata, .. }, WriteOpView::Deletion { .. }) => Some(
            Some(WriteOpView::Deletion { metadata }),
        ),
        (WriteOpView::Deletion { metadata }, WriteOpView::Creation { data, .. }) => Some(
            Some(WriteOpView::Modification { data, metadata }),
        ),
    }
}

/// The encoding of an aggregator's value with `delta` added to the value:
/// none where `data` is no encoding of a value or the delta leaves the
/// bounds.
pub open spec fn data_with_delta(data: Seq<u8>, delta: DeltaWithMax) -> Option<Seq<u8>> {
    match aggregator_value(data) {
        Some(value) => match bounded_add_delta(delta.max_value, value, delta.update) {
            Ok(sum) => Some(le_bytes(sum as nat, 16)),
            Err(_) => None,
        },
        None => None,
    }
}

/// The encoding of an aggregator's value with `delta` added to the value.
pub fn added_to_data(data: &Vec<u8>, delta: &DeltaWithMax) -> (result: Option<Vec<u8>>)
    ensures
        match result {
            Some(bytes) => data_with_delta(data@, *delta) == Some(bytes@),
            None => data_with_delta(data@, *delta) is None,
        },
{
    match deserialize(data) {
        None => None,
        Some(value) => match delta.apply_to(value) {
            Ok(sum) => Some(serialize(sum)),
            Err(_) => None,
        },
    }
}

/// The write to an aggregator with `delta` added to the value it writes:
/// none where the write deletes the aggregator, where what it writes is no
/// encoding of a value, or where the delta leaves the bounds.
pub open spec fn write_with_delta(op: WriteOpView, delta: DeltaWithMax) -> Option<WriteOpView> {
    match op {
        WriteOpView::Creation { data, metadata } => match data_with_delta(data, delta) {
            Some(data) => Some(WriteOpView::Creation { data, metadata }),
            None => None,
        },
        WriteOpView::Modification { data, metadata } => match data_with_delta(data, delta) {
            Some(data) => Some(WriteOpView::Modification { data, metadata }),
            None => None,
        },
        WriteOpView::Deletion { .. } => None,
    }
}

impl WriteOp {
    /// The write with `delta` added to the value it writes.
    pub fn with_delta(self, delta: &DeltaWithMax) -> (result: Option<WriteOp>)
        ensures
            match result {
                Some(op) => write_with_delta(self@, *delta) == Some(op@),
                None => write_with_delta(self@, *delta) is None,
            },
    {
        match self {
            WriteOp::Creation { data, metadata } => match added_to_data(&data, delta) {
                Some(data) => Some(WriteOp::Creation { data, metadata }),
                None => None,
            },
            WriteOp::Modification { data, metadata } => match added_to_data(&data, delta) {
                Some(data) => Some(WriteOp::Modification { data, metadata }),
                None => None,
            },
            WriteOp::Deletion { .. } => None,
        }
    }

    pub open spec fn spec_is_creation(&self) -> bool {
        self is Creation
    }

    #[verifier::when_used_as_spec(spec_is_creation)]
    pub fn is_creation(&self) -> (result: bool)
        ensures
            result == self.spec_is_creation(),
    {
        match self {
            WriteOp::Creation { .. } => true,
            _ => false,
        }
    }

    pub open spec fn spec_is_deletion(&self) -> bool {
        self is Deletion
    }

    #[verifier::when_used_as_spec(spec_is_deletion)]
    pub fn is_deletion(&self) -> (result: bool)
        ensures
            result == self.spec_is_deletion(),
    {
        match self {
            WriteOp::Deletion { .. } => true,
            _ => false,
        }
    }

    /// The content that the write leaves in its slot, if any.
    pub fn as_state_value(&self) -> (result: Option<StateValue>)
        ensures
            match result {
                Some(value) => write_op_state_value(self@) == Some(value@),
                None => write_op_state_value(self@) is None,
            },
    {
        match self {
            WriteOp::Creation { data, metadata } => Some(
                StateValue { data: data.clone(), metadata: Some(*metadata) },
            ),
            WriteOp::Modification { data, metadata } => Some(
                StateValue { data: data.clone(), metadata: *metadata },
            ),
            WriteOp::Deletion { .. } => None,
        }
    }

    /// The bytes that the write leaves in its slot, if any.
    pub fn extract_raw_bytes(&self) -> (result: Option<Vec<u8>>)
        ensures
            match result {
                Some(bytes) => write_op_bytes(self@) == Some(bytes@),
                None => write_op_bytes(self@) is None,
            },
    {
        match self {
            WriteOp::Creation { data, .. } => Some(data.clone()),
            WriteOp::Modification { data, .. } => Some(data.clone()),
            WriteOp::Deletion { .. } => None,
        }
    }

    /// What the state remembered of the slot before the write.
    pub fn metadata(&self) -> (result: Option<StateValueMetadata>)
        ensures
            result == write_op_metadata(self@),
    {
        match self {
            WriteOp::Creation { metadata, .. } => Some(*metadata),
            WriteOp::Modification { metadata, .. } => *metadata,
            WriteOp::Deletion { metadata } => *metadata,
        }
    }
}

impl Squash for WriteOp {
    open spec fn squash_spec(earlier: WriteOpView, later: WriteOpView) -> Option<
        Option<WriteOpView>,
    > {
        squash_write_ops(earlier, later)
    }

    open spec fn cancel_free(earlier: WriteOpView, later: WriteOpView) -> bool {
        squash_write_ops(earlier, later) matches Some(Some(_))
    }

    proof fn lemma_cancel_free_combines(earlier: WriteOpView, later: WriteOpView) {
    }

    proof fn lemma_squash_associative(first: WriteOpView, second: WriteOpView, third: WriteOpView) {
    }

    fn squash(self, later: Self) -> (result: Option<Option<Self>>) {
        proof {
            assert(Self::squash_spec(self@, later@) == squash_write_ops(self@, later@));
        }
        match self {
            WriteOp::Creation { metadata, .. } => match later {
                WriteOp::Creation { .. } => None,
                WriteOp::Modification { data, .. } => Some(
                    Some(WriteOp::Creation { data, metadata }),
                ),
                WriteOp::Deletion { .. } => Some(None),
            },
            WriteOp::Modification { metadata, .. } => match later {
                WriteOp::Creation { .. } => None,
                WriteOp::Modification { data, .. } => Some(
                    Some(WriteOp::Modification { data, metadata }),
                ),
                WriteOp::Deletion { .. } => Some(Some(WriteOp::Deletion { metadata })),
            },
            WriteOp::Deletion { metadata } => match later {
                WriteOp::Creation { data, .. } => Some(
                    Some(WriteOp::Modification { data, metadata }),
                ),
                WriteOp::Modification { .. } => None,
                WriteOp::Deletion { .. } => None,
            },
        }
    }
}

/// A write together with the layout of the value it writes, where that is
/// known.
#[derive(Clone, Debug, PartialEq, Eq)]
pub struct LayoutWrite {
    pub op: WriteOp,
    pub layout: Option<MoveTypeLayout>,
}

/// A write with its layout as a mathematical value.
pub struct LayoutWriteView {
    pub op: WriteOpView,
    pub layout: Option<Seq<u8>>,
}

/// The layout as a mathematical value, where there is one.
pub open spec fn layout_view(layout: Option<MoveTypeLayout>) -> Option<Seq<u8>> {
    match layout {
        Some(layout) => Some(layout@),
        None => None,
    }
}

impl View for LayoutWrite {
    type V = LayoutWriteView;

    open spec fn view(&self) -> LayoutWriteView {
        LayoutWriteView { op: self.op@, layout: layout_view(self.layout) }
    }
}

impl LayoutWrite {
    pub fn new(op: WriteOp, layout: Option<MoveTypeLayout>) -> (result: LayoutWrite)
        ensures
            result.op == op,
            result.layout == layout,
    {
        LayoutWrite { op, layout }
    }
}

/// Two writes with layouts combine as their writes do; the layout is that
/// of the later one.
pub open spec fn squash_layout_writes(earlier: LayoutWriteView, later: LayoutWriteView) -> Option<
    Option<LayoutWriteView>,
> {
    match squash_write_ops(earlier.op, later.op) {
        None => None,
        Some(None) => Some(None),
        Some(Some(op)) => Some(Some(LayoutWriteView { op, layout: later.layout })),
    }
}

impl Squash for LayoutWrite {
    open spec fn squash_spec(earlier: LayoutWriteView, later: LayoutWriteView) -> Option<
        Option<LayoutWriteView>,
    > {
        squash_layout_writes(earlier, later)
    }

    open spec fn cancel_free(earlier: LayoutWriteView, later: LayoutWriteView) -> bool {
        squash_write_ops(earlier.op, later.op) matches Some(Some(_))
    }

    proof fn lemma_cancel_free_combines(earlier: LayoutWriteView, later: LayoutWriteView) {
    }

    proof fn lemma_squash_associative(
        first: LayoutWriteView,
        second: LayoutWriteView,
        third: LayoutWriteView,
    ) {
    }

    fn squash(self, later: Self) -> (result: Option<Option<Self>>) {
        match self.op.squash(later.op) {
            None => None,
            Some(None) => Some(None),
            Some(Some(op)) => Some(Some(LayoutWrite { op, layout: later.layout })),
        }
    }
}

} // verus!
