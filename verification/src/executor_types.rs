//! What the executor of blocks and chunks hands to consensus and to state
//! sync, and how a replay is told to verify what it executes.

use crate::keyed_map::{KeyedMap, MapKey};
use crate::transaction::{ExecutionStatus, TransactionStatus};
use crate::types::{ContractEvent, HashValue, StateKey};
use std::collections::BTreeSet;
use vstd::prelude::*;

verus! {

/// The place of a transaction in the ledger.
pub type Version = u64;

/// The hash that stands for an accumulator without leaves: the ASCII
/// characters of `ACCUMULATOR_PLACEHOLDER_HASH`, filled up with zero bytes.
pub open spec fn spec_accumulator_placeholder_hash() -> HashValue {
    HashValue {
        high: 0x4143_4355_4d55_4c41_544f_525f_504c_4143,
        low: 0x4548_4f4c_4445_525f_4841_5348_0000_0000,
    }
}

#[verifier::when_used_as_spec(spec_accumulator_placeholder_hash)]
pub fn accumulator_placeholder_hash() -> (result: HashValue)
    ensures
        result == spec_accumulator_placeholder_hash(),
{
    HashValue {
        high: 0x4143_4355_4d55_4c41_544f_525f_504c_4143,
        low: 0x4548_4f4c_4445_525f_4841_5348_0000_0000,
    }
}

/// The first `n` of the versions, as a set.
pub open spec fn first_versions(versions: Seq<Version>, n: usize) -> Set<Version> {
    versions.subrange(0, n as int).to_set()
}

/// The first none of the versions are no versions.
pub proof fn lemma_first_versions_none(versions: Seq<Version>)
    ensures
        first_versions(versions, 0) == Set::<Version>::empty(),
{
    assert(versions.subrange(0, 0).to_set() =~= Set::<Version>::empty());
}

/// One version more is one element more.
pub proof fn lemma_first_versions_next(versions: Seq<Version>, n: usize, next: usize)
    requires
        n < versions.len(),
        next == n + 1,
    ensures
        first_versions(versions, next) == first_versions(versions, n).insert(versions[n as int]),
{
    let head = versions.subrange(0, n as int);
    let head_next = versions.subrange(0, n as int + 1);
    assert(head_next =~= head.push(versions[n as int]));
    assert forall|v: Version| head_next.to_set().contains(v) <==> head.to_set().insert(
        versions[n as int],
    ).contains(v) by {
        if head_next.contains(v) {
            let j = choose|j: int| 0 <= j < head_next.len() && head_next[j] == v;
            if j < n {
                assert(head[j] == v);
            }
        }
        if head.contains(v) {
            let j = choose|j: int| 0 <= j < head.len() && head[j] == v;
            assert(head_next[j] == v);
        }
        if v == versions[n as int] {
            assert(head_next[n as int] == v);
        }
    }
    assert(head_next.to_set() =~= head.to_set().insert(versions[n as int]));
}

/// All of the versions are the versions.
pub proof fn lemma_first_versions_all(versions: Seq<Version>, n: usize)
    requires
        n == versions.len(),
    ensures
        first_versions(versions, n) == versions.to_set(),
{
    assert(versions.subrange(0, n as int) =~= versions);
}

/// Whether a replay compares what it executes with what is recorded, and
/// how.
pub enum VerifyExecutionMode {
    /// Nothing is compared.
    NoVerify,
    /// Every transaction is compared but those to skip.
    Verify {
        txns_to_skip: BTreeSet<Version>,
        /// Whether the replay goes on after the first difference.
        lazy_quit: bool,
        /// Whether a difference was found.
        seen_error: bool,
    },
}

impl VerifyExecutionMode {
    /// Compares every transaction.
    pub fn verify_all() -> (result: Self)
        ensures
            result matches VerifyExecutionMode::Verify { txns_to_skip, lazy_quit, seen_error }
                && txns_to_skip@ == Set::<Version>::empty() && !lazy_quit && !seen_error,
    {
        VerifyExecutionMode::Verify {
            txns_to_skip: BTreeSet::new(),
            lazy_quit: false,
            seen_error: false,
        }
    }

    /// Compares every transaction but the given ones.
    pub fn verify_except(txns_to_skip: Vec<Version>) -> (result: Self)
        ensures
            result matches VerifyExecutionMode::Verify { txns_to_skip: skipped, lazy_quit, seen_error }
                && skipped@ == txns_to_skip@.to_set() && !lazy_quit && !seen_error,
    {
        broadcast use vstd::std_specs::btree::group_btree_axioms;
        broadcast use vstd::laws_cmp::group_laws_cmp;

        let mut skipped: BTreeSet<Version> = BTreeSet::new();
        let mut i: usize = 0;
        proof {
            assert(vstd::laws_cmp::obeys_cmp::<u64>());
            lemma_first_versions_none(txns_to_skip@);
        }
        while i < txns_to_skip.len()
            invariant
                i <= txns_to_skip@.len(),
                vstd::laws_cmp::obeys_cmp::<u64>(),
                skipped@ == first_versions(txns_to_skip@, i),
            decreases txns_to_skip@.len() - i,
        {
            skipped.insert(txns_to_skip[i]);
            let next: usize = i + 1;
            proof {
                lemma_first_versions_next(txns_to_skip@, i, next);
            }
            i = next;
        }
        proof {
            lemma_first_versions_all(txns_to_skip@, i);
        }
        VerifyExecutionMode::Verify { txns_to_skip: skipped, lazy_quit: false, seen_error: false }
    }

    /// The transactions that are not compared.
    pub fn txns_to_skip(&self) -> (result: BTreeSet<Version>)
        ensures
            result@ == match *self {
                VerifyExecutionMode::NoVerify => Set::<Version>::empty(),
                VerifyExecutionMode::Verify { txns_to_skip, .. } => txns_to_skip@,
            },
    {
        match self {
            VerifyExecutionMode::NoVerify => BTreeSet::new(),
            VerifyExecutionMode::Verify { txns_to_skip, .. } => txns_to_skip.clone(),
        }
    }

    /// Says whether the replay goes on after the first difference. Where
    /// nothing is compared, this says nothing.
    pub fn set_lazy_quit(self, is_lazy_quit: bool) -> (result: Self)
        ensures
            result == match self {
                VerifyExecutionMode::NoVerify => VerifyExecutionMode::NoVerify,
                VerifyExecutionMode::Verify {
                    txns_to_skip,
                    seen_error,
                    ..
                } => VerifyExecutionMode::Verify {
                    txns_to_skip,
                    lazy_quit: is_lazy_quit,
                    seen_error,
                },
            },
    {
        match self {
            VerifyExecutionMode::NoVerify => VerifyExecutionMode::NoVerify,
            VerifyExecutionMode::Verify {
                txns_to_skip,
                seen_error,
                ..
            } => VerifyExecutionMode::Verify { txns_to_skip, lazy_quit: is_lazy_quit, seen_error },
        }
    }

    pub fn is_lazy_quit(&self) -> (result: bool)
        ensures
            result == match *self {
                VerifyExecutionMode::NoVerify => false,
                VerifyExecutionMode::Verify { lazy_quit, .. } => lazy_quit,
            },
    {
        match self {
            VerifyExecutionMode::NoVerify => false,
            VerifyExecutionMode::Verify { lazy_quit, .. } => *lazy_quit,
        }
    }

    /// Records that a difference was found. Only a mode that compares can
    /// find one.
    pub fn mark_seen_error(&mut self)
        requires
            *old(self) is Verify,
        ensures
            *final(self) == match *old(self) {
                VerifyExecutionMode::NoVerify => VerifyExecutionMode::NoVerify,
                VerifyExecutionMode::Verify {
                    txns_to_skip,
                    lazy_quit,
                    ..
                } => VerifyExecutionMode::Verify { txns_to_skip, lazy_quit, seen_error: true },
            },
    {
        match self {
            VerifyExecutionMode::NoVerify => {},
            VerifyExecutionMode::Verify { seen_error, .. } => {
                *seen_error = true;
            },
        }
    }

    pub fn should_verify(&self) -> (result: bool)
        ensures
            result == (*self is Verify),
    {
        match self {
            VerifyExecutionMode::NoVerify => false,
            VerifyExecutionMode::Verify { .. } => true,
        }
    }

    pub fn seen_error(&self) -> (result: bool)
        ensures
            result == match *self {
                VerifyExecutionMode::NoVerify => false,
                VerifyExecutionMode::Verify { seen_error, .. } => seen_error,
            },
    {
        match self {
            VerifyExecutionMode::NoVerify => false,
            VerifyExecutionMode::Verify { seen_error, .. } => *seen_error,
        }
    }
}

/// The epoch that begins when a block with a reconfiguration is committed.
#[derive(Clone, Copy, Debug, PartialEq, Eq, Structural)]
pub struct EpochState {
    pub epoch: u64,
}

/// What extends the accumulator of the parent block to that of the block.
#[derive(Clone, Debug, PartialEq, Eq)]
pub struct AccumulatorExtensionProof {
    pub frozen_subtree_roots: Vec<HashValue>,
    pub num_leaves: u64,
    pub leaves: Vec<HashValue>,
}

/// What consensus has to agree on after a block was executed. Not every
/// transaction of the block succeeds: `compute_status` says of each what
/// became of it.
#[derive(Clone, Debug, PartialEq, Eq)]
pub struct StateComputeResult {
    /// The root hash of the transaction accumulator after the block.
    root_hash: HashValue,
    /// The roots of the full subtrees of the accumulator after the block,
    /// from left to right.
    frozen_subtree_roots: Vec<HashValue>,
    /// The same of the parent block.
    parent_frozen_subtree_roots: Vec<HashValue>,
    /// The number of leaves of the accumulator after the block.
    num_leaves: u64,
    /// The same of the parent block.
    parent_num_leaves: u64,
    /// The epoch to change to when the block is committed, if any.
    epoch_state: Option<EpochState>,
    /// What became of each transaction.
    compute_status: Vec<TransactionStatus>,
    /// The hashes of the transaction infos of the transactions that are
    /// kept.
    transaction_info_hashes: Vec<HashValue>,
    reconfig_events: Vec<ContractEvent>,
}

/// A result as a mathematical value.
pub struct StateComputeResultView {
    pub root_hash: HashValue,
    pub frozen_subtree_roots: Seq<HashValue>,
    pub parent_frozen_subtree_roots: Seq<HashValue>,
    pub num_leaves: u64,
    pub parent_num_leaves: u64,
    pub epoch_state: Option<EpochState>,
    pub compute_status: Seq<TransactionStatus>,
    pub transaction_info_hashes: Seq<HashValue>,
    pub reconfig_events: Seq<ContractEvent>,
}

impl View for StateComputeResult {
    type V = StateComputeResultView;

    closed spec fn view(&self) -> StateComputeResultView {
        StateComputeResultView {
            root_hash: self.root_hash,
            frozen_subtree_roots: self.frozen_subtree_roots@,
            parent_frozen_subtree_roots: self.parent_frozen_subtree_roots@,
            num_leaves: self.num_leaves,
            parent_num_leaves: self.parent_num_leaves,
            epoch_state: self.epoch_state,
            compute_status: self.compute_status@,
            transaction_info_hashes: self.transaction_info_hashes@,
            reconfig_events: self.reconfig_events@,
        }
    }
}

/// `n` transactions, each kept as a success.
pub open spec fn successes(n: usize) -> Seq<TransactionStatus> {
    Seq::new(n as nat, |i: int| TransactionStatus::Keep(ExecutionStatus::Success))
}

/// The result that holds nothing but the given root hash.
pub open spec fn dummy_result(root_hash: HashValue) -> StateComputeResultView {
    StateComputeResultView {
        root_hash,
        frozen_subtree_roots: Seq::empty(),
        parent_frozen_subtree_roots: Seq::empty(),
        num_leaves: 0,
        parent_num_leaves: 0,
        epoch_state: None,
        compute_status: Seq::empty(),
        transaction_info_hashes: Seq::empty(),
        reconfig_events: Seq::empty(),
    }
}

impl StateComputeResult {
    pub fn new(
        root_hash: HashValue,
        frozen_subtree_roots: Vec<HashValue>,
        num_leaves: u64,
        parent_frozen_subtree_roots: Vec<HashValue>,
        parent_num_leaves: u64,
        epoch_state: Option<EpochState>,
        compute_status: Vec<TransactionStatus>,
        transaction_info_hashes: Vec<HashValue>,
        reconfig_events: Vec<ContractEvent>,
    ) -> (result: Self)
        ensures
            result@ == (StateComputeResultView {
                root_hash,
                frozen_subtree_roots: frozen_subtree_roots@,
                parent_frozen_subtree_roots: parent_frozen_subtree_roots@,
                num_leaves,
                parent_num_leaves,
                epoch_state,
                compute_status: compute_status@,
                transaction_info_hashes: transaction_info_hashes@,
                reconfig_events: reconfig_events@,
            }),
    {
        StateComputeResult {
            root_hash,
            frozen_subtree_roots,
            num_leaves,
            parent_frozen_subtree_roots,
            parent_num_leaves,
            epoch_state,
            compute_status,
            transaction_info_hashes,
            reconfig_events,
        }
    }

    /// A result that holds nothing but the given root hash, to show that a
    /// computation took place.
    pub fn new_dummy_with_root_hash(root_hash: HashValue) -> (result: Self)
        ensures
            result@ == dummy_result(root_hash),
    {
        StateComputeResult {
            root_hash,
            frozen_subtree_roots: Vec::new(),
            num_leaves: 0,
            parent_frozen_subtree_roots: Vec::new(),
            parent_num_leaves: 0,
            epoch_state: None,
            compute_status: Vec::new(),
            transaction_info_hashes: Vec::new(),
            reconfig_events: Vec::new(),
        }
    }

    /// A result for `num_txns` transactions, each kept as a success, with
    /// the zero hash as root.
    pub fn new_dummy_with_num_txns(num_txns: usize) -> (result: Self)
        ensures
            result@ == (StateComputeResultView {
                compute_status: successes(num_txns),
                ..dummy_result(HashValue::spec_zero())
            }),
    {
        let mut compute_status: Vec<TransactionStatus> = Vec::new();
        let mut i: usize = 0;
        while i < num_txns
            invariant
                i <= num_txns,
                compute_status@ == successes(i),
            decreases num_txns - i,
        {
            compute_status.push(TransactionStatus::Keep(ExecutionStatus::Success));
            let next: usize = i + 1;
            proof {
                assert(compute_status@ =~= successes(next));
            }
            i = next;
        }
        StateComputeResult {
            root_hash: HashValue::zero(),
            frozen_subtree_roots: Vec::new(),
            num_leaves: 0,
            parent_frozen_subtree_roots: Vec::new(),
            parent_num_leaves: 0,
            epoch_state: None,
            compute_status,
            transaction_info_hashes: Vec::new(),
            reconfig_events: Vec::new(),
        }
    }

    /// A result that stands in where the real one is computed later: it
    /// holds nothing but the placeholder hash as root.
    pub fn new_dummy() -> (result: Self)
        ensures
            result@ == dummy_result(spec_accumulator_placeholder_hash()),
    {
        StateComputeResult::new_dummy_with_root_hash(accumulator_placeholder_hash())
    }

    /// The same with the given statuses.
    pub fn new_dummy_with_compute_status(compute_status: Vec<TransactionStatus>) -> (result: Self)
        ensures
            result@ == (StateComputeResultView {
                compute_status: compute_status@,
                ..dummy_result(spec_accumulator_placeholder_hash())
            }),
    {
        let dummy = StateComputeResult::new_dummy();
        StateComputeResult {
            root_hash: dummy.root_hash,
            frozen_subtree_roots: dummy.frozen_subtree_roots,
            num_leaves: dummy.num_leaves,
            parent_frozen_subtree_roots: dummy.parent_frozen_subtree_roots,
            parent_num_leaves: dummy.parent_num_leaves,
            epoch_state: dummy.epoch_state,
            compute_status,
            transaction_info_hashes: dummy.transaction_info_hashes,
            reconfig_events: dummy.reconfig_events,
        }
    }

    /// The version of the last transaction: one less than the number of
    /// leaves, and zero where there is none.
    pub fn version(&self) -> (result: Version)
        ensures
            self@.num_leaves == 0 ==> result == 0,
            self@.num_leaves > 0 ==> result == self@.num_leaves - 1,
    {
        if self.num_leaves == 0 {
            0
        } else {
            self.num_leaves - 1
        }
    }

    pub fn root_hash(&self) -> (result: HashValue)
        ensures
            result == self@.root_hash,
    {
        self.root_hash
    }

    pub fn compute_status(&self) -> (result: &Vec<TransactionStatus>)
        ensures
            result@ == self@.compute_status,
    {
        &self.compute_status
    }

    pub fn epoch_state(&self) -> (result: &Option<EpochState>)
        ensures
            *result == self@.epoch_state,
    {
        &self.epoch_state
    }

    /// What extends the accumulator of the parent block to that of the
    /// block: the parent's frozen subtrees and number of leaves, and the
    /// hashes of the transactions that are kept.
    pub fn extension_proof(&self) -> (result: AccumulatorExtensionProof)
        ensures
            result.frozen_subtree_roots@ == self@.parent_frozen_subtree_roots,
            result.num_leaves == self@.parent_num_leaves,
            result.leaves@ == self@.transaction_info_hashes,
    {
        let frozen_subtree_roots = self.parent_frozen_subtree_roots.clone();
        let leaves = self.transaction_info_hashes.clone();
        proof {
            assert(frozen_subtree_roots@ =~= self.parent_frozen_subtree_roots@);
            assert(leaves@ =~= self.transaction_info_hashes@);
        }
        AccumulatorExtensionProof {
            frozen_subtree_roots,
            num_leaves: self.parent_num_leaves,
            leaves,
        }
    }

    pub fn transaction_info_hashes(&self) -> (result: &Vec<HashValue>)
        ensures
            result@ == self@.transaction_info_hashes,
    {
        &self.transaction_info_hashes
    }

    pub fn num_leaves(&self) -> (result: u64)
        ensures
            result == self@.num_leaves,
    {
        self.num_leaves
    }

    pub fn frozen_subtree_roots(&self) -> (result: &Vec<HashValue>)
        ensures
            result@ == self@.frozen_subtree_roots,
    {
        &self.frozen_subtree_roots
    }

    pub fn parent_num_leaves(&self) -> (result: u64)
        ensures
            result == self@.parent_num_leaves,
    {
        self.parent_num_leaves
    }

    pub fn parent_frozen_subtree_roots(&self) -> (result: &Vec<HashValue>)
        ensures
            result@ == self@.parent_frozen_subtree_roots,
    {
        &self.parent_frozen_subtree_roots
    }

    /// Whether committing the block changes the epoch.
    pub fn has_reconfiguration(&self) -> (result: bool)
        ensures
            result == (self@.epoch_state is Some),
    {
        self.epoch_state.is_some()
    }

    pub fn reconfig_events(&self) -> (result: &Vec<ContractEvent>)
        ensures
            result@ == self@.reconfig_events,
    {
        &self.reconfig_events
    }
}

impl View for HashValue {
    type V = HashValue;

    open spec fn view(&self) -> HashValue {
        *self
    }
}

impl MapKey for HashValue {
    fn key_eq(&self, other: &Self) -> (result: bool) {
        *self == *other
    }
}

/// What proves that a slot of the state holds what it holds.
#[derive(Clone, Debug, PartialEq, Eq)]
pub struct SparseMerkleProofExt {
    /// The key and the hash of the value of the leaf that the proof ends at,
    /// if it ends at one.
    pub leaf: Option<(HashValue, HashValue)>,
    /// The hashes beside the path, from the bottom up.
    pub siblings: Vec<HashValue>,
}

/// Something that proofs can be read from.
pub trait ProofRead {
    /// The proof for `key`, if it is held.
    fn get_proof(&self, key: HashValue) -> Option<&SparseMerkleProofExt>;
}

/// Proofs by the hash of the key they are for.
pub struct ProofReader {
    pub proofs: KeyedMap<HashValue, SparseMerkleProofExt>,
}

impl ProofReader {
    pub fn new(proofs: KeyedMap<HashValue, SparseMerkleProofExt>) -> (result: Self)
        ensures
            result.proofs == proofs,
    {
        ProofReader { proofs }
    }

    pub fn new_empty() -> (result: Self)
        ensures
            result.proofs@ == Map::<HashValue, SparseMerkleProofExt>::empty(),
    {
        ProofReader::new(KeyedMap::new())
    }
}

impl ProofRead for ProofReader {
    fn get_proof(&self, key: HashValue) -> (result: Option<&SparseMerkleProofExt>)
        ensures
            match result {
                Some(proof) => self.proofs@.contains_key(key) && *proof == self.proofs@[key],
                None => !self.proofs@.contains_key(key),
            },
    {
        self.proofs.get(&key)
    }
}

/// The state after a snapshot, as a difference.
pub struct StateSnapshotDelta {
    pub version: Version,
    /// The root of the tree that holds the state, in memory.
    pub smt_root: HashValue,
    /// The leaves to write: the hash of the key, and the hash of the value
    /// with the key.
    pub jmt_updates: Vec<(HashValue, (HashValue, StateKey))>,
}

/// What a chunk that was committed held.
pub struct ChunkCommitNotification<T> {
    pub committed_events: Vec<ContractEvent>,
    pub committed_transactions: Vec<T>,
    pub reconfiguration_occurred: bool,
}

/// Executes the chunks that state sync hands over.
pub trait ChunkExecutorTrait {
    /// Transactions with the proof of their place in the ledger.
    type TransactionListWithProof;

    /// Outputs of transactions with the proof of their place in the ledger.
    type TransactionOutputListWithProof;

    /// A ledger info with the signatures that vouch for it.
    type LedgerInfoWithSignatures;

    /// The transactions of a committed chunk.
    type Transaction;

    /// Why a step failed.
    type Error;

    /// Whether `outcome` is a way in which enqueueing these transactions
    /// for execution may end. How it ends depends on the ledger, which
    /// changes from call to call, so this says what may come, not what comes.
    open spec fn enqueues_by_execution(
        &self,
        txn_list_with_proof: Self::TransactionListWithProof,
        verified_target_li: &Self::LedgerInfoWithSignatures,
        epoch_change_li: Option<&Self::LedgerInfoWithSignatures>,
        outcome: Result<(), Self::Error>,
    ) -> bool {
        true
    }

    /// Whether `outcome` is a way in which enqueueing these outputs may
    /// end.
    open spec fn enqueues_by_transaction_outputs(
        &self,
        txn_output_list_with_proof: Self::TransactionOutputListWithProof,
        verified_target_li: &Self::LedgerInfoWithSignatures,
        epoch_change_li: Option<&Self::LedgerInfoWithSignatures>,
        outcome: Result<(), Self::Error>,
    ) -> bool {
        true
    }

    /// Whether `outcome` is a way in which computing the ledger may end.
    open spec fn updates_ledger(&self, outcome: Result<(), Self::Error>) -> bool {
        true
    }

    /// Verifies the transactions against the ledger info, executes them,
    /// and computes the ledger that results: the first step, then the
    /// second. A failure of the first step is the result, and the second step
    /// is not taken; else the result is that of the second step.
    fn execute_chunk(
        &self,
        txn_list_with_proof: Self::TransactionListWithProof,
        verified_target_li: &Self::LedgerInfoWithSignatures,
        epoch_change_li: Option<&Self::LedgerInfoWithSignatures>,
    ) -> (result: Result<(), Self::Error>)
        ensures
            exists|enqueued: Result<(), Self::Error>| #[trigger]
                self.enqueues_by_execution(
                    txn_list_with_proof,
                    verified_target_li,
                    epoch_change_li,
                    enqueued,
                ) && match enqueued {
                    Ok(_) => self.updates_ledger(result),
                    Err(error) => result == Err::<(), Self::Error>(error),
                },
    {
        match self.enqueue_chunk_by_execution(
            txn_list_with_proof,
            verified_target_li,
            epoch_change_li,
        ) {
            Ok(_) => self.update_ledger(),
            Err(error) => Err(error),
        }
    }

    /// The same for outputs, which are applied instead of executed.
    fn apply_chunk(
        &self,
        txn_output_list_with_proof: Self::TransactionOutputListWithProof,
        verified_target_li: &Self::LedgerInfoWithSignatures,
        epoch_change_li: Option<&Self::LedgerInfoWithSignatures>,
    ) -> (result: Result<(), Self::Error>)
        ensures
            exists|enqueued: Result<(), Self::Error>| #[trigger]
                self.enqueues_by_transaction_outputs(
                    txn_output_list_with_proof,
                    verified_target_li,
                    epoch_change_li,
                    enqueued,
                ) && match enqueued {
                    Ok(_) => self.updates_ledger(result),
                    Err(error) => result == Err::<(), Self::Error>(error),
                },
    {
        match self.enqueue_chunk_by_transaction_outputs(
            txn_output_list_with_proof,
            verified_target_li,
            epoch_change_li,
        ) {
            Ok(_) => self.update_ledger(),
            Err(error) => Err(error),
        }
    }

    /// Verifies the transactions against the ledger info and executes them
    /// up to the state checkpoint.
    fn enqueue_chunk_by_execution(
        &self,
        txn_list_with_proof: Self::TransactionListWithProof,
        verified_target_li: &Self::LedgerInfoWithSignatures,
        epoch_change_li: Option<&Self::LedgerInfoWithSignatures>,
    ) -> (result: Result<(), Self::Error>)
        ensures
            self.enqueues_by_execution(
                txn_list_with_proof,
                verified_target_li,
                epoch_change_li,
                result,
            ),
    ;

    /// The same for outputs, which are applied instead of executed.
    fn enqueue_chunk_by_transaction_outputs(
        &self,
        txn_output_list_with_proof: Self::TransactionOutputListWithProof,
        verified_target_li: &Self::LedgerInfoWithSignatures,
        epoch_change_li: Option<&Self::LedgerInfoWithSignatures>,
    ) -> (result: Result<(), Self::Error>)
        ensures
            self.enqueues_by_transaction_outputs(
                txn_output_list_with_proof,
                verified_target_li,
                epoch_change_li,
                result,
            ),
    ;

    /// Computes the ledger that results from what was enqueued.
    fn update_ledger(&self) -> (result: Result<(), Self::Error>)
        ensures
            self.updates_ledger(result),
    ;

    /// Commits the chunk that was executed.
    fn commit_chunk(&self) -> Result<ChunkCommitNotification<Self::Transaction>, Self::Error>;

    /// Takes the state from storage again.
    fn reset(&self) -> Result<(), Self::Error>;

    /// Lets go of what is held in memory.
    fn finish(&self);
}

/// Executes the blocks that consensus hands over.
pub trait BlockExecutorTrait {
    /// A block ready to be executed.
    type ExecutableBlock;

    /// What the execution of a block leaves up to the state checkpoint.
    type StateCheckpointOutput;

    /// The configuration of the block executor that the chain sets.
    type BlockExecutorConfigFromOnchain;

    /// A ledger info with the signatures that vouch for it.
    type LedgerInfoWithSignatures;

    /// Why a step failed.
    type Error;

    /// The block that was committed last.
    fn committed_block_id(&self) -> HashValue;

    /// Takes the committed block from storage again.
    fn reset(&self) -> Result<(), Self::Error>;

    /// The identifier that `block` carries.
    open spec fn id_of(block: Self::ExecutableBlock) -> HashValue {
        arbitrary()
    }

    /// Whether `outcome` is a way in which executing the block up to the
    /// state checkpoint may end. How it ends depends on the blocks executed
    /// before, so this says what may come, not what comes.
    open spec fn checkpoints(
        &self,
        block: Self::ExecutableBlock,
        parent_block_id: HashValue,
        onchain_config: Self::BlockExecutorConfigFromOnchain,
        outcome: Result<Self::StateCheckpointOutput, Self::Error>,
    ) -> bool {
        true
    }

    /// Whether `outcome` is a way in which computing the ledger after the
    /// block may end.
    open spec fn updates_ledger(
        &self,
        block_id: HashValue,
        parent_block_id: HashValue,
        state_checkpoint_output: Self::StateCheckpointOutput,
        outcome: Result<StateComputeResult, Self::Error>,
    ) -> bool {
        true
    }

    /// Whether `outcome` is a way in which committing the blocks may end.
    open spec fn commits(
        &self,
        block_ids: Vec<HashValue>,
        ledger_info_with_sigs: Self::LedgerInfoWithSignatures,
        save_state_snapshots: bool,
        outcome: Result<(), Self::Error>,
    ) -> bool {
        true
    }

    /// The identifier of `block`.
    fn block_id(block: &Self::ExecutableBlock) -> (result: HashValue)
        ensures
            result == Self::id_of(*block),
    ;

    /// Executes a block: up to the state checkpoint, then the ledger, under
    /// the identifier that the block carries. A failure of the first step is
    /// the result, and the second step is not taken; else the result is that
    /// of the second step on what the first step left.
    fn execute_block(
        &self,
        block: Self::ExecutableBlock,
        parent_block_id: HashValue,
        onchain_config: Self::BlockExecutorConfigFromOnchain,
    ) -> (result: Result<StateComputeResult, Self::Error>)
        ensures
            exists|checkpoint: Result<Self::StateCheckpointOutput, Self::Error>| #[trigger]
                self.checkpoints(block, parent_block_id, onchain_config, checkpoint) && match checkpoint {
                    Ok(state_checkpoint_output) => self.updates_ledger(
                        Self::id_of(block),
                        parent_block_id,
                        state_checkpoint_output,
                        result,
                    ),
                    Err(error) => result == Err::<StateComputeResult, Self::Error>(error),
                },
    {
        let block_id = Self::block_id(&block);
        match self.execute_and_state_checkpoint(block, parent_block_id, onchain_config) {
            Ok(state_checkpoint_output) => self.ledger_update(
                block_id,
                parent_block_id,
                state_checkpoint_output,
            ),
            Err(error) => Err(error),
        }
    }

    /// Executes a block up to the state checkpoint.
    fn execute_and_state_checkpoint(
        &self,
        block: Self::ExecutableBlock,
        parent_block_id: HashValue,
        onchain_config: Self::BlockExecutorConfigFromOnchain,
    ) -> (result: Result<Self::StateCheckpointOutput, Self::Error>)
        ensures
            self.checkpoints(block, parent_block_id, onchain_config, result),
    ;

    /// Computes the ledger after the block.
    fn ledger_update(
        &self,
        block_id: HashValue,
        parent_block_id: HashValue,
        state_checkpoint_output: Self::StateCheckpointOutput,
    ) -> (result: Result<StateComputeResult, Self::Error>)
        ensures
            self.updates_ledger(block_id, parent_block_id, state_checkpoint_output, result),
    ;

    /// Commits the blocks and all their ancestors, and saves snapshots of
    /// the state if asked to.
    fn commit_blocks_ext(
        &self,
        block_ids: Vec<HashValue>,
        ledger_info_with_sigs: Self::LedgerInfoWithSignatures,
        save_state_snapshots: bool,
    ) -> (result: Result<(), Self::Error>)
        ensures
            self.commits(block_ids, ledger_info_with_sigs, save_state_snapshots, result),
    ;

    /// Commits the blocks and all their ancestors, and saves snapshots of
    /// the state.
    fn commit_blocks(
        &self,
        block_ids: Vec<HashValue>,
        ledger_info_with_sigs: Self::LedgerInfoWithSignatures,
    ) -> (result: Result<(), Self::Error>)
        ensures
            self.commits(block_ids, ledger_info_with_sigs, true, result),
    {
        self.commit_blocks_ext(block_ids, ledger_info_with_sigs, true)
    }

    /// Lets go of what is held in memory.
    fn finish(&self);
}

/// Replays transactions that were executed before.
pub trait TransactionReplayer {
    /// A transaction.
    type Transaction;

    /// What is recorded of a transaction.
    type TransactionInfo;

    /// What a transaction wrote.
    type WriteSet;

    /// The chunk that a replay leaves.
    type ExecutedChunk;

    /// Why a step failed.
    type Error;

    /// Replays the transactions and compares the outcome with what is
    /// recorded, as the mode says.
    fn replay(
        &self,
        transactions: Vec<Self::Transaction>,
        transaction_infos: Vec<Self::TransactionInfo>,
        write_sets: Vec<Self::WriteSet>,
        event_vecs: Vec<Vec<ContractEvent>>,
        verify_execution_mode: &VerifyExecutionMode,
    ) -> Result<(), Self::Error>;

    /// Commits what was replayed.
    fn commit(&self) -> Result<Self::ExecutedChunk, Self::Error>;
}

} // verus!
