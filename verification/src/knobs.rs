//! The switches of the process. Each is set at most once, when the node
//! starts, and read by every worker after that; a later attempt to set it
//! changes nothing.

use crate::aptos_vm::AptosVM;
use once_cell::sync::OnceCell;
use std::sync::atomic::AtomicBool;
use vstd::prelude::*;

verus! {

/// The cell of the `once_cell` crate that can be written once.
#[verifier::external_type_specification]
#[verifier::external_body]
#[verifier::reject_recursive_types(T)]
pub struct ExOnceCell<T>(OnceCell<T>);

/// Calls `OnceCell::set`. A cell that is full hands the value back; what an
/// empty cell holds afterwards is not stated here.
#[verifier::external_body]
fn once_set<T>(cell: &OnceCell<T>, value: T) -> (result: Result<(), T>)
    ensures
        match result {
            Ok(_) => true,
            Err(refused) => refused == value,
        },
{
    cell.set(value)
}

/// Calls `OnceCell::get` and copies what the cell holds, if it is full.
#[verifier::external_body]
fn once_get<T: Copy>(cell: &OnceCell<T>) -> Option<T> {
    cell.get().copied()
}

/// Calls `num_cpus::get`: the number of CPUs that are available, which is
/// at least one.
#[verifier::external_body]
fn available_cpus() -> (result: usize)
    ensures
        result >= 1,
{
    num_cpus::get()
}

/// Which timed features are on whatever the time is.
#[derive(Clone, Copy, Debug, PartialEq, Eq, Structural)]
pub enum TimedFeatureOverride {
    Replay,
    Testing,
}

/// The switches of the process.
pub struct ProcessKnobs {
    pub execution_concurrency_level: OnceCell<usize>,
    pub num_execution_shard: OnceCell<usize>,
    pub num_proof_reading_threads: OnceCell<usize>,
    pub paranoid_type_checks: OnceCell<bool>,
    pub processed_transactions_detailed_counters: OnceCell<bool>,
    pub timed_feature_override: OnceCell<TimedFeatureOverride>,
    /// Whether publishing by module bundle is refused.
    pub module_bundle_disallowed: AtomicBool,
}

/// The most threads that read proofs.
pub const MAX_NUM_PROOF_READING_THREADS: usize = 256;

/// The concurrency level that is set when `requested` is asked for on a
/// machine with `cpus` CPUs: no more than there are CPUs.
pub fn concurrency_level_to_set(requested: usize, cpus: usize) -> (result: usize)
    ensures
        result == if requested <= cpus {
            requested
        } else {
            cpus
        },
{
    if requested <= cpus {
        requested
    } else {
        cpus
    }
}

/// The number of shards that is set when `requested` is asked for: at
/// least one.
pub fn num_shards_to_set(requested: usize) -> (result: usize)
    ensures
        result == if requested >= 1 {
            requested
        } else {
            1
        },
{
    if requested >= 1 {
        requested
    } else {
        1
    }
}

/// The number of threads that read proofs that is set when `requested` is
/// asked for: no more than 256.
pub fn num_proof_reading_threads_to_set(requested: usize) -> (result: usize)
    ensures
        result == if requested <= MAX_NUM_PROOF_READING_THREADS {
            requested
        } else {
            MAX_NUM_PROOF_READING_THREADS
        },
{
    if requested <= MAX_NUM_PROOF_READING_THREADS {
        requested
    } else {
        MAX_NUM_PROOF_READING_THREADS
    }
}

/// What a switch says: what it was set to, or the default where it was
/// never set.
pub fn setting_or<T>(setting: Option<T>, default: T) -> (result: T)
    ensures
        result == match setting {
            Some(value) => value,
            None => default,
        },
{
    match setting {
        Some(value) => value,
        None => default,
    }
}

/// Allows publishing by module bundle, for tests.
pub fn allow_module_bundle_for_test(knobs: &ProcessKnobs) {
    knobs.module_bundle_disallowed.store(false, std::sync::atomic::Ordering::Relaxed);
}

/// Whether publishing by module bundle is refused.
pub fn module_bundle_disallowed(knobs: &ProcessKnobs) -> bool {
    knobs.module_bundle_disallowed.load(std::sync::atomic::Ordering::Relaxed)
}

impl AptosVM {
    /// Sets the concurrency level of execution, if it was not set before:
    /// to what is asked for, but to no more than there are CPUs.
    pub fn set_concurrency_level_once(knobs: &ProcessKnobs, concurrency_level: usize) {
        let level = concurrency_level_to_set(concurrency_level, available_cpus());
        let _ = once_set(&knobs.execution_concurrency_level, level);
    }

    /// The concurrency level of execution: 1, which is sequential
    /// execution, where it was never set.
    pub fn get_concurrency_level(knobs: &ProcessKnobs) -> usize {
        setting_or(once_get(&knobs.execution_concurrency_level), 1)
    }

    /// Sets the number of shards, if it was not set before: to what is
    /// asked for, but to at least one.
    pub fn set_num_shards_once(knobs: &ProcessKnobs, num_shards: usize) {
        let _ = once_set(&knobs.num_execution_shard, num_shards_to_set(num_shards));
    }

    /// The number of shards: 1 where it was never set.
    pub fn get_num_shards(knobs: &ProcessKnobs) -> usize {
        setting_or(once_get(&knobs.num_execution_shard), 1)
    }

    /// Switches the paranoid type checks on or off, if that was not done
    /// before.
    pub fn set_paranoid_type_checks(knobs: &ProcessKnobs, enable: bool) {
        let _ = once_set(&knobs.paranoid_type_checks, enable);
    }

    /// Whether the paranoid type checks are on: they are where nothing was
    /// set.
    pub fn get_paranoid_checks(knobs: &ProcessKnobs) -> bool {
        setting_or(once_get(&knobs.paranoid_type_checks), true)
    }

    /// Sets which timed features are on whatever the time is, if that was
    /// not set before.
    pub fn set_timed_feature_override(knobs: &ProcessKnobs, profile: TimedFeatureOverride) {
        let _ = once_set(&knobs.timed_feature_override, profile);
    }

    /// Which timed features are on whatever the time is, if that was set.
    pub fn get_timed_feature_override(knobs: &ProcessKnobs) -> Option<TimedFeatureOverride> {
        once_get(&knobs.timed_feature_override)
    }

    /// Sets the number of threads that read proofs, if it was not set
    /// before: to what is asked for, but to no more than 256.
    pub fn set_num_proof_reading_threads_once(knobs: &ProcessKnobs, num_threads: usize) {
        let _ = once_set(
            &knobs.num_proof_reading_threads,
            num_proof_reading_threads_to_set(num_threads),
        );
    }

    /// The number of threads that read proofs: 32 where it was never set.
    pub fn get_num_proof_reading_threads(knobs: &ProcessKnobs) -> usize {
        setting_or(once_get(&knobs.num_proof_reading_threads), 32)
    }

    /// Switches the detailed counters of processed transactions on, if
    /// nothing was said of them before.
    pub fn set_processed_transactions_detailed_counters(knobs: &ProcessKnobs) {
        let _ = once_set(&knobs.processed_transactions_detailed_counters, true);
    }

    /// Whether the detailed counters of processed transactions are on:
    /// they are not where nothing was set.
    pub fn get_processed_transactions_detailed_counters(knobs: &ProcessKnobs) -> bool {
        setting_or(once_get(&knobs.processed_transactions_detailed_counters), false)
    }
}

} // verus!
