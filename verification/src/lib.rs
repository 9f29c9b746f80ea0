//! Transaction execution core of an Aptos-style node.
//!
//! The crate holds the decisions of the per-transaction pipeline, the change
//! set with its squash, the overlay that answers reads from a pending change
//! set before the base state, and the block-level bookkeeping around them.
//! The Move runtime, the gas meter and the base state are collaborators: the
//! pipeline is a transition function that names the next operation to perform
//! against them and takes its outcome back as an event.

pub mod aggregator;
pub mod algebra;
pub mod aptos_vm;
pub mod batch_requester;
pub mod bcs_codec;
pub mod block;
pub mod change_set;
pub mod config;
pub mod delayed_change;
pub mod discard_purity;
pub mod executor_types;
pub mod keyed_map;
pub mod knobs;
pub mod laws;
pub mod multisig_cleanup;
pub mod output;
pub mod past_payload;
pub mod pipeline;
pub mod publish;
pub mod request;
pub mod resolver;
pub mod respawned_session;
pub mod squash;
pub mod squash_laws;
pub mod transaction;
pub mod types;
pub mod vm_status;
pub mod write_op;
