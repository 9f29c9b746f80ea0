//! A discarded transaction leaves no trace: step by step, whenever the
//! pipeline ends with an output whose status is a discard, the output writes
//! nothing, holds no event, and charges nothing.

use crate::aptos_vm::{AptosVM, Pipeline, ViewCall};
use crate::change_set::{empty_change_set, no_aggregator_writes, VMChangeSet};
use crate::request::{Event, GasReading, InitFunction, ModuleProbe, RequestOf, RequestView};
use crate::transaction::{
    AbortInfo, BlockMetadata, CompiledModule, EntryFunction, ExecutionStatus, FeeStatement,
    ModuleBundle, MultisigTransactionPayload, PublishRequest, SignatureVerifiedTransaction,
    Transaction, WriteSetPayload, WriteSetScript,
};
use crate::types::AccountAddress;
use crate::vm_status::{AbortLocation, VMStatus};
use vstd::prelude::*;

verus! {

/// Whether the request, if it is an output that is discarded, writes
/// nothing, holds no event and charges nothing.
pub open spec fn discard_is_pure<S>(state: S, step: (Pipeline, RequestView)) -> bool {
    match step.1 {
        RequestOf::Finished { output, .. } => output.status is Discard ==> output.change_set
            == empty_change_set() && output.fee_statement == FeeStatement::spec_zero(),
        _ => true,
    }
}

/// A discarded output is empty after `finish_discarded`.
proof fn lemma_discard_purity_finish_discarded()
    ensures
        forall|state: Pipeline, vm_status: VMStatus|
            discard_is_pure(state, #[trigger] state.spec_finish_discarded(vm_status)),
{
}

/// A discarded output is empty after `give_up`.
proof fn lemma_discard_purity_give_up()
    ensures
        forall|state: Pipeline, vm_status: VMStatus|
            discard_is_pure(state, #[trigger] state.spec_give_up(vm_status)),
{
}

/// A discarded output is empty after `protocol_violation`.
proof fn lemma_discard_purity_protocol_violation()
    ensures
        forall|state: Pipeline| discard_is_pure(state, #[trigger] state.spec_protocol_violation()),
{
}

/// A discarded output is empty after `decode_fetched_payload`.
proof fn lemma_discard_purity_decode_fetched_payload()
    ensures
        forall|state: Pipeline, decoded: Option<Seq<u8>>|
            discard_is_pure(state, #[trigger] state.spec_decode_fetched_payload(decoded)),
{
    lemma_discard_purity_on_user_transaction_execution_failure();
}

/// A discarded output is empty after `prologue_failed`.
proof fn lemma_discard_purity_prologue_failed()
    ensures
        forall|state: Pipeline, error: VMStatus|
            discard_is_pure(state, #[trigger] state.spec_prologue_failed(error)),
{
    lemma_discard_purity_finish_discarded();
}

/// A discarded output is empty after `validate_signed_transaction`.
proof fn lemma_discard_purity_validate_signed_transaction()
    ensures
        forall|state: Pipeline|
            discard_is_pure(state, #[trigger] state.spec_validate_signed_transaction()),
{
    lemma_discard_purity_prologue_failed();
    lemma_discard_purity_run_prologue_with_payload();
}

/// A discarded output is empty after `run_prologue_with_payload`.
proof fn lemma_discard_purity_run_prologue_with_payload()
    ensures
        forall|state: Pipeline|
            discard_is_pure(state, #[trigger] state.spec_run_prologue_with_payload()),
{
    lemma_discard_purity_prologue_failed();
}

/// A discarded output is empty after `after_check_gas`.
proof fn lemma_discard_purity_after_check_gas()
    ensures
        forall|state: Pipeline, outcome: Result<(), VMStatus>|
            discard_is_pure(state, #[trigger] state.spec_after_check_gas(outcome)),
{
    lemma_discard_purity_prologue_failed();
}

/// A discarded output is empty after `after_prologue`.
proof fn lemma_discard_purity_after_prologue()
    ensures
        forall|state: Pipeline, outcome: Result<(), VMStatus>|
            discard_is_pure(state, #[trigger] state.spec_after_prologue(outcome)),
{
    lemma_discard_purity_prologue_failed();
    lemma_discard_purity_prologue_passed();
}

/// A discarded output is empty after `after_multisig_prologue`.
proof fn lemma_discard_purity_after_multisig_prologue()
    ensures
        forall|state: Pipeline, outcome: Result<(), VMStatus>|
            discard_is_pure(state, #[trigger] state.spec_after_multisig_prologue(outcome)),
{
    lemma_discard_purity_prologue_failed();
    lemma_discard_purity_prologue_passed();
}

/// A discarded output is empty after `prologue_passed`.
proof fn lemma_discard_purity_prologue_passed()
    ensures
        forall|state: Pipeline|
            discard_is_pure(state, #[trigger] state.spec_prologue_passed()),
{
    lemma_discard_purity_create_sponsored_account();
}

/// A discarded output is empty after `create_sponsored_account`.
proof fn lemma_discard_purity_create_sponsored_account()
    ensures
        forall|state: Pipeline|
            discard_is_pure(state, #[trigger] state.spec_create_sponsored_account()),
{
    lemma_discard_purity_dispatch_payload();
}

/// A discarded output is empty after `after_create_account`.
proof fn lemma_discard_purity_after_create_account()
    ensures
        forall|state: Pipeline, outcome: Result<Vec<Vec<u8>>, VMStatus>|
            discard_is_pure(state, #[trigger] state.spec_after_create_account(outcome)),
{
    lemma_discard_purity_finish_discarded();
    lemma_discard_purity_dispatch_payload();
}

/// A discarded output is empty after `dispatch_payload`.
proof fn lemma_discard_purity_dispatch_payload()
    ensures
        forall|state: Pipeline|
            discard_is_pure(state, #[trigger] state.spec_dispatch_payload()),
{
    lemma_discard_purity_finish_discarded();
    lemma_discard_purity_simulate_multisig_transaction();
    lemma_discard_purity_charge_intrinsic_gas();
    lemma_discard_purity_on_user_transaction_execution_failure();
}

/// A discarded output is empty after `charge_intrinsic_gas`.
proof fn lemma_discard_purity_charge_intrinsic_gas()
    ensures
        forall|state: Pipeline|
            discard_is_pure(state, #[trigger] state.spec_charge_intrinsic_gas()),
{
}

/// A discarded output is empty after `simulate_multisig_transaction`.
proof fn lemma_discard_purity_simulate_multisig_transaction()
    ensures
        forall|state: Pipeline|
            discard_is_pure(state, #[trigger] state.spec_simulate_multisig_transaction()),
{
    lemma_discard_purity_on_user_transaction_execution_failure();
    lemma_discard_purity_execute_multisig_entry_function();
    lemma_discard_purity_protocol_violation();
}

/// A discarded output is empty after `after_charge_intrinsic_gas`.
proof fn lemma_discard_purity_after_charge_intrinsic_gas()
    ensures
        forall|state: Pipeline, outcome: Result<(), VMStatus>|
            discard_is_pure(state, #[trigger] state.spec_after_charge_intrinsic_gas(outcome)),
{
    lemma_discard_purity_on_user_transaction_execution_failure();
    lemma_discard_purity_execute_script_or_entry_function();
    lemma_discard_purity_execute_multisig_transaction();
    lemma_discard_purity_execute_modules();
}

/// A discarded output is empty after `validate_and_execute_entry_function`.
proof fn lemma_discard_purity_validate_and_execute_entry_function()
    ensures
        forall|state: Pipeline, senders: Seq<AccountAddress>, entry_function: EntryFunction|
            discard_is_pure(
                state,
                #[trigger] state.spec_validate_and_execute_entry_function(senders, entry_function),
            ),
{
}

/// A discarded output is empty after `execute_script_or_entry_function`.
proof fn lemma_discard_purity_execute_script_or_entry_function()
    ensures
        forall|state: Pipeline|
            discard_is_pure(state, #[trigger] state.spec_execute_script_or_entry_function()),
{
    lemma_discard_purity_validate_and_execute_entry_function();
    lemma_discard_purity_on_user_transaction_execution_failure();
}

/// A discarded output is empty after `execute_multisig_transaction`.
proof fn lemma_discard_purity_execute_multisig_transaction()
    ensures
        forall|state: Pipeline|
            discard_is_pure(state, #[trigger] state.spec_execute_multisig_transaction()),
{
    lemma_discard_purity_fetch_multisig_payload();
    lemma_discard_purity_protocol_violation();
}

/// A discarded output is empty after `execute_modules`.
proof fn lemma_discard_purity_execute_modules()
    ensures
        forall|state: Pipeline|
            discard_is_pure(state, #[trigger] state.spec_execute_modules()),
{
    lemma_discard_purity_protocol_violation();
}

/// A discarded output is empty after `after_encode_multisig_payload`.
proof fn lemma_discard_purity_after_encode_multisig_payload()
    ensures
        forall|state: Pipeline, encoded: Option<Vec<u8>>|
            discard_is_pure(state, #[trigger] state.spec_after_encode_multisig_payload(encoded)),
{
    lemma_discard_purity_on_user_transaction_execution_failure();
    lemma_discard_purity_fetch_multisig_payload();
}

/// A discarded output is empty after `fetch_multisig_payload`.
proof fn lemma_discard_purity_fetch_multisig_payload()
    ensures
        forall|state: Pipeline, provided_payload: Seq<u8>|
            discard_is_pure(state, #[trigger] state.spec_fetch_multisig_payload(provided_payload)),
{
    lemma_discard_purity_protocol_violation();
}

/// A discarded output is empty after `after_fetch_multisig_payload`.
proof fn lemma_discard_purity_after_fetch_multisig_payload()
    ensures
        forall|state: Pipeline, outcome: Result<Vec<Vec<u8>>, VMStatus>|
            discard_is_pure(state, #[trigger] state.spec_after_fetch_multisig_payload(outcome)),
{
    lemma_discard_purity_on_user_transaction_execution_failure();
    lemma_discard_purity_decode_fetched_payload();
}

/// A discarded output is empty after `after_decode_multisig_payload`.
proof fn lemma_discard_purity_after_decode_multisig_payload()
    ensures
        forall|state: Pipeline, payload_bytes: Vec<u8>, payload: Option<MultisigTransactionPayload>|
            discard_is_pure(
                state,
                #[trigger] state.spec_after_decode_multisig_payload(payload_bytes, payload),
            ),
{
    lemma_discard_purity_on_user_transaction_execution_failure();
    lemma_discard_purity_execute_multisig_entry_function();
    lemma_discard_purity_protocol_violation();
}

/// A discarded output is empty after `execute_multisig_entry_function`.
proof fn lemma_discard_purity_execute_multisig_entry_function()
    ensures
        forall|state: Pipeline, multisig_address: AccountAddress, entry_function: EntryFunction|
            discard_is_pure(
                state,
                #[trigger] state.spec_execute_multisig_entry_function(
                    multisig_address,
                    entry_function,
                ),
            ),
{
    lemma_discard_purity_validate_and_execute_entry_function();
}

/// A discarded output is empty after `after_execute_payload`.
proof fn lemma_discard_purity_after_execute_payload()
    ensures
        forall|state: Pipeline, outcome: Result<(), VMStatus>|
            discard_is_pure(state, #[trigger] state.spec_after_execute_payload(outcome)),
{
    lemma_discard_purity_payload_failed();
    lemma_discard_purity_resolve_pending_code_publish();
}

/// A discarded output is empty after `resolve_pending_code_publish`.
proof fn lemma_discard_purity_resolve_pending_code_publish()
    ensures
        forall|state: Pipeline|
            discard_is_pure(state, #[trigger] state.spec_resolve_pending_code_publish()),
{
}

/// A discarded output is empty after `payload_failed`.
proof fn lemma_discard_purity_payload_failed()
    ensures
        forall|state: Pipeline, error: VMStatus|
            discard_is_pure(state, #[trigger] state.spec_payload_failed(error)),
{
    lemma_discard_purity_failure_multisig_payload_cleanup();
    lemma_discard_purity_on_user_transaction_execution_failure();
}

/// A discarded output is empty after `failure_multisig_payload_cleanup`.
proof fn lemma_discard_purity_failure_multisig_payload_cleanup()
    ensures
        forall|state: Pipeline, error: VMStatus|
            discard_is_pure(state, #[trigger] state.spec_failure_multisig_payload_cleanup(error)),
{
}

/// A discarded output is empty after `after_respawn_for_cleanup`.
proof fn lemma_discard_purity_after_respawn_for_cleanup()
    ensures
        forall|state: Pipeline, error: VMStatus|
            discard_is_pure(state, #[trigger] state.spec_after_respawn_for_cleanup(error)),
{
    lemma_discard_purity_on_user_transaction_execution_failure();
    lemma_discard_purity_protocol_violation();
}

/// A discarded output is empty after `after_extract_publish_request`.
proof fn lemma_discard_purity_after_extract_publish_request()
    ensures
        forall|state: Pipeline, request: Option<PublishRequest>|
            discard_is_pure(state, #[trigger] state.spec_after_extract_publish_request(request)),
{
    lemma_discard_purity_publish_resolved();
    lemma_discard_purity_deserialize_module_bundle();
}

/// A discarded output is empty after `deserialize_module_bundle`.
proof fn lemma_discard_purity_deserialize_module_bundle()
    ensures
        forall|state: Pipeline, bundle: ModuleBundle|
            discard_is_pure(state, #[trigger] state.spec_deserialize_module_bundle(bundle)),
{
}

/// A discarded output is empty after `after_deserialize_published_bundle`.
proof fn lemma_discard_purity_after_deserialize_published_bundle()
    ensures
        forall|state: Pipeline, bundle: ModuleBundle, modules: Option<Vec<CompiledModule>>|
            discard_is_pure(
                state,
                #[trigger] state.spec_after_deserialize_published_bundle(bundle, modules),
            ),
{
    lemma_discard_purity_payload_failed();
    lemma_discard_purity_validate_publish_request();
    lemma_discard_purity_protocol_violation();
}

/// A discarded output is empty after `validate_publish_request`.
proof fn lemma_discard_purity_validate_publish_request()
    ensures
        forall|state: Pipeline, index: usize|
            discard_is_pure(state, #[trigger] state.spec_validate_publish_request(index)),
{
    lemma_discard_purity_payload_failed();
}

/// A discarded output is empty after `after_verify_module_metadata`.
proof fn lemma_discard_purity_after_verify_module_metadata()
    ensures
        forall|state: Pipeline, index: usize, outcome: Result<(), VMStatus>|
            discard_is_pure(
                state,
                #[trigger] state.spec_after_verify_module_metadata(index, outcome),
            ),
{
    lemma_discard_purity_payload_failed();
    lemma_discard_purity_validate_publish_request();
    lemma_discard_purity_protocol_violation();
}

/// A discarded output is empty after `after_validate_resource_groups`.
proof fn lemma_discard_purity_after_validate_resource_groups()
    ensures
        forall|state: Pipeline, outcome: Result<(), VMStatus>|
            discard_is_pure(state, #[trigger] state.spec_after_validate_resource_groups(outcome)),
{
    lemma_discard_purity_payload_failed();
}

/// A discarded output is empty after `after_validate_module_events`.
proof fn lemma_discard_purity_after_validate_module_events()
    ensures
        forall|state: Pipeline, outcome: Result<(), VMStatus>|
            discard_is_pure(state, #[trigger] state.spec_after_validate_module_events(outcome)),
{
    lemma_discard_purity_payload_failed();
}

/// A discarded output is empty after `after_exists_modules`.
proof fn lemma_discard_purity_after_exists_modules()
    ensures
        forall|state: Pipeline, outcome: Result<Vec<bool>, VMStatus>|
            discard_is_pure(state, #[trigger] state.spec_after_exists_modules(outcome)),
{
    lemma_discard_purity_payload_failed();
    lemma_discard_purity_protocol_violation();
}

/// A discarded output is empty after `after_publish_bundle`.
proof fn lemma_discard_purity_after_publish_bundle()
    ensures
        forall|state: Pipeline, outcome: Result<(), VMStatus>|
            discard_is_pure(state, #[trigger] state.spec_after_publish_bundle(outcome)),
{
    lemma_discard_purity_payload_failed();
    lemma_discard_purity_execute_module_initialization();
}

/// A discarded output is empty after `execute_module_initialization`.
proof fn lemma_discard_purity_execute_module_initialization()
    ensures
        forall|state: Pipeline, index: usize|
            discard_is_pure(state, #[trigger] state.spec_execute_module_initialization(index)),
{
    lemma_discard_purity_publish_resolved();
}

/// A discarded output is empty after `after_probe_init_module`.
proof fn lemma_discard_purity_after_probe_init_module()
    ensures
        forall|state: Pipeline, index: usize, probe: InitFunction|
            discard_is_pure(state, #[trigger] state.spec_after_probe_init_module(index, probe)),
{
    lemma_discard_purity_execute_module_initialization();
    lemma_discard_purity_protocol_violation();
    lemma_discard_purity_payload_failed();
}

/// A discarded output is empty after `after_execute_init_module`.
proof fn lemma_discard_purity_after_execute_init_module()
    ensures
        forall|state: Pipeline, index: usize, outcome: Result<Vec<Vec<u8>>, VMStatus>|
            discard_is_pure(state, #[trigger] state.spec_after_execute_init_module(index, outcome)),
{
    lemma_discard_purity_payload_failed();
    lemma_discard_purity_execute_module_initialization();
    lemma_discard_purity_protocol_violation();
}

/// A discarded output is empty after `publish_resolved`.
proof fn lemma_discard_purity_publish_resolved()
    ensures
        forall|state: Pipeline|
            discard_is_pure(state, #[trigger] state.spec_publish_resolved()),
{
    lemma_discard_purity_charge_change_set_and_respawn_session();
}

/// A discarded output is empty after `charge_change_set_and_respawn_session`.
proof fn lemma_discard_purity_charge_change_set_and_respawn_session()
    ensures
        forall|state: Pipeline|
            discard_is_pure(state, #[trigger] state.spec_charge_change_set_and_respawn_session()),
{
}

/// A discarded output is empty after `after_finish_session`.
proof fn lemma_discard_purity_after_finish_session()
    ensures
        forall|state: Pipeline, outcome: Result<VMChangeSet, VMStatus>|
            discard_is_pure(state, #[trigger] state.spec_after_finish_session(outcome)),
{
    lemma_discard_purity_on_user_transaction_execution_failure();
}

/// A discarded output is empty after `after_charge_change_set`.
proof fn lemma_discard_purity_after_charge_change_set()
    ensures
        forall|state: Pipeline, outcome: Result<(VMChangeSet, u64), VMStatus>|
            discard_is_pure(state, #[trigger] state.spec_after_charge_change_set(outcome)),
{
    lemma_discard_purity_on_user_transaction_execution_failure();
}

/// A discarded output is empty after `after_respawn`.
proof fn lemma_discard_purity_after_respawn()
    ensures
        forall|state: Pipeline|
            discard_is_pure(state, #[trigger] state.spec_after_respawn()),
{
    lemma_discard_purity_success_multisig_payload_cleanup();
    lemma_discard_purity_success_transaction_cleanup();
}

/// A discarded output is empty after `success_multisig_payload_cleanup`.
proof fn lemma_discard_purity_success_multisig_payload_cleanup()
    ensures
        forall|state: Pipeline|
            discard_is_pure(state, #[trigger] state.spec_success_multisig_payload_cleanup()),
{
    lemma_discard_purity_protocol_violation();
}

/// A discarded output is empty after `after_multisig_cleanup`.
proof fn lemma_discard_purity_after_multisig_cleanup()
    ensures
        forall|state: Pipeline, outcome: Result<Vec<Vec<u8>>, VMStatus>|
            discard_is_pure(state, #[trigger] state.spec_after_multisig_cleanup(outcome)),
{
    lemma_discard_purity_on_user_transaction_execution_failure();
    lemma_discard_purity_success_transaction_cleanup();
}

/// A discarded output is empty after `success_transaction_cleanup`.
proof fn lemma_discard_purity_success_transaction_cleanup()
    ensures
        forall|state: Pipeline|
            discard_is_pure(state, #[trigger] state.spec_success_transaction_cleanup()),
{
}

/// A discarded output is empty after `after_read_gas_meter`.
proof fn lemma_discard_purity_after_read_gas_meter()
    ensures
        forall|state: Pipeline, consistency: Result<(), VMStatus>, reading: GasReading|
            (reading.balance <= state.numbers.max_gas_amount) ==>
                discard_is_pure(
                    state,
                    #[trigger] state.spec_after_read_gas_meter(consistency, reading),
                ),
{
    lemma_discard_purity_on_user_transaction_execution_failure();
    lemma_discard_purity_run_success_epilogue();
}

/// A discarded output is empty after `run_success_epilogue`.
proof fn lemma_discard_purity_run_success_epilogue()
    ensures
        forall|state: Pipeline, reading: GasReading|
            (reading.balance <= state.numbers.max_gas_amount) ==>
                discard_is_pure(state, #[trigger] state.spec_run_success_epilogue(reading)),
{
}

/// A discarded output is empty after `after_success_epilogue`.
proof fn lemma_discard_purity_after_success_epilogue()
    ensures
        forall|state: Pipeline, fee_statement: FeeStatement, outcome: Result<(), VMStatus>|
            discard_is_pure(
                state,
                #[trigger] state.spec_after_success_epilogue(fee_statement, outcome),
            ),
{
    lemma_discard_purity_on_user_transaction_execution_failure();
}

/// A discarded output is empty after `after_finish_respawned_session`.
proof fn lemma_discard_purity_after_finish_respawned_session()
    ensures
        forall|state: Pipeline, fee_statement: FeeStatement, outcome: Result<VMChangeSet, VMStatus>|
            discard_is_pure(
                state,
                #[trigger] state.spec_after_finish_respawned_session(fee_statement, outcome),
            ),
{
    lemma_discard_purity_on_user_transaction_execution_failure();
}

/// A discarded output is empty after `on_user_transaction_execution_failure`.
proof fn lemma_discard_purity_on_user_transaction_execution_failure()
    ensures
        forall|state: Pipeline, error: VMStatus|
            discard_is_pure(
                state,
                #[trigger] state.spec_on_user_transaction_execution_failure(error),
            ),
{
    lemma_discard_purity_keep_or_discard_failure();
}

/// A discarded output is empty after `keep_or_discard_failure`.
proof fn lemma_discard_purity_keep_or_discard_failure()
    ensures
        forall|state: Pipeline, error: VMStatus|
            discard_is_pure(state, #[trigger] state.spec_keep_or_discard_failure(error)),
{
    lemma_discard_purity_finish_discarded();
    lemma_discard_purity_failed_transaction_cleanup_and_keep_vm_status();
}

/// A discarded output is empty after `failed_transaction_cleanup_and_keep_vm_status`.
proof fn lemma_discard_purity_failed_transaction_cleanup_and_keep_vm_status()
    ensures
        forall|state: Pipeline, error: VMStatus|
            discard_is_pure(
                state,
                #[trigger] state.spec_failed_transaction_cleanup_and_keep_vm_status(error),
            ),
{
}

/// A discarded output is empty after `after_read_gas_meter_after_failure`.
proof fn lemma_discard_purity_after_read_gas_meter_after_failure()
    ensures
        forall|state: Pipeline, error: VMStatus, reading: GasReading|
            (reading.balance <= state.numbers.max_gas_amount) ==>
                discard_is_pure(
                    state,
                    #[trigger] state.spec_after_read_gas_meter_after_failure(error, reading),
                ),
{
}

/// A discarded output is empty after `after_open_epilogue_session`.
proof fn lemma_discard_purity_after_open_epilogue_session()
    ensures
        forall|state: Pipeline, error: VMStatus, gas_remaining: u64, fee_statement: FeeStatement|
            discard_is_pure(
                state,
                #[trigger] state.spec_after_open_epilogue_session(
                    error,
                    gas_remaining,
                    fee_statement,
                ),
            ),
{
    lemma_discard_purity_run_failure_epilogue();
    lemma_discard_purity_finish_discarded();
    lemma_discard_purity_protocol_violation();
}

/// A discarded output is empty after `after_extract_abort_info`.
proof fn lemma_discard_purity_after_extract_abort_info()
    ensures
        forall|
            state: Pipeline,
            error: VMStatus,
            gas_remaining: u64,
            fee_statement: FeeStatement,
            location: AbortLocation,
            code: u64,
            info: Option<AbortInfo>,
        |
            discard_is_pure(
                state,
                #[trigger] state.spec_after_extract_abort_info(
                    error,
                    gas_remaining,
                    fee_statement,
                    location,
                    code,
                    info,
                ),
            ),
{
    lemma_discard_purity_run_failure_epilogue();
}

/// A discarded output is empty after `run_failure_epilogue`.
proof fn lemma_discard_purity_run_failure_epilogue()
    ensures
        forall|
            state: Pipeline,
            error: VMStatus,
            gas_remaining: u64,
            fee_statement: FeeStatement,
            status: ExecutionStatus,
        |
            discard_is_pure(
                state,
                #[trigger] state.spec_run_failure_epilogue(
                    error,
                    gas_remaining,
                    fee_statement,
                    status,
                ),
            ),
{
}

/// A discarded output is empty after `after_failure_epilogue`.
proof fn lemma_discard_purity_after_failure_epilogue()
    ensures
        forall|
            state: Pipeline,
            error: VMStatus,
            fee_statement: FeeStatement,
            status: ExecutionStatus,
            outcome: Result<(), VMStatus>,
        |
            discard_is_pure(
                state,
                #[trigger] state.spec_after_failure_epilogue(error, fee_statement, status, outcome),
            ),
{
    lemma_discard_purity_finish_discarded();
}

/// A discarded output is empty after `after_finish_failed_session`.
proof fn lemma_discard_purity_after_finish_failed_session()
    ensures
        forall|
            state: Pipeline,
            error: VMStatus,
            fee_statement: FeeStatement,
            status: ExecutionStatus,
            outcome: Result<VMChangeSet, VMStatus>,
        |
            discard_is_pure(
                state,
                #[trigger] state.spec_after_finish_failed_session(
                    error,
                    fee_statement,
                    status,
                    outcome,
                ),
            ),
{
}

/// A discarded output is empty after `after_probe_module_bundle`.
proof fn lemma_discard_purity_after_probe_module_bundle()
    ensures
        forall|state: Pipeline, bundle: ModuleBundle, probes: Vec<ModuleProbe>|
            discard_is_pure(state, #[trigger] state.spec_after_probe_module_bundle(bundle, probes)),
{
    lemma_discard_purity_on_user_transaction_execution_failure();
    lemma_discard_purity_deserialize_module_bundle();
}

/// A discarded output is empty after `after_deserialize_module_bundle`.
proof fn lemma_discard_purity_after_deserialize_module_bundle()
    ensures
        forall|state: Pipeline, bundle: ModuleBundle, modules: Option<Vec<CompiledModule>>|
            discard_is_pure(
                state,
                #[trigger] state.spec_after_deserialize_module_bundle(bundle, modules),
            ),
{
    lemma_discard_purity_protocol_violation();
}

/// A discarded output is empty after `execute_user_transaction_impl`.
proof fn lemma_discard_purity_execute_user_transaction_impl()
    ensures
        forall|state: Pipeline|
            discard_is_pure(state, #[trigger] state.spec_execute_user_transaction_impl()),
{
}

/// A discarded output is empty after `after_open_block_session`.
proof fn lemma_discard_purity_after_open_block_session()
    ensures
        forall|state: Pipeline, block_metadata: BlockMetadata|
            discard_is_pure(state, #[trigger] state.spec_after_open_block_session(block_metadata)),
{
}

/// A discarded output is empty after `after_block_prologue`.
proof fn lemma_discard_purity_after_block_prologue()
    ensures
        forall|state: Pipeline, outcome: Result<Vec<Vec<u8>>, VMStatus>|
            discard_is_pure(state, #[trigger] state.spec_after_block_prologue(outcome)),
{
    lemma_discard_purity_give_up();
}

/// A discarded output is empty after `after_finish_system_session`.
proof fn lemma_discard_purity_after_finish_system_session()
    ensures
        forall|state: Pipeline, outcome: Result<VMChangeSet, VMStatus>|
            discard_is_pure(state, #[trigger] state.spec_after_finish_system_session(outcome)),
{
    lemma_discard_purity_give_up();
}

/// A discarded output is empty after `after_open_genesis_session`.
proof fn lemma_discard_purity_after_open_genesis_session()
    ensures
        forall|state: Pipeline, script: WriteSetScript|
            discard_is_pure(state, #[trigger] state.spec_after_open_genesis_session(script)),
{
}

/// A discarded output is empty after `after_genesis_script`.
proof fn lemma_discard_purity_after_genesis_script()
    ensures
        forall|state: Pipeline, outcome: Result<(), VMStatus>|
            discard_is_pure(state, #[trigger] state.spec_after_genesis_script(outcome)),
{
    lemma_discard_purity_give_up();
}

/// A discarded output is empty after `after_finish_genesis_session`.
proof fn lemma_discard_purity_after_finish_genesis_session()
    ensures
        forall|state: Pipeline, outcome: Result<VMChangeSet, VMStatus>|
            (outcome matches Ok(change_set) ==> no_aggregator_writes(change_set@)) ==>
                discard_is_pure(state, #[trigger] state.spec_after_finish_genesis_session(outcome)),
{
    lemma_discard_purity_give_up();
    lemma_discard_purity_validate_waypoint_change_set();
}

/// A discarded output is empty after `validate_waypoint_change_set`.
proof fn lemma_discard_purity_validate_waypoint_change_set()
    ensures
        forall|state: Pipeline, change_set: VMChangeSet|
            (no_aggregator_writes(change_set@)) ==>
                discard_is_pure(
                    state,
                    #[trigger] state.spec_validate_waypoint_change_set(change_set),
                ),
{
    lemma_discard_purity_give_up();
}

/// A discarded output is empty after `after_read_change_set`.
proof fn lemma_discard_purity_after_read_change_set()
    ensures
        forall|state: Pipeline, change_set: VMChangeSet, outcome: Result<(), VMStatus>|
            discard_is_pure(
                state,
                #[trigger] state.spec_after_read_change_set(change_set, outcome),
            ),
{
    lemma_discard_purity_give_up();
}

/// A discarded output is empty after `after_make_view_gas_meter`.
proof fn lemma_discard_purity_after_make_view_gas_meter()
    ensures
        forall|state: Pipeline, call: ViewCall|
            discard_is_pure(state, #[trigger] state.spec_after_make_view_gas_meter(call)),
{
}

/// A discarded output is empty after `after_open_view_session`.
proof fn lemma_discard_purity_after_open_view_session()
    ensures
        forall|state: Pipeline, call: ViewCall|
            discard_is_pure(state, #[trigger] state.spec_after_open_view_session(call)),
{
}

/// A discarded output is empty after `after_view_function`.
proof fn lemma_discard_purity_after_view_function()
    ensures
        forall|state: Pipeline, outcome: Result<Vec<Vec<u8>>, VMStatus>|
            discard_is_pure(state, #[trigger] state.spec_after_view_function(outcome)),
{
}

/// A discarded output is empty after `step`.
#[verifier::rlimit(60)]
#[verifier::spinoff_prover]
proof fn lemma_discard_purity_step()
    ensures
        forall|state: Pipeline, event: Event|
            (state.spec_accepts(event)) ==>
                discard_is_pure(state, #[trigger] state.spec_step(event)),
{
    lemma_discard_purity_execute_user_transaction_impl();
    lemma_discard_purity_validate_signed_transaction();
    lemma_discard_purity_after_check_gas();
    lemma_discard_purity_after_prologue();
    lemma_discard_purity_after_multisig_prologue();
    lemma_discard_purity_create_sponsored_account();
    lemma_discard_purity_after_create_account();
    lemma_discard_purity_after_charge_intrinsic_gas();
    lemma_discard_purity_after_execute_payload();
    lemma_discard_purity_after_encode_multisig_payload();
    lemma_discard_purity_after_fetch_multisig_payload();
    lemma_discard_purity_after_decode_multisig_payload();
    lemma_discard_purity_after_probe_module_bundle();
    lemma_discard_purity_after_deserialize_module_bundle();
    lemma_discard_purity_after_extract_publish_request();
    lemma_discard_purity_after_deserialize_published_bundle();
    lemma_discard_purity_after_verify_module_metadata();
    lemma_discard_purity_after_validate_resource_groups();
    lemma_discard_purity_after_validate_module_events();
    lemma_discard_purity_after_exists_modules();
    lemma_discard_purity_after_publish_bundle();
    lemma_discard_purity_after_probe_init_module();
    lemma_discard_purity_after_execute_init_module();
    lemma_discard_purity_after_finish_session();
    lemma_discard_purity_after_charge_change_set();
    lemma_discard_purity_after_respawn();
    lemma_discard_purity_failure_multisig_payload_cleanup();
    lemma_discard_purity_after_respawn_for_cleanup();
    lemma_discard_purity_after_multisig_cleanup();
    lemma_discard_purity_after_read_gas_meter();
    lemma_discard_purity_after_success_epilogue();
    lemma_discard_purity_after_finish_respawned_session();
    lemma_discard_purity_keep_or_discard_failure();
    lemma_discard_purity_after_read_gas_meter_after_failure();
    lemma_discard_purity_after_open_epilogue_session();
    lemma_discard_purity_after_extract_abort_info();
    lemma_discard_purity_after_failure_epilogue();
    lemma_discard_purity_after_finish_failed_session();
    lemma_discard_purity_after_open_block_session();
    lemma_discard_purity_after_block_prologue();
    lemma_discard_purity_after_finish_system_session();
    lemma_discard_purity_after_open_genesis_session();
    lemma_discard_purity_after_genesis_script();
    lemma_discard_purity_after_finish_genesis_session();
    lemma_discard_purity_after_read_change_set();
    lemma_discard_purity_after_make_view_gas_meter();
    lemma_discard_purity_after_open_view_session();
    lemma_discard_purity_after_view_function();
    lemma_discard_purity_protocol_violation();
}

/// A discarded transaction leaves no trace: whenever a step ends the
/// pipeline with an output whose status is a discard, the output writes
/// nothing, holds no event, and charges nothing.
pub proof fn law_discard_purity(pipeline: Pipeline, event: Event)
    requires
        pipeline.spec_accepts(event),
    ensures
        discard_is_pure(pipeline, pipeline.spec_step(event)),
{
    lemma_discard_purity_step();
}

/// The same of the first step of any transaction.
pub proof fn law_discard_purity_at_start(vm: AptosVM, txn: SignatureVerifiedTransaction)
    requires
        !vm.is_simulation,
        txn matches SignatureVerifiedTransaction::Valid(
            Transaction::GenesisTransaction(WriteSetPayload::Direct(change_set)),
        ) ==> no_aggregator_writes(change_set@),
    ensures
        discard_is_pure(vm, vm.spec_execute_single_transaction(txn)),
{
    lemma_discard_purity_finish_discarded();
    lemma_discard_purity_give_up();
    lemma_discard_purity_validate_waypoint_change_set();
}

} // verus!
