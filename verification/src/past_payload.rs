//! Once the payload of a transaction is behind the pipeline, it stays
//! behind: no step after that runs or publishes code of the user again. This
//! is what makes a rejected publish request final, and the failure of the
//! payload of a multisig account invisible in what is written.

use crate::aptos_vm::{Pipeline, Stage, ViewCall};
use crate::change_set::{empty_change_set, no_aggregator_writes, VMChangeSet};
use crate::request::{
    Event, GasReading, InitFunction, ModuleProbe, RequestOf, RequestView, SystemCallOf,
};
use crate::transaction::{
    AbortInfo, BlockMetadata, CompiledModule, EntryFunction, ExecutionStatus, FeeStatement,
    ModuleBundle, MultisigTransactionPayload, PublishRequest, WriteSetScript,
};
use crate::types::AccountAddress;
use crate::vm_status::{AbortLocation, StatusCode, VMStatus};
use crate::output::VMOutputView;
use crate::publish::{allowed_map, dependencies_allowed, module_registered};
use crate::aptos_vm::PendingPublish;
use vstd::prelude::*;

verus! {

/// Whether the pipeline waits for something that comes after the payload.
pub open spec fn past_payload(stage: Stage) -> bool {
    match stage {
        Stage::FinishingSession
        | Stage::ChargingChangeSet
        | Stage::Respawning
        | Stage::InvalidatingCacheForCleanup { .. }
        | Stage::RespawningForCleanup { .. }
        | Stage::RunningMultisigCleanup
        | Stage::ReadingGasMeter
        | Stage::RunningSuccessEpilogue { .. }
        | Stage::FinishingRespawnedSession { .. }
        | Stage::InvalidatingCache { .. }
        | Stage::ReadingGasMeterAfterFailure { .. }
        | Stage::OpeningEpilogueSession { .. }
        | Stage::ExtractingAbortInfo { .. }
        | Stage::RunningFailureEpilogue { .. }
        | Stage::FinishingFailedSession { .. }
        | Stage::Done => true,
        _ => false,
    }
}

/// Whether the request runs or publishes code of the user.
pub open spec fn runs_user_code(request: RequestView) -> bool {
    match request {
        RequestOf::ExecuteScript { .. }
        | RequestOf::ExecuteEntryFunction { .. }
        | RequestOf::PublishModuleBundle { .. }
        | RequestOf::ExecuteSystemFunction { call: SystemCallOf::InitModule { .. }, .. } => true,
        _ => false,
    }
}

/// Whether the step leaves the pipeline past the payload, with a request
/// that runs no code of the user.
pub open spec fn stays_past_payload(state: Pipeline, step: (Pipeline, RequestView)) -> bool {
    &&& past_payload(step.0.stage)
    &&& !runs_user_code(step.1)
    &&& state.payload_bytes is None ==> step.0.payload_bytes is None
}

/// Whether the request tells a multisig account how its payload went.
pub open spec fn is_multisig_cleanup(request: RequestView) -> bool {
    match request {
        RequestOf::ExecuteSystemFunction {
            call: SystemCallOf::SuccessfulTransactionExecutionCleanup { .. },
            ..
        }
        | RequestOf::ExecuteSystemFunction {
            call: SystemCallOf::FailedTransactionExecutionCleanup { .. },
            ..
        } => true,
        _ => false,
    }
}

/// Whether the step, if it tells a multisig account how its payload went,
/// gives away the bytes of the payload, which the pipeline held.
pub open spec fn cleanup_gives_bytes_away(state: Pipeline, step: (Pipeline, RequestView)) -> bool {
    is_multisig_cleanup(step.1) ==> state.payload_bytes is Some && step.0.payload_bytes is None
        && step.0.stage == Stage::RunningMultisigCleanup
}

/// Nothing is told to a multisig account by `finish`.
proof fn lemma_cleanup_finish()
    ensures
        forall|state: Pipeline, vm_status: VMStatus, output: VMOutputView|
            cleanup_gives_bytes_away(state, #[trigger] state.spec_finish(vm_status, output)),
{
}

/// Nothing is told to a multisig account by `finish_discarded`.
proof fn lemma_cleanup_finish_discarded()
    ensures
        forall|state: Pipeline, vm_status: VMStatus|
            cleanup_gives_bytes_away(state, #[trigger] state.spec_finish_discarded(vm_status)),
{
}

/// Nothing is told to a multisig account by `give_up`.
proof fn lemma_cleanup_give_up()
    ensures
        forall|state: Pipeline, vm_status: VMStatus|
            cleanup_gives_bytes_away(state, #[trigger] state.spec_give_up(vm_status)),
{
}

/// Nothing is told to a multisig account by `protocol_violation`.
proof fn lemma_cleanup_protocol_violation()
    ensures
        forall|state: Pipeline|
            cleanup_gives_bytes_away(state, #[trigger] state.spec_protocol_violation()),
{
}

/// Nothing is told to a multisig account by `decode_fetched_payload`.
proof fn lemma_cleanup_decode_fetched_payload()
    ensures
        forall|state: Pipeline, decoded: Option<Seq<u8>>|
            cleanup_gives_bytes_away(state, #[trigger] state.spec_decode_fetched_payload(decoded)),
{
    lemma_cleanup_on_user_transaction_execution_failure();
}

/// The pipeline stays past the payload after `finish`.
proof fn lemma_past_payload_finish()
    ensures
        forall|state: Pipeline, vm_status: VMStatus, output: VMOutputView|
            stays_past_payload(state, #[trigger] state.spec_finish(vm_status, output)),
{
}

/// The pipeline stays past the payload after `finish_discarded`.
proof fn lemma_past_payload_finish_discarded()
    ensures
        forall|state: Pipeline, vm_status: VMStatus|
            stays_past_payload(state, #[trigger] state.spec_finish_discarded(vm_status)),
{
}

/// The pipeline stays past the payload after `protocol_violation`.
proof fn lemma_past_payload_protocol_violation()
    ensures
        forall|state: Pipeline| stays_past_payload(
            state,
            #[trigger] state.spec_protocol_violation(),
        ),
{
}


/// The pipeline stays past the payload after `payload_failed`.
proof fn lemma_past_payload_payload_failed()
    ensures
        forall|state: Pipeline, error: VMStatus|
            stays_past_payload(state, #[trigger] state.spec_payload_failed(error)),
{
    lemma_past_payload_failure_multisig_payload_cleanup();
    lemma_past_payload_on_user_transaction_execution_failure();
}

/// The pipeline stays past the payload after `failure_multisig_payload_cleanup`.
proof fn lemma_past_payload_failure_multisig_payload_cleanup()
    ensures
        forall|state: Pipeline, error: VMStatus|
            stays_past_payload(
                state,
                #[trigger] state.spec_failure_multisig_payload_cleanup(error),
            ),
{
}

/// The pipeline stays past the payload after `after_respawn_for_cleanup`.
proof fn lemma_past_payload_after_respawn_for_cleanup()
    ensures
        forall|state: Pipeline, error: VMStatus|
            stays_past_payload(state, #[trigger] state.spec_after_respawn_for_cleanup(error)),
{
    lemma_past_payload_on_user_transaction_execution_failure();
    lemma_past_payload_protocol_violation();
}

/// The pipeline stays past the payload after `after_finish_session`.
proof fn lemma_past_payload_after_finish_session()
    ensures
        forall|state: Pipeline, outcome: Result<VMChangeSet, VMStatus>|
            stays_past_payload(state, #[trigger] state.spec_after_finish_session(outcome)),
{
    lemma_past_payload_on_user_transaction_execution_failure();
}

/// The pipeline stays past the payload after `after_charge_change_set`.
proof fn lemma_past_payload_after_charge_change_set()
    ensures
        forall|state: Pipeline, outcome: Result<(VMChangeSet, u64), VMStatus>|
            stays_past_payload(state, #[trigger] state.spec_after_charge_change_set(outcome)),
{
    lemma_past_payload_on_user_transaction_execution_failure();
}

/// The pipeline stays past the payload after `after_respawn`.
proof fn lemma_past_payload_after_respawn()
    ensures
        forall|state: Pipeline|
            stays_past_payload(state, #[trigger] state.spec_after_respawn()),
{
    lemma_past_payload_success_multisig_payload_cleanup();
    lemma_past_payload_success_transaction_cleanup();
}

/// The pipeline stays past the payload after `success_multisig_payload_cleanup`.
proof fn lemma_past_payload_success_multisig_payload_cleanup()
    ensures
        forall|state: Pipeline|
            stays_past_payload(state, #[trigger] state.spec_success_multisig_payload_cleanup()),
{
    lemma_past_payload_protocol_violation();
}

/// The pipeline stays past the payload after `after_multisig_cleanup`.
proof fn lemma_past_payload_after_multisig_cleanup()
    ensures
        forall|state: Pipeline, outcome: Result<Vec<Vec<u8>>, VMStatus>|
            stays_past_payload(state, #[trigger] state.spec_after_multisig_cleanup(outcome)),
{
    lemma_past_payload_on_user_transaction_execution_failure();
    lemma_past_payload_success_transaction_cleanup();
}

/// The pipeline stays past the payload after `success_transaction_cleanup`.
proof fn lemma_past_payload_success_transaction_cleanup()
    ensures
        forall|state: Pipeline|
            stays_past_payload(state, #[trigger] state.spec_success_transaction_cleanup()),
{
}

/// The pipeline stays past the payload after `after_read_gas_meter`.
proof fn lemma_past_payload_after_read_gas_meter()
    ensures
        forall|state: Pipeline, consistency: Result<(), VMStatus>, reading: GasReading|
            (reading.balance <= state.numbers.max_gas_amount) ==>
                stays_past_payload(
                    state,
                    #[trigger] state.spec_after_read_gas_meter(consistency, reading),
                ),
{
    lemma_past_payload_on_user_transaction_execution_failure();
    lemma_past_payload_run_success_epilogue();
}

/// The pipeline stays past the payload after `run_success_epilogue`.
proof fn lemma_past_payload_run_success_epilogue()
    ensures
        forall|state: Pipeline, reading: GasReading|
            (reading.balance <= state.numbers.max_gas_amount) ==>
                stays_past_payload(state, #[trigger] state.spec_run_success_epilogue(reading)),
{
}

/// The pipeline stays past the payload after `after_success_epilogue`.
proof fn lemma_past_payload_after_success_epilogue()
    ensures
        forall|state: Pipeline, fee_statement: FeeStatement, outcome: Result<(), VMStatus>|
            stays_past_payload(
                state,
                #[trigger] state.spec_after_success_epilogue(fee_statement, outcome),
            ),
{
    lemma_past_payload_on_user_transaction_execution_failure();
}

/// The pipeline stays past the payload after `after_finish_respawned_session`.
proof fn lemma_past_payload_after_finish_respawned_session()
    ensures
        forall|state: Pipeline, fee_statement: FeeStatement, outcome: Result<VMChangeSet, VMStatus>|
            stays_past_payload(
                state,
                #[trigger] state.spec_after_finish_respawned_session(fee_statement, outcome),
            ),
{
    lemma_past_payload_on_user_transaction_execution_failure();
    lemma_past_payload_finish();
}

/// The pipeline stays past the payload after `on_user_transaction_execution_failure`.
proof fn lemma_past_payload_on_user_transaction_execution_failure()
    ensures
        forall|state: Pipeline, error: VMStatus|
            stays_past_payload(
                state,
                #[trigger] state.spec_on_user_transaction_execution_failure(error),
            ),
{
    lemma_past_payload_keep_or_discard_failure();
}

/// The pipeline stays past the payload after `keep_or_discard_failure`.
proof fn lemma_past_payload_keep_or_discard_failure()
    ensures
        forall|state: Pipeline, error: VMStatus|
            stays_past_payload(state, #[trigger] state.spec_keep_or_discard_failure(error)),
{
    lemma_past_payload_finish_discarded();
    lemma_past_payload_failed_transaction_cleanup_and_keep_vm_status();
}

/// The pipeline stays past the payload after `failed_transaction_cleanup_and_keep_vm_status`.
proof fn lemma_past_payload_failed_transaction_cleanup_and_keep_vm_status()
    ensures
        forall|state: Pipeline, error: VMStatus|
            stays_past_payload(
                state,
                #[trigger] state.spec_failed_transaction_cleanup_and_keep_vm_status(error),
            ),
{
}

/// The pipeline stays past the payload after `after_read_gas_meter_after_failure`.
proof fn lemma_past_payload_after_read_gas_meter_after_failure()
    ensures
        forall|state: Pipeline, error: VMStatus, reading: GasReading|
            (reading.balance <= state.numbers.max_gas_amount) ==>
                stays_past_payload(
                    state,
                    #[trigger] state.spec_after_read_gas_meter_after_failure(error, reading),
                ),
{
}

/// The pipeline stays past the payload after `after_open_epilogue_session`.
proof fn lemma_past_payload_after_open_epilogue_session()
    ensures
        forall|state: Pipeline, error: VMStatus, gas_remaining: u64, fee_statement: FeeStatement|
            stays_past_payload(
                state,
                #[trigger] state.spec_after_open_epilogue_session(
                    error,
                    gas_remaining,
                    fee_statement,
                ),
            ),
{
    lemma_past_payload_run_failure_epilogue();
    lemma_past_payload_finish_discarded();
    lemma_past_payload_protocol_violation();
}

/// The pipeline stays past the payload after `after_extract_abort_info`.
proof fn lemma_past_payload_after_extract_abort_info()
    ensures
        forall|
            state: Pipeline,
            error: VMStatus,
            gas_remaining: u64,
            fee_statement: FeeStatement,
            location: AbortLocation,
            code: u64,
            info: Option<AbortInfo>,
        |
            stays_past_payload(
                state,
                #[trigger] state.spec_after_extract_abort_info(
                    error,
                    gas_remaining,
                    fee_statement,
                    location,
                    code,
                    info,
                ),
            ),
{
    lemma_past_payload_run_failure_epilogue();
}

/// The pipeline stays past the payload after `run_failure_epilogue`.
proof fn lemma_past_payload_run_failure_epilogue()
    ensures
        forall|
            state: Pipeline,
            error: VMStatus,
            gas_remaining: u64,
            fee_statement: FeeStatement,
            status: ExecutionStatus,
        |
            stays_past_payload(
                state,
                #[trigger] state.spec_run_failure_epilogue(
                    error,
                    gas_remaining,
                    fee_statement,
                    status,
                ),
            ),
{
}

/// The pipeline stays past the payload after `after_failure_epilogue`.
proof fn lemma_past_payload_after_failure_epilogue()
    ensures
        forall|
            state: Pipeline,
            error: VMStatus,
            fee_statement: FeeStatement,
            status: ExecutionStatus,
            outcome: Result<(), VMStatus>,
        |
            stays_past_payload(
                state,
                #[trigger] state.spec_after_failure_epilogue(error, fee_statement, status, outcome),
            ),
{
    lemma_past_payload_finish_discarded();
}

/// The pipeline stays past the payload after `after_finish_failed_session`.
proof fn lemma_past_payload_after_finish_failed_session()
    ensures
        forall|
            state: Pipeline,
            error: VMStatus,
            fee_statement: FeeStatement,
            status: ExecutionStatus,
            outcome: Result<VMChangeSet, VMStatus>,
        |
            stays_past_payload(
                state,
                #[trigger] state.spec_after_finish_failed_session(
                    error,
                    fee_statement,
                    status,
                    outcome,
                ),
            ),
{
    lemma_past_payload_finish();
}

/// A multisig account is told only once by `prologue_failed`.
proof fn lemma_cleanup_prologue_failed()
    ensures
        forall|state: Pipeline, error: VMStatus|
            cleanup_gives_bytes_away(state, #[trigger] state.spec_prologue_failed(error)),
{
    lemma_cleanup_finish_discarded();
}

/// A multisig account is told only once by `validate_signed_transaction`.
proof fn lemma_cleanup_validate_signed_transaction()
    ensures
        forall|state: Pipeline|
            cleanup_gives_bytes_away(state, #[trigger] state.spec_validate_signed_transaction()),
{
    lemma_cleanup_prologue_failed();
    lemma_cleanup_run_prologue_with_payload();
}

/// A multisig account is told only once by `run_prologue_with_payload`.
proof fn lemma_cleanup_run_prologue_with_payload()
    ensures
        forall|state: Pipeline|
            cleanup_gives_bytes_away(state, #[trigger] state.spec_run_prologue_with_payload()),
{
    lemma_cleanup_prologue_failed();
}

/// A multisig account is told only once by `after_check_gas`.
proof fn lemma_cleanup_after_check_gas()
    ensures
        forall|state: Pipeline, outcome: Result<(), VMStatus>|
            cleanup_gives_bytes_away(state, #[trigger] state.spec_after_check_gas(outcome)),
{
    lemma_cleanup_prologue_failed();
}

/// A multisig account is told only once by `after_prologue`.
proof fn lemma_cleanup_after_prologue()
    ensures
        forall|state: Pipeline, outcome: Result<(), VMStatus>|
            cleanup_gives_bytes_away(state, #[trigger] state.spec_after_prologue(outcome)),
{
    lemma_cleanup_prologue_failed();
    lemma_cleanup_prologue_passed();
}

/// A multisig account is told only once by `after_multisig_prologue`.
proof fn lemma_cleanup_after_multisig_prologue()
    ensures
        forall|state: Pipeline, outcome: Result<(), VMStatus>|
            cleanup_gives_bytes_away(state, #[trigger] state.spec_after_multisig_prologue(outcome)),
{
    lemma_cleanup_prologue_failed();
    lemma_cleanup_prologue_passed();
}

/// A multisig account is told only once by `prologue_passed`.
proof fn lemma_cleanup_prologue_passed()
    ensures
        forall|state: Pipeline|
            cleanup_gives_bytes_away(state, #[trigger] state.spec_prologue_passed()),
{
    lemma_cleanup_create_sponsored_account();
}

/// A multisig account is told only once by `create_sponsored_account`.
proof fn lemma_cleanup_create_sponsored_account()
    ensures
        forall|state: Pipeline|
            cleanup_gives_bytes_away(state, #[trigger] state.spec_create_sponsored_account()),
{
    lemma_cleanup_dispatch_payload();
}

/// A multisig account is told only once by `after_create_account`.
proof fn lemma_cleanup_after_create_account()
    ensures
        forall|state: Pipeline, outcome: Result<Vec<Vec<u8>>, VMStatus>|
            cleanup_gives_bytes_away(state, #[trigger] state.spec_after_create_account(outcome)),
{
    lemma_cleanup_finish_discarded();
    lemma_cleanup_dispatch_payload();
}

/// A multisig account is told only once by `dispatch_payload`.
proof fn lemma_cleanup_dispatch_payload()
    ensures
        forall|state: Pipeline|
            cleanup_gives_bytes_away(state, #[trigger] state.spec_dispatch_payload()),
{
    lemma_cleanup_finish_discarded();
    lemma_cleanup_simulate_multisig_transaction();
    lemma_cleanup_charge_intrinsic_gas();
    lemma_cleanup_on_user_transaction_execution_failure();
}

/// A multisig account is told only once by `charge_intrinsic_gas`.
proof fn lemma_cleanup_charge_intrinsic_gas()
    ensures
        forall|state: Pipeline|
            cleanup_gives_bytes_away(state, #[trigger] state.spec_charge_intrinsic_gas()),
{
}

/// A multisig account is told only once by `simulate_multisig_transaction`.
proof fn lemma_cleanup_simulate_multisig_transaction()
    ensures
        forall|state: Pipeline|
            cleanup_gives_bytes_away(state, #[trigger] state.spec_simulate_multisig_transaction()),
{
    lemma_cleanup_on_user_transaction_execution_failure();
    lemma_cleanup_execute_multisig_entry_function();
    lemma_cleanup_protocol_violation();
}

/// A multisig account is told only once by `after_charge_intrinsic_gas`.
proof fn lemma_cleanup_after_charge_intrinsic_gas()
    ensures
        forall|state: Pipeline, outcome: Result<(), VMStatus>|
            cleanup_gives_bytes_away(
                state,
                #[trigger] state.spec_after_charge_intrinsic_gas(outcome),
            ),
{
    lemma_cleanup_on_user_transaction_execution_failure();
    lemma_cleanup_execute_script_or_entry_function();
    lemma_cleanup_execute_multisig_transaction();
    lemma_cleanup_execute_modules();
}

/// A multisig account is told only once by `validate_and_execute_entry_function`.
proof fn lemma_cleanup_validate_and_execute_entry_function()
    ensures
        forall|state: Pipeline, senders: Seq<AccountAddress>, entry_function: EntryFunction|
            cleanup_gives_bytes_away(
                state,
                #[trigger] state.spec_validate_and_execute_entry_function(senders, entry_function),
            ),
{
}

/// A multisig account is told only once by `execute_script_or_entry_function`.
proof fn lemma_cleanup_execute_script_or_entry_function()
    ensures
        forall|state: Pipeline|
            cleanup_gives_bytes_away(
                state,
                #[trigger] state.spec_execute_script_or_entry_function(),
            ),
{
    lemma_cleanup_validate_and_execute_entry_function();
    lemma_cleanup_on_user_transaction_execution_failure();
}

/// A multisig account is told only once by `execute_multisig_transaction`.
proof fn lemma_cleanup_execute_multisig_transaction()
    ensures
        forall|state: Pipeline|
            cleanup_gives_bytes_away(state, #[trigger] state.spec_execute_multisig_transaction()),
{
    lemma_cleanup_fetch_multisig_payload();
    lemma_cleanup_protocol_violation();
}

/// A multisig account is told only once by `execute_modules`.
proof fn lemma_cleanup_execute_modules()
    ensures
        forall|state: Pipeline|
            cleanup_gives_bytes_away(state, #[trigger] state.spec_execute_modules()),
{
    lemma_cleanup_protocol_violation();
}

/// A multisig account is told only once by `after_encode_multisig_payload`.
proof fn lemma_cleanup_after_encode_multisig_payload()
    ensures
        forall|state: Pipeline, encoded: Option<Vec<u8>>|
            cleanup_gives_bytes_away(
                state,
                #[trigger] state.spec_after_encode_multisig_payload(encoded),
            ),
{
    lemma_cleanup_on_user_transaction_execution_failure();
    lemma_cleanup_fetch_multisig_payload();
}

/// A multisig account is told only once by `fetch_multisig_payload`.
proof fn lemma_cleanup_fetch_multisig_payload()
    ensures
        forall|state: Pipeline, provided_payload: Seq<u8>|
            cleanup_gives_bytes_away(
                state,
                #[trigger] state.spec_fetch_multisig_payload(provided_payload),
            ),
{
    lemma_cleanup_protocol_violation();
}

/// A multisig account is told only once by `after_fetch_multisig_payload`.
proof fn lemma_cleanup_after_fetch_multisig_payload()
    ensures
        forall|state: Pipeline, outcome: Result<Vec<Vec<u8>>, VMStatus>|
            cleanup_gives_bytes_away(
                state,
                #[trigger] state.spec_after_fetch_multisig_payload(outcome),
            ),
{
    lemma_cleanup_on_user_transaction_execution_failure();
    lemma_cleanup_decode_fetched_payload();
}

/// A multisig account is told only once by `after_decode_multisig_payload`.
proof fn lemma_cleanup_after_decode_multisig_payload()
    ensures
        forall|state: Pipeline, payload_bytes: Vec<u8>, payload: Option<MultisigTransactionPayload>|
            cleanup_gives_bytes_away(
                state,
                #[trigger] state.spec_after_decode_multisig_payload(payload_bytes, payload),
            ),
{
    lemma_cleanup_on_user_transaction_execution_failure();
    lemma_cleanup_execute_multisig_entry_function();
    lemma_cleanup_protocol_violation();
}

/// A multisig account is told only once by `execute_multisig_entry_function`.
proof fn lemma_cleanup_execute_multisig_entry_function()
    ensures
        forall|state: Pipeline, multisig_address: AccountAddress, entry_function: EntryFunction|
            cleanup_gives_bytes_away(
                state,
                #[trigger] state.spec_execute_multisig_entry_function(
                    multisig_address,
                    entry_function,
                ),
            ),
{
    lemma_cleanup_validate_and_execute_entry_function();
}

/// A multisig account is told only once by `after_execute_payload`.
proof fn lemma_cleanup_after_execute_payload()
    ensures
        forall|state: Pipeline, outcome: Result<(), VMStatus>|
            cleanup_gives_bytes_away(state, #[trigger] state.spec_after_execute_payload(outcome)),
{
    lemma_cleanup_payload_failed();
    lemma_cleanup_resolve_pending_code_publish();
}

/// A multisig account is told only once by `resolve_pending_code_publish`.
proof fn lemma_cleanup_resolve_pending_code_publish()
    ensures
        forall|state: Pipeline|
            cleanup_gives_bytes_away(state, #[trigger] state.spec_resolve_pending_code_publish()),
{
}

/// A multisig account is told only once by `payload_failed`.
proof fn lemma_cleanup_payload_failed()
    ensures
        forall|state: Pipeline, error: VMStatus|
            cleanup_gives_bytes_away(state, #[trigger] state.spec_payload_failed(error)),
{
    lemma_cleanup_failure_multisig_payload_cleanup();
    lemma_cleanup_on_user_transaction_execution_failure();
}

/// A multisig account is told only once by `failure_multisig_payload_cleanup`.
proof fn lemma_cleanup_failure_multisig_payload_cleanup()
    ensures
        forall|state: Pipeline, error: VMStatus|
            cleanup_gives_bytes_away(
                state,
                #[trigger] state.spec_failure_multisig_payload_cleanup(error),
            ),
{
}

/// A multisig account is told only once by `after_respawn_for_cleanup`.
proof fn lemma_cleanup_after_respawn_for_cleanup()
    ensures
        forall|state: Pipeline, error: VMStatus|
            cleanup_gives_bytes_away(state, #[trigger] state.spec_after_respawn_for_cleanup(error)),
{
    lemma_cleanup_on_user_transaction_execution_failure();
    lemma_cleanup_protocol_violation();
}

/// A multisig account is told only once by `after_extract_publish_request`.
proof fn lemma_cleanup_after_extract_publish_request()
    ensures
        forall|state: Pipeline, request: Option<PublishRequest>|
            cleanup_gives_bytes_away(
                state,
                #[trigger] state.spec_after_extract_publish_request(request),
            ),
{
    lemma_cleanup_publish_resolved();
    lemma_cleanup_deserialize_module_bundle();
}

/// A multisig account is told only once by `deserialize_module_bundle`.
proof fn lemma_cleanup_deserialize_module_bundle()
    ensures
        forall|state: Pipeline, bundle: ModuleBundle|
            cleanup_gives_bytes_away(
                state,
                #[trigger] state.spec_deserialize_module_bundle(bundle),
            ),
{
}

/// A multisig account is told only once by `after_deserialize_published_bundle`.
proof fn lemma_cleanup_after_deserialize_published_bundle()
    ensures
        forall|state: Pipeline, bundle: ModuleBundle, modules: Option<Vec<CompiledModule>>|
            cleanup_gives_bytes_away(
                state,
                #[trigger] state.spec_after_deserialize_published_bundle(bundle, modules),
            ),
{
    lemma_cleanup_payload_failed();
    lemma_cleanup_validate_publish_request();
    lemma_cleanup_protocol_violation();
}

/// A multisig account is told only once by `validate_publish_request`.
proof fn lemma_cleanup_validate_publish_request()
    ensures
        forall|state: Pipeline, index: usize|
            cleanup_gives_bytes_away(state, #[trigger] state.spec_validate_publish_request(index)),
{
    lemma_cleanup_payload_failed();
}

/// A multisig account is told only once by `after_verify_module_metadata`.
proof fn lemma_cleanup_after_verify_module_metadata()
    ensures
        forall|state: Pipeline, index: usize, outcome: Result<(), VMStatus>|
            cleanup_gives_bytes_away(
                state,
                #[trigger] state.spec_after_verify_module_metadata(index, outcome),
            ),
{
    lemma_cleanup_payload_failed();
    lemma_cleanup_validate_publish_request();
    lemma_cleanup_protocol_violation();
}

/// A multisig account is told only once by `after_validate_resource_groups`.
proof fn lemma_cleanup_after_validate_resource_groups()
    ensures
        forall|state: Pipeline, outcome: Result<(), VMStatus>|
            cleanup_gives_bytes_away(
                state,
                #[trigger] state.spec_after_validate_resource_groups(outcome),
            ),
{
    lemma_cleanup_payload_failed();
}

/// A multisig account is told only once by `after_validate_module_events`.
proof fn lemma_cleanup_after_validate_module_events()
    ensures
        forall|state: Pipeline, outcome: Result<(), VMStatus>|
            cleanup_gives_bytes_away(
                state,
                #[trigger] state.spec_after_validate_module_events(outcome),
            ),
{
    lemma_cleanup_payload_failed();
}

/// A multisig account is told only once by `after_exists_modules`.
proof fn lemma_cleanup_after_exists_modules()
    ensures
        forall|state: Pipeline, outcome: Result<Vec<bool>, VMStatus>|
            cleanup_gives_bytes_away(state, #[trigger] state.spec_after_exists_modules(outcome)),
{
    lemma_cleanup_payload_failed();
    lemma_cleanup_protocol_violation();
}

/// A multisig account is told only once by `after_publish_bundle`.
proof fn lemma_cleanup_after_publish_bundle()
    ensures
        forall|state: Pipeline, outcome: Result<(), VMStatus>|
            cleanup_gives_bytes_away(state, #[trigger] state.spec_after_publish_bundle(outcome)),
{
    lemma_cleanup_payload_failed();
    lemma_cleanup_execute_module_initialization();
}

/// A multisig account is told only once by `execute_module_initialization`.
proof fn lemma_cleanup_execute_module_initialization()
    ensures
        forall|state: Pipeline, index: usize|
            cleanup_gives_bytes_away(
                state,
                #[trigger] state.spec_execute_module_initialization(index),
            ),
{
    lemma_cleanup_publish_resolved();
}

/// A multisig account is told only once by `after_probe_init_module`.
proof fn lemma_cleanup_after_probe_init_module()
    ensures
        forall|state: Pipeline, index: usize, probe: InitFunction|
            cleanup_gives_bytes_away(
                state,
                #[trigger] state.spec_after_probe_init_module(index, probe),
            ),
{
    lemma_cleanup_execute_module_initialization();
    lemma_cleanup_protocol_violation();
    lemma_cleanup_payload_failed();
}

/// A multisig account is told only once by `after_execute_init_module`.
proof fn lemma_cleanup_after_execute_init_module()
    ensures
        forall|state: Pipeline, index: usize, outcome: Result<Vec<Vec<u8>>, VMStatus>|
            cleanup_gives_bytes_away(
                state,
                #[trigger] state.spec_after_execute_init_module(index, outcome),
            ),
{
    lemma_cleanup_payload_failed();
    lemma_cleanup_execute_module_initialization();
    lemma_cleanup_protocol_violation();
}

/// A multisig account is told only once by `publish_resolved`.
proof fn lemma_cleanup_publish_resolved()
    ensures
        forall|state: Pipeline|
            cleanup_gives_bytes_away(state, #[trigger] state.spec_publish_resolved()),
{
    lemma_cleanup_charge_change_set_and_respawn_session();
}

/// A multisig account is told only once by `charge_change_set_and_respawn_session`.
proof fn lemma_cleanup_charge_change_set_and_respawn_session()
    ensures
        forall|state: Pipeline|
            cleanup_gives_bytes_away(
                state,
                #[trigger] state.spec_charge_change_set_and_respawn_session(),
            ),
{
}

/// A multisig account is told only once by `after_finish_session`.
proof fn lemma_cleanup_after_finish_session()
    ensures
        forall|state: Pipeline, outcome: Result<VMChangeSet, VMStatus>|
            cleanup_gives_bytes_away(state, #[trigger] state.spec_after_finish_session(outcome)),
{
    lemma_cleanup_on_user_transaction_execution_failure();
}

/// A multisig account is told only once by `after_charge_change_set`.
proof fn lemma_cleanup_after_charge_change_set()
    ensures
        forall|state: Pipeline, outcome: Result<(VMChangeSet, u64), VMStatus>|
            cleanup_gives_bytes_away(state, #[trigger] state.spec_after_charge_change_set(outcome)),
{
    lemma_cleanup_on_user_transaction_execution_failure();
}

/// A multisig account is told only once by `after_respawn`.
proof fn lemma_cleanup_after_respawn()
    ensures
        forall|state: Pipeline|
            cleanup_gives_bytes_away(state, #[trigger] state.spec_after_respawn()),
{
    lemma_cleanup_success_multisig_payload_cleanup();
    lemma_cleanup_success_transaction_cleanup();
}

/// A multisig account is told only once by `success_multisig_payload_cleanup`.
proof fn lemma_cleanup_success_multisig_payload_cleanup()
    ensures
        forall|state: Pipeline|
            cleanup_gives_bytes_away(
                state,
                #[trigger] state.spec_success_multisig_payload_cleanup(),
            ),
{
    lemma_cleanup_protocol_violation();
}

/// A multisig account is told only once by `after_multisig_cleanup`.
proof fn lemma_cleanup_after_multisig_cleanup()
    ensures
        forall|state: Pipeline, outcome: Result<Vec<Vec<u8>>, VMStatus>|
            cleanup_gives_bytes_away(state, #[trigger] state.spec_after_multisig_cleanup(outcome)),
{
    lemma_cleanup_on_user_transaction_execution_failure();
    lemma_cleanup_success_transaction_cleanup();
}

/// A multisig account is told only once by `success_transaction_cleanup`.
proof fn lemma_cleanup_success_transaction_cleanup()
    ensures
        forall|state: Pipeline|
            cleanup_gives_bytes_away(state, #[trigger] state.spec_success_transaction_cleanup()),
{
}

/// A multisig account is told only once by `after_read_gas_meter`.
proof fn lemma_cleanup_after_read_gas_meter()
    ensures
        forall|state: Pipeline, consistency: Result<(), VMStatus>, reading: GasReading|
            (reading.balance <= state.numbers.max_gas_amount) ==>
                cleanup_gives_bytes_away(
                    state,
                    #[trigger] state.spec_after_read_gas_meter(consistency, reading),
                ),
{
    lemma_cleanup_on_user_transaction_execution_failure();
    lemma_cleanup_run_success_epilogue();
}

/// A multisig account is told only once by `run_success_epilogue`.
proof fn lemma_cleanup_run_success_epilogue()
    ensures
        forall|state: Pipeline, reading: GasReading|
            (reading.balance <= state.numbers.max_gas_amount) ==>
                cleanup_gives_bytes_away(
                    state,
                    #[trigger] state.spec_run_success_epilogue(reading),
                ),
{
}

/// A multisig account is told only once by `after_success_epilogue`.
proof fn lemma_cleanup_after_success_epilogue()
    ensures
        forall|state: Pipeline, fee_statement: FeeStatement, outcome: Result<(), VMStatus>|
            cleanup_gives_bytes_away(
                state,
                #[trigger] state.spec_after_success_epilogue(fee_statement, outcome),
            ),
{
    lemma_cleanup_on_user_transaction_execution_failure();
}

/// A multisig account is told only once by `after_finish_respawned_session`.
proof fn lemma_cleanup_after_finish_respawned_session()
    ensures
        forall|state: Pipeline, fee_statement: FeeStatement, outcome: Result<VMChangeSet, VMStatus>|
            cleanup_gives_bytes_away(
                state,
                #[trigger] state.spec_after_finish_respawned_session(fee_statement, outcome),
            ),
{
    lemma_cleanup_on_user_transaction_execution_failure();
    lemma_cleanup_finish();
}

/// A multisig account is told only once by `on_user_transaction_execution_failure`.
proof fn lemma_cleanup_on_user_transaction_execution_failure()
    ensures
        forall|state: Pipeline, error: VMStatus|
            cleanup_gives_bytes_away(
                state,
                #[trigger] state.spec_on_user_transaction_execution_failure(error),
            ),
{
    lemma_cleanup_keep_or_discard_failure();
}

/// A multisig account is told only once by `keep_or_discard_failure`.
proof fn lemma_cleanup_keep_or_discard_failure()
    ensures
        forall|state: Pipeline, error: VMStatus|
            cleanup_gives_bytes_away(state, #[trigger] state.spec_keep_or_discard_failure(error)),
{
    lemma_cleanup_finish_discarded();
    lemma_cleanup_failed_transaction_cleanup_and_keep_vm_status();
}

/// A multisig account is told only once by `failed_transaction_cleanup_and_keep_vm_status`.
proof fn lemma_cleanup_failed_transaction_cleanup_and_keep_vm_status()
    ensures
        forall|state: Pipeline, error: VMStatus|
            cleanup_gives_bytes_away(
                state,
                #[trigger] state.spec_failed_transaction_cleanup_and_keep_vm_status(error),
            ),
{
}

/// A multisig account is told only once by `after_read_gas_meter_after_failure`.
proof fn lemma_cleanup_after_read_gas_meter_after_failure()
    ensures
        forall|state: Pipeline, error: VMStatus, reading: GasReading|
            (reading.balance <= state.numbers.max_gas_amount) ==>
                cleanup_gives_bytes_away(
                    state,
                    #[trigger] state.spec_after_read_gas_meter_after_failure(error, reading),
                ),
{
}

/// A multisig account is told only once by `after_open_epilogue_session`.
proof fn lemma_cleanup_after_open_epilogue_session()
    ensures
        forall|state: Pipeline, error: VMStatus, gas_remaining: u64, fee_statement: FeeStatement|
            cleanup_gives_bytes_away(
                state,
                #[trigger] state.spec_after_open_epilogue_session(
                    error,
                    gas_remaining,
                    fee_statement,
                ),
            ),
{
    lemma_cleanup_run_failure_epilogue();
    lemma_cleanup_finish_discarded();
    lemma_cleanup_protocol_violation();
}

/// A multisig account is told only once by `after_extract_abort_info`.
proof fn lemma_cleanup_after_extract_abort_info()
    ensures
        forall|
            state: Pipeline,
            error: VMStatus,
            gas_remaining: u64,
            fee_statement: FeeStatement,
            location: AbortLocation,
            code: u64,
            info: Option<AbortInfo>,
        |
            cleanup_gives_bytes_away(
                state,
                #[trigger] state.spec_after_extract_abort_info(
                    error,
                    gas_remaining,
                    fee_statement,
                    location,
                    code,
                    info,
                ),
            ),
{
    lemma_cleanup_run_failure_epilogue();
}

/// A multisig account is told only once by `run_failure_epilogue`.
proof fn lemma_cleanup_run_failure_epilogue()
    ensures
        forall|
            state: Pipeline,
            error: VMStatus,
            gas_remaining: u64,
            fee_statement: FeeStatement,
            status: ExecutionStatus,
        |
            cleanup_gives_bytes_away(
                state,
                #[trigger] state.spec_run_failure_epilogue(
                    error,
                    gas_remaining,
                    fee_statement,
                    status,
                ),
            ),
{
}

/// A multisig account is told only once by `after_failure_epilogue`.
proof fn lemma_cleanup_after_failure_epilogue()
    ensures
        forall|
            state: Pipeline,
            error: VMStatus,
            fee_statement: FeeStatement,
            status: ExecutionStatus,
            outcome: Result<(), VMStatus>,
        |
            cleanup_gives_bytes_away(
                state,
                #[trigger] state.spec_after_failure_epilogue(error, fee_statement, status, outcome),
            ),
{
    lemma_cleanup_finish_discarded();
}

/// A multisig account is told only once by `after_finish_failed_session`.
proof fn lemma_cleanup_after_finish_failed_session()
    ensures
        forall|
            state: Pipeline,
            error: VMStatus,
            fee_statement: FeeStatement,
            status: ExecutionStatus,
            outcome: Result<VMChangeSet, VMStatus>,
        |
            cleanup_gives_bytes_away(
                state,
                #[trigger] state.spec_after_finish_failed_session(
                    error,
                    fee_statement,
                    status,
                    outcome,
                ),
            ),
{
    lemma_cleanup_finish();
}

/// A multisig account is told only once by `after_probe_module_bundle`.
proof fn lemma_cleanup_after_probe_module_bundle()
    ensures
        forall|state: Pipeline, bundle: ModuleBundle, probes: Vec<ModuleProbe>|
            cleanup_gives_bytes_away(
                state,
                #[trigger] state.spec_after_probe_module_bundle(bundle, probes),
            ),
{
    lemma_cleanup_on_user_transaction_execution_failure();
    lemma_cleanup_deserialize_module_bundle();
}

/// A multisig account is told only once by `after_deserialize_module_bundle`.
proof fn lemma_cleanup_after_deserialize_module_bundle()
    ensures
        forall|state: Pipeline, bundle: ModuleBundle, modules: Option<Vec<CompiledModule>>|
            cleanup_gives_bytes_away(
                state,
                #[trigger] state.spec_after_deserialize_module_bundle(bundle, modules),
            ),
{
    lemma_cleanup_protocol_violation();
}

/// A multisig account is told only once by `execute_user_transaction_impl`.
proof fn lemma_cleanup_execute_user_transaction_impl()
    ensures
        forall|state: Pipeline|
            cleanup_gives_bytes_away(state, #[trigger] state.spec_execute_user_transaction_impl()),
{
}

/// A multisig account is told only once by `after_open_block_session`.
proof fn lemma_cleanup_after_open_block_session()
    ensures
        forall|state: Pipeline, block_metadata: BlockMetadata|
            cleanup_gives_bytes_away(
                state,
                #[trigger] state.spec_after_open_block_session(block_metadata),
            ),
{
}

/// A multisig account is told only once by `after_block_prologue`.
proof fn lemma_cleanup_after_block_prologue()
    ensures
        forall|state: Pipeline, outcome: Result<Vec<Vec<u8>>, VMStatus>|
            cleanup_gives_bytes_away(state, #[trigger] state.spec_after_block_prologue(outcome)),
{
    lemma_cleanup_give_up();
}

/// A multisig account is told only once by `after_finish_system_session`.
proof fn lemma_cleanup_after_finish_system_session()
    ensures
        forall|state: Pipeline, outcome: Result<VMChangeSet, VMStatus>|
            cleanup_gives_bytes_away(
                state,
                #[trigger] state.spec_after_finish_system_session(outcome),
            ),
{
    lemma_cleanup_give_up();
    lemma_cleanup_finish();
}

/// A multisig account is told only once by `after_open_genesis_session`.
proof fn lemma_cleanup_after_open_genesis_session()
    ensures
        forall|state: Pipeline, script: WriteSetScript|
            cleanup_gives_bytes_away(
                state,
                #[trigger] state.spec_after_open_genesis_session(script),
            ),
{
}

/// A multisig account is told only once by `after_genesis_script`.
proof fn lemma_cleanup_after_genesis_script()
    ensures
        forall|state: Pipeline, outcome: Result<(), VMStatus>|
            cleanup_gives_bytes_away(state, #[trigger] state.spec_after_genesis_script(outcome)),
{
    lemma_cleanup_give_up();
}

/// A multisig account is told only once by `after_finish_genesis_session`.
proof fn lemma_cleanup_after_finish_genesis_session()
    ensures
        forall|state: Pipeline, outcome: Result<VMChangeSet, VMStatus>|
            (outcome matches Ok(change_set) ==> no_aggregator_writes(change_set@)) ==>
                cleanup_gives_bytes_away(
                    state,
                    #[trigger] state.spec_after_finish_genesis_session(outcome),
                ),
{
    lemma_cleanup_give_up();
    lemma_cleanup_validate_waypoint_change_set();
}

/// A multisig account is told only once by `validate_waypoint_change_set`.
proof fn lemma_cleanup_validate_waypoint_change_set()
    ensures
        forall|state: Pipeline, change_set: VMChangeSet|
            (no_aggregator_writes(change_set@)) ==>
                cleanup_gives_bytes_away(
                    state,
                    #[trigger] state.spec_validate_waypoint_change_set(change_set),
                ),
{
    lemma_cleanup_give_up();
}

/// A multisig account is told only once by `after_read_change_set`.
proof fn lemma_cleanup_after_read_change_set()
    ensures
        forall|state: Pipeline, change_set: VMChangeSet, outcome: Result<(), VMStatus>|
            cleanup_gives_bytes_away(
                state,
                #[trigger] state.spec_after_read_change_set(change_set, outcome),
            ),
{
    lemma_cleanup_give_up();
    lemma_cleanup_finish();
}

/// A multisig account is told only once by `after_make_view_gas_meter`.
proof fn lemma_cleanup_after_make_view_gas_meter()
    ensures
        forall|state: Pipeline, call: ViewCall|
            cleanup_gives_bytes_away(state, #[trigger] state.spec_after_make_view_gas_meter(call)),
{
}

/// A multisig account is told only once by `after_open_view_session`.
proof fn lemma_cleanup_after_open_view_session()
    ensures
        forall|state: Pipeline, call: ViewCall|
            cleanup_gives_bytes_away(state, #[trigger] state.spec_after_open_view_session(call)),
{
}

/// A multisig account is told only once by `after_view_function`.
proof fn lemma_cleanup_after_view_function()
    ensures
        forall|state: Pipeline, outcome: Result<Vec<Vec<u8>>, VMStatus>|
            cleanup_gives_bytes_away(state, #[trigger] state.spec_after_view_function(outcome)),
{
}

/// A multisig account is told only once by `step`.
#[verifier::rlimit(60)]
#[verifier::spinoff_prover]
proof fn lemma_cleanup_step()
    ensures
        forall|state: Pipeline, event: Event|
            (state.spec_accepts(event)) ==>
                cleanup_gives_bytes_away(state, #[trigger] state.spec_step(event)),
{
    lemma_cleanup_execute_user_transaction_impl();
    lemma_cleanup_validate_signed_transaction();
    lemma_cleanup_after_check_gas();
    lemma_cleanup_after_prologue();
    lemma_cleanup_after_multisig_prologue();
    lemma_cleanup_create_sponsored_account();
    lemma_cleanup_after_create_account();
    lemma_cleanup_after_charge_intrinsic_gas();
    lemma_cleanup_after_execute_payload();
    lemma_cleanup_after_encode_multisig_payload();
    lemma_cleanup_after_fetch_multisig_payload();
    lemma_cleanup_after_decode_multisig_payload();
    lemma_cleanup_after_probe_module_bundle();
    lemma_cleanup_after_deserialize_module_bundle();
    lemma_cleanup_after_extract_publish_request();
    lemma_cleanup_after_deserialize_published_bundle();
    lemma_cleanup_after_verify_module_metadata();
    lemma_cleanup_after_validate_resource_groups();
    lemma_cleanup_after_validate_module_events();
    lemma_cleanup_after_exists_modules();
    lemma_cleanup_after_publish_bundle();
    lemma_cleanup_after_probe_init_module();
    lemma_cleanup_after_execute_init_module();
    lemma_cleanup_after_finish_session();
    lemma_cleanup_after_charge_change_set();
    lemma_cleanup_after_respawn();
    lemma_cleanup_failure_multisig_payload_cleanup();
    lemma_cleanup_after_respawn_for_cleanup();
    lemma_cleanup_after_multisig_cleanup();
    lemma_cleanup_after_read_gas_meter();
    lemma_cleanup_after_success_epilogue();
    lemma_cleanup_after_finish_respawned_session();
    lemma_cleanup_keep_or_discard_failure();
    lemma_cleanup_after_read_gas_meter_after_failure();
    lemma_cleanup_after_open_epilogue_session();
    lemma_cleanup_after_extract_abort_info();
    lemma_cleanup_after_failure_epilogue();
    lemma_cleanup_after_finish_failed_session();
    lemma_cleanup_after_open_block_session();
    lemma_cleanup_after_block_prologue();
    lemma_cleanup_after_finish_system_session();
    lemma_cleanup_after_open_genesis_session();
    lemma_cleanup_after_genesis_script();
    lemma_cleanup_after_finish_genesis_session();
    lemma_cleanup_after_read_change_set();
    lemma_cleanup_after_make_view_gas_meter();
    lemma_cleanup_after_open_view_session();
    lemma_cleanup_after_view_function();
    lemma_cleanup_protocol_violation();
}

/// Once the pipeline is past the payload, every further step leaves it
/// there and runs no code of the user.
#[verifier::rlimit(60)]
#[verifier::spinoff_prover]
pub proof fn law_past_payload_is_final(pipeline: Pipeline, event: Event)
    requires
        pipeline.spec_accepts(event),
        past_payload(pipeline.stage),
    ensures
        stays_past_payload(pipeline, pipeline.spec_step(event)),
{
    lemma_past_payload_after_finish_session();
    lemma_past_payload_after_charge_change_set();
    lemma_past_payload_after_respawn();
    lemma_past_payload_failure_multisig_payload_cleanup();
    lemma_past_payload_after_respawn_for_cleanup();
    lemma_past_payload_after_multisig_cleanup();
    lemma_past_payload_after_read_gas_meter();
    lemma_past_payload_after_success_epilogue();
    lemma_past_payload_after_finish_respawned_session();
    lemma_past_payload_keep_or_discard_failure();
    lemma_past_payload_after_read_gas_meter_after_failure();
    lemma_past_payload_after_open_epilogue_session();
    lemma_past_payload_after_extract_abort_info();
    lemma_past_payload_after_failure_epilogue();
    lemma_past_payload_after_finish_failed_session();
    lemma_past_payload_protocol_violation();
}

/// Whether the event makes the pipeline reject the publish request that it
/// is validating: the bundle does not decode; a module is not one that the
/// package announces, or depends on what the package may not depend on; the
/// framework, the check of the resource groups or the check of the events
/// refuses it; or a module that the package announces is missing.
pub open spec fn rejects_publish_request(pipeline: Pipeline, event: Event) -> bool {
    match (pipeline.stage, event) {
        (Stage::DeserializingPublishedBundle, Event::Modules { modules, .. }) => pipeline.publish
            is Some && match modules {
            None => true,
            Some(modules) => modules@.len() > 0 && match pipeline.publish.unwrap().expected_modules {
                Some(expected_modules) => !(module_registered(
                    modules@,
                    expected_modules@,
                    0,
                ) && dependencies_allowed(
                    modules@[0],
                    allowed_map(pipeline.publish.unwrap().allowed_deps),
                )),
                None => true,
            },
        },
        (Stage::VerifyingModuleMetadata { index }, Event::Unit(outcome)) => match outcome {
            Err(_) => true,
            Ok(_) => index + 1 < pipeline.spec_module_count() && pipeline.spec_module_accepted(
                (index + 1) as usize,
            ) != Some(true),
        },
        (Stage::ValidatingResourceGroups, Event::Unit(outcome)) => outcome is Err,
        (Stage::ValidatingModuleEvents, Event::Unit(outcome)) => outcome is Err
            || !pipeline.spec_all_published(),
        _ => false,
    }
}

/// A publish request is published as a whole or not at all: the step that
/// rejects it publishes nothing and puts the payload behind the pipeline, so
/// that by `law_past_payload_is_final` nothing of the bundle is published
/// later either.
#[verifier::rlimit(60)]
#[verifier::spinoff_prover]
pub proof fn law_publish_atomicity(pipeline: Pipeline, event: Event)
    requires
        pipeline.spec_accepts(event),
        rejects_publish_request(pipeline, event),
    ensures
        stays_past_payload(pipeline, pipeline.spec_step(event)),
{
    lemma_past_payload_payload_failed();
    lemma_past_payload_protocol_violation();
    let state = Pipeline { stage: Stage::Done, ..pipeline };
    let failed = VMStatus::Error {
        status_code: StatusCode::CONSTRAINT_NOT_SATISFIED,
        sub_status: None,
    };
    match (pipeline.stage, event) {
        (Stage::DeserializingPublishedBundle, Event::Modules { bundle, modules }) => {
            assert(pipeline.spec_step(event) == state.spec_after_deserialize_published_bundle(
                bundle,
                modules,
            ));
            let pending = pipeline.publish.unwrap();
            match modules {
                None => {
                    let cleared = Pipeline { publish: None, ..state };
                    assert(stays_past_payload(
                        cleared,
                        cleared.spec_payload_failed(
                            VMStatus::Error {
                                status_code: StatusCode::CODE_DESERIALIZATION_ERROR,
                                sub_status: None,
                            },
                        ),
                    ));
                },
                Some(decoded) => {
                    let loaded = Pipeline {
                        publish: Some(
                            PendingPublish {
                                bundle: Some(bundle),
                                modules: Some(Some(decoded)),
                                ..pending
                            },
                        ),
                        ..state
                    };
                    assert(pipeline.spec_step(event) == loaded.spec_validate_publish_request(0));
                    assert(decoded@.len() == decoded.len());
                    assert(loaded.spec_module_count() == decoded@.len());
                    assert(loaded.spec_module_accepted(0) != Some(true));
                    assert(loaded.spec_validate_publish_request(0) == loaded.spec_payload_failed(
                        failed,
                    ));
                    assert(stays_past_payload(loaded, loaded.spec_payload_failed(failed)));
                },
            }
        },
        (Stage::VerifyingModuleMetadata { index }, Event::Unit(outcome)) => {
            assert(pipeline.spec_step(event) == state.spec_after_verify_module_metadata(
                index,
                outcome,
            ));
            assert(stays_past_payload(state, state.spec_payload_failed(failed)));
            if outcome is Ok {
                assert(state.spec_module_count() == pipeline.spec_module_count());
                assert(state.spec_module_accepted((index + 1) as usize)
                    == pipeline.spec_module_accepted((index + 1) as usize));
                assert(state.spec_validate_publish_request((index + 1) as usize)
                    == state.spec_payload_failed(failed));
            }
        },
        (Stage::ValidatingResourceGroups, Event::Unit(outcome)) => {
            assert(pipeline.spec_step(event) == state.spec_after_validate_resource_groups(outcome));
            assert(stays_past_payload(state, state.spec_payload_failed(outcome->Err_0)));
        },
        (Stage::ValidatingModuleEvents, Event::Unit(outcome)) => {
            assert(pipeline.spec_step(event) == state.spec_after_validate_module_events(outcome));
            assert(state.spec_all_published() == pipeline.spec_all_published());
            if outcome is Err {
                assert(stays_past_payload(state, state.spec_payload_failed(outcome->Err_0)));
            } else {
                assert(stays_past_payload(state, state.spec_payload_failed(failed)));
            }
        },
        _ => {},
    }
}

/// Whether every one of the events can be handed to the pipeline in turn.
pub open spec fn accepts_all(pipeline: Pipeline, events: Seq<Event>) -> bool
    decreases events.len(),
{
    if events.len() == 0 {
        true
    } else {
        pipeline.spec_accepts(events[0]) && accepts_all(
            pipeline.spec_step(events[0]).0,
            events.subrange(1, events.len() as int),
        )
    }
}

/// Whether the pipeline, taking the events, hands out a request that runs
/// or publishes code of the user.
pub open spec fn runs_user_code_on(pipeline: Pipeline, events: Seq<Event>) -> bool
    decreases events.len(),
{
    if events.len() == 0 {
        false
    } else {
        runs_user_code(pipeline.spec_step(events[0]).1) || runs_user_code_on(
            pipeline.spec_step(events[0]).0,
            events.subrange(1, events.len() as int),
        )
    }
}

/// Once the pipeline is past the payload, no events whatever make it run
/// or publish code of the user.
pub proof fn law_no_user_code_past_payload(pipeline: Pipeline, events: Seq<Event>)
    requires
        past_payload(pipeline.stage),
        accepts_all(pipeline, events),
    ensures
        !runs_user_code_on(pipeline, events),
    decreases events.len(),
{
    if events.len() > 0 {
        law_past_payload_is_final(pipeline, events[0]);
        law_no_user_code_past_payload(
            pipeline.spec_step(events[0]).0,
            events.subrange(1, events.len() as int),
        );
    }
}

/// A publish request that is rejected is never published: not by the step
/// that rejects it, and not by anything that follows.
pub proof fn law_rejected_publish_request_is_never_published(
    pipeline: Pipeline,
    event: Event,
    events: Seq<Event>,
)
    requires
        pipeline.spec_accepts(event),
        rejects_publish_request(pipeline, event),
        accepts_all(pipeline.spec_step(event).0, events),
    ensures
        !runs_user_code(pipeline.spec_step(event).1),
        !runs_user_code_on(pipeline.spec_step(event).0, events),
{
    law_publish_atomicity(pipeline, event);
    law_no_user_code_past_payload(pipeline.spec_step(event).0, events);
}

/// Where modules of a publish request were loaded into the runtime's cache,
/// a failure marks the cache invalid before anything else is done about it.
pub proof fn law_failure_invalidates_loader_cache(pipeline: Pipeline, error: VMStatus)
    requires
        pipeline.new_published_modules_loaded,
    ensures
        pipeline.spec_on_user_transaction_execution_failure(error).1
            == RequestView::InvalidateLoaderCache,
        pipeline.spec_payload_failed(error).1 == RequestView::InvalidateLoaderCache,
{
}

/// The failure of what a multisig account runs leaves no write in the
/// output: the session in which the account is told of the failure, and in
/// which the epilogue runs after that, is laid over the empty change set.
pub proof fn law_failed_multisig_payload_writes_nothing(pipeline: Pipeline, error: VMStatus)
    requires
        pipeline.in_multisig_payload,
    ensures
        match pipeline.spec_payload_failed(error) {
            (next, RequestOf::InvalidateLoaderCache) => next.stage
                == (Stage::InvalidatingCacheForCleanup { error }) && (Pipeline {
                stage: Stage::Done,
                ..next
            }).spec_failure_multisig_payload_cleanup(error).1 == (RequestView::Respawn {
                session_id: pipeline.spec_epilogue_session(),
                change_set: empty_change_set(),
                storage_refund: 0,
            }),
            (_, request) => request == (RequestView::Respawn {
                session_id: pipeline.spec_epilogue_session(),
                change_set: empty_change_set(),
                storage_refund: 0,
            }),
        },
{
}

/// A multisig account is told at most once how its payload went: it is
/// told only while the pipeline holds the payload's bytes, and the step that
/// tells it gives the bytes away.
pub proof fn law_multisig_cleanup_gives_bytes_away(pipeline: Pipeline, event: Event)
    requires
        pipeline.spec_accepts(event),
        is_multisig_cleanup(pipeline.spec_step(event).1),
    ensures
        pipeline.payload_bytes is Some,
        pipeline.spec_step(event).0.payload_bytes is None,
        pipeline.spec_step(event).0.stage == Stage::RunningMultisigCleanup,
{
    lemma_cleanup_step();
    assert(cleanup_gives_bytes_away(
        Pipeline { stage: Stage::Done, ..pipeline },
        pipeline.spec_step(event),
    ));
}

} // verus!
