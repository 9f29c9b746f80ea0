//! A multisig account is told exactly once how its payload went. From the
//! moment the payload starts to run, the pipeline is in one of a few phases:
//! the payload runs; it has run and its session is settled; it has failed and
//! the cleanup is prepared; the account was told; the transaction fails; or
//! the pipeline is over. The account is told on the way from the second or
//! the third phase to the fourth and nowhere else, and a transaction that is
//! kept as a success has passed through the fourth.

use crate::aptos_vm::{Pipeline, Stage};
use crate::change_set::VMChangeSet;
use crate::past_payload::is_multisig_cleanup;
use crate::request::{Event, GasReading, InitFunction, RequestOf, RequestView};
use crate::transaction::{
    AbortInfo, CompiledModule, ExecutionStatus, FeeStatement, ModuleBundle,
    MultisigTransactionPayload, PublishRequest, TransactionStatus,
};
use crate::vm_status::{AbortLocation, VMStatus};
use crate::output::VMOutputView;
use vstd::prelude::*;

verus! {

/// Where the pipeline is with the payload of a multisig account.
pub enum Phase {
    /// The payload runs, or what it wants published is resolved.
    Running,
    /// The payload has run; its session is finished and charged for.
    Settling,
    /// The payload has failed; the cleanup is prepared.
    Cleaning,
    /// The account was told how the payload went.
    Told,
    /// The transaction fails.
    Failing,
    /// The pipeline is over.
    Over,
    /// The pipeline is not yet at the payload.
    Elsewhere,
}

/// The phase that a stage belongs to.
pub open spec fn phase(stage: Stage) -> Phase {
    match stage {
        Stage::ExecutingPayload
        | Stage::ExtractingPublishRequest
        | Stage::DeserializingPublishedBundle
        | Stage::VerifyingModuleMetadata { .. }
        | Stage::ValidatingResourceGroups
        | Stage::ValidatingModuleEvents
        | Stage::CheckingExistingModules
        | Stage::PublishingBundle
        | Stage::ProbingInitModule { .. }
        | Stage::ExecutingInitModule { .. } => Phase::Running,
        Stage::FinishingSession | Stage::ChargingChangeSet | Stage::Respawning => Phase::Settling,
        Stage::InvalidatingCacheForCleanup { .. } | Stage::RespawningForCleanup { .. } => Phase::Cleaning,
        Stage::RunningMultisigCleanup
        | Stage::ReadingGasMeter
        | Stage::RunningSuccessEpilogue { .. }
        | Stage::FinishingRespawnedSession { .. } => Phase::Told,
        Stage::InvalidatingCache { .. }
        | Stage::ReadingGasMeterAfterFailure { .. }
        | Stage::OpeningEpilogueSession { .. }
        | Stage::ExtractingAbortInfo { .. }
        | Stage::RunningFailureEpilogue { .. }
        | Stage::FinishingFailedSession { .. } => Phase::Failing,
        Stage::Done => Phase::Over,
        _ => Phase::Elsewhere,
    }
}

/// Whether the failure that the stage holds is one: no success is handled
/// as a failure.
pub open spec fn holds_a_failure(stage: Stage) -> bool {
    match stage {
        Stage::InvalidatingCacheForCleanup { error } => error != VMStatus::Executed,
        Stage::RespawningForCleanup { error } => error != VMStatus::Executed,
        Stage::InvalidatingCache { error } => error != VMStatus::Executed,
        Stage::ReadingGasMeterAfterFailure { error } => error != VMStatus::Executed,
        Stage::OpeningEpilogueSession { error, .. } => error != VMStatus::Executed,
        Stage::RunningFailureEpilogue { status, .. } => status != ExecutionStatus::Success,
        Stage::FinishingFailedSession { status, .. } => status != ExecutionStatus::Success,
        _ => true,
    }
}

/// Whether the pipeline holds what its phase needs: the bytes of the
/// payload until the account is told, and no longer.
pub open spec fn shaped(pipeline: Pipeline) -> bool {
    &&& pipeline.multisig_address is Some
    &&& holds_a_failure(pipeline.stage)
    &&& match phase(pipeline.stage) {
        Phase::Running => pipeline.in_multisig_payload && pipeline.payload_bytes is Some,
        Phase::Settling => !pipeline.in_multisig_payload && pipeline.payload_bytes is Some,
        Phase::Cleaning => pipeline.payload_bytes is Some && (pipeline.stage
            is InvalidatingCacheForCleanup ==> pipeline.in_multisig_payload) && (pipeline.stage
            is RespawningForCleanup ==> !pipeline.in_multisig_payload),
        Phase::Told => !pipeline.in_multisig_payload && pipeline.payload_bytes is None,
        Phase::Failing => true,
        Phase::Over => true,
        Phase::Elsewhere => false,
    }
}

/// Whether the outcome is not a success that is reported as a failure.
pub open spec fn not_executed<T>(outcome: Result<T, VMStatus>) -> bool {
    match outcome {
        Err(error) => error != VMStatus::Executed,
        Ok(_) => true,
    }
}

/// Whether the request is the output of a transaction that is kept as a
/// success.
pub open spec fn succeeded(request: RequestView) -> bool {
    match request {
        RequestOf::Finished { output, .. } => output.status == TransactionStatus::Keep(
            ExecutionStatus::Success,
        ),
        _ => false,
    }
}

/// What holds of a step while the payload runs: the payload goes on, is
/// settled, or has failed; nobody is told anything, and nothing is finished.
pub open spec fn keeps_running(state: Pipeline, step: (Pipeline, RequestView)) -> bool {
    (state.multisig_address is Some && state.in_multisig_payload && state.payload_bytes is Some)
        ==> {
        &&& shaped(step.0)
        &&& phase(step.0.stage) is Running || phase(step.0.stage) is Settling || phase(
            step.0.stage,
        ) is Cleaning || phase(step.0.stage) is Over
        &&& !is_multisig_cleanup(step.1)
        &&& !(step.1 is Finished)
    }
}

/// What holds of a step between the payload and the cleanup: the session
/// is settled further, the account is told, or the transaction fails; the
/// account is told exactly where the pipeline goes on to wait for the
/// cleanup.
pub open spec fn settles(state: Pipeline, step: (Pipeline, RequestView)) -> bool {
    (state.multisig_address is Some && !state.in_multisig_payload && state.payload_bytes is Some)
        ==> {
        &&& shaped(step.0)
        &&& phase(step.0.stage) is Settling || phase(step.0.stage) is Told || phase(
            step.0.stage,
        ) is Failing || phase(step.0.stage) is Over
        &&& is_multisig_cleanup(step.1) <==> step.0.stage == Stage::RunningMultisigCleanup
        &&& !succeeded(step.1)
    }
}

/// What holds of a step after the account was told: the epilogue goes on
/// or the transaction fails; the account is not told again.
pub open spec fn stays_told(state: Pipeline, step: (Pipeline, RequestView)) -> bool {
    (state.multisig_address is Some && !state.in_multisig_payload && state.payload_bytes is None)
        ==> {
        &&& shaped(step.0)
        &&& phase(step.0.stage) is Told || phase(step.0.stage) is Failing || phase(
            step.0.stage,
        ) is Over
        &&& !is_multisig_cleanup(step.1)
    }
}

/// What holds of a step while the transaction fails: it goes on failing;
/// nobody is told anything, and the transaction is not kept as a success.
pub open spec fn stays_failing(state: Pipeline, step: (Pipeline, RequestView)) -> bool {
    state.multisig_address is Some ==> {
        &&& shaped(step.0)
        &&& phase(step.0.stage) is Failing || phase(step.0.stage) is Over
        &&& !is_multisig_cleanup(step.1)
        &&& !succeeded(step.1)
    }
}

proof fn lemma_running_protocol_violation()
    ensures
        forall|state: Pipeline| keeps_running(state, #[trigger] state.spec_protocol_violation()),
{
}

proof fn lemma_settling_protocol_violation()
    ensures
        forall|state: Pipeline| settles(state, #[trigger] state.spec_protocol_violation()),
{
}

proof fn lemma_settling_finish_discarded()
    ensures
        forall|state: Pipeline, vm_status: VMStatus|
            settles(state, #[trigger] state.spec_finish_discarded(vm_status)),
{
}

proof fn lemma_told_protocol_violation()
    ensures
        forall|state: Pipeline| stays_told(state, #[trigger] state.spec_protocol_violation()),
{
}

proof fn lemma_told_finish_discarded()
    ensures
        forall|state: Pipeline, vm_status: VMStatus|
            stays_told(state, #[trigger] state.spec_finish_discarded(vm_status)),
{
}

proof fn lemma_told_finish()
    ensures
        forall|state: Pipeline, vm_status: VMStatus, output: VMOutputView|
            stays_told(state, #[trigger] state.spec_finish(vm_status, output)),
{
}

proof fn lemma_failing_protocol_violation()
    ensures
        forall|state: Pipeline| stays_failing(state, #[trigger] state.spec_protocol_violation()),
{
}

proof fn lemma_failing_finish_discarded()
    ensures
        forall|state: Pipeline, vm_status: VMStatus|
            stays_failing(state, #[trigger] state.spec_finish_discarded(vm_status)),
{
}

/// The payload goes on after `after_execute_payload`.
proof fn lemma_running_after_execute_payload()
    ensures
        forall|state: Pipeline, outcome: Result<(), VMStatus>|
            (not_executed(outcome)) ==>
                keeps_running(state, #[trigger] state.spec_after_execute_payload(outcome)),
{
    lemma_running_payload_failed();
    lemma_running_resolve_pending_code_publish();
}

/// The payload goes on after `resolve_pending_code_publish`.
proof fn lemma_running_resolve_pending_code_publish()
    ensures
        forall|state: Pipeline|
            keeps_running(state, #[trigger] state.spec_resolve_pending_code_publish()),
{
}

/// The payload goes on after `payload_failed`.
proof fn lemma_running_payload_failed()
    ensures
        forall|state: Pipeline, error: VMStatus|
            (error != VMStatus::Executed) ==>
                keeps_running(state, #[trigger] state.spec_payload_failed(error)),
{
    lemma_running_failure_multisig_payload_cleanup();
}

/// The payload goes on after `failure_multisig_payload_cleanup`.
proof fn lemma_running_failure_multisig_payload_cleanup()
    ensures
        forall|state: Pipeline, error: VMStatus|
            (error != VMStatus::Executed) ==>
                keeps_running(state, #[trigger] state.spec_failure_multisig_payload_cleanup(error)),
{
}

/// The payload goes on after `after_extract_publish_request`.
proof fn lemma_running_after_extract_publish_request()
    ensures
        forall|state: Pipeline, request: Option<PublishRequest>|
            keeps_running(state, #[trigger] state.spec_after_extract_publish_request(request)),
{
    lemma_running_publish_resolved();
}

/// The payload goes on after `after_deserialize_published_bundle`.
proof fn lemma_running_after_deserialize_published_bundle()
    ensures
        forall|state: Pipeline, bundle: ModuleBundle, modules: Option<Vec<CompiledModule>>|
            keeps_running(
                state,
                #[trigger] state.spec_after_deserialize_published_bundle(bundle, modules),
            ),
{
    lemma_running_payload_failed();
    lemma_running_validate_publish_request();
    lemma_running_protocol_violation();
}

/// The payload goes on after `validate_publish_request`.
proof fn lemma_running_validate_publish_request()
    ensures
        forall|state: Pipeline, index: usize|
            keeps_running(state, #[trigger] state.spec_validate_publish_request(index)),
{
    lemma_running_payload_failed();
}

/// The payload goes on after `after_verify_module_metadata`.
proof fn lemma_running_after_verify_module_metadata()
    ensures
        forall|state: Pipeline, index: usize, outcome: Result<(), VMStatus>|
            (not_executed(outcome)) ==>
                keeps_running(
                    state,
                    #[trigger] state.spec_after_verify_module_metadata(index, outcome),
                ),
{
    lemma_running_payload_failed();
    lemma_running_validate_publish_request();
    lemma_running_protocol_violation();
}

/// The payload goes on after `after_validate_resource_groups`.
proof fn lemma_running_after_validate_resource_groups()
    ensures
        forall|state: Pipeline, outcome: Result<(), VMStatus>|
            (not_executed(outcome)) ==>
                keeps_running(state, #[trigger] state.spec_after_validate_resource_groups(outcome)),
{
    lemma_running_payload_failed();
}

/// The payload goes on after `after_validate_module_events`.
proof fn lemma_running_after_validate_module_events()
    ensures
        forall|state: Pipeline, outcome: Result<(), VMStatus>|
            (not_executed(outcome)) ==>
                keeps_running(state, #[trigger] state.spec_after_validate_module_events(outcome)),
{
    lemma_running_payload_failed();
}

/// The payload goes on after `after_exists_modules`.
proof fn lemma_running_after_exists_modules()
    ensures
        forall|state: Pipeline, outcome: Result<Vec<bool>, VMStatus>|
            (not_executed(outcome)) ==>
                keeps_running(state, #[trigger] state.spec_after_exists_modules(outcome)),
{
    lemma_running_payload_failed();
    lemma_running_protocol_violation();
}

/// The payload goes on after `after_publish_bundle`.
proof fn lemma_running_after_publish_bundle()
    ensures
        forall|state: Pipeline, outcome: Result<(), VMStatus>|
            (not_executed(outcome)) ==>
                keeps_running(state, #[trigger] state.spec_after_publish_bundle(outcome)),
{
    lemma_running_payload_failed();
    lemma_running_execute_module_initialization();
}

/// The payload goes on after `execute_module_initialization`.
proof fn lemma_running_execute_module_initialization()
    ensures
        forall|state: Pipeline, index: usize|
            keeps_running(state, #[trigger] state.spec_execute_module_initialization(index)),
{
    lemma_running_publish_resolved();
}

/// The payload goes on after `after_probe_init_module`.
proof fn lemma_running_after_probe_init_module()
    ensures
        forall|state: Pipeline, index: usize, probe: InitFunction|
            keeps_running(state, #[trigger] state.spec_after_probe_init_module(index, probe)),
{
    lemma_running_execute_module_initialization();
    lemma_running_protocol_violation();
    lemma_running_payload_failed();
}

/// The payload goes on after `after_execute_init_module`.
proof fn lemma_running_after_execute_init_module()
    ensures
        forall|state: Pipeline, index: usize, outcome: Result<Vec<Vec<u8>>, VMStatus>|
            (not_executed(outcome)) ==>
                keeps_running(
                    state,
                    #[trigger] state.spec_after_execute_init_module(index, outcome),
                ),
{
    lemma_running_payload_failed();
    lemma_running_execute_module_initialization();
    lemma_running_protocol_violation();
}

/// The payload goes on after `publish_resolved`.
proof fn lemma_running_publish_resolved()
    ensures
        forall|state: Pipeline|
            keeps_running(state, #[trigger] state.spec_publish_resolved()),
{
}

/// The session is settled after `after_respawn_for_cleanup`.
proof fn lemma_settling_after_respawn_for_cleanup()
    ensures
        forall|state: Pipeline, error: VMStatus|
            (error != VMStatus::Executed) ==>
                settles(state, #[trigger] state.spec_after_respawn_for_cleanup(error)),
{
    lemma_settling_on_user_transaction_execution_failure();
    lemma_settling_protocol_violation();
}

/// The session is settled after `after_finish_session`.
proof fn lemma_settling_after_finish_session()
    ensures
        forall|state: Pipeline, outcome: Result<VMChangeSet, VMStatus>|
            (not_executed(outcome)) ==>
                settles(state, #[trigger] state.spec_after_finish_session(outcome)),
{
    lemma_settling_on_user_transaction_execution_failure();
}

/// The session is settled after `after_charge_change_set`.
proof fn lemma_settling_after_charge_change_set()
    ensures
        forall|state: Pipeline, outcome: Result<(VMChangeSet, u64), VMStatus>|
            (not_executed(outcome)) ==>
                settles(state, #[trigger] state.spec_after_charge_change_set(outcome)),
{
    lemma_settling_on_user_transaction_execution_failure();
}

/// The session is settled after `after_respawn`.
proof fn lemma_settling_after_respawn()
    ensures
        forall|state: Pipeline|
            settles(state, #[trigger] state.spec_after_respawn()),
{
    lemma_settling_success_multisig_payload_cleanup();
}

/// The session is settled after `success_multisig_payload_cleanup`.
proof fn lemma_settling_success_multisig_payload_cleanup()
    ensures
        forall|state: Pipeline|
            settles(state, #[trigger] state.spec_success_multisig_payload_cleanup()),
{
    lemma_settling_protocol_violation();
}

/// The session is settled after `on_user_transaction_execution_failure`.
proof fn lemma_settling_on_user_transaction_execution_failure()
    ensures
        forall|state: Pipeline, error: VMStatus|
            (error != VMStatus::Executed) ==>
                settles(state, #[trigger] state.spec_on_user_transaction_execution_failure(error)),
{
    lemma_settling_keep_or_discard_failure();
}

/// The session is settled after `keep_or_discard_failure`.
proof fn lemma_settling_keep_or_discard_failure()
    ensures
        forall|state: Pipeline, error: VMStatus|
            (error != VMStatus::Executed) ==>
                settles(state, #[trigger] state.spec_keep_or_discard_failure(error)),
{
    lemma_settling_finish_discarded();
    lemma_settling_failed_transaction_cleanup_and_keep_vm_status();
}

/// The session is settled after `failed_transaction_cleanup_and_keep_vm_status`.
proof fn lemma_settling_failed_transaction_cleanup_and_keep_vm_status()
    ensures
        forall|state: Pipeline, error: VMStatus|
            (error != VMStatus::Executed) ==>
                settles(
                    state,
                    #[trigger] state.spec_failed_transaction_cleanup_and_keep_vm_status(error),
                ),
{
}

/// The account stays told after `after_multisig_cleanup`.
proof fn lemma_told_after_multisig_cleanup()
    ensures
        forall|state: Pipeline, outcome: Result<Vec<Vec<u8>>, VMStatus>|
            (not_executed(outcome)) ==>
                stays_told(state, #[trigger] state.spec_after_multisig_cleanup(outcome)),
{
    lemma_told_on_user_transaction_execution_failure();
    lemma_told_success_transaction_cleanup();
}

/// The account stays told after `success_transaction_cleanup`.
proof fn lemma_told_success_transaction_cleanup()
    ensures
        forall|state: Pipeline|
            stays_told(state, #[trigger] state.spec_success_transaction_cleanup()),
{
}

/// The account stays told after `after_read_gas_meter`.
proof fn lemma_told_after_read_gas_meter()
    ensures
        forall|state: Pipeline, consistency: Result<(), VMStatus>, reading: GasReading|
            (not_executed(consistency)) && (reading.balance <= state.numbers.max_gas_amount) ==>
                stays_told(state, #[trigger] state.spec_after_read_gas_meter(consistency, reading)),
{
    lemma_told_on_user_transaction_execution_failure();
    lemma_told_run_success_epilogue();
}

/// The account stays told after `run_success_epilogue`.
proof fn lemma_told_run_success_epilogue()
    ensures
        forall|state: Pipeline, reading: GasReading|
            (reading.balance <= state.numbers.max_gas_amount) ==>
                stays_told(state, #[trigger] state.spec_run_success_epilogue(reading)),
{
}

/// The account stays told after `after_success_epilogue`.
proof fn lemma_told_after_success_epilogue()
    ensures
        forall|state: Pipeline, fee_statement: FeeStatement, outcome: Result<(), VMStatus>|
            (not_executed(outcome)) ==>
                stays_told(
                    state,
                    #[trigger] state.spec_after_success_epilogue(fee_statement, outcome),
                ),
{
    lemma_told_on_user_transaction_execution_failure();
}

/// The account stays told after `after_finish_respawned_session`.
proof fn lemma_told_after_finish_respawned_session()
    ensures
        forall|state: Pipeline, fee_statement: FeeStatement, outcome: Result<VMChangeSet, VMStatus>|
            (not_executed(outcome)) ==>
                stays_told(
                    state,
                    #[trigger] state.spec_after_finish_respawned_session(fee_statement, outcome),
                ),
{
    lemma_told_on_user_transaction_execution_failure();
    lemma_told_finish();
}

/// The account stays told after `on_user_transaction_execution_failure`.
proof fn lemma_told_on_user_transaction_execution_failure()
    ensures
        forall|state: Pipeline, error: VMStatus|
            (error != VMStatus::Executed) ==>
                stays_told(
                    state,
                    #[trigger] state.spec_on_user_transaction_execution_failure(error),
                ),
{
    lemma_told_keep_or_discard_failure();
}

/// The account stays told after `keep_or_discard_failure`.
proof fn lemma_told_keep_or_discard_failure()
    ensures
        forall|state: Pipeline, error: VMStatus|
            (error != VMStatus::Executed) ==>
                stays_told(state, #[trigger] state.spec_keep_or_discard_failure(error)),
{
    lemma_told_finish_discarded();
    lemma_told_failed_transaction_cleanup_and_keep_vm_status();
}

/// The account stays told after `failed_transaction_cleanup_and_keep_vm_status`.
proof fn lemma_told_failed_transaction_cleanup_and_keep_vm_status()
    ensures
        forall|state: Pipeline, error: VMStatus|
            (error != VMStatus::Executed) ==>
                stays_told(
                    state,
                    #[trigger] state.spec_failed_transaction_cleanup_and_keep_vm_status(error),
                ),
{
}

/// A failure stays a failure after `keep_or_discard_failure`.
proof fn lemma_failing_keep_or_discard_failure()
    ensures
        forall|state: Pipeline, error: VMStatus|
            (error != VMStatus::Executed) ==>
                stays_failing(state, #[trigger] state.spec_keep_or_discard_failure(error)),
{
    lemma_failing_finish_discarded();
    lemma_failing_failed_transaction_cleanup_and_keep_vm_status();
}

/// A failure stays a failure after `failed_transaction_cleanup_and_keep_vm_status`.
proof fn lemma_failing_failed_transaction_cleanup_and_keep_vm_status()
    ensures
        forall|state: Pipeline, error: VMStatus|
            (error != VMStatus::Executed) ==>
                stays_failing(
                    state,
                    #[trigger] state.spec_failed_transaction_cleanup_and_keep_vm_status(error),
                ),
{
}

/// A failure stays a failure after `after_read_gas_meter_after_failure`.
proof fn lemma_failing_after_read_gas_meter_after_failure()
    ensures
        forall|state: Pipeline, error: VMStatus, reading: GasReading|
            (error != VMStatus::Executed) && (reading.balance <= state.numbers.max_gas_amount) ==>
                stays_failing(
                    state,
                    #[trigger] state.spec_after_read_gas_meter_after_failure(error, reading),
                ),
{
}

/// A failure stays a failure after `after_open_epilogue_session`.
proof fn lemma_failing_after_open_epilogue_session()
    ensures
        forall|state: Pipeline, error: VMStatus, gas_remaining: u64, fee_statement: FeeStatement|
            (error != VMStatus::Executed) ==>
                stays_failing(
                    state,
                    #[trigger] state.spec_after_open_epilogue_session(
                        error,
                        gas_remaining,
                        fee_statement,
                    ),
                ),
{
    lemma_failing_run_failure_epilogue();
    lemma_failing_finish_discarded();
    lemma_failing_protocol_violation();
}

/// A failure stays a failure after `after_extract_abort_info`.
proof fn lemma_failing_after_extract_abort_info()
    ensures
        forall|
            state: Pipeline,
            error: VMStatus,
            gas_remaining: u64,
            fee_statement: FeeStatement,
            location: AbortLocation,
            code: u64,
            info: Option<AbortInfo>,
        |
            (error != VMStatus::Executed) ==>
                stays_failing(
                    state,
                    #[trigger] state.spec_after_extract_abort_info(
                        error,
                        gas_remaining,
                        fee_statement,
                        location,
                        code,
                        info,
                    ),
                ),
{
    lemma_failing_run_failure_epilogue();
}

/// A failure stays a failure after `run_failure_epilogue`.
proof fn lemma_failing_run_failure_epilogue()
    ensures
        forall|
            state: Pipeline,
            error: VMStatus,
            gas_remaining: u64,
            fee_statement: FeeStatement,
            status: ExecutionStatus,
        |
            (error != VMStatus::Executed) && (status != ExecutionStatus::Success) ==>
                stays_failing(
                    state,
                    #[trigger] state.spec_run_failure_epilogue(
                        error,
                        gas_remaining,
                        fee_statement,
                        status,
                    ),
                ),
{
}

/// A failure stays a failure after `after_failure_epilogue`.
proof fn lemma_failing_after_failure_epilogue()
    ensures
        forall|
            state: Pipeline,
            error: VMStatus,
            fee_statement: FeeStatement,
            status: ExecutionStatus,
            outcome: Result<(), VMStatus>,
        |
            (error != VMStatus::Executed) && (status != ExecutionStatus::Success) &&
            (not_executed(outcome)) ==>
                stays_failing(
                    state,
                    #[trigger] state.spec_after_failure_epilogue(
                        error,
                        fee_statement,
                        status,
                        outcome,
                    ),
                ),
{
    lemma_failing_finish_discarded();
}

/// A failure stays a failure after `after_finish_failed_session`.
proof fn lemma_failing_after_finish_failed_session()
    ensures
        forall|
            state: Pipeline,
            error: VMStatus,
            fee_statement: FeeStatement,
            status: ExecutionStatus,
            outcome: Result<VMChangeSet, VMStatus>,
        |
            (error != VMStatus::Executed) && (status != ExecutionStatus::Success) &&
            (not_executed(outcome)) ==>
                stays_failing(
                    state,
                    #[trigger] state.spec_after_finish_failed_session(
                        error,
                        fee_statement,
                        status,
                        outcome,
                    ),
                ),
{
}

/// Whether the event reports no success as a failure.
pub open spec fn event_is_sane(event: Event) -> bool {
    match event {
        Event::Unit(outcome) => not_executed(outcome),
        Event::ReturnValues(outcome) => not_executed(outcome),
        Event::Exists(outcome) => not_executed(outcome),
        Event::ChangeSet(outcome) => not_executed(outcome),
        Event::Charged(outcome) => not_executed(outcome),
        Event::Gas { consistency, .. } => not_executed(consistency),
        Event::Read { result, .. } => not_executed(result),
        _ => true,
    }
}

/// Whether the pipeline is in shape and the account was told as often as
/// the phase says: not yet before the fourth phase, once in it, and at most
/// once where the transaction fails or is over.
pub open spec fn shaped_and_told(pipeline: Pipeline, told: nat) -> bool {
    &&& shaped(pipeline)
    &&& match phase(pipeline.stage) {
        Phase::Running | Phase::Settling | Phase::Cleaning => told == 0,
        Phase::Told => told == 1,
        _ => told <= 1,
    }
}

/// How often the account was told after the step, if it was told `told`
/// times before.
pub open spec fn told_after(told: nat, request: RequestView) -> nat {
    if is_multisig_cleanup(request) {
        told + 1
    } else {
        told
    }
}

/// One step keeps the pipeline in shape and counts right, and where it
/// ends the transaction as a success that is kept, the account was told once.
#[verifier::rlimit(60)]
#[verifier::spinoff_prover]
pub proof fn lemma_cleanup_is_counted(pipeline: Pipeline, told: nat, event: Event)
    requires
        shaped_and_told(pipeline, told),
        pipeline.spec_accepts(event),
        event_is_sane(event),
    ensures
        shaped_and_told(
            pipeline.spec_step(event).0,
            told_after(told, pipeline.spec_step(event).1),
        ),
        succeeded(pipeline.spec_step(event).1) ==> told_after(
            told,
            pipeline.spec_step(event).1,
        ) == 1,
{
    let state = Pipeline { stage: Stage::Done, ..pipeline };
    let next = pipeline.spec_step(event);
    lemma_running_protocol_violation();
    lemma_settling_protocol_violation();
    lemma_told_protocol_violation();
    lemma_failing_protocol_violation();
    assert(settles(state, state.spec_protocol_violation()));
    assert(keeps_running(state, state.spec_protocol_violation()));
    assert(stays_told(state, state.spec_protocol_violation()));
    assert(stays_failing(state, state.spec_protocol_violation()));
    match phase(pipeline.stage) {
        Phase::Running => {
            lemma_running_after_execute_payload();
            lemma_running_after_extract_publish_request();
            lemma_running_after_deserialize_published_bundle();
            lemma_running_after_verify_module_metadata();
            lemma_running_after_validate_resource_groups();
            lemma_running_after_validate_module_events();
            lemma_running_after_exists_modules();
            lemma_running_after_publish_bundle();
            lemma_running_after_probe_init_module();
            lemma_running_after_execute_init_module();
            assert(keeps_running(state, next));
        },
        Phase::Settling => {
            lemma_settling_after_finish_session();
            lemma_settling_after_charge_change_set();
            lemma_settling_after_respawn();
            assert(settles(state, next));
        },
        Phase::Cleaning => {
            lemma_running_failure_multisig_payload_cleanup();
            lemma_settling_after_respawn_for_cleanup();
            if pipeline.stage is InvalidatingCacheForCleanup {
                assert(keeps_running(state, next));
            } else {
                assert(settles(state, next));
            }
        },
        Phase::Told => {
            lemma_told_after_multisig_cleanup();
            lemma_told_after_read_gas_meter();
            lemma_told_after_success_epilogue();
            lemma_told_after_finish_respawned_session();
            assert(stays_told(state, next));
        },
        Phase::Failing => {
            lemma_failing_keep_or_discard_failure();
            lemma_failing_after_read_gas_meter_after_failure();
            lemma_failing_after_open_epilogue_session();
            lemma_failing_after_extract_abort_info();
            lemma_failing_after_failure_epilogue();
            lemma_failing_after_finish_failed_session();
            assert(stays_failing(state, next));
        },
        Phase::Over => {
            assert(next == state.spec_protocol_violation());
        },
        Phase::Elsewhere => {},
    }
}

/// Whether every one of the events can be handed to the pipeline in turn,
/// and reports no success as a failure.
pub open spec fn runs_on(pipeline: Pipeline, events: Seq<Event>) -> bool
    decreases events.len(),
{
    if events.len() == 0 {
        true
    } else {
        &&& pipeline.spec_accepts(events[0])
        &&& event_is_sane(events[0])
        &&& runs_on(pipeline.spec_step(events[0]).0, events.subrange(1, events.len() as int))
    }
}

/// How often the account is told while the pipeline takes the events.
pub open spec fn times_told(pipeline: Pipeline, events: Seq<Event>) -> nat
    decreases events.len(),
{
    if events.len() == 0 {
        0
    } else {
        told_after(
            times_told(pipeline.spec_step(events[0]).0, events.subrange(1, events.len() as int)),
            pipeline.spec_step(events[0]).1,
        )
    }
}

/// Whether the pipeline, taking the events, hands out the output of a
/// transaction that is kept as a success.
pub open spec fn ends_in_success(pipeline: Pipeline, events: Seq<Event>) -> bool
    decreases events.len(),
{
    if events.len() == 0 {
        false
    } else {
        succeeded(pipeline.spec_step(events[0]).1) || ends_in_success(
            pipeline.spec_step(events[0]).0,
            events.subrange(1, events.len() as int),
        )
    }
}

/// The same as `law_multisig_cleanup_exactly_once`, from any phase.
proof fn lemma_cleanup_from(pipeline: Pipeline, told: nat, events: Seq<Event>)
    requires
        shaped_and_told(pipeline, told),
        runs_on(pipeline, events),
    ensures
        told + times_told(pipeline, events) <= 1,
        ends_in_success(pipeline, events) ==> told + times_told(pipeline, events) == 1,
    decreases events.len(),
{
    if events.len() > 0 {
        let next = pipeline.spec_step(events[0]);
        let rest = events.subrange(1, events.len() as int);
        lemma_cleanup_is_counted(pipeline, told, events[0]);
        lemma_cleanup_from(next.0, told_after(told, next.1), rest);
        if succeeded(next.1) {
            // Nothing is told once the pipeline is over.
            assert(phase(next.0.stage) is Over || phase(next.0.stage) is Failing || phase(
                next.0.stage,
            ) is Told);
        }
    }
}

/// A multisig account is told exactly once how its payload went. From the
/// moment the payload starts to run, whatever the runtime answers, as long
/// as it reports no success as a failure: the account is told at most once,
/// and where the transaction is kept as a success it was told once.
pub proof fn law_multisig_cleanup_exactly_once(pipeline: Pipeline, events: Seq<Event>)
    requires
        pipeline.stage == Stage::ExecutingPayload,
        pipeline.multisig_address is Some,
        pipeline.in_multisig_payload,
        pipeline.payload_bytes is Some,
        runs_on(pipeline, events),
    ensures
        times_told(pipeline, events) <= 1,
        ends_in_success(pipeline, events) ==> times_told(pipeline, events) == 1,
{
    lemma_cleanup_from(pipeline, 0, events);
}

/// The payload of a multisig account starts to run in the shape that
/// `law_multisig_cleanup_exactly_once` asks for.
pub proof fn law_multisig_payload_starts_in_shape(
    pipeline: Pipeline,
    payload_bytes: Vec<u8>,
    payload: MultisigTransactionPayload,
)
    requires
        pipeline.multisig_address is Some,
    ensures
        ({
            let next = pipeline.spec_after_decode_multisig_payload(payload_bytes, Some(payload)).0;
            next.stage == Stage::ExecutingPayload && next.multisig_address is Some
                && next.in_multisig_payload && next.payload_bytes is Some
        }),
{
}

} // verus!
