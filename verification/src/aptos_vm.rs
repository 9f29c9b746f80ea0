//! The virtual machine as the node sees it: its configuration, and the
//! pipeline that takes one transaction from its prologue to its output.
//!
//! The pipeline is a transition function. `AptosVM::execute_single_transaction`
//! and its relatives start it and name the first request; `Pipeline::step`
//! takes the event that answers a request and names the next one, until the
//! request is the result.

use crate::change_set::no_aggregator_writes;
use crate::config::Features;
use crate::output::{empty_output, has_new_epoch_event, VMOutput};
use crate::request::{Request, RequestOf, RequestView, TransactionLabel, ViolationReport};
use crate::transaction::{
    CompiledModule, EntryFunction, ExecutionStatus, FeeStatement, ModuleBundle, Multisig, SessionId,
    SignatureVerifiedTransaction, SignedTransaction, Transaction, TransactionAuthenticator,
    TransactionMetadata, TransactionPayload, TransactionStatus, VMValidatorResult,
    ValidatorTransaction,
};
use crate::resolver::{ExecutorView, ResourceGroupView};
use crate::types::HashValue;
use crate::transaction::{BlockMetadata, WriteSetPayload, WriteSetScript};
use crate::types::{AccountAddress, ModuleId, TypeTag};
use crate::vm_status::{AbortLocation, EUSER_TYPE_LOADING_FAILURE, StatusCode, StatusType, VMStatus};
use vstd::prelude::*;

verus! {

/// What the virtual machine was set up with: the on-chain configuration of
/// the block, and the switches of the process.
#[derive(Clone, Copy, Debug, PartialEq, Eq, Structural)]
pub struct AptosVMImpl {
    /// The version of the gas rules.
    pub gas_feature_version: u64,
    /// The feature flags.
    pub features: Features,
    /// Whether the gas schedule could be read from the chain.
    pub gas_parameters_loaded: bool,
    /// Whether the storage gas schedule could be read from the chain.
    pub storage_gas_parameters_loaded: bool,
    /// Whether publishing by module bundle is refused, as it is outside tests.
    pub module_bundle_disallowed: bool,
}

/// The virtual machine.
#[derive(Clone, Copy, Debug, PartialEq, Eq, Structural)]
pub struct AptosVM {
    pub is_simulation: bool,
    pub vm_impl: AptosVMImpl,
}

/// The first gas rules under which the counters of the gas meter are
/// checked against each other.
pub const GAS_FEATURE_VERSION_WITH_CONSISTENCY_CHECK: u64 = 12;

/// What a user transaction asks for, by kind.
#[derive(Clone, Copy, Debug, PartialEq, Eq, Structural)]
pub enum PayloadKind {
    Script,
    ModuleBundle,
    EntryFunction,
    Multisig,
}

/// What the pipeline runs for.
#[derive(Clone, Copy, Debug, PartialEq, Eq, Structural)]
pub enum Purpose {
    /// To execute the transaction.
    Execution,
    /// To say whether the transaction may enter the pool.
    Validation,
}

/// The numbers of a user transaction.
#[derive(Clone, Copy, Debug, PartialEq, Eq, Structural)]
pub struct TransactionNumbers {
    pub sender: AccountAddress,
    pub sequence_number: u64,
    pub max_gas_amount: u64,
    pub gas_unit_price: u64,
    pub transaction_size: u64,
    /// Whether another account than the sender pays the fee.
    pub has_fee_payer: bool,
    /// Whether the transaction is signed as a single sender.
    pub is_single_sender: bool,
    pub payload_kind: PayloadKind,
}

/// What the pipeline waits for.
pub enum Stage {
    MakingGasMeter,
    OpeningPrologueSession,
    CheckingGas,
    RunningPrologue,
    RunningMultisigPrologue,
    RefreshingSession,
    CreatingAccount,
    ChargingIntrinsicGas,
    ExecutingPayload,
    EncodingMultisigPayload,
    FetchingMultisigPayload,
    DecodingMultisigPayload,
    ProbingModuleBundle,
    DeserializingModuleBundle,
    ExtractingPublishRequest,
    DeserializingPublishedBundle,
    VerifyingModuleMetadata { index: usize },
    ValidatingResourceGroups,
    ValidatingModuleEvents,
    CheckingExistingModules,
    PublishingBundle,
    ProbingInitModule { index: usize },
    ExecutingInitModule { index: usize },
    FinishingSession,
    ChargingChangeSet,
    Respawning,
    InvalidatingCacheForCleanup { error: VMStatus },
    RespawningForCleanup { error: VMStatus },
    RunningMultisigCleanup,
    ReadingGasMeter,
    RunningSuccessEpilogue { fee_statement: FeeStatement },
    FinishingRespawnedSession { fee_statement: FeeStatement },
    InvalidatingCache { error: VMStatus },
    ReadingGasMeterAfterFailure { error: VMStatus },
    OpeningEpilogueSession { error: VMStatus, gas_remaining: u64, fee_statement: FeeStatement },
    ExtractingAbortInfo {
        error: VMStatus,
        gas_remaining: u64,
        fee_statement: FeeStatement,
        location: AbortLocation,
        code: u64,
    },
    RunningFailureEpilogue { error: VMStatus, fee_statement: FeeStatement, status: ExecutionStatus },
    FinishingFailedSession { error: VMStatus, fee_statement: FeeStatement, status: ExecutionStatus },
    OpeningBlockSession { block_metadata: BlockMetadata },
    RunningBlockPrologue,
    FinishingBlockSession,
    OpeningGenesisSession { script: WriteSetScript },
    RunningGenesisScript,
    FinishingGenesisSession,
    ReadingChangeSet,
    MakingViewGasMeter { call: ViewCall },
    OpeningViewSession { call: ViewCall },
    ExecutingViewFunction,
    /// The result was handed out; nothing is waited for.
    Done,
}

/// A call of a view function.
pub struct ViewCall {
    pub module_id: ModuleId,
    pub func_name: String,
    pub type_args: Vec<TypeTag>,
    pub arguments: Vec<Vec<u8>>,
}

/// A publish request that is being resolved.
pub struct PendingPublish {
    /// The account to publish under.
    pub destination: AccountAddress,
    /// The modules, while no request holds them.
    pub bundle: Option<ModuleBundle>,
    /// The names that the package announces; none for a module bundle that
    /// the transaction itself carries, which announces nothing.
    pub expected_modules: Option<Vec<String>>,
    /// The modules that may be depended on, by address.
    pub allowed_deps: Option<crate::keyed_map::KeyedMap<AccountAddress, Vec<String>>>,
    /// The decoded modules, once they are known; `Some(None)` where the
    /// bundle did not decode.
    pub modules: Option<Option<Vec<CompiledModule>>>,
    /// For each module, whether it existed before it was published.
    pub exists: Option<Vec<bool>>,
}

/// The pipeline of one transaction, between two requests.
pub struct Pipeline {
    pub vm: AptosVM,
    pub purpose: Purpose,
    pub stage: Stage,
    /// The numbers of the transaction; those of a transaction of the system
    /// are all zero.
    pub numbers: TransactionNumbers,
    /// The signers besides the sender, if there are any.
    pub secondary_signers: Option<Vec<AccountAddress>>,
    /// The payload, until it is executed.
    pub payload: Option<TransactionPayload>,
    /// Whether modules of a publish request that may still fail were loaded
    /// into the runtime's cache.
    pub new_published_modules_loaded: bool,
    /// Whether what runs is the payload of a multisig account, whose failure
    /// is recorded on the account instead of failing the transaction.
    pub in_multisig_payload: bool,
    /// The multisig account of the transaction, if it is one for such.
    pub multisig_address: Option<AccountAddress>,
    /// The encoded payload that the multisig account runs.
    pub payload_bytes: Option<Vec<u8>>,
    /// The publish request that is being resolved.
    pub publish: Option<PendingPublish>,
    /// The refund that the storage fee left.
    pub storage_refund: u64,
    /// The label of the transaction.
    pub label: Option<TransactionLabel>,
}

/// The numbers that a transaction of the system has.
pub open spec fn system_numbers() -> TransactionNumbers {
    TransactionNumbers {
        sender: AccountAddress::spec_zero(),
        sequence_number: 0,
        max_gas_amount: 0,
        gas_unit_price: 0,
        transaction_size: 0,
        has_fee_payer: false,
        is_single_sender: false,
        payload_kind: PayloadKind::Script,
    }
}

/// The kind of `payload`.
pub open spec fn payload_kind(payload: TransactionPayload) -> PayloadKind {
    match payload {
        TransactionPayload::Script(_) => PayloadKind::Script,
        TransactionPayload::ModuleBundle(_) => PayloadKind::ModuleBundle,
        TransactionPayload::EntryFunction(_) => PayloadKind::EntryFunction,
        TransactionPayload::Multisig(_) => PayloadKind::Multisig,
    }
}

/// The numbers of `txn`.
pub open spec fn numbers_of(txn: SignedTransaction) -> TransactionNumbers {
    TransactionNumbers {
        sender: txn.sender,
        sequence_number: txn.sequence_number,
        max_gas_amount: txn.max_gas_amount,
        gas_unit_price: txn.gas_unit_price,
        transaction_size: txn.raw_txn_bytes_len,
        has_fee_payer: txn.authenticator is FeePayer,
        is_single_sender: txn.authenticator is SingleSender,
        payload_kind: payload_kind(txn.payload),
    }
}

/// How loudly `vm_status` is reported, if it is a violated invariant. A
/// type argument of the user that does not load is expected, and so are an
/// abort of speculative execution and a storage error; a failure of a known
/// framework function or of type resolution may be speculative; everything
/// else is an alert, first of all what the paranoid checks and the reference
/// counts find.
pub open spec fn violation_report(vm_status: VMStatus) -> ViolationReport {
    let code = vm_status.spec_status_code();
    if code.spec_status_type() != StatusType::InvariantViolation {
        ViolationReport::Silent
    } else if code == StatusCode::TYPE_RESOLUTION_FAILURE && vm_status.spec_sub_status() == Some(
        EUSER_TYPE_LOADING_FAILURE,
    ) {
        ViolationReport::Silent
    } else if code == StatusCode::UNEXPECTED_ERROR_FROM_KNOWN_MOVE_FUNCTION || code
        == StatusCode::TYPE_RESOLUTION_FAILURE {
        ViolationReport::Speculative
    } else if code == StatusCode::SPECULATIVE_EXECUTION_ABORT_ERROR || code
        == StatusCode::STORAGE_ERROR {
        ViolationReport::Silent
    } else {
        ViolationReport::Alert
    }
}

/// How loudly `vm_status` is reported.
pub fn report_violation(vm_status: &VMStatus) -> (result: ViolationReport)
    ensures
        result == violation_report(*vm_status),
{
    let code = vm_status.status_code();
    if code.status_type() != StatusType::InvariantViolation {
        ViolationReport::Silent
    } else if code == StatusCode::TYPE_RESOLUTION_FAILURE && vm_status.sub_status() == Some(
        EUSER_TYPE_LOADING_FAILURE,
    ) {
        ViolationReport::Silent
    } else if code == StatusCode::UNEXPECTED_ERROR_FROM_KNOWN_MOVE_FUNCTION || code
        == StatusCode::TYPE_RESOLUTION_FAILURE {
        ViolationReport::Speculative
    } else if code == StatusCode::SPECULATIVE_EXECUTION_ABORT_ERROR || code
        == StatusCode::STORAGE_ERROR {
        ViolationReport::Silent
    } else {
        ViolationReport::Alert
    }
}

/// What the validator says after the prologue. A failure is the reason to
/// reject the transaction, unless it is a sequence number that is too new:
/// such a transaction is accepted, like one that passed, and ranked by its
/// gas price.
pub open spec fn validator_result(
    outcome: Result<(), VMStatus>,
    gas_unit_price: u64,
) -> VMValidatorResult {
    match outcome {
        Err(error) => if error.spec_status_code() != StatusCode::SEQUENCE_NUMBER_TOO_NEW {
            VMValidatorResult { status: Some(error.spec_status_code()), score: 0 }
        } else {
            VMValidatorResult { status: None, score: gas_unit_price }
        },
        Ok(_) => VMValidatorResult { status: None, score: gas_unit_price },
    }
}

/// What the validator says after the prologue.
pub fn validation_result(outcome: Result<(), VMStatus>, gas_unit_price: u64) -> (result:
    VMValidatorResult)
    ensures
        result == validator_result(outcome, gas_unit_price),
{
    match outcome {
        Err(error) => {
            let code = error.status_code();
            if code != StatusCode::SEQUENCE_NUMBER_TOO_NEW {
                VMValidatorResult::new(Some(code), 0)
            } else {
                VMValidatorResult::new(None, gas_unit_price)
            }
        },
        Ok(_) => VMValidatorResult::new(None, gas_unit_price),
    }
}

/// What the failure of a framework function that must not fail is reported
/// as: an abort of speculative execution as itself, anything else as an
/// unexpected error from a known function, with the sub-status it had.
pub open spec fn expected_failure(error: VMStatus) -> VMStatus {
    if error.spec_status_code() == StatusCode::SPECULATIVE_EXECUTION_ABORT_ERROR {
        error
    } else {
        VMStatus::Error {
            status_code: StatusCode::UNEXPECTED_ERROR_FROM_KNOWN_MOVE_FUNCTION,
            sub_status: error.spec_sub_status(),
        }
    }
}

/// What the failure of a framework function that must not fail is reported
/// as.
pub fn expect_only_successful_execution(error: VMStatus) -> (result: VMStatus)
    ensures
        result == expected_failure(error),
{
    if error.status_code() == StatusCode::SPECULATIVE_EXECUTION_ABORT_ERROR {
        error
    } else {
        VMStatus::Error {
            status_code: StatusCode::UNEXPECTED_ERROR_FROM_KNOWN_MOVE_FUNCTION,
            sub_status: error.sub_status(),
        }
    }
}

/// The signers besides the sender, where the transaction names any.
pub open spec fn named_secondary_signers(authenticator: TransactionAuthenticator) -> Option<
    Vec<AccountAddress>,
> {
    match authenticator {
        TransactionAuthenticator::MultiAgent { secondary_signer_addresses } => Some(
            secondary_signer_addresses,
        ),
        TransactionAuthenticator::FeePayer { secondary_signer_addresses, .. } => Some(
            secondary_signer_addresses,
        ),
        _ => None,
    }
}

/// The multisig account that the payload is for, if it is for one.
pub open spec fn multisig_address_of(payload: TransactionPayload) -> Option<AccountAddress> {
    match payload {
        TransactionPayload::Multisig(multisig) => Some(multisig.multisig_address),
        _ => None,
    }
}

/// The base state as a session reads it: under the gas rules and features
/// of the virtual machine, and with the view that answers for resource
/// groups where the state itself does.
pub struct StorageAdapter<'r, R: ExecutorView> {
    pub executor_view: &'r R,
    pub gas_feature_version: u64,
    pub features: Features,
    pub maybe_resource_group_view: Option<&'r R>,
}

/// The virtual machine set up for simulation: it runs transactions whose
/// signature is not valid, to show what they would do.
pub struct AptosSimulationVM(pub AptosVM);

impl AptosVM {
    /// The virtual machine for execution.
    pub fn new(vm_impl: AptosVMImpl) -> (result: AptosVM)
        ensures
            result == (AptosVM { is_simulation: false, vm_impl }),
    {
        AptosVM { is_simulation: false, vm_impl }
    }

    /// Whether the gas schedule was loaded; the failure to start up if not.
    pub fn gas_params(&self) -> (result: Result<(), VMStatus>)
        ensures
            result == if self.vm_impl.gas_parameters_loaded {
                Ok::<(), VMStatus>(())
            } else {
                Err(
                    VMStatus::Error {
                        status_code: StatusCode::VM_STARTUP_FAILURE,
                        sub_status: None,
                    },
                )
            },
    {
        if self.vm_impl.gas_parameters_loaded {
            Ok(())
        } else {
            Err(VMStatus::error(StatusCode::VM_STARTUP_FAILURE, None))
        }
    }

    /// The base state as a session of this virtual machine reads it.
    pub fn as_move_resolver<'r, R: ExecutorView>(&self, executor_view: &'r R) -> (result:
        StorageAdapter<'r, R>)
        ensures
            result.executor_view == executor_view,
            result.gas_feature_version == self.vm_impl.gas_feature_version,
            result.features == self.vm_impl.features,
            result.maybe_resource_group_view is None,
    {
        StorageAdapter {
            executor_view,
            gas_feature_version: self.vm_impl.gas_feature_version,
            features: self.vm_impl.features,
            maybe_resource_group_view: None,
        }
    }

    /// The same where the state itself answers for resource groups.
    pub fn as_move_resolver_with_group_view<'r, R: ExecutorView + ResourceGroupView>(
        &self,
        executor_view: &'r R,
    ) -> (result: StorageAdapter<'r, R>)
        ensures
            result.executor_view == executor_view,
            result.gas_feature_version == self.vm_impl.gas_feature_version,
            result.features == self.vm_impl.features,
            result.maybe_resource_group_view == Some(executor_view),
    {
        StorageAdapter {
            executor_view,
            gas_feature_version: self.vm_impl.gas_feature_version,
            features: self.vm_impl.features,
            maybe_resource_group_view: Some(executor_view),
        }
    }

    /// Whether the rest of the block has to wait for a new epoch: some event
    /// of the output announces one.
    pub fn should_restart_execution(vm_output: &VMOutput) -> (result: bool)
        ensures
            result == has_new_epoch_event(vm_output@.change_set.events),
    {
        crate::output::should_restart_execution(vm_output)
    }

    /// The pipeline of `txn` before its first request.
    pub open spec fn spec_pipeline_for(
        &self,
        purpose: Purpose,
        txn: SignedTransaction,
    ) -> Pipeline {
        Pipeline {
            vm: *self,
            purpose,
            stage: Stage::Done,
            numbers: numbers_of(txn),
            secondary_signers: named_secondary_signers(txn.authenticator),
            payload: Some(txn.payload),
            new_published_modules_loaded: false,
            in_multisig_payload: false,
            multisig_address: multisig_address_of(txn.payload),
            payload_bytes: None,
            publish: None,
            storage_refund: 0,
            label: Some(TransactionLabel::Sender(txn.sender)),
        }
    }

    /// The pipeline of `txn` before its first request.
    #[verifier::when_used_as_spec(spec_pipeline_for)]
    pub fn pipeline_for(&self, purpose: Purpose, txn: SignedTransaction) -> (result: Pipeline)
        ensures
            result == self.spec_pipeline_for(purpose, txn),
    {
        let numbers = TransactionNumbers {
            sender: txn.sender,
            sequence_number: txn.sequence_number,
            max_gas_amount: txn.max_gas_amount,
            gas_unit_price: txn.gas_unit_price,
            transaction_size: txn.raw_txn_bytes_len,
            has_fee_payer: match &txn.authenticator {
                TransactionAuthenticator::FeePayer { .. } => true,
                _ => false,
            },
            is_single_sender: match &txn.authenticator {
                TransactionAuthenticator::SingleSender => true,
                _ => false,
            },
            payload_kind: match &txn.payload {
                TransactionPayload::Script(_) => PayloadKind::Script,
                TransactionPayload::ModuleBundle(_) => PayloadKind::ModuleBundle,
                TransactionPayload::EntryFunction(_) => PayloadKind::EntryFunction,
                TransactionPayload::Multisig(_) => PayloadKind::Multisig,
            },
        };
        let multisig_address = match &txn.payload {
            TransactionPayload::Multisig(multisig) => Some(multisig.multisig_address),
            _ => None,
        };
        let secondary_signers = match txn.authenticator {
            TransactionAuthenticator::MultiAgent { secondary_signer_addresses } => Some(
                secondary_signer_addresses,
            ),
            TransactionAuthenticator::FeePayer { secondary_signer_addresses, .. } => Some(
                secondary_signer_addresses,
            ),
            _ => None,
        };
        Pipeline {
            vm: *self,
            purpose,
            stage: Stage::Done,
            numbers,
            secondary_signers,
            payload: Some(txn.payload),
            new_published_modules_loaded: false,
            in_multisig_payload: false,
            multisig_address,
            payload_bytes: None,
            publish: None,
            storage_refund: 0,
            label: Some(TransactionLabel::Sender(txn.sender)),
        }
    }

    /// The pipeline of a transaction of the system before its first
    /// request.
    pub open spec fn spec_system_pipeline(&self, label: Option<TransactionLabel>) -> Pipeline {
        Pipeline {
            vm: *self,
            purpose: Purpose::Execution,
            stage: Stage::Done,
            numbers: system_numbers(),
            secondary_signers: None,
            payload: None,
            new_published_modules_loaded: false,
            in_multisig_payload: false,
            multisig_address: None,
            payload_bytes: None,
            publish: None,
            storage_refund: 0,
            label,
        }
    }

    /// The pipeline of a transaction of the system before its first
    /// request.
    #[verifier::when_used_as_spec(spec_system_pipeline)]
    pub fn system_pipeline(&self, label: Option<TransactionLabel>) -> (result: Pipeline)
        ensures
            result == self.spec_system_pipeline(label),
    {
        Pipeline {
            vm: *self,
            purpose: Purpose::Execution,
            stage: Stage::Done,
            numbers: TransactionNumbers {
                sender: AccountAddress::zero(),
                sequence_number: 0,
                max_gas_amount: 0,
                gas_unit_price: 0,
                transaction_size: 0,
                has_fee_payer: false,
                is_single_sender: false,
                payload_kind: PayloadKind::Script,
            },
            secondary_signers: None,
            payload: None,
            new_published_modules_loaded: false,
            in_multisig_payload: false,
            multisig_address: None,
            payload_bytes: None,
            publish: None,
            storage_refund: 0,
            label,
        }
    }

    /// The balance to make the standard gas meter with, or the failure
    /// to start up where a gas schedule is missing.
    pub open spec fn spec_make_standard_gas_meter(&self, balance: u64) -> Result<u64, VMStatus> {
        if self.vm_impl.gas_parameters_loaded && self.vm_impl.storage_gas_parameters_loaded {
            Ok(balance)
        } else {
            Err(VMStatus::Error { status_code: StatusCode::VM_STARTUP_FAILURE, sub_status: None })
        }
    }

    /// The balance to make the standard gas meter with, or the failure
    /// to start up where a gas schedule is missing.
    #[verifier::when_used_as_spec(spec_make_standard_gas_meter)]
    pub fn make_standard_gas_meter(&self, balance: u64) -> (result: Result<u64, VMStatus>)
        ensures
            result == self.spec_make_standard_gas_meter(balance),
    {
        if self.vm_impl.gas_parameters_loaded && self.vm_impl.storage_gas_parameters_loaded {
            Ok(balance)
        } else {
            Err(VMStatus::error(StatusCode::VM_STARTUP_FAILURE, None))
        }
    }

    /// What `execute_user_transaction` hands back.
    pub open spec fn spec_execute_user_transaction(
        &self,
        txn: SignedTransaction,
    ) -> (Pipeline, RequestView) {
        let pipeline = self.pipeline_for(Purpose::Execution, txn);
        match self.make_standard_gas_meter(pipeline.numbers.max_gas_amount) {
            Err(error) => pipeline.spec_finish_discarded(error),
            Ok(balance) => (
                Pipeline { stage: Stage::MakingGasMeter, ..pipeline },
                RequestOf::MakeGasMeter { balance },
            ),
        }
    }

    /// Starts the execution of a user transaction. Without the gas
    /// schedules the transaction is discarded; else the first request is for
    /// its gas meter, with the gas amount it may use as the balance.
    pub fn execute_user_transaction(&self, txn: SignedTransaction) -> (result: (Pipeline, Request))
        ensures
            result.0 == self.spec_execute_user_transaction(txn).0,
            result.1@ == self.spec_execute_user_transaction(txn).1,
    {
        let pipeline = self.pipeline_for(Purpose::Execution, txn);
        match self.make_standard_gas_meter(pipeline.numbers.max_gas_amount) {
            Err(error) => pipeline.finish_discarded(error),
            Ok(balance) => (
                Pipeline { stage: Stage::MakingGasMeter, ..pipeline },
                RequestOf::MakeGasMeter { balance },
            ),
        }
    }

    /// What `execute_user_transaction_with_custom_gas_meter` hands back.
    pub open spec fn spec_execute_user_transaction_with_custom_gas_meter(
        &self,
        txn: SignedTransaction,
    ) -> (Pipeline, RequestView) {
        let pipeline = self.pipeline_for(Purpose::Execution, txn);
        match self.make_standard_gas_meter(pipeline.numbers.max_gas_amount) {
            Err(error) => pipeline.spec_give_up(error),
            Ok(balance) => (
                Pipeline { stage: Stage::MakingGasMeter, ..pipeline },
                RequestOf::MakeGasMeter { balance },
            ),
        }
    }

    /// Starts the execution of a user transaction against a gas meter that
    /// the caller makes. Without the gas schedules there is no result.
    pub fn execute_user_transaction_with_custom_gas_meter(
        &self,
        txn: SignedTransaction,
    ) -> (result: (Pipeline, Request))
        ensures
            result.0 == self.spec_execute_user_transaction_with_custom_gas_meter(txn).0,
            result.1@ == self.spec_execute_user_transaction_with_custom_gas_meter(txn).1,
    {
        let pipeline = self.pipeline_for(Purpose::Execution, txn);
        match self.make_standard_gas_meter(pipeline.numbers.max_gas_amount) {
            Err(error) => pipeline.give_up(error),
            Ok(balance) => (
                Pipeline { stage: Stage::MakingGasMeter, ..pipeline },
                RequestOf::MakeGasMeter { balance },
            ),
        }
    }

    /// What `process_block_prologue` hands back.
    pub open spec fn spec_process_block_prologue(
        &self,
        block_metadata: BlockMetadata,
    ) -> (Pipeline, RequestView) {
        let session_id = SessionId::BlockMeta { id: block_metadata.id };
        (
            Pipeline {
                stage: Stage::OpeningBlockSession { block_metadata },
                ..self.system_pipeline(Some(TransactionLabel::BlockPrologue))
            },
            RequestOf::NewSession { session_id, release_resource_group_cache: false },
        )
    }

    /// Starts the prologue of a block: opens its session.
    pub fn process_block_prologue(
        &self,
        block_metadata: BlockMetadata,
    ) -> (result: (Pipeline, Request))
        ensures
            result.0 == self.spec_process_block_prologue(block_metadata).0,
            result.1@ == self.spec_process_block_prologue(block_metadata).1,
    {
        let session_id = SessionId::BlockMeta { id: block_metadata.id };
        (
            Pipeline {
                stage: Stage::OpeningBlockSession { block_metadata },
                ..self.system_pipeline(Some(TransactionLabel::BlockPrologue))
            },
            RequestOf::NewSession { session_id, release_resource_group_cache: false },
        )
    }

    /// What `process_waypoint_change_set` hands back.
    pub open spec fn spec_process_waypoint_change_set(
        &self,
        write_set_payload: WriteSetPayload,
    ) -> (Pipeline, RequestView) {
        self.spec_execute_write_set(write_set_payload)
    }

    /// Starts a genesis transaction: its write set is made, has to announce
    /// a new block and a new epoch, and every slot it writes is read.
    pub fn process_waypoint_change_set(
        &self,
        write_set_payload: WriteSetPayload,
    ) -> (result: (Pipeline, Request))
        requires
            write_set_payload matches WriteSetPayload::Direct(change_set) ==> no_aggregator_writes(
                change_set@,
            ),
        ensures
            result.0 == self.spec_process_waypoint_change_set(write_set_payload).0,
            result.1@ == self.spec_process_waypoint_change_set(write_set_payload).1,
    {
        self.execute_write_set(write_set_payload)
    }

    /// What `execute_write_set` hands back.
    pub open spec fn spec_execute_write_set(
        &self,
        write_set_payload: WriteSetPayload,
    ) -> (Pipeline, RequestView) {
        let pipeline = self.system_pipeline(Some(TransactionLabel::WaypointWriteSet));
        match write_set_payload {
            WriteSetPayload::Direct(change_set) => pipeline.spec_validate_waypoint_change_set(
                change_set,
            ),
            WriteSetPayload::Script(script) => (
                Pipeline { stage: Stage::OpeningGenesisSession { script }, ..pipeline },
                RequestOf::NewSession {
                    session_id: SessionId::Genesis { id: HashValue::zero() },
                    release_resource_group_cache: false,
                },
            ),
        }
    }

    /// Makes the write set of a genesis transaction: a change set that is
    /// given is taken as it is; a script is run in a session of its own, as
    /// the VM itself together with the account it is to run as.
    pub fn execute_write_set(
        &self,
        write_set_payload: WriteSetPayload,
    ) -> (result: (Pipeline, Request))
        requires
            write_set_payload matches WriteSetPayload::Direct(change_set) ==> no_aggregator_writes(
                change_set@,
            ),
        ensures
            result.0 == self.spec_execute_write_set(write_set_payload).0,
            result.1@ == self.spec_execute_write_set(write_set_payload).1,
    {
        let pipeline = self.system_pipeline(Some(TransactionLabel::WaypointWriteSet));
        match write_set_payload {
            WriteSetPayload::Direct(change_set) => pipeline.validate_waypoint_change_set(
                change_set,
            ),
            WriteSetPayload::Script(script) => (
                Pipeline { stage: Stage::OpeningGenesisSession { script }, ..pipeline },
                RequestOf::NewSession {
                    session_id: SessionId::Genesis { id: HashValue::zero() },
                    release_resource_group_cache: false,
                },
            ),
        }
    }

    /// What `process_validator_transaction` hands back.
    pub open spec fn spec_process_validator_transaction(
        &self,
        txn: ValidatorTransaction,
    ) -> (Pipeline, RequestView) {
        self.system_pipeline(Some(TransactionLabel::ValidatorTransaction)).spec_finish(
            VMStatus::Executed,
            empty_output(
                TransactionStatus::Keep(ExecutionStatus::Success),
            ),
        )
    }

    /// Runs a transaction of the validators: it does nothing yet and is kept
    /// as a success.
    pub fn process_validator_transaction(
        &self,
        txn: ValidatorTransaction,
    ) -> (result: (Pipeline, Request))
        ensures
            result.0 == self.spec_process_validator_transaction(txn).0,
            result.1@ == self.spec_process_validator_transaction(txn).1,
    {
        self.system_pipeline(Some(TransactionLabel::ValidatorTransaction)).finish(
            VMStatus::Executed,
            VMOutput::empty_with_status(
                TransactionStatus::Keep(ExecutionStatus::Success),
            ),
        )
    }

    /// What `execute_single_transaction` hands back.
    pub open spec fn spec_execute_single_transaction(
        &self,
        txn: SignatureVerifiedTransaction,
    ) -> (Pipeline, RequestView) {
        match txn {
            SignatureVerifiedTransaction::Invalid(_) => self.system_pipeline(None).spec_finish_discarded(
                VMStatus::error(StatusCode::INVALID_SIGNATURE, None),
            ),
            SignatureVerifiedTransaction::Valid(txn) => match txn {
                Transaction::BlockMetadata(block_metadata) => self.spec_process_block_prologue(
                    block_metadata,
                ),
                Transaction::GenesisTransaction(write_set_payload) => self.spec_process_waypoint_change_set(
                    write_set_payload,
                ),
                Transaction::UserTransaction(txn) => self.spec_execute_user_transaction(txn),
                Transaction::StateCheckpoint(_) => self.system_pipeline(
                    Some(TransactionLabel::StateCheckpoint),
                ).spec_finish(
                    VMStatus::Executed,
                    empty_output(
                        TransactionStatus::Keep(ExecutionStatus::Success),
                    ),
                ),
                Transaction::ValidatorTransaction(txn) => self.spec_process_validator_transaction(
                    txn,
                ),
            },
        }
    }

    /// Starts the execution of one transaction of a block, of whatever kind.
    /// A transaction whose signature is invalid is discarded; a state
    /// checkpoint is kept as a success that does nothing.
    pub fn execute_single_transaction(
        &self,
        txn: SignatureVerifiedTransaction,
    ) -> (result: (Pipeline, Request))
        requires
            !self.is_simulation, txn matches SignatureVerifiedTransaction::Valid(
            Transaction::GenesisTransaction(WriteSetPayload::Direct(change_set)),
        ) ==> no_aggregator_writes(change_set@),
        ensures
            result.0 == self.spec_execute_single_transaction(txn).0,
            result.1@ == self.spec_execute_single_transaction(txn).1,
    {
        match txn {
            SignatureVerifiedTransaction::Invalid(_) => self.system_pipeline(None).finish_discarded(
                VMStatus::error(StatusCode::INVALID_SIGNATURE, None),
            ),
            SignatureVerifiedTransaction::Valid(txn) => match txn {
                Transaction::BlockMetadata(block_metadata) => self.process_block_prologue(
                    block_metadata,
                ),
                Transaction::GenesisTransaction(write_set_payload) => self.process_waypoint_change_set(
                    write_set_payload,
                ),
                Transaction::UserTransaction(txn) => self.execute_user_transaction(txn),
                Transaction::StateCheckpoint(_) => self.system_pipeline(
                    Some(TransactionLabel::StateCheckpoint),
                ).finish(
                    VMStatus::Executed,
                    VMOutput::empty_with_status(
                        TransactionStatus::Keep(ExecutionStatus::Success),
                    ),
                ),
                Transaction::ValidatorTransaction(txn) => self.process_validator_transaction(txn),
            },
        }
    }

    /// What `validate_transaction` hands back.
    pub open spec fn spec_validate_transaction(
        &self,
        transaction: SignedTransaction,
        signature_valid: bool,
    ) -> (Pipeline, RequestView) {
        let pipeline = self.pipeline_for(Purpose::Validation, transaction);
        if !self.vm_impl.features.single_sender_authenticator && pipeline.numbers.is_single_sender {
            (
                pipeline,
                RequestOf::Validated {
                    result: VMValidatorResult {
                        status: Some(StatusCode::FEATURE_UNDER_GATING),
                        score: 0,
                    },
                },
            )
        } else if !signature_valid {
            (
                pipeline,
                RequestOf::Validated {
                    result: VMValidatorResult {
                        status: Some(StatusCode::INVALID_SIGNATURE),
                        score: 0,
                    },
                },
            )
        } else {
            pipeline.spec_execute_user_transaction_impl()
        }
    }

    /// Starts the validation of a transaction for the pool, given what the
    /// check of its signature found. A transaction signed as a single sender
    /// is refused where that is not enabled, and so is one whose signature is
    /// invalid. Else the prologue decides.
    pub fn validate_transaction(
        &self,
        transaction: SignedTransaction,
        signature_valid: bool,
    ) -> (result: (Pipeline, Request))
        ensures
            result.0 == self.spec_validate_transaction(transaction, signature_valid).0,
            result.1@ == self.spec_validate_transaction(transaction, signature_valid).1,
    {
        let pipeline = self.pipeline_for(Purpose::Validation, transaction);
        if !self.vm_impl.features.single_sender_authenticator && pipeline.numbers.is_single_sender {
            (
                pipeline,
                RequestOf::Validated {
                    result: VMValidatorResult {
                        status: Some(StatusCode::FEATURE_UNDER_GATING),
                        score: 0,
                    },
                },
            )
        } else if !signature_valid {
            (
                pipeline,
                RequestOf::Validated {
                    result: VMValidatorResult {
                        status: Some(StatusCode::INVALID_SIGNATURE),
                        score: 0,
                    },
                },
            )
        } else {
            pipeline.execute_user_transaction_impl()
        }
    }

    /// What `execute_view_function` hands back.
    pub open spec fn spec_execute_view_function(
        &self,
        module_id: ModuleId,
        func_name: String,
        type_args: Vec<TypeTag>,
        arguments: Vec<Vec<u8>>,
        gas_budget: u64,
    ) -> (Pipeline, RequestView) {
        let pipeline = self.system_pipeline(None);
        if !(self.vm_impl.gas_parameters_loaded && self.vm_impl.storage_gas_parameters_loaded) {
            (
                pipeline,
                RequestOf::Viewed {
                    outcome: Err(VMStatus::error(StatusCode::VM_STARTUP_FAILURE, None)),
                },
            )
        } else {
            (
                Pipeline {
                    stage: Stage::MakingViewGasMeter {
                        call: ViewCall { module_id, func_name, type_args, arguments },
                    },
                    ..pipeline
                },
                RequestOf::MakeGasMeter { balance: gas_budget },
            )
        }
    }

    /// Starts a call of a view function with a gas budget of its own.
    /// Without the gas schedules there is no result.
    pub fn execute_view_function(
        &self,
        module_id: ModuleId,
        func_name: String,
        type_args: Vec<TypeTag>,
        arguments: Vec<Vec<u8>>,
        gas_budget: u64,
    ) -> (result: (Pipeline, Request))
        ensures
            result.0 == self.spec_execute_view_function(
                module_id,
                func_name,
                type_args,
                arguments,
                gas_budget,
            ).0,
            result.1@ == self.spec_execute_view_function(
                module_id,
                func_name,
                type_args,
                arguments,
                gas_budget,
            ).1,
    {
        let pipeline = self.system_pipeline(None);
        if !(self.vm_impl.gas_parameters_loaded && self.vm_impl.storage_gas_parameters_loaded) {
            (
                pipeline,
                RequestOf::Viewed {
                    outcome: Err(VMStatus::error(StatusCode::VM_STARTUP_FAILURE, None)),
                },
            )
        } else {
            (
                Pipeline {
                    stage: Stage::MakingViewGasMeter {
                        call: ViewCall { module_id, func_name, type_args, arguments },
                    },
                    ..pipeline
                },
                RequestOf::MakeGasMeter { balance: gas_budget },
            )
        }
    }

    /// The pipeline that cleans up after a transaction with these numbers
    /// failed.
    pub open spec fn spec_cleanup_pipeline(&self, txn_data: TransactionMetadata) -> Pipeline {
        Pipeline {
            vm: *self,
            purpose: Purpose::Execution,
            stage: Stage::Done,
            numbers: TransactionNumbers {
                sender: txn_data.sender,
                sequence_number: txn_data.sequence_number,
                max_gas_amount: txn_data.max_gas_amount,
                gas_unit_price: txn_data.gas_unit_price,
                transaction_size: txn_data.transaction_size,
                has_fee_payer: txn_data.fee_payer is Some,
                is_single_sender: false,
                payload_kind: PayloadKind::Script,
            },
            secondary_signers: None,
            payload: None,
            new_published_modules_loaded: false,
            in_multisig_payload: false,
            multisig_address: None,
            payload_bytes: None,
            publish: None,
            storage_refund: 0,
            label: Some(TransactionLabel::Sender(txn_data.sender)),
        }
    }

    /// What `failed_transaction_cleanup` hands back.
    pub open spec fn spec_failed_transaction_cleanup(
        &self,
        error_code: VMStatus,
        txn_data: TransactionMetadata,
    ) -> (Pipeline, RequestView) {
        self.spec_cleanup_pipeline(txn_data).spec_failed_transaction_cleanup_and_keep_vm_status(
            error_code,
        )
    }

    /// Starts the cleanup after a transaction failed with `error_code`: the
    /// output that charges for the transaction, or discards it.
    pub fn failed_transaction_cleanup(&self, error_code: VMStatus, txn_data: &TransactionMetadata) -> (result:
        (Pipeline, Request))
        ensures
            result.0 == self.spec_failed_transaction_cleanup(error_code, *txn_data).0,
            result.1@ == self.spec_failed_transaction_cleanup(error_code, *txn_data).1,
    {
        let pipeline = Pipeline {
            vm: *self,
            purpose: Purpose::Execution,
            stage: Stage::Done,
            numbers: TransactionNumbers {
                sender: txn_data.sender,
                sequence_number: txn_data.sequence_number,
                max_gas_amount: txn_data.max_gas_amount,
                gas_unit_price: txn_data.gas_unit_price,
                transaction_size: txn_data.transaction_size,
                has_fee_payer: txn_data.fee_payer.is_some(),
                is_single_sender: false,
                payload_kind: PayloadKind::Script,
            },
            secondary_signers: None,
            payload: None,
            new_published_modules_loaded: false,
            in_multisig_payload: false,
            multisig_address: None,
            payload_bytes: None,
            publish: None,
            storage_refund: 0,
            label: Some(TransactionLabel::Sender(txn_data.sender)),
        };
        pipeline.failed_transaction_cleanup_and_keep_vm_status(error_code)
    }
}

impl AptosSimulationVM {
    /// The virtual machine for simulation.
    pub fn new(vm_impl: AptosVMImpl) -> (result: AptosSimulationVM)
        ensures
            result.0 == (AptosVM { is_simulation: true, vm_impl }),
    {
        AptosSimulationVM(AptosVM { is_simulation: true, vm_impl })
    }

    /// Starts the simulation of a transaction on a virtual machine made
    /// for it. Only a transaction whose signature is not valid is simulated.
    pub fn create_vm_and_simulate_signed_transaction(
        vm_impl: AptosVMImpl,
        transaction: SignedTransaction,
        signature_valid: bool,
    ) -> (result: (Pipeline, Request))
        requires
            !signature_valid,
        ensures
            result.0 == (AptosVM { is_simulation: true, vm_impl }).spec_execute_user_transaction(
                transaction,
            ).0,
            result.1@ == (AptosVM { is_simulation: true, vm_impl }).spec_execute_user_transaction(
                transaction,
            ).1,
    {
        let vm = AptosSimulationVM::new(vm_impl);
        vm.0.execute_user_transaction(transaction)
    }
}

} // verus!
