//! The conversation between the pipeline and what it runs on. The pipeline
//! names the next operation to perform against the runtime, the gas meter or
//! the base state as a request; whoever drives it performs the operation and
//! hands its outcome back as an event.

use crate::change_set::{ChangeSetView, VMChangeSet};
use crate::config::{Compatibility, DeserializerConfig};
use crate::output::VMOutputOf;
use crate::transaction::{
    AbortInfo, BlockMetadata, CompiledModule, EntryFunction, ExecutionError, FeeStatement,
    ModuleBundle, MultisigTransactionPayload, PublishRequest, Script, SessionId, VMValidatorResult,
};
use crate::types::{AccountAddress, ModuleId, TypeTag};
use crate::vm_status::VMStatus;
use vstd::prelude::*;

verus! {

/// What the gas meter shows at one moment.
#[derive(Clone, Copy, Debug, PartialEq, Eq, Structural)]
pub struct GasReading {
    pub balance: u64,
    pub execution_gas_used: u64,
    pub io_gas_used: u64,
    pub storage_fee_used: u64,
}

/// What a module offers as its initializer.
#[derive(Clone, Copy, Debug, PartialEq, Eq, Structural)]
pub enum InitFunction {
    /// The module has no `init_module`.
    Missing,
    /// The module has one, but it is not private or returns a value.
    Invalid,
    /// The module has one that can be run.
    Valid,
}

/// A function of the framework that the pipeline calls by name. `B` is how
/// a byte string is held.
#[derive(Clone, Debug, PartialEq, Eq)]
pub enum SystemCallOf<B> {
    /// `0x1::account::create_account_if_does_not_exist(sender)`
    CreateAccountIfDoesNotExist { sender: AccountAddress },
    /// `0x1::multisig_account::get_next_transaction_payload(multisig_address, provided_payload)`
    GetNextTransactionPayload { multisig_address: AccountAddress, provided_payload: B },
    /// `0x1::multisig_account::successful_transaction_execution_cleanup(sender,
    /// multisig_address, payload_bytes)`
    SuccessfulTransactionExecutionCleanup {
        sender: AccountAddress,
        multisig_address: AccountAddress,
        payload_bytes: B,
    },
    /// `0x1::multisig_account::failed_transaction_execution_cleanup(sender,
    /// multisig_address, payload_bytes, execution_error)`
    FailedTransactionExecutionCleanup {
        sender: AccountAddress,
        multisig_address: AccountAddress,
        payload_bytes: B,
        execution_error: ExecutionError,
    },
    /// `0x1::block::block_prologue`, signed by `vm_address`, with what the
    /// block says of itself.
    BlockPrologue { vm_address: AccountAddress, block_metadata: BlockMetadata },
    /// `init_module(signer)` of a module that was just published.
    InitModule { module: ModuleId, signer: AccountAddress },
}

/// A call as the pipeline hands it out.
pub type SystemCall = SystemCallOf<Vec<u8>>;

/// A call as a mathematical value.
pub type SystemCallView = SystemCallOf<Seq<u8>>;

impl View for SystemCallOf<Vec<u8>> {
    type V = SystemCallView;

    open spec fn view(&self) -> SystemCallView {
        match *self {
            SystemCallOf::CreateAccountIfDoesNotExist {
                sender,
            } => SystemCallOf::CreateAccountIfDoesNotExist { sender },
            SystemCallOf::GetNextTransactionPayload {
                multisig_address,
                provided_payload,
            } => SystemCallOf::GetNextTransactionPayload {
                multisig_address,
                provided_payload: provided_payload@,
            },
            SystemCallOf::SuccessfulTransactionExecutionCleanup {
                sender,
                multisig_address,
                payload_bytes,
            } => SystemCallOf::SuccessfulTransactionExecutionCleanup {
                sender,
                multisig_address,
                payload_bytes: payload_bytes@,
            },
            SystemCallOf::FailedTransactionExecutionCleanup {
                sender,
                multisig_address,
                payload_bytes,
                execution_error,
            } => SystemCallOf::FailedTransactionExecutionCleanup {
                sender,
                multisig_address,
                payload_bytes: payload_bytes@,
                execution_error,
            },
            SystemCallOf::BlockPrologue {
                vm_address,
                block_metadata,
            } => SystemCallOf::BlockPrologue { vm_address, block_metadata },
            SystemCallOf::InitModule { module, signer } => SystemCallOf::InitModule {
                module,
                signer,
            },
        }
    }
}

/// How a finished execution is to be counted.
#[derive(Clone, Copy, Debug, PartialEq, Eq, Structural)]
pub enum TransactionLabel {
    BlockPrologue,
    WaypointWriteSet,
    /// A user transaction, by its sender.
    Sender(AccountAddress),
    StateCheckpoint,
    ValidatorTransaction,
}

/// How loudly a violated invariant is reported.
#[derive(Clone, Copy, Debug, PartialEq, Eq, Structural)]
pub enum ViolationReport {
    /// The status is no violated invariant, or one that is expected: a type
    /// argument of the user that does not load, a speculative abort, a
    /// storage error.
    Silent,
    /// The violation may be an effect of speculative execution and is
    /// reported only if the execution turns out to be the final one.
    Speculative,
    /// The violation is reported at once.
    Alert,
}

/// What a finished single transaction hands back besides its output.
#[derive(Clone, Copy, Debug, PartialEq, Eq, Structural)]
pub struct Bookkeeping {
    /// How the execution is counted; nothing for a transaction whose
    /// signature is invalid.
    pub label: Option<TransactionLabel>,
    /// How a violated invariant is reported.
    pub report: ViolationReport,
}

/// The next operation to perform, or the result of the whole. `A` is how a
/// list of addresses is held, `B` how a byte string, and `C` how a change
/// set.
pub enum RequestOf<A, B, C> {
    /// Make the gas meter of the transaction, with this balance.
    MakeGasMeter { balance: u64 },
    /// Open a session against the base state, in place of the current one;
    /// before that, release the cache of resource groups if asked to.
    NewSession { session_id: SessionId, release_resource_group_cache: bool },
    /// Check the gas amount and price of the transaction against the limits
    /// of the gas schedule.
    CheckGas,
    /// Run the prologue for scripts and entry functions.
    RunScriptPrologue,
    /// Run the prologue for module bundles.
    RunModulePrologue,
    /// Run the prologue of the multisig account.
    RunMultisigPrologue,
    /// Call a function of the framework, whatever its visibility, against the
    /// gas meter of the transaction if `metered`, else without charge. The
    /// event is `ReturnValues`.
    ExecuteSystemFunction { call: SystemCallOf<B>, metered: bool },
    /// Charge the intrinsic gas of a transaction of this size.
    ChargeIntrinsicGas { transaction_size: u64 },
    /// Load the script, check that it emits no event, check its arguments
    /// against the signers, and run it.
    ExecuteScript { script: Script, senders: A, struct_constructors: bool, metered: bool },
    /// Load the function, check its arguments against the signers, and run
    /// it.
    ExecuteEntryFunction { entry_function: EntryFunction, senders: A, struct_constructors: bool },
    /// Encode the payload. The event is `Encoded`.
    EncodeMultisigPayload { payload: MultisigTransactionPayload },
    /// Decode the bytes as a payload for a multisig account. The event is
    /// `Payload`, and hands the bytes back.
    DecodeMultisigPayload { payload_bytes: B },
    /// Take the publish request, if any, that the executed code left in the
    /// session. The event is `PublishRequest`.
    ExtractPublishRequest,
    /// Decode every module of the bundle under the given limits. The event
    /// is `Modules`, and hands the bundle back.
    DeserializeModuleBundle { bundle: ModuleBundle, config: DeserializerConfig },
    /// Decode every module of the bundle under the limits of the session and
    /// ask whether a module of that name can be loaded. The event is
    /// `Probed`, and hands the bundle back.
    ProbeModuleBundle { bundle: ModuleBundle },
    /// Check the metadata of the module at this place among the modules last
    /// decoded against the framework's rules.
    VerifyModuleMetadata { index: usize },
    /// Check the resource groups that the modules last decoded declare.
    ValidateResourceGroups { safer_resource_groups: bool },
    /// Check the events that the modules last decoded declare.
    ValidateModuleEvents,
    /// Ask of every module last decoded, in order, whether the session knows
    /// a module of that name, up to the first failure. The event is `Exists`.
    ExistsModules,
    /// Publish the bundle under `destination`.
    PublishModuleBundle {
        bundle: ModuleBundle,
        destination: AccountAddress,
        compatibility: Compatibility,
    },
    /// Look for the initializer of the module at this place among the
    /// modules last decoded. The event is `InitFunction`.
    ProbeInitModule { index: usize },
    /// Finish the current session. The event is `ChangeSet`.
    FinishSession,
    /// Charge I/O gas for every write of the change set to a resource, a
    /// module and an aggregator, for every read to write back, and for every
    /// write to a resource group and every group read to write back, in that
    /// order; then process the storage fee for all of it, for a transaction
    /// of this size at this gas price. The event is `Charged`.
    ChargeChangeSet { change_set: C, transaction_size: u64, gas_unit_price: u64 },
    /// Open a session that sees the base state with the change set laid over
    /// it, in place of the current one.
    Respawn { session_id: SessionId, change_set: C, storage_refund: u64 },
    /// Read the gas meter, and check its counters against each other if
    /// asked to. The event is `Gas`.
    ReadGasMeter { check_consistency: bool },
    /// Run the epilogue of a successful transaction in the current session.
    RunSuccessEpilogue { gas_remaining: u64, fee_statement: FeeStatement },
    /// Run the epilogue of a failed transaction in the current session.
    RunFailureEpilogue { gas_remaining: u64, fee_statement: FeeStatement },
    /// Finish the respawned session: finish its inner session and hand the
    /// outcome to `RespawnedSession::finish`. The event is `ChangeSet`.
    FinishRespawnedSession,
    /// Mark the runtime's cache of loaded modules as invalid.
    InvalidateLoaderCache,
    /// Look up what the module says of the abort code. The event is
    /// `AbortInfo`.
    ExtractAbortInfo { module: ModuleId, code: u64 },
    /// Read, from the base state, every slot that the change set writes.
    /// The event is `Read`, and hands the change set back.
    ReadChangeSet { change_set: C },
    /// Load the function, check the arguments as those of a view function,
    /// and run it whatever its visibility. The event is `ReturnValues`.
    ExecuteViewFunction {
        module_id: ModuleId,
        func_name: String,
        type_args: Vec<TypeTag>,
        arguments: Vec<Vec<u8>>,
        struct_constructors: bool,
    },
    /// The transaction is done: its status and its output.
    Finished { vm_status: VMStatus, output: VMOutputOf<C>, bookkeeping: Bookkeeping },
    /// The transaction could not be run at all.
    Failed { vm_status: VMStatus },
    /// The validation is done.
    Validated { result: VMValidatorResult },
    /// The view function is done.
    Viewed { outcome: Result<Vec<Vec<u8>>, VMStatus> },
}

/// A request as the pipeline hands it out.
pub type Request = RequestOf<Vec<AccountAddress>, Vec<u8>, VMChangeSet>;

/// A request as a mathematical value.
pub type RequestView = RequestOf<Seq<AccountAddress>, Seq<u8>, ChangeSetView>;

impl View for RequestOf<Vec<AccountAddress>, Vec<u8>, VMChangeSet> {
    type V = RequestView;

    open spec fn view(&self) -> RequestView {
        match *self {
            RequestOf::MakeGasMeter { balance } => RequestOf::MakeGasMeter { balance },
            RequestOf::NewSession {
                session_id,
                release_resource_group_cache,
            } => RequestOf::NewSession { session_id, release_resource_group_cache },
            RequestOf::CheckGas => RequestOf::CheckGas,
            RequestOf::RunScriptPrologue => RequestOf::RunScriptPrologue,
            RequestOf::RunModulePrologue => RequestOf::RunModulePrologue,
            RequestOf::RunMultisigPrologue => RequestOf::RunMultisigPrologue,
            RequestOf::ExecuteSystemFunction {
                call,
                metered,
            } => RequestOf::ExecuteSystemFunction { call: call@, metered },
            RequestOf::ChargeIntrinsicGas {
                transaction_size,
            } => RequestOf::ChargeIntrinsicGas { transaction_size },
            RequestOf::ExecuteScript {
                script,
                senders,
                struct_constructors,
                metered,
            } => RequestOf::ExecuteScript {
                script,
                senders: senders@,
                struct_constructors,
                metered,
            },
            RequestOf::ExecuteEntryFunction {
                entry_function,
                senders,
                struct_constructors,
            } => RequestOf::ExecuteEntryFunction {
                entry_function,
                senders: senders@,
                struct_constructors,
            },
            RequestOf::EncodeMultisigPayload {
                payload,
            } => RequestOf::EncodeMultisigPayload { payload },
            RequestOf::DecodeMultisigPayload {
                payload_bytes,
            } => RequestOf::DecodeMultisigPayload { payload_bytes: payload_bytes@ },
            RequestOf::ExtractPublishRequest => RequestOf::ExtractPublishRequest,
            RequestOf::DeserializeModuleBundle {
                bundle,
                config,
            } => RequestOf::DeserializeModuleBundle { bundle, config },
            RequestOf::ProbeModuleBundle { bundle } => RequestOf::ProbeModuleBundle { bundle },
            RequestOf::VerifyModuleMetadata { index } => RequestOf::VerifyModuleMetadata { index },
            RequestOf::ValidateResourceGroups {
                safer_resource_groups,
            } => RequestOf::ValidateResourceGroups { safer_resource_groups },
            RequestOf::ValidateModuleEvents => RequestOf::ValidateModuleEvents,
            RequestOf::ExistsModules => RequestOf::ExistsModules,
            RequestOf::PublishModuleBundle {
                bundle,
                destination,
                compatibility,
            } => RequestOf::PublishModuleBundle { bundle, destination, compatibility },
            RequestOf::ProbeInitModule { index } => RequestOf::ProbeInitModule { index },
            RequestOf::FinishSession => RequestOf::FinishSession,
            RequestOf::ChargeChangeSet {
                change_set,
                transaction_size,
                gas_unit_price,
            } => RequestOf::ChargeChangeSet {
                change_set: change_set@,
                transaction_size,
                gas_unit_price,
            },
            RequestOf::Respawn { session_id, change_set, storage_refund } => RequestOf::Respawn {
                session_id,
                change_set: change_set@,
                storage_refund,
            },
            RequestOf::ReadGasMeter {
                check_consistency,
            } => RequestOf::ReadGasMeter { check_consistency },
            RequestOf::RunSuccessEpilogue {
                gas_remaining,
                fee_statement,
            } => RequestOf::RunSuccessEpilogue { gas_remaining, fee_statement },
            RequestOf::RunFailureEpilogue {
                gas_remaining,
                fee_statement,
            } => RequestOf::RunFailureEpilogue { gas_remaining, fee_statement },
            RequestOf::FinishRespawnedSession => RequestOf::FinishRespawnedSession,
            RequestOf::InvalidateLoaderCache => RequestOf::InvalidateLoaderCache,
            RequestOf::ExtractAbortInfo {
                module,
                code,
            } => RequestOf::ExtractAbortInfo { module, code },
            RequestOf::ReadChangeSet { change_set } => RequestOf::ReadChangeSet {
                change_set: change_set@,
            },
            RequestOf::ExecuteViewFunction {
                module_id,
                func_name,
                type_args,
                arguments,
                struct_constructors,
            } => RequestOf::ExecuteViewFunction {
                module_id,
                func_name,
                type_args,
                arguments,
                struct_constructors,
            },
            RequestOf::Finished { vm_status, output, bookkeeping } => RequestOf::Finished {
                vm_status,
                output: output@,
                bookkeeping,
            },
            RequestOf::Failed { vm_status } => RequestOf::Failed { vm_status },
            RequestOf::Validated { result } => RequestOf::Validated { result },
            RequestOf::Viewed { outcome } => RequestOf::Viewed { outcome },
        }
    }
}

/// What a module of a bundle turned out to be when it was probed.
#[derive(Clone, Debug, PartialEq, Eq)]
pub struct ModuleProbe {
    /// The failure to decode the module, if it did not decode.
    pub failure: Option<VMStatus>,
    /// Whether a module of that name can be loaded already.
    pub loaded: bool,
}

/// The outcome of the operation that the last request named.
pub enum Event {
    /// The operation was carried out and has nothing to report.
    Done,
    /// The outcome of an operation that returns nothing.
    Unit(Result<(), VMStatus>),
    /// The values that a function returned, each in its encoded form.
    ReturnValues(Result<Vec<Vec<u8>>, VMStatus>),
    /// The encoded payload, if it could be encoded.
    Encoded(Option<Vec<u8>>),
    /// The decoded payload, if the bytes are one, and the bytes.
    Payload { payload_bytes: Vec<u8>, payload: Option<MultisigTransactionPayload> },
    /// The pending publish request, if there was one.
    PublishRequest(Option<PublishRequest>),
    /// The decoded modules, if all of them decoded, and the bundle.
    Modules { bundle: ModuleBundle, modules: Option<Vec<CompiledModule>> },
    /// What each module of the bundle turned out to be, and the bundle.
    Probed { bundle: ModuleBundle, probes: Vec<ModuleProbe> },
    /// For each module, whether it exists; or the first failure to find out.
    Exists(Result<Vec<bool>, VMStatus>),
    /// What the module offers as its initializer.
    InitFunction(InitFunction),
    /// The change set of the finished session.
    ChangeSet(Result<VMChangeSet, VMStatus>),
    /// The change set after the storage fee was processed, and the refund.
    Charged(Result<(VMChangeSet, u64), VMStatus>),
    /// What the gas meter shows, and what the check of its counters found
    /// if it was asked for.
    Gas { consistency: Result<(), VMStatus>, reading: GasReading },
    /// What the module says of the abort code.
    AbortInfo(Option<AbortInfo>),
    /// Whether every slot could be read, and the change set.
    Read { change_set: VMChangeSet, result: Result<(), VMStatus> },
}

} // verus!
