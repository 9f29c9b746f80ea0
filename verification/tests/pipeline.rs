use aptos_vm::aggregator::SignedU128;
use aptos_vm::aptos_vm::{AptosSimulationVM, AptosVM, AptosVMImpl, Pipeline};
use aptos_vm::bcs_codec::serialize;
use aptos_vm::block::BlockExecution;
use aptos_vm::change_set::{GroupRead, VMChangeSet};
use aptos_vm::config::{Compatibility, DeserializerConfig, Features};
use aptos_vm::delayed_change::{
    DelayedFieldID, DelayedFieldValue, DelayedFieldsSpeculativeError, PanicError, PanicOr,
};
use aptos_vm::keyed_map::KeyedMap;
use aptos_vm::output::{should_restart_execution, VMOutput};
use aptos_vm::request::{
    Event, GasReading, InitFunction, ModuleProbe, Request, RequestOf, SystemCallOf,
    TransactionLabel, ViolationReport,
};
use aptos_vm::resolver::{ExecutorView, ResourceGroupView, StateStorageUsage, StateViewId};
use aptos_vm::respawned_session::RespawnedSession;
use aptos_vm::transaction::{
    AbortInfo, BlockMetadata, CompiledModule, EntryFunction, ExecutionError, ExecutionErrorCode,
    ExecutionErrorType, ExecutionStatus, FeeStatement, Module, ModuleBundle, Multisig,
    MultisigTransactionPayload, PublishRequest, Script, SessionId, SignatureVerifiedTransaction,
    SignedTransaction, Transaction, TransactionAuthenticator, TransactionMetadata,
    TransactionPayload, TransactionStatus, VMValidatorResult, ValidatorTransaction,
    WriteSetPayload, WriteSetScript,
};
use aptos_vm::types::{
    new_block_event_key, new_epoch_event_key, reserved_vm_address, AccountAddress,
    ContractEvent, EventKey, HashValue, ModuleId, MoveTypeLayout, StateKey, StructTag, TypeTag,
};
use aptos_vm::vm_status::{AbortLocation, StatusCode, VMStatus, EPARANOID_FAILURE};
use aptos_vm::write_op::{LayoutWrite, StateValue, StateValueMetadata, WriteOp};

/// A base state that holds nothing.
struct EmptyState;

impl ExecutorView for EmptyState {
    fn get_module_state_value(&self, _state_key: &StateKey) -> Result<Option<StateValue>, anyhow::Error> {
        Ok(None)
    }

    fn get_resource_state_value(
        &self,
        _state_key: &StateKey,
        _maybe_layout: Option<&MoveTypeLayout>,
    ) -> Result<Option<StateValue>, anyhow::Error> {
        Ok(None)
    }

    fn get_aggregator_v1_state_value(&self, _id: &StateKey) -> Result<Option<StateValue>, anyhow::Error> {
        Ok(None)
    }

    fn is_delayed_field_optimization_capable(&self) -> bool {
        false
    }

    fn get_delayed_field_value(
        &self,
        id: &DelayedFieldID,
    ) -> Result<DelayedFieldValue, PanicOr<DelayedFieldsSpeculativeError>> {
        Err(PanicOr::Or(DelayedFieldsSpeculativeError::NotFound(*id)))
    }

    fn delayed_field_try_add_delta_outcome(
        &self,
        _id: &DelayedFieldID,
        _base_delta: &SignedU128,
        _delta: &SignedU128,
        _max_value: u128,
    ) -> Result<bool, PanicOr<DelayedFieldsSpeculativeError>> {
        Ok(false)
    }

    fn generate_delayed_field_id(&self) -> DelayedFieldID {
        DelayedFieldID::new(0)
    }

    fn validate_and_convert_delayed_field_id(&self, id: u64) -> Result<DelayedFieldID, PanicError> {
        Ok(DelayedFieldID::new(id))
    }

    fn get_reads_needing_exchange(
        &self,
        _delayed_write_set_keys: &Vec<DelayedFieldID>,
        _skip: &Vec<StateKey>,
    ) -> Result<KeyedMap<StateKey, LayoutWrite>, PanicError> {
        Ok(KeyedMap::new())
    }

    fn get_group_reads_needing_exchange(
        &self,
        _delayed_write_set_keys: &Vec<DelayedFieldID>,
        _skip: &Vec<StateKey>,
    ) -> Result<KeyedMap<StateKey, GroupRead>, PanicError> {
        Ok(KeyedMap::new())
    }

    fn id(&self) -> StateViewId {
        StateViewId::Miscellaneous
    }

    fn get_usage(&self) -> Result<StateStorageUsage, anyhow::Error> {
        Ok(StateStorageUsage { items: 0, bytes: 0 })
    }
}

impl ResourceGroupView for EmptyState {
    fn resource_group_size(&self, _group_key: &StateKey) -> Result<u64, anyhow::Error> {
        Ok(0)
    }

    fn get_resource_from_group(
        &self,
        _group_key: &StateKey,
        _resource_tag: &StructTag,
        _maybe_layout: Option<&MoveTypeLayout>,
    ) -> Result<Option<Vec<u8>>, anyhow::Error> {
        Ok(None)
    }
}

fn address(n: u128) -> AccountAddress {
    AccountAddress::new(0, n)
}

fn key(s: &str) -> StateKey {
    StateKey::raw(s.to_string().into_bytes())
}

fn write(v: u128) -> WriteOp {
    WriteOp::Modification { data: serialize(v), metadata: None }
}

fn creation(v: u128) -> WriteOp {
    WriteOp::Creation {
        data: serialize(v),
        metadata: StateValueMetadata { deposit: 0, creation_time_usecs: 0 },
    }
}

fn event(key: Option<EventKey>, data: u8) -> (ContractEvent, Option<MoveTypeLayout>) {
    (ContractEvent { key, sequence_number: 0, type_tag: TypeTag::U64, event_data: vec![data] }, None)
}

fn change_set(
    resources: Vec<(&str, WriteOp)>,
    modules: Vec<(&str, WriteOp)>,
    events: Vec<(ContractEvent, Option<MoveTypeLayout>)>,
) -> VMChangeSet {
    let mut resource_write_set = KeyedMap::new();
    for (k, op) in resources {
        resource_write_set.insert(key(k), LayoutWrite::new(op, None));
    }
    let mut module_write_set = KeyedMap::new();
    for (k, op) in modules {
        module_write_set.insert(key(k), op);
    }
    VMChangeSet::new(
        resource_write_set,
        KeyedMap::new(),
        module_write_set,
        KeyedMap::new(),
        KeyedMap::new(),
        KeyedMap::new(),
        KeyedMap::new(),
        KeyedMap::new(),
        events,
    )
    .unwrap()
}

fn balance_of(change_set: &VMChangeSet, account: &str) -> Option<u128> {
    change_set
        .resource_write_set()
        .get(&key(account))
        .and_then(|w| w.op.extract_raw_bytes())
        .map(|bytes| bcs::from_bytes::<u128>(&bytes).unwrap())
}

fn is_empty(change_set: &VMChangeSet) -> bool {
    change_set.resource_write_set().is_empty()
        && change_set.resource_group_write_set().is_empty()
        && change_set.module_write_set().is_empty()
        && change_set.aggregator_v1_write_set().is_empty()
        && change_set.aggregator_v1_delta_set().is_empty()
        && change_set.delayed_field_change_set().is_empty()
        && change_set.reads_needing_delayed_field_exchange().is_empty()
        && change_set.group_reads_needing_delayed_field_exchange().is_empty()
        && change_set.events().is_empty()
}

fn all_features() -> Features {
    Features {
        treat_friend_as_private: true,
        vm_binary_format_v6: true,
        vm_binary_format_v7: false,
        struct_constructors: true,
        charge_invariant_violation: true,
        storage_deletion_refund: true,
        safer_resource_groups: true,
        single_sender_authenticator: true,
        sponsored_automatic_account_creation: true,
        limit_max_identifier_length: true,
    }
}

fn vm_impl() -> AptosVMImpl {
    AptosVMImpl {
        gas_feature_version: 12,
        features: all_features(),
        gas_parameters_loaded: true,
        storage_gas_parameters_loaded: true,
        module_bundle_disallowed: true,
    }
}

fn vm() -> AptosVM {
    AptosVM::new(vm_impl())
}

fn transfer() -> EntryFunction {
    EntryFunction {
        module: ModuleId::new(address(1), "coin".to_string()),
        function: "transfer".to_string(),
        ty_args: vec![TypeTag::Composite("0x1::aptos_coin::AptosCoin".to_string())],
        args: vec![vec![0xb], vec![10]],
    }
}

fn user_txn(payload: TransactionPayload, max_gas_amount: u64) -> SignedTransaction {
    SignedTransaction {
        sender: address(0xa),
        sequence_number: 7,
        payload,
        max_gas_amount,
        gas_unit_price: 1,
        expiration_timestamp_secs: 100,
        chain_id: 4,
        authenticator: TransactionAuthenticator::Ed25519,
        raw_txn_bytes_len: 300,
    }
}

fn module_m() -> ModuleId {
    ModuleId::new(address(0xa), "M".to_string())
}

fn abort_in_m(code: u64) -> VMStatus {
    VMStatus::MoveAbort(AbortLocation::Module(module_m()), code)
}

fn out_of_gas() -> VMStatus {
    VMStatus::ExecutionFailure {
        status_code: StatusCode::OUT_OF_GAS,
        sub_status: None,
        location: AbortLocation::Script,
        function: 0,
        code_offset: 3,
    }
}

/// What the runtime, the gas meter and the codecs answer, as a script.
struct World {
    log: Vec<String>,
    check_gas: Result<(), VMStatus>,
    prologue: Result<(), VMStatus>,
    multisig_prologue: Result<(), VMStatus>,
    create_account: Result<(), VMStatus>,
    intrinsic_gas: Result<(), VMStatus>,
    execute: Result<(), VMStatus>,
    encoded: Option<Vec<u8>>,
    next_payload: Result<Vec<Vec<u8>>, VMStatus>,
    decoded: Option<MultisigTransactionPayload>,
    cleanup: Result<(), VMStatus>,
    publish_request: Option<PublishRequest>,
    modules: Option<Vec<CompiledModule>>,
    probes: Vec<ModuleProbe>,
    metadata: Vec<Result<(), VMStatus>>,
    resource_groups: Result<(), VMStatus>,
    module_events: Result<(), VMStatus>,
    exists: Result<Vec<bool>, VMStatus>,
    publish: Result<(), VMStatus>,
    init_functions: Vec<InitFunction>,
    init_run: Result<(), VMStatus>,
    session: Result<VMChangeSet, VMStatus>,
    refund: Result<u64, VMStatus>,
    consistency: Result<(), VMStatus>,
    reading: GasReading,
    epilogue: Result<(), VMStatus>,
    epilogue_session: Result<VMChangeSet, VMStatus>,
    abort_info: Option<AbortInfo>,
    block_prologue: Result<(), VMStatus>,
    read: Result<(), VMStatus>,
    view: Result<Vec<Vec<u8>>, VMStatus>,
    respawned: Option<(SessionId, VMChangeSet, u64)>,
    senders_seen: Vec<Vec<AccountAddress>>,
    sessions_opened: Vec<SessionId>,
    calls: Vec<SystemCallOf<Vec<u8>>>,
    configs: Vec<DeserializerConfig>,
    compatibility: Vec<Compatibility>,
    fee_statements: Vec<(u64, FeeStatement)>,
    charged: Vec<(u64, u64)>,
}

impl World {
    fn new() -> World {
        World {
            log: vec![],
            check_gas: Ok(()),
            prologue: Ok(()),
            multisig_prologue: Ok(()),
            create_account: Ok(()),
            intrinsic_gas: Ok(()),
            execute: Ok(()),
            encoded: Some(vec![9, 9]),
            next_payload: Ok(vec![]),
            decoded: None,
            cleanup: Ok(()),
            publish_request: None,
            modules: None,
            probes: vec![],
            metadata: vec![],
            resource_groups: Ok(()),
            module_events: Ok(()),
            exists: Ok(vec![]),
            publish: Ok(()),
            init_functions: vec![],
            init_run: Ok(()),
            session: Ok(VMChangeSet::empty()),
            refund: Ok(0),
            consistency: Ok(()),
            reading: GasReading {
                balance: 0,
                execution_gas_used: 0,
                io_gas_used: 0,
                storage_fee_used: 0,
            },
            epilogue: Ok(()),
            epilogue_session: Ok(VMChangeSet::empty()),
            abort_info: None,
            block_prologue: Ok(()),
            read: Ok(()),
            view: Ok(vec![]),
            respawned: None,
            senders_seen: vec![],
            sessions_opened: vec![],
            calls: vec![],
            configs: vec![],
            compatibility: vec![],
            fee_statements: vec![],
            charged: vec![],
        }
    }

    fn take<T>(slot: &mut Result<T, VMStatus>, fresh: T) -> Result<T, VMStatus> {
        std::mem::replace(slot, Ok(fresh))
    }

    fn answer(&mut self, request: Request) -> Event {
        match request {
            RequestOf::MakeGasMeter { balance } => {
                self.log.push(format!("MakeGasMeter({})", balance));
                Event::Done
            },
            RequestOf::NewSession { session_id, release_resource_group_cache } => {
                self.log.push(format!("NewSession({})", release_resource_group_cache));
                self.sessions_opened.push(session_id);
                Event::Done
            },
            RequestOf::CheckGas => {
                self.log.push("CheckGas".to_string());
                Event::Unit(self.check_gas.clone())
            },
            RequestOf::RunScriptPrologue => {
                self.log.push("RunScriptPrologue".to_string());
                Event::Unit(self.prologue.clone())
            },
            RequestOf::RunModulePrologue => {
                self.log.push("RunModulePrologue".to_string());
                Event::Unit(self.prologue.clone())
            },
            RequestOf::RunMultisigPrologue => {
                self.log.push("RunMultisigPrologue".to_string());
                Event::Unit(self.multisig_prologue.clone())
            },
            RequestOf::ExecuteSystemFunction { call, metered } => {
                let (name, outcome) = match &call {
                    SystemCallOf::CreateAccountIfDoesNotExist { .. } => {
                        ("CreateAccount", self.create_account.clone().map(|_| vec![]))
                    },
                    SystemCallOf::GetNextTransactionPayload { .. } => {
                        ("GetNextTransactionPayload", self.next_payload.clone())
                    },
                    SystemCallOf::SuccessfulTransactionExecutionCleanup { .. } => {
                        ("SuccessfulCleanup", self.cleanup.clone().map(|_| vec![]))
                    },
                    SystemCallOf::FailedTransactionExecutionCleanup { .. } => {
                        ("FailedCleanup", self.cleanup.clone().map(|_| vec![]))
                    },
                    SystemCallOf::BlockPrologue { .. } => {
                        ("BlockPrologue", self.block_prologue.clone().map(|_| vec![]))
                    },
                    SystemCallOf::InitModule { .. } => {
                        ("InitModule", self.init_run.clone().map(|_| vec![]))
                    },
                };
                self.log.push(format!("{}({})", name, metered));
                self.calls.push(call);
                Event::ReturnValues(outcome)
            },
            RequestOf::ChargeIntrinsicGas { transaction_size } => {
                self.log.push(format!("ChargeIntrinsicGas({})", transaction_size));
                Event::Unit(self.intrinsic_gas.clone())
            },
            RequestOf::ExecuteScript { senders, metered, .. } => {
                self.log.push(format!("ExecuteScript({})", metered));
                self.senders_seen.push(senders);
                Event::Unit(self.execute.clone())
            },
            RequestOf::ExecuteEntryFunction { senders, .. } => {
                self.log.push("ExecuteEntryFunction".to_string());
                self.senders_seen.push(senders);
                Event::Unit(self.execute.clone())
            },
            RequestOf::EncodeMultisigPayload { .. } => {
                self.log.push("EncodeMultisigPayload".to_string());
                Event::Encoded(self.encoded.clone())
            },
            RequestOf::DecodeMultisigPayload { payload_bytes } => {
                self.log.push(format!("DecodeMultisigPayload({:?})", payload_bytes));
                Event::Payload { payload_bytes, payload: self.decoded.take() }
            },
            RequestOf::ExtractPublishRequest => {
                self.log.push("ExtractPublishRequest".to_string());
                Event::PublishRequest(self.publish_request.take())
            },
            RequestOf::DeserializeModuleBundle { bundle, config } => {
                self.log.push("DeserializeModuleBundle".to_string());
                self.configs.push(config);
                Event::Modules { bundle, modules: self.modules.take() }
            },
            RequestOf::ProbeModuleBundle { bundle } => {
                self.log.push("ProbeModuleBundle".to_string());
                Event::Probed { bundle, probes: self.probes.clone() }
            },
            RequestOf::VerifyModuleMetadata { index } => {
                self.log.push(format!("VerifyModuleMetadata({})", index));
                Event::Unit(self.metadata.get(index).cloned().unwrap_or(Ok(())))
            },
            RequestOf::ValidateResourceGroups { safer_resource_groups } => {
                self.log.push(format!("ValidateResourceGroups({})", safer_resource_groups));
                Event::Unit(self.resource_groups.clone())
            },
            RequestOf::ValidateModuleEvents => {
                self.log.push("ValidateModuleEvents".to_string());
                Event::Unit(self.module_events.clone())
            },
            RequestOf::ExistsModules => {
                self.log.push("ExistsModules".to_string());
                Event::Exists(self.exists.clone())
            },
            RequestOf::PublishModuleBundle { destination, compatibility, .. } => {
                self.log.push(format!("PublishModuleBundle({})", destination.low));
                self.compatibility.push(compatibility);
                Event::Unit(self.publish.clone())
            },
            RequestOf::ProbeInitModule { index } => {
                self.log.push(format!("ProbeInitModule({})", index));
                Event::InitFunction(self.init_functions.get(index).copied().unwrap_or(InitFunction::Missing))
            },
            RequestOf::FinishSession => {
                self.log.push("FinishSession".to_string());
                Event::ChangeSet(World::take(&mut self.session, VMChangeSet::empty()))
            },
            RequestOf::ChargeChangeSet { change_set, transaction_size, gas_unit_price } => {
                self.log.push("ChargeChangeSet".to_string());
                self.charged.push((transaction_size, gas_unit_price));
                Event::Charged(self.refund.clone().map(|refund| (change_set, refund)))
            },
            RequestOf::Respawn { session_id, change_set, storage_refund } => {
                self.log.push(format!("Respawn({})", storage_refund));
                self.respawned = Some((session_id, change_set, storage_refund));
                Event::Done
            },
            RequestOf::ReadGasMeter { check_consistency } => {
                self.log.push(format!("ReadGasMeter({})", check_consistency));
                Event::Gas { consistency: self.consistency.clone(), reading: self.reading }
            },
            RequestOf::RunSuccessEpilogue { gas_remaining, fee_statement } => {
                self.log.push("RunSuccessEpilogue".to_string());
                self.fee_statements.push((gas_remaining, fee_statement));
                Event::Unit(self.epilogue.clone())
            },
            RequestOf::RunFailureEpilogue { gas_remaining, fee_statement } => {
                self.log.push("RunFailureEpilogue".to_string());
                self.fee_statements.push((gas_remaining, fee_statement));
                Event::Unit(self.epilogue.clone())
            },
            RequestOf::FinishRespawnedSession => {
                self.log.push("FinishRespawnedSession".to_string());
                let (session_id, change_set, storage_refund) = self.respawned.take().unwrap();
                let base = EmptyState;
                let respawned =
                    RespawnedSession::spawn(session_id, &base, &base, change_set, storage_refund)
                        .unwrap();
                let additional = World::take(&mut self.epilogue_session, VMChangeSet::empty());
                Event::ChangeSet(respawned.finish(additional))
            },
            RequestOf::InvalidateLoaderCache => {
                self.log.push("InvalidateLoaderCache".to_string());
                Event::Done
            },
            RequestOf::ExtractAbortInfo { module, code } => {
                self.log.push(format!("ExtractAbortInfo({},{})", module.name, code));
                Event::AbortInfo(self.abort_info.clone())
            },
            RequestOf::ReadChangeSet { change_set } => {
                self.log.push("ReadChangeSet".to_string());
                Event::Read { change_set, result: self.read.clone() }
            },
            RequestOf::ExecuteViewFunction { func_name, .. } => {
                self.log.push(format!("ExecuteViewFunction({})", func_name));
                Event::ReturnValues(self.view.clone())
            },
            RequestOf::Finished { .. }
            | RequestOf::Failed { .. }
            | RequestOf::Validated { .. }
            | RequestOf::Viewed { .. } => unreachable!(),
        }
    }

    /// Runs the pipeline to its result.
    fn run(&mut self, start: (Pipeline, Request)) -> Request {
        let (mut pipeline, mut request) = start;
        for _ in 0..200 {
            match request {
                RequestOf::Finished { .. }
                | RequestOf::Failed { .. }
                | RequestOf::Validated { .. }
                | RequestOf::Viewed { .. } => return request,
                other => {
                    let event = self.answer(other);
                    assert!(pipeline.accepts(&event));
                    let next = pipeline.step(event);
                    pipeline = next.0;
                    request = next.1;
                },
            }
        }
        panic!("the pipeline does not end");
    }

    fn count(&self, name: &str) -> usize {
        self.log.iter().filter(|l| l.starts_with(name)).count()
    }

    fn place(&self, name: &str) -> Option<usize> {
        self.log.iter().position(|l| l.starts_with(name))
    }
}

fn finished(request: Request) -> (VMStatus, VMOutput, Option<TransactionLabel>, ViolationReport) {
    match request {
        RequestOf::Finished { vm_status, output, bookkeeping } => {
            (vm_status, output, bookkeeping.label, bookkeeping.report)
        },
        _ => panic!("the pipeline did not finish with an output"),
    }
}

fn failed(request: Request) -> VMStatus {
    match request {
        RequestOf::Failed { vm_status } => vm_status,
        _ => panic!("the pipeline did not give up"),
    }
}

fn validated(request: Request) -> VMValidatorResult {
    match request {
        RequestOf::Validated { result } => result,
        _ => panic!("the pipeline did not validate"),
    }
}

fn transfer_event() -> (ContractEvent, Option<MoveTypeLayout>) {
    event(Some(EventKey { creation_number: 9, account_address: address(0xb) }), 10)
}

#[test]
fn simple_transfer_success() {
    let mut world = World::new();
    world.session = Ok(change_set(
        vec![("A", write(90)), ("B", write(10))],
        vec![],
        vec![transfer_event()],
    ));
    // 37 units were used of 1000; the epilogue takes them from the sender.
    world.reading = GasReading {
        balance: 963,
        execution_gas_used: 30,
        io_gas_used: 7,
        storage_fee_used: 0,
    };
    world.epilogue_session = Ok(change_set(vec![("A", write(90 - 37))], vec![], vec![]));
    let txn = user_txn(TransactionPayload::EntryFunction(transfer()), 1000);
    let result = world.run(vm().execute_user_transaction(txn));
    let (vm_status, output, label, report) = finished(result);
    assert_eq!(vm_status, VMStatus::Executed);
    assert_eq!(output.status, TransactionStatus::Keep(ExecutionStatus::Success));
    assert_eq!(label, Some(TransactionLabel::Sender(address(0xa))));
    assert_eq!(report, ViolationReport::Silent);
    let gas_used = output.fee_statement.gas_used();
    assert_eq!(gas_used, 37);
    assert_eq!(output.gas_used(), 1000 - 963);
    let a = balance_of(&output.change_set, "A").unwrap();
    assert!(90 - (gas_used as u128) <= a && a <= 90);
    assert_eq!(balance_of(&output.change_set, "B"), Some(10));
    assert_eq!(output.change_set.events().len(), 1);
    assert_eq!(output.change_set.events()[0], transfer_event());
    assert_eq!(
        world.log,
        vec![
            "MakeGasMeter(1000)",
            "NewSession(false)",
            "CheckGas",
            "RunScriptPrologue",
            "NewSession(true)",
            "ChargeIntrinsicGas(300)",
            "ExecuteEntryFunction",
            "ExtractPublishRequest",
            "FinishSession",
            "ChargeChangeSet",
            "Respawn(0)",
            "ReadGasMeter(true)",
            "RunSuccessEpilogue",
            "FinishRespawnedSession",
        ]
    );
    assert_eq!(
        world.sessions_opened,
        vec![
            SessionId::PrologueMeta { sender: address(0xa), sequence_number: 7 },
            SessionId::TxnMeta { sender: address(0xa), sequence_number: 7 },
        ]
    );
    assert_eq!(world.senders_seen, vec![vec![address(0xa)]]);
    assert_eq!(world.charged, vec![(300, 1)]);
    assert_eq!(
        world.fee_statements,
        vec![(963, FeeStatement::new(37, 30, 7, 0, 0))]
    );
}

#[test]
fn out_of_gas_during_execute() {
    let mut world = World::new();
    world.execute = Err(out_of_gas());
    world.reading =
        GasReading { balance: 0, execution_gas_used: 100, io_gas_used: 0, storage_fee_used: 0 };
    // The failure epilogue charges the sender the full amount.
    world.session = Ok(change_set(vec![("A", write(0))], vec![], vec![]));
    let txn = user_txn(TransactionPayload::EntryFunction(transfer()), 100);
    let result = world.run(vm().execute_user_transaction(txn));
    let (vm_status, output, _, _) = finished(result);
    assert_eq!(vm_status, out_of_gas());
    assert_eq!(output.status, TransactionStatus::Keep(ExecutionStatus::OutOfGas));
    assert_eq!(output.fee_statement, FeeStatement::new(100, 100, 0, 0, 0));
    assert_eq!(output.change_set.resource_write_set().len(), 1);
    assert_eq!(balance_of(&output.change_set, "A"), Some(0));
    assert!(output.change_set.events().is_empty());
    assert_eq!(
        world.log[6..],
        vec![
            "ExecuteEntryFunction",
            "ReadGasMeter(true)",
            "NewSession(false)",
            "RunFailureEpilogue",
            "FinishSession",
        ]
    );
    assert_eq!(
        world.sessions_opened[2],
        SessionId::EpilogueMeta { sender: address(0xa), sequence_number: 7 }
    );
    assert_eq!(world.fee_statements, vec![(0, FeeStatement::new(100, 100, 0, 0, 0))]);
}

#[test]
fn move_abort() {
    let mut world = World::new();
    world.execute = Err(abort_in_m(7));
    world.reading =
        GasReading { balance: 950, execution_gas_used: 50, io_gas_used: 0, storage_fee_used: 0 };
    let info = AbortInfo { reason_name: "ENOPE".to_string(), description: "No.".to_string() };
    world.abort_info = Some(info.clone());
    world.session = Ok(change_set(vec![("A", write(50))], vec![], vec![]));
    let txn = user_txn(TransactionPayload::EntryFunction(transfer()), 1000);
    let result = world.run(vm().execute_user_transaction(txn));
    let (vm_status, output, _, _) = finished(result);
    assert_eq!(vm_status, abort_in_m(7));
    assert_eq!(
        output.status,
        TransactionStatus::Keep(ExecutionStatus::MoveAbort {
            location: AbortLocation::Module(module_m()),
            code: 7,
            info: Some(info),
        })
    );
    // Nothing but what the epilogue wrote.
    assert_eq!(output.change_set.resource_write_set().len(), 1);
    assert_eq!(balance_of(&output.change_set, "A"), Some(50));
    assert_eq!(output.fee_statement.gas_used(), 50);
    assert_eq!(world.count("ExtractAbortInfo(M,7)"), 1);
    assert!(world.place("ExtractAbortInfo").unwrap() < world.place("RunFailureEpilogue").unwrap());
}

#[test]
fn move_abort_in_a_script_is_not_looked_up() {
    let mut world = World::new();
    world.execute = Err(VMStatus::MoveAbort(AbortLocation::Script, 3));
    world.reading =
        GasReading { balance: 1, execution_gas_used: 0, io_gas_used: 0, storage_fee_used: 0 };
    let txn = user_txn(TransactionPayload::EntryFunction(transfer()), 5);
    let (_, output, _, _) = finished(world.run(vm().execute_user_transaction(txn)));
    assert_eq!(
        output.status,
        TransactionStatus::Keep(ExecutionStatus::MoveAbort {
            location: AbortLocation::Script,
            code: 3,
            info: None,
        })
    );
    assert_eq!(world.count("ExtractAbortInfo"), 0);
}

fn publish_request(expected: Vec<&str>) -> PublishRequest {
    PublishRequest {
        destination: address(0xa),
        bundle: ModuleBundle { codes: vec![Module { code: vec![1, 2, 3] }] },
        expected_modules: expected.into_iter().map(|s| s.to_string()).collect(),
        allowed_deps: None,
        check_compat: true,
    }
}

fn compiled(name: &str, deps: Vec<ModuleId>) -> CompiledModule {
    CompiledModule {
        self_id: ModuleId::new(address(0xa), name.to_string()),
        immediate_dependencies: deps,
    }
}

#[test]
fn failed_publish() {
    let mut world = World::new();
    world.publish_request = Some(publish_request(vec!["N"]));
    world.modules = Some(vec![compiled("M", vec![])]);
    world.reading =
        GasReading { balance: 400, execution_gas_used: 100, io_gas_used: 0, storage_fee_used: 0 };
    let txn = user_txn(TransactionPayload::EntryFunction(transfer()), 500);
    let (vm_status, output, _, _) = finished(world.run(vm().execute_user_transaction(txn)));
    assert_eq!(vm_status, VMStatus::error(StatusCode::CONSTRAINT_NOT_SATISFIED, None));
    assert_eq!(
        output.status,
        TransactionStatus::Keep(ExecutionStatus::MiscellaneousError(Some(
            StatusCode::CONSTRAINT_NOT_SATISFIED
        )))
    );
    // Module M is not there afterwards: nothing was published, and the
    // output writes no module.
    assert_eq!(world.count("PublishModuleBundle"), 0);
    assert_eq!(world.count("VerifyModuleMetadata"), 0);
    assert!(output.change_set.module_write_set().is_empty());
    assert_eq!(output.fee_statement.gas_used(), 100);
}

#[test]
fn failed_publish_after_modules_were_loaded_invalidates_the_cache() {
    let mut world = World::new();
    world.publish_request = Some(publish_request(vec!["M", "N"]));
    world.modules = Some(vec![compiled("M", vec![]), compiled("N", vec![])]);
    world.exists = Ok(vec![false, false]);
    world.init_functions = vec![InitFunction::Valid, InitFunction::Invalid];
    world.reading =
        GasReading { balance: 1, execution_gas_used: 0, io_gas_used: 0, storage_fee_used: 0 };
    let txn = user_txn(TransactionPayload::EntryFunction(transfer()), 500);
    let (vm_status, output, _, _) = finished(world.run(vm().execute_user_transaction(txn)));
    assert_eq!(vm_status, VMStatus::error(StatusCode::CONSTRAINT_NOT_SATISFIED, None));
    assert!(matches!(output.status, TransactionStatus::Keep(_)));
    assert_eq!(world.count("PublishModuleBundle"), 1);
    assert_eq!(world.count("InitModule"), 1);
    assert_eq!(world.count("InvalidateLoaderCache"), 1);
    assert!(world.place("InvalidateLoaderCache").unwrap() < world.place("ReadGasMeter").unwrap());
    assert!(world.place("ProbeInitModule(1)").unwrap() < world.place("InvalidateLoaderCache").unwrap());
}

#[test]
fn successful_publish_runs_the_initializers_of_new_modules() {
    let mut world = World::new();
    let mut allowed = KeyedMap::new();
    allowed.insert(address(1), vec!["".to_string()]);
    allowed.insert(address(2), vec!["math".to_string()]);
    let mut request = publish_request(vec!["M", "N", "O"]);
    request.allowed_deps = Some(allowed);
    world.publish_request = Some(request);
    world.modules = Some(vec![
        compiled("M", vec![ModuleId::new(address(1), "anything".to_string())]),
        compiled("N", vec![ModuleId::new(address(2), "math".to_string())]),
        compiled("O", vec![]),
    ]);
    world.exists = Ok(vec![false, true, false]);
    world.init_functions = vec![InitFunction::Valid, InitFunction::Valid, InitFunction::Missing];
    world.session = Ok(change_set(vec![], vec![("M", creation(1))], vec![]));
    world.reading =
        GasReading { balance: 1, execution_gas_used: 0, io_gas_used: 0, storage_fee_used: 0 };
    let txn = user_txn(TransactionPayload::EntryFunction(transfer()), 500);
    let (vm_status, output, _, _) = finished(world.run(vm().execute_user_transaction(txn)));
    assert_eq!(vm_status, VMStatus::Executed);
    assert_eq!(output.status, TransactionStatus::Keep(ExecutionStatus::Success));
    assert_eq!(
        world.log[7..21],
        vec![
            "ExtractPublishRequest",
            "DeserializeModuleBundle",
            "VerifyModuleMetadata(0)",
            "VerifyModuleMetadata(1)",
            "VerifyModuleMetadata(2)",
            "ValidateResourceGroups(true)",
            "ValidateModuleEvents",
            "ExistsModules",
            "PublishModuleBundle(10)",
            "ProbeInitModule(0)",
            "InitModule(true)",
            "ProbeInitModule(2)",
            "FinishSession",
            "ChargeChangeSet",
        ]
    );
    assert_eq!(
        world.configs,
        vec![DeserializerConfig { max_binary_format_version: 6, max_identifier_size: 255 }]
    );
    assert_eq!(
        world.compatibility,
        vec![Compatibility {
            check_struct_and_pub_function_linking: true,
            check_struct_layout: true,
            check_friend_linking: false,
        }]
    );
    assert_eq!(
        world.calls,
        vec![SystemCallOf::InitModule {
            module: ModuleId::new(address(0xa), "M".to_string()),
            signer: address(0xa),
        }]
    );
    assert_eq!(output.change_set.module_write_set().len(), 1);
}

#[test]
fn publish_with_a_dependency_that_is_not_allowed_fails() {
    let mut world = World::new();
    let mut allowed = KeyedMap::new();
    allowed.insert(address(2), vec!["math".to_string()]);
    let mut request = publish_request(vec!["M"]);
    request.allowed_deps = Some(allowed);
    world.publish_request = Some(request);
    world.modules = Some(vec![compiled("M", vec![ModuleId::new(address(2), "other".to_string())])]);
    let txn = user_txn(TransactionPayload::EntryFunction(transfer()), 500);
    let (vm_status, _, _, _) = finished(world.run(vm().execute_user_transaction(txn)));
    assert_eq!(vm_status, VMStatus::error(StatusCode::CONSTRAINT_NOT_SATISFIED, None));
    assert_eq!(world.count("PublishModuleBundle"), 0);
}

#[test]
fn publish_of_the_same_module_twice_fails() {
    let mut world = World::new();
    world.publish_request = Some(publish_request(vec!["M"]));
    world.modules = Some(vec![compiled("M", vec![]), compiled("M", vec![])]);
    let txn = user_txn(TransactionPayload::EntryFunction(transfer()), 500);
    let (vm_status, _, _, _) = finished(world.run(vm().execute_user_transaction(txn)));
    assert_eq!(vm_status, VMStatus::error(StatusCode::CONSTRAINT_NOT_SATISFIED, None));
    assert_eq!(world.count("VerifyModuleMetadata"), 1);
    assert_eq!(world.count("PublishModuleBundle"), 0);
}

#[test]
fn publish_that_leaves_an_announced_module_out_fails() {
    let mut world = World::new();
    world.publish_request = Some(publish_request(vec!["M", "N"]));
    world.modules = Some(vec![compiled("M", vec![])]);
    let txn = user_txn(TransactionPayload::EntryFunction(transfer()), 500);
    let (vm_status, _, _, _) = finished(world.run(vm().execute_user_transaction(txn)));
    assert_eq!(vm_status, VMStatus::error(StatusCode::CONSTRAINT_NOT_SATISFIED, None));
    assert_eq!(world.count("ValidateModuleEvents"), 1);
    assert_eq!(world.count("ExistsModules"), 0);
    assert_eq!(world.count("PublishModuleBundle"), 0);
}

#[test]
fn publish_that_the_framework_refuses_fails_as_a_constraint() {
    let mut world = World::new();
    world.publish_request = Some(publish_request(vec!["M"]));
    world.modules = Some(vec![compiled("M", vec![])]);
    world.metadata = vec![Err(VMStatus::error(StatusCode::MALFORMED, None))];
    let txn = user_txn(TransactionPayload::EntryFunction(transfer()), 500);
    let (vm_status, _, _, _) = finished(world.run(vm().execute_user_transaction(txn)));
    assert_eq!(vm_status, VMStatus::error(StatusCode::CONSTRAINT_NOT_SATISFIED, None));
    assert_eq!(world.count("PublishModuleBundle"), 0);
}

#[test]
fn identifier_beyond_the_limit_rejects_the_publish_without_state_change() {
    let mut world = World::new();
    world.publish_request = Some(publish_request(vec!["M"]));
    // The decoder refuses the bundle under the limits it is given.
    world.modules = None;
    let txn = user_txn(TransactionPayload::EntryFunction(transfer()), 500);
    let (vm_status, output, _, _) = finished(world.run(vm().execute_user_transaction(txn)));
    assert_eq!(vm_status, VMStatus::error(StatusCode::CODE_DESERIALIZATION_ERROR, None));
    assert_eq!(
        output.status,
        TransactionStatus::Discard(StatusCode::CODE_DESERIALIZATION_ERROR)
    );
    assert!(is_empty(&output.change_set));
    assert_eq!(output.fee_statement, FeeStatement::zero());
    assert_eq!(world.configs[0].max_identifier_size, 255);
    assert_eq!(world.count("PublishModuleBundle"), 0);
    // Without the limit on identifiers the older, longer limit applies.
    let mut world = World::new();
    world.publish_request = Some(publish_request(vec!["M"]));
    let mut legacy = vm_impl();
    legacy.features.limit_max_identifier_length = false;
    legacy.features.vm_binary_format_v6 = false;
    let txn = user_txn(TransactionPayload::EntryFunction(transfer()), 500);
    world.run(AptosVM::new(legacy).execute_user_transaction(txn));
    assert_eq!(
        world.configs,
        vec![DeserializerConfig { max_binary_format_version: 5, max_identifier_size: 65535 }]
    );
}

fn multisig_txn(payload: Option<MultisigTransactionPayload>) -> SignedTransaction {
    user_txn(
        TransactionPayload::Multisig(Multisig {
            multisig_address: address(0x55),
            transaction_payload: payload,
        }),
        1000,
    )
}

#[test]
fn multisig_failed_inner_payload() {
    let mut world = World::new();
    let payload_bytes = vec![7u8, 7, 7];
    world.next_payload = Ok(vec![bcs::to_bytes(&payload_bytes).unwrap()]);
    world.decoded = Some(MultisigTransactionPayload::EntryFunction(transfer()));
    world.execute = Err(abort_in_m(7));
    world.reading =
        GasReading { balance: 900, execution_gas_used: 100, io_gas_used: 0, storage_fee_used: 0 };
    // What the cleanup and the epilogue write.
    world.epilogue_session = Ok(change_set(vec![("multisig", write(1)), ("A", write(0))], vec![], vec![]));
    let result = world.run(vm().execute_user_transaction(multisig_txn(None)));
    let (vm_status, output, _, _) = finished(result);
    assert_eq!(vm_status, VMStatus::Executed);
    assert_eq!(output.status, TransactionStatus::Keep(ExecutionStatus::Success));
    assert_eq!(
        world.log,
        vec![
            "MakeGasMeter(1000)",
            "NewSession(false)",
            "CheckGas",
            "RunScriptPrologue",
            "RunMultisigPrologue",
            "NewSession(true)",
            "ChargeIntrinsicGas(300)",
            "GetNextTransactionPayload(true)",
            "DecodeMultisigPayload([7, 7, 7])",
            "ExecuteEntryFunction",
            "Respawn(0)",
            "FailedCleanup(false)",
            "ReadGasMeter(true)",
            "RunSuccessEpilogue",
            "FinishRespawnedSession",
        ]
    );
    // The payload ran as the multisig account alone.
    assert_eq!(world.senders_seen, vec![vec![address(0x55)]]);
    // The account was asked with the encoding of no payload, and told of
    // the abort exactly once.
    assert_eq!(
        world.calls,
        vec![
            SystemCallOf::GetNextTransactionPayload {
                multisig_address: address(0x55),
                provided_payload: vec![0],
            },
            SystemCallOf::FailedTransactionExecutionCleanup {
                sender: address(0xa),
                multisig_address: address(0x55),
                payload_bytes: vec![7, 7, 7],
                execution_error: ExecutionError {
                    abort_location: Some(AbortLocation::Module(module_m())),
                    error_type: ExecutionErrorType::MoveAbort,
                    error_code: ExecutionErrorCode::Abort(7),
                },
            },
        ]
    );
    // Nothing of the inner payload is in the output.
    assert_eq!(output.change_set.resource_write_set().len(), 2);
    assert_eq!(balance_of(&output.change_set, "multisig"), Some(1));
    assert_eq!(balance_of(&output.change_set, "B"), None);
    assert_eq!(output.fee_statement, FeeStatement::new(100, 100, 0, 0, 0));
}

#[test]
fn multisig_successful_inner_payload() {
    let mut world = World::new();
    world.encoded = Some(vec![1, 2]);
    world.next_payload = Ok(vec![bcs::to_bytes(&vec![5u8, 6]).unwrap()]);
    world.decoded = Some(MultisigTransactionPayload::EntryFunction(transfer()));
    world.session = Ok(change_set(vec![("B", write(10))], vec![], vec![]));
    world.refund = Ok(3);
    world.reading =
        GasReading { balance: 900, execution_gas_used: 60, io_gas_used: 40, storage_fee_used: 0 };
    let provided = Some(MultisigTransactionPayload::EntryFunction(transfer()));
    let result = world.run(vm().execute_user_transaction(multisig_txn(provided)));
    let (vm_status, output, _, _) = finished(result);
    assert_eq!(vm_status, VMStatus::Executed);
    assert_eq!(world.count("EncodeMultisigPayload"), 1);
    assert_eq!(world.count("SuccessfulCleanup(false)"), 1);
    assert_eq!(world.count("FailedCleanup"), 0);
    assert!(world.place("ChargeChangeSet").unwrap() < world.place("SuccessfulCleanup").unwrap());
    assert_eq!(
        world.calls,
        vec![
            SystemCallOf::GetNextTransactionPayload {
                multisig_address: address(0x55),
                provided_payload: vec![1, 2],
            },
            SystemCallOf::SuccessfulTransactionExecutionCleanup {
                sender: address(0xa),
                multisig_address: address(0x55),
                payload_bytes: vec![5, 6],
            },
        ]
    );
    assert_eq!(balance_of(&output.change_set, "B"), Some(10));
    assert_eq!(output.fee_statement, FeeStatement::new(100, 60, 40, 0, 3));
}

#[test]
fn multisig_payload_that_does_not_decode_fails_the_transaction() {
    // The value returned is not the encoding of a byte string.
    let mut world = World::new();
    world.next_payload = Ok(vec![vec![5, 1]]);
    let (vm_status, output, _, _) =
        finished(world.run(vm().execute_user_transaction(multisig_txn(None))));
    assert_eq!(vm_status, VMStatus::error(StatusCode::FAILED_TO_DESERIALIZE_ARGUMENT, None));
    assert_eq!(
        output.status,
        TransactionStatus::Keep(ExecutionStatus::MiscellaneousError(Some(
            StatusCode::FAILED_TO_DESERIALIZE_ARGUMENT
        )))
    );
    assert_eq!(world.count("DecodeMultisigPayload"), 0);
    // The byte string is no payload.
    let mut world = World::new();
    world.next_payload = Ok(vec![bcs::to_bytes(&vec![1u8]).unwrap()]);
    world.decoded = None;
    let (vm_status, _, _, _) =
        finished(world.run(vm().execute_user_transaction(multisig_txn(None))));
    assert_eq!(vm_status, VMStatus::error(StatusCode::FAILED_TO_DESERIALIZE_ARGUMENT, None));
    assert_eq!(world.count("DecodeMultisigPayload([1])"), 1);
    assert_eq!(world.count("ExecuteEntryFunction"), 0);
    // Nothing was returned at all.
    let mut world = World::new();
    world.next_payload = Ok(vec![]);
    let (vm_status, _, _, report) =
        finished(world.run(vm().execute_user_transaction(multisig_txn(None))));
    assert_eq!(vm_status, VMStatus::error(StatusCode::UNKNOWN_INVARIANT_VIOLATION_ERROR, None));
    assert_eq!(report, ViolationReport::Alert);
}

#[test]
fn multisig_failure_after_a_publish_invalidates_the_cache_before_the_cleanup() {
    let mut world = World::new();
    world.next_payload = Ok(vec![bcs::to_bytes(&vec![1u8]).unwrap()]);
    world.decoded = Some(MultisigTransactionPayload::EntryFunction(transfer()));
    world.publish_request = Some(publish_request(vec!["M"]));
    world.modules = Some(vec![compiled("M", vec![])]);
    world.exists = Ok(vec![false]);
    world.init_functions = vec![InitFunction::Valid];
    world.init_run = Err(abort_in_m(1));
    world.reading =
        GasReading { balance: 1, execution_gas_used: 0, io_gas_used: 0, storage_fee_used: 0 };
    let (vm_status, output, _, _) =
        finished(world.run(vm().execute_user_transaction(multisig_txn(None))));
    assert_eq!(vm_status, VMStatus::Executed);
    assert_eq!(output.status, TransactionStatus::Keep(ExecutionStatus::Success));
    assert_eq!(world.count("InvalidateLoaderCache"), 1);
    assert!(world.place("InvalidateLoaderCache").unwrap() < world.place("Respawn").unwrap());
    assert_eq!(world.count("FailedCleanup"), 1);
}

#[test]
fn simulated_multisig_runs_the_payload_it_carries() {
    let mut world = World::new();
    world.reading =
        GasReading { balance: 1, execution_gas_used: 0, io_gas_used: 0, storage_fee_used: 0 };
    let provided = Some(MultisigTransactionPayload::EntryFunction(transfer()));
    let start = AptosSimulationVM::create_vm_and_simulate_signed_transaction(
        vm_impl(),
        multisig_txn(provided),
        false,
    );
    let (vm_status, _, _, _) = finished(world.run(start));
    assert_eq!(vm_status, VMStatus::Executed);
    assert_eq!(world.count("RunMultisigPrologue"), 0);
    assert_eq!(world.count("ChargeIntrinsicGas"), 0);
    assert_eq!(world.count("GetNextTransactionPayload"), 0);
    assert_eq!(world.count("SuccessfulCleanup"), 0);
    assert_eq!(world.senders_seen, vec![vec![address(0x55)]]);
    // Without a payload there is nothing to simulate.
    let mut world = World::new();
    let start = AptosSimulationVM::create_vm_and_simulate_signed_transaction(
        vm_impl(),
        multisig_txn(None),
        false,
    );
    let (vm_status, _, _, _) = finished(world.run(start));
    assert_eq!(vm_status, VMStatus::error(StatusCode::MISSING_DATA, None));
}

#[test]
fn respawn_creation_guard() {
    let mut world = World::new();
    world.session = Ok(change_set(vec![("B", write(10))], vec![], vec![]));
    world.reading =
        GasReading { balance: 1, execution_gas_used: 0, io_gas_used: 0, storage_fee_used: 0 };
    // The epilogue makes a slot.
    world.epilogue_session = Ok(change_set(vec![("fresh", creation(1))], vec![], vec![]));
    let mut no_charge = vm_impl();
    no_charge.features.charge_invariant_violation = false;
    let txn = user_txn(TransactionPayload::EntryFunction(transfer()), 1000);
    let (vm_status, output, _, report) =
        finished(world.run(AptosVM::new(no_charge).execute_user_transaction(txn)));
    assert_eq!(vm_status, VMStatus::error(StatusCode::UNKNOWN_INVARIANT_VIOLATION_ERROR, None));
    assert_eq!(
        output.status,
        TransactionStatus::Discard(StatusCode::UNKNOWN_INVARIANT_VIOLATION_ERROR)
    );
    assert!(is_empty(&output.change_set));
    assert_eq!(report, ViolationReport::Alert);
    assert_eq!(world.log.last().unwrap(), "FinishRespawnedSession");
}

#[test]
fn invariant_violation_is_kept_where_it_is_charged() {
    let mut world = World::new();
    world.execute = Err(VMStatus::error(
        StatusCode::UNKNOWN_INVARIANT_VIOLATION_ERROR,
        Some(EPARANOID_FAILURE),
    ));
    world.reading =
        GasReading { balance: 1, execution_gas_used: 0, io_gas_used: 0, storage_fee_used: 0 };
    let txn = user_txn(TransactionPayload::EntryFunction(transfer()), 1000);
    let (_, output, _, report) = finished(world.run(vm().execute_user_transaction(txn)));
    assert_eq!(
        output.status,
        TransactionStatus::Keep(ExecutionStatus::MiscellaneousError(Some(
            StatusCode::UNKNOWN_INVARIANT_VIOLATION_ERROR
        )))
    );
    assert_eq!(report, ViolationReport::Alert);
}

#[test]
fn zero_max_gas_is_discarded_in_the_prologue() {
    let mut world = World::new();
    let txn = user_txn(TransactionPayload::EntryFunction(transfer()), 0);
    let (vm_status, output, _, _) = finished(world.run(vm().execute_user_transaction(txn)));
    assert_eq!(vm_status, VMStatus::error(StatusCode::INVALID_GAS_AMOUNT, None));
    assert_eq!(output.status, TransactionStatus::Discard(StatusCode::INVALID_GAS_AMOUNT));
    assert!(is_empty(&output.change_set));
    assert_eq!(world.log, vec!["MakeGasMeter(0)", "NewSession(false)"]);
}

#[test]
fn duplicate_signers_are_discarded() {
    let mut world = World::new();
    let mut txn = user_txn(TransactionPayload::EntryFunction(transfer()), 10);
    txn.authenticator = TransactionAuthenticator::MultiAgent {
        secondary_signer_addresses: vec![address(0xc), address(0xa)],
    };
    assert!(txn.contains_duplicate_signers());
    let (vm_status, output, _, _) = finished(world.run(vm().execute_user_transaction(txn)));
    assert_eq!(vm_status, VMStatus::error(StatusCode::SIGNERS_CONTAIN_DUPLICATES, None));
    assert_eq!(output.status, TransactionStatus::Discard(StatusCode::SIGNERS_CONTAIN_DUPLICATES));
    assert_eq!(world.count("CheckGas"), 0);
}

#[test]
fn secondary_signers_sign_after_the_sender() {
    let mut world = World::new();
    world.reading =
        GasReading { balance: 1, execution_gas_used: 0, io_gas_used: 0, storage_fee_used: 0 };
    let script = Script { code: vec![1], ty_args: vec![], args: vec![] };
    let mut txn = user_txn(TransactionPayload::Script(script), 10);
    txn.authenticator = TransactionAuthenticator::MultiAgent {
        secondary_signer_addresses: vec![address(0xc), address(0xd)],
    };
    assert!(!txn.contains_duplicate_signers());
    assert_eq!(
        TransactionMetadata::new(&txn).senders(),
        vec![address(0xa), address(0xc), address(0xd)]
    );
    let (vm_status, _, _, _) = finished(world.run(vm().execute_user_transaction(txn)));
    assert_eq!(vm_status, VMStatus::Executed);
    assert_eq!(world.senders_seen, vec![vec![address(0xa), address(0xc), address(0xd)]]);
    assert_eq!(world.count("ExecuteScript(true)"), 1);
}

#[test]
fn single_sender_is_refused_where_it_is_not_enabled() {
    let mut gated = vm_impl();
    gated.features.single_sender_authenticator = false;
    let mut txn = user_txn(TransactionPayload::EntryFunction(transfer()), 10);
    txn.authenticator = TransactionAuthenticator::SingleSender;
    let mut world = World::new();
    let (vm_status, output, _, _) =
        finished(world.run(AptosVM::new(gated).execute_user_transaction(txn.clone())));
    assert_eq!(vm_status, VMStatus::error(StatusCode::FEATURE_UNDER_GATING, None));
    assert_eq!(output.status, TransactionStatus::Discard(StatusCode::FEATURE_UNDER_GATING));
    // The validator refuses it before anything else is looked at.
    let mut world = World::new();
    let result = validated(world.run(AptosVM::new(gated).validate_transaction(txn, false)));
    assert_eq!(result, VMValidatorResult::error(StatusCode::FEATURE_UNDER_GATING));
    assert!(world.log.is_empty());
}

#[test]
fn module_bundle_is_refused_by_default() {
    let mut world = World::new();
    let bundle = ModuleBundle { codes: vec![Module { code: vec![1] }] };
    let txn = user_txn(TransactionPayload::ModuleBundle(bundle), 10);
    let (vm_status, output, _, _) = finished(world.run(vm().execute_user_transaction(txn)));
    assert_eq!(vm_status, VMStatus::error(StatusCode::FEATURE_UNDER_GATING, None));
    assert_eq!(output.status, TransactionStatus::Discard(StatusCode::FEATURE_UNDER_GATING));
    assert_eq!(world.log, vec!["MakeGasMeter(10)", "NewSession(false)"]);
}

fn allowing_bundles() -> AptosVM {
    let mut allowed = vm_impl();
    allowed.module_bundle_disallowed = false;
    AptosVM::new(allowed)
}

#[test]
fn module_bundle_is_published_under_the_sender() {
    let mut world = World::new();
    world.probes = vec![ModuleProbe { failure: None, loaded: false }];
    world.modules = Some(vec![compiled("M", vec![])]);
    world.init_functions = vec![InitFunction::Valid];
    world.reading =
        GasReading { balance: 1, execution_gas_used: 0, io_gas_used: 0, storage_fee_used: 0 };
    let bundle = ModuleBundle { codes: vec![Module { code: vec![1] }] };
    let txn = user_txn(TransactionPayload::ModuleBundle(bundle), 10);
    let (vm_status, _, _, _) = finished(world.run(allowing_bundles().execute_user_transaction(txn)));
    assert_eq!(vm_status, VMStatus::Executed);
    assert_eq!(
        world.log[2..12],
        vec![
            "CheckGas",
            "RunModulePrologue",
            "NewSession(true)",
            "ChargeIntrinsicGas(300)",
            "ProbeModuleBundle",
            "DeserializeModuleBundle",
            "PublishModuleBundle(10)",
            "ProbeInitModule(0)",
            "InitModule(true)",
            "FinishSession",
        ]
    );
}

#[test]
fn module_bundle_with_a_module_that_exists_fails() {
    let mut world = World::new();
    world.probes = vec![
        ModuleProbe { failure: None, loaded: false },
        ModuleProbe { failure: None, loaded: true },
        ModuleProbe { failure: Some(VMStatus::error(StatusCode::BAD_MAGIC, None)), loaded: false },
    ];
    world.reading =
        GasReading { balance: 1, execution_gas_used: 0, io_gas_used: 0, storage_fee_used: 0 };
    let bundle = ModuleBundle { codes: vec![Module { code: vec![1] }] };
    let txn = user_txn(TransactionPayload::ModuleBundle(bundle), 10);
    let (vm_status, output, _, _) =
        finished(world.run(allowing_bundles().execute_user_transaction(txn)));
    assert_eq!(vm_status, VMStatus::error(StatusCode::DUPLICATE_MODULE_NAME, None));
    assert_eq!(
        output.status,
        TransactionStatus::Keep(ExecutionStatus::MiscellaneousError(Some(
            StatusCode::DUPLICATE_MODULE_NAME
        )))
    );
    assert_eq!(world.count("PublishModuleBundle"), 0);
}

#[test]
fn module_bundle_that_does_not_decode_fails_after_it_was_published() {
    let mut world = World::new();
    world.probes = vec![ModuleProbe { failure: None, loaded: false }];
    world.modules = None;
    let bundle = ModuleBundle { codes: vec![Module { code: vec![1] }] };
    let txn = user_txn(TransactionPayload::ModuleBundle(bundle), 10);
    let (vm_status, _, _, _) = finished(world.run(allowing_bundles().execute_user_transaction(txn)));
    assert_eq!(vm_status, VMStatus::error(StatusCode::CODE_DESERIALIZATION_ERROR, None));
    assert_eq!(world.count("PublishModuleBundle"), 1);
    assert_eq!(world.count("ProbeInitModule"), 0);
}

#[test]
fn prologue_failure_discards() {
    let mut world = World::new();
    world.prologue = Err(VMStatus::error(StatusCode::SEQUENCE_NUMBER_TOO_OLD, None));
    let txn = user_txn(TransactionPayload::EntryFunction(transfer()), 10);
    let (vm_status, output, _, _) = finished(world.run(vm().execute_user_transaction(txn)));
    assert_eq!(vm_status, VMStatus::error(StatusCode::SEQUENCE_NUMBER_TOO_OLD, None));
    assert_eq!(output.status, TransactionStatus::Discard(StatusCode::SEQUENCE_NUMBER_TOO_OLD));
    assert!(is_empty(&output.change_set));
    let mut world = World::new();
    world.check_gas = Err(VMStatus::error(StatusCode::GAS_UNIT_PRICE_BELOW_MIN_BOUND, None));
    let txn = user_txn(TransactionPayload::EntryFunction(transfer()), 10);
    let (_, output, _, _) = finished(world.run(vm().execute_user_transaction(txn)));
    assert_eq!(
        output.status,
        TransactionStatus::Discard(StatusCode::GAS_UNIT_PRICE_BELOW_MIN_BOUND)
    );
    assert_eq!(world.count("RunScriptPrologue"), 0);
    let mut world = World::new();
    world.multisig_prologue = Err(VMStatus::MoveAbort(AbortLocation::Script, 2));
    let (_, output, _, _) = finished(world.run(vm().execute_user_transaction(multisig_txn(None))));
    assert_eq!(output.status, TransactionStatus::Discard(StatusCode::ABORTED));
}

#[test]
fn validator_accepts_a_sequence_number_that_is_too_new() {
    let txn = user_txn(TransactionPayload::EntryFunction(transfer()), 10);
    let mut world = World::new();
    world.prologue = Err(VMStatus::error(StatusCode::SEQUENCE_NUMBER_TOO_NEW, None));
    let result = validated(world.run(vm().validate_transaction(txn.clone(), true)));
    assert_eq!(result, VMValidatorResult::new(None, 1));
    assert_eq!(world.log, vec!["NewSession(false)", "CheckGas", "RunScriptPrologue"]);
    // Any other gap is the reason to reject.
    let mut world = World::new();
    world.prologue = Err(VMStatus::error(StatusCode::SEQUENCE_NUMBER_TOO_OLD, None));
    let result = validated(world.run(vm().validate_transaction(txn.clone(), true)));
    assert_eq!(result, VMValidatorResult::new(Some(StatusCode::SEQUENCE_NUMBER_TOO_OLD), 0));
    assert_eq!(result.status(), Some(StatusCode::SEQUENCE_NUMBER_TOO_OLD));
    assert_eq!(result.score(), 0);
    // The execution discards both.
    let mut world = World::new();
    world.prologue = Err(VMStatus::error(StatusCode::SEQUENCE_NUMBER_TOO_NEW, None));
    let (_, output, _, _) = finished(world.run(vm().execute_user_transaction(txn.clone())));
    assert_eq!(output.status, TransactionStatus::Discard(StatusCode::SEQUENCE_NUMBER_TOO_NEW));
    // A transaction that passes is ranked by its gas price.
    let mut world = World::new();
    let mut priced = txn.clone();
    priced.gas_unit_price = 44;
    let result = validated(world.run(vm().validate_transaction(priced, true)));
    assert_eq!(result, VMValidatorResult::new(None, 44));
    // An invalid signature is refused before the prologue.
    let mut world = World::new();
    let result = validated(world.run(vm().validate_transaction(txn, false)));
    assert_eq!(result, VMValidatorResult::error(StatusCode::INVALID_SIGNATURE));
    assert!(world.log.is_empty());
}

#[test]
fn validator_does_not_run_the_multisig_prologue_in_simulation() {
    let mut world = World::new();
    let result = validated(world.run(vm().validate_transaction(multisig_txn(None), true)));
    assert_eq!(result, VMValidatorResult::new(None, 1));
    assert_eq!(world.count("RunMultisigPrologue"), 1);
    let mut world = World::new();
    let simulation = AptosSimulationVM::new(vm_impl());
    let result = validated(world.run(simulation.0.validate_transaction(multisig_txn(None), true)));
    assert_eq!(result, VMValidatorResult::new(None, 1));
    assert_eq!(world.count("RunMultisigPrologue"), 0);
}

#[test]
fn sponsored_account_is_created_for_a_fee_payer() {
    let mut world = World::new();
    world.reading =
        GasReading { balance: 1, execution_gas_used: 0, io_gas_used: 0, storage_fee_used: 0 };
    let mut txn = user_txn(TransactionPayload::EntryFunction(transfer()), 10);
    txn.authenticator = TransactionAuthenticator::FeePayer {
        secondary_signer_addresses: vec![],
        fee_payer_address: address(0xf),
    };
    let (vm_status, _, _, _) = finished(world.run(vm().execute_user_transaction(txn.clone())));
    assert_eq!(vm_status, VMStatus::Executed);
    assert_eq!(world.count("CreateAccount(true)"), 1);
    assert_eq!(
        world.calls,
        vec![SystemCallOf::CreateAccountIfDoesNotExist { sender: address(0xa) }]
    );
    assert!(world.place("NewSession(true)").unwrap() < world.place("CreateAccount").unwrap());
    assert!(world.place("CreateAccount").unwrap() < world.place("ChargeIntrinsicGas").unwrap());
    // A failure to create it discards the transaction.
    let mut world = World::new();
    world.create_account = Err(out_of_gas());
    let (vm_status, output, _, _) = finished(world.run(vm().execute_user_transaction(txn.clone())));
    assert_eq!(vm_status, out_of_gas());
    assert_eq!(output.status, TransactionStatus::Discard(StatusCode::OUT_OF_GAS));
    // Without the feature no account is created.
    let mut world = World::new();
    let mut plain = vm_impl();
    plain.features.sponsored_automatic_account_creation = false;
    world.run(AptosVM::new(plain).execute_user_transaction(txn));
    assert_eq!(world.count("CreateAccount"), 0);
}

#[test]
fn old_gas_rules_keep_the_prologue_session_and_skip_the_consistency_check() {
    let mut world = World::new();
    world.consistency = Err(VMStatus::error(StatusCode::UNKNOWN_INVARIANT_VIOLATION_ERROR, None));
    world.reading =
        GasReading { balance: 1, execution_gas_used: 0, io_gas_used: 0, storage_fee_used: 0 };
    let mut old = vm_impl();
    old.gas_feature_version = 0;
    let txn = user_txn(TransactionPayload::EntryFunction(transfer()), 10);
    let (vm_status, _, _, _) = finished(world.run(AptosVM::new(old).execute_user_transaction(txn)));
    assert_eq!(vm_status, VMStatus::Executed);
    assert_eq!(world.count("NewSession(true)"), 0);
    assert_eq!(world.count("ReadGasMeter(false)"), 1);
}

#[test]
fn inconsistent_gas_meter_fails_a_successful_transaction() {
    let mut world = World::new();
    let broken = VMStatus::error(StatusCode::UNKNOWN_INVARIANT_VIOLATION_ERROR, None);
    world.consistency = Err(broken.clone());
    world.reading =
        GasReading { balance: 1, execution_gas_used: 0, io_gas_used: 0, storage_fee_used: 0 };
    let txn = user_txn(TransactionPayload::EntryFunction(transfer()), 10);
    let (vm_status, output, _, _) = finished(world.run(vm().execute_user_transaction(txn)));
    assert_eq!(vm_status, broken);
    // The meter is read again for the failure epilogue, where what the
    // check finds is not acted upon.
    assert_eq!(world.count("ReadGasMeter(true)"), 2);
    assert_eq!(world.count("RunSuccessEpilogue"), 0);
    assert_eq!(world.count("RunFailureEpilogue"), 1);
    assert!(matches!(output.status, TransactionStatus::Keep(ExecutionStatus::MiscellaneousError(_))));
}

#[test]
fn failure_epilogue_that_fails_discards() {
    let mut world = World::new();
    world.execute = Err(abort_in_m(1));
    world.epilogue = Err(VMStatus::error(StatusCode::ARITHMETIC_ERROR, None));
    world.reading =
        GasReading { balance: 1, execution_gas_used: 0, io_gas_used: 0, storage_fee_used: 0 };
    let txn = user_txn(TransactionPayload::EntryFunction(transfer()), 10);
    let (vm_status, output, _, _) = finished(world.run(vm().execute_user_transaction(txn)));
    assert_eq!(vm_status, VMStatus::error(StatusCode::ARITHMETIC_ERROR, None));
    assert_eq!(output.status, TransactionStatus::Discard(StatusCode::ARITHMETIC_ERROR));
    assert!(is_empty(&output.change_set));
    assert_eq!(output.fee_statement, FeeStatement::zero());
}

#[test]
fn failed_session_finish_after_the_failure_epilogue_discards_the_output() {
    let mut world = World::new();
    world.execute = Err(abort_in_m(1));
    world.session = Err(VMStatus::error(StatusCode::STORAGE_WRITE_LIMIT_REACHED, None));
    world.reading =
        GasReading { balance: 1, execution_gas_used: 0, io_gas_used: 0, storage_fee_used: 0 };
    let txn = user_txn(TransactionPayload::EntryFunction(transfer()), 10);
    let (vm_status, output, _, _) = finished(world.run(vm().execute_user_transaction(txn)));
    assert_eq!(vm_status, abort_in_m(1));
    assert_eq!(
        output.status,
        TransactionStatus::Discard(StatusCode::STORAGE_WRITE_LIMIT_REACHED)
    );
    assert!(is_empty(&output.change_set));
}

#[test]
fn refund_counts_only_where_deletions_are_refunded() {
    let mut world = World::new();
    world.refund = Ok(25);
    world.reading =
        GasReading { balance: 4, execution_gas_used: 1, io_gas_used: 2, storage_fee_used: 3 };
    let txn = user_txn(TransactionPayload::EntryFunction(transfer()), 10);
    let (_, output, _, _) = finished(world.run(vm().execute_user_transaction(txn.clone())));
    assert_eq!(output.fee_statement, FeeStatement::new(6, 1, 2, 3, 25));
    assert_eq!(world.count("Respawn(25)"), 1);
    let mut world = World::new();
    world.refund = Ok(25);
    world.reading =
        GasReading { balance: 4, execution_gas_used: 1, io_gas_used: 2, storage_fee_used: 3 };
    let mut no_refund = vm_impl();
    no_refund.features.storage_deletion_refund = false;
    let (_, output, _, _) =
        finished(world.run(AptosVM::new(no_refund).execute_user_transaction(txn)));
    assert_eq!(output.fee_statement, FeeStatement::new(6, 1, 2, 3, 0));
    assert_eq!(world.count("Respawn(0)"), 1);
}

#[test]
fn missing_gas_schedule_discards_or_gives_up() {
    let mut unloaded = vm_impl();
    unloaded.gas_parameters_loaded = false;
    let machine = AptosVM::new(unloaded);
    assert_eq!(machine.gas_params(), Err(VMStatus::error(StatusCode::VM_STARTUP_FAILURE, None)));
    assert_eq!(vm().gas_params(), Ok(()));
    let txn = user_txn(TransactionPayload::EntryFunction(transfer()), 10);
    let mut world = World::new();
    let (vm_status, output, _, _) =
        finished(world.run(machine.execute_user_transaction(txn.clone())));
    assert_eq!(vm_status, VMStatus::error(StatusCode::VM_STARTUP_FAILURE, None));
    assert_eq!(output.status, TransactionStatus::Discard(StatusCode::VM_STARTUP_FAILURE));
    let mut world = World::new();
    let status = failed(world.run(machine.execute_user_transaction_with_custom_gas_meter(txn.clone())));
    assert_eq!(status, VMStatus::error(StatusCode::VM_STARTUP_FAILURE, None));
    let mut world = World::new();
    world.reading =
        GasReading { balance: 1, execution_gas_used: 0, io_gas_used: 0, storage_fee_used: 0 };
    let (vm_status, _, _, _) =
        finished(world.run(vm().execute_user_transaction_with_custom_gas_meter(txn)));
    assert_eq!(vm_status, VMStatus::Executed);
    assert_eq!(world.log[0], "MakeGasMeter(10)");
}

#[test]
fn event_that_does_not_answer_the_request_ends_the_pipeline() {
    let txn = user_txn(TransactionPayload::EntryFunction(transfer()), 10);
    let (pipeline, request) = vm().execute_user_transaction(txn);
    assert!(matches!(request, RequestOf::MakeGasMeter { balance: 10 }));
    let event = Event::Unit(Ok(()));
    assert!(pipeline.accepts(&event));
    let (pipeline, request) = pipeline.step(event);
    assert_eq!(
        failed(request),
        VMStatus::error(StatusCode::UNKNOWN_INVARIANT_VIOLATION_ERROR, None)
    );
    // Nothing is waited for after that.
    let (_, request) = pipeline.step(Event::Done);
    assert_eq!(
        failed(request),
        VMStatus::error(StatusCode::UNKNOWN_INVARIANT_VIOLATION_ERROR, None)
    );
}

#[test]
fn gas_reading_above_the_gas_amount_is_not_accepted() {
    let txn = user_txn(TransactionPayload::EntryFunction(transfer()), 10);
    let (pipeline, _) = vm().execute_user_transaction(txn);
    let reading =
        GasReading { balance: 11, execution_gas_used: 0, io_gas_used: 0, storage_fee_used: 0 };
    assert!(!pipeline.accepts(&Event::Gas { consistency: Ok(()), reading }));
    let reading =
        GasReading { balance: 10, execution_gas_used: 0, io_gas_used: 0, storage_fee_used: 0 };
    assert!(pipeline.accepts(&Event::Gas { consistency: Ok(()), reading }));
}

#[test]
fn failed_transaction_cleanup_charges_or_discards() {
    let txn = user_txn(TransactionPayload::EntryFunction(transfer()), 100);
    let txn_data = TransactionMetadata::new(&txn);
    assert_eq!(txn_data.max_gas_amount(), 100);
    assert_eq!(txn_data.gas_unit_price(), 1);
    assert_eq!(txn_data.transaction_size(), 300);
    assert_eq!(txn_data.sender(), address(0xa));
    let mut world = World::new();
    world.reading =
        GasReading { balance: 40, execution_gas_used: 60, io_gas_used: 0, storage_fee_used: 0 };
    let (vm_status, output, _, _) =
        finished(world.run(vm().failed_transaction_cleanup(out_of_gas(), &txn_data)));
    assert_eq!(vm_status, out_of_gas());
    assert_eq!(output.status, TransactionStatus::Keep(ExecutionStatus::OutOfGas));
    assert_eq!(output.fee_statement, FeeStatement::new(60, 60, 0, 0, 0));
    // A status that discards is discarded with its bare code.
    let mut world = World::new();
    world.reading =
        GasReading { balance: 40, execution_gas_used: 60, io_gas_used: 0, storage_fee_used: 0 };
    let error = VMStatus::error(StatusCode::SEQUENCE_NUMBER_TOO_OLD, Some(9));
    let (vm_status, output, _, _) =
        finished(world.run(vm().failed_transaction_cleanup(error, &txn_data)));
    assert_eq!(vm_status, VMStatus::error(StatusCode::SEQUENCE_NUMBER_TOO_OLD, None));
    assert_eq!(output.status, TransactionStatus::Discard(StatusCode::SEQUENCE_NUMBER_TOO_OLD));
    assert_eq!(world.count("RunFailureEpilogue"), 0);
}

fn block_metadata() -> BlockMetadata {
    BlockMetadata {
        id: HashValue { high: 1, low: 2 },
        epoch: 3,
        round: 4,
        proposer: address(0x99),
        previous_block_votes_bitvec: vec![1],
        failed_proposer_indices: vec![],
        timestamp_usecs: 5,
    }
}

fn valid(txn: Transaction) -> SignatureVerifiedTransaction {
    SignatureVerifiedTransaction::Valid(txn)
}

#[test]
fn block_prologue_runs_as_the_vm() {
    let mut world = World::new();
    world.session = Ok(change_set(vec![("block", write(4))], vec![], vec![]));
    let start = vm().execute_single_transaction(valid(Transaction::BlockMetadata(block_metadata())));
    let (vm_status, output, label, _) = finished(world.run(start));
    assert_eq!(vm_status, VMStatus::Executed);
    assert_eq!(output.status, TransactionStatus::Keep(ExecutionStatus::Success));
    assert_eq!(output.fee_statement, FeeStatement::zero());
    assert_eq!(label, Some(TransactionLabel::BlockPrologue));
    assert_eq!(balance_of(&output.change_set, "block"), Some(4));
    assert_eq!(world.log, vec!["NewSession(false)", "BlockPrologue(false)", "FinishSession"]);
    assert_eq!(world.sessions_opened, vec![SessionId::BlockMeta { id: HashValue { high: 1, low: 2 } }]);
    assert_eq!(
        world.calls,
        vec![SystemCallOf::BlockPrologue {
            vm_address: reserved_vm_address(),
            block_metadata: block_metadata(),
        }]
    );
}

#[test]
fn block_prologue_must_not_fail() {
    let mut world = World::new();
    world.block_prologue = Err(VMStatus::MoveAbort(AbortLocation::Script, 12));
    let start = vm().process_block_prologue(block_metadata());
    assert_eq!(
        failed(world.run(start)),
        VMStatus::error(StatusCode::UNEXPECTED_ERROR_FROM_KNOWN_MOVE_FUNCTION, Some(12))
    );
    let mut world = World::new();
    world.block_prologue =
        Err(VMStatus::error(StatusCode::SPECULATIVE_EXECUTION_ABORT_ERROR, None));
    let start = vm().process_block_prologue(block_metadata());
    assert_eq!(
        failed(world.run(start)),
        VMStatus::error(StatusCode::SPECULATIVE_EXECUTION_ABORT_ERROR, None)
    );
}

fn waypoint_events() -> Vec<(ContractEvent, Option<MoveTypeLayout>)> {
    vec![event(Some(new_block_event_key()), 1), event(Some(new_epoch_event_key()), 2)]
}

#[test]
fn genesis_change_set_has_to_announce_block_and_epoch() {
    let mut world = World::new();
    let direct = change_set(vec![("a", write(1))], vec![], waypoint_events());
    let start = vm().execute_single_transaction(valid(Transaction::GenesisTransaction(
        WriteSetPayload::Direct(direct),
    )));
    let (vm_status, output, label, _) = finished(world.run(start));
    assert_eq!(vm_status, VMStatus::Executed);
    assert_eq!(output.status, TransactionStatus::Keep(ExecutionStatus::Success));
    assert_eq!(label, Some(TransactionLabel::WaypointWriteSet));
    assert_eq!(world.log, vec!["ReadChangeSet"]);
    assert!(should_restart_execution(&output));
    assert!(AptosVM::should_restart_execution(&output));
    // Without the new epoch the write set is invalid.
    let mut world = World::new();
    let direct = change_set(vec![], vec![], vec![event(Some(new_block_event_key()), 1)]);
    let start = vm().process_waypoint_change_set(WriteSetPayload::Direct(direct));
    assert_eq!(failed(world.run(start)), VMStatus::error(StatusCode::INVALID_WRITE_SET, None));
    assert!(world.log.is_empty());
    // A slot that cannot be read fails the transaction.
    let mut world = World::new();
    world.read = Err(VMStatus::error(StatusCode::STORAGE_ERROR, None));
    let direct = change_set(vec![], vec![], waypoint_events());
    let start = vm().process_waypoint_change_set(WriteSetPayload::Direct(direct));
    assert_eq!(failed(world.run(start)), VMStatus::error(StatusCode::STORAGE_ERROR, None));
}

#[test]
fn genesis_script_runs_as_the_vm_and_the_given_account() {
    let mut world = World::new();
    world.session = Ok(change_set(vec![], vec![], waypoint_events()));
    let script = WriteSetScript {
        execute_as: address(0x77),
        script: Script { code: vec![1], ty_args: vec![], args: vec![] },
    };
    let start = vm().process_waypoint_change_set(WriteSetPayload::Script(script));
    let (vm_status, _, _, _) = finished(world.run(start));
    assert_eq!(vm_status, VMStatus::Executed);
    assert_eq!(
        world.log,
        vec!["NewSession(false)", "ExecuteScript(false)", "FinishSession", "ReadChangeSet"]
    );
    assert_eq!(world.sessions_opened, vec![SessionId::Genesis { id: HashValue::zero() }]);
    assert_eq!(world.senders_seen, vec![vec![reserved_vm_address(), address(0x77)]]);
}

#[test]
fn checkpoint_validator_transaction_and_invalid_signature() {
    let mut world = World::new();
    let start = vm().execute_single_transaction(valid(Transaction::StateCheckpoint(HashValue::zero())));
    let (vm_status, output, label, _) = finished(world.run(start));
    assert_eq!(vm_status, VMStatus::Executed);
    assert_eq!(output.status, TransactionStatus::Keep(ExecutionStatus::Success));
    assert!(is_empty(&output.change_set));
    assert_eq!(label, Some(TransactionLabel::StateCheckpoint));
    let start = vm().execute_single_transaction(valid(Transaction::ValidatorTransaction(
        ValidatorTransaction { payload: vec![0xff; 99] },
    )));
    let (vm_status, output, label, _) = finished(world.run(start));
    assert_eq!(vm_status, VMStatus::Executed);
    assert_eq!(output.status, TransactionStatus::Keep(ExecutionStatus::Success));
    assert_eq!(label, Some(TransactionLabel::ValidatorTransaction));
    let txn = user_txn(TransactionPayload::EntryFunction(transfer()), 10);
    let start = vm().execute_single_transaction(SignatureVerifiedTransaction::Invalid(
        Transaction::UserTransaction(txn),
    ));
    let (vm_status, output, label, _) = finished(world.run(start));
    assert_eq!(vm_status, VMStatus::error(StatusCode::INVALID_SIGNATURE, None));
    assert_eq!(output.status, TransactionStatus::Discard(StatusCode::INVALID_SIGNATURE));
    assert_eq!(label, None);
    assert!(world.log.is_empty());
}

#[test]
fn view_function_hands_out_what_it_returns() {
    let mut world = World::new();
    world.view = Ok(vec![vec![1, 2], vec![3]]);
    let start = vm().execute_view_function(module_m(), "get".to_string(), vec![], vec![vec![1]], 500);
    match world.run(start) {
        RequestOf::Viewed { outcome } => assert_eq!(outcome, Ok(vec![vec![1, 2], vec![3]])),
        _ => panic!("no view"),
    }
    assert_eq!(world.log, vec!["MakeGasMeter(500)", "NewSession(false)", "ExecuteViewFunction(get)"]);
    assert_eq!(world.sessions_opened, vec![SessionId::Void]);
    let mut unloaded = vm_impl();
    unloaded.storage_gas_parameters_loaded = false;
    let start = AptosVM::new(unloaded).execute_view_function(
        module_m(),
        "get".to_string(),
        vec![],
        vec![],
        500,
    );
    match world.run(start) {
        RequestOf::Viewed { outcome } => {
            assert_eq!(outcome, Err(VMStatus::error(StatusCode::VM_STARTUP_FAILURE, None)))
        },
        _ => panic!("no view"),
    }
}

#[test]
fn same_events_give_the_same_output() {
    let run = || {
        let mut world = World::new();
        world.session = Ok(change_set(
            vec![("A", write(90)), ("B", write(10))],
            vec![],
            vec![transfer_event()],
        ));
        world.reading = GasReading {
            balance: 963,
            execution_gas_used: 30,
            io_gas_used: 7,
            storage_fee_used: 0,
        };
        let txn = user_txn(TransactionPayload::EntryFunction(transfer()), 1000);
        let (vm_status, output, _, _) = finished(world.run(vm().execute_user_transaction(txn)));
        (
            world.log,
            vm_status,
            output.status,
            output.fee_statement,
            balance_of(&output.change_set, "A"),
            balance_of(&output.change_set, "B"),
            output.change_set.events().clone(),
        )
    };
    assert_eq!(run(), run());
}

fn output_with(events: Vec<(ContractEvent, Option<MoveTypeLayout>)>) -> VMOutput {
    VMOutput::new(
        change_set(vec![], vec![], events),
        FeeStatement::zero(),
        TransactionStatus::Keep(ExecutionStatus::Success),
    )
}

#[test]
fn new_epoch_event_restarts_execution() {
    assert!(!should_restart_execution(&output_with(vec![])));
    assert!(!should_restart_execution(&output_with(vec![
        event(Some(new_block_event_key()), 1),
        event(None, 2)
    ])));
    assert!(should_restart_execution(&output_with(vec![
        event(None, 2),
        event(Some(new_epoch_event_key()), 1)
    ])));
    assert_eq!(
        new_epoch_event_key(),
        EventKey { creation_number: 2, account_address: AccountAddress::one() }
    );
}

#[test]
fn block_has_one_output_for_each_transaction() {
    let mut block: BlockExecution = AptosVM::execute_block(4);
    assert_eq!(block.next_transaction(), Some(0));
    block = block.record_output(output_with(vec![]));
    assert_eq!(block.next_transaction(), Some(1));
    block = block.record_output(VMOutput::empty_with_status(TransactionStatus::Discard(
        StatusCode::INVALID_SIGNATURE,
    )));
    block = block.record_output(output_with(vec![]));
    block = block.record_output(output_with(vec![]));
    assert_eq!(block.next_transaction(), None);
    let outputs = block.into_outputs().unwrap();
    assert_eq!(outputs.len(), 4);
    assert_eq!(outputs[1].status, TransactionStatus::Discard(StatusCode::INVALID_SIGNATURE));
    assert!(is_empty(&outputs[1].change_set));
    let empty = AptosVM::execute_block(0);
    assert_eq!(empty.next_transaction(), None);
    assert_eq!(empty.into_outputs().unwrap().len(), 0);
}

#[test]
fn new_epoch_ends_the_block_early() {
    let mut block = AptosVM::execute_block(5);
    block = block.record_output(output_with(vec![]));
    block = block.record_output(output_with(vec![event(Some(new_epoch_event_key()), 1)]));
    assert_eq!(block.next_transaction(), None);
    let outputs = block.into_outputs().unwrap();
    assert_eq!(outputs.len(), 5);
    assert_eq!(outputs[1].status, TransactionStatus::Keep(ExecutionStatus::Success));
    for skipped in &outputs[2..] {
        assert_eq!(skipped.status, TransactionStatus::Retry);
        assert!(is_empty(&skipped.change_set));
    }
}

#[test]
fn failure_to_run_a_transaction_fails_the_block() {
    let mut block = AptosVM::execute_block(3);
    block = block.record_output(output_with(vec![]));
    block = block.record_failure(VMStatus::error(StatusCode::STORAGE_ERROR, None));
    assert_eq!(block.next_transaction(), None);
    assert_eq!(block.into_outputs().err(), Some(VMStatus::error(StatusCode::STORAGE_ERROR, None)));
}

#[test]
fn sharded_block_has_one_output_for_each_transaction() {
    let mut block = AptosVM::execute_block_sharded(2);
    assert_eq!(block.next_transaction(), Some(0));
    block = block.record_output(output_with(vec![]));
    block = block.record_output(VMOutput::empty_with_status(TransactionStatus::Discard(
        StatusCode::SEQUENCE_NUMBER_TOO_OLD,
    )));
    assert_eq!(block.next_transaction(), None);
    let outputs = block.into_outputs().unwrap();
    assert_eq!(outputs.len(), 2);
    assert_eq!(outputs[0].status, TransactionStatus::Keep(ExecutionStatus::Success));
    assert_eq!(outputs[1].status, TransactionStatus::Discard(StatusCode::SEQUENCE_NUMBER_TOO_OLD));
}

#[test]
fn resolver_carries_the_rules_of_the_virtual_machine() {
    let state = EmptyState;
    let machine = vm();
    let plain = machine.as_move_resolver(&state);
    assert_eq!(plain.gas_feature_version, vm_impl().gas_feature_version);
    assert_eq!(plain.features, vm_impl().features);
    assert!(plain.maybe_resource_group_view.is_none());
    assert!(std::ptr::eq(plain.executor_view, &state));
    let grouped = machine.as_move_resolver_with_group_view(&state);
    assert_eq!(grouped.gas_feature_version, vm_impl().gas_feature_version);
    assert!(std::ptr::eq(grouped.maybe_resource_group_view.unwrap(), &state));
}
