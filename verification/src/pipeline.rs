//! The steps of the pipeline: what it does with the event that answers each
//! request.

use crate::aptos_vm::{
    expect_only_successful_execution, expected_failure, report_violation, validation_result,
    validator_result, violation_report, GAS_FEATURE_VERSION_WITH_CONSISTENCY_CHECK, PayloadKind,
    PendingPublish, Pipeline, Purpose, Stage, ViewCall,
};
use crate::bcs_codec::{bytes_from_bcs, decoded_bytes, empty_bytes_to_bcs, encoded_empty_bytes};
use crate::change_set::{empty_change_set, no_aggregator_writes, VMChangeSet};
use crate::output::{
    discard_error_vm_status, discarded_output, has_event, has_event_with_key, has_new_epoch_event,
    VMOutput, VMOutputOf, VMOutputView,
};
use crate::publish::{
    all_expected_published, allowed_map, dependencies_allowed, first_probe_failure,
    module_registered, verify_all_expected_published, verify_dependencies_allowed,
    verify_module_bundle, verify_module_registered,
};
use crate::request::{
    Bookkeeping, Event, GasReading, InitFunction, ModuleProbe, Request, RequestOf, RequestView,
    SystemCallOf,
};
use crate::transaction::{
    has_duplicates, AbortInfo, BlockMetadata, CompiledModule, EntryFunction, ExecutionError,
    ExecutionStatus, FeeStatement, ModuleBundle, MultisigTransactionPayload, PublishRequest,
    SessionId, TransactionPayload, TransactionStatus, WriteSetScript,
};
use crate::types::{
    new_block_event_key, new_epoch_event_key, reserved_vm_address, spec_new_block_event_key,
    spec_reserved_vm_address, AccountAddress, ModuleId,
};
use crate::vm_status::{AbortLocation, StatusCode, VMStatus};
use vstd::prelude::*;

verus! {

/// What a transaction was charged so far, as the gas meter shows it.
pub open spec fn fee_statement_of(
    max_gas_amount: u64,
    reading: GasReading,
    storage_fee_refund: u64,
) -> FeeStatement {
    FeeStatement {
        total_charge_gas_units: (max_gas_amount - reading.balance) as u64,
        execution_gas_units: reading.execution_gas_used,
        io_gas_units: reading.io_gas_used,
        storage_fee_octas: reading.storage_fee_used,
        storage_fee_refund_octas: storage_fee_refund,
    }
}

/// What a transaction was charged so far: the gas it used is what is gone
/// from the balance it started with.
pub fn fee_statement_from_gas_meter(
    max_gas_amount: u64,
    reading: GasReading,
    storage_fee_refund: u64,
) -> (result: FeeStatement)
    requires
        reading.balance <= max_gas_amount,
    ensures
        result == fee_statement_of(max_gas_amount, reading, storage_fee_refund),
        result.total_charge_gas_units == max_gas_amount - reading.balance,
        result.total_charge_gas_units <= max_gas_amount,
{
    FeeStatement::new(
        max_gas_amount - reading.balance,
        reading.execution_gas_used,
        reading.io_gas_used,
        reading.storage_fee_used,
        storage_fee_refund,
    )
}

/// What is wrong with a bundle that does not fit what its package
/// announces.
pub open spec fn spec_metadata_validation_error() -> VMStatus {
    VMStatus::Error { status_code: StatusCode::CONSTRAINT_NOT_SATISFIED, sub_status: None }
}

/// What is wrong with a bundle that does not fit what its package
/// announces.
#[verifier::when_used_as_spec(spec_metadata_validation_error)]
pub fn metadata_validation_error() -> (result: VMStatus)
    ensures
        result == spec_metadata_validation_error(),
{
    VMStatus::error(StatusCode::CONSTRAINT_NOT_SATISFIED, None)
}

/// The list that holds the two signers.
pub fn two_signers(first: AccountAddress, second: AccountAddress) -> (result: Vec<AccountAddress>)
    ensures
        result@ == seq![first, second],
{
    let mut result: Vec<AccountAddress> = Vec::new();
    result.push(first);
    result.push(second);
    proof {
        assert(result@ =~= seq![first, second]);
    }
    result
}

/// The list that holds `signer` alone.
pub fn single_signer(signer: AccountAddress) -> (result: Vec<AccountAddress>)
    ensures
        result@ == seq![signer],
{
    let mut result: Vec<AccountAddress> = Vec::new();
    result.push(signer);
    proof {
        assert(result@ =~= seq![signer]);
    }
    result
}

impl Pipeline {
    /// The sender, then the secondary signers.
    pub open spec fn spec_senders(&self) -> Seq<AccountAddress> {
        match self.secondary_signers {
            Some(signers) => seq![self.numbers.sender] + signers@,
            None => seq![self.numbers.sender],
        }
    }

    /// The sender, then the secondary signers.
    pub fn senders(&self) -> (result: Vec<AccountAddress>)
        ensures
            result@ == self.spec_senders(),
    {
        let mut result: Vec<AccountAddress> = Vec::new();
        result.push(self.numbers.sender);
        match &self.secondary_signers {
            Some(signers) => {
                let mut i: usize = 0;
                while i < signers.len()
                    invariant
                        i <= signers@.len(),
                        result@ == seq![self.numbers.sender] + signers@.subrange(0, i as int),
                    decreases signers@.len() - i,
                {
                    result.push(signers[i]);
                    proof {
                        assert(signers@.subrange(0, i as int + 1) =~= signers@.subrange(
                            0,
                            i as int,
                        ).push(signers@[i as int]));
                        assert(result@ =~= seq![self.numbers.sender] + signers@.subrange(
                            0,
                            i as int + 1,
                        ));
                    }
                    i += 1;
                }
                proof {
                    assert(signers@.subrange(0, signers@.len() as int) =~= signers@);
                }
            },
            None => {
                proof {
                    assert(result@ =~= seq![self.numbers.sender]);
                }
            },
        }
        result
    }

    /// Whether some address signs twice, the sender included.
    pub open spec fn spec_has_duplicate_signers(&self) -> bool {
        !self.spec_senders().no_duplicates()
    }

    /// Whether some address signs twice, the sender included.
    #[verifier::when_used_as_spec(spec_has_duplicate_signers)]
    pub fn has_duplicate_signers(&self) -> (result: bool)
        ensures
            result == self.spec_has_duplicate_signers(),
    {
        let senders = self.senders();
        has_duplicates(&senders)
    }

    /// The session id of the transaction's own sessions.
    pub open spec fn spec_epilogue_session(&self) -> SessionId {
        SessionId::EpilogueMeta {
            sender: self.numbers.sender,
            sequence_number: self.numbers.sequence_number,
        }
    }

    /// What `finish` hands back.
    pub open spec fn spec_finish(self, vm_status: VMStatus, output: VMOutputView) -> (
        Pipeline,
        RequestView,
    ) {
        (
            Pipeline { stage: Stage::Done, ..self },
            RequestOf::Finished {
                vm_status,
                output,
                bookkeeping: Bookkeeping { label: self.label, report: violation_report(vm_status) },
            },
        )
    }

    /// Hands out the result of the transaction.
    pub fn finish(self, vm_status: VMStatus, output: VMOutput) -> (result: (Pipeline, Request))
        ensures
            result.0 == self.spec_finish(vm_status, output@).0,
            result.1@ == self.spec_finish(vm_status, output@).1,
    {
        let bookkeeping = Bookkeeping { label: self.label, report: report_violation(&vm_status) };
        (
            Pipeline { stage: Stage::Done, ..self },
            RequestOf::Finished { vm_status, output, bookkeeping },
        )
    }

    /// What `finish_discarded` hands back.
    pub open spec fn spec_finish_discarded(self, vm_status: VMStatus) -> (Pipeline, RequestView) {
        self.spec_finish(vm_status, discarded_output(vm_status))
    }

    /// Hands out the result of a transaction that is discarded: no write, no
    /// event, nothing charged.
    pub fn finish_discarded(self, vm_status: VMStatus) -> (result: (Pipeline, Request))
        ensures
            result.0 == self.spec_finish_discarded(vm_status).0,
            result.1@ == self.spec_finish_discarded(vm_status).1,
    {
        let (vm_status, output) = discard_error_vm_status(vm_status);
        self.finish(vm_status, output)
    }

    /// What `give_up` hands back.
    pub open spec fn spec_give_up(self, vm_status: VMStatus) -> (Pipeline, RequestView) {
        (Pipeline { stage: Stage::Done, ..self }, RequestOf::Failed { vm_status })
    }

    /// Hands out that the transaction could not be run at all.
    pub fn give_up(self, vm_status: VMStatus) -> (result: (Pipeline, Request))
        ensures
            result.0 == self.spec_give_up(vm_status).0,
            result.1@ == self.spec_give_up(vm_status).1,
    {
        (Pipeline { stage: Stage::Done, ..self }, RequestOf::Failed { vm_status })
    }

    /// What `protocol_violation` hands back.
    pub open spec fn spec_protocol_violation(self) -> (Pipeline, RequestView) {
        self.spec_give_up(
            VMStatus::Error {
                status_code: StatusCode::UNKNOWN_INVARIANT_VIOLATION_ERROR,
                sub_status: None,
            },
        )
    }

    /// Gives up because the event does not answer the request.
    pub fn protocol_violation(self) -> (result: (Pipeline, Request))
        ensures
            result.0 == self.spec_protocol_violation().0,
            result.1@ == self.spec_protocol_violation().1,
    {
        self.give_up(VMStatus::error(StatusCode::UNKNOWN_INVARIANT_VIOLATION_ERROR, None))
    }

    /// What `prologue_failed` hands back.
    pub open spec fn spec_prologue_failed(self, error: VMStatus) -> (Pipeline, RequestView) {
        match self.purpose {
            Purpose::Validation => (
                Pipeline { stage: Stage::Done, ..self },
                RequestOf::Validated {
                    result: validator_result(
                        Err(error),
                        self.numbers.gas_unit_price,
                    ),
                },
            ),
            Purpose::Execution => self.spec_finish_discarded(error),
        }
    }

    /// Ends the prologue with a failure: a validation reports it, an
    /// execution discards the transaction.
    pub fn prologue_failed(self, error: VMStatus) -> (result: (Pipeline, Request))
        ensures
            result.0 == self.spec_prologue_failed(error).0,
            result.1@ == self.spec_prologue_failed(error).1,
    {
        match self.purpose {
            Purpose::Validation => (
                Pipeline { stage: Stage::Done, ..self },
                RequestOf::Validated {
                    result: validation_result(
                        Err(error),
                        self.numbers.gas_unit_price,
                    ),
                },
            ),
            Purpose::Execution => self.finish_discarded(error),
        }
    }

    /// What `validate_signed_transaction` hands back.
    pub open spec fn spec_validate_signed_transaction(self) -> (Pipeline, RequestView) {
        if self.has_duplicate_signers() {
            self.spec_prologue_failed(VMStatus::error(StatusCode::SIGNERS_CONTAIN_DUPLICATES, None))
        } else if !self.vm.vm_impl.features.single_sender_authenticator
            && self.numbers.is_single_sender {
            self.spec_prologue_failed(VMStatus::error(StatusCode::FEATURE_UNDER_GATING, None))
        } else {
            self.spec_run_prologue_with_payload()
        }
    }

    /// Checks the shape of the transaction in its fresh prologue session:
    /// no signer twice, no authenticator that is not enabled, no module
    /// bundle where bundles are refused, and a gas amount above zero. Then it
    /// asks for the check of the gas parameters.
    pub fn validate_signed_transaction(self) -> (result: (Pipeline, Request))
        ensures
            result.0 == self.spec_validate_signed_transaction().0,
            result.1@ == self.spec_validate_signed_transaction().1,
    {
        if self.has_duplicate_signers() {
            self.prologue_failed(VMStatus::error(StatusCode::SIGNERS_CONTAIN_DUPLICATES, None))
        } else if !self.vm.vm_impl.features.single_sender_authenticator
            && self.numbers.is_single_sender {
            self.prologue_failed(VMStatus::error(StatusCode::FEATURE_UNDER_GATING, None))
        } else {
            self.run_prologue_with_payload()
        }
    }

    /// What `run_prologue_with_payload` hands back.
    pub open spec fn spec_run_prologue_with_payload(self) -> (Pipeline, RequestView) {
        if self.numbers.payload_kind == PayloadKind::ModuleBundle
            && self.vm.vm_impl.module_bundle_disallowed {
            self.spec_prologue_failed(VMStatus::error(StatusCode::FEATURE_UNDER_GATING, None))
        } else if self.numbers.max_gas_amount == 0 {
            self.spec_prologue_failed(VMStatus::error(StatusCode::INVALID_GAS_AMOUNT, None))
        } else {
            (Pipeline { stage: Stage::CheckingGas, ..self }, RequestOf::CheckGas)
        }
    }

    /// Starts the prologue that the payload calls for.
    pub fn run_prologue_with_payload(self) -> (result: (Pipeline, Request))
        ensures
            result.0 == self.spec_run_prologue_with_payload().0,
            result.1@ == self.spec_run_prologue_with_payload().1,
    {
        if self.numbers.payload_kind == PayloadKind::ModuleBundle
            && self.vm.vm_impl.module_bundle_disallowed {
            self.prologue_failed(VMStatus::error(StatusCode::FEATURE_UNDER_GATING, None))
        } else if self.numbers.max_gas_amount == 0 {
            self.prologue_failed(VMStatus::error(StatusCode::INVALID_GAS_AMOUNT, None))
        } else {
            (Pipeline { stage: Stage::CheckingGas, ..self }, RequestOf::CheckGas)
        }
    }

    /// What `after_check_gas` hands back.
    pub open spec fn spec_after_check_gas(
        self,
        outcome: Result<(), VMStatus>,
    ) -> (Pipeline, RequestView) {
        match outcome {
            Err(error) => self.spec_prologue_failed(error),
            Ok(_) => match self.numbers.payload_kind {
                PayloadKind::ModuleBundle => (
                    Pipeline { stage: Stage::RunningPrologue, ..self },
                    RequestOf::RunModulePrologue,
                ),
                _ => (
                    Pipeline { stage: Stage::RunningPrologue, ..self },
                    RequestOf::RunScriptPrologue,
                ),
            },
        }
    }

    /// Goes on after the gas parameters were checked: with the prologue of
    /// the payload's kind.
    pub fn after_check_gas(self, outcome: Result<(), VMStatus>) -> (result: (Pipeline, Request))
        ensures
            result.0 == self.spec_after_check_gas(outcome).0,
            result.1@ == self.spec_after_check_gas(outcome).1,
    {
        match outcome {
            Err(error) => self.prologue_failed(error),
            Ok(_) => match self.numbers.payload_kind {
                PayloadKind::ModuleBundle => (
                    Pipeline { stage: Stage::RunningPrologue, ..self },
                    RequestOf::RunModulePrologue,
                ),
                _ => (
                    Pipeline { stage: Stage::RunningPrologue, ..self },
                    RequestOf::RunScriptPrologue,
                ),
            },
        }
    }

    /// What `after_prologue` hands back.
    pub open spec fn spec_after_prologue(
        self,
        outcome: Result<(), VMStatus>,
    ) -> (Pipeline, RequestView) {
        match outcome {
            Err(error) => self.spec_prologue_failed(error),
            Ok(_) => if self.numbers.payload_kind == PayloadKind::Multisig
                && !self.vm.is_simulation {
                (
                    Pipeline { stage: Stage::RunningMultisigPrologue, ..self },
                    RequestOf::RunMultisigPrologue,
                )
            } else {
                self.spec_prologue_passed()
            },
        }
    }

    /// Goes on after the prologue: a multisig transaction that is not
    /// simulated also runs the prologue of its multisig account.
    pub fn after_prologue(self, outcome: Result<(), VMStatus>) -> (result: (Pipeline, Request))
        ensures
            result.0 == self.spec_after_prologue(outcome).0,
            result.1@ == self.spec_after_prologue(outcome).1,
    {
        match outcome {
            Err(error) => self.prologue_failed(error),
            Ok(_) => if self.numbers.payload_kind == PayloadKind::Multisig
                && !self.vm.is_simulation {
                (
                    Pipeline { stage: Stage::RunningMultisigPrologue, ..self },
                    RequestOf::RunMultisigPrologue,
                )
            } else {
                self.prologue_passed()
            },
        }
    }

    /// What `after_multisig_prologue` hands back.
    pub open spec fn spec_after_multisig_prologue(
        self,
        outcome: Result<(), VMStatus>,
    ) -> (Pipeline, RequestView) {
        match outcome {
            Err(error) => self.spec_prologue_failed(error),
            Ok(_) => self.spec_prologue_passed(),
        }
    }

    /// Goes on after the prologue of the multisig account.
    pub fn after_multisig_prologue(
        self,
        outcome: Result<(), VMStatus>,
    ) -> (result: (Pipeline, Request))
        ensures
            result.0 == self.spec_after_multisig_prologue(outcome).0,
            result.1@ == self.spec_after_multisig_prologue(outcome).1,
    {
        match outcome {
            Err(error) => self.prologue_failed(error),
            Ok(_) => self.prologue_passed(),
        }
    }

    /// What `prologue_passed` hands back.
    pub open spec fn spec_prologue_passed(self) -> (Pipeline, RequestView) {
        match self.purpose {
            Purpose::Validation => (
                Pipeline { stage: Stage::Done, ..self },
                RequestOf::Validated {
                    result: validator_result(
                        Ok(()),
                        self.numbers.gas_unit_price,
                    ),
                },
            ),
            Purpose::Execution => if self.vm.vm_impl.gas_feature_version >= 1 {
                (
                    Pipeline { stage: Stage::RefreshingSession, ..self },
                    RequestOf::NewSession {
                        session_id: SessionId::TxnMeta {
                            sender: self.numbers.sender,
                            sequence_number: self.numbers.sequence_number,
                        },
                        release_resource_group_cache: true,
                    },
                )
            } else {
                self.spec_create_sponsored_account()
            },
        }
    }

    /// Ends the prologue with success. A validation reports it. An execution
    /// opens a fresh session, so that what the prologue loaded is charged
    /// for again, where the gas rules ask for that.
    pub fn prologue_passed(self) -> (result: (Pipeline, Request))
        ensures
            result.0 == self.spec_prologue_passed().0,
            result.1@ == self.spec_prologue_passed().1,
    {
        match self.purpose {
            Purpose::Validation => (
                Pipeline { stage: Stage::Done, ..self },
                RequestOf::Validated {
                    result: validation_result(
                        Ok(()),
                        self.numbers.gas_unit_price,
                    ),
                },
            ),
            Purpose::Execution => if self.vm.vm_impl.gas_feature_version >= 1 {
                (
                    Pipeline { stage: Stage::RefreshingSession, ..self },
                    RequestOf::NewSession {
                        session_id: SessionId::TxnMeta {
                            sender: self.numbers.sender,
                            sequence_number: self.numbers.sequence_number,
                        },
                        release_resource_group_cache: true,
                    },
                )
            } else {
                self.create_sponsored_account()
            },
        }
    }

    /// What `create_sponsored_account` hands back.
    pub open spec fn spec_create_sponsored_account(self) -> (Pipeline, RequestView) {
        if self.numbers.has_fee_payer
            && self.vm.vm_impl.features.sponsored_automatic_account_creation {
            (
                Pipeline { stage: Stage::CreatingAccount, ..self },
                RequestOf::ExecuteSystemFunction {
                    call: SystemCallOf::CreateAccountIfDoesNotExist {
                        sender: self.numbers.sender,
                    },
                    metered: true,
                },
            )
        } else {
            self.spec_dispatch_payload()
        }
    }

    /// Creates the sender's account where another account pays the fee and
    /// sponsored accounts are created automatically.
    pub fn create_sponsored_account(self) -> (result: (Pipeline, Request))
        ensures
            result.0 == self.spec_create_sponsored_account().0,
            result.1@ == self.spec_create_sponsored_account().1,
    {
        if self.numbers.has_fee_payer
            && self.vm.vm_impl.features.sponsored_automatic_account_creation {
            (
                Pipeline { stage: Stage::CreatingAccount, ..self },
                RequestOf::ExecuteSystemFunction {
                    call: SystemCallOf::CreateAccountIfDoesNotExist {
                        sender: self.numbers.sender,
                    },
                    metered: true,
                },
            )
        } else {
            self.dispatch_payload()
        }
    }

    /// What `after_create_account` hands back.
    pub open spec fn spec_after_create_account(
        self,
        outcome: Result<Vec<Vec<u8>>, VMStatus>,
    ) -> (Pipeline, RequestView) {
        match outcome {
            Err(error) => self.spec_finish_discarded(error),
            Ok(_) => self.spec_dispatch_payload(),
        }
    }

    /// Goes on after the sender's account was created; a failure discards
    /// the transaction.
    pub fn after_create_account(
        self,
        outcome: Result<Vec<Vec<u8>>, VMStatus>,
    ) -> (result: (Pipeline, Request))
        ensures
            result.0 == self.spec_after_create_account(outcome).0,
            result.1@ == self.spec_after_create_account(outcome).1,
    {
        match outcome {
            Err(error) => self.finish_discarded(error),
            Ok(_) => self.dispatch_payload(),
        }
    }

    /// What `dispatch_payload` hands back.
    pub open spec fn spec_dispatch_payload(self) -> (Pipeline, RequestView) {
        if !self.vm.vm_impl.storage_gas_parameters_loaded {
            self.spec_finish_discarded(VMStatus::error(StatusCode::VM_STARTUP_FAILURE, None))
        } else {
            match self.numbers.payload_kind {
                PayloadKind::Multisig => if self.vm.is_simulation {
                    self.spec_simulate_multisig_transaction()
                } else {
                    self.spec_charge_intrinsic_gas()
                },
                PayloadKind::ModuleBundle => if self.vm.vm_impl.module_bundle_disallowed {
                    self.spec_on_user_transaction_execution_failure(
                        VMStatus::error(StatusCode::FEATURE_UNDER_GATING, None),
                    )
                } else {
                    self.spec_charge_intrinsic_gas()
                },
                _ => self.spec_charge_intrinsic_gas(),
            }
        }
    }

    /// Starts the execution of the payload. A simulated multisig transaction
    /// runs the payload it carries, without charge for its size; a module
    /// bundle is refused where bundles are; everything else is first charged
    /// for its size.
    pub fn dispatch_payload(self) -> (result: (Pipeline, Request))
        ensures
            result.0 == self.spec_dispatch_payload().0,
            result.1@ == self.spec_dispatch_payload().1,
    {
        if !self.vm.vm_impl.storage_gas_parameters_loaded {
            self.finish_discarded(VMStatus::error(StatusCode::VM_STARTUP_FAILURE, None))
        } else {
            match self.numbers.payload_kind {
                PayloadKind::Multisig => if self.vm.is_simulation {
                    self.simulate_multisig_transaction()
                } else {
                    self.charge_intrinsic_gas()
                },
                PayloadKind::ModuleBundle => if self.vm.vm_impl.module_bundle_disallowed {
                    self.on_user_transaction_execution_failure(
                        VMStatus::error(StatusCode::FEATURE_UNDER_GATING, None),
                    )
                } else {
                    self.charge_intrinsic_gas()
                },
                _ => self.charge_intrinsic_gas(),
            }
        }
    }

    /// What `charge_intrinsic_gas` hands back.
    pub open spec fn spec_charge_intrinsic_gas(self) -> (Pipeline, RequestView) {
        (
            Pipeline { stage: Stage::ChargingIntrinsicGas, ..self },
            RequestOf::ChargeIntrinsicGas { transaction_size: self.numbers.transaction_size },
        )
    }

    /// Asks for the charge for the size of the transaction.
    pub fn charge_intrinsic_gas(self) -> (result: (Pipeline, Request))
        ensures
            result.0 == self.spec_charge_intrinsic_gas().0,
            result.1@ == self.spec_charge_intrinsic_gas().1,
    {
        (
            Pipeline { stage: Stage::ChargingIntrinsicGas, ..self },
            RequestOf::ChargeIntrinsicGas { transaction_size: self.numbers.transaction_size },
        )
    }

    /// What `simulate_multisig_transaction` hands back.
    pub open spec fn spec_simulate_multisig_transaction(self) -> (Pipeline, RequestView) {
        match self.payload {
            Some(TransactionPayload::Multisig(multisig)) => match multisig.transaction_payload {
                None => Pipeline { payload: None, ..self }.spec_on_user_transaction_execution_failure(
                    VMStatus::error(StatusCode::MISSING_DATA, None),
                ),
                Some(MultisigTransactionPayload::EntryFunction(entry_function)) => Pipeline {
                    payload: None,
                    ..self
                }.spec_execute_multisig_entry_function(multisig.multisig_address, entry_function),
            },
            _ => self.spec_protocol_violation(),
        }
    }

    /// Runs the payload that a simulated multisig transaction carries, as
    /// the multisig account.
    pub fn simulate_multisig_transaction(self) -> (result: (Pipeline, Request))
        ensures
            result.0 == self.spec_simulate_multisig_transaction().0,
            result.1@ == self.spec_simulate_multisig_transaction().1,
    {
        match self.payload {
            Some(TransactionPayload::Multisig(multisig)) => match multisig.transaction_payload {
                None => Pipeline { payload: None, ..self }.on_user_transaction_execution_failure(
                    VMStatus::error(StatusCode::MISSING_DATA, None),
                ),
                Some(MultisigTransactionPayload::EntryFunction(entry_function)) => Pipeline {
                    payload: None,
                    ..self
                }.execute_multisig_entry_function(multisig.multisig_address, entry_function),
            },
            _ => self.protocol_violation(),
        }
    }

    /// What `after_charge_intrinsic_gas` hands back.
    pub open spec fn spec_after_charge_intrinsic_gas(
        self,
        outcome: Result<(), VMStatus>,
    ) -> (Pipeline, RequestView) {
        match outcome {
            Err(error) => self.spec_on_user_transaction_execution_failure(error),
            Ok(_) => match self.numbers.payload_kind {
                PayloadKind::Script => self.spec_execute_script_or_entry_function(),
                PayloadKind::EntryFunction => self.spec_execute_script_or_entry_function(),
                PayloadKind::Multisig => self.spec_execute_multisig_transaction(),
                PayloadKind::ModuleBundle => self.spec_execute_modules(),
            },
        }
    }

    /// Goes on after the charge for the size of the transaction: with what
    /// the payload is.
    pub fn after_charge_intrinsic_gas(
        self,
        outcome: Result<(), VMStatus>,
    ) -> (result: (Pipeline, Request))
        ensures
            result.0 == self.spec_after_charge_intrinsic_gas(outcome).0,
            result.1@ == self.spec_after_charge_intrinsic_gas(outcome).1,
    {
        match outcome {
            Err(error) => self.on_user_transaction_execution_failure(error),
            Ok(_) => match self.numbers.payload_kind {
                PayloadKind::Script => self.execute_script_or_entry_function(),
                PayloadKind::EntryFunction => self.execute_script_or_entry_function(),
                PayloadKind::Multisig => self.execute_multisig_transaction(),
                PayloadKind::ModuleBundle => self.execute_modules(),
            },
        }
    }

    /// What `validate_and_execute_entry_function` hands back.
    pub open spec fn spec_validate_and_execute_entry_function(
        self,
        senders: Seq<AccountAddress>,
        entry_function: EntryFunction,
    ) -> (Pipeline, RequestView) {
        (
            Pipeline { stage: Stage::ExecutingPayload, ..self },
            RequestOf::ExecuteEntryFunction {
                entry_function,
                senders,
                struct_constructors: self.vm.vm_impl.features.struct_constructors,
            },
        )
    }

    /// Has an entry function loaded, its arguments checked and put together
    /// with the signers, and run. Whether an argument may be a struct that
    /// is built by a constructor is up to the features.
    pub fn validate_and_execute_entry_function(
        self,
        senders: Vec<AccountAddress>,
        entry_function: EntryFunction,
    ) -> (result: (Pipeline, Request))
        ensures
            result.0 == self.spec_validate_and_execute_entry_function(senders@, entry_function).0,
            result.1@ == self.spec_validate_and_execute_entry_function(senders@, entry_function).1,
    {
        (
            Pipeline { stage: Stage::ExecutingPayload, ..self },
            RequestOf::ExecuteEntryFunction {
                entry_function,
                senders,
                struct_constructors: self.vm.vm_impl.features.struct_constructors,
            },
        )
    }

    /// What `execute_script_or_entry_function` hands back.
    pub open spec fn spec_execute_script_or_entry_function(self) -> (Pipeline, RequestView) {
        let senders = self.spec_senders();
        match self.payload {
            Some(TransactionPayload::Script(script)) => (
                Pipeline { stage: Stage::ExecutingPayload, payload: None, ..self },
                RequestOf::ExecuteScript {
                    script,
                    senders,
                    struct_constructors: self.vm.vm_impl.features.struct_constructors,
                    metered: true,
                },
            ),
            Some(TransactionPayload::EntryFunction(entry_function)) => Pipeline {
                payload: None,
                ..self
            }.spec_validate_and_execute_entry_function(senders, entry_function),
            // Only a script or an entry function gets here.
            _ => Pipeline { payload: None, ..self }.spec_on_user_transaction_execution_failure(
                VMStatus::error(StatusCode::UNREACHABLE, None),
            ),
        }
    }

    /// Runs the script or the entry function of the transaction, signed by
    /// its senders.
    pub fn execute_script_or_entry_function(self) -> (result: (Pipeline, Request))
        ensures
            result.0 == self.spec_execute_script_or_entry_function().0,
            result.1@ == self.spec_execute_script_or_entry_function().1,
    {
        let senders = self.senders();
        match self.payload {
            Some(TransactionPayload::Script(script)) => (
                Pipeline { stage: Stage::ExecutingPayload, payload: None, ..self },
                RequestOf::ExecuteScript {
                    script,
                    senders,
                    struct_constructors: self.vm.vm_impl.features.struct_constructors,
                    metered: true,
                },
            ),
            Some(TransactionPayload::EntryFunction(entry_function)) => Pipeline {
                payload: None,
                ..self
            }.validate_and_execute_entry_function(senders, entry_function),
            // Only a script or an entry function gets here.
            _ => Pipeline { payload: None, ..self }.on_user_transaction_execution_failure(
                VMStatus::error(StatusCode::UNREACHABLE, None),
            ),
        }
    }

    /// What `execute_multisig_transaction` hands back.
    pub open spec fn spec_execute_multisig_transaction(self) -> (Pipeline, RequestView) {
        match self.payload {
            Some(TransactionPayload::Multisig(multisig)) => match multisig.transaction_payload {
                Some(payload) => (
                    Pipeline { stage: Stage::EncodingMultisigPayload, payload: None, ..self },
                    RequestOf::EncodeMultisigPayload { payload },
                ),
                None => Pipeline { payload: None, ..self }.spec_fetch_multisig_payload(
                    encoded_empty_bytes(),
                ),
            },
            _ => Pipeline { payload: None, ..self }.spec_protocol_violation(),
        }
    }

    /// Starts the execution of a multisig transaction: the account is asked
    /// for the payload to run, with the payload that the transaction
    /// provides, if it provides one, or the encoding of no bytes.
    pub fn execute_multisig_transaction(self) -> (result: (Pipeline, Request))
        ensures
            result.0 == self.spec_execute_multisig_transaction().0,
            result.1@ == self.spec_execute_multisig_transaction().1,
    {
        match self.payload {
            Some(TransactionPayload::Multisig(multisig)) => match multisig.transaction_payload {
                Some(payload) => (
                    Pipeline { stage: Stage::EncodingMultisigPayload, payload: None, ..self },
                    RequestOf::EncodeMultisigPayload { payload },
                ),
                None => Pipeline { payload: None, ..self }.fetch_multisig_payload(
                    empty_bytes_to_bcs(),
                ),
            },
            _ => Pipeline { payload: None, ..self }.protocol_violation(),
        }
    }

    /// What `execute_modules` hands back.
    pub open spec fn spec_execute_modules(self) -> (Pipeline, RequestView) {
        match self.payload {
            Some(TransactionPayload::ModuleBundle(bundle)) => (
                Pipeline { stage: Stage::ProbingModuleBundle, payload: None, ..self },
                RequestOf::ProbeModuleBundle { bundle },
            ),
            _ => Pipeline { payload: None, ..self }.spec_protocol_violation(),
        }
    }

    /// Starts the publishing of the module bundle that the transaction
    /// carries: every module is probed first.
    pub fn execute_modules(self) -> (result: (Pipeline, Request))
        ensures
            result.0 == self.spec_execute_modules().0,
            result.1@ == self.spec_execute_modules().1,
    {
        match self.payload {
            Some(TransactionPayload::ModuleBundle(bundle)) => (
                Pipeline { stage: Stage::ProbingModuleBundle, payload: None, ..self },
                RequestOf::ProbeModuleBundle { bundle },
            ),
            _ => Pipeline { payload: None, ..self }.protocol_violation(),
        }
    }

    /// What `after_encode_multisig_payload` hands back.
    pub open spec fn spec_after_encode_multisig_payload(
        self,
        encoded: Option<Vec<u8>>,
    ) -> (Pipeline, RequestView) {
        match encoded {
            None => self.spec_on_user_transaction_execution_failure(
                VMStatus::error(StatusCode::UNKNOWN_INVARIANT_VIOLATION_ERROR, None),
            ),
            Some(bytes) => self.spec_fetch_multisig_payload(bytes@),
        }
    }

    /// Goes on after the payload that the transaction provides was encoded.
    pub fn after_encode_multisig_payload(
        self,
        encoded: Option<Vec<u8>>,
    ) -> (result: (Pipeline, Request))
        ensures
            result.0 == self.spec_after_encode_multisig_payload(encoded).0,
            result.1@ == self.spec_after_encode_multisig_payload(encoded).1,
    {
        match encoded {
            None => self.on_user_transaction_execution_failure(
                VMStatus::error(StatusCode::UNKNOWN_INVARIANT_VIOLATION_ERROR, None),
            ),
            Some(bytes) => self.fetch_multisig_payload(bytes),
        }
    }

    /// What `fetch_multisig_payload` hands back.
    pub open spec fn spec_fetch_multisig_payload(
        self,
        provided_payload: Seq<u8>,
    ) -> (Pipeline, RequestView) {
        match self.multisig_address {
            Some(multisig_address) => (
                Pipeline { stage: Stage::FetchingMultisigPayload, ..self },
                RequestOf::ExecuteSystemFunction {
                    call: SystemCallOf::GetNextTransactionPayload {
                        multisig_address,
                        provided_payload,
                    },
                    metered: true,
                },
            ),
            None => self.spec_protocol_violation(),
        }
    }

    /// Asks the multisig account for the payload to run: the one it holds,
    /// or the provided one.
    pub fn fetch_multisig_payload(self, provided_payload: Vec<u8>) -> (result: (Pipeline, Request))
        ensures
            result.0 == self.spec_fetch_multisig_payload(provided_payload@).0,
            result.1@ == self.spec_fetch_multisig_payload(provided_payload@).1,
    {
        match self.multisig_address {
            Some(multisig_address) => (
                Pipeline { stage: Stage::FetchingMultisigPayload, ..self },
                RequestOf::ExecuteSystemFunction {
                    call: SystemCallOf::GetNextTransactionPayload {
                        multisig_address,
                        provided_payload,
                    },
                    metered: true,
                },
            ),
            None => self.protocol_violation(),
        }
    }

    /// What `after_fetch_multisig_payload` hands back.
    pub open spec fn spec_after_fetch_multisig_payload(
        self,
        outcome: Result<Vec<Vec<u8>>, VMStatus>,
    ) -> (Pipeline, RequestView) {
        match outcome {
            Err(error) => self.spec_on_user_transaction_execution_failure(error),
            Ok(values) => if values.len() == 0 {
                self.spec_on_user_transaction_execution_failure(
                    VMStatus::error(StatusCode::UNKNOWN_INVARIANT_VIOLATION_ERROR, None),
                )
            } else {
                self.spec_decode_fetched_payload(decoded_bytes(values@[0]@))
            },
        }
    }

    /// Goes on after the multisig account returned the payload to run. The
    /// first value returned holds the payload, encoded as a byte string.
    pub fn after_fetch_multisig_payload(
        self,
        outcome: Result<Vec<Vec<u8>>, VMStatus>,
    ) -> (result: (Pipeline, Request))
        ensures
            result.0 == self.spec_after_fetch_multisig_payload(outcome).0,
            result.1@ == self.spec_after_fetch_multisig_payload(outcome).1,
    {
        match outcome {
            Err(error) => self.on_user_transaction_execution_failure(error),
            Ok(values) => if values.len() == 0 {
                self.on_user_transaction_execution_failure(
                    VMStatus::error(StatusCode::UNKNOWN_INVARIANT_VIOLATION_ERROR, None),
                )
            } else {
                self.decode_fetched_payload(bytes_from_bcs(&values[0]))
            },
        }
    }

    /// What `decode_fetched_payload` hands back.
    pub open spec fn spec_decode_fetched_payload(self, decoded: Option<Seq<u8>>) -> (
        Pipeline,
        RequestView,
    ) {
        match decoded {
            None => self.spec_on_user_transaction_execution_failure(
                VMStatus::Error {
                    status_code: StatusCode::FAILED_TO_DESERIALIZE_ARGUMENT,
                    sub_status: None,
                },
            ),
            Some(payload_bytes) => (
                Pipeline { stage: Stage::DecodingMultisigPayload, ..self },
                RequestOf::DecodeMultisigPayload { payload_bytes },
            ),
        }
    }

    /// Goes on with what the first value that the multisig account returned
    /// decodes to as a byte string: with the decoding of those bytes as a
    /// payload, or with the failure to decode an argument.
    pub fn decode_fetched_payload(self, decoded: Option<Vec<u8>>) -> (result: (Pipeline, Request))
        ensures
            result.0 == self.spec_decode_fetched_payload(
                match decoded {
                    Some(bytes) => Some(bytes@),
                    None => None,
                },
            ).0,
            result.1@ == self.spec_decode_fetched_payload(
                match decoded {
                    Some(bytes) => Some(bytes@),
                    None => None,
                },
            ).1,
    {
        match decoded {
            None => self.on_user_transaction_execution_failure(
                VMStatus::error(StatusCode::FAILED_TO_DESERIALIZE_ARGUMENT, None),
            ),
            Some(payload_bytes) => (
                Pipeline { stage: Stage::DecodingMultisigPayload, ..self },
                RequestOf::DecodeMultisigPayload { payload_bytes },
            ),
        }
    }

    /// What `after_decode_multisig_payload` hands back.
    pub open spec fn spec_after_decode_multisig_payload(
        self,
        payload_bytes: Vec<u8>,
        payload: Option<MultisigTransactionPayload>,
    ) -> (Pipeline, RequestView) {
        match payload {
            None => self.spec_on_user_transaction_execution_failure(
                VMStatus::error(StatusCode::FAILED_TO_DESERIALIZE_ARGUMENT, None),
            ),
            Some(MultisigTransactionPayload::EntryFunction(entry_function)) => match self.multisig_address {
                Some(multisig_address) => Pipeline {
                    in_multisig_payload: true,
                    payload_bytes: Some(payload_bytes),
                    ..self
                }.spec_execute_multisig_entry_function(multisig_address, entry_function),
                None => self.spec_protocol_violation(),
            },
        }
    }

    /// Goes on after the bytes were decoded as a payload: runs the entry
    /// function as the multisig account. From here on a failure no longer
    /// fails the transaction; it is recorded on the multisig account.
    pub fn after_decode_multisig_payload(
        self,
        payload_bytes: Vec<u8>,
        payload: Option<MultisigTransactionPayload>,
    ) -> (result: (Pipeline, Request))
        ensures
            result.0 == self.spec_after_decode_multisig_payload(payload_bytes, payload).0,
            result.1@ == self.spec_after_decode_multisig_payload(payload_bytes, payload).1,
    {
        match payload {
            None => self.on_user_transaction_execution_failure(
                VMStatus::error(StatusCode::FAILED_TO_DESERIALIZE_ARGUMENT, None),
            ),
            Some(MultisigTransactionPayload::EntryFunction(entry_function)) => match self.multisig_address {
                Some(multisig_address) => Pipeline {
                    in_multisig_payload: true,
                    payload_bytes: Some(payload_bytes),
                    ..self
                }.execute_multisig_entry_function(multisig_address, entry_function),
                None => self.protocol_violation(),
            },
        }
    }

    /// What `execute_multisig_entry_function` hands back.
    pub open spec fn spec_execute_multisig_entry_function(
        self,
        multisig_address: AccountAddress,
        entry_function: EntryFunction,
    ) -> (Pipeline, RequestView) {
        self.spec_validate_and_execute_entry_function(
            seq![multisig_address],
            entry_function,
        )
    }

    /// Runs an entry function as the multisig account alone.
    pub fn execute_multisig_entry_function(
        self,
        multisig_address: AccountAddress,
        entry_function: EntryFunction,
    ) -> (result: (Pipeline, Request))
        ensures
            result.0 == self.spec_execute_multisig_entry_function(
                multisig_address,
                entry_function,
            ).0,
            result.1@ == self.spec_execute_multisig_entry_function(
                multisig_address,
                entry_function,
            ).1,
    {
        self.validate_and_execute_entry_function(
            single_signer(multisig_address),
            entry_function,
        )
    }

    /// What `after_execute_payload` hands back.
    pub open spec fn spec_after_execute_payload(
        self,
        outcome: Result<(), VMStatus>,
    ) -> (Pipeline, RequestView) {
        match outcome {
            Err(error) => self.spec_payload_failed(error),
            Ok(_) => self.spec_resolve_pending_code_publish(),
        }
    }

    /// Goes on after the payload ran: with the publish request that it may
    /// have left behind.
    pub fn after_execute_payload(
        self,
        outcome: Result<(), VMStatus>,
    ) -> (result: (Pipeline, Request))
        ensures
            result.0 == self.spec_after_execute_payload(outcome).0,
            result.1@ == self.spec_after_execute_payload(outcome).1,
    {
        match outcome {
            Err(error) => self.payload_failed(error),
            Ok(_) => self.resolve_pending_code_publish(),
        }
    }

    /// What `resolve_pending_code_publish` hands back.
    pub open spec fn spec_resolve_pending_code_publish(self) -> (Pipeline, RequestView) {
        (
            Pipeline { stage: Stage::ExtractingPublishRequest, ..self },
            RequestOf::ExtractPublishRequest,
        )
    }

    /// Asks for the publish request that the executed code may have left.
    pub fn resolve_pending_code_publish(self) -> (result: (Pipeline, Request))
        ensures
            result.0 == self.spec_resolve_pending_code_publish().0,
            result.1@ == self.spec_resolve_pending_code_publish().1,
    {
        (
            Pipeline { stage: Stage::ExtractingPublishRequest, ..self },
            RequestOf::ExtractPublishRequest,
        )
    }

    /// What `payload_failed` hands back.
    pub open spec fn spec_payload_failed(self, error: VMStatus) -> (Pipeline, RequestView) {
        if self.in_multisig_payload {
            if self.new_published_modules_loaded {
                (
                    Pipeline { stage: Stage::InvalidatingCacheForCleanup { error }, ..self },
                    RequestOf::InvalidateLoaderCache,
                )
            } else {
                self.spec_failure_multisig_payload_cleanup(error)
            }
        } else {
            self.spec_on_user_transaction_execution_failure(error)
        }
    }

    /// Handles a failure of the payload. The failure of what a multisig
    /// account runs leads to the cleanup on that account, after the cache of
    /// loaded modules was marked invalid if the failed payload may have put
    /// modules into it. Any other failure fails the transaction.
    pub fn payload_failed(self, error: VMStatus) -> (result: (Pipeline, Request))
        ensures
            result.0 == self.spec_payload_failed(error).0,
            result.1@ == self.spec_payload_failed(error).1,
    {
        if self.in_multisig_payload {
            if self.new_published_modules_loaded {
                (
                    Pipeline { stage: Stage::InvalidatingCacheForCleanup { error }, ..self },
                    RequestOf::InvalidateLoaderCache,
                )
            } else {
                self.failure_multisig_payload_cleanup(error)
            }
        } else {
            self.on_user_transaction_execution_failure(error)
        }
    }

    /// What `failure_multisig_payload_cleanup` hands back.
    pub open spec fn spec_failure_multisig_payload_cleanup(
        self,
        error: VMStatus,
    ) -> (Pipeline, RequestView) {
        (
            Pipeline {
                stage: Stage::RespawningForCleanup { error },
                in_multisig_payload: false,
                storage_refund: 0,
                publish: None,
                ..self
            },
            RequestOf::Respawn {
                session_id: SessionId::EpilogueMeta {
                    sender: self.numbers.sender,
                    sequence_number: self.numbers.sequence_number,
                },
                change_set: empty_change_set(),
                storage_refund: 0,
            },
        )
    }

    /// Starts the cleanup after the payload of a multisig account failed: a
    /// session that sees nothing of what the payload wrote.
    pub fn failure_multisig_payload_cleanup(self, error: VMStatus) -> (result: (Pipeline, Request))
        ensures
            result.0 == self.spec_failure_multisig_payload_cleanup(error).0,
            result.1@ == self.spec_failure_multisig_payload_cleanup(error).1,
    {
        (
            Pipeline {
                stage: Stage::RespawningForCleanup { error },
                in_multisig_payload: false,
                storage_refund: 0,
                publish: None,
                ..self
            },
            RequestOf::Respawn {
                session_id: SessionId::EpilogueMeta {
                    sender: self.numbers.sender,
                    sequence_number: self.numbers.sequence_number,
                },
                change_set: VMChangeSet::empty(),
                storage_refund: 0,
            },
        )
    }

    /// What `after_respawn_for_cleanup` hands back.
    pub open spec fn spec_after_respawn_for_cleanup(
        self,
        error: VMStatus,
    ) -> (Pipeline, RequestView) {
        match ExecutionError::try_from(error) {
            None => self.spec_on_user_transaction_execution_failure(
                VMStatus::error(StatusCode::UNREACHABLE, None),
            ),
            Some(execution_error) => match self.multisig_address {
                Some(multisig_address) => match self.payload_bytes {
                    Some(payload_bytes) => (
                        Pipeline { stage: Stage::RunningMultisigCleanup, payload_bytes: None, ..self },
                        RequestOf::ExecuteSystemFunction {
                            call: SystemCallOf::FailedTransactionExecutionCleanup {
                                sender: self.numbers.sender,
                                multisig_address,
                                payload_bytes: payload_bytes@,
                                execution_error,
                            },
                            metered: false,
                        },
                    ),
                    None => Pipeline { payload_bytes: None, ..self }.spec_protocol_violation(),
                },
                None => self.spec_protocol_violation(),
            },
        }
    }

    /// Goes on in the fresh session after the payload of a multisig account
    /// failed: reports the failure to the account, without charge.
    pub fn after_respawn_for_cleanup(self, error: VMStatus) -> (result: (Pipeline, Request))
        ensures
            result.0 == self.spec_after_respawn_for_cleanup(error).0,
            result.1@ == self.spec_after_respawn_for_cleanup(error).1,
    {
        match ExecutionError::try_from(error) {
            None => self.on_user_transaction_execution_failure(
                VMStatus::error(StatusCode::UNREACHABLE, None),
            ),
            Some(execution_error) => match self.multisig_address {
                Some(multisig_address) => match self.payload_bytes {
                    Some(payload_bytes) => (
                        Pipeline { stage: Stage::RunningMultisigCleanup, payload_bytes: None, ..self },
                        RequestOf::ExecuteSystemFunction {
                            call: SystemCallOf::FailedTransactionExecutionCleanup {
                                sender: self.numbers.sender,
                                multisig_address,
                                payload_bytes: payload_bytes,
                                execution_error,
                            },
                            metered: false,
                        },
                    ),
                    None => Pipeline { payload_bytes: None, ..self }.protocol_violation(),
                },
                None => self.protocol_violation(),
            },
        }
    }

    /// What `after_extract_publish_request` hands back.
    pub open spec fn spec_after_extract_publish_request(
        self,
        request: Option<PublishRequest>,
    ) -> (Pipeline, RequestView) {
        match request {
            None => self.spec_publish_resolved(),
            Some(request) => Pipeline {
                stage: Stage::DeserializingPublishedBundle,
                publish: Some(
                    PendingPublish {
                        destination: request.destination,
                        bundle: None,
                        expected_modules: Some(request.expected_modules),
                        allowed_deps: request.allowed_deps,
                        modules: None,
                        exists: None,
                    },
                ),
                ..self
            }.spec_deserialize_module_bundle(request.bundle),
        }
    }

    /// Goes on after the publish request was taken out of the session: with
    /// the decoding of its modules, under the limits that the features set.
    pub fn after_extract_publish_request(
        self,
        request: Option<PublishRequest>,
    ) -> (result: (Pipeline, Request))
        ensures
            result.0 == self.spec_after_extract_publish_request(request).0,
            result.1@ == self.spec_after_extract_publish_request(request).1,
    {
        match request {
            None => self.publish_resolved(),
            Some(request) => Pipeline {
                stage: Stage::DeserializingPublishedBundle,
                publish: Some(
                    PendingPublish {
                        destination: request.destination,
                        bundle: None,
                        expected_modules: Some(request.expected_modules),
                        allowed_deps: request.allowed_deps,
                        modules: None,
                        exists: None,
                    },
                ),
                ..self
            }.deserialize_module_bundle(request.bundle),
        }
    }

    /// What `deserialize_module_bundle` hands back.
    pub open spec fn spec_deserialize_module_bundle(
        self,
        bundle: ModuleBundle,
    ) -> (Pipeline, RequestView) {
        let config = self.vm.vm_impl.features.deserializer_config();
        (self, RequestOf::DeserializeModuleBundle { bundle, config })
    }

    /// Asks for the modules of the bundle, decoded under the newest binary
    /// format and the longest identifier that the features accept.
    pub fn deserialize_module_bundle(self, bundle: ModuleBundle) -> (result: (Pipeline, Request))
        ensures
            result.0 == self.spec_deserialize_module_bundle(bundle).0,
            result.1@ == self.spec_deserialize_module_bundle(bundle).1,
    {
        let config = self.vm.vm_impl.features.deserializer_config();
        (self, RequestOf::DeserializeModuleBundle { bundle, config })
    }

    /// What `after_deserialize_published_bundle` hands back.
    pub open spec fn spec_after_deserialize_published_bundle(
        self,
        bundle: ModuleBundle,
        modules: Option<Vec<CompiledModule>>,
    ) -> (Pipeline, RequestView) {
        match self.publish {
            Some(pending) => match modules {
                None => Pipeline { publish: None, ..self }.spec_payload_failed(
                    VMStatus::error(StatusCode::CODE_DESERIALIZATION_ERROR, None),
                ),
                Some(modules) => Pipeline {
                    publish: Some(
                        PendingPublish { bundle: Some(bundle), modules: Some(Some(modules)), ..pending },
                    ),
                    ..self
                }.spec_validate_publish_request(0),
            },
            None => Pipeline { publish: None, ..self }.spec_protocol_violation(),
        }
    }

    /// Goes on after the modules of a publish request were decoded: with
    /// the validation of the request, module by module.
    pub fn after_deserialize_published_bundle(
        self,
        bundle: ModuleBundle,
        modules: Option<Vec<CompiledModule>>,
    ) -> (result: (Pipeline, Request))
        ensures
            result.0 == self.spec_after_deserialize_published_bundle(bundle, modules).0,
            result.1@ == self.spec_after_deserialize_published_bundle(bundle, modules).1,
    {
        match self.publish {
            Some(pending) => match modules {
                None => Pipeline { publish: None, ..self }.payload_failed(
                    VMStatus::error(StatusCode::CODE_DESERIALIZATION_ERROR, None),
                ),
                Some(modules) => Pipeline {
                    publish: Some(
                        PendingPublish { bundle: Some(bundle), modules: Some(Some(modules)), ..pending },
                    ),
                    ..self
                }.validate_publish_request(0),
            },
            None => Pipeline { publish: None, ..self }.protocol_violation(),
        }
    }

    /// Whether the module at place `index` of the pending publish request
    /// is registered and depends only on what is allowed: `None` where there
    /// is no such module.
    pub open spec fn spec_module_accepted(&self, index: usize) -> Option<bool> {
        match self.publish {
            Some(pending) => match (pending.modules, pending.expected_modules) {
                (Some(Some(modules)), Some(expected_modules)) => if index < modules@.len() {
                    Some(
                        module_registered(modules@, expected_modules@, index as int)
                            && dependencies_allowed(
                            modules@[index as int],
                            allowed_map(pending.allowed_deps),
                        ),
                    )
                } else {
                    None
                },
                _ => None,
            },
            None => None,
        }
    }

    /// Whether the module at place `index` of the pending publish request
    /// is registered and depends only on what is allowed.
    #[verifier::when_used_as_spec(spec_module_accepted)]
    pub fn module_accepted(&self, index: usize) -> (result: Option<bool>)
        ensures
            result == self.spec_module_accepted(index),
    {
        match &self.publish {
            Some(pending) => match (&pending.modules, &pending.expected_modules) {
                (Some(Some(modules)), Some(expected_modules)) => if index < modules.len() {
                    Some(
                        verify_module_registered(modules, expected_modules, index)
                            && verify_dependencies_allowed(&modules[index], &pending.allowed_deps),
                    )
                } else {
                    None
                },
                _ => None,
            },
            None => None,
        }
    }

    /// Whether the modules of the pending publish request decoded.
    pub open spec fn spec_bundle_decoded(&self) -> bool {
        match self.publish {
            Some(pending) => pending.modules matches Some(Some(_)),
            None => false,
        }
    }

    /// Whether the modules of the pending publish request decoded.
    #[verifier::when_used_as_spec(spec_bundle_decoded)]
    pub fn bundle_decoded(&self) -> (result: bool)
        ensures
            result == self.spec_bundle_decoded(),
    {
        match &self.publish {
            Some(pending) => match &pending.modules {
                Some(Some(_)) => true,
                _ => false,
            },
            None => false,
        }
    }

    /// How many modules the pending publish request holds.
    pub open spec fn spec_module_count(&self) -> usize {
        match self.publish {
            Some(pending) => match pending.modules {
                Some(Some(modules)) => modules@.len() as usize,
                _ => 0,
            },
            None => 0,
        }
    }

    /// How many modules the pending publish request holds.
    #[verifier::when_used_as_spec(spec_module_count)]
    pub fn module_count(&self) -> (result: usize)
        ensures
            result == self.spec_module_count(),
    {
        match &self.publish {
            Some(pending) => match &pending.modules {
                Some(Some(modules)) => modules.len(),
                _ => 0,
            },
            None => 0,
        }
    }

    /// Whether every module that the package announces is in the bundle.
    pub open spec fn spec_all_published(&self) -> bool {
        match self.publish {
            Some(pending) => match (pending.modules, pending.expected_modules) {
                (Some(Some(modules)), Some(expected_modules)) => all_expected_published(
                    modules@,
                    expected_modules@,
                ),
                _ => true,
            },
            None => true,
        }
    }

    /// Whether every module that the package announces is in the bundle.
    #[verifier::when_used_as_spec(spec_all_published)]
    pub fn all_published(&self) -> (result: bool)
        ensures
            result == self.spec_all_published(),
    {
        match &self.publish {
            Some(pending) => match (&pending.modules, &pending.expected_modules) {
                (Some(Some(modules)), Some(expected_modules)) => verify_all_expected_published(
                    modules,
                    expected_modules,
                ),
                _ => true,
            },
            None => true,
        }
    }

    /// Whether the module at place `index` existed before the bundle was
    /// published. Where nothing is known, no module did.
    pub open spec fn spec_existed(&self, index: usize) -> bool {
        match self.publish {
            Some(pending) => match pending.exists {
                Some(exists) => index < exists@.len() && exists@[index as int],
                None => false,
            },
            None => false,
        }
    }

    /// Whether the module at place `index` existed before the bundle was
    /// published.
    #[verifier::when_used_as_spec(spec_existed)]
    pub fn existed(&self, index: usize) -> (result: bool)
        ensures
            result == self.spec_existed(index),
    {
        match &self.publish {
            Some(pending) => match &pending.exists {
                Some(exists) => index < exists.len() && exists[index],
                None => false,
            },
            None => false,
        }
    }

    /// The first module from place `index` on that did not exist before.
    pub open spec fn spec_next_to_initialize(&self, index: usize) -> Option<usize>
        decreases self.spec_module_count() - index,
    {
        if index >= self.spec_module_count() {
            None
        } else if !self.spec_existed(index) {
            Some(index)
        } else {
            self.spec_next_to_initialize((index + 1) as usize)
        }
    }

    /// The first module from place `index` on that did not exist before.
    #[verifier::when_used_as_spec(spec_next_to_initialize)]
    pub fn next_to_initialize(&self, index: usize) -> (result: Option<usize>)
        ensures
            result == self.spec_next_to_initialize(index),
            result matches Some(next) ==> next < self.spec_module_count(),
    {
        let count = self.module_count();
        let mut i: usize = index;
        while i < count
            invariant
                count == self.spec_module_count(),
                self.spec_next_to_initialize(index) == self.spec_next_to_initialize(i),
            decreases count - i,
        {
            if !self.existed(i) {
                return Some(i);
            }
            i += 1;
        }
        None
    }

    /// The name of the module at place `index`, and the account it is
    /// published under.
    pub open spec fn spec_module_to_initialize(
        &self,
        index: usize,
    ) -> Option<(ModuleId, AccountAddress)> {
        match self.publish {
            Some(pending) => match pending.modules {
                Some(Some(modules)) => if index < modules@.len() {
                    Some((modules@[index as int].self_id, pending.destination))
                } else {
                    None
                },
                _ => None,
            },
            None => None,
        }
    }

    /// The name of the module at place `index`, and the account it is
    /// published under.
    #[verifier::when_used_as_spec(spec_module_to_initialize)]
    pub fn module_to_initialize(&self, index: usize) -> (result: Option<(ModuleId, AccountAddress)>)
        ensures
            result == self.spec_module_to_initialize(index),
    {
        match &self.publish {
            Some(pending) => match &pending.modules {
                Some(Some(modules)) => if index < modules.len() {
                    Some((modules[index].self_id.duplicate(), pending.destination))
                } else {
                    None
                },
                _ => None,
            },
            None => None,
        }
    }

    /// What `validate_publish_request` hands back.
    pub open spec fn spec_validate_publish_request(self, index: usize) -> (Pipeline, RequestView) {
        if index >= self.module_count() {
            (
                Pipeline { stage: Stage::ValidatingResourceGroups, ..self },
                RequestOf::ValidateResourceGroups {
                    safer_resource_groups: self.vm.vm_impl.features.safer_resource_groups,
                },
            )
        } else {
            match self.module_accepted(index) {
                Some(true) => (
                    Pipeline { stage: Stage::VerifyingModuleMetadata { index }, ..self },
                    RequestOf::VerifyModuleMetadata { index },
                ),
                _ => self.spec_payload_failed(metadata_validation_error()),
            }
        }
    }

    /// Validates the module at place `index` of a publish request: it must
    /// be one of the modules that the package announces, and depend only on
    /// what the package may depend on; then the framework checks its
    /// metadata. After the last module, the resource groups are checked.
    pub fn validate_publish_request(self, index: usize) -> (result: (Pipeline, Request))
        ensures
            result.0 == self.spec_validate_publish_request(index).0,
            result.1@ == self.spec_validate_publish_request(index).1,
    {
        if index >= self.module_count() {
            (
                Pipeline { stage: Stage::ValidatingResourceGroups, ..self },
                RequestOf::ValidateResourceGroups {
                    safer_resource_groups: self.vm.vm_impl.features.safer_resource_groups,
                },
            )
        } else {
            match self.module_accepted(index) {
                Some(true) => (
                    Pipeline { stage: Stage::VerifyingModuleMetadata { index }, ..self },
                    RequestOf::VerifyModuleMetadata { index },
                ),
                _ => self.payload_failed(metadata_validation_error()),
            }
        }
    }

    /// What `after_verify_module_metadata` hands back.
    pub open spec fn spec_after_verify_module_metadata(
        self,
        index: usize,
        outcome: Result<(), VMStatus>,
    ) -> (Pipeline, RequestView) {
        match outcome {
            Err(_) => self.spec_payload_failed(metadata_validation_error()),
            Ok(_) => if index < self.module_count() {
                self.spec_validate_publish_request((index + 1) as usize)
            } else {
                self.spec_protocol_violation()
            },
        }
    }

    /// Goes on after the framework checked the metadata of a module: with
    /// the next module.
    pub fn after_verify_module_metadata(
        self,
        index: usize,
        outcome: Result<(), VMStatus>,
    ) -> (result: (Pipeline, Request))
        ensures
            result.0 == self.spec_after_verify_module_metadata(index, outcome).0,
            result.1@ == self.spec_after_verify_module_metadata(index, outcome).1,
    {
        match outcome {
            Err(_) => self.payload_failed(metadata_validation_error()),
            Ok(_) => if index < self.module_count() {
                self.validate_publish_request(index + 1)
            } else {
                self.protocol_violation()
            },
        }
    }

    /// What `after_validate_resource_groups` hands back.
    pub open spec fn spec_after_validate_resource_groups(
        self,
        outcome: Result<(), VMStatus>,
    ) -> (Pipeline, RequestView) {
        match outcome {
            Err(error) => self.spec_payload_failed(error),
            Ok(_) => (
                Pipeline { stage: Stage::ValidatingModuleEvents, ..self },
                RequestOf::ValidateModuleEvents,
            ),
        }
    }

    /// Goes on after the resource groups were checked: with the events.
    pub fn after_validate_resource_groups(
        self,
        outcome: Result<(), VMStatus>,
    ) -> (result: (Pipeline, Request))
        ensures
            result.0 == self.spec_after_validate_resource_groups(outcome).0,
            result.1@ == self.spec_after_validate_resource_groups(outcome).1,
    {
        match outcome {
            Err(error) => self.payload_failed(error),
            Ok(_) => (
                Pipeline { stage: Stage::ValidatingModuleEvents, ..self },
                RequestOf::ValidateModuleEvents,
            ),
        }
    }

    /// What `after_validate_module_events` hands back.
    pub open spec fn spec_after_validate_module_events(
        self,
        outcome: Result<(), VMStatus>,
    ) -> (Pipeline, RequestView) {
        match outcome {
            Err(error) => self.spec_payload_failed(error),
            Ok(_) => if !self.all_published() {
                self.spec_payload_failed(metadata_validation_error())
            } else {
                (
                    Pipeline { stage: Stage::CheckingExistingModules, ..self },
                    RequestOf::ExistsModules,
                )
            },
        }
    }

    /// Goes on after the events were checked. Every module that the package
    /// announces must have been in the bundle. Then it is asked which of the
    /// modules exist already.
    pub fn after_validate_module_events(
        self,
        outcome: Result<(), VMStatus>,
    ) -> (result: (Pipeline, Request))
        ensures
            result.0 == self.spec_after_validate_module_events(outcome).0,
            result.1@ == self.spec_after_validate_module_events(outcome).1,
    {
        match outcome {
            Err(error) => self.payload_failed(error),
            Ok(_) => if !self.all_published() {
                self.payload_failed(metadata_validation_error())
            } else {
                (
                    Pipeline { stage: Stage::CheckingExistingModules, ..self },
                    RequestOf::ExistsModules,
                )
            },
        }
    }

    /// What `after_exists_modules` hands back.
    pub open spec fn spec_after_exists_modules(
        self,
        outcome: Result<Vec<bool>, VMStatus>,
    ) -> (Pipeline, RequestView) {
        match outcome {
            Err(error) => self.spec_payload_failed(error),
            Ok(exists) => if exists.len() != self.module_count() {
                self.spec_protocol_violation()
            } else {
                match self.publish {
                    Some(pending) => match pending.bundle {
                        Some(bundle) => (
                            Pipeline {
                                stage: Stage::PublishingBundle,
                                publish: Some(
                                    PendingPublish { bundle: None, exists: Some(exists), ..pending },
                                ),
                                ..self
                            },
                            RequestOf::PublishModuleBundle {
                                bundle,
                                destination: pending.destination,
                                compatibility: self.vm.vm_impl.features.publish_compatibility(),
                            },
                        ),
                        None => Pipeline { publish: None, ..self }.spec_protocol_violation(),
                    },
                    None => Pipeline { publish: None, ..self }.spec_protocol_violation(),
                }
            },
        }
    }

    /// Goes on after it is known which modules exist: publishes the bundle.
    pub fn after_exists_modules(
        self,
        outcome: Result<Vec<bool>, VMStatus>,
    ) -> (result: (Pipeline, Request))
        ensures
            result.0 == self.spec_after_exists_modules(outcome).0,
            result.1@ == self.spec_after_exists_modules(outcome).1,
    {
        match outcome {
            Err(error) => self.payload_failed(error),
            Ok(exists) => if exists.len() != self.module_count() {
                self.protocol_violation()
            } else {
                match self.publish {
                    Some(pending) => match pending.bundle {
                        Some(bundle) => (
                            Pipeline {
                                stage: Stage::PublishingBundle,
                                publish: Some(
                                    PendingPublish { bundle: None, exists: Some(exists), ..pending },
                                ),
                                ..self
                            },
                            RequestOf::PublishModuleBundle {
                                bundle,
                                destination: pending.destination,
                                compatibility: self.vm.vm_impl.features.publish_compatibility(),
                            },
                        ),
                        None => Pipeline { publish: None, ..self }.protocol_violation(),
                    },
                    None => Pipeline { publish: None, ..self }.protocol_violation(),
                }
            },
        }
    }

    /// What `after_publish_bundle` hands back.
    pub open spec fn spec_after_publish_bundle(
        self,
        outcome: Result<(), VMStatus>,
    ) -> (Pipeline, RequestView) {
        match outcome {
            Err(error) => self.spec_payload_failed(error),
            Ok(_) => if self.bundle_decoded() {
                self.spec_execute_module_initialization(0)
            } else {
                self.spec_payload_failed(
                    VMStatus::error(StatusCode::CODE_DESERIALIZATION_ERROR, None),
                )
            },
        }
    }

    /// Goes on after the bundle was published: with the initializers of the
    /// modules that are new.
    pub fn after_publish_bundle(
        self,
        outcome: Result<(), VMStatus>,
    ) -> (result: (Pipeline, Request))
        ensures
            result.0 == self.spec_after_publish_bundle(outcome).0,
            result.1@ == self.spec_after_publish_bundle(outcome).1,
    {
        match outcome {
            Err(error) => self.payload_failed(error),
            Ok(_) => if self.bundle_decoded() {
                self.execute_module_initialization(0)
            } else {
                self.payload_failed(VMStatus::error(StatusCode::CODE_DESERIALIZATION_ERROR, None))
            },
        }
    }

    /// What `execute_module_initialization` hands back.
    pub open spec fn spec_execute_module_initialization(
        self,
        index: usize,
    ) -> (Pipeline, RequestView) {
        match self.next_to_initialize(index) {
            None => self.spec_publish_resolved(),
            Some(next) => (
                Pipeline {
                    stage: Stage::ProbingInitModule { index: next },
                    new_published_modules_loaded: true,
                    ..self
                },
                RequestOf::ProbeInitModule { index: next },
            ),
        }
    }

    /// Looks for the initializer of the first module from place `index` on
    /// that did not exist before. Such a module counts as loaded into the
    /// runtime's cache from here on. Where no module is left, the publish
    /// request is resolved.
    pub fn execute_module_initialization(self, index: usize) -> (result: (Pipeline, Request))
        ensures
            result.0 == self.spec_execute_module_initialization(index).0,
            result.1@ == self.spec_execute_module_initialization(index).1,
    {
        match self.next_to_initialize(index) {
            None => self.publish_resolved(),
            Some(next) => (
                Pipeline {
                    stage: Stage::ProbingInitModule { index: next },
                    new_published_modules_loaded: true,
                    ..self
                },
                RequestOf::ProbeInitModule { index: next },
            ),
        }
    }

    /// What `after_probe_init_module` hands back.
    pub open spec fn spec_after_probe_init_module(
        self,
        index: usize,
        probe: InitFunction,
    ) -> (Pipeline, RequestView) {
        match probe {
            InitFunction::Missing => if index < self.module_count() {
                self.spec_execute_module_initialization((index + 1) as usize)
            } else {
                self.spec_protocol_violation()
            },
            InitFunction::Invalid => self.spec_payload_failed(
                VMStatus::error(StatusCode::CONSTRAINT_NOT_SATISFIED, None),
            ),
            InitFunction::Valid => match self.module_to_initialize(index) {
                Some((module, signer)) => (
                    Pipeline { stage: Stage::ExecutingInitModule { index }, ..self },
                    RequestOf::ExecuteSystemFunction {
                        call: SystemCallOf::InitModule { module, signer },
                        metered: true,
                    },
                ),
                None => self.spec_protocol_violation(),
            },
        }
    }

    /// Goes on after the initializer of a module was looked for: a module
    /// without one is done, one that cannot be run fails the publish, and one
    /// that can is run as the account that the module is published under.
    pub fn after_probe_init_module(
        self,
        index: usize,
        probe: InitFunction,
    ) -> (result: (Pipeline, Request))
        ensures
            result.0 == self.spec_after_probe_init_module(index, probe).0,
            result.1@ == self.spec_after_probe_init_module(index, probe).1,
    {
        match probe {
            InitFunction::Missing => if index < self.module_count() {
                self.execute_module_initialization(index + 1)
            } else {
                self.protocol_violation()
            },
            InitFunction::Invalid => self.payload_failed(
                VMStatus::error(StatusCode::CONSTRAINT_NOT_SATISFIED, None),
            ),
            InitFunction::Valid => match self.module_to_initialize(index) {
                Some((module, signer)) => (
                    Pipeline { stage: Stage::ExecutingInitModule { index }, ..self },
                    RequestOf::ExecuteSystemFunction {
                        call: SystemCallOf::InitModule { module, signer },
                        metered: true,
                    },
                ),
                None => self.protocol_violation(),
            },
        }
    }

    /// What `after_execute_init_module` hands back.
    pub open spec fn spec_after_execute_init_module(
        self,
        index: usize,
        outcome: Result<Vec<Vec<u8>>, VMStatus>,
    ) -> (Pipeline, RequestView) {
        match outcome {
            Err(error) => self.spec_payload_failed(error),
            Ok(_) => if index < self.module_count() {
                self.spec_execute_module_initialization((index + 1) as usize)
            } else {
                self.spec_protocol_violation()
            },
        }
    }

    /// Goes on after the initializer of a module ran: with the next module.
    pub fn after_execute_init_module(
        self,
        index: usize,
        outcome: Result<Vec<Vec<u8>>, VMStatus>,
    ) -> (result: (Pipeline, Request))
        ensures
            result.0 == self.spec_after_execute_init_module(index, outcome).0,
            result.1@ == self.spec_after_execute_init_module(index, outcome).1,
    {
        match outcome {
            Err(error) => self.payload_failed(error),
            Ok(_) => if index < self.module_count() {
                self.execute_module_initialization(index + 1)
            } else {
                self.protocol_violation()
            },
        }
    }

    /// What `publish_resolved` hands back.
    pub open spec fn spec_publish_resolved(self) -> (Pipeline, RequestView) {
        Pipeline {
            in_multisig_payload: false,
            publish: None,
            ..self
        }.spec_charge_change_set_and_respawn_session()
    }

    /// Goes on after the payload ran and what it published is in place:
    /// finishes the session. From here on a failure fails the transaction,
    /// also where the payload was that of a multisig account.
    pub fn publish_resolved(self) -> (result: (Pipeline, Request))
        ensures
            result.0 == self.spec_publish_resolved().0,
            result.1@ == self.spec_publish_resolved().1,
    {
        Pipeline {
            in_multisig_payload: false,
            publish: None,
            ..self
        }.charge_change_set_and_respawn_session()
    }

    /// What `charge_change_set_and_respawn_session` hands back.
    pub open spec fn spec_charge_change_set_and_respawn_session(self) -> (Pipeline, RequestView) {
        (Pipeline { stage: Stage::FinishingSession, ..self }, RequestOf::FinishSession)
    }

    /// Asks for the change set of the session, to charge for it.
    pub fn charge_change_set_and_respawn_session(self) -> (result: (Pipeline, Request))
        ensures
            result.0 == self.spec_charge_change_set_and_respawn_session().0,
            result.1@ == self.spec_charge_change_set_and_respawn_session().1,
    {
        (Pipeline { stage: Stage::FinishingSession, ..self }, RequestOf::FinishSession)
    }

    /// What `after_finish_session` hands back.
    pub open spec fn spec_after_finish_session(
        self,
        outcome: Result<VMChangeSet, VMStatus>,
    ) -> (Pipeline, RequestView) {
        match outcome {
            Err(error) => self.spec_on_user_transaction_execution_failure(error),
            Ok(change_set) => (
                Pipeline { stage: Stage::ChargingChangeSet, ..self },
                RequestOf::ChargeChangeSet {
                    change_set: change_set@,
                    transaction_size: self.numbers.transaction_size,
                    gas_unit_price: self.numbers.gas_unit_price,
                },
            ),
        }
    }

    /// Goes on after the session was finished: charges for its change set.
    pub fn after_finish_session(
        self,
        outcome: Result<VMChangeSet, VMStatus>,
    ) -> (result: (Pipeline, Request))
        ensures
            result.0 == self.spec_after_finish_session(outcome).0,
            result.1@ == self.spec_after_finish_session(outcome).1,
    {
        match outcome {
            Err(error) => self.on_user_transaction_execution_failure(error),
            Ok(change_set) => (
                Pipeline { stage: Stage::ChargingChangeSet, ..self },
                RequestOf::ChargeChangeSet {
                    change_set,
                    transaction_size: self.numbers.transaction_size,
                    gas_unit_price: self.numbers.gas_unit_price,
                },
            ),
        }
    }

    /// What `after_charge_change_set` hands back.
    pub open spec fn spec_after_charge_change_set(
        self,
        outcome: Result<(VMChangeSet, u64), VMStatus>,
    ) -> (Pipeline, RequestView) {
        match outcome {
            Err(error) => self.spec_on_user_transaction_execution_failure(error),
            Ok((change_set, refund)) => {
                let storage_refund = if self.vm.vm_impl.features.storage_deletion_refund {
                    refund
                } else {
                    0
                };
                (
                    Pipeline { stage: Stage::Respawning, storage_refund, ..self },
                    RequestOf::Respawn {
                        session_id: SessionId::EpilogueMeta {
                            sender: self.numbers.sender,
                            sequence_number: self.numbers.sequence_number,
                        },
                        change_set: change_set@,
                        storage_refund,
                    },
                )
            },
        }
    }

    /// Goes on after the change set was charged for: opens the session that
    /// sees the change set laid over the base state. The refund counts only
    /// where deletions are refunded.
    pub fn after_charge_change_set(
        self,
        outcome: Result<(VMChangeSet, u64), VMStatus>,
    ) -> (result: (Pipeline, Request))
        ensures
            result.0 == self.spec_after_charge_change_set(outcome).0,
            result.1@ == self.spec_after_charge_change_set(outcome).1,
    {
        match outcome {
            Err(error) => self.on_user_transaction_execution_failure(error),
            Ok((change_set, refund)) => {
                let storage_refund = if self.vm.vm_impl.features.storage_deletion_refund {
                    refund
                } else {
                    0
                };
                (
                    Pipeline { stage: Stage::Respawning, storage_refund, ..self },
                    RequestOf::Respawn {
                        session_id: SessionId::EpilogueMeta {
                            sender: self.numbers.sender,
                            sequence_number: self.numbers.sequence_number,
                        },
                        change_set,
                        storage_refund,
                    },
                )
            },
        }
    }

    /// What `after_respawn` hands back.
    pub open spec fn spec_after_respawn(self) -> (Pipeline, RequestView) {
        if self.payload_bytes.is_some() {
            self.spec_success_multisig_payload_cleanup()
        } else {
            self.spec_success_transaction_cleanup()
        }
    }

    /// Goes on in the respawned session: where the payload of a multisig
    /// account ran, the account is told of the success, without charge.
    pub fn after_respawn(self) -> (result: (Pipeline, Request))
        ensures
            result.0 == self.spec_after_respawn().0,
            result.1@ == self.spec_after_respawn().1,
    {
        if self.payload_bytes.is_some() {
            self.success_multisig_payload_cleanup()
        } else {
            self.success_transaction_cleanup()
        }
    }

    /// What `success_multisig_payload_cleanup` hands back.
    pub open spec fn spec_success_multisig_payload_cleanup(self) -> (Pipeline, RequestView) {
        match self.payload_bytes {
            Some(payload_bytes) => match self.multisig_address {
                Some(multisig_address) => (
                    Pipeline { stage: Stage::RunningMultisigCleanup, payload_bytes: None, ..self },
                    RequestOf::ExecuteSystemFunction {
                        call: SystemCallOf::SuccessfulTransactionExecutionCleanup {
                            sender: self.numbers.sender,
                            multisig_address,
                            payload_bytes: payload_bytes@,
                        },
                        metered: false,
                    },
                ),
                None => Pipeline { payload_bytes: None, ..self }.spec_protocol_violation(),
            },
            None => Pipeline { payload_bytes: None, ..self }.spec_protocol_violation(),
        }
    }

    /// Tells the multisig account that its payload succeeded, in the
    /// session that sees what the payload wrote, and without charge: the
    /// writes of the payload were charged for before.
    pub fn success_multisig_payload_cleanup(self) -> (result: (Pipeline, Request))
        ensures
            result.0 == self.spec_success_multisig_payload_cleanup().0,
            result.1@ == self.spec_success_multisig_payload_cleanup().1,
    {
        match self.payload_bytes {
            Some(payload_bytes) => match self.multisig_address {
                Some(multisig_address) => (
                    Pipeline { stage: Stage::RunningMultisigCleanup, payload_bytes: None, ..self },
                    RequestOf::ExecuteSystemFunction {
                        call: SystemCallOf::SuccessfulTransactionExecutionCleanup {
                            sender: self.numbers.sender,
                            multisig_address,
                            payload_bytes,
                        },
                        metered: false,
                    },
                ),
                None => Pipeline { payload_bytes: None, ..self }.protocol_violation(),
            },
            None => Pipeline { payload_bytes: None, ..self }.protocol_violation(),
        }
    }

    /// What `after_multisig_cleanup` hands back.
    pub open spec fn spec_after_multisig_cleanup(
        self,
        outcome: Result<Vec<Vec<u8>>, VMStatus>,
    ) -> (Pipeline, RequestView) {
        match outcome {
            Err(error) => self.spec_on_user_transaction_execution_failure(error),
            Ok(_) => self.spec_success_transaction_cleanup(),
        }
    }

    /// Goes on after the multisig account was told how its payload went.
    pub fn after_multisig_cleanup(
        self,
        outcome: Result<Vec<Vec<u8>>, VMStatus>,
    ) -> (result: (Pipeline, Request))
        ensures
            result.0 == self.spec_after_multisig_cleanup(outcome).0,
            result.1@ == self.spec_after_multisig_cleanup(outcome).1,
    {
        match outcome {
            Err(error) => self.on_user_transaction_execution_failure(error),
            Ok(_) => self.success_transaction_cleanup(),
        }
    }

    /// What `success_transaction_cleanup` hands back.
    pub open spec fn spec_success_transaction_cleanup(self) -> (Pipeline, RequestView) {
        (
            Pipeline { stage: Stage::ReadingGasMeter, ..self },
            RequestOf::ReadGasMeter {
                check_consistency: self.vm.vm_impl.gas_feature_version
                    >= GAS_FEATURE_VERSION_WITH_CONSISTENCY_CHECK,
            },
        )
    }

    /// Starts the end of a successful transaction: reads the gas meter, and
    /// has its counters checked under the gas rules that ask for it.
    pub fn success_transaction_cleanup(self) -> (result: (Pipeline, Request))
        ensures
            result.0 == self.spec_success_transaction_cleanup().0,
            result.1@ == self.spec_success_transaction_cleanup().1,
    {
        (
            Pipeline { stage: Stage::ReadingGasMeter, ..self },
            RequestOf::ReadGasMeter {
                check_consistency: self.vm.vm_impl.gas_feature_version
                    >= GAS_FEATURE_VERSION_WITH_CONSISTENCY_CHECK,
            },
        )
    }

    /// What `after_read_gas_meter` hands back.
    pub open spec fn spec_after_read_gas_meter(
        self,
        consistency: Result<(), VMStatus>,
        reading: GasReading,
    ) -> (Pipeline, RequestView) {
        match consistency {
            Err(error) => if self.vm.vm_impl.gas_feature_version
                >= GAS_FEATURE_VERSION_WITH_CONSISTENCY_CHECK {
                self.spec_on_user_transaction_execution_failure(error)
            } else {
                self.spec_run_success_epilogue(reading)
            },
            Ok(_) => self.spec_run_success_epilogue(reading),
        }
    }

    /// Goes on after the gas meter was read: a meter whose counters
    /// disagree fails the transaction where the check was asked for. Else the
    /// epilogue runs, with what is left of the gas and with the fee
    /// statement.
    pub fn after_read_gas_meter(
        self,
        consistency: Result<(), VMStatus>,
        reading: GasReading,
    ) -> (result: (Pipeline, Request))
        requires
            reading.balance <= self.numbers.max_gas_amount,
        ensures
            result.0 == self.spec_after_read_gas_meter(consistency, reading).0,
            result.1@ == self.spec_after_read_gas_meter(consistency, reading).1,
    {
        match consistency {
            Err(error) => if self.vm.vm_impl.gas_feature_version
                >= GAS_FEATURE_VERSION_WITH_CONSISTENCY_CHECK {
                self.on_user_transaction_execution_failure(error)
            } else {
                self.run_success_epilogue(reading)
            },
            Ok(_) => self.run_success_epilogue(reading),
        }
    }

    /// What `run_success_epilogue` hands back.
    pub open spec fn spec_run_success_epilogue(
        self,
        reading: GasReading,
    ) -> (Pipeline, RequestView) {
        let fee_statement = fee_statement_of(
            self.numbers.max_gas_amount,
            reading,
            self.storage_refund,
        );
        (
            Pipeline { stage: Stage::RunningSuccessEpilogue { fee_statement }, ..self },
            RequestOf::RunSuccessEpilogue { gas_remaining: reading.balance, fee_statement },
        )
    }

    /// Asks for the epilogue of a successful transaction.
    pub fn run_success_epilogue(self, reading: GasReading) -> (result: (Pipeline, Request))
        requires
            reading.balance <= self.numbers.max_gas_amount,
        ensures
            result.0 == self.spec_run_success_epilogue(reading).0,
            result.1@ == self.spec_run_success_epilogue(reading).1,
    {
        let fee_statement = fee_statement_from_gas_meter(
            self.numbers.max_gas_amount,
            reading,
            self.storage_refund,
        );
        (
            Pipeline { stage: Stage::RunningSuccessEpilogue { fee_statement }, ..self },
            RequestOf::RunSuccessEpilogue { gas_remaining: reading.balance, fee_statement },
        )
    }

    /// What `after_success_epilogue` hands back.
    pub open spec fn spec_after_success_epilogue(
        self,
        fee_statement: FeeStatement,
        outcome: Result<(), VMStatus>,
    ) -> (Pipeline, RequestView) {
        match outcome {
            Err(error) => self.spec_on_user_transaction_execution_failure(error),
            Ok(_) => (
                Pipeline { stage: Stage::FinishingRespawnedSession { fee_statement }, ..self },
                RequestOf::FinishRespawnedSession,
            ),
        }
    }

    /// Goes on after the epilogue: finishes the respawned session.
    pub fn after_success_epilogue(
        self,
        fee_statement: FeeStatement,
        outcome: Result<(), VMStatus>,
    ) -> (result: (Pipeline, Request))
        ensures
            result.0 == self.spec_after_success_epilogue(fee_statement, outcome).0,
            result.1@ == self.spec_after_success_epilogue(fee_statement, outcome).1,
    {
        match outcome {
            Err(error) => self.on_user_transaction_execution_failure(error),
            Ok(_) => (
                Pipeline { stage: Stage::FinishingRespawnedSession { fee_statement }, ..self },
                RequestOf::FinishRespawnedSession,
            ),
        }
    }

    /// What `after_finish_respawned_session` hands back.
    pub open spec fn spec_after_finish_respawned_session(
        self,
        fee_statement: FeeStatement,
        outcome: Result<VMChangeSet, VMStatus>,
    ) -> (Pipeline, RequestView) {
        match outcome {
            Err(error) => self.spec_on_user_transaction_execution_failure(error),
            Ok(change_set) => self.spec_finish(
                VMStatus::Executed,
                VMOutputOf {
                    change_set: change_set@,
                    fee_statement,
                    status: TransactionStatus::Keep(ExecutionStatus::Success),
                },
            ),
        }
    }

    /// Ends a successful transaction: its output holds the change set of
    /// the respawned session, and it is kept as a success.
    pub fn after_finish_respawned_session(
        self,
        fee_statement: FeeStatement,
        outcome: Result<VMChangeSet, VMStatus>,
    ) -> (result: (Pipeline, Request))
        ensures
            result.0 == self.spec_after_finish_respawned_session(fee_statement, outcome).0,
            result.1@ == self.spec_after_finish_respawned_session(fee_statement, outcome).1,
    {
        match outcome {
            Err(error) => self.on_user_transaction_execution_failure(error),
            Ok(change_set) => self.finish(
                VMStatus::Executed,
                VMOutputOf {
                    change_set,
                    fee_statement,
                    status: TransactionStatus::Keep(ExecutionStatus::Success),
                },
            ),
        }
    }

    /// What `on_user_transaction_execution_failure` hands back.
    pub open spec fn spec_on_user_transaction_execution_failure(
        self,
        error: VMStatus,
    ) -> (Pipeline, RequestView) {
        if self.new_published_modules_loaded {
            (
                Pipeline { stage: Stage::InvalidatingCache { error }, ..self },
                RequestOf::InvalidateLoaderCache,
            )
        } else {
            self.spec_keep_or_discard_failure(error)
        }
    }

    /// Handles a failure of the transaction after its prologue. Where
    /// modules of a publish request were loaded, the cache of loaded modules
    /// is marked invalid first: none of them will be committed.
    pub fn on_user_transaction_execution_failure(
        self,
        error: VMStatus,
    ) -> (result: (Pipeline, Request))
        ensures
            result.0 == self.spec_on_user_transaction_execution_failure(error).0,
            result.1@ == self.spec_on_user_transaction_execution_failure(error).1,
    {
        if self.new_published_modules_loaded {
            (
                Pipeline { stage: Stage::InvalidatingCache { error }, ..self },
                RequestOf::InvalidateLoaderCache,
            )
        } else {
            self.keep_or_discard_failure(error)
        }
    }

    /// What `keep_or_discard_failure` hands back.
    pub open spec fn spec_keep_or_discard_failure(
        self,
        error: VMStatus,
    ) -> (Pipeline, RequestView) {
        if TransactionStatus::from_vm_status(
            error,
            self.vm.vm_impl.features.charge_invariant_violation,
        ).is_discarded() {
            self.spec_finish_discarded(error)
        } else {
            self.spec_failed_transaction_cleanup_and_keep_vm_status(error)
        }
    }

    /// Discards the failed transaction, or starts the cleanup that charges
    /// for it, as its status asks for.
    pub fn keep_or_discard_failure(self, error: VMStatus) -> (result: (Pipeline, Request))
        ensures
            result.0 == self.spec_keep_or_discard_failure(error).0,
            result.1@ == self.spec_keep_or_discard_failure(error).1,
    {
        if TransactionStatus::from_vm_status(
            error.duplicate(),
            self.vm.vm_impl.features.charge_invariant_violation,
        ).is_discarded() {
            self.finish_discarded(error)
        } else {
            self.failed_transaction_cleanup_and_keep_vm_status(error)
        }
    }

    /// What `failed_transaction_cleanup_and_keep_vm_status` hands back.
    pub open spec fn spec_failed_transaction_cleanup_and_keep_vm_status(
        self,
        error: VMStatus,
    ) -> (Pipeline, RequestView) {
        (
            Pipeline {
                stage: Stage::ReadingGasMeterAfterFailure { error },
                in_multisig_payload: false,
                ..self
            },
            RequestOf::ReadGasMeter {
                check_consistency: self.vm.vm_impl.gas_feature_version
                    >= GAS_FEATURE_VERSION_WITH_CONSISTENCY_CHECK,
            },
        )
    }

    /// Starts the cleanup of a failed transaction that is kept: reads the
    /// gas meter. What the check of its counters finds is not acted upon.
    pub fn failed_transaction_cleanup_and_keep_vm_status(
        self,
        error: VMStatus,
    ) -> (result: (Pipeline, Request))
        ensures
            result.0 == self.spec_failed_transaction_cleanup_and_keep_vm_status(error).0,
            result.1@ == self.spec_failed_transaction_cleanup_and_keep_vm_status(error).1,
    {
        (
            Pipeline {
                stage: Stage::ReadingGasMeterAfterFailure { error },
                in_multisig_payload: false,
                ..self
            },
            RequestOf::ReadGasMeter {
                check_consistency: self.vm.vm_impl.gas_feature_version
                    >= GAS_FEATURE_VERSION_WITH_CONSISTENCY_CHECK,
            },
        )
    }

    /// What `after_read_gas_meter_after_failure` hands back.
    pub open spec fn spec_after_read_gas_meter_after_failure(
        self,
        error: VMStatus,
        reading: GasReading,
    ) -> (Pipeline, RequestView) {
        let fee_statement = fee_statement_of(
            self.numbers.max_gas_amount,
            reading,
            0,
        );
        (
            Pipeline {
                stage: Stage::OpeningEpilogueSession {
                    error,
                    gas_remaining: reading.balance,
                    fee_statement,
                },
                ..self
            },
            RequestOf::NewSession {
                session_id: SessionId::EpilogueMeta {
                    sender: self.numbers.sender,
                    sequence_number: self.numbers.sequence_number,
                },
                release_resource_group_cache: false,
            },
        )
    }

    /// Goes on after the gas meter was read: opens a session on the base
    /// state, which sees nothing of what the failed transaction wrote. The
    /// fee statement holds no refund.
    pub fn after_read_gas_meter_after_failure(
        self,
        error: VMStatus,
        reading: GasReading,
    ) -> (result: (Pipeline, Request))
        requires
            reading.balance <= self.numbers.max_gas_amount,
        ensures
            result.0 == self.spec_after_read_gas_meter_after_failure(error, reading).0,
            result.1@ == self.spec_after_read_gas_meter_after_failure(error, reading).1,
    {
        let fee_statement = fee_statement_from_gas_meter(
            self.numbers.max_gas_amount,
            reading,
            0,
        );
        (
            Pipeline {
                stage: Stage::OpeningEpilogueSession {
                    error,
                    gas_remaining: reading.balance,
                    fee_statement,
                },
                ..self
            },
            RequestOf::NewSession {
                session_id: SessionId::EpilogueMeta {
                    sender: self.numbers.sender,
                    sequence_number: self.numbers.sequence_number,
                },
                release_resource_group_cache: false,
            },
        )
    }

    /// What `after_open_epilogue_session` hands back.
    pub open spec fn spec_after_open_epilogue_session(
        self,
        error: VMStatus,
        gas_remaining: u64,
        fee_statement: FeeStatement,
    ) -> (Pipeline, RequestView) {
        match TransactionStatus::from_vm_status(
            error,
            self.vm.vm_impl.features.charge_invariant_violation,
        ) {
            TransactionStatus::Keep(status) => match status {
                ExecutionStatus::MoveAbort { location: AbortLocation::Module(module), code, .. } => (
                    Pipeline {
                        stage: Stage::ExtractingAbortInfo {
                            error,
                            gas_remaining,
                            fee_statement,
                            location: AbortLocation::Module(module),
                            code,
                        },
                        ..self
                    },
                    RequestOf::ExtractAbortInfo { module, code },
                ),
                status => self.spec_run_failure_epilogue(
                    error,
                    gas_remaining,
                    fee_statement,
                    status,
                ),
            },
            TransactionStatus::Discard(code) => self.spec_finish_discarded(
                VMStatus::error(code, None),
            ),
            TransactionStatus::Retry => self.spec_protocol_violation(),
        }
    }

    /// Goes on in the fresh session: a status that discards ends the
    /// transaction; an abort in a module is looked up in the module's
    /// metadata; everything else goes to the epilogue.
    pub fn after_open_epilogue_session(
        self,
        error: VMStatus,
        gas_remaining: u64,
        fee_statement: FeeStatement,
    ) -> (result: (Pipeline, Request))
        ensures
            result.0 == self.spec_after_open_epilogue_session(
                error,
                gas_remaining,
                fee_statement,
            ).0,
            result.1@ == self.spec_after_open_epilogue_session(
                error,
                gas_remaining,
                fee_statement,
            ).1,
    {
        match TransactionStatus::from_vm_status(
            error.duplicate(),
            self.vm.vm_impl.features.charge_invariant_violation,
        ) {
            TransactionStatus::Keep(status) => match status {
                ExecutionStatus::MoveAbort { location: AbortLocation::Module(module), code, .. } => (
                    Pipeline {
                        stage: Stage::ExtractingAbortInfo {
                            error,
                            gas_remaining,
                            fee_statement,
                            location: AbortLocation::Module(module.duplicate()),
                            code,
                        },
                        ..self
                    },
                    RequestOf::ExtractAbortInfo { module, code },
                ),
                status => self.run_failure_epilogue(error, gas_remaining, fee_statement, status),
            },
            TransactionStatus::Discard(code) => self.finish_discarded(VMStatus::error(code, None)),
            TransactionStatus::Retry => self.protocol_violation(),
        }
    }

    /// What `after_extract_abort_info` hands back.
    pub open spec fn spec_after_extract_abort_info(
        self,
        error: VMStatus,
        gas_remaining: u64,
        fee_statement: FeeStatement,
        location: AbortLocation,
        code: u64,
        info: Option<AbortInfo>,
    ) -> (Pipeline, RequestView) {
        self.spec_run_failure_epilogue(
            error,
            gas_remaining,
            fee_statement,
            ExecutionStatus::MoveAbort { location, code, info },
        )
    }

    /// Goes on after the abort was looked up: the status records what the
    /// module says of it.
    pub fn after_extract_abort_info(
        self,
        error: VMStatus,
        gas_remaining: u64,
        fee_statement: FeeStatement,
        location: AbortLocation,
        code: u64,
        info: Option<AbortInfo>,
    ) -> (result: (Pipeline, Request))
        ensures
            result.0 == self.spec_after_extract_abort_info(
                error,
                gas_remaining,
                fee_statement,
                location,
                code,
                info,
            ).0,
            result.1@ == self.spec_after_extract_abort_info(
                error,
                gas_remaining,
                fee_statement,
                location,
                code,
                info,
            ).1,
    {
        self.run_failure_epilogue(
            error,
            gas_remaining,
            fee_statement,
            ExecutionStatus::MoveAbort { location, code, info },
        )
    }

    /// What `run_failure_epilogue` hands back.
    pub open spec fn spec_run_failure_epilogue(
        self,
        error: VMStatus,
        gas_remaining: u64,
        fee_statement: FeeStatement,
        status: ExecutionStatus,
    ) -> (Pipeline, RequestView) {
        (
            Pipeline { stage: Stage::RunningFailureEpilogue { error, fee_statement, status }, ..self },
            RequestOf::RunFailureEpilogue { gas_remaining, fee_statement },
        )
    }

    /// Asks for the epilogue of a failed transaction, which charges for
    /// the gas that was used.
    pub fn run_failure_epilogue(
        self,
        error: VMStatus,
        gas_remaining: u64,
        fee_statement: FeeStatement,
        status: ExecutionStatus,
    ) -> (result: (Pipeline, Request))
        ensures
            result.0 == self.spec_run_failure_epilogue(
                error,
                gas_remaining,
                fee_statement,
                status,
            ).0,
            result.1@ == self.spec_run_failure_epilogue(
                error,
                gas_remaining,
                fee_statement,
                status,
            ).1,
    {
        (
            Pipeline { stage: Stage::RunningFailureEpilogue { error, fee_statement, status }, ..self },
            RequestOf::RunFailureEpilogue { gas_remaining, fee_statement },
        )
    }

    /// What `after_failure_epilogue` hands back.
    pub open spec fn spec_after_failure_epilogue(
        self,
        error: VMStatus,
        fee_statement: FeeStatement,
        status: ExecutionStatus,
        outcome: Result<(), VMStatus>,
    ) -> (Pipeline, RequestView) {
        match outcome {
            Err(epilogue_error) => self.spec_finish_discarded(epilogue_error),
            Ok(_) => (
                Pipeline { stage: Stage::FinishingFailedSession { error, fee_statement, status }, ..self },
                RequestOf::FinishSession,
            ),
        }
    }

    /// Goes on after the epilogue of a failed transaction: an epilogue that
    /// fails discards the transaction.
    pub fn after_failure_epilogue(
        self,
        error: VMStatus,
        fee_statement: FeeStatement,
        status: ExecutionStatus,
        outcome: Result<(), VMStatus>,
    ) -> (result: (Pipeline, Request))
        ensures
            result.0 == self.spec_after_failure_epilogue(error, fee_statement, status, outcome).0,
            result.1@ == self.spec_after_failure_epilogue(error, fee_statement, status, outcome).1,
    {
        match outcome {
            Err(epilogue_error) => self.finish_discarded(epilogue_error),
            Ok(_) => (
                Pipeline { stage: Stage::FinishingFailedSession { error, fee_statement, status }, ..self },
                RequestOf::FinishSession,
            ),
        }
    }

    /// What `after_finish_failed_session` hands back.
    pub open spec fn spec_after_finish_failed_session(
        self,
        error: VMStatus,
        fee_statement: FeeStatement,
        status: ExecutionStatus,
        outcome: Result<VMChangeSet, VMStatus>,
    ) -> (Pipeline, RequestView) {
        match outcome {
            Err(finish_error) => self.spec_finish(
                error,
                discarded_output(finish_error),
            ),
            Ok(change_set) => self.spec_finish(
                error,
                VMOutputOf {
                    change_set: change_set@,
                    fee_statement,
                    status: TransactionStatus::Keep(status),
                },
            ),
        }
    }

    /// Ends a failed transaction that is kept: its output holds what the
    /// epilogue wrote. Where the session cannot be finished, the output is
    /// that of a discarded transaction.
    pub fn after_finish_failed_session(
        self,
        error: VMStatus,
        fee_statement: FeeStatement,
        status: ExecutionStatus,
        outcome: Result<VMChangeSet, VMStatus>,
    ) -> (result: (Pipeline, Request))
        ensures
            result.0 == self.spec_after_finish_failed_session(
                error,
                fee_statement,
                status,
                outcome,
            ).0,
            result.1@ == self.spec_after_finish_failed_session(
                error,
                fee_statement,
                status,
                outcome,
            ).1,
    {
        match outcome {
            Err(finish_error) => self.finish(
                error,
                discard_error_vm_status(finish_error).1,
            ),
            Ok(change_set) => self.finish(
                error,
                VMOutputOf {
                    change_set,
                    fee_statement,
                    status: TransactionStatus::Keep(status),
                },
            ),
        }
    }

    /// What `after_probe_module_bundle` hands back.
    pub open spec fn spec_after_probe_module_bundle(
        self,
        bundle: ModuleBundle,
        probes: Vec<ModuleProbe>,
    ) -> (Pipeline, RequestView) {
        match first_probe_failure(probes@, 0) {
            Some(error) => self.spec_on_user_transaction_execution_failure(error),
            None => Pipeline {
                stage: Stage::DeserializingModuleBundle,
                publish: Some(
                    PendingPublish {
                        destination: self.numbers.sender,
                        bundle: None,
                        expected_modules: None,
                        allowed_deps: None,
                        modules: None,
                        exists: None,
                    },
                ),
                ..self
            }.spec_deserialize_module_bundle(bundle),
        }
    }

    /// Goes on after the modules of a bundle were probed: every module must
    /// decode and be new. Then the modules are decoded under the limits that
    /// the features set.
    pub fn after_probe_module_bundle(
        self,
        bundle: ModuleBundle,
        probes: Vec<ModuleProbe>,
    ) -> (result: (Pipeline, Request))
        ensures
            result.0 == self.spec_after_probe_module_bundle(bundle, probes).0,
            result.1@ == self.spec_after_probe_module_bundle(bundle, probes).1,
    {
        match verify_module_bundle(&probes).err() {
            Some(error) => self.on_user_transaction_execution_failure(error),
            None => Pipeline {
                stage: Stage::DeserializingModuleBundle,
                publish: Some(
                    PendingPublish {
                        destination: self.numbers.sender,
                        bundle: None,
                        expected_modules: None,
                        allowed_deps: None,
                        modules: None,
                        exists: None,
                    },
                ),
                ..self
            }.deserialize_module_bundle(bundle),
        }
    }

    /// What `after_deserialize_module_bundle` hands back.
    pub open spec fn spec_after_deserialize_module_bundle(
        self,
        bundle: ModuleBundle,
        modules: Option<Vec<CompiledModule>>,
    ) -> (Pipeline, RequestView) {
        match self.publish {
            Some(pending) => (
                Pipeline {
                    stage: Stage::PublishingBundle,
                    publish: Some(PendingPublish { modules: Some(modules), ..pending }),
                    ..self
                },
                RequestOf::PublishModuleBundle {
                    bundle,
                    destination: self.numbers.sender,
                    compatibility: self.vm.vm_impl.features.publish_compatibility(),
                },
            ),
            None => Pipeline { publish: None, ..self }.spec_protocol_violation(),
        }
    }

    /// Goes on after the modules of a bundle were decoded: publishes the
    /// bundle under the sender. Whether the modules decoded matters only
    /// once the bundle is published.
    pub fn after_deserialize_module_bundle(
        self,
        bundle: ModuleBundle,
        modules: Option<Vec<CompiledModule>>,
    ) -> (result: (Pipeline, Request))
        ensures
            result.0 == self.spec_after_deserialize_module_bundle(bundle, modules).0,
            result.1@ == self.spec_after_deserialize_module_bundle(bundle, modules).1,
    {
        match self.publish {
            Some(pending) => (
                Pipeline {
                    stage: Stage::PublishingBundle,
                    publish: Some(PendingPublish { modules: Some(modules), ..pending }),
                    ..self
                },
                RequestOf::PublishModuleBundle {
                    bundle,
                    destination: self.numbers.sender,
                    compatibility: self.vm.vm_impl.features.publish_compatibility(),
                },
            ),
            None => Pipeline { publish: None, ..self }.protocol_violation(),
        }
    }

    /// What `execute_user_transaction_impl` hands back.
    pub open spec fn spec_execute_user_transaction_impl(self) -> (Pipeline, RequestView) {
        (
            Pipeline { stage: Stage::OpeningPrologueSession, ..self },
            RequestOf::NewSession {
                session_id: SessionId::PrologueMeta {
                    sender: self.numbers.sender,
                    sequence_number: self.numbers.sequence_number,
                },
                release_resource_group_cache: false,
            },
        )
    }

    /// Starts the pipeline proper of a user transaction: opens the session
    /// of its prologue.
    pub fn execute_user_transaction_impl(self) -> (result: (Pipeline, Request))
        ensures
            result.0 == self.spec_execute_user_transaction_impl().0,
            result.1@ == self.spec_execute_user_transaction_impl().1,
    {
        (
            Pipeline { stage: Stage::OpeningPrologueSession, ..self },
            RequestOf::NewSession {
                session_id: SessionId::PrologueMeta {
                    sender: self.numbers.sender,
                    sequence_number: self.numbers.sequence_number,
                },
                release_resource_group_cache: false,
            },
        )
    }

    /// What `after_open_block_session` hands back.
    pub open spec fn spec_after_open_block_session(
        self,
        block_metadata: BlockMetadata,
    ) -> (Pipeline, RequestView) {
        (
            Pipeline { stage: Stage::RunningBlockPrologue, ..self },
            RequestOf::ExecuteSystemFunction {
                call: SystemCallOf::BlockPrologue {
                    vm_address: reserved_vm_address(),
                    block_metadata,
                },
                metered: false,
            },
        )
    }

    /// Goes on in the session of a block prologue: calls the prologue of the
    /// block as the VM itself, without charge.
    pub fn after_open_block_session(
        self,
        block_metadata: BlockMetadata,
    ) -> (result: (Pipeline, Request))
        ensures
            result.0 == self.spec_after_open_block_session(block_metadata).0,
            result.1@ == self.spec_after_open_block_session(block_metadata).1,
    {
        (
            Pipeline { stage: Stage::RunningBlockPrologue, ..self },
            RequestOf::ExecuteSystemFunction {
                call: SystemCallOf::BlockPrologue {
                    vm_address: reserved_vm_address(),
                    block_metadata,
                },
                metered: false,
            },
        )
    }

    /// What `after_block_prologue` hands back.
    pub open spec fn spec_after_block_prologue(
        self,
        outcome: Result<Vec<Vec<u8>>, VMStatus>,
    ) -> (Pipeline, RequestView) {
        match outcome {
            Err(error) => self.spec_give_up(expected_failure(error)),
            Ok(_) => if !self.vm.vm_impl.storage_gas_parameters_loaded {
                self.spec_give_up(VMStatus::error(StatusCode::VM_STARTUP_FAILURE, None))
            } else {
                (Pipeline { stage: Stage::FinishingBlockSession, ..self }, RequestOf::FinishSession)
            },
        }
    }

    /// Goes on after the prologue of the block ran. It must not fail.
    pub fn after_block_prologue(
        self,
        outcome: Result<Vec<Vec<u8>>, VMStatus>,
    ) -> (result: (Pipeline, Request))
        ensures
            result.0 == self.spec_after_block_prologue(outcome).0,
            result.1@ == self.spec_after_block_prologue(outcome).1,
    {
        match outcome {
            Err(error) => self.give_up(expect_only_successful_execution(error)),
            Ok(_) => if !self.vm.vm_impl.storage_gas_parameters_loaded {
                self.give_up(VMStatus::error(StatusCode::VM_STARTUP_FAILURE, None))
            } else {
                (Pipeline { stage: Stage::FinishingBlockSession, ..self }, RequestOf::FinishSession)
            },
        }
    }

    /// What `after_finish_system_session` hands back.
    pub open spec fn spec_after_finish_system_session(
        self,
        outcome: Result<VMChangeSet, VMStatus>,
    ) -> (Pipeline, RequestView) {
        match outcome {
            Err(error) => self.spec_give_up(error),
            Ok(change_set) => self.spec_finish(
                VMStatus::Executed,
                VMOutputOf {
                    change_set: change_set@,
                    fee_statement: FeeStatement::zero(),
                    status: TransactionStatus::Keep(ExecutionStatus::Success),
                },
            ),
        }
    }

    /// Ends a transaction of the system: it is kept as a success, at no
    /// charge.
    pub fn after_finish_system_session(
        self,
        outcome: Result<VMChangeSet, VMStatus>,
    ) -> (result: (Pipeline, Request))
        ensures
            result.0 == self.spec_after_finish_system_session(outcome).0,
            result.1@ == self.spec_after_finish_system_session(outcome).1,
    {
        match outcome {
            Err(error) => self.give_up(error),
            Ok(change_set) => self.finish(
                VMStatus::Executed,
                VMOutputOf {
                    change_set,
                    fee_statement: FeeStatement::zero(),
                    status: TransactionStatus::Keep(ExecutionStatus::Success),
                },
            ),
        }
    }

    /// What `after_open_genesis_session` hands back.
    pub open spec fn spec_after_open_genesis_session(
        self,
        script: WriteSetScript,
    ) -> (Pipeline, RequestView) {
        (
            Pipeline { stage: Stage::RunningGenesisScript, ..self },
            RequestOf::ExecuteScript {
                script: script.script,
                senders: seq![spec_reserved_vm_address(), script.execute_as],
                struct_constructors: self.vm.vm_impl.features.struct_constructors,
                metered: false,
            },
        )
    }

    /// Goes on in the session of a genesis script: runs the script as the
    /// VM itself together with the account it is to run as, without charge.
    pub fn after_open_genesis_session(self, script: WriteSetScript) -> (result: (Pipeline, Request))
        ensures
            result.0 == self.spec_after_open_genesis_session(script).0,
            result.1@ == self.spec_after_open_genesis_session(script).1,
    {
        (
            Pipeline { stage: Stage::RunningGenesisScript, ..self },
            RequestOf::ExecuteScript {
                script: script.script,
                senders: two_signers(reserved_vm_address(), script.execute_as),
                struct_constructors: self.vm.vm_impl.features.struct_constructors,
                metered: false,
            },
        )
    }

    /// What `after_genesis_script` hands back.
    pub open spec fn spec_after_genesis_script(
        self,
        outcome: Result<(), VMStatus>,
    ) -> (Pipeline, RequestView) {
        match outcome {
            Err(error) => self.spec_give_up(error),
            Ok(_) => (
                Pipeline { stage: Stage::FinishingGenesisSession, ..self },
                RequestOf::FinishSession,
            ),
        }
    }

    /// Goes on after the genesis script ran: finishes its session.
    pub fn after_genesis_script(
        self,
        outcome: Result<(), VMStatus>,
    ) -> (result: (Pipeline, Request))
        ensures
            result.0 == self.spec_after_genesis_script(outcome).0,
            result.1@ == self.spec_after_genesis_script(outcome).1,
    {
        match outcome {
            Err(error) => self.give_up(error),
            Ok(_) => (
                Pipeline { stage: Stage::FinishingGenesisSession, ..self },
                RequestOf::FinishSession,
            ),
        }
    }

    /// What `after_finish_genesis_session` hands back.
    pub open spec fn spec_after_finish_genesis_session(
        self,
        outcome: Result<VMChangeSet, VMStatus>,
    ) -> (Pipeline, RequestView) {
        match outcome {
            Err(error) => self.spec_give_up(error),
            Ok(change_set) => self.spec_validate_waypoint_change_set(change_set),
        }
    }

    /// Goes on after the session of the genesis script was finished.
    pub fn after_finish_genesis_session(
        self,
        outcome: Result<VMChangeSet, VMStatus>,
    ) -> (result: (Pipeline, Request))
        requires
            outcome matches Ok(change_set) ==> no_aggregator_writes(change_set@),
        ensures
            result.0 == self.spec_after_finish_genesis_session(outcome).0,
            result.1@ == self.spec_after_finish_genesis_session(outcome).1,
    {
        match outcome {
            Err(error) => self.give_up(error),
            Ok(change_set) => self.validate_waypoint_change_set(change_set),
        }
    }

    /// What `validate_waypoint_change_set` hands back.
    pub open spec fn spec_validate_waypoint_change_set(
        self,
        change_set: VMChangeSet,
    ) -> (Pipeline, RequestView) {
        if has_event_with_key(change_set@.events, spec_new_block_event_key())
            && has_new_epoch_event(change_set@.events) {
            (
                Pipeline { stage: Stage::ReadingChangeSet, ..self },
                RequestOf::ReadChangeSet { change_set: change_set@ },
            )
        } else {
            self.spec_give_up(VMStatus::error(StatusCode::INVALID_WRITE_SET, None))
        }
    }

    /// Checks the change set of a genesis transaction: it has to announce a
    /// new block and a new epoch. Then every slot that it writes is read from
    /// the base state.
    pub fn validate_waypoint_change_set(
        self,
        change_set: VMChangeSet,
    ) -> (result: (Pipeline, Request))
        requires
            no_aggregator_writes(change_set@),
        ensures
            result.0 == self.spec_validate_waypoint_change_set(change_set).0,
            result.1@ == self.spec_validate_waypoint_change_set(change_set).1,
    {
        if has_event(change_set.events(), new_block_event_key())
            && has_event(change_set.events(), new_epoch_event_key()) {
            (
                Pipeline { stage: Stage::ReadingChangeSet, ..self },
                RequestOf::ReadChangeSet { change_set },
            )
        } else {
            self.give_up(VMStatus::error(StatusCode::INVALID_WRITE_SET, None))
        }
    }

    /// What `after_read_change_set` hands back.
    pub open spec fn spec_after_read_change_set(
        self,
        change_set: VMChangeSet,
        outcome: Result<(), VMStatus>,
    ) -> (Pipeline, RequestView) {
        match outcome {
            Err(error) => self.spec_give_up(error),
            Ok(_) => self.spec_finish(
                VMStatus::Executed,
                VMOutputOf {
                    change_set: change_set@,
                    fee_statement: FeeStatement::zero(),
                    status: TransactionStatus::Keep(ExecutionStatus::Success),
                },
            ),
        }
    }

    /// Ends a genesis transaction: it is kept as a success, at no charge.
    pub fn after_read_change_set(
        self,
        change_set: VMChangeSet,
        outcome: Result<(), VMStatus>,
    ) -> (result: (Pipeline, Request))
        ensures
            result.0 == self.spec_after_read_change_set(change_set, outcome).0,
            result.1@ == self.spec_after_read_change_set(change_set, outcome).1,
    {
        match outcome {
            Err(error) => self.give_up(error),
            Ok(_) => self.finish(
                VMStatus::Executed,
                VMOutputOf {
                    change_set,
                    fee_statement: FeeStatement::zero(),
                    status: TransactionStatus::Keep(ExecutionStatus::Success),
                },
            ),
        }
    }

    /// What `after_make_view_gas_meter` hands back.
    pub open spec fn spec_after_make_view_gas_meter(
        self,
        call: ViewCall,
    ) -> (Pipeline, RequestView) {
        (
            Pipeline { stage: Stage::OpeningViewSession { call }, ..self },
            RequestOf::NewSession { session_id: SessionId::Void, release_resource_group_cache: false },
        )
    }

    /// Goes on after the gas meter of a view function was made.
    pub fn after_make_view_gas_meter(self, call: ViewCall) -> (result: (Pipeline, Request))
        ensures
            result.0 == self.spec_after_make_view_gas_meter(call).0,
            result.1@ == self.spec_after_make_view_gas_meter(call).1,
    {
        (
            Pipeline { stage: Stage::OpeningViewSession { call }, ..self },
            RequestOf::NewSession { session_id: SessionId::Void, release_resource_group_cache: false },
        )
    }

    /// What `after_open_view_session` hands back.
    pub open spec fn spec_after_open_view_session(self, call: ViewCall) -> (Pipeline, RequestView) {
        (
            Pipeline { stage: Stage::ExecutingViewFunction, ..self },
            RequestOf::ExecuteViewFunction {
                module_id: call.module_id,
                func_name: call.func_name,
                type_args: call.type_args,
                arguments: call.arguments,
                struct_constructors: self.vm.vm_impl.features.struct_constructors,
            },
        )
    }

    /// Goes on in the session of a view function: runs the function.
    pub fn after_open_view_session(self, call: ViewCall) -> (result: (Pipeline, Request))
        ensures
            result.0 == self.spec_after_open_view_session(call).0,
            result.1@ == self.spec_after_open_view_session(call).1,
    {
        (
            Pipeline { stage: Stage::ExecutingViewFunction, ..self },
            RequestOf::ExecuteViewFunction {
                module_id: call.module_id,
                func_name: call.func_name,
                type_args: call.type_args,
                arguments: call.arguments,
                struct_constructors: self.vm.vm_impl.features.struct_constructors,
            },
        )
    }

    /// What `after_view_function` hands back.
    pub open spec fn spec_after_view_function(
        self,
        outcome: Result<Vec<Vec<u8>>, VMStatus>,
    ) -> (Pipeline, RequestView) {
        (Pipeline { stage: Stage::Done, ..self }, RequestOf::Viewed { outcome })
    }

    /// Ends a view function: hands out what it returned.
    pub fn after_view_function(
        self,
        outcome: Result<Vec<Vec<u8>>, VMStatus>,
    ) -> (result: (Pipeline, Request))
        ensures
            result.0 == self.spec_after_view_function(outcome).0,
            result.1@ == self.spec_after_view_function(outcome).1,
    {
        (Pipeline { stage: Stage::Done, ..self }, RequestOf::Viewed { outcome })
    }

    /// Whether `event` may be handed to `step`: the gas meter never shows
    /// more than the transaction started with, and the change set of a
    /// genesis script writes no aggregator.
    pub open spec fn spec_accepts(&self, event: Event) -> bool {
        &&& event matches Event::Gas { reading, .. } ==> reading.balance
            <= self.numbers.max_gas_amount
        &&& self.stage is FinishingGenesisSession ==> (event matches Event::ChangeSet(
            Ok(change_set),
        ) ==> no_aggregator_writes(change_set@))
    }

    /// Whether `event` may be handed to `step`.
    pub fn accepts(&self, event: &Event) -> (result: bool)
        ensures
            result == self.spec_accepts(*event),
    {
        let gas_in_range = match event {
            Event::Gas { reading, .. } => reading.balance <= self.numbers.max_gas_amount,
            _ => true,
        };
        let genesis_in_range = match (&self.stage, event) {
            (Stage::FinishingGenesisSession, Event::ChangeSet(Ok(change_set))) => {
                change_set.has_no_aggregator_writes()
            },
            _ => true,
        };
        gas_in_range && genesis_in_range
    }

    /// What `step` hands back.
    pub open spec fn spec_step(self, event: Event) -> (Pipeline, RequestView) {
        let stage = self.stage;
        let state = Pipeline { stage: Stage::Done, ..self };
        match (stage, event) {
            (Stage::MakingGasMeter, Event::Done) => state.spec_execute_user_transaction_impl(),
            (
                Stage::OpeningPrologueSession,
                Event::Done,
            ) => state.spec_validate_signed_transaction(),
            (Stage::CheckingGas, Event::Unit(outcome)) => state.spec_after_check_gas(outcome),
            (Stage::RunningPrologue, Event::Unit(outcome)) => state.spec_after_prologue(outcome),
            (
                Stage::RunningMultisigPrologue,
                Event::Unit(outcome),
            ) => state.spec_after_multisig_prologue(
                outcome,
            ),
            (Stage::RefreshingSession, Event::Done) => state.spec_create_sponsored_account(),
            (
                Stage::CreatingAccount,
                Event::ReturnValues(outcome),
            ) => state.spec_after_create_account(
                outcome,
            ),
            (
                Stage::ChargingIntrinsicGas,
                Event::Unit(outcome),
            ) => state.spec_after_charge_intrinsic_gas(
                outcome,
            ),
            (
                Stage::ExecutingPayload,
                Event::Unit(outcome),
            ) => state.spec_after_execute_payload(outcome),
            (
                Stage::EncodingMultisigPayload,
                Event::Encoded(encoded),
            ) => state.spec_after_encode_multisig_payload(
                encoded,
            ),
            (
                Stage::FetchingMultisigPayload,
                Event::ReturnValues(outcome),
            ) => state.spec_after_fetch_multisig_payload(outcome),
            (
                Stage::DecodingMultisigPayload,
                Event::Payload { payload_bytes, payload },
            ) => state.spec_after_decode_multisig_payload(payload_bytes, payload),
            (
                Stage::ProbingModuleBundle,
                Event::Probed { bundle, probes },
            ) => state.spec_after_probe_module_bundle(
                bundle,
                probes,
            ),
            (
                Stage::DeserializingModuleBundle,
                Event::Modules { bundle, modules },
            ) => state.spec_after_deserialize_module_bundle(bundle, modules),
            (
                Stage::ExtractingPublishRequest,
                Event::PublishRequest(request),
            ) => state.spec_after_extract_publish_request(request),
            (
                Stage::DeserializingPublishedBundle,
                Event::Modules { bundle, modules },
            ) => state.spec_after_deserialize_published_bundle(bundle, modules),
            (
                Stage::VerifyingModuleMetadata { index },
                Event::Unit(outcome),
            ) => state.spec_after_verify_module_metadata(index, outcome),
            (
                Stage::ValidatingResourceGroups,
                Event::Unit(outcome),
            ) => state.spec_after_validate_resource_groups(
                outcome,
            ),
            (
                Stage::ValidatingModuleEvents,
                Event::Unit(outcome),
            ) => state.spec_after_validate_module_events(
                outcome,
            ),
            (
                Stage::CheckingExistingModules,
                Event::Exists(outcome),
            ) => state.spec_after_exists_modules(
                outcome,
            ),
            (
                Stage::PublishingBundle,
                Event::Unit(outcome),
            ) => state.spec_after_publish_bundle(outcome),
            (
                Stage::ProbingInitModule { index },
                Event::InitFunction(probe),
            ) => state.spec_after_probe_init_module(index, probe),
            (
                Stage::ExecutingInitModule { index },
                Event::ReturnValues(outcome),
            ) => state.spec_after_execute_init_module(index, outcome),
            (Stage::FinishingSession, Event::ChangeSet(outcome)) => state.spec_after_finish_session(
                outcome,
            ),
            (
                Stage::ChargingChangeSet,
                Event::Charged(outcome),
            ) => state.spec_after_charge_change_set(
                outcome,
            ),
            (Stage::Respawning, Event::Done) => state.spec_after_respawn(),
            (
                Stage::InvalidatingCacheForCleanup { error },
                Event::Done,
            ) => state.spec_failure_multisig_payload_cleanup(error),
            (
                Stage::RespawningForCleanup { error },
                Event::Done,
            ) => state.spec_after_respawn_for_cleanup(
                error,
            ),
            (
                Stage::RunningMultisigCleanup,
                Event::ReturnValues(outcome),
            ) => state.spec_after_multisig_cleanup(
                outcome,
            ),
            (
                Stage::ReadingGasMeter,
                Event::Gas { consistency, reading },
            ) => state.spec_after_read_gas_meter(
                consistency,
                reading,
            ),
            (
                Stage::RunningSuccessEpilogue { fee_statement },
                Event::Unit(outcome),
            ) => state.spec_after_success_epilogue(fee_statement, outcome),
            (
                Stage::FinishingRespawnedSession { fee_statement },
                Event::ChangeSet(outcome),
            ) => state.spec_after_finish_respawned_session(fee_statement, outcome),
            (Stage::InvalidatingCache { error }, Event::Done) => state.spec_keep_or_discard_failure(
                error,
            ),
            (
                Stage::ReadingGasMeterAfterFailure { error },
                Event::Gas { reading, .. },
            ) => state.spec_after_read_gas_meter_after_failure(error, reading),
            (
                Stage::OpeningEpilogueSession { error, gas_remaining, fee_statement },
                Event::Done,
            ) => state.spec_after_open_epilogue_session(error, gas_remaining, fee_statement),
            (
                Stage::ExtractingAbortInfo { error, gas_remaining, fee_statement, location, code },
                Event::AbortInfo(info),
            ) => state.spec_after_extract_abort_info(
                error,
                gas_remaining,
                fee_statement,
                location,
                code,
                info,
            ),
            (
                Stage::RunningFailureEpilogue { error, fee_statement, status },
                Event::Unit(outcome),
            ) => state.spec_after_failure_epilogue(error, fee_statement, status, outcome),
            (
                Stage::FinishingFailedSession { error, fee_statement, status },
                Event::ChangeSet(outcome),
            ) => state.spec_after_finish_failed_session(error, fee_statement, status, outcome),
            (
                Stage::OpeningBlockSession { block_metadata },
                Event::Done,
            ) => state.spec_after_open_block_session(block_metadata),
            (
                Stage::RunningBlockPrologue,
                Event::ReturnValues(outcome),
            ) => state.spec_after_block_prologue(
                outcome,
            ),
            (
                Stage::FinishingBlockSession,
                Event::ChangeSet(outcome),
            ) => state.spec_after_finish_system_session(
                outcome,
            ),
            (
                Stage::OpeningGenesisSession { script },
                Event::Done,
            ) => state.spec_after_open_genesis_session(
                script,
            ),
            (Stage::RunningGenesisScript, Event::Unit(outcome)) => state.spec_after_genesis_script(
                outcome,
            ),
            (
                Stage::FinishingGenesisSession,
                Event::ChangeSet(outcome),
            ) => state.spec_after_finish_genesis_session(outcome),
            (
                Stage::ReadingChangeSet,
                Event::Read { change_set, result },
            ) => state.spec_after_read_change_set(
                change_set,
                result,
            ),
            (
                Stage::MakingViewGasMeter { call },
                Event::Done,
            ) => state.spec_after_make_view_gas_meter(
                call,
            ),
            (Stage::OpeningViewSession { call }, Event::Done) => state.spec_after_open_view_session(
                call,
            ),
            (
                Stage::ExecutingViewFunction,
                Event::ReturnValues(outcome),
            ) => state.spec_after_view_function(
                outcome,
            ),
            _ => state.spec_protocol_violation(),
        }
    }

    /// Takes the event that answers the last request and names the next
    /// request. An event that does not answer the request ends the
    /// pipeline: the transaction could not be run.
    pub fn step(self, event: Event) -> (result: (Pipeline, Request))
        requires
            self.spec_accepts(event),
        ensures
            result.0 == self.spec_step(event).0,
            result.1@ == self.spec_step(event).1,
    {
        let stage = self.stage;
        let state = Pipeline { stage: Stage::Done, ..self };
        match (stage, event) {
            (Stage::MakingGasMeter, Event::Done) => state.execute_user_transaction_impl(),
            (Stage::OpeningPrologueSession, Event::Done) => state.validate_signed_transaction(),
            (Stage::CheckingGas, Event::Unit(outcome)) => state.after_check_gas(outcome),
            (Stage::RunningPrologue, Event::Unit(outcome)) => state.after_prologue(outcome),
            (Stage::RunningMultisigPrologue, Event::Unit(outcome)) => state.after_multisig_prologue(
                outcome,
            ),
            (Stage::RefreshingSession, Event::Done) => state.create_sponsored_account(),
            (Stage::CreatingAccount, Event::ReturnValues(outcome)) => state.after_create_account(
                outcome,
            ),
            (Stage::ChargingIntrinsicGas, Event::Unit(outcome)) => state.after_charge_intrinsic_gas(
                outcome,
            ),
            (Stage::ExecutingPayload, Event::Unit(outcome)) => state.after_execute_payload(outcome),
            (
                Stage::EncodingMultisigPayload,
                Event::Encoded(encoded),
            ) => state.after_encode_multisig_payload(
                encoded,
            ),
            (
                Stage::FetchingMultisigPayload,
                Event::ReturnValues(outcome),
            ) => state.after_fetch_multisig_payload(outcome),
            (
                Stage::DecodingMultisigPayload,
                Event::Payload { payload_bytes, payload },
            ) => state.after_decode_multisig_payload(payload_bytes, payload),
            (
                Stage::ProbingModuleBundle,
                Event::Probed { bundle, probes },
            ) => state.after_probe_module_bundle(
                bundle,
                probes,
            ),
            (
                Stage::DeserializingModuleBundle,
                Event::Modules { bundle, modules },
            ) => state.after_deserialize_module_bundle(bundle, modules),
            (
                Stage::ExtractingPublishRequest,
                Event::PublishRequest(request),
            ) => state.after_extract_publish_request(request),
            (
                Stage::DeserializingPublishedBundle,
                Event::Modules { bundle, modules },
            ) => state.after_deserialize_published_bundle(bundle, modules),
            (
                Stage::VerifyingModuleMetadata { index },
                Event::Unit(outcome),
            ) => state.after_verify_module_metadata(index, outcome),
            (
                Stage::ValidatingResourceGroups,
                Event::Unit(outcome),
            ) => state.after_validate_resource_groups(
                outcome,
            ),
            (
                Stage::ValidatingModuleEvents,
                Event::Unit(outcome),
            ) => state.after_validate_module_events(
                outcome,
            ),
            (Stage::CheckingExistingModules, Event::Exists(outcome)) => state.after_exists_modules(
                outcome,
            ),
            (Stage::PublishingBundle, Event::Unit(outcome)) => state.after_publish_bundle(outcome),
            (
                Stage::ProbingInitModule { index },
                Event::InitFunction(probe),
            ) => state.after_probe_init_module(index, probe),
            (
                Stage::ExecutingInitModule { index },
                Event::ReturnValues(outcome),
            ) => state.after_execute_init_module(index, outcome),
            (Stage::FinishingSession, Event::ChangeSet(outcome)) => state.after_finish_session(
                outcome,
            ),
            (Stage::ChargingChangeSet, Event::Charged(outcome)) => state.after_charge_change_set(
                outcome,
            ),
            (Stage::Respawning, Event::Done) => state.after_respawn(),
            (
                Stage::InvalidatingCacheForCleanup { error },
                Event::Done,
            ) => state.failure_multisig_payload_cleanup(error),
            (Stage::RespawningForCleanup { error }, Event::Done) => state.after_respawn_for_cleanup(
                error,
            ),
            (
                Stage::RunningMultisigCleanup,
                Event::ReturnValues(outcome),
            ) => state.after_multisig_cleanup(
                outcome,
            ),
            (
                Stage::ReadingGasMeter,
                Event::Gas { consistency, reading },
            ) => state.after_read_gas_meter(
                consistency,
                reading,
            ),
            (
                Stage::RunningSuccessEpilogue { fee_statement },
                Event::Unit(outcome),
            ) => state.after_success_epilogue(fee_statement, outcome),
            (
                Stage::FinishingRespawnedSession { fee_statement },
                Event::ChangeSet(outcome),
            ) => state.after_finish_respawned_session(fee_statement, outcome),
            (Stage::InvalidatingCache { error }, Event::Done) => state.keep_or_discard_failure(
                error,
            ),
            (
                Stage::ReadingGasMeterAfterFailure { error },
                Event::Gas { reading, .. },
            ) => state.after_read_gas_meter_after_failure(error, reading),
            (
                Stage::OpeningEpilogueSession { error, gas_remaining, fee_statement },
                Event::Done,
            ) => state.after_open_epilogue_session(error, gas_remaining, fee_statement),
            (
                Stage::ExtractingAbortInfo { error, gas_remaining, fee_statement, location, code },
                Event::AbortInfo(info),
            ) => state.after_extract_abort_info(
                error,
                gas_remaining,
                fee_statement,
                location,
                code,
                info,
            ),
            (
                Stage::RunningFailureEpilogue { error, fee_statement, status },
                Event::Unit(outcome),
            ) => state.after_failure_epilogue(error, fee_statement, status, outcome),
            (
                Stage::FinishingFailedSession { error, fee_statement, status },
                Event::ChangeSet(outcome),
            ) => state.after_finish_failed_session(error, fee_statement, status, outcome),
            (
                Stage::OpeningBlockSession { block_metadata },
                Event::Done,
            ) => state.after_open_block_session(block_metadata),
            (
                Stage::RunningBlockPrologue,
                Event::ReturnValues(outcome),
            ) => state.after_block_prologue(
                outcome,
            ),
            (
                Stage::FinishingBlockSession,
                Event::ChangeSet(outcome),
            ) => state.after_finish_system_session(
                outcome,
            ),
            (
                Stage::OpeningGenesisSession { script },
                Event::Done,
            ) => state.after_open_genesis_session(
                script,
            ),
            (Stage::RunningGenesisScript, Event::Unit(outcome)) => state.after_genesis_script(
                outcome,
            ),
            (
                Stage::FinishingGenesisSession,
                Event::ChangeSet(outcome),
            ) => state.after_finish_genesis_session(outcome),
            (
                Stage::ReadingChangeSet,
                Event::Read { change_set, result },
            ) => state.after_read_change_set(
                change_set,
                result,
            ),
            (Stage::MakingViewGasMeter { call }, Event::Done) => state.after_make_view_gas_meter(
                call,
            ),
            (Stage::OpeningViewSession { call }, Event::Done) => state.after_open_view_session(
                call,
            ),
            (
                Stage::ExecutingViewFunction,
                Event::ReturnValues(outcome),
            ) => state.after_view_function(
                outcome,
            ),
            _ => state.protocol_violation(),
        }
    }

} // impl Pipeline

} // verus!
