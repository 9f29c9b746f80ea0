use aptos_vm::aptos_vm::{
    expect_only_successful_execution, report_violation, validation_result,
};
use aptos_vm::pipeline::fee_statement_from_gas_meter;
use aptos_vm::request::{GasReading, ViolationReport};
use aptos_vm::transaction::{
    ExecutionError, ExecutionErrorCode, ExecutionErrorType, ExecutionStatus, FeeStatement,
    TransactionStatus, VMValidatorResult,
};
use aptos_vm::types::{AccountAddress, ModuleId};
use aptos_vm::vm_status::{
    AbortLocation, KeptVMStatus, StatusCode, StatusType, VMStatus, EPARANOID_FAILURE,
    EREFERENCE_COUNTING_FAILURE, EUSER_TYPE_LOADING_FAILURE,
};

fn module() -> AbortLocation {
    AbortLocation::Module(ModuleId::new(AccountAddress::one(), "coin".to_string()))
}

fn failure(status_code: StatusCode) -> VMStatus {
    VMStatus::ExecutionFailure {
        status_code,
        sub_status: Some(5),
        location: module(),
        function: 2,
        code_offset: 9,
    }
}

#[test]
fn status_codes_fall_into_their_categories() {
    assert_eq!(StatusCode::INVALID_SIGNATURE.status_type(), StatusType::Validation);
    assert_eq!(StatusCode::SEQUENCE_NUMBER_TOO_NEW.status_type(), StatusType::Validation);
    assert_eq!(StatusCode::INVALID_GAS_AMOUNT.status_type(), StatusType::Validation);
    assert_eq!(StatusCode::FEATURE_UNDER_GATING.status_type(), StatusType::Validation);
    assert_eq!(StatusCode::SIGNERS_CONTAIN_DUPLICATES.status_type(), StatusType::Validation);
    assert_eq!(StatusCode::CONSTRAINT_NOT_SATISFIED.status_type(), StatusType::Verification);
    assert_eq!(StatusCode::DUPLICATE_MODULE_NAME.status_type(), StatusType::Verification);
    assert_eq!(StatusCode::FAILED_TO_DESERIALIZE_ARGUMENT.status_type(), StatusType::Verification);
    assert_eq!(
        StatusCode::UNKNOWN_INVARIANT_VIOLATION_ERROR.status_type(),
        StatusType::InvariantViolation
    );
    assert_eq!(StatusCode::STORAGE_ERROR.status_type(), StatusType::InvariantViolation);
    assert_eq!(
        StatusCode::SPECULATIVE_EXECUTION_ABORT_ERROR.status_type(),
        StatusType::InvariantViolation
    );
    assert_eq!(StatusCode::CODE_DESERIALIZATION_ERROR.status_type(), StatusType::Deserialization);
    assert_eq!(StatusCode::OUT_OF_GAS.status_type(), StatusType::Execution);
    assert_eq!(StatusCode::ARITHMETIC_ERROR.status_type(), StatusType::Execution);
    assert_eq!(StatusCode::RESOURCE_DOES_NOT_EXIST.status_type(), StatusType::Execution);
    assert_eq!(StatusCode::UNKNOWN_STATUS.status_type(), StatusType::Unknown);
}

#[test]
fn status_code_and_sub_status_of_a_status() {
    assert_eq!(VMStatus::Executed.status_code(), StatusCode::EXECUTED);
    assert_eq!(VMStatus::Executed.sub_status(), None);
    assert_eq!(VMStatus::MoveAbort(module(), 7).status_code(), StatusCode::ABORTED);
    assert_eq!(VMStatus::MoveAbort(module(), 7).sub_status(), Some(7));
    assert_eq!(VMStatus::MoveAbort(module(), 7).status_type(), StatusType::Execution);
    let error = VMStatus::error(StatusCode::STORAGE_ERROR, Some(3));
    assert_eq!(error, VMStatus::Error { status_code: StatusCode::STORAGE_ERROR, sub_status: Some(3) });
    assert_eq!(error.status_code(), StatusCode::STORAGE_ERROR);
    assert_eq!(error.sub_status(), Some(3));
    assert_eq!(error.status_type(), StatusType::InvariantViolation);
    assert_eq!(failure(StatusCode::ARITHMETIC_ERROR).status_code(), StatusCode::ARITHMETIC_ERROR);
    assert_eq!(failure(StatusCode::ARITHMETIC_ERROR).sub_status(), Some(5));
    assert_eq!(error.duplicate(), error);
    assert_eq!(VMStatus::MoveAbort(module(), 7).duplicate(), VMStatus::MoveAbort(module(), 7));
}

#[test]
fn what_is_kept_and_what_is_discarded() {
    assert_eq!(VMStatus::Executed.keep_or_discard(), Ok(KeptVMStatus::Executed));
    assert_eq!(
        VMStatus::MoveAbort(module(), 7).keep_or_discard(),
        Ok(KeptVMStatus::MoveAbort(module(), 7))
    );
    assert_eq!(failure(StatusCode::OUT_OF_GAS).keep_or_discard(), Ok(KeptVMStatus::OutOfGas));
    assert_eq!(
        VMStatus::error(StatusCode::OUT_OF_GAS, None).keep_or_discard(),
        Ok(KeptVMStatus::OutOfGas)
    );
    for limit in [
        StatusCode::EXECUTION_LIMIT_REACHED,
        StatusCode::IO_LIMIT_REACHED,
        StatusCode::STORAGE_LIMIT_REACHED,
    ] {
        assert_eq!(failure(limit).keep_or_discard(), Ok(KeptVMStatus::MiscellaneousError));
        assert_eq!(
            VMStatus::error(limit, None).keep_or_discard(),
            Ok(KeptVMStatus::MiscellaneousError)
        );
    }
    assert_eq!(
        failure(StatusCode::ARITHMETIC_ERROR).keep_or_discard(),
        Ok(KeptVMStatus::ExecutionFailure { location: module(), function: 2, code_offset: 9 })
    );
    assert_eq!(
        VMStatus::error(StatusCode::RESOURCE_DOES_NOT_EXIST, None).keep_or_discard(),
        Ok(KeptVMStatus::ExecutionFailure {
            location: AbortLocation::Script,
            function: 0,
            code_offset: 0
        })
    );
    assert_eq!(
        VMStatus::error(StatusCode::CONSTRAINT_NOT_SATISFIED, None).keep_or_discard(),
        Ok(KeptVMStatus::MiscellaneousError)
    );
    for code in [
        StatusCode::INVALID_SIGNATURE,
        StatusCode::CODE_DESERIALIZATION_ERROR,
        StatusCode::UNKNOWN_INVARIANT_VIOLATION_ERROR,
        StatusCode::UNKNOWN_STATUS,
    ] {
        assert_eq!(VMStatus::error(code, None).keep_or_discard(), Err(code));
    }
}

#[test]
fn transaction_status_by_kind_of_failure() {
    let from = TransactionStatus::from_vm_status;
    // Prologue failures, duplicate signers, gated features, invalid
    // signatures and what does not decode are discarded.
    for code in [
        StatusCode::SEQUENCE_NUMBER_TOO_OLD,
        StatusCode::SIGNERS_CONTAIN_DUPLICATES,
        StatusCode::FEATURE_UNDER_GATING,
        StatusCode::INVALID_SIGNATURE,
        StatusCode::CODE_DESERIALIZATION_ERROR,
    ] {
        for charge in [true, false] {
            let status = from(VMStatus::error(code, None), charge);
            assert_eq!(status, TransactionStatus::Discard(code));
            assert!(status.is_discarded());
        }
    }
    // Aborts, failures of the execution and running out of gas are kept.
    assert_eq!(
        from(VMStatus::MoveAbort(module(), 7), false),
        TransactionStatus::Keep(ExecutionStatus::MoveAbort {
            location: module(),
            code: 7,
            info: None
        })
    );
    assert_eq!(
        from(failure(StatusCode::ARITHMETIC_ERROR), false),
        TransactionStatus::Keep(ExecutionStatus::ExecutionFailure {
            location: module(),
            function: 2,
            code_offset: 9
        })
    );
    assert_eq!(
        from(failure(StatusCode::OUT_OF_GAS), true),
        TransactionStatus::Keep(ExecutionStatus::OutOfGas)
    );
    assert!(!from(failure(StatusCode::OUT_OF_GAS), true).is_discarded());
    assert_eq!(from(VMStatus::Executed, false), TransactionStatus::Keep(ExecutionStatus::Success));
    // A miscellaneous error records the code.
    assert_eq!(
        from(VMStatus::error(StatusCode::CONSTRAINT_NOT_SATISFIED, None), false),
        TransactionStatus::Keep(ExecutionStatus::MiscellaneousError(Some(
            StatusCode::CONSTRAINT_NOT_SATISFIED
        )))
    );
    assert_eq!(
        from(failure(StatusCode::IO_LIMIT_REACHED), false),
        TransactionStatus::Keep(ExecutionStatus::MiscellaneousError(Some(
            StatusCode::IO_LIMIT_REACHED
        )))
    );
    // A violated invariant is kept only where it is charged for.
    let violation = VMStatus::error(StatusCode::UNKNOWN_INVARIANT_VIOLATION_ERROR, None);
    assert_eq!(
        from(violation.clone(), true),
        TransactionStatus::Keep(ExecutionStatus::MiscellaneousError(Some(
            StatusCode::UNKNOWN_INVARIANT_VIOLATION_ERROR
        )))
    );
    assert_eq!(
        from(violation, false),
        TransactionStatus::Discard(StatusCode::UNKNOWN_INVARIANT_VIOLATION_ERROR)
    );
    // A storage error and a speculative abort are never charged for.
    for code in [StatusCode::STORAGE_ERROR, StatusCode::SPECULATIVE_EXECUTION_ABORT_ERROR] {
        for charge in [true, false] {
            assert_eq!(from(VMStatus::error(code, None), charge), TransactionStatus::Discard(code));
        }
    }
    assert!(!TransactionStatus::Retry.is_discarded());
    let kept = from(VMStatus::MoveAbort(module(), 7), false);
    assert_eq!(kept.duplicate(), kept);
}

#[test]
fn execution_status_of_what_is_kept() {
    assert!(ExecutionStatus::Success.is_success());
    assert!(!ExecutionStatus::OutOfGas.is_success());
    assert_eq!(ExecutionStatus::from_kept(KeptVMStatus::Executed), ExecutionStatus::Success);
    assert_eq!(ExecutionStatus::from_kept(KeptVMStatus::OutOfGas), ExecutionStatus::OutOfGas);
    assert_eq!(
        ExecutionStatus::from_kept(KeptVMStatus::MiscellaneousError),
        ExecutionStatus::MiscellaneousError(None)
    );
}

#[test]
fn execution_error_reports_a_failure() {
    assert_eq!(ExecutionError::try_from(VMStatus::Executed), None);
    assert_eq!(
        ExecutionError::try_from(VMStatus::error(StatusCode::OUT_OF_GAS, Some(1))),
        Some(ExecutionError {
            abort_location: None,
            error_type: ExecutionErrorType::VMError,
            error_code: ExecutionErrorCode::Status(StatusCode::OUT_OF_GAS),
        })
    );
    assert_eq!(
        ExecutionError::try_from(VMStatus::MoveAbort(module(), 7)),
        Some(ExecutionError {
            abort_location: Some(module()),
            error_type: ExecutionErrorType::MoveAbort,
            error_code: ExecutionErrorCode::Abort(7),
        })
    );
    assert_eq!(
        ExecutionError::try_from(failure(StatusCode::ARITHMETIC_ERROR)),
        Some(ExecutionError {
            abort_location: Some(module()),
            error_type: ExecutionErrorType::MoveExecutionFailure,
            error_code: ExecutionErrorCode::Status(StatusCode::ARITHMETIC_ERROR),
        })
    );
}

#[test]
fn fee_statement_holds_what_it_is_given() {
    let statement = FeeStatement::new(10, 4, 3, 2, 1);
    assert_eq!(statement.gas_used(), 10);
    assert_eq!(statement.execution_gas_units, 4);
    assert_eq!(statement.io_gas_units, 3);
    assert_eq!(statement.storage_fee_octas, 2);
    assert_eq!(statement.storage_fee_refund_octas, 1);
    assert_eq!(FeeStatement::zero(), FeeStatement::new(0, 0, 0, 0, 0));
}

#[test]
fn gas_used_is_what_is_gone_from_the_balance() {
    let reading =
        GasReading { balance: 250, execution_gas_used: 500, io_gas_used: 200, storage_fee_used: 50 };
    assert_eq!(fee_statement_from_gas_meter(1000, reading, 9), FeeStatement::new(750, 500, 200, 50, 9));
    let all_left =
        GasReading { balance: 1000, execution_gas_used: 0, io_gas_used: 0, storage_fee_used: 0 };
    assert_eq!(fee_statement_from_gas_meter(1000, all_left, 0).gas_used(), 0);
    let nothing_left =
        GasReading { balance: 0, execution_gas_used: 0, io_gas_used: 0, storage_fee_used: 0 };
    assert_eq!(fee_statement_from_gas_meter(1000, nothing_left, 0).gas_used(), 1000);
}

#[test]
fn violations_are_reported_by_kind() {
    let report = |code, sub_status| report_violation(&VMStatus::error(code, sub_status));
    assert_eq!(report(StatusCode::OUT_OF_GAS, None), ViolationReport::Silent);
    assert_eq!(report_violation(&VMStatus::Executed), ViolationReport::Silent);
    assert_eq!(
        report(StatusCode::TYPE_RESOLUTION_FAILURE, Some(EUSER_TYPE_LOADING_FAILURE)),
        ViolationReport::Silent
    );
    assert_eq!(report(StatusCode::TYPE_RESOLUTION_FAILURE, None), ViolationReport::Speculative);
    assert_eq!(report(StatusCode::TYPE_RESOLUTION_FAILURE, Some(2)), ViolationReport::Speculative);
    assert_eq!(
        report(StatusCode::UNEXPECTED_ERROR_FROM_KNOWN_MOVE_FUNCTION, None),
        ViolationReport::Speculative
    );
    assert_eq!(
        report(StatusCode::UNKNOWN_INVARIANT_VIOLATION_ERROR, Some(EPARANOID_FAILURE)),
        ViolationReport::Alert
    );
    assert_eq!(
        report(StatusCode::UNKNOWN_INVARIANT_VIOLATION_ERROR, Some(EREFERENCE_COUNTING_FAILURE)),
        ViolationReport::Alert
    );
    assert_eq!(report(StatusCode::SPECULATIVE_EXECUTION_ABORT_ERROR, None), ViolationReport::Silent);
    assert_eq!(report(StatusCode::STORAGE_ERROR, None), ViolationReport::Silent);
    assert_eq!(report(StatusCode::UNREACHABLE, None), ViolationReport::Alert);
    assert_eq!(EPARANOID_FAILURE, 1);
    assert_eq!(EREFERENCE_COUNTING_FAILURE, 2);
}

#[test]
fn validator_result_after_the_prologue() {
    assert_eq!(validation_result(Ok(()), 7), VMValidatorResult::new(None, 7));
    assert_eq!(
        validation_result(Err(VMStatus::error(StatusCode::SEQUENCE_NUMBER_TOO_NEW, None)), 7),
        VMValidatorResult::new(None, 7)
    );
    assert_eq!(
        validation_result(Err(VMStatus::error(StatusCode::TRANSACTION_EXPIRED, None)), 7),
        VMValidatorResult::new(Some(StatusCode::TRANSACTION_EXPIRED), 0)
    );
    assert_eq!(
        validation_result(Err(VMStatus::MoveAbort(module(), 1)), 7),
        VMValidatorResult::new(Some(StatusCode::ABORTED), 0)
    );
}

#[test]
fn failure_of_a_function_that_must_not_fail() {
    assert_eq!(
        expect_only_successful_execution(VMStatus::MoveAbort(module(), 4)),
        VMStatus::error(StatusCode::UNEXPECTED_ERROR_FROM_KNOWN_MOVE_FUNCTION, Some(4))
    );
    assert_eq!(
        expect_only_successful_execution(VMStatus::error(StatusCode::OUT_OF_GAS, None)),
        VMStatus::error(StatusCode::UNEXPECTED_ERROR_FROM_KNOWN_MOVE_FUNCTION, None)
    );
    let speculative = VMStatus::error(StatusCode::SPECULATIVE_EXECUTION_ABORT_ERROR, Some(1));
    assert_eq!(expect_only_successful_execution(speculative.clone()), speculative);
}
