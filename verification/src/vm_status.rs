//! Status codes and the status a single execution ends with.

use crate::types::ModuleId;
use vstd::prelude::*;

verus! {

/// The category a status code belongs to. The category, not the individual
/// code, decides whether a failed transaction is kept or discarded.
#[derive(Clone, Copy, Debug, PartialEq, Eq, Structural)]
pub enum StatusType {
    Validation,
    Verification,
    InvariantViolation,
    Deserialization,
    Execution,
    Unknown,
}

/// The status codes that the execution core raises or tells apart.
#[allow(non_camel_case_types)]
#[derive(Clone, Copy, Debug, PartialEq, Eq, Structural)]
pub enum StatusCode {
    // Raised before the payload runs.
    UNKNOWN_VALIDATION_STATUS,
    INVALID_SIGNATURE,
    INVALID_AUTH_KEY,
    SEQUENCE_NUMBER_TOO_OLD,
    SEQUENCE_NUMBER_TOO_NEW,
    INSUFFICIENT_BALANCE_FOR_TRANSACTION_FEE,
    TRANSACTION_EXPIRED,
    SENDING_ACCOUNT_DOES_NOT_EXIST,
    INVALID_WRITE_SET,
    EXCEEDED_MAX_TRANSACTION_SIZE,
    INVALID_GAS_AMOUNT,
    GAS_UNIT_PRICE_BELOW_MIN_BOUND,
    GAS_UNIT_PRICE_ABOVE_MAX_BOUND,
    BAD_CHAIN_ID,
    SEQUENCE_NUMBER_TOO_BIG,
    FEATURE_UNDER_GATING,
    SECONDARY_KEYS_ADDRESSES_COUNT_MISMATCH,
    SIGNERS_CONTAIN_DUPLICATES,
    // Raised when code or arguments are checked.
    UNKNOWN_VERIFICATION_ERROR,
    DUPLICATE_MODULE_NAME,
    CONSTRAINT_NOT_SATISFIED,
    TYPE_MISMATCH,
    NUMBER_OF_ARGUMENTS_MISMATCH,
    NUMBER_OF_TYPE_ARGUMENTS_MISMATCH,
    FAILED_TO_DESERIALIZE_ARGUMENT,
    INVALID_MAIN_FUNCTION_SIGNATURE,
    LINKER_ERROR,
    BACKWARD_INCOMPATIBLE_MODULE_UPDATE,
    CYCLIC_MODULE_DEPENDENCY,
    // Raised when the runtime finds itself in a state it should never reach.
    UNKNOWN_INVARIANT_VIOLATION_ERROR,
    STORAGE_ERROR,
    INTERNAL_TYPE_ERROR,
    EVENT_KEY_MISMATCH,
    UNREACHABLE,
    VM_STARTUP_FAILURE,
    UNEXPECTED_ERROR_FROM_KNOWN_MOVE_FUNCTION,
    TYPE_RESOLUTION_FAILURE,
    SPECULATIVE_EXECUTION_ABORT_ERROR,
    // Raised when a binary cannot be decoded.
    UNKNOWN_BINARY_ERROR,
    MALFORMED,
    BAD_MAGIC,
    UNKNOWN_VERSION,
    CODE_DESERIALIZATION_ERROR,
    // Raised while the payload runs.
    UNKNOWN_RUNTIME_STATUS,
    EXECUTED,
    OUT_OF_GAS,
    RESOURCE_DOES_NOT_EXIST,
    RESOURCE_ALREADY_EXISTS,
    MISSING_DATA,
    DATA_FORMAT_ERROR,
    ABORTED,
    ARITHMETIC_ERROR,
    VECTOR_OPERATION_ERROR,
    EXECUTION_STACK_OVERFLOW,
    CALL_STACK_OVERFLOW,
    VM_MAX_TYPE_DEPTH_REACHED,
    VM_MAX_VALUE_DEPTH_REACHED,
    VM_EXTENSION_ERROR,
    STORAGE_WRITE_LIMIT_REACHED,
    MEMORY_LIMIT_EXCEEDED,
    EXECUTION_LIMIT_REACHED,
    IO_LIMIT_REACHED,
    STORAGE_LIMIT_REACHED,
    // A code that no category claims.
    UNKNOWN_STATUS,
}

impl StatusCode {
    /// The category of the code.
    pub open spec fn spec_status_type(self) -> StatusType {
        match self {
            StatusCode::UNKNOWN_VALIDATION_STATUS
            | StatusCode::INVALID_SIGNATURE
            | StatusCode::INVALID_AUTH_KEY
            | StatusCode::SEQUENCE_NUMBER_TOO_OLD
            | StatusCode::SEQUENCE_NUMBER_TOO_NEW
            | StatusCode::INSUFFICIENT_BALANCE_FOR_TRANSACTION_FEE
            | StatusCode::TRANSACTION_EXPIRED
            | StatusCode::SENDING_ACCOUNT_DOES_NOT_EXIST
            | StatusCode::INVALID_WRITE_SET
            | StatusCode::EXCEEDED_MAX_TRANSACTION_SIZE
            | StatusCode::INVALID_GAS_AMOUNT
            | StatusCode::GAS_UNIT_PRICE_BELOW_MIN_BOUND
            | StatusCode::GAS_UNIT_PRICE_ABOVE_MAX_BOUND
            | StatusCode::BAD_CHAIN_ID
            | StatusCode::SEQUENCE_NUMBER_TOO_BIG
            | StatusCode::FEATURE_UNDER_GATING
            | StatusCode::SECONDARY_KEYS_ADDRESSES_COUNT_MISMATCH
            | StatusCode::SIGNERS_CONTAIN_DUPLICATES => StatusType::Validation,
            StatusCode::UNKNOWN_VERIFICATION_ERROR
            | StatusCode::DUPLICATE_MODULE_NAME
            | StatusCode::CONSTRAINT_NOT_SATISFIED
            | StatusCode::TYPE_MISMATCH
            | StatusCode::NUMBER_OF_ARGUMENTS_MISMATCH
            | StatusCode::NUMBER_OF_TYPE_ARGUMENTS_MISMATCH
            | StatusCode::FAILED_TO_DESERIALIZE_ARGUMENT
            | StatusCode::INVALID_MAIN_FUNCTION_SIGNATURE
            | StatusCode::LINKER_ERROR
            | StatusCode::BACKWARD_INCOMPATIBLE_MODULE_UPDATE
            | StatusCode::CYCLIC_MODULE_DEPENDENCY => StatusType::Verification,
            StatusCode::UNKNOWN_INVARIANT_VIOLATION_ERROR
            | StatusCode::STORAGE_ERROR
            | StatusCode::INTERNAL_TYPE_ERROR
            | StatusCode::EVENT_KEY_MISMATCH
            | StatusCode::UNREACHABLE
            | StatusCode::VM_STARTUP_FAILURE
            | StatusCode::UNEXPECTED_ERROR_FROM_KNOWN_MOVE_FUNCTION
            | StatusCode::TYPE_RESOLUTION_FAILURE
            | StatusCode::SPECULATIVE_EXECUTION_ABORT_ERROR => StatusType::InvariantViolation,
            StatusCode::UNKNOWN_BINARY_ERROR
            | StatusCode::MALFORMED
            | StatusCode::BAD_MAGIC
            | StatusCode::UNKNOWN_VERSION
            | StatusCode::CODE_DESERIALIZATION_ERROR => StatusType::Deserialization,
            StatusCode::UNKNOWN_RUNTIME_STATUS
            | StatusCode::EXECUTED
            | StatusCode::OUT_OF_GAS
            | StatusCode::RESOURCE_DOES_NOT_EXIST
            | StatusCode::RESOURCE_ALREADY_EXISTS
            | StatusCode::MISSING_DATA
            | StatusCode::DATA_FORMAT_ERROR
            | StatusCode::ABORTED
            | StatusCode::ARITHMETIC_ERROR
            | StatusCode::VECTOR_OPERATION_ERROR
            | StatusCode::EXECUTION_STACK_OVERFLOW
            | StatusCode::CALL_STACK_OVERFLOW
            | StatusCode::VM_MAX_TYPE_DEPTH_REACHED
            | StatusCode::VM_MAX_VALUE_DEPTH_REACHED
            | StatusCode::VM_EXTENSION_ERROR
            | StatusCode::STORAGE_WRITE_LIMIT_REACHED
            | StatusCode::MEMORY_LIMIT_EXCEEDED
            | StatusCode::EXECUTION_LIMIT_REACHED
            | StatusCode::IO_LIMIT_REACHED
            | StatusCode::STORAGE_LIMIT_REACHED => StatusType::Execution,
            StatusCode::UNKNOWN_STATUS => StatusType::Unknown,
        }
    }

    /// The category of the code.
    #[verifier::when_used_as_spec(spec_status_type)]
    pub fn status_type(self) -> (result: StatusType)
        ensures
            result == self.spec_status_type(),
    {
        match self {
            StatusCode::UNKNOWN_VALIDATION_STATUS
            | StatusCode::INVALID_SIGNATURE
            | StatusCode::INVALID_AUTH_KEY
            | StatusCode::SEQUENCE_NUMBER_TOO_OLD
            | StatusCode::SEQUENCE_NUMBER_TOO_NEW
            | StatusCode::INSUFFICIENT_BALANCE_FOR_TRANSACTION_FEE
            | StatusCode::TRANSACTION_EXPIRED
            | StatusCode::SENDING_ACCOUNT_DOES_NOT_EXIST
            | StatusCode::INVALID_WRITE_SET
            | StatusCode::EXCEEDED_MAX_TRANSACTION_SIZE
            | StatusCode::INVALID_GAS_AMOUNT
            | StatusCode::GAS_UNIT_PRICE_BELOW_MIN_BOUND
            | StatusCode::GAS_UNIT_PRICE_ABOVE_MAX_BOUND
            | StatusCode::BAD_CHAIN_ID
            | StatusCode::SEQUENCE_NUMBER_TOO_BIG
            | StatusCode::FEATURE_UNDER_GATING
            | StatusCode::SECONDARY_KEYS_ADDRESSES_COUNT_MISMATCH
            | StatusCode::SIGNERS_CONTAIN_DUPLICATES => StatusType::Validation,
            StatusCode::UNKNOWN_VERIFICATION_ERROR
            | StatusCode::DUPLICATE_MODULE_NAME
            | StatusCode::CONSTRAINT_NOT_SATISFIED
            | StatusCode::TYPE_MISMATCH
            | StatusCode::NUMBER_OF_ARGUMENTS_MISMATCH
            | StatusCode::NUMBER_OF_TYPE_ARGUMENTS_MISMATCH
            | StatusCode::FAILED_TO_DESERIALIZE_ARGUMENT
            | StatusCode::INVALID_MAIN_FUNCTION_SIGNATURE
            | StatusCode::LINKER_ERROR
            | StatusCode::BACKWARD_INCOMPATIBLE_MODULE_UPDATE
            | StatusCode::CYCLIC_MODULE_DEPENDENCY => StatusType::Verification,
            StatusCode::UNKNOWN_INVARIANT_VIOLATION_ERROR
            | StatusCode::STORAGE_ERROR
            | StatusCode::INTERNAL_TYPE_ERROR
            | StatusCode::EVENT_KEY_MISMATCH
            | StatusCode::UNREACHABLE
            | StatusCode::VM_STARTUP_FAILURE
            | StatusCode::UNEXPECTED_ERROR_FROM_KNOWN_MOVE_FUNCTION
            | StatusCode::TYPE_RESOLUTION_FAILURE
            | StatusCode::SPECULATIVE_EXECUTION_ABORT_ERROR => StatusType::InvariantViolation,
            StatusCode::UNKNOWN_BINARY_ERROR
            | StatusCode::MALFORMED
            | StatusCode::BAD_MAGIC
            | StatusCode::UNKNOWN_VERSION
            | StatusCode::CODE_DESERIALIZATION_ERROR => StatusType::Deserialization,
            StatusCode::UNKNOWN_RUNTIME_STATUS
            | StatusCode::EXECUTED
            | StatusCode::OUT_OF_GAS
            | StatusCode::RESOURCE_DOES_NOT_EXIST
            | StatusCode::RESOURCE_ALREADY_EXISTS
            | StatusCode::MISSING_DATA
            | StatusCode::DATA_FORMAT_ERROR
            | StatusCode::ABORTED
            | StatusCode::ARITHMETIC_ERROR
            | StatusCode::VECTOR_OPERATION_ERROR
            | StatusCode::EXECUTION_STACK_OVERFLOW
            | StatusCode::CALL_STACK_OVERFLOW
            | StatusCode::VM_MAX_TYPE_DEPTH_REACHED
            | StatusCode::VM_MAX_VALUE_DEPTH_REACHED
            | StatusCode::VM_EXTENSION_ERROR
            | StatusCode::STORAGE_WRITE_LIMIT_REACHED
            | StatusCode::MEMORY_LIMIT_EXCEEDED
            | StatusCode::EXECUTION_LIMIT_REACHED
            | StatusCode::IO_LIMIT_REACHED
            | StatusCode::STORAGE_LIMIT_REACHED => StatusType::Execution,
            StatusCode::UNKNOWN_STATUS => StatusType::Unknown,
        }
    }
}

/// The sub-status of an unknown invariant violation that the paranoid type
/// checks raised.
pub const EPARANOID_FAILURE: u64 = 1;

/// The sub-status of an unknown invariant violation that the reference
/// safety checks raised.
pub const EREFERENCE_COUNTING_FAILURE: u64 = 2;

/// The sub-status of a type resolution failure that a type argument of the
/// user caused.
pub const EUSER_TYPE_LOADING_FAILURE: u64 = 1;

/// Where an abort or a failure arose.
#[derive(Clone, Debug, PartialEq, Eq)]
pub enum AbortLocation {
    Module(ModuleId),
    Script,
}

impl AbortLocation {
    pub fn duplicate(&self) -> (result: AbortLocation)
        ensures
            result == *self,
    {
        match self {
            AbortLocation::Module(module) => AbortLocation::Module(module.duplicate()),
            AbortLocation::Script => AbortLocation::Script,
        }
    }
}

/// The status that one execution against the runtime ends with.
#[derive(Clone, Debug, PartialEq, Eq)]
pub enum VMStatus {
    /// The execution ran to its end.
    Executed,
    /// The execution was refused or broke off outside user code.
    Error { status_code: StatusCode, sub_status: Option<u64> },
    /// User or framework code aborted with the given code.
    MoveAbort(AbortLocation, u64),
    /// The runtime failed at the given place in the code.
    ExecutionFailure {
        status_code: StatusCode,
        sub_status: Option<u64>,
        location: AbortLocation,
        function: u16,
        code_offset: u16,
    },
}

/// What is recorded of a transaction that is kept.
#[derive(Clone, Debug, PartialEq, Eq)]
pub enum KeptVMStatus {
    Executed,
    OutOfGas,
    MoveAbort(AbortLocation, u64),
    ExecutionFailure { location: AbortLocation, function: u16, code_offset: u16 },
    MiscellaneousError,
}

/// Whether `code` says that a budget other than gas ran out.
pub open spec fn is_limit_reached(code: StatusCode) -> bool {
    code == StatusCode::EXECUTION_LIMIT_REACHED || code == StatusCode::IO_LIMIT_REACHED || code
        == StatusCode::STORAGE_LIMIT_REACHED
}

impl VMStatus {
    pub open spec fn spec_error(status_code: StatusCode, sub_status: Option<u64>) -> VMStatus {
        VMStatus::Error { status_code, sub_status }
    }

    /// An error outside user code.
    #[verifier::when_used_as_spec(spec_error)]
    pub fn error(status_code: StatusCode, sub_status: Option<u64>) -> (result: VMStatus)
        ensures
            result == Self::spec_error(status_code, sub_status),
    {
        VMStatus::Error { status_code, sub_status }
    }

    pub open spec fn spec_status_code(&self) -> StatusCode {
        match self {
            VMStatus::Executed => StatusCode::EXECUTED,
            VMStatus::MoveAbort(_, _) => StatusCode::ABORTED,
            VMStatus::Error { status_code, .. } => *status_code,
            VMStatus::ExecutionFailure { status_code, .. } => *status_code,
        }
    }

    /// The code of the status: `EXECUTED` for a success, `ABORTED` for an
    /// abort, else the code that the status carries.
    #[verifier::when_used_as_spec(spec_status_code)]
    pub fn status_code(&self) -> (result: StatusCode)
        ensures
            result == self.spec_status_code(),
    {
        match self {
            VMStatus::Executed => StatusCode::EXECUTED,
            VMStatus::MoveAbort(_, _) => StatusCode::ABORTED,
            VMStatus::Error { status_code, .. } => *status_code,
            VMStatus::ExecutionFailure { status_code, .. } => *status_code,
        }
    }

    pub open spec fn spec_sub_status(&self) -> Option<u64> {
        match self {
            VMStatus::Executed => None,
            VMStatus::MoveAbort(_, code) => Some(*code),
            VMStatus::Error { sub_status, .. } => *sub_status,
            VMStatus::ExecutionFailure { sub_status, .. } => *sub_status,
        }
    }

    /// The sub-status: the abort code of an abort, else what the status
    /// carries.
    #[verifier::when_used_as_spec(spec_sub_status)]
    pub fn sub_status(&self) -> (result: Option<u64>)
        ensures
            result == self.spec_sub_status(),
    {
        match self {
            VMStatus::Executed => None,
            VMStatus::MoveAbort(_, code) => Some(*code),
            VMStatus::Error { sub_status, .. } => *sub_status,
            VMStatus::ExecutionFailure { sub_status, .. } => *sub_status,
        }
    }

    pub open spec fn spec_vm_status_type(&self) -> StatusType {
        self.spec_status_code().spec_status_type()
    }

    /// The category of the status code.
    #[verifier::when_used_as_spec(spec_vm_status_type)]
    pub fn status_type(&self) -> (result: StatusType)
        ensures
            result == self.spec_vm_status_type(),
    {
        self.status_code().status_type()
    }

    pub fn duplicate(&self) -> (result: VMStatus)
        ensures
            result == *self,
    {
        match self {
            VMStatus::Executed => VMStatus::Executed,
            VMStatus::Error { status_code, sub_status } => VMStatus::Error {
                status_code: *status_code,
                sub_status: *sub_status,
            },
            VMStatus::MoveAbort(location, code) => VMStatus::MoveAbort(
                location.duplicate(),
                *code,
            ),
            VMStatus::ExecutionFailure {
                status_code,
                sub_status,
                location,
                function,
                code_offset,
            } => VMStatus::ExecutionFailure {
                status_code: *status_code,
                sub_status: *sub_status,
                location: location.duplicate(),
                function: *function,
                code_offset: *code_offset,
            },
        }
    }

    /// Whether a transaction that ended with this status is kept, and as
    /// what, or discarded, and with which code.
    ///
    /// A success, an abort and a failure inside user code are kept; running
    /// out of gas is kept as such, running out of another budget as a
    /// miscellaneous error. An error outside user code is kept only if code
    /// verification raised it (a miscellaneous error) or the execution itself
    /// (a failure of the script); one raised by validation, by decoding, by an
    /// invariant of the runtime, or of unknown kind discards.
    pub open spec fn spec_keep_or_discard(self) -> Result<KeptVMStatus, StatusCode> {
        match self {
            VMStatus::Executed => Ok(KeptVMStatus::Executed),
            VMStatus::MoveAbort(location, code) => Ok(KeptVMStatus::MoveAbort(location, code)),
            VMStatus::ExecutionFailure { status_code, location, function, code_offset, .. } => {
                if status_code == StatusCode::OUT_OF_GAS {
                    Ok(KeptVMStatus::OutOfGas)
                } else if is_limit_reached(status_code) {
                    Ok(KeptVMStatus::MiscellaneousError)
                } else {
                    Ok(KeptVMStatus::ExecutionFailure { location, function, code_offset })
                }
            },
            VMStatus::Error { status_code, .. } => {
                if status_code == StatusCode::OUT_OF_GAS {
                    Ok(KeptVMStatus::OutOfGas)
                } else if is_limit_reached(status_code) {
                    Ok(KeptVMStatus::MiscellaneousError)
                } else {
                    match status_code.spec_status_type() {
                        StatusType::Verification => Ok(KeptVMStatus::MiscellaneousError),
                        StatusType::Execution => Ok(
                            KeptVMStatus::ExecutionFailure {
                                location: AbortLocation::Script,
                                function: 0,
                                code_offset: 0,
                            },
                        ),
                        StatusType::Validation
                        | StatusType::Deserialization
                        | StatusType::InvariantViolation
                        | StatusType::Unknown => Err(status_code),
                    }
                }
            },
        }
    }

    #[verifier::when_used_as_spec(spec_keep_or_discard)]
    pub fn keep_or_discard(self) -> (result: Result<KeptVMStatus, StatusCode>)
        ensures
            result == self.spec_keep_or_discard(),
    {
        match self {
            VMStatus::Executed => Ok(KeptVMStatus::Executed),
            VMStatus::MoveAbort(location, code) => Ok(KeptVMStatus::MoveAbort(location, code)),
            VMStatus::ExecutionFailure { status_code, location, function, code_offset, .. } => {
                if status_code == StatusCode::OUT_OF_GAS {
                    Ok(KeptVMStatus::OutOfGas)
                } else if status_code == StatusCode::EXECUTION_LIMIT_REACHED || status_code
                    == StatusCode::IO_LIMIT_REACHED || status_code
                    == StatusCode::STORAGE_LIMIT_REACHED {
                    Ok(KeptVMStatus::MiscellaneousError)
                } else {
                    Ok(KeptVMStatus::ExecutionFailure { location, function, code_offset })
                }
            },
            VMStatus::Error { status_code, .. } => {
                if status_code == StatusCode::OUT_OF_GAS {
                    Ok(KeptVMStatus::OutOfGas)
                } else if status_code == StatusCode::EXECUTION_LIMIT_REACHED || status_code
                    == StatusCode::IO_LIMIT_REACHED || status_code
                    == StatusCode::STORAGE_LIMIT_REACHED {
                    Ok(KeptVMStatus::MiscellaneousError)
                } else {
                    match status_code.status_type() {
                        StatusType::Verification => Ok(KeptVMStatus::MiscellaneousError),
                        StatusType::Execution => Ok(
                            KeptVMStatus::ExecutionFailure {
                                location: AbortLocation::Script,
                                function: 0,
                                code_offset: 0,
                            },
                        ),
                        StatusType::Validation
                        | StatusType::Deserialization
                        | StatusType::InvariantViolation
                        | StatusType::Unknown => Err(status_code),
                    }
                }
            },
        }
    }
}

} // verus!
