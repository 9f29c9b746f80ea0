//! Transactions as the execution core sees them, and the status and fee
//! statement that each one ends with.

use crate::change_set::VMChangeSet;
use crate::keyed_map::{KeyedMap, MapKey};
use crate::types::{AccountAddress, HashValue, ModuleId, TypeTag};
use crate::vm_status::{AbortLocation, KeptVMStatus, StatusCode, StatusType, VMStatus};
use vstd::prelude::*;

verus! {

/// What a module says of one of its abort codes.
#[derive(Clone, Debug, PartialEq, Eq)]
pub struct AbortInfo {
    pub reason_name: String,
    pub description: String,
}

/// The status recorded for a transaction that is kept.
#[derive(Clone, Debug, PartialEq, Eq)]
pub enum ExecutionStatus {
    Success,
    OutOfGas,
    MoveAbort { location: AbortLocation, code: u64, info: Option<AbortInfo> },
    ExecutionFailure { location: AbortLocation, function: u16, code_offset: u16 },
    MiscellaneousError(Option<StatusCode>),
}

impl ExecutionStatus {
    pub open spec fn spec_is_success(&self) -> bool {
        *self == ExecutionStatus::Success
    }

    #[verifier::when_used_as_spec(spec_is_success)]
    pub fn is_success(&self) -> (result: bool)
        ensures
            result == self.spec_is_success(),
    {
        match self {
            ExecutionStatus::Success => true,
            _ => false,
        }
    }

    /// The execution status that records `kept`. A miscellaneous error
    /// records no code here.
    pub open spec fn spec_from_kept(kept: KeptVMStatus) -> ExecutionStatus {
        match kept {
            KeptVMStatus::Executed => ExecutionStatus::Success,
            KeptVMStatus::OutOfGas => ExecutionStatus::OutOfGas,
            KeptVMStatus::MoveAbort(location, code) => ExecutionStatus::MoveAbort {
                location,
                code,
                info: None,
            },
            KeptVMStatus::ExecutionFailure {
                location,
                function,
                code_offset,
            } => ExecutionStatus::ExecutionFailure { location, function, code_offset },
            KeptVMStatus::MiscellaneousError => ExecutionStatus::MiscellaneousError(None),
        }
    }

    #[verifier::when_used_as_spec(spec_from_kept)]
    pub fn from_kept(kept: KeptVMStatus) -> (result: ExecutionStatus)
        ensures
            result == Self::spec_from_kept(kept),
    {
        match kept {
            KeptVMStatus::Executed => ExecutionStatus::Success,
            KeptVMStatus::OutOfGas => ExecutionStatus::OutOfGas,
            KeptVMStatus::MoveAbort(location, code) => ExecutionStatus::MoveAbort {
                location,
                code,
                info: None,
            },
            KeptVMStatus::ExecutionFailure {
                location,
                function,
                code_offset,
            } => ExecutionStatus::ExecutionFailure { location, function, code_offset },
            KeptVMStatus::MiscellaneousError => ExecutionStatus::MiscellaneousError(None),
        }
    }
}

/// What becomes of a transaction.
#[derive(Clone, Debug, PartialEq, Eq)]
pub enum TransactionStatus {
    /// The transaction leaves no trace.
    Discard(StatusCode),
    /// The transaction is recorded, charged for, and its writes applied.
    Keep(ExecutionStatus),
    /// The transaction was not executed and has to be submitted again.
    Retry,
}

/// Whether a violated invariant with this code is charged for when
/// invariant violations are charged. A failed read of the base state and an
/// abort of speculative execution never are.
pub open spec fn is_chargeable_invariant_violation(code: StatusCode) -> bool {
    code.spec_status_type() == StatusType::InvariantViolation && code != StatusCode::STORAGE_ERROR
        && code != StatusCode::SPECULATIVE_EXECUTION_ABORT_ERROR
}

impl TransactionStatus {
    /// What becomes of a transaction that ended with `vm_status`.
    ///
    /// What `keep_or_discard` keeps is kept; a miscellaneous error records the
    /// status code. What it discards is discarded with its code, except that
    /// a violated invariant is kept as a miscellaneous error when such
    /// violations are charged for.
    pub open spec fn spec_from_vm_status(
        vm_status: VMStatus,
        charge_invariant_violation: bool,
    ) -> TransactionStatus {
        match vm_status.spec_keep_or_discard() {
            Ok(KeptVMStatus::MiscellaneousError) => TransactionStatus::Keep(
                ExecutionStatus::MiscellaneousError(Some(vm_status.spec_status_code())),
            ),
            Ok(kept) => TransactionStatus::Keep(ExecutionStatus::spec_from_kept(kept)),
            Err(code) => if charge_invariant_violation && is_chargeable_invariant_violation(code) {
                TransactionStatus::Keep(ExecutionStatus::MiscellaneousError(Some(code)))
            } else {
                TransactionStatus::Discard(code)
            },
        }
    }

    #[verifier::when_used_as_spec(spec_from_vm_status)]
    pub fn from_vm_status(vm_status: VMStatus, charge_invariant_violation: bool) -> (result:
        TransactionStatus)
        ensures
            result == Self::spec_from_vm_status(vm_status, charge_invariant_violation),
            result != TransactionStatus::Retry,
    {
        let status_code = vm_status.status_code();
        match vm_status.keep_or_discard() {
            Ok(KeptVMStatus::MiscellaneousError) => TransactionStatus::Keep(
                ExecutionStatus::MiscellaneousError(Some(status_code)),
            ),
            Ok(kept) => TransactionStatus::Keep(ExecutionStatus::from_kept(kept)),
            Err(code) => {
                if charge_invariant_violation && code.status_type() == StatusType::InvariantViolation
                    && code != StatusCode::STORAGE_ERROR && code
                    != StatusCode::SPECULATIVE_EXECUTION_ABORT_ERROR {
                    TransactionStatus::Keep(ExecutionStatus::MiscellaneousError(Some(code)))
                } else {
                    TransactionStatus::Discard(code)
                }
            },
        }
    }

    pub open spec fn spec_is_discarded(&self) -> bool {
        self is Discard
    }

    #[verifier::when_used_as_spec(spec_is_discarded)]
    pub fn is_discarded(&self) -> (result: bool)
        ensures
            result == self.spec_is_discarded(),
    {
        match self {
            TransactionStatus::Discard(_) => true,
            _ => false,
        }
    }

    pub fn duplicate(&self) -> (result: TransactionStatus)
        ensures
            result == *self,
    {
        match self {
            TransactionStatus::Discard(code) => TransactionStatus::Discard(*code),
            TransactionStatus::Retry => TransactionStatus::Retry,
            TransactionStatus::Keep(status) => TransactionStatus::Keep(
                match status {
                    ExecutionStatus::Success => ExecutionStatus::Success,
                    ExecutionStatus::OutOfGas => ExecutionStatus::OutOfGas,
                    ExecutionStatus::MoveAbort { location, code, info } => {
                        let info = match info {
                            Some(info) => Some(
                                AbortInfo {
                                    reason_name: info.reason_name.clone(),
                                    description: info.description.clone(),
                                },
                            ),
                            None => None,
                        };
                        ExecutionStatus::MoveAbort { location: location.duplicate(), code: *code, info }
                    },
                    ExecutionStatus::ExecutionFailure {
                        location,
                        function,
                        code_offset,
                    } => ExecutionStatus::ExecutionFailure {
                        location: location.duplicate(),
                        function: *function,
                        code_offset: *code_offset,
                    },
                    ExecutionStatus::MiscellaneousError(code) => ExecutionStatus::MiscellaneousError(
                        *code,
                    ),
                },
            ),
        }
    }
}

/// The kind of failure that an `ExecutionError` reports.
#[derive(Clone, Copy, Debug, PartialEq, Eq, Structural)]
pub enum ExecutionErrorType {
    VMError,
    MoveAbort,
    MoveExecutionFailure,
}

/// The code of an `ExecutionError`: the abort code of an abort, else the
/// status code.
#[derive(Clone, Copy, Debug, PartialEq, Eq, Structural)]
pub enum ExecutionErrorCode {
    Abort(u64),
    Status(StatusCode),
}

/// A failed execution, as it is reported to on-chain code.
#[derive(Clone, Debug, PartialEq, Eq)]
pub struct ExecutionError {
    pub abort_location: Option<AbortLocation>,
    pub error_type: ExecutionErrorType,
    pub error_code: ExecutionErrorCode,
}

impl ExecutionError {
    /// The report of `status`; there is none of a success.
    pub open spec fn spec_try_from(status: VMStatus) -> Option<ExecutionError> {
        match status {
            VMStatus::Executed => None,
            VMStatus::Error { status_code, .. } => Some(
                ExecutionError {
                    abort_location: None,
                    error_type: ExecutionErrorType::VMError,
                    error_code: ExecutionErrorCode::Status(status_code),
                },
            ),
            VMStatus::MoveAbort(location, code) => Some(
                ExecutionError {
                    abort_location: Some(location),
                    error_type: ExecutionErrorType::MoveAbort,
                    error_code: ExecutionErrorCode::Abort(code),
                },
            ),
            VMStatus::ExecutionFailure { status_code, location, .. } => Some(
                ExecutionError {
                    abort_location: Some(location),
                    error_type: ExecutionErrorType::MoveExecutionFailure,
                    error_code: ExecutionErrorCode::Status(status_code),
                },
            ),
        }
    }

    #[verifier::when_used_as_spec(spec_try_from)]
    pub fn try_from(status: VMStatus) -> (result: Option<ExecutionError>)
        ensures
            result == Self::spec_try_from(status),
    {
        match status {
            VMStatus::Executed => None,
            VMStatus::Error { status_code, .. } => Some(
                ExecutionError {
                    abort_location: None,
                    error_type: ExecutionErrorType::VMError,
                    error_code: ExecutionErrorCode::Status(status_code),
                },
            ),
            VMStatus::MoveAbort(location, code) => Some(
                ExecutionError {
                    abort_location: Some(location),
                    error_type: ExecutionErrorType::MoveAbort,
                    error_code: ExecutionErrorCode::Abort(code),
                },
            ),
            VMStatus::ExecutionFailure { status_code, location, .. } => Some(
                ExecutionError {
                    abort_location: Some(location),
                    error_type: ExecutionErrorType::MoveExecutionFailure,
                    error_code: ExecutionErrorCode::Status(status_code),
                },
            ),
        }
    }
}

/// What a transaction was charged, by kind, and what it got back.
#[derive(Clone, Copy, Debug, PartialEq, Eq, Structural)]
pub struct FeeStatement {
    pub total_charge_gas_units: u64,
    pub execution_gas_units: u64,
    pub io_gas_units: u64,
    pub storage_fee_octas: u64,
    pub storage_fee_refund_octas: u64,
}

impl FeeStatement {
    pub open spec fn spec_zero() -> FeeStatement {
        FeeStatement {
            total_charge_gas_units: 0,
            execution_gas_units: 0,
            io_gas_units: 0,
            storage_fee_octas: 0,
            storage_fee_refund_octas: 0,
        }
    }

    #[verifier::when_used_as_spec(spec_zero)]
    pub fn zero() -> (result: FeeStatement)
        ensures
            result == Self::spec_zero(),
    {
        FeeStatement {
            total_charge_gas_units: 0,
            execution_gas_units: 0,
            io_gas_units: 0,
            storage_fee_octas: 0,
            storage_fee_refund_octas: 0,
        }
    }

    pub open spec fn spec_new(
        total_charge_gas_units: u64,
        execution_gas_units: u64,
        io_gas_units: u64,
        storage_fee_octas: u64,
        storage_fee_refund_octas: u64,
    ) -> FeeStatement {
        FeeStatement {
            total_charge_gas_units,
            execution_gas_units,
            io_gas_units,
            storage_fee_octas,
            storage_fee_refund_octas,
        }
    }

    #[verifier::when_used_as_spec(spec_new)]
    pub fn new(
        total_charge_gas_units: u64,
        execution_gas_units: u64,
        io_gas_units: u64,
        storage_fee_octas: u64,
        storage_fee_refund_octas: u64,
    ) -> (result: FeeStatement)
        ensures
            result == Self::spec_new(
                total_charge_gas_units,
                execution_gas_units,
                io_gas_units,
                storage_fee_octas,
                storage_fee_refund_octas,
            ),
    {
        FeeStatement {
            total_charge_gas_units,
            execution_gas_units,
            io_gas_units,
            storage_fee_octas,
            storage_fee_refund_octas,
        }
    }

    pub open spec fn spec_gas_used(&self) -> u64 {
        self.total_charge_gas_units
    }

    #[verifier::when_used_as_spec(spec_gas_used)]
    pub fn gas_used(&self) -> (result: u64)
        ensures
            result == self.spec_gas_used(),
    {
        self.total_charge_gas_units
    }
}

/// An argument of a script.
#[derive(Clone, Debug, PartialEq, Eq)]
pub enum TransactionArgument {
    U8(u8),
    U16(u16),
    U32(u32),
    U64(u64),
    U128(u128),
    Address(AccountAddress),
    U8Vector(Vec<u8>),
    Bool(bool),
}

/// Code that the transaction brings along and runs once.
#[derive(Clone, Debug, PartialEq, Eq)]
pub struct Script {
    pub code: Vec<u8>,
    pub ty_args: Vec<TypeTag>,
    pub args: Vec<TransactionArgument>,
}

/// A call of a function that a published module offers.
#[derive(Clone, Debug, PartialEq, Eq)]
pub struct EntryFunction {
    pub module: ModuleId,
    pub function: String,
    pub ty_args: Vec<TypeTag>,
    pub args: Vec<Vec<u8>>,
}

/// What a multisig account can be asked to run.
#[derive(Clone, Debug, PartialEq, Eq)]
pub enum MultisigTransactionPayload {
    EntryFunction(EntryFunction),
}

/// The request to run what the owners of a multisig account agreed on. The
/// payload may be left out where the account holds it.
#[derive(Clone, Debug, PartialEq, Eq)]
pub struct Multisig {
    pub multisig_address: AccountAddress,
    pub transaction_payload: Option<MultisigTransactionPayload>,
}

/// The bytes of one module.
#[derive(Clone, Debug, PartialEq, Eq)]
pub struct Module {
    pub code: Vec<u8>,
}

/// Modules that are published together.
#[derive(Clone, Debug, PartialEq, Eq)]
pub struct ModuleBundle {
    pub codes: Vec<Module>,
}

/// What a user transaction asks for.
#[derive(Clone, Debug, PartialEq, Eq)]
pub enum TransactionPayload {
    Script(Script),
    /// Publishes modules directly; kept for tests only.
    ModuleBundle(ModuleBundle),
    EntryFunction(EntryFunction),
    Multisig(Multisig),
}

/// How a transaction is signed, without the keys and signatures.
#[derive(Clone, Debug, PartialEq, Eq)]
pub enum TransactionAuthenticator {
    Ed25519,
    MultiEd25519,
    MultiAgent { secondary_signer_addresses: Vec<AccountAddress> },
    FeePayer { secondary_signer_addresses: Vec<AccountAddress>, fee_payer_address: AccountAddress },
    SingleSender,
}

/// A transaction of a user, as far as its execution depends on it.
#[derive(Clone, Debug, PartialEq, Eq)]
pub struct SignedTransaction {
    pub sender: AccountAddress,
    pub sequence_number: u64,
    pub payload: TransactionPayload,
    pub max_gas_amount: u64,
    pub gas_unit_price: u64,
    pub expiration_timestamp_secs: u64,
    pub chain_id: u8,
    pub authenticator: TransactionAuthenticator,
    /// The length of the transaction in its encoded form.
    pub raw_txn_bytes_len: u64,
}

/// The addresses that sign besides the sender.
pub open spec fn secondary_signers(authenticator: TransactionAuthenticator) -> Seq<AccountAddress> {
    match authenticator {
        TransactionAuthenticator::MultiAgent {
            secondary_signer_addresses,
        } => secondary_signer_addresses@,
        TransactionAuthenticator::FeePayer {
            secondary_signer_addresses,
            ..
        } => secondary_signer_addresses@,
        _ => Seq::empty(),
    }
}

/// The address that pays the fee, where it is not the sender.
pub open spec fn fee_payer(authenticator: TransactionAuthenticator) -> Option<AccountAddress> {
    match authenticator {
        TransactionAuthenticator::FeePayer { fee_payer_address, .. } => Some(fee_payer_address),
        _ => None,
    }
}

/// Whether some address occurs twice in `addresses`.
pub fn has_duplicates(addresses: &Vec<AccountAddress>) -> (result: bool)
    ensures
        result == !addresses@.no_duplicates(),
{
    let n = addresses.len();
    let mut i: usize = 0;
    while i < n
        invariant
            i <= n,
            n == addresses@.len(),
            forall|a: int, b: int| 0 <= a < i && 0 <= b < n && a != b ==> addresses@[a] != addresses@[b],
        decreases n - i,
    {
        let mut j: usize = 0;
        while j < n
            invariant
                i < n,
                j <= n,
                n == addresses@.len(),
                forall|b: int| 0 <= b < j && b != i ==> addresses@[i as int] != addresses@[b],
            decreases n - j,
        {
            if j != i && addresses[i] == addresses[j] {
                return true;
            }
            j += 1;
        }
        i += 1;
    }
    false
}

impl TransactionAuthenticator {
    /// The addresses that sign besides the sender.
    pub fn secondary_signer_addresses(&self) -> (result: Vec<AccountAddress>)
        ensures
            result@ == secondary_signers(*self),
    {
        match self {
            TransactionAuthenticator::MultiAgent { secondary_signer_addresses } => {
                let result = secondary_signer_addresses.clone();
                assert(result@ =~= secondary_signer_addresses@);
                result
            },
            TransactionAuthenticator::FeePayer { secondary_signer_addresses, .. } => {
                let result = secondary_signer_addresses.clone();
                assert(result@ =~= secondary_signer_addresses@);
                result
            },
            _ => Vec::new(),
        }
    }

    /// The address that pays the fee, where it is not the sender.
    pub fn fee_payer_address(&self) -> (result: Option<AccountAddress>)
        ensures
            result == fee_payer(*self),
    {
        match self {
            TransactionAuthenticator::FeePayer { fee_payer_address, .. } => Some(
                *fee_payer_address,
            ),
            _ => None,
        }
    }
}

impl SignedTransaction {
    /// Whether some address signs twice, the sender included.
    pub fn contains_duplicate_signers(&self) -> (result: bool)
        ensures
            result == !secondary_signers(self.authenticator).push(self.sender).no_duplicates(),
    {
        let mut all_signer_addresses = self.authenticator.secondary_signer_addresses();
        all_signer_addresses.push(self.sender);
        has_duplicates(&all_signer_addresses)
    }
}

/// What the pipeline needs to know of a user transaction besides its
/// payload.
#[derive(Clone, Debug, PartialEq, Eq)]
pub struct TransactionMetadata {
    pub sender: AccountAddress,
    pub secondary_signers: Vec<AccountAddress>,
    pub fee_payer: Option<AccountAddress>,
    pub sequence_number: u64,
    pub max_gas_amount: u64,
    pub gas_unit_price: u64,
    pub transaction_size: u64,
    pub expiration_timestamp_secs: u64,
    pub chain_id: u8,
}

impl TransactionMetadata {
    pub fn new(txn: &SignedTransaction) -> (result: TransactionMetadata)
        ensures
            result.sender == txn.sender,
            result.secondary_signers@ == secondary_signers(txn.authenticator),
            result.fee_payer == fee_payer(txn.authenticator),
            result.sequence_number == txn.sequence_number,
            result.max_gas_amount == txn.max_gas_amount,
            result.gas_unit_price == txn.gas_unit_price,
            result.transaction_size == txn.raw_txn_bytes_len,
            result.expiration_timestamp_secs == txn.expiration_timestamp_secs,
            result.chain_id == txn.chain_id,
    {
        TransactionMetadata {
            sender: txn.sender,
            secondary_signers: txn.authenticator.secondary_signer_addresses(),
            fee_payer: txn.authenticator.fee_payer_address(),
            sequence_number: txn.sequence_number,
            max_gas_amount: txn.max_gas_amount,
            gas_unit_price: txn.gas_unit_price,
            transaction_size: txn.raw_txn_bytes_len,
            expiration_timestamp_secs: txn.expiration_timestamp_secs,
            chain_id: txn.chain_id,
        }
    }

    pub fn max_gas_amount(&self) -> (result: u64)
        ensures
            result == self.max_gas_amount,
    {
        self.max_gas_amount
    }

    pub fn gas_unit_price(&self) -> (result: u64)
        ensures
            result == self.gas_unit_price,
    {
        self.gas_unit_price
    }

    pub fn transaction_size(&self) -> (result: u64)
        ensures
            result == self.transaction_size,
    {
        self.transaction_size
    }

    pub fn sender(&self) -> (result: AccountAddress)
        ensures
            result == self.sender,
    {
        self.sender
    }

    /// The sender, then the secondary signers.
    pub fn senders(&self) -> (result: Vec<AccountAddress>)
        ensures
            result@ == seq![self.sender] + self.secondary_signers@,
    {
        let mut result: Vec<AccountAddress> = Vec::new();
        result.push(self.sender);
        let mut i: usize = 0;
        while i < self.secondary_signers.len()
            invariant
                i <= self.secondary_signers@.len(),
                result@ == seq![self.sender] + self.secondary_signers@.subrange(0, i as int),
            decreases self.secondary_signers@.len() - i,
        {
            result.push(self.secondary_signers[i]);
            proof {
                assert(self.secondary_signers@.subrange(0, i as int + 1)
                    =~= self.secondary_signers@.subrange(0, i as int).push(
                    self.secondary_signers@[i as int],
                ));
                assert(result@ =~= seq![self.sender] + self.secondary_signers@.subrange(
                    0,
                    i as int + 1,
                ));
            }
            i += 1;
        }
        proof {
            assert(self.secondary_signers@.subrange(0, self.secondary_signers@.len() as int)
                =~= self.secondary_signers@);
        }
        result
    }
}

/// What a block says of itself; it runs before the block's transactions.
#[derive(Clone, Debug, PartialEq, Eq)]
pub struct BlockMetadata {
    pub id: HashValue,
    pub epoch: u64,
    pub round: u64,
    pub proposer: AccountAddress,
    pub previous_block_votes_bitvec: Vec<u8>,
    pub failed_proposer_indices: Vec<u32>,
    pub timestamp_usecs: u64,
}

/// A script that is run to produce a write set.
#[derive(Clone, Debug, PartialEq, Eq)]
pub struct WriteSetScript {
    pub execute_as: AccountAddress,
    pub script: Script,
}

/// How a genesis transaction says what to write.
pub enum WriteSetPayload {
    /// The change set, ready to apply.
    Direct(VMChangeSet),
    /// A script to run as the given account.
    Script(WriteSetScript),
}

/// A transaction that the validators themselves put into a block.
#[derive(Clone, Debug, PartialEq, Eq)]
pub struct ValidatorTransaction {
    pub payload: Vec<u8>,
}

/// What a block is made of.
pub enum Transaction {
    UserTransaction(SignedTransaction),
    GenesisTransaction(WriteSetPayload),
    BlockMetadata(BlockMetadata),
    StateCheckpoint(HashValue),
    ValidatorTransaction(ValidatorTransaction),
}

/// A transaction together with what the check of its signature found.
pub enum SignatureVerifiedTransaction {
    Valid(Transaction),
    Invalid(Transaction),
}

/// What the validator says of a transaction: the reason to reject it, if
/// any, and the gas price by which it is ranked.
#[derive(Clone, Copy, Debug, PartialEq, Eq, Structural)]
pub struct VMValidatorResult {
    pub status: Option<StatusCode>,
    pub score: u64,
}

impl VMValidatorResult {
    pub fn new(status: Option<StatusCode>, score: u64) -> (result: VMValidatorResult)
        ensures
            result == (VMValidatorResult { status, score }),
    {
        VMValidatorResult { status, score }
    }

    /// A rejection for the given reason.
    pub fn error(status: StatusCode) -> (result: VMValidatorResult)
        ensures
            result == (VMValidatorResult { status: Some(status), score: 0 }),
    {
        VMValidatorResult { status: Some(status), score: 0 }
    }

    pub fn status(&self) -> (result: Option<StatusCode>)
        ensures
            result == self.status,
    {
        self.status
    }

    pub fn score(&self) -> (result: u64)
        ensures
            result == self.score,
    {
        self.score
    }
}

/// What a session is opened for.
#[derive(Clone, Copy, Debug, PartialEq, Eq, Structural)]
pub enum SessionId {
    Txn { sender: AccountAddress, sequence_number: u64 },
    BlockMeta { id: HashValue },
    Genesis { id: HashValue },
    PrologueMeta { sender: AccountAddress, sequence_number: u64 },
    TxnMeta { sender: AccountAddress, sequence_number: u64 },
    EpilogueMeta { sender: AccountAddress, sequence_number: u64 },
    Void,
}

impl SessionId {
    pub fn prologue_meta(txn_data: &TransactionMetadata) -> (result: SessionId)
        ensures
            result == (SessionId::PrologueMeta {
                sender: txn_data.sender,
                sequence_number: txn_data.sequence_number,
            }),
    {
        SessionId::PrologueMeta {
            sender: txn_data.sender,
            sequence_number: txn_data.sequence_number,
        }
    }

    pub fn txn_meta(txn_data: &TransactionMetadata) -> (result: SessionId)
        ensures
            result == (SessionId::TxnMeta {
                sender: txn_data.sender,
                sequence_number: txn_data.sequence_number,
            }),
    {
        SessionId::TxnMeta { sender: txn_data.sender, sequence_number: txn_data.sequence_number }
    }

    pub fn epilogue_meta(txn_data: &TransactionMetadata) -> (result: SessionId)
        ensures
            result == (SessionId::EpilogueMeta {
                sender: txn_data.sender,
                sequence_number: txn_data.sequence_number,
            }),
    {
        SessionId::EpilogueMeta {
            sender: txn_data.sender,
            sequence_number: txn_data.sequence_number,
        }
    }

    pub fn block_meta(block_metadata: &BlockMetadata) -> (result: SessionId)
        ensures
            result == (SessionId::BlockMeta { id: block_metadata.id }),
    {
        SessionId::BlockMeta { id: block_metadata.id }
    }

    pub fn genesis(id: HashValue) -> (result: SessionId)
        ensures
            result == (SessionId::Genesis { id }),
    {
        SessionId::Genesis { id }
    }

    pub fn void() -> (result: SessionId)
        ensures
            result == SessionId::Void,
    {
        SessionId::Void
    }
}

impl View for AccountAddress {
    type V = AccountAddress;

    open spec fn view(&self) -> AccountAddress {
        *self
    }
}

impl MapKey for AccountAddress {
    fn key_eq(&self, other: &Self) -> (result: bool) {
        *self == *other
    }
}

/// What the pipeline reads of a decoded module: its name and the modules
/// it depends on directly.
#[derive(Clone, Debug, PartialEq, Eq)]
pub struct CompiledModule {
    pub self_id: ModuleId,
    pub immediate_dependencies: Vec<ModuleId>,
}

/// A request to publish modules that code left behind while it ran.
pub struct PublishRequest {
    /// The account to publish under.
    pub destination: AccountAddress,
    /// The modules.
    pub bundle: ModuleBundle,
    /// The names of the modules that the package announces.
    pub expected_modules: Vec<String>,
    /// By address, the modules that may be depended on; an empty name
    /// stands for all modules of the address. Where this is left out, any
    /// module may be depended on.
    pub allowed_deps: Option<KeyedMap<AccountAddress, Vec<String>>>,
    /// Whether the update must be compatible.
    pub check_compat: bool,
}

} // verus!
