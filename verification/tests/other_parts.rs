use aptos_vm::algebra::{
    sqr_internal, sqr_internal_bn254, square_element, AlgebraContext, BN254Structure, Element,
    SafeNativeContext, SafeNativeError, SquareGasParameters, Structure, E_TOO_MUCH_MEMORY_USED,
    MEMORY_LIMIT_IN_BYTES, MOVE_ABORT_CODE_NOT_IMPLEMENTED,
};
use aptos_vm::aptos_vm::AptosVM;
use aptos_vm::batch_requester::{
    advance, select_peers, BatchRequester, BatchRequesterState, ExecutorError, OnTick,
};
use aptos_vm::config::{FeatureFlag, Features};
use aptos_vm::executor_types::{
    accumulator_placeholder_hash, BlockExecutorTrait, ChunkCommitNotification,
    ChunkExecutorTrait, EpochState, ProofRead, ProofReader, SparseMerkleProofExt,
    StateComputeResult, VerifyExecutionMode,
};
use aptos_vm::keyed_map::KeyedMap;
use aptos_vm::knobs::{
    allow_module_bundle_for_test, concurrency_level_to_set, module_bundle_disallowed,
    num_proof_reading_threads_to_set, num_shards_to_set, setting_or, ProcessKnobs,
    TimedFeatureOverride,
};
use aptos_vm::publish::{
    contains_name, verify_all_expected_published, verify_dependencies_allowed,
    verify_module_bundle, verify_module_registered,
};
use aptos_vm::request::ModuleProbe;
use aptos_vm::transaction::{
    has_duplicates, CompiledModule, EntryFunction, ExecutionStatus, SessionId,
    SignedTransaction, TransactionAuthenticator, TransactionMetadata, TransactionPayload,
    TransactionStatus,
};
use aptos_vm::types::{
    new_block_event_key, reserved_vm_address, AccountAddress, EventKey, HashValue, ModuleId,
    MoveTypeLayout, StructTag, TypeTag,
};
use aptos_vm::vm_status::{StatusCode, VMStatus};
use once_cell::sync::OnceCell;
use std::cell::RefCell;
use std::collections::BTreeSet;
use std::sync::atomic::AtomicBool;

fn address(n: u128) -> AccountAddress {
    AccountAddress::new(0, n)
}

fn knobs() -> ProcessKnobs {
    ProcessKnobs {
        execution_concurrency_level: OnceCell::new(),
        num_execution_shard: OnceCell::new(),
        num_proof_reading_threads: OnceCell::new(),
        paranoid_type_checks: OnceCell::new(),
        processed_transactions_detailed_counters: OnceCell::new(),
        timed_feature_override: OnceCell::new(),
        module_bundle_disallowed: AtomicBool::new(true),
    }
}

#[test]
fn knobs_have_defaults_until_they_are_set() {
    let knobs = knobs();
    assert_eq!(AptosVM::get_concurrency_level(&knobs), 1);
    assert_eq!(AptosVM::get_num_shards(&knobs), 1);
    assert_eq!(AptosVM::get_num_proof_reading_threads(&knobs), 32);
    assert!(AptosVM::get_paranoid_checks(&knobs));
    assert!(!AptosVM::get_processed_transactions_detailed_counters(&knobs));
    assert_eq!(AptosVM::get_timed_feature_override(&knobs), None);
    assert!(module_bundle_disallowed(&knobs));
}

#[test]
fn knobs_are_set_once() {
    let knobs = knobs();
    AptosVM::set_num_shards_once(&knobs, 8);
    AptosVM::set_num_shards_once(&knobs, 3);
    assert_eq!(AptosVM::get_num_shards(&knobs), 8);
    AptosVM::set_num_proof_reading_threads_once(&knobs, 1000);
    AptosVM::set_num_proof_reading_threads_once(&knobs, 5);
    assert_eq!(AptosVM::get_num_proof_reading_threads(&knobs), 256);
    AptosVM::set_paranoid_type_checks(&knobs, false);
    AptosVM::set_paranoid_type_checks(&knobs, true);
    assert!(!AptosVM::get_paranoid_checks(&knobs));
    AptosVM::set_processed_transactions_detailed_counters(&knobs);
    assert!(AptosVM::get_processed_transactions_detailed_counters(&knobs));
    AptosVM::set_timed_feature_override(&knobs, TimedFeatureOverride::Testing);
    AptosVM::set_timed_feature_override(&knobs, TimedFeatureOverride::Replay);
    assert_eq!(AptosVM::get_timed_feature_override(&knobs), Some(TimedFeatureOverride::Testing));
    allow_module_bundle_for_test(&knobs);
    assert!(!module_bundle_disallowed(&knobs));
}

#[test]
fn number_of_shards_is_at_least_one() {
    let knobs = knobs();
    AptosVM::set_num_shards_once(&knobs, 0);
    assert_eq!(AptosVM::get_num_shards(&knobs), 1);
    assert_eq!(num_shards_to_set(0), 1);
    assert_eq!(num_shards_to_set(1), 1);
    assert_eq!(num_shards_to_set(9), 9);
}

#[test]
fn concurrency_level_is_no_more_than_there_are_cpus() {
    let knobs = knobs();
    AptosVM::set_concurrency_level_once(&knobs, usize::MAX);
    let level = AptosVM::get_concurrency_level(&knobs);
    assert!(1 <= level && level < usize::MAX);
    AptosVM::set_concurrency_level_once(&knobs, 1);
    assert_eq!(AptosVM::get_concurrency_level(&knobs), level);
    let zero = knobs_with_level(0);
    assert_eq!(AptosVM::get_concurrency_level(&zero), 0);
    assert_eq!(concurrency_level_to_set(4, 8), 4);
    assert_eq!(concurrency_level_to_set(8, 8), 8);
    assert_eq!(concurrency_level_to_set(9, 8), 8);
    assert_eq!(num_proof_reading_threads_to_set(256), 256);
    assert_eq!(num_proof_reading_threads_to_set(257), 256);
    assert_eq!(num_proof_reading_threads_to_set(0), 0);
    assert_eq!(setting_or(Some(3), 1), 3);
    assert_eq!(setting_or(None, 1), 1);
}

fn knobs_with_level(level: usize) -> ProcessKnobs {
    let knobs = knobs();
    AptosVM::set_concurrency_level_once(&knobs, level);
    knobs
}

#[test]
fn features_answer_by_flag() {
    let none = Features::none();
    for flag in [
        FeatureFlag::TREAT_FRIEND_AS_PRIVATE,
        FeatureFlag::VM_BINARY_FORMAT_V6,
        FeatureFlag::VM_BINARY_FORMAT_V7,
        FeatureFlag::STRUCT_CONSTRUCTORS,
        FeatureFlag::CHARGE_INVARIANT_VIOLATION,
        FeatureFlag::STORAGE_DELETION_REFUND,
        FeatureFlag::SAFER_RESOURCE_GROUPS,
        FeatureFlag::SINGLE_SENDER_AUTHENTICATOR,
        FeatureFlag::SPONSORED_AUTOMATIC_ACCOUNT_CREATION,
        FeatureFlag::LIMIT_MAX_IDENTIFIER_LENGTH,
    ] {
        assert!(!none.is_enabled(flag));
    }
    let mut some = none;
    some.struct_constructors = true;
    some.vm_binary_format_v7 = true;
    some.storage_deletion_refund = true;
    assert!(some.is_enabled(FeatureFlag::STRUCT_CONSTRUCTORS));
    assert!(!some.is_enabled(FeatureFlag::SAFER_RESOURCE_GROUPS));
    assert!(some.is_storage_deletion_refund_enabled());
    assert!(!none.is_storage_deletion_refund_enabled());
    assert_eq!(none.max_binary_format_version(), 5);
    assert_eq!(some.max_binary_format_version(), 7);
    assert_eq!(none.deserializer_config().max_identifier_size, 65535);
    assert!(none.publish_compatibility().check_friend_linking);
    assert!(none.publish_compatibility().check_struct_layout);
    assert!(none.publish_compatibility().check_struct_and_pub_function_linking);
}

#[test]
fn types_compare_by_what_they_hold() {
    assert_eq!(AccountAddress::zero(), AccountAddress::new(0, 0));
    assert_eq!(AccountAddress::one(), AccountAddress::new(0, 1));
    assert_eq!(reserved_vm_address(), AccountAddress::zero());
    assert_eq!(new_block_event_key(), EventKey { creation_number: 3, account_address: AccountAddress::one() });
    let m = ModuleId::new(address(1), "coin".to_string());
    assert_eq!(m.address(), address(1));
    assert_eq!(m.name(), "coin");
    assert!(m.same(&m.duplicate()));
    assert!(!m.same(&ModuleId::new(address(2), "coin".to_string())));
    assert!(!m.same(&ModuleId::new(address(1), "Coin".to_string())));
    assert!(TypeTag::U8.same(&TypeTag::U8));
    assert!(!TypeTag::U8.same(&TypeTag::U16));
    assert!(TypeTag::Composite("vector<u8>".to_string()).same(&TypeTag::Composite("vector<u8>".to_string())));
    assert!(!TypeTag::Composite("vector<u8>".to_string()).same(&TypeTag::Composite("vector<u16>".to_string())));
    let tag = |params: Vec<TypeTag>| StructTag {
        address: address(1),
        module: "m".to_string(),
        name: "n".to_string(),
        type_params: params,
    };
    assert!(tag(vec![TypeTag::U8, TypeTag::Bool]).same(&tag(vec![TypeTag::U8, TypeTag::Bool])));
    assert!(!tag(vec![TypeTag::U8, TypeTag::Bool]).same(&tag(vec![TypeTag::U8, TypeTag::U8])));
    assert!(!tag(vec![TypeTag::U8]).same(&tag(vec![TypeTag::U8, TypeTag::U8])));
    let layout = MoveTypeLayout { encoding: vec![1] };
    assert!(layout.same(&MoveTypeLayout { encoding: vec![1] }));
    assert!(!layout.same(&MoveTypeLayout { encoding: vec![1, 0] }));
    assert!(has_duplicates(&vec![address(1), address(2), address(1)]));
    assert!(!has_duplicates(&vec![address(1), address(2), address(3)]));
    assert!(!has_duplicates(&vec![]));
    assert_eq!(SessionId::void(), SessionId::Void);
    assert_eq!(SessionId::genesis(HashValue::zero()), SessionId::Genesis { id: HashValue::zero() });
}

fn module(name: &str, deps: Vec<ModuleId>) -> CompiledModule {
    CompiledModule { self_id: ModuleId::new(address(0xa), name.to_string()), immediate_dependencies: deps }
}

#[test]
fn publish_checks() {
    let names = vec!["a".to_string(), "".to_string()];
    assert!(contains_name(&names, &"a".to_string()));
    assert!(contains_name(&names, &"".to_string()));
    assert!(!contains_name(&names, &"b".to_string()));
    let modules = vec![module("M", vec![]), module("N", vec![]), module("M", vec![])];
    let expected = vec!["N".to_string(), "M".to_string()];
    assert!(verify_module_registered(&modules, &expected, 0));
    assert!(verify_module_registered(&modules, &expected, 1));
    assert!(!verify_module_registered(&modules, &expected, 2));
    assert!(!verify_module_registered(&modules, &vec!["N".to_string()], 0));
    assert!(verify_all_expected_published(&modules, &expected));
    assert!(!verify_all_expected_published(&modules, &vec!["O".to_string()]));
    assert!(verify_all_expected_published(&modules, &vec![]));
    let dependent = module(
        "D",
        vec![ModuleId::new(address(1), "coin".to_string()), ModuleId::new(address(2), "math".to_string())],
    );
    assert!(verify_dependencies_allowed(&dependent, &None));
    let mut allowed = KeyedMap::new();
    allowed.insert(address(1), vec!["".to_string()]);
    allowed.insert(address(2), vec!["math".to_string()]);
    assert!(verify_dependencies_allowed(&dependent, &Some(allowed)));
    let mut allowed = KeyedMap::new();
    allowed.insert(address(1), vec!["".to_string()]);
    assert!(!verify_dependencies_allowed(&dependent, &Some(allowed)));
    let mut allowed = KeyedMap::new();
    allowed.insert(address(1), vec!["coin".to_string()]);
    allowed.insert(address(2), vec!["other".to_string()]);
    assert!(!verify_dependencies_allowed(&dependent, &Some(allowed)));
    assert!(verify_dependencies_allowed(&module("E", vec![]), &Some(KeyedMap::new())));
}

#[test]
fn module_bundle_probes() {
    let fine = ModuleProbe { failure: None, loaded: false };
    let loaded = ModuleProbe { failure: None, loaded: true };
    let broken = ModuleProbe { failure: Some(VMStatus::error(StatusCode::BAD_MAGIC, None)), loaded: true };
    assert_eq!(verify_module_bundle(&vec![]), Ok(()));
    assert_eq!(verify_module_bundle(&vec![fine.clone(), fine.clone()]), Ok(()));
    assert_eq!(
        verify_module_bundle(&vec![fine.clone(), loaded.clone(), broken.clone()]),
        Err(VMStatus::error(StatusCode::DUPLICATE_MODULE_NAME, None))
    );
    assert_eq!(
        verify_module_bundle(&vec![fine, broken, loaded]),
        Err(VMStatus::error(StatusCode::BAD_MAGIC, None))
    );
}

#[test]
fn verify_execution_mode() {
    let all = VerifyExecutionMode::verify_all();
    assert!(all.should_verify());
    assert!(!all.is_lazy_quit());
    assert!(!all.seen_error());
    assert!(all.txns_to_skip().is_empty());
    let mut except = VerifyExecutionMode::verify_except(vec![5, 3, 5]).set_lazy_quit(true);
    assert!(except.is_lazy_quit());
    assert_eq!(except.txns_to_skip(), BTreeSet::from([3, 5]));
    except.mark_seen_error();
    assert!(except.seen_error());
    assert!(except.is_lazy_quit());
    assert_eq!(except.txns_to_skip(), BTreeSet::from([3, 5]));
    let none = VerifyExecutionMode::NoVerify.set_lazy_quit(true);
    assert!(!none.should_verify());
    assert!(!none.is_lazy_quit());
    assert!(!none.seen_error());
    assert!(none.txns_to_skip().is_empty());
}

#[test]
fn state_compute_result() {
    let hash = |n| HashValue { high: 0, low: n };
    let result = StateComputeResult::new(
        hash(1),
        vec![hash(2)],
        10,
        vec![hash(3), hash(4)],
        7,
        Some(EpochState { epoch: 9 }),
        vec![TransactionStatus::Retry],
        vec![hash(5)],
        vec![],
    );
    assert_eq!(result.root_hash(), hash(1));
    assert_eq!(result.frozen_subtree_roots(), &vec![hash(2)]);
    assert_eq!(result.num_leaves(), 10);
    assert_eq!(result.version(), 9);
    assert_eq!(result.parent_frozen_subtree_roots(), &vec![hash(3), hash(4)]);
    assert_eq!(result.parent_num_leaves(), 7);
    assert_eq!(result.epoch_state(), &Some(EpochState { epoch: 9 }));
    assert!(result.has_reconfiguration());
    assert_eq!(result.compute_status(), &vec![TransactionStatus::Retry]);
    assert_eq!(result.transaction_info_hashes(), &vec![hash(5)]);
    assert!(result.reconfig_events().is_empty());
    let proof = result.extension_proof();
    assert_eq!(proof.frozen_subtree_roots, vec![hash(3), hash(4)]);
    assert_eq!(proof.num_leaves, 7);
    assert_eq!(proof.leaves, vec![hash(5)]);
    let dummy = StateComputeResult::new_dummy();
    assert_eq!(dummy.root_hash(), accumulator_placeholder_hash());
    assert_eq!(dummy.version(), 0);
    assert!(!dummy.has_reconfiguration());
    assert!(dummy.compute_status().is_empty());
    assert_eq!(dummy, StateComputeResult::new_dummy_with_root_hash(accumulator_placeholder_hash()));
    let mut placeholder = b"ACCUMULATOR_PLACEHOLDER_HASH".to_vec();
    placeholder.resize(32, 0);
    let mut held = accumulator_placeholder_hash().high.to_be_bytes().to_vec();
    held.extend(accumulator_placeholder_hash().low.to_be_bytes());
    assert_eq!(held, placeholder);
    let four = StateComputeResult::new_dummy_with_num_txns(4);
    assert_eq!(four.root_hash(), HashValue::zero());
    assert_eq!(
        four.compute_status(),
        &vec![TransactionStatus::Keep(ExecutionStatus::Success); 4]
    );
    let with = StateComputeResult::new_dummy_with_compute_status(vec![
        TransactionStatus::Keep(ExecutionStatus::Success);
        4
    ]);
    assert_eq!(with.compute_status().len(), 4);
    assert_eq!(with.root_hash(), accumulator_placeholder_hash());
    let one = StateComputeResult::new(hash(1), vec![], 1, vec![], 0, None, vec![], vec![], vec![]);
    assert_eq!(one.version(), 0);
}

#[test]
fn proof_reader() {
    let empty = ProofReader::new_empty();
    assert!(empty.get_proof(HashValue::zero()).is_none());
    let proof = SparseMerkleProofExt { leaf: None, siblings: vec![HashValue { high: 1, low: 1 }] };
    let mut proofs = KeyedMap::new();
    proofs.insert(HashValue { high: 0, low: 7 }, proof.clone());
    let reader = ProofReader::new(proofs);
    assert_eq!(reader.get_proof(HashValue { high: 0, low: 7 }), Some(&proof));
    assert_eq!(reader.get_proof(HashValue { high: 7, low: 0 }), None);
}

fn peers(n: u128) -> Vec<AccountAddress> {
    (0..n).map(address).collect()
}

#[test]
fn peers_are_taken_round_the_circle() {
    let signers = peers(5);
    assert_eq!(select_peers(&signers, 3, 4), vec![address(3), address(4), address(0), address(1)]);
    assert_eq!(select_peers(&signers, 0, 0), vec![]);
    assert_eq!(select_peers(&signers, 4, 7).len(), 7);
    assert_eq!(select_peers(&peers(1), 0, 3), vec![address(0); 3]);
    assert_eq!(advance(3, 4, 5), 2);
    assert_eq!(advance(0, 5, 5), 0);
    assert_eq!(advance(4, usize::MAX, 5), (4 + usize::MAX % 5) % 5);
    assert_eq!(advance(usize::MAX - 1, usize::MAX, usize::MAX), usize::MAX - 1);
}

#[test]
fn batch_requester_asks_until_the_retries_are_used_up() {
    let mut state = BatchRequesterState::new(peers(5), 2);
    let first = state.next_request_peers_from(3, 13).unwrap();
    assert_eq!(first, vec![address(3), address(4), address(0)]);
    assert_eq!(state.num_retries, 1);
    assert_eq!(state.next_index, 1);
    // The random number only places the first round.
    let second = state.next_request_peers_from(3, 99).unwrap();
    assert_eq!(second, vec![address(1), address(2), address(3)]);
    assert_eq!(state.next_index, 4);
    assert_eq!(state.next_request_peers_from(3, 0), None);
    assert_eq!(state.num_retries, 2);
    assert_eq!(state.next_index, 4);
    let mut state = BatchRequesterState::new(peers(5), 1);
    let drawn = state.next_request_peers(2).unwrap();
    assert_eq!(drawn.len(), 2);
    let start = drawn[0].low;
    assert!(start < 5);
    assert_eq!(drawn[1], address((start + 1) % 5));
    assert_eq!(state.next_request_peers(2), None);
    let mut none = BatchRequesterState::new(peers(2), 0);
    assert_eq!(none.next_request_peers(1), None);
}

#[test]
fn batch_requester_serves_the_batch_or_the_failure() {
    let state = BatchRequesterState::new(peers(1), 0);
    assert_eq!(state.serve_request(Some(vec![])), Ok(vec![]));
    let state = BatchRequesterState::new(peers(1), 0);
    assert_eq!(state.serve_request(None), Err(ExecutorError::CouldNotGetData));
}

#[test]
fn batch_request_runs_from_tick_to_tick() {
    let requester = BatchRequester::new(3, address(9), 2, 2, 500, 5000, ());
    assert_eq!(requester.epoch, 3);
    assert_eq!(requester.my_peer_id, address(9));
    assert_eq!(requester.retry_interval_ms, 500);
    assert_eq!(requester.rpc_timeout_ms, 5000);
    let mut request = requester.request_batch(peers(4));
    assert_eq!(request.pending, 0);
    assert!(matches!(request.on_tick(), OnTick::Ask(p) if p.len() == 2));
    assert_eq!(request.pending, 2);
    assert!(!request.on_response(false));
    assert_eq!(request.pending, 1);
    assert!(matches!(request.on_tick(), OnTick::Ask(p) if p.len() == 2));
    assert_eq!(request.pending, 3);
    assert!(matches!(request.on_tick(), OnTick::Wait));
    assert!(!request.on_response(false));
    assert!(!request.on_response(false));
    assert!(!request.on_response(false));
    assert_eq!(request.pending, 0);
    assert!(!request.on_response(false));
    assert_eq!(request.pending, 0);
    assert!(matches!(request.on_tick(), OnTick::GiveUp));
    let mut answered = requester.request_batch(peers(4));
    assert!(matches!(answered.on_tick(), OnTick::Ask(_)));
    assert!(answered.on_response(true));
}

fn field_element(limbs: usize, value: u8) -> Vec<u8> {
    let mut bytes = vec![0u8; limbs];
    bytes[0] = value;
    bytes
}

fn context(objs: Vec<Element>, gas_balance: u64) -> SafeNativeContext {
    SafeNativeContext {
        algebra: AlgebraContext { bytes_used: 0, objs },
        gas_balance,
        bls12_381_structures: true,
        bn254_structures: true,
        gas_parameters: SquareGasParameters {
            algebra_ark_bls12_381_fr_square: 1,
            algebra_ark_bls12_381_fq12_square: 2,
            algebra_ark_bn254_fr_square: 3,
            algebra_ark_bn254_fq_square: 4,
            algebra_ark_bn254_fq2_square: 5,
            algebra_ark_bn254_fq12_square: 6,
        },
    }
}

#[test]
fn squares_in_every_field() {
    let cases = [
        (Structure::BLS12381Fr, 32),
        (Structure::BLS12381Fq12, 576),
        (Structure::BN254(BN254Structure::BN254Fr), 32),
        (Structure::BN254(BN254Structure::BN254Fq), 32),
        (Structure::BN254(BN254Structure::BN254Fq2), 64),
        (Structure::BN254(BN254Structure::BN254Fq12), 384),
    ];
    for (structure, size) in cases {
        assert_eq!(square_element(structure, &field_element(size, 3)), Some(field_element(size, 9)));
        assert_eq!(square_element(structure, &field_element(size, 0)), Some(field_element(size, 0)));
        assert_eq!(square_element(structure, &field_element(size, 1)), Some(field_element(size, 1)));
        // What is not the encoding of an element has no square.
        assert_eq!(square_element(structure, &vec![1, 2, 3]), None);
        assert_eq!(square_element(structure, &vec![0xff; size]), None);
    }
    assert_eq!(square_element(Structure::BLS12381G1, &field_element(48, 1)), None);
    assert_eq!(sqr_internal_bn254(BN254Structure::BN254G1, &field_element(32, 1)), None);
    assert_eq!(
        sqr_internal_bn254(BN254Structure::BN254Fr, &field_element(32, 12)),
        Some(field_element(32, 144))
    );
}

#[test]
fn sqr_internal_stores_the_square_and_charges_for_it() {
    let fr = Structure::BLS12381Fr;
    let mut ctx = context(
        vec![
            Element { structure: fr, bytes: field_element(32, 5) },
            Element { structure: Structure::BN254(BN254Structure::BN254Fq2), bytes: field_element(64, 4) },
        ],
        10,
    );
    assert_eq!(sqr_internal(&mut ctx, Some(fr), vec![0]), Ok(2));
    assert_eq!(ctx.gas_balance, 9);
    assert_eq!(ctx.algebra.bytes_used, 32);
    assert_eq!(ctx.algebra.objs.len(), 3);
    assert_eq!(ctx.algebra.objs[2], Element { structure: fr, bytes: field_element(32, 25) });
    assert_eq!(ctx.algebra.objs[0], Element { structure: fr, bytes: field_element(32, 5) });
    // The last argument names the element.
    let fq2 = Structure::BN254(BN254Structure::BN254Fq2);
    assert_eq!(sqr_internal(&mut ctx, Some(fq2), vec![0, 1]), Ok(3));
    assert_eq!(ctx.gas_balance, 4);
    assert_eq!(ctx.algebra.bytes_used, 96);
    assert_eq!(ctx.algebra.objs[3], Element { structure: fq2, bytes: field_element(64, 16) });
}

#[test]
fn sqr_internal_fails_without_touching_the_store() {
    let fr = Structure::BLS12381Fr;
    let not_implemented = Err(SafeNativeError::Abort { abort_code: MOVE_ABORT_CODE_NOT_IMPLEMENTED });
    let objs = || vec![Element { structure: fr, bytes: field_element(32, 5) }];
    let mut ctx = context(objs(), 10);
    assert_eq!(sqr_internal(&mut ctx, None, vec![0]), not_implemented);
    assert_eq!(sqr_internal(&mut ctx, Some(Structure::BLS12381G1), vec![0]), not_implemented);
    assert_eq!(
        sqr_internal(&mut ctx, Some(Structure::BN254(BN254Structure::BN254Gt)), vec![0]),
        not_implemented
    );
    ctx.bls12_381_structures = false;
    assert_eq!(sqr_internal(&mut ctx, Some(fr), vec![0]), not_implemented);
    ctx.bls12_381_structures = true;
    ctx.bn254_structures = false;
    assert_eq!(
        sqr_internal(&mut ctx, Some(Structure::BN254(BN254Structure::BN254Fr)), vec![0]),
        not_implemented
    );
    assert_eq!(sqr_internal(&mut ctx, Some(fr), vec![]), Err(SafeNativeError::InvariantViolation));
    assert_eq!(sqr_internal(&mut ctx, Some(fr), vec![1]), Err(SafeNativeError::InvariantViolation));
    assert_eq!(
        sqr_internal(&mut ctx, Some(Structure::BLS12381Fq12), vec![0]),
        Err(SafeNativeError::InvariantViolation)
    );
    assert_eq!(ctx.gas_balance, 10);
    ctx.gas_balance = 0;
    assert_eq!(sqr_internal(&mut ctx, Some(fr), vec![0]), Err(SafeNativeError::OutOfGas));
    ctx.gas_balance = 10;
    ctx.algebra.bytes_used = MEMORY_LIMIT_IN_BYTES - 31;
    assert_eq!(
        sqr_internal(&mut ctx, Some(fr), vec![0]),
        Err(SafeNativeError::Abort { abort_code: E_TOO_MUCH_MEMORY_USED })
    );
    assert_eq!(ctx.algebra.objs, objs());
    ctx.algebra.bytes_used = MEMORY_LIMIT_IN_BYTES - 32;
    assert_eq!(sqr_internal(&mut ctx, Some(fr), vec![0]), Ok(1));
    assert_eq!(ctx.algebra.bytes_used, MEMORY_LIMIT_IN_BYTES);
    let mut broken = context(vec![Element { structure: fr, bytes: vec![1] }], 10);
    assert_eq!(sqr_internal(&mut broken, Some(fr), vec![0]), Err(SafeNativeError::InvariantViolation));
    assert_eq!(MOVE_ABORT_CODE_NOT_IMPLEMENTED, 0x0C_0001);
    assert_eq!(E_TOO_MUCH_MEMORY_USED, 0x09_0003);
    assert_eq!(MEMORY_LIMIT_IN_BYTES, 1 << 20);
}

#[test]
fn transaction_metadata_session_ids() {
    let txn = SignedTransaction {
        sender: address(1),
        sequence_number: 2,
        payload: TransactionPayload::EntryFunction(EntryFunction {
            module: ModuleId::new(address(1), "m".to_string()),
            function: "f".to_string(),
            ty_args: vec![],
            args: vec![],
        }),
        max_gas_amount: 3,
        gas_unit_price: 4,
        expiration_timestamp_secs: 5,
        chain_id: 6,
        authenticator: TransactionAuthenticator::FeePayer {
            secondary_signer_addresses: vec![address(7)],
            fee_payer_address: address(8),
        },
        raw_txn_bytes_len: 9,
    };
    let data = TransactionMetadata::new(&txn);
    assert_eq!(data.senders(), vec![address(1), address(7)]);
    assert_eq!(data.fee_payer, Some(address(8)));
    assert_eq!(data.expiration_timestamp_secs, 5);
    assert_eq!(data.chain_id, 6);
    assert_eq!(txn.authenticator.secondary_signer_addresses(), vec![address(7)]);
    assert_eq!(txn.authenticator.fee_payer_address(), Some(address(8)));
    assert_eq!(TransactionAuthenticator::Ed25519.fee_payer_address(), None);
    assert_eq!(
        SessionId::prologue_meta(&data),
        SessionId::PrologueMeta { sender: address(1), sequence_number: 2 }
    );
    assert_eq!(
        SessionId::txn_meta(&data),
        SessionId::TxnMeta { sender: address(1), sequence_number: 2 }
    );
    assert_eq!(
        SessionId::epilogue_meta(&data),
        SessionId::EpilogueMeta { sender: address(1), sequence_number: 2 }
    );
}

fn digest(low: u128) -> HashValue {
    HashValue { high: 0, low }
}

/// An executor that writes down what it is asked to do, and fails where it
/// is told to.
struct Scribe {
    fail_first_step: bool,
    fail_second_step: bool,
    log: RefCell<Vec<String>>,
}

impl Scribe {
    fn new(fail_first_step: bool, fail_second_step: bool) -> Self {
        Scribe { fail_first_step, fail_second_step, log: RefCell::new(vec![]) }
    }

    fn note(&self, line: String) {
        self.log.borrow_mut().push(line);
    }

    fn log(&self) -> Vec<String> {
        self.log.borrow().clone()
    }
}

impl ChunkExecutorTrait for Scribe {
    type TransactionListWithProof = Vec<u8>;
    type TransactionOutputListWithProof = Vec<u16>;
    type LedgerInfoWithSignatures = u64;
    type Transaction = u8;
    type Error = String;

    fn enqueue_chunk_by_execution(
        &self,
        txn_list_with_proof: Vec<u8>,
        verified_target_li: &u64,
        epoch_change_li: Option<&u64>,
    ) -> Result<(), String> {
        self.note(format!(
            "execute {:?} {} {:?}",
            txn_list_with_proof, verified_target_li, epoch_change_li
        ));
        if self.fail_first_step {
            Err("not enqueued".to_string())
        } else {
            Ok(())
        }
    }

    fn enqueue_chunk_by_transaction_outputs(
        &self,
        txn_output_list_with_proof: Vec<u16>,
        verified_target_li: &u64,
        epoch_change_li: Option<&u64>,
    ) -> Result<(), String> {
        self.note(format!(
            "apply {:?} {} {:?}",
            txn_output_list_with_proof, verified_target_li, epoch_change_li
        ));
        if self.fail_first_step {
            Err("not enqueued".to_string())
        } else {
            Ok(())
        }
    }

    fn update_ledger(&self) -> Result<(), String> {
        self.note("update".to_string());
        if self.fail_second_step {
            Err("no ledger".to_string())
        } else {
            Ok(())
        }
    }

    fn commit_chunk(&self) -> Result<ChunkCommitNotification<u8>, String> {
        Err("nothing to commit".to_string())
    }

    fn reset(&self) -> Result<(), String> {
        Ok(())
    }

    fn finish(&self) {}
}

impl BlockExecutorTrait for Scribe {
    type ExecutableBlock = (u128, Vec<u8>);
    type StateCheckpointOutput = usize;
    type BlockExecutorConfigFromOnchain = bool;
    type LedgerInfoWithSignatures = u64;
    type Error = String;

    fn committed_block_id(&self) -> HashValue {
        digest(0)
    }

    fn reset(&self) -> Result<(), String> {
        Ok(())
    }

    fn block_id(block: &(u128, Vec<u8>)) -> HashValue {
        digest(block.0)
    }

    fn execute_and_state_checkpoint(
        &self,
        block: (u128, Vec<u8>),
        parent_block_id: HashValue,
        onchain_config: bool,
    ) -> Result<usize, String> {
        self.note(format!("checkpoint {:?} {:?} {}", block, parent_block_id, onchain_config));
        if self.fail_first_step {
            Err("no checkpoint".to_string())
        } else {
            Ok(block.1.len())
        }
    }

    fn ledger_update(
        &self,
        block_id: HashValue,
        parent_block_id: HashValue,
        state_checkpoint_output: usize,
    ) -> Result<StateComputeResult, String> {
        self.note(format!(
            "ledger {:?} {:?} {}",
            block_id, parent_block_id, state_checkpoint_output
        ));
        if self.fail_second_step {
            Err("no ledger".to_string())
        } else {
            Ok(StateComputeResult::new_dummy_with_root_hash(block_id))
        }
    }

    fn commit_blocks_ext(
        &self,
        block_ids: Vec<HashValue>,
        ledger_info_with_sigs: u64,
        save_state_snapshots: bool,
    ) -> Result<(), String> {
        self.note(format!(
            "commit {:?} {} {}",
            block_ids, ledger_info_with_sigs, save_state_snapshots
        ));
        if self.fail_first_step {
            Err("not committed".to_string())
        } else {
            Ok(())
        }
    }

    fn finish(&self) {}
}

#[test]
fn chunk_is_enqueued_and_then_the_ledger_updated() {
    let scribe = Scribe::new(false, false);
    assert_eq!(scribe.execute_chunk(vec![1, 2], &7, Some(&8)), Ok(()));
    assert_eq!(scribe.apply_chunk(vec![300], &9, None), Ok(()));
    assert_eq!(
        scribe.log(),
        vec!["execute [1, 2] 7 Some(8)", "update", "apply [300] 9 None", "update"]
    );
    // A chunk that is not enqueued leaves the ledger alone.
    let scribe = Scribe::new(true, false);
    assert_eq!(scribe.execute_chunk(vec![1], &7, None), Err("not enqueued".to_string()));
    assert_eq!(scribe.apply_chunk(vec![2], &7, None), Err("not enqueued".to_string()));
    assert_eq!(scribe.log(), vec!["execute [1] 7 None", "apply [2] 7 None"]);
    // The failure of the second step is the failure of the whole.
    let scribe = Scribe::new(false, true);
    assert_eq!(scribe.execute_chunk(vec![1], &7, None), Err("no ledger".to_string()));
    assert_eq!(scribe.apply_chunk(vec![2], &7, None), Err("no ledger".to_string()));
}

#[test]
fn block_is_executed_to_the_checkpoint_and_then_the_ledger() {
    let parent = digest(5);
    let scribe = Scribe::new(false, false);
    let result = scribe.execute_block((6, vec![1, 2, 3]), parent, true).unwrap();
    assert_eq!(result.root_hash(), digest(6));
    assert_eq!(
        scribe.log(),
        vec![
            format!("checkpoint (6, [1, 2, 3]) {:?} true", parent),
            format!("ledger {:?} {:?} 3", digest(6), parent),
        ]
    );
    let scribe = Scribe::new(true, false);
    assert_eq!(scribe.execute_block((6, vec![]), parent, false).err(), Some("no checkpoint".to_string()));
    assert_eq!(scribe.log().len(), 1);
    let scribe = Scribe::new(false, true);
    assert_eq!(scribe.execute_block((6, vec![]), parent, false).err(), Some("no ledger".to_string()));
    assert_eq!(scribe.log().len(), 2);
}

#[test]
fn commit_of_blocks_saves_snapshots_of_the_state() {
    let scribe = Scribe::new(false, false);
    assert_eq!(scribe.commit_blocks(vec![digest(1), digest(2)], 12), Ok(()));
    assert_eq!(
        scribe.log(),
        vec![format!("commit {:?} 12 true", vec![digest(1), digest(2)])]
    );
    let scribe = Scribe::new(true, false);
    assert_eq!(scribe.commit_blocks(vec![], 12), Err("not committed".to_string()));
}
