//! Squaring an element of one of the algebraic structures that on-chain
//! code can compute in. Elements live in a store of the transaction and are
//! named by handles; an element is held in its canonical compressed encoding.

use ark_ff::Field;
use ark_serialize::{CanonicalDeserialize, CanonicalSerialize};
use vstd::prelude::*;

verus! {

/// A structure over the curve BN254.
#[derive(Clone, Copy, Debug, PartialEq, Eq, Structural)]
pub enum BN254Structure {
    BN254Fr,
    BN254Fq,
    BN254Fq2,
    BN254Fq12,
    BN254G1,
    BN254G2,
    BN254Gt,
}

/// An algebraic structure.
#[derive(Clone, Copy, Debug, PartialEq, Eq, Structural)]
pub enum Structure {
    BLS12381Fq12,
    BLS12381G1,
    BLS12381G2,
    BLS12381Gt,
    BLS12381Fr,
    BN254(BN254Structure),
}

/// Why a native function has no result.
#[derive(Clone, Copy, Debug, PartialEq, Eq, Structural)]
pub enum SafeNativeError {
    /// The function aborts the transaction with this code.
    Abort { abort_code: u64 },
    /// The runtime handed over what it never should.
    InvariantViolation,
    /// The gas does not suffice.
    OutOfGas,
}

/// The abort code of an operation that a structure does not offer.
pub const MOVE_ABORT_CODE_NOT_IMPLEMENTED: u64 = 0x0C_0001;

/// The abort code of a store of elements that is full.
pub const E_TOO_MUCH_MEMORY_USED: u64 = 0x09_0003;

/// How many bytes of elements a transaction may hold.
pub const MEMORY_LIMIT_IN_BYTES: usize = 1048576;

/// An element of a structure, in its canonical compressed encoding.
#[derive(Clone, Debug, PartialEq, Eq)]
pub struct Element {
    pub structure: Structure,
    pub bytes: Vec<u8>,
}

/// The elements that a transaction holds, by handle.
pub struct AlgebraContext {
    pub bytes_used: usize,
    pub objs: Vec<Element>,
}

/// What squaring costs, by structure.
#[derive(Clone, Copy, Debug, PartialEq, Eq, Structural)]
pub struct SquareGasParameters {
    pub algebra_ark_bls12_381_fr_square: u64,
    pub algebra_ark_bls12_381_fq12_square: u64,
    pub algebra_ark_bn254_fr_square: u64,
    pub algebra_ark_bn254_fq_square: u64,
    pub algebra_ark_bn254_fq2_square: u64,
    pub algebra_ark_bn254_fq12_square: u64,
}

/// What a native function runs in.
pub struct SafeNativeContext {
    pub algebra: AlgebraContext,
    /// The gas that is left.
    pub gas_balance: u64,
    /// Whether the structures over BLS12-381 are enabled.
    pub bls12_381_structures: bool,
    /// Whether the structures over BN254 are enabled.
    pub bn254_structures: bool,
    pub gas_parameters: SquareGasParameters,
}

/// The encoding of the square of the element of the scalar field of
/// BLS12-381 that `element` encodes, if it encodes one.
pub uninterp spec fn squared_bls12381_fr(element: Seq<u8>) -> Option<Seq<u8>>;

/// The same in the field Fq12 of BLS12-381.
pub uninterp spec fn squared_bls12381_fq12(element: Seq<u8>) -> Option<Seq<u8>>;

/// The same in the scalar field of BN254.
pub uninterp spec fn squared_bn254_fr(element: Seq<u8>) -> Option<Seq<u8>>;

/// The same in the base field of BN254.
pub uninterp spec fn squared_bn254_fq(element: Seq<u8>) -> Option<Seq<u8>>;

/// The same in the field Fq2 of BN254.
pub uninterp spec fn squared_bn254_fq2(element: Seq<u8>) -> Option<Seq<u8>>;

/// The same in the field Fq12 of BN254.
pub uninterp spec fn squared_bn254_fq12(element: Seq<u8>) -> Option<Seq<u8>>;

/// The bytes as a mathematical value, where there are any.
pub open spec fn bytes_view(bytes: Option<Vec<u8>>) -> Option<Seq<u8>> {
    match bytes {
        Some(bytes) => Some(bytes@),
        None => None,
    }
}

/// Decodes an element of `ark_bls12_381::Fr`, calls `Field::square` on
/// it, and encodes the result.
#[verifier::external_body]
fn square_bls12381_fr(element: &Vec<u8>) -> (result: Option<Vec<u8>>)
    ensures
        bytes_view(result) == squared_bls12381_fr(element@),
{
    let value = ark_bls12_381::Fr::deserialize_compressed(element.as_slice()).ok()?;
    let mut encoded = Vec::new();
    value.square().serialize_compressed(&mut encoded).ok()?;
    Some(encoded)
}

/// Decodes an element of `ark_bls12_381::Fq12`, calls `Field::square` on
/// it, and encodes the result.
#[verifier::external_body]
fn square_bls12381_fq12(element: &Vec<u8>) -> (result: Option<Vec<u8>>)
    ensures
        bytes_view(result) == squared_bls12381_fq12(element@),
{
    let value = ark_bls12_381::Fq12::deserialize_compressed(element.as_slice()).ok()?;
    let mut encoded = Vec::new();
    value.square().serialize_compressed(&mut encoded).ok()?;
    Some(encoded)
}

/// Decodes an element of `ark_bn254::Fr`, calls `Field::square` on it,
/// and encodes the result.
#[verifier::external_body]
fn square_bn254_fr(element: &Vec<u8>) -> (result: Option<Vec<u8>>)
    ensures
        bytes_view(result) == squared_bn254_fr(element@),
{
    let value = ark_bn254::Fr::deserialize_compressed(element.as_slice()).ok()?;
    let mut encoded = Vec::new();
    value.square().serialize_compressed(&mut encoded).ok()?;
    Some(encoded)
}

/// Decodes an element of `ark_bn254::Fq`, calls `Field::square` on it,
/// and encodes the result.
#[verifier::external_body]
fn square_bn254_fq(element: &Vec<u8>) -> (result: Option<Vec<u8>>)
    ensures
        bytes_view(result) == squared_bn254_fq(element@),
{
    let value = ark_bn254::Fq::deserialize_compressed(element.as_slice()).ok()?;
    let mut encoded = Vec::new();
    value.square().serialize_compressed(&mut encoded).ok()?;
    Some(encoded)
}

/// Decodes an element of `ark_bn254::Fq2`, calls `Field::square` on it,
/// and encodes the result.
#[verifier::external_body]
fn square_bn254_fq2(element: &Vec<u8>) -> (result: Option<Vec<u8>>)
    ensures
        bytes_view(result) == squared_bn254_fq2(element@),
{
    let value = ark_bn254::Fq2::deserialize_compressed(element.as_slice()).ok()?;
    let mut encoded = Vec::new();
    value.square().serialize_compressed(&mut encoded).ok()?;
    Some(encoded)
}

/// Decodes an element of `ark_bn254::Fq12`, calls `Field::square` on it,
/// and encodes the result.
#[verifier::external_body]
fn square_bn254_fq12(element: &Vec<u8>) -> (result: Option<Vec<u8>>)
    ensures
        bytes_view(result) == squared_bn254_fq12(element@),
{
    let value = ark_bn254::Fq12::deserialize_compressed(element.as_slice()).ok()?;
    let mut encoded = Vec::new();
    value.square().serialize_compressed(&mut encoded).ok()?;
    Some(encoded)
}

/// Whether the structures of the family of `structure` are enabled.
pub open spec fn structure_enabled(
    bls12_381_structures: bool,
    bn254_structures: bool,
    structure: Structure,
) -> bool {
    match structure {
        Structure::BN254(_) => bn254_structures,
        _ => bls12_381_structures,
    }
}

/// What squaring costs in `structure`, if `structure` offers it: a field
/// does, a group does not.
pub open spec fn square_cost(gas: SquareGasParameters, structure: Structure) -> Option<u64> {
    match structure {
        Structure::BLS12381Fr => Some(gas.algebra_ark_bls12_381_fr_square),
        Structure::BLS12381Fq12 => Some(gas.algebra_ark_bls12_381_fq12_square),
        Structure::BN254(BN254Structure::BN254Fr) => Some(gas.algebra_ark_bn254_fr_square),
        Structure::BN254(BN254Structure::BN254Fq) => Some(gas.algebra_ark_bn254_fq_square),
        Structure::BN254(BN254Structure::BN254Fq2) => Some(gas.algebra_ark_bn254_fq2_square),
        Structure::BN254(BN254Structure::BN254Fq12) => Some(gas.algebra_ark_bn254_fq12_square),
        _ => None,
    }
}

/// How many bytes an element of `structure` takes in the store: the
/// number of limbs of eight bytes of its coordinates.
pub open spec fn element_size(structure: Structure) -> usize {
    match structure {
        Structure::BLS12381Fr => 32,
        Structure::BLS12381Fq12 => 576,
        Structure::BN254(BN254Structure::BN254Fr) => 32,
        Structure::BN254(BN254Structure::BN254Fq) => 32,
        Structure::BN254(BN254Structure::BN254Fq2) => 64,
        Structure::BN254(BN254Structure::BN254Fq12) => 384,
        _ => 0,
    }
}

/// The encoding of the square of the element of `structure` that
/// `element` encodes.
pub open spec fn squared(structure: Structure, element: Seq<u8>) -> Option<Seq<u8>> {
    match structure {
        Structure::BLS12381Fr => squared_bls12381_fr(element),
        Structure::BLS12381Fq12 => squared_bls12381_fq12(element),
        Structure::BN254(BN254Structure::BN254Fr) => squared_bn254_fr(element),
        Structure::BN254(BN254Structure::BN254Fq) => squared_bn254_fq(element),
        Structure::BN254(BN254Structure::BN254Fq2) => squared_bn254_fq2(element),
        Structure::BN254(BN254Structure::BN254Fq12) => squared_bn254_fq12(element),
        _ => None,
    }
}

/// What `sqr_internal` gives, and what it leaves of the store and of the
/// gas, given the square of the element where one is computed.
///
/// A structure that is not known, whose family is not enabled, or that
/// does not offer squaring aborts as not implemented. Without a handle as
/// argument, or with a handle that names no element of the structure, the
/// runtime is at fault. Then the cost is charged; then an element that does
/// not decode is the runtime's fault too. The square goes into the store
/// unless the store would hold more than it may.
pub open spec fn sqr_outcome(
    bytes_used: usize,
    objs: Seq<Element>,
    gas_balance: u64,
    bls12_381_structures: bool,
    bn254_structures: bool,
    gas_parameters: SquareGasParameters,
    structure_opt: Option<Structure>,
    args: Seq<u64>,
) -> Result<u64, SafeNativeError> {
    match structure_opt {
        None => Err(SafeNativeError::Abort { abort_code: MOVE_ABORT_CODE_NOT_IMPLEMENTED }),
        Some(structure) => if !structure_enabled(bls12_381_structures, bn254_structures, structure) {
            Err(SafeNativeError::Abort { abort_code: MOVE_ABORT_CODE_NOT_IMPLEMENTED })
        } else {
            match square_cost(gas_parameters, structure) {
                None => Err(SafeNativeError::Abort { abort_code: MOVE_ABORT_CODE_NOT_IMPLEMENTED }),
                Some(cost) => if args.len() == 0 {
                    Err(SafeNativeError::InvariantViolation)
                } else if args.last() >= objs.len() || objs[args.last() as int].structure
                    != structure {
                    Err(SafeNativeError::InvariantViolation)
                } else if gas_balance < cost {
                    Err(SafeNativeError::OutOfGas)
                } else {
                    match squared(structure, objs[args.last() as int].bytes@) {
                        None => Err(SafeNativeError::InvariantViolation),
                        Some(_) => if bytes_used + element_size(structure)
                            > MEMORY_LIMIT_IN_BYTES {
                            Err(SafeNativeError::Abort { abort_code: E_TOO_MUCH_MEMORY_USED })
                        } else {
                            Ok(objs.len() as u64)
                        },
                    }
                },
            }
        },
    }
}

/// The square of the element of `structure` that `element` encodes.
pub fn square_element(structure: Structure, element: &Vec<u8>) -> (result: Option<Vec<u8>>)
    ensures
        bytes_view(result) == squared(structure, element@),
{
    match structure {
        Structure::BLS12381Fr => square_bls12381_fr(element),
        Structure::BLS12381Fq12 => square_bls12381_fq12(element),
        Structure::BN254(structure) => sqr_internal_bn254(structure, element),
        _ => None,
    }
}

/// The square of the element of the structure over BN254 that `element`
/// encodes.
pub fn sqr_internal_bn254(structure: BN254Structure, element: &Vec<u8>) -> (result: Option<Vec<u8>>)
    ensures
        bytes_view(result) == squared(Structure::BN254(structure), element@),
{
    match structure {
        BN254Structure::BN254Fr => square_bn254_fr(element),
        BN254Structure::BN254Fq => square_bn254_fq(element),
        BN254Structure::BN254Fq2 => square_bn254_fq2(element),
        BN254Structure::BN254Fq12 => square_bn254_fq12(element),
        _ => None,
    }
}

/// What squaring costs in `structure`, if `structure` offers it.
pub fn cost_of_square(gas: &SquareGasParameters, structure: Structure) -> (result: Option<u64>)
    ensures
        result == square_cost(*gas, structure),
{
    match structure {
        Structure::BLS12381Fr => Some(gas.algebra_ark_bls12_381_fr_square),
        Structure::BLS12381Fq12 => Some(gas.algebra_ark_bls12_381_fq12_square),
        Structure::BN254(BN254Structure::BN254Fr) => Some(gas.algebra_ark_bn254_fr_square),
        Structure::BN254(BN254Structure::BN254Fq) => Some(gas.algebra_ark_bn254_fq_square),
        Structure::BN254(BN254Structure::BN254Fq2) => Some(gas.algebra_ark_bn254_fq2_square),
        Structure::BN254(BN254Structure::BN254Fq12) => Some(gas.algebra_ark_bn254_fq12_square),
        _ => None,
    }
}

/// How many bytes an element of `structure` takes in the store.
pub fn size_of_element(structure: Structure) -> (result: usize)
    ensures
        result == element_size(structure),
{
    match structure {
        Structure::BLS12381Fr => 32,
        Structure::BLS12381Fq12 => 576,
        Structure::BN254(BN254Structure::BN254Fr) => 32,
        Structure::BN254(BN254Structure::BN254Fq) => 32,
        Structure::BN254(BN254Structure::BN254Fq2) => 64,
        Structure::BN254(BN254Structure::BN254Fq12) => 384,
        _ => 0,
    }
}

/// Squares the element that the last argument names, in the structure
/// given, and returns the handle of the square. On success the cost is gone
/// from the gas and the square is the last element of the store; the
/// elements that were there are untouched.
pub fn sqr_internal(
    context: &mut SafeNativeContext,
    structure_opt: Option<Structure>,
    args: Vec<u64>,
) -> (result: Result<u64, SafeNativeError>)
    requires
        old(context).algebra.objs@.len() < u64::MAX,
        old(context).algebra.bytes_used <= MEMORY_LIMIT_IN_BYTES,
    ensures
        result == sqr_outcome(
            old(context).algebra.bytes_used,
            old(context).algebra.objs@,
            old(context).gas_balance,
            old(context).bls12_381_structures,
            old(context).bn254_structures,
            old(context).gas_parameters,
            structure_opt,
            args@,
        ),
        final(context).bls12_381_structures == old(context).bls12_381_structures,
        final(context).bn254_structures == old(context).bn254_structures,
        final(context).gas_parameters == old(context).gas_parameters,
        final(context).algebra.bytes_used <= MEMORY_LIMIT_IN_BYTES,
        match result {
            Ok(handle) => {
                let structure = structure_opt.unwrap();
                let element = old(context).algebra.objs@[args@.last() as int];
                &&& final(context).gas_balance == old(context).gas_balance - square_cost(
                    old(context).gas_parameters,
                    structure,
                ).unwrap()
                &&& final(context).algebra.bytes_used == old(context).algebra.bytes_used
                    + element_size(structure)
                &&& final(context).algebra.objs@.len() == old(context).algebra.objs@.len() + 1
                &&& final(context).algebra.objs@.subrange(0, handle as int) == old(
                    context,
                ).algebra.objs@
                &&& final(context).algebra.objs@[handle as int].structure == structure
                &&& Some(final(context).algebra.objs@[handle as int].bytes@) == squared(
                    structure,
                    element.bytes@,
                )
            },
            Err(_) => final(context).algebra == old(context).algebra,
        },
{
    let structure = match structure_opt {
        Some(structure) => structure,
        None => {
            return Err(SafeNativeError::Abort { abort_code: MOVE_ABORT_CODE_NOT_IMPLEMENTED });
        },
    };
    let enabled = match structure {
        Structure::BN254(_) => context.bn254_structures,
        _ => context.bls12_381_structures,
    };
    if !enabled {
        return Err(SafeNativeError::Abort { abort_code: MOVE_ABORT_CODE_NOT_IMPLEMENTED });
    }
    let cost = match cost_of_square(&context.gas_parameters, structure) {
        Some(cost) => cost,
        None => {
            return Err(SafeNativeError::Abort { abort_code: MOVE_ABORT_CODE_NOT_IMPLEMENTED });
        },
    };
    if args.len() == 0 {
        return Err(SafeNativeError::InvariantViolation);
    }
    let handle = args[args.len() - 1];
    if handle >= context.algebra.objs.len() as u64 {
        return Err(SafeNativeError::InvariantViolation);
    }
    let place = handle as usize;
    if context.algebra.objs[place].structure != structure {
        return Err(SafeNativeError::InvariantViolation);
    }
    if context.gas_balance < cost {
        return Err(SafeNativeError::OutOfGas);
    }
    context.gas_balance = context.gas_balance - cost;
    let square = match square_element(structure, &context.algebra.objs[place].bytes) {
        Some(square) => square,
        None => {
            return Err(SafeNativeError::InvariantViolation);
        },
    };
    let size = size_of_element(structure);
    if size > MEMORY_LIMIT_IN_BYTES - context.algebra.bytes_used {
        return Err(SafeNativeError::Abort { abort_code: E_TOO_MUCH_MEMORY_USED });
    }
    context.algebra.bytes_used = context.algebra.bytes_used + size;
    let new_handle = context.algebra.objs.len() as u64;
    context.algebra.objs.push(Element { structure, bytes: square });
    proof {
        assert(context.algebra.objs@.subrange(0, new_handle as int) =~= old(context).algebra.objs@);
    }
    Ok(new_handle)
}

} // verus!
