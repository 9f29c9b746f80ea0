//! The canonical encoding of the plain values that the crate reads and
//! writes as bytes, by way of the `bcs` crate.

use vstd::prelude::*;

verus! {

/// The error type of the `bcs` crate.
#[verifier::external_type_specification]
#[verifier::external_body]
pub struct ExBcsError(bcs::Error);

/// The `n` low bytes of `value`, the lowest first.
pub open spec fn le_bytes(value: nat, n: nat) -> Seq<u8>
    decreases n,
{
    if n == 0 {
        Seq::empty()
    } else {
        seq![(value % 256) as u8] + le_bytes(value / 256, (n - 1) as nat)
    }
}

/// The byte string that `bcs::from_bytes::<Vec<u8>>` decodes `input` to,
/// if it decodes it.
pub uninterp spec fn decoded_bytes(input: Seq<u8>) -> Option<Seq<u8>>;

/// Calls `bcs::to_bytes` on a `u128`. The encoding never fails and is the
/// sixteen bytes of the value, the lowest first.
#[verifier::external_body]
fn bcs_u128_to_bytes(value: u128) -> (result: Result<Vec<u8>, bcs::Error>)
    ensures
        match result {
            Ok(bytes) => bytes@ == le_bytes(value as nat, 16),
            Err(_) => false,
        },
{
    bcs::to_bytes(&value)
}

/// Calls `bcs::from_bytes` for a `u128`. It decodes exactly the inputs of
/// sixteen bytes, as the value whose bytes they are, the lowest first.
#[verifier::external_body]
fn bcs_u128_from_bytes(bytes: &Vec<u8>) -> (result: Result<u128, bcs::Error>)
    ensures
        match result {
            Ok(value) => bytes@ == le_bytes(value as nat, 16),
            Err(_) => bytes@.len() != 16,
        },
{
    bcs::from_bytes::<u128>(bytes.as_slice())
}

/// Calls `bcs::to_bytes` on a byte string. The empty byte string encodes
/// as its length alone, the single byte zero.
#[verifier::external_body]
fn bcs_bytes_to_bytes(value: &Vec<u8>) -> (result: Result<Vec<u8>, bcs::Error>)
    ensures
        match result {
            Ok(bytes) => value@.len() == 0 ==> bytes@ == seq![0u8],
            Err(_) => value@.len() != 0,
        },
{
    bcs::to_bytes::<Vec<u8>>(value)
}

/// Calls `bcs::from_bytes` for a byte string.
#[verifier::external_body]
fn bcs_bytes_from_bytes(bytes: &Vec<u8>) -> (result: Result<Vec<u8>, bcs::Error>)
    ensures
        match result {
            Ok(decoded) => decoded_bytes(bytes@) == Some(decoded@),
            Err(_) => decoded_bytes(bytes@) is None,
        },
{
    bcs::from_bytes::<Vec<u8>>(bytes.as_slice())
}

/// 256 to the `n`: the first value that `n` bytes cannot hold.
pub open spec fn byte_bound(n: nat) -> nat
    decreases n,
{
    if n == 0 {
        1
    } else {
        256 * byte_bound((n - 1) as nat)
    }
}

/// Two values that `n` bytes can hold and that have the same `n` low bytes
/// are the same value.
pub proof fn lemma_le_bytes_injective(a: nat, b: nat, n: nat)
    requires
        le_bytes(a, n) == le_bytes(b, n),
        a < byte_bound(n),
        b < byte_bound(n),
    ensures
        a == b,
    decreases n,
{
    if n == 0 {
    } else {
        let ta = le_bytes(a / 256, (n - 1) as nat);
        let tb = le_bytes(b / 256, (n - 1) as nat);
        assert(le_bytes(a, n)[0] == (a % 256) as u8);
        assert(le_bytes(b, n)[0] == (b % 256) as u8);
        assert(a % 256 == b % 256);
        assert(ta =~= le_bytes(a, n).subrange(1, le_bytes(a, n).len() as int));
        assert(tb =~= le_bytes(b, n).subrange(1, le_bytes(b, n).len() as int));
        assert(a / 256 < byte_bound((n - 1) as nat)) by (nonlinear_arith)
            requires
                a < 256 * byte_bound((n - 1) as nat),
        ;
        assert(b / 256 < byte_bound((n - 1) as nat)) by (nonlinear_arith)
            requires
                b < 256 * byte_bound((n - 1) as nat),
        ;
        lemma_le_bytes_injective(a / 256, b / 256, (n - 1) as nat);
        assert(a == 256 * (a / 256) + a % 256);
        assert(b == 256 * (b / 256) + b % 256);
    }
}

/// Every value of 128 bits is below 256 to the sixteenth.
pub proof fn lemma_u128_bound(v: u128)
    ensures
        (v as nat) < byte_bound(16),
{
    reveal_with_fuel(byte_bound, 17);
    assert(byte_bound(16) == 0x1_0000_0000_0000_0000_0000_0000_0000_0000);
}

/// The `n` low bytes of a value are `n` bytes.
pub proof fn lemma_le_bytes_len(value: nat, n: nat)
    ensures
        le_bytes(value, n).len() == n,
    decreases n,
{
    if n > 0 {
        lemma_le_bytes_len(value / 256, (n - 1) as nat);
    }
}

/// The value of an aggregator that `bytes` encode, if they encode one.
pub open spec fn aggregator_value(bytes: Seq<u8>) -> Option<u128> {
    if exists|v: u128| bytes == le_bytes(v as nat, 16) {
        Some(choose|v: u128| bytes == le_bytes(v as nat, 16))
    } else {
        None
    }
}

/// The encoding of a value encodes that value.
pub proof fn lemma_value_of_encoding(v: u128)
    ensures
        aggregator_value(le_bytes(v as nat, 16)) == Some(v),
{
    let found = choose|w: u128| le_bytes(v as nat, 16) == le_bytes(w as nat, 16);
    lemma_u128_bound(v);
    lemma_u128_bound(found);
    lemma_le_bytes_injective(v as nat, found as nat, 16);
}

/// The encoding of an aggregator's value.
pub fn serialize(value: u128) -> (result: Vec<u8>)
    ensures
        result@ == le_bytes(value as nat, 16),
{
    match bcs_u128_to_bytes(value) {
        Ok(bytes) => bytes,
        Err(_) => Vec::new(),
    }
}

/// The value of an aggregator, if `bytes` is the encoding of one: the
/// encodings are the strings of sixteen bytes.
pub fn deserialize(bytes: &Vec<u8>) -> (result: Option<u128>)
    ensures
        result == aggregator_value(bytes@),
        result is None <==> bytes@.len() != 16,
{
    match bcs_u128_from_bytes(bytes) {
        Ok(value) => {
            proof {
                lemma_value_of_encoding(value);
                lemma_le_bytes_len(value as nat, 16);
            }
            Some(value)
        },
        Err(_) => {
            proof {
                assert forall|v: u128| bytes@ != le_bytes(v as nat, 16) by {
                    lemma_le_bytes_len(v as nat, 16);
                }
            }
            None
        },
    }
}

/// The encoding of the empty byte string.
pub open spec fn encoded_empty_bytes() -> Seq<u8> {
    seq![0u8]
}

/// The encoding of the empty byte string, which stands for a payload that
/// was not provided.
pub fn empty_bytes_to_bcs() -> (result: Vec<u8>)
    ensures
        result@ == encoded_empty_bytes(),
{
    let empty: Vec<u8> = Vec::new();
    match bcs_bytes_to_bytes(&empty) {
        Ok(bytes) => bytes,
        Err(_) => Vec::new(),
    }
}

/// The byte string that `bytes` encodes, if it encodes one.
pub fn bytes_from_bcs(bytes: &Vec<u8>) -> (result: Option<Vec<u8>>)
    ensures
        match result {
            Some(decoded) => decoded_bytes(bytes@) == Some(decoded@),
            None => decoded_bytes(bytes@) is None,
        },
{
    match bcs_bytes_from_bytes(bytes) {
        Ok(decoded) => Some(decoded),
        Err(_) => None,
    }
}

} // verus!
