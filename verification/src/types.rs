//! Addresses, names and keys that the rest of the crate is built from.

use crate::keyed_map::MapKey;
use vstd::prelude::*;

verus! {

/// An account address: 32 bytes, held as two halves, high half first.
#[derive(Clone, Copy, Debug, PartialEq, Eq, Hash, Structural)]
pub struct AccountAddress {
    pub high: u128,
    pub low: u128,
}

impl AccountAddress {
    pub open spec fn spec_new(high: u128, low: u128) -> Self {
        AccountAddress { high, low }
    }

    #[verifier::when_used_as_spec(spec_new)]
    pub fn new(high: u128, low: u128) -> (result: Self)
        ensures
            result == Self::spec_new(high, low),
    {
        AccountAddress { high, low }
    }

    /// The address `0x0`.
    pub open spec fn spec_zero() -> Self {
        AccountAddress { high: 0, low: 0 }
    }

    /// The address `0x0`, as which the VM itself signs.
    #[verifier::when_used_as_spec(spec_zero)]
    pub fn zero() -> (result: Self)
        ensures
            result == Self::spec_zero(),
    {
        AccountAddress { high: 0, low: 0 }
    }

    /// The address `0x1`.
    pub open spec fn spec_one() -> Self {
        AccountAddress { high: 0, low: 1 }
    }

    /// The address `0x1`, under which the framework's modules live.
    #[verifier::when_used_as_spec(spec_one)]
    pub fn one() -> (result: Self)
        ensures
            result == Self::spec_one(),
    {
        AccountAddress { high: 0, low: 1 }
    }
}

/// The address as which the VM signs block prologues and genesis scripts.
pub open spec fn spec_reserved_vm_address() -> AccountAddress {
    AccountAddress::spec_zero()
}

#[verifier::when_used_as_spec(spec_reserved_vm_address)]
pub fn reserved_vm_address() -> (result: AccountAddress)
    ensures
        result == spec_reserved_vm_address(),
{
    AccountAddress::zero()
}

/// A 32-byte digest, held as two halves.
#[derive(Clone, Copy, Debug, PartialEq, Eq, Hash, Structural)]
pub struct HashValue {
    pub high: u128,
    pub low: u128,
}

impl HashValue {
    pub open spec fn spec_zero() -> Self {
        HashValue { high: 0, low: 0 }
    }

    #[verifier::when_used_as_spec(spec_zero)]
    pub fn zero() -> (result: Self)
        ensures
            result == Self::spec_zero(),
    {
        HashValue { high: 0, low: 0 }
    }
}

/// The name of a module within the account that holds it.
#[derive(Clone, Debug, PartialEq, Eq)]
pub struct ModuleId {
    pub address: AccountAddress,
    pub name: String,
}

/// A module's address and the characters of its name.
pub struct ModuleIdView {
    pub address: AccountAddress,
    pub name: Seq<char>,
}

impl View for ModuleId {
    type V = ModuleIdView;

    open spec fn view(&self) -> ModuleIdView {
        ModuleIdView { address: self.address, name: self.name@ }
    }
}

impl ModuleId {
    pub fn new(address: AccountAddress, name: String) -> (result: Self)
        ensures
            result.address == address,
            result.name == name,
    {
        ModuleId { address, name }
    }

    pub fn address(&self) -> (result: AccountAddress)
        ensures
            result == self.address,
    {
        self.address
    }

    pub fn name(&self) -> (result: &String)
        ensures
            *result == self.name,
    {
        &self.name
    }

    /// Whether two module ids name the same module.
    pub fn same(&self, other: &ModuleId) -> (result: bool)
        ensures
            result == (self@ == other@),
    {
        self.address == other.address && self.name == other.name
    }

    pub fn duplicate(&self) -> (result: ModuleId)
        ensures
            result == *self,
    {
        ModuleId { address: self.address, name: self.name.clone() }
    }
}

/// The key of a slot in the state: the raw bytes that address it.
#[derive(Clone, Debug, PartialEq, Eq)]
pub struct StateKey {
    pub bytes: Vec<u8>,
}

impl View for StateKey {
    type V = Seq<u8>;

    open spec fn view(&self) -> Seq<u8> {
        self.bytes@
    }
}

impl StateKey {
    pub fn raw(bytes: Vec<u8>) -> (result: Self)
        ensures
            result@ == bytes@,
    {
        StateKey { bytes }
    }

    pub fn duplicate(&self) -> (result: StateKey)
        ensures
            result@ == self@,
    {
        StateKey { bytes: self.bytes.clone() }
    }
}

impl MapKey for StateKey {
    fn key_eq(&self, other: &Self) -> (result: bool) {
        let result = self.bytes == other.bytes;
        proof {
            assert(result ==> self.bytes@ =~= other.bytes@);
        }
        result
    }
}

/// The tag of a Move type. A vector or struct type stands by its canonical
/// name, which is all the crate needs to tell two types apart.
#[derive(Clone, Debug, PartialEq, Eq)]
pub enum TypeTag {
    Bool,
    U8,
    U16,
    U32,
    U64,
    U128,
    U256,
    Address,
    Signer,
    Composite(String),
}

/// A type tag as a mathematical value.
pub enum TypeTagView {
    Bool,
    U8,
    U16,
    U32,
    U64,
    U128,
    U256,
    Address,
    Signer,
    Composite(Seq<char>),
}

impl View for TypeTag {
    type V = TypeTagView;

    open spec fn view(&self) -> TypeTagView {
        match self {
            TypeTag::Bool => TypeTagView::Bool,
            TypeTag::U8 => TypeTagView::U8,
            TypeTag::U16 => TypeTagView::U16,
            TypeTag::U32 => TypeTagView::U32,
            TypeTag::U64 => TypeTagView::U64,
            TypeTag::U128 => TypeTagView::U128,
            TypeTag::U256 => TypeTagView::U256,
            TypeTag::Address => TypeTagView::Address,
            TypeTag::Signer => TypeTagView::Signer,
            TypeTag::Composite(name) => TypeTagView::Composite(name@),
        }
    }
}

impl TypeTag {
    /// Whether two type tags are the same type.
    pub fn same(&self, other: &TypeTag) -> (result: bool)
        ensures
            result == (self@ == other@),
    {
        match (self, other) {
            (TypeTag::Bool, TypeTag::Bool) => true,
            (TypeTag::U8, TypeTag::U8) => true,
            (TypeTag::U16, TypeTag::U16) => true,
            (TypeTag::U32, TypeTag::U32) => true,
            (TypeTag::U64, TypeTag::U64) => true,
            (TypeTag::U128, TypeTag::U128) => true,
            (TypeTag::U256, TypeTag::U256) => true,
            (TypeTag::Address, TypeTag::Address) => true,
            (TypeTag::Signer, TypeTag::Signer) => true,
            (TypeTag::Composite(x), TypeTag::Composite(y)) => *x == *y,
            _ => false,
        }
    }
}

/// The tag of a struct type: where it is declared and what its type
/// parameters are bound to.
#[derive(Clone, Debug, PartialEq, Eq)]
pub struct StructTag {
    pub address: AccountAddress,
    pub module: String,
    pub name: String,
    pub type_params: Vec<TypeTag>,
}

/// A struct tag as a mathematical value.
pub struct StructTagView {
    pub address: AccountAddress,
    pub module: Seq<char>,
    pub name: Seq<char>,
    pub type_params: Seq<TypeTagView>,
}

impl View for StructTag {
    type V = StructTagView;

    open spec fn view(&self) -> StructTagView {
        StructTagView {
            address: self.address,
            module: self.module@,
            name: self.name@,
            type_params: Seq::new(self.type_params@.len(), |i: int| self.type_params@[i]@),
        }
    }
}

impl StructTag {
    /// Whether two struct tags are the same type.
    pub fn same(&self, other: &StructTag) -> (result: bool)
        ensures
            result == (self@ == other@),
    {
        if !(self.address == other.address && self.module == other.module && self.name
            == other.name) {
            return false;
        }
        if self.type_params.len() != other.type_params.len() {
            proof {
                assert(self@.type_params.len() != other@.type_params.len());
            }
            return false;
        }
        let mut i: usize = 0;
        while i < self.type_params.len()
            invariant
                i <= self.type_params@.len(),
                self.type_params@.len() == other.type_params@.len(),
                forall|j: int| 0 <= j < i ==> self.type_params@[j]@ == other.type_params@[j]@,
            decreases self.type_params@.len() - i,
        {
            if !self.type_params[i].same(&other.type_params[i]) {
                proof {
                    assert(self@.type_params[i as int] == self.type_params@[i as int]@);
                    assert(other@.type_params[i as int] == other.type_params@[i as int]@);
                }
                return false;
            }
            i += 1;
        }
        proof {
            assert(self@.type_params =~= other@.type_params);
        }
        true
    }
}

impl MapKey for StructTag {
    fn key_eq(&self, other: &Self) -> (result: bool) {
        self.same(other)
    }
}

/// The key under which an account files one stream of its events.
#[derive(Clone, Copy, Debug, PartialEq, Eq, Hash, Structural)]
pub struct EventKey {
    pub creation_number: u64,
    pub account_address: AccountAddress,
}

/// The key of the events that announce a new epoch.
pub open spec fn spec_new_epoch_event_key() -> EventKey {
    EventKey { creation_number: 2, account_address: AccountAddress::spec_one() }
}

#[verifier::when_used_as_spec(spec_new_epoch_event_key)]
pub fn new_epoch_event_key() -> (result: EventKey)
    ensures
        result == spec_new_epoch_event_key(),
{
    EventKey { creation_number: 2, account_address: AccountAddress::one() }
}

/// The key of the events that announce a new block.
pub open spec fn spec_new_block_event_key() -> EventKey {
    EventKey { creation_number: 3, account_address: AccountAddress::spec_one() }
}

#[verifier::when_used_as_spec(spec_new_block_event_key)]
pub fn new_block_event_key() -> (result: EventKey)
    ensures
        result == spec_new_block_event_key(),
{
    EventKey { creation_number: 3, account_address: AccountAddress::one() }
}

/// An event that a transaction emitted. Events of the older kind are filed
/// under a key; those of the newer kind carry only their type.
#[derive(Clone, Debug, PartialEq, Eq)]
pub struct ContractEvent {
    pub key: Option<EventKey>,
    pub sequence_number: u64,
    pub type_tag: TypeTag,
    pub event_data: Vec<u8>,
}

impl ContractEvent {
    /// The key the event is filed under, if it has one.
    pub fn event_key(&self) -> (result: Option<EventKey>)
        ensures
            result == self.key,
    {
        self.key
    }
}

/// How the bytes of a value are laid out, in its canonical encoding. The
/// crate only ever asks whether two layouts are the same.
#[derive(Clone, Debug, PartialEq, Eq)]
pub struct MoveTypeLayout {
    pub encoding: Vec<u8>,
}

impl View for MoveTypeLayout {
    type V = Seq<u8>;

    open spec fn view(&self) -> Seq<u8> {
        self.encoding@
    }
}

impl MoveTypeLayout {
    /// Whether two layouts are the same.
    pub fn same(&self, other: &MoveTypeLayout) -> (result: bool)
        ensures
            result == (self@ == other@),
    {
        let result = self.encoding == other.encoding;
        proof {
            assert(result ==> self.encoding@ =~= other.encoding@);
        }
        result
    }
}

} // verus!
