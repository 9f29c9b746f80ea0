//! The configuration that decides how transactions run: feature flags and
//! the version of the gas rules, fixed for the length of a block.

use vstd::prelude::*;

verus! {

/// A flag that switches a behaviour of the execution core on.
#[allow(non_camel_case_types)]
#[derive(Clone, Copy, Debug, PartialEq, Eq, Structural)]
pub enum FeatureFlag {
    TREAT_FRIEND_AS_PRIVATE,
    VM_BINARY_FORMAT_V6,
    VM_BINARY_FORMAT_V7,
    STRUCT_CONSTRUCTORS,
    CHARGE_INVARIANT_VIOLATION,
    STORAGE_DELETION_REFUND,
    SAFER_RESOURCE_GROUPS,
    SINGLE_SENDER_AUTHENTICATOR,
    SPONSORED_AUTOMATIC_ACCOUNT_CREATION,
    LIMIT_MAX_IDENTIFIER_LENGTH,
}

/// Which flags are on.
#[derive(Clone, Copy, Debug, PartialEq, Eq, Structural)]
pub struct Features {
    pub treat_friend_as_private: bool,
    pub vm_binary_format_v6: bool,
    pub vm_binary_format_v7: bool,
    pub struct_constructors: bool,
    pub charge_invariant_violation: bool,
    pub storage_deletion_refund: bool,
    pub safer_resource_groups: bool,
    pub single_sender_authenticator: bool,
    pub sponsored_automatic_account_creation: bool,
    pub limit_max_identifier_length: bool,
}

/// The longest identifier that a module may hold once identifiers are
/// limited.
pub const IDENTIFIER_SIZE_MAX: u64 = 255;

/// The longest identifier that a module may hold otherwise.
pub const LEGACY_IDENTIFIER_SIZE_MAX: u64 = 65535;

/// What a module is decoded under: the newest format accepted and the
/// longest identifier accepted.
#[derive(Clone, Copy, Debug, PartialEq, Eq, Structural)]
pub struct DeserializerConfig {
    pub max_binary_format_version: u32,
    pub max_identifier_size: u64,
}

/// What an update of a module has to keep of the module it replaces.
#[derive(Clone, Copy, Debug, PartialEq, Eq, Structural)]
pub struct Compatibility {
    pub check_struct_and_pub_function_linking: bool,
    pub check_struct_layout: bool,
    pub check_friend_linking: bool,
}

impl Features {
    /// No flag is on.
    pub open spec fn spec_none() -> Features {
        Features {
            treat_friend_as_private: false,
            vm_binary_format_v6: false,
            vm_binary_format_v7: false,
            struct_constructors: false,
            charge_invariant_violation: false,
            storage_deletion_refund: false,
            safer_resource_groups: false,
            single_sender_authenticator: false,
            sponsored_automatic_account_creation: false,
            limit_max_identifier_length: false,
        }
    }

    #[verifier::when_used_as_spec(spec_none)]
    pub fn none() -> (result: Features)
        ensures
            result == Self::spec_none(),
    {
        Features {
            treat_friend_as_private: false,
            vm_binary_format_v6: false,
            vm_binary_format_v7: false,
            struct_constructors: false,
            charge_invariant_violation: false,
            storage_deletion_refund: false,
            safer_resource_groups: false,
            single_sender_authenticator: false,
            sponsored_automatic_account_creation: false,
            limit_max_identifier_length: false,
        }
    }

    pub open spec fn spec_is_enabled(&self, flag: FeatureFlag) -> bool {
        match flag {
            FeatureFlag::TREAT_FRIEND_AS_PRIVATE => self.treat_friend_as_private,
            FeatureFlag::VM_BINARY_FORMAT_V6 => self.vm_binary_format_v6,
            FeatureFlag::VM_BINARY_FORMAT_V7 => self.vm_binary_format_v7,
            FeatureFlag::STRUCT_CONSTRUCTORS => self.struct_constructors,
            FeatureFlag::CHARGE_INVARIANT_VIOLATION => self.charge_invariant_violation,
            FeatureFlag::STORAGE_DELETION_REFUND => self.storage_deletion_refund,
            FeatureFlag::SAFER_RESOURCE_GROUPS => self.safer_resource_groups,
            FeatureFlag::SINGLE_SENDER_AUTHENTICATOR => self.single_sender_authenticator,
            FeatureFlag::SPONSORED_AUTOMATIC_ACCOUNT_CREATION => self.sponsored_automatic_account_creation,
            FeatureFlag::LIMIT_MAX_IDENTIFIER_LENGTH => self.limit_max_identifier_length,
        }
    }

    /// Whether `flag` is on.
    #[verifier::when_used_as_spec(spec_is_enabled)]
    pub fn is_enabled(&self, flag: FeatureFlag) -> (result: bool)
        ensures
            result == self.spec_is_enabled(flag),
    {
        match flag {
            FeatureFlag::TREAT_FRIEND_AS_PRIVATE => self.treat_friend_as_private,
            FeatureFlag::VM_BINARY_FORMAT_V6 => self.vm_binary_format_v6,
            FeatureFlag::VM_BINARY_FORMAT_V7 => self.vm_binary_format_v7,
            FeatureFlag::STRUCT_CONSTRUCTORS => self.struct_constructors,
            FeatureFlag::CHARGE_INVARIANT_VIOLATION => self.charge_invariant_violation,
            FeatureFlag::STORAGE_DELETION_REFUND => self.storage_deletion_refund,
            FeatureFlag::SAFER_RESOURCE_GROUPS => self.safer_resource_groups,
            FeatureFlag::SINGLE_SENDER_AUTHENTICATOR => self.single_sender_authenticator,
            FeatureFlag::SPONSORED_AUTOMATIC_ACCOUNT_CREATION => self.sponsored_automatic_account_creation,
            FeatureFlag::LIMIT_MAX_IDENTIFIER_LENGTH => self.limit_max_identifier_length,
        }
    }

    pub open spec fn spec_is_storage_deletion_refund_enabled(&self) -> bool {
        self.storage_deletion_refund
    }

    #[verifier::when_used_as_spec(spec_is_storage_deletion_refund_enabled)]
    pub fn is_storage_deletion_refund_enabled(&self) -> (result: bool)
        ensures
            result == self.spec_is_storage_deletion_refund_enabled(),
    {
        self.storage_deletion_refund
    }

    /// The newest binary format that the flags accept.
    pub open spec fn spec_max_binary_format_version(&self) -> u32 {
        if self.vm_binary_format_v7 {
            7
        } else if self.vm_binary_format_v6 {
            6
        } else {
            5
        }
    }

    #[verifier::when_used_as_spec(spec_max_binary_format_version)]
    pub fn max_binary_format_version(&self) -> (result: u32)
        ensures
            result == self.spec_max_binary_format_version(),
    {
        if self.vm_binary_format_v7 {
            7
        } else if self.vm_binary_format_v6 {
            6
        } else {
            5
        }
    }

    /// What a published module is decoded under.
    pub open spec fn spec_deserializer_config(&self) -> DeserializerConfig {
        DeserializerConfig {
            max_binary_format_version: self.spec_max_binary_format_version(),
            max_identifier_size: if self.limit_max_identifier_length {
                IDENTIFIER_SIZE_MAX
            } else {
                LEGACY_IDENTIFIER_SIZE_MAX
            },
        }
    }

    #[verifier::when_used_as_spec(spec_deserializer_config)]
    pub fn deserializer_config(&self) -> (result: DeserializerConfig)
        ensures
            result == self.spec_deserializer_config(),
    {
        DeserializerConfig {
            max_binary_format_version: self.max_binary_format_version(),
            max_identifier_size: if self.limit_max_identifier_length {
                IDENTIFIER_SIZE_MAX
            } else {
                LEGACY_IDENTIFIER_SIZE_MAX
            },
        }
    }

    /// What a published module has to keep of the one it replaces:
    /// everything, friends included unless friends are treated as private.
    pub open spec fn spec_publish_compatibility(&self) -> Compatibility {
        Compatibility {
            check_struct_and_pub_function_linking: true,
            check_struct_layout: true,
            check_friend_linking: !self.treat_friend_as_private,
        }
    }

    #[verifier::when_used_as_spec(spec_publish_compatibility)]
    pub fn publish_compatibility(&self) -> (result: Compatibility)
        ensures
            result == self.spec_publish_compatibility(),
    {
        Compatibility {
            check_struct_and_pub_function_linking: true,
            check_struct_layout: true,
            check_friend_linking: !self.treat_friend_as_private,
        }
    }
}

} // verus!
