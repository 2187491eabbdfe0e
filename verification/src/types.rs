//! Data model: attribute groups, the on-chain record types, and their
//! mathematical views.

use vstd::prelude::*;

verus! {

/// Decoding failure: a packed byte blob whose length does not match the
/// fixed field count of the group it claims to encode.
#[derive(Debug, Clone, PartialEq, Eq)]
pub enum DecodeError {
    InvalidLength { expected: usize, actual: usize },
}

/// Global safety properties of a module, packed in this fixed field order.
#[derive(Debug, Clone, Copy, PartialEq, Eq, Structural)]
pub struct JsonGlobalAttributes {
    pub reentrancy_protection: bool,
    pub important_data_validation: bool,
    pub input_manipulation_protection: bool,
    pub emits_events: bool,
    pub module_owner_cant_rug: bool,
    pub upgradeable: bool,
    pub pausable: bool,
    pub licensed_module: bool,
    pub erc7562_storage_compliant: bool,
    pub uninstall_clean_up: bool,
}

/// Validator-role classification flags, packed in this fixed field order.
#[derive(Debug, Clone, Copy, PartialEq, Eq, Structural)]
pub struct JsonValidatorAttributes {
    pub unscoped_validator: bool,
    pub recovery_module: bool,
    pub multiplexer: bool,
}

/// Executor-role classification flags, packed in this fixed field order.
#[derive(Debug, Clone, Copy, PartialEq, Eq, Structural)]
pub struct JsonExecutorAttributes {
    pub handles_user_assets: bool,
    pub no_delegate_call: bool,
    pub triggered_by_account: bool,
    pub triggered_by_relayer: bool,
    pub deterministic_execution: bool,
}

/// Fallback-role classification flags, packed in this fixed field order.
#[derive(Debug, Clone, Copy, PartialEq, Eq, Structural)]
pub struct JsonFallbackAttributes {
    pub compatibility_feature: bool,
    pub callbacks: bool,
}

/// Hook-role classification flags, packed in this fixed field order.
#[derive(Debug, Clone, Copy, PartialEq, Eq, Structural)]
pub struct JsonHookAttributes {
    pub default_allow: bool,
    pub default_deny: bool,
    pub access_control: bool,
    pub module_control: bool,
    pub user_control: bool,
}

/// External-protocol dependency flags, packed in this fixed field order,
/// plus the ordered list of ERC dependency identifiers (which is carried
/// beside the packed bytes, never inside them).
#[derive(Debug, Clone, PartialEq, Eq)]
pub struct JsonExternalDependency {
    pub oracle: bool,
    pub bridges: bool,
    pub dexs: bool,
    pub vaults: bool,
    pub registry: bool,
    pub lending: bool,
    pub liquidity_provision: bool,
    pub governance: bool,
    pub privacy: bool,
    pub zk_provers: bool,
    pub erc_deps: Vec<u16>,
}

/// Hex parsing failure: an odd number of digits, or a character that is
/// not a hex digit.
#[derive(Debug, Clone, Copy, PartialEq, Eq)]
pub enum HexError {
    OddLength,
    InvalidDigit,
}

/// A 20-byte account address.
#[derive(Debug, Clone, Copy, PartialEq, Eq)]
pub struct Address {
    pub bytes: [u8; 20],
}

impl Address {
    /// Wraps the 20 raw address bytes.
    pub fn new(bytes: [u8; 20]) -> (r: Address)
        ensures
            r@ == bytes@,
    {
        Address { bytes }
    }
}

impl View for Address {
    type V = Seq<u8>;

    open spec fn view(&self) -> Seq<u8> {
        self.bytes@
    }
}

/// The structural role a module plays in the modular-account framework.
/// The numeric codes (given by [`spec_module_type_code`]) are part of the
/// wire format and stable forever: never renumber.
#[derive(Debug, Clone, Copy, PartialEq, Eq, Structural)]
pub enum ModuleType {
    Unspecified,
    Validator,
    Executor,
    Fallback,
    Hook,
}

/// The stable numeric code of a module type.
pub open spec fn spec_module_type_code(t: ModuleType) -> nat {
    match t {
        ModuleType::Unspecified => 0,
        ModuleType::Validator => 1,
        ModuleType::Executor => 2,
        ModuleType::Fallback => 3,
        ModuleType::Hook => 4,
    }
}

impl ModuleType {
    /// The stable numeric code of this module type.
    pub fn code(&self) -> (r: u8)
        ensures
            r as nat == spec_module_type_code(*self),
    {
        match self {
            ModuleType::Unspecified => 0,
            ModuleType::Validator => 1,
            ModuleType::Executor => 2,
            ModuleType::Fallback => 3,
            ModuleType::Hook => 4,
        }
    }
}

/// The kind of signature a summary carries.  The numeric codes (given by
/// [`spec_signature_type_code`]) are part of the wire format and stable
/// forever.
#[derive(Debug, Clone, Copy, PartialEq, Eq, Structural)]
pub enum SignatureType {
    Unspecified,
    Secp256k1,
    Erc1271,
}

/// The stable numeric code of a signature type.
pub open spec fn spec_signature_type_code(t: SignatureType) -> nat {
    match t {
        SignatureType::Unspecified => 0,
        SignatureType::Secp256k1 => 1,
        SignatureType::Erc1271 => 2,
    }
}

impl SignatureType {
    /// The stable numeric code of this signature type.
    pub fn code(&self) -> (r: u8)
        ensures
            r as nat == spec_signature_type_code(*self),
    {
        match self {
            SignatureType::Unspecified => 0,
            SignatureType::Secp256k1 => 1,
            SignatureType::Erc1271 => 2,
        }
    }
}

/// One per-module-type entry of a [`ModuleAttributes`] record: the module
/// type tag and the packed attribute bytes of that group.
#[derive(Debug, Clone, PartialEq, Eq)]
pub struct ModuleTypeAttributes {
    pub module_type: ModuleType,
    pub encoded_attributes: Vec<u8>,
}

/// Mathematical model of [`ModuleTypeAttributes`].
#[verifier::ext_equal]
pub struct ModuleTypeAttributesView {
    pub module_type: ModuleType,
    pub encoded_attributes: Seq<u8>,
}

impl View for ModuleTypeAttributes {
    type V = ModuleTypeAttributesView;

    open spec fn view(&self) -> ModuleTypeAttributesView {
        ModuleTypeAttributesView {
            module_type: self.module_type,
            encoded_attributes: self.encoded_attributes@,
        }
    }
}

/// The per-module record that groups the packed attribute bytes: address,
/// global packed bytes, the four per-type entries (fixed order Validator,
/// Executor, Fallback, Hook), external-dependency packed bytes, and the
/// ERC dependency identifiers.
#[derive(Debug, Clone, PartialEq, Eq)]
pub struct ModuleAttributes {
    pub module_address: Address,
    pub packed_attributes: Vec<u8>,
    pub type_attributes: Vec<ModuleTypeAttributes>,
    pub packed_external_dependency: Vec<u8>,
    pub erc_deps: Vec<u16>,
}

impl ModuleAttributes {
    /// The record's structural invariant: exactly four per-type entries,
    /// tagged Validator, Executor, Fallback, Hook in that fixed order.
    /// The builder establishes it for every record it produces.
    pub open spec fn wf(&self) -> bool {
        &&& self.type_attributes@.len() == 4
        &&& self.type_attributes@[0].module_type == ModuleType::Validator
        &&& self.type_attributes@[1].module_type == ModuleType::Executor
        &&& self.type_attributes@[2].module_type == ModuleType::Fallback
        &&& self.type_attributes@[3].module_type == ModuleType::Hook
    }
}

/// Mathematical model of [`ModuleAttributes`].
#[verifier::ext_equal]
pub struct ModuleAttributesView {
    pub module_address: Seq<u8>,
    pub packed_attributes: Seq<u8>,
    pub type_attributes: Seq<ModuleTypeAttributesView>,
    pub packed_external_dependency: Seq<u8>,
    pub erc_deps: Seq<u16>,
}

impl View for ModuleAttributes {
    type V = ModuleAttributesView;

    open spec fn view(&self) -> ModuleAttributesView {
        ModuleAttributesView {
            module_address: self.module_address@,
            packed_attributes: self.packed_attributes@,
            type_attributes: self.type_attributes@.map_values(|t: ModuleTypeAttributes| t@),
            packed_external_dependency: self.packed_external_dependency@,
            erc_deps: self.erc_deps@,
        }
    }
}

/// Auditor metadata carried through verbatim: name, URI and author list.
#[derive(Debug, Clone, PartialEq, Eq)]
pub struct Auditor {
    pub name: String,
    pub uri: String,
    pub authors: Vec<String>,
}

/// Mathematical model of [`Auditor`] (and of [`JsonAuditor`]).
#[verifier::ext_equal]
pub struct AuditorView {
    pub name: Seq<char>,
    pub uri: Seq<char>,
    pub authors: Seq<Seq<char>>,
}

impl View for Auditor {
    type V = AuditorView;

    open spec fn view(&self) -> AuditorView {
        AuditorView { name: self.name@, uri: self.uri@, authors: self.authors.deep_view() }
    }
}

/// The signature block of a summary: signature kind, signer address, raw
/// signature bytes (empty until an external signer fills them in), and the
/// 32-byte content digest that is what actually gets signed.
#[derive(Debug, Clone, PartialEq, Eq)]
pub struct Signature {
    pub sig_type: SignatureType,
    pub signer: Address,
    pub signature_data: Vec<u8>,
    pub hash: [u8; 32],
}

/// Mathematical model of [`Signature`].
#[verifier::ext_equal]
pub struct SignatureView {
    pub sig_type: SignatureType,
    pub signer: Seq<u8>,
    pub signature_data: Seq<u8>,
    pub hash: Seq<u8>,
}

impl View for Signature {
    type V = SignatureView;

    open spec fn view(&self) -> SignatureView {
        SignatureView {
            sig_type: self.sig_type,
            signer: self.signer@,
            signature_data: self.signature_data@,
            hash: self.hash@,
        }
    }
}

/// The full signable record: title, auditor metadata, the module attribute
/// record, and the signature block.
#[derive(Debug, Clone, PartialEq, Eq)]
pub struct AuditSummary {
    pub title: String,
    pub auditor: Auditor,
    pub module_attributes: ModuleAttributes,
    pub signature: Signature,
}

/// Mathematical model of [`AuditSummary`].
#[verifier::ext_equal]
pub struct AuditSummaryView {
    pub title: Seq<char>,
    pub auditor: AuditorView,
    pub module_attributes: ModuleAttributesView,
    pub signature: SignatureView,
}

impl View for AuditSummary {
    type V = AuditSummaryView;

    open spec fn view(&self) -> AuditSummaryView {
        AuditSummaryView {
            title: self.title@,
            auditor: self.auditor@,
            module_attributes: self.module_attributes@,
            signature: self.signature@,
        }
    }
}

/// Auditor metadata as it appears in the input document.
#[derive(Debug, Clone, PartialEq, Eq)]
pub struct JsonAuditor {
    pub name: String,
    pub uri: String,
    pub authors: Vec<String>,
}

impl View for JsonAuditor {
    type V = AuditorView;

    open spec fn view(&self) -> AuditorView {
        AuditorView { name: self.name@, uri: self.uri@, authors: self.authors.deep_view() }
    }
}

/// The typed attribute declaration of one module, as parsed from the input
/// document: the module address and the six attribute groups.
#[derive(Debug, Clone, PartialEq, Eq)]
pub struct JsonModuleAttributes {
    pub module_address: Address,
    pub global_attributes: JsonGlobalAttributes,
    pub validator_attributes: JsonValidatorAttributes,
    pub executor_attributes: JsonExecutorAttributes,
    pub fallback_attributes: JsonFallbackAttributes,
    pub hook_attributes: JsonHookAttributes,
    pub external_dependency: JsonExternalDependency,
}

/// A previously produced signature as it appears in the input document:
/// the digest as a hex string and the raw signature bytes.
#[derive(Debug, Clone, PartialEq, Eq)]
pub struct JsonSignature {
    pub hash: String,
    pub signature: Vec<u8>,
}

/// A fully parsed input document: title, auditor metadata, report URL, the
/// signer address, the module attribute declaration, and an optional
/// previously produced signature.
#[derive(Debug, Clone, PartialEq, Eq)]
pub struct Input {
    pub title: String,
    pub auditor: JsonAuditor,
    pub report_url: String,
    pub signer: Address,
    pub module_attributes: JsonModuleAttributes,
    pub signature: Option<JsonSignature>,
}

} // verus!
