//! Record-level canonical encodings and the module record builder.
//!
//! The spec functions here pin down, byte for byte, the ABI layout of the
//! auditor block, the module attribute record, the signature block, the
//! digest payload (title, auditor and module attributes only — never the
//! signature) and the full audit summary.  The executable encoders are
//! proved to produce exactly those bytes.

use vstd::prelude::*;

use crate::abi::{
    abi_encode_bytes, abi_encode_string, abi_word, addr_word, enc_bytes, enc_dyn_array,
    enc_string, enc_u16_array, encode_addr_word, encode_dyn_array, encode_u16_array, encode_word,
};
use crate::pack::{
    spec_pack_executor, spec_pack_external, spec_pack_fallback, spec_pack_global, spec_pack_hook,
    spec_pack_validator,
};
use crate::types::{
    Auditor, AuditorView, JsonModuleAttributes, ModuleAttributes, ModuleAttributesView,
    ModuleType, ModuleTypeAttributes, ModuleTypeAttributesView, SignatureView,
    spec_module_type_code, spec_signature_type_code,
};

verus! {

/// Canonical encoding of the auditor block: three offset words, then the
/// tails of `name`, `uri` and `authors`, in that order.
pub open spec fn enc_auditor(a: AuditorView) -> Seq<u8> {
    let t_name = enc_string(a.name);
    let t_uri = enc_string(a.uri);
    let t_authors = enc_dyn_array(a.authors.map_values(|s: Seq<char>| enc_string(s)));
    abi_word(96) + abi_word(96 + t_name.len()) + abi_word(96 + t_name.len() + t_uri.len())
        + t_name + t_uri + t_authors
}

/// Canonical encoding of one per-module-type entry: the type code word, an
/// offset word to the bytes tail, then the packed bytes as ABI `bytes`.
pub open spec fn enc_module_type_attributes(t: ModuleTypeAttributesView) -> Seq<u8> {
    abi_word(spec_module_type_code(t.module_type)) + abi_word(64) + enc_bytes(
        t.encoded_attributes,
    )
}

/// Canonical encoding of the module attribute record: the address word and
/// four offset words, then the tails of the global packed bytes, the
/// per-type entries, the external-dependency packed bytes and the ERC
/// dependency identifiers, in that order.
pub open spec fn enc_module_attributes(m: ModuleAttributesView) -> Seq<u8> {
    let t_packed = enc_bytes(m.packed_attributes);
    let t_types = enc_dyn_array(
        m.type_attributes.map_values(|t: ModuleTypeAttributesView| enc_module_type_attributes(t)),
    );
    let t_ext = enc_bytes(m.packed_external_dependency);
    let t_deps = enc_u16_array(m.erc_deps);
    addr_word(m.module_address) + abi_word(160) + abi_word(160 + t_packed.len()) + abi_word(
        160 + t_packed.len() + t_types.len(),
    ) + abi_word(160 + t_packed.len() + t_types.len() + t_ext.len()) + t_packed + t_types + t_ext
        + t_deps
}

/// Canonical encoding of the digest payload: exactly the title, the
/// auditor block and the module attribute record — the signature block is
/// excluded by construction, so the digest can never depend on itself.
/// The payload is the encoding of the triple as one dynamic value, so it
/// opens with the offset word to it; the field offsets that follow are
/// relative to the triple's own encoding.
pub open spec fn enc_digest_payload(
    title: Seq<char>,
    a: AuditorView,
    m: ModuleAttributesView,
) -> Seq<u8> {
    let t_title = enc_string(title);
    let t_aud = enc_auditor(a);
    let t_mod = enc_module_attributes(m);
    abi_word(32) + abi_word(96) + abi_word(96 + t_title.len()) + abi_word(
        96 + t_title.len() + t_aud.len(),
    ) + t_title + t_aud + t_mod
}

/// Canonical encoding of the signature block: the type code word, the
/// signer address word, an offset word to the signature bytes, the 32-byte
/// digest word, then the signature bytes as ABI `bytes`.
pub open spec fn enc_signature(s: SignatureView) -> Seq<u8> {
    abi_word(spec_signature_type_code(s.sig_type)) + addr_word(s.signer) + abi_word(128) + s.hash
        + enc_bytes(s.signature_data)
}

/// Builds the auditor block encoding.
pub fn encode_auditor(a: &Auditor) -> (r: Vec<u8>)
    ensures
        r@ == enc_auditor(a@),
{
    let t_name = abi_encode_string(a.name.as_str());
    let t_uri = abi_encode_string(a.uri.as_str());
    let n = a.authors.len();
    let mut elems: Vec<Vec<u8>> = Vec::new();
    let mut i: usize = 0;
    while i < n
        invariant
            i <= n,
            n == a.authors@.len(),
            elems.deep_view() == a@.authors.take(i as int).map_values(
                |s: Seq<char>| enc_string(s),
            ),
        decreases n - i,
    {
        let ghost pre = elems.deep_view();
        let e = abi_encode_string(a.authors[i].as_str());
        elems.push(e);
        proof {
            assert(elems.deep_view() =~~= pre.push(e@));
            assert(a@.authors[i as int] == a.authors@[i as int]@);
            assert(a@.authors.take(i + 1).map_values(|s: Seq<char>| enc_string(s)) =~= a@.authors
                .take(i as int)
                .map_values(|s: Seq<char>| enc_string(s))
                .push(enc_string(a@.authors[i as int])));
        }
        i = i + 1;
    }
    proof {
        assert(a@.authors.take(n as int) =~= a@.authors);
    }
    let t_authors = encode_dyn_array(&elems);
    let o2: u128 = 96u128 + (t_name.len() as u128);
    let o3: u128 = o2 + (t_uri.len() as u128);
    let mut r = encode_word(96);
    let mut w2 = encode_word(o2);
    r.append(&mut w2);
    let mut w3 = encode_word(o3);
    r.append(&mut w3);
    let mut p1 = t_name;
    r.append(&mut p1);
    let mut p2 = t_uri;
    r.append(&mut p2);
    let mut p3 = t_authors;
    r.append(&mut p3);
    proof {
        assert(r@ =~= enc_auditor(a@));
    }
    r
}

/// Builds the encoding of one per-module-type entry.
pub fn encode_module_type_attributes(t: &ModuleTypeAttributes) -> (r: Vec<u8>)
    ensures
        r@ == enc_module_type_attributes(t@),
{
    let mut r = encode_word(t.module_type.code() as u128);
    let mut w = encode_word(64);
    r.append(&mut w);
    let mut b = abi_encode_bytes(t.encoded_attributes.as_slice());
    r.append(&mut b);
    proof {
        assert(r@ =~= enc_module_type_attributes(t@));
    }
    r
}

/// Builds the module attribute record encoding.
pub fn encode_module_attributes(m: &ModuleAttributes) -> (r: Vec<u8>)
    ensures
        r@ == enc_module_attributes(m@),
{
    let t_packed = abi_encode_bytes(m.packed_attributes.as_slice());
    let n = m.type_attributes.len();
    let mut elems: Vec<Vec<u8>> = Vec::new();
    let mut i: usize = 0;
    while i < n
        invariant
            i <= n,
            n == m.type_attributes@.len(),
            elems.deep_view() == m@.type_attributes.take(i as int).map_values(
                |t: ModuleTypeAttributesView| enc_module_type_attributes(t),
            ),
        decreases n - i,
    {
        let ghost pre = elems.deep_view();
        let e = encode_module_type_attributes(&m.type_attributes[i]);
        elems.push(e);
        proof {
            assert(elems.deep_view() =~~= pre.push(e@));
            assert(m@.type_attributes[i as int] == m.type_attributes@[i as int]@);
            assert(m@.type_attributes.take(i + 1).map_values(
                |t: ModuleTypeAttributesView| enc_module_type_attributes(t),
            ) =~= m@.type_attributes.take(i as int).map_values(
                |t: ModuleTypeAttributesView| enc_module_type_attributes(t),
            ).push(enc_module_type_attributes(m@.type_attributes[i as int])));
        }
        i = i + 1;
    }
    proof {
        assert(m@.type_attributes.take(n as int) =~= m@.type_attributes);
    }
    let t_types = encode_dyn_array(&elems);
    let t_ext = abi_encode_bytes(m.packed_external_dependency.as_slice());
    let t_deps = encode_u16_array(&m.erc_deps);
    let o2: u128 = 160u128;
    let o3: u128 = o2 + (t_packed.len() as u128);
    let o4: u128 = o3 + (t_types.len() as u128);
    let o5: u128 = o4 + (t_ext.len() as u128);
    let mut r = encode_addr_word(m.module_address.bytes.as_slice());
    let mut w2 = encode_word(o2);
    r.append(&mut w2);
    let mut w3 = encode_word(o3);
    r.append(&mut w3);
    let mut w4 = encode_word(o4);
    r.append(&mut w4);
    let mut w5 = encode_word(o5);
    r.append(&mut w5);
    let mut p1 = t_packed;
    r.append(&mut p1);
    let mut p2 = t_types;
    r.append(&mut p2);
    let mut p3 = t_ext;
    r.append(&mut p3);
    let mut p4 = t_deps;
    r.append(&mut p4);
    proof {
        assert(r@ =~= enc_module_attributes(m@));
    }
    r
}

/// The module attribute record that the builder produces from a parsed
/// declaration: each group packed in its fixed order, the four per-type
/// entries tagged Validator, Executor, Fallback, Hook in that fixed order.
pub open spec fn built_module_attributes(m: JsonModuleAttributes) -> ModuleAttributesView {
    ModuleAttributesView {
        module_address: m.module_address@,
        packed_attributes: spec_pack_global(m.global_attributes),
        type_attributes: seq![
            ModuleTypeAttributesView {
                module_type: ModuleType::Validator,
                encoded_attributes: spec_pack_validator(m.validator_attributes),
            },
            ModuleTypeAttributesView {
                module_type: ModuleType::Executor,
                encoded_attributes: spec_pack_executor(m.executor_attributes),
            },
            ModuleTypeAttributesView {
                module_type: ModuleType::Fallback,
                encoded_attributes: spec_pack_fallback(m.fallback_attributes),
            },
            ModuleTypeAttributesView {
                module_type: ModuleType::Hook,
                encoded_attributes: spec_pack_hook(m.hook_attributes),
            },
        ],
        packed_external_dependency: spec_pack_external(m.external_dependency),
        erc_deps: m.external_dependency.erc_deps@,
    }
}

impl JsonModuleAttributes {
    /// Builds the module attribute record: packs each group and assembles
    /// the four per-type entries in the fixed order Validator, Executor,
    /// Fallback, Hook — always exactly four entries, whatever the flags.
    pub fn encode(&self) -> (r: ModuleAttributes)
        ensures
            r@ == built_module_attributes(*self),
            r.wf(),
            r@.type_attributes.len() == 4,
            r@.type_attributes[0].module_type == ModuleType::Validator,
            r@.type_attributes[1].module_type == ModuleType::Executor,
            r@.type_attributes[2].module_type == ModuleType::Fallback,
            r@.type_attributes[3].module_type == ModuleType::Hook,
            r@.type_attributes[0].encoded_attributes == spec_pack_validator(
                self.validator_attributes,
            ),
            r@.type_attributes[1].encoded_attributes == spec_pack_executor(
                self.executor_attributes,
            ),
            r@.type_attributes[2].encoded_attributes == spec_pack_fallback(
                self.fallback_attributes,
            ),
            r@.type_attributes[3].encoded_attributes == spec_pack_hook(self.hook_attributes),
    {
        let type_attributes: Vec<ModuleTypeAttributes> = vec![
            ModuleTypeAttributes {
                module_type: ModuleType::Validator,
                encoded_attributes: self.validator_attributes.pack(),
            },
            ModuleTypeAttributes {
                module_type: ModuleType::Executor,
                encoded_attributes: self.executor_attributes.pack(),
            },
            ModuleTypeAttributes {
                module_type: ModuleType::Fallback,
                encoded_attributes: self.fallback_attributes.pack(),
            },
            ModuleTypeAttributes {
                module_type: ModuleType::Hook,
                encoded_attributes: self.hook_attributes.pack(),
            },
        ];
        let r = ModuleAttributes {
            module_address: self.module_address,
            packed_attributes: self.global_attributes.pack(),
            type_attributes,
            packed_external_dependency: self.external_dependency.pack(),
            erc_deps: self.external_dependency.erc_deps.clone(),
        };
        proof {
            assert(r.type_attributes@.map_values(|t: ModuleTypeAttributes| t@) =~= built_module_attributes(
                *self,
            ).type_attributes);
            assert(r.erc_deps@ == self.external_dependency.erc_deps@);
            assert(r@ =~= built_module_attributes(*self));
        }
        r
    }
}

} // verus!
