//! Digest sensitivity: changing any attribute group of a declaration
//! changes the canonical digest payload.
//!
//! The digest itself is the Keccak-256 hash of that payload, so distinct
//! payloads give distinct digests for every collision-free run of the hash;
//! collision freedom is a property of Keccak-256, outside what can be
//! proved here.  What these lemmas establish is the strongest layer below
//! it: the hashed bytes themselves change.

use vstd::prelude::*;

use crate::abi::{
    addr_word, concat_seqs, enc_bytes, enc_dyn_array, enc_string, lemma_be_bytes_len,
    lemma_concat_seqs_index, lemma_offset_heads_len,
};
use crate::pack::{
    lemma_pack_executor_injective, lemma_pack_external_injective, lemma_pack_fallback_injective,
    lemma_pack_global_injective, lemma_pack_hook_injective, lemma_pack_validator_injective,
};
use crate::record::{
    built_module_attributes, enc_auditor, enc_digest_payload, enc_module_attributes,
    enc_module_type_attributes,
};
use crate::types::{
    AuditorView, JsonModuleAttributes, ModuleAttributesView, ModuleTypeAttributesView,
};

verus! {

/// Two unequal byte sequences of the same length differ at some index.
proof fn lemma_differ_index(p1: Seq<u8>, p2: Seq<u8>) -> (j: int)
    requires
        p1.len() == p2.len(),
        p1 != p2,
    ensures
        0 <= j < p1.len(),
        p1[j] != p2[j],
{
    if forall|i: int| 0 <= i < p1.len() ==> p1[i] == p2[i] {
        assert(p1 =~= p2);
    }
    choose|j: int| 0 <= j < p1.len() && p1[j] != p2[j]
}

/// The byte of the global packed blob at index `j` reappears in the module
/// attribute record encoding at a position determined only by the address
/// length.
proof fn lemma_enc_ma_packed_byte(m: ModuleAttributesView, j: int)
    requires
        0 <= j < m.packed_attributes.len(),
    ensures
        ({
            let q = 12 + m.module_address.len() + 128 + 32 + j;
            0 <= q < enc_module_attributes(m).len() && enc_module_attributes(m)[q]
                == m.packed_attributes[j]
        }),
{
    broadcast use lemma_be_bytes_len;

    let q = 12 + m.module_address.len() + 128 + 32 + j;
    assert(addr_word(m.module_address).len() == 12 + m.module_address.len());
    assert(enc_bytes(m.packed_attributes)[32 + j] == m.packed_attributes[j]);
    assert(enc_module_attributes(m)[q as int] == m.packed_attributes[j]);
}

/// The byte of the external-dependency packed blob at index `j` reappears
/// in the module attribute record encoding at a position determined only
/// by the lengths of the parts before it.
proof fn lemma_enc_ma_external_byte(m: ModuleAttributesView, j: int)
    requires
        0 <= j < m.packed_external_dependency.len(),
    ensures
        ({
            let q = 12 + m.module_address.len() + 128 + enc_bytes(m.packed_attributes).len()
                + enc_dyn_array(
                m.type_attributes.map_values(
                    |t: ModuleTypeAttributesView| enc_module_type_attributes(t),
                ),
            ).len() + 32 + j;
            0 <= q < enc_module_attributes(m).len() && enc_module_attributes(m)[q]
                == m.packed_external_dependency[j]
        }),
{
    broadcast use lemma_be_bytes_len;

    let t_packed = enc_bytes(m.packed_attributes);
    let t_types = enc_dyn_array(
        m.type_attributes.map_values(|t: ModuleTypeAttributesView| enc_module_type_attributes(t)),
    );
    let q = 12 + m.module_address.len() + 128 + t_packed.len() + t_types.len() + 32 + j;
    assert(addr_word(m.module_address).len() == 12 + m.module_address.len());
    assert(enc_bytes(m.packed_external_dependency)[32 + j] == m.packed_external_dependency[j]);
    assert(enc_module_attributes(m)[q as int] == m.packed_external_dependency[j]);
}

/// The byte at index `j` of the packed bytes of per-type entry `k`
/// reappears in the module attribute record encoding at a position
/// determined only by the entry lengths before it.
proof fn lemma_enc_ma_type_byte(m: ModuleAttributesView, k: int, j: int)
    requires
        0 <= k < m.type_attributes.len(),
        0 <= j < m.type_attributes[k].encoded_attributes.len(),
    ensures
        ({
            let es = m.type_attributes.map_values(
                |t: ModuleTypeAttributesView| enc_module_type_attributes(t),
            );
            let q = 12 + m.module_address.len() + 128 + enc_bytes(m.packed_attributes).len() + 32
                + 32 * m.type_attributes.len() + concat_seqs(es.take(k)).len() + 96 + j;
            0 <= q < enc_module_attributes(m).len() && enc_module_attributes(m)[q]
                == m.type_attributes[k].encoded_attributes[j]
        }),
{
    broadcast use lemma_be_bytes_len;

    let es = m.type_attributes.map_values(
        |t: ModuleTypeAttributesView| enc_module_type_attributes(t),
    );
    let t_packed = enc_bytes(m.packed_attributes);
    let t_types = enc_dyn_array(es);
    let tk = m.type_attributes[k];
    assert(es[k] == enc_module_type_attributes(tk));
    assert(es[k][96 + j] == tk.encoded_attributes[j]) by {
        assert(enc_bytes(tk.encoded_attributes)[32 + j] == tk.encoded_attributes[j]);
    }
    lemma_concat_seqs_index(es, k, 96 + j);
    lemma_offset_heads_len(es, 32 * es.len());
    let qt = 32 + 32 * m.type_attributes.len() + concat_seqs(es.take(k)).len() + 96 + j;
    assert(t_types[qt as int] == tk.encoded_attributes[j]);
    assert(qt < t_types.len());
    let q = 12 + m.module_address.len() + 128 + t_packed.len() + qt;
    assert(addr_word(m.module_address).len() == 12 + m.module_address.len());
    assert(enc_module_attributes(m)[q as int] == tk.encoded_attributes[j]);
}

/// A byte of the module attribute record encoding at position `q`
/// reappears in the digest payload after the title and auditor tails.
proof fn lemma_payload_ma_byte(title: Seq<char>, a: AuditorView, m: ModuleAttributesView, q: int)
    requires
        0 <= q < enc_module_attributes(m).len(),
    ensures
        ({
            let pre = 128 + enc_string(title).len() + enc_auditor(a).len();
            pre + q < enc_digest_payload(title, a, m).len() && enc_digest_payload(title, a, m)[pre
                + q] == enc_module_attributes(m)[q]
        }),
{
    broadcast use lemma_be_bytes_len;

    let pre = 128 + enc_string(title).len() + enc_auditor(a).len();
    assert(enc_digest_payload(title, a, m)[pre + q] == enc_module_attributes(m)[q]);
}

/// Changing the global packed bytes (at equal length) changes the digest
/// payload, whatever else stays equal.
proof fn lemma_payload_sensitive_packed(
    title: Seq<char>,
    a: AuditorView,
    m1: ModuleAttributesView,
    m2: ModuleAttributesView,
)
    requires
        m1.module_address == m2.module_address,
        m1.packed_attributes.len() == m2.packed_attributes.len(),
        m1.packed_attributes != m2.packed_attributes,
    ensures
        enc_digest_payload(title, a, m1) != enc_digest_payload(title, a, m2),
{
    let j = lemma_differ_index(m1.packed_attributes, m2.packed_attributes);
    let q = 12 + m1.module_address.len() + 128 + 32 + j;
    lemma_enc_ma_packed_byte(m1, j);
    lemma_enc_ma_packed_byte(m2, j);
    lemma_payload_ma_byte(title, a, m1, q as int);
    lemma_payload_ma_byte(title, a, m2, q as int);
}

/// Changing the external-dependency packed bytes (at equal length) changes
/// the digest payload, when the parts encoded before them are equal.
proof fn lemma_payload_sensitive_external(
    title: Seq<char>,
    a: AuditorView,
    m1: ModuleAttributesView,
    m2: ModuleAttributesView,
)
    requires
        m1.module_address == m2.module_address,
        m1.packed_attributes == m2.packed_attributes,
        m1.type_attributes == m2.type_attributes,
        m1.packed_external_dependency.len() == m2.packed_external_dependency.len(),
        m1.packed_external_dependency != m2.packed_external_dependency,
    ensures
        enc_digest_payload(title, a, m1) != enc_digest_payload(title, a, m2),
{
    let j = lemma_differ_index(m1.packed_external_dependency, m2.packed_external_dependency);
    let q = 12 + m1.module_address.len() + 128 + enc_bytes(m1.packed_attributes).len()
        + enc_dyn_array(
        m1.type_attributes.map_values(|t: ModuleTypeAttributesView| enc_module_type_attributes(t)),
    ).len() + 32 + j;
    lemma_enc_ma_external_byte(m1, j);
    lemma_enc_ma_external_byte(m2, j);
    lemma_payload_ma_byte(title, a, m1, q as int);
    lemma_payload_ma_byte(title, a, m2, q as int);
}

/// Changing the packed bytes of per-type entry `k` (at equal length, same
/// tag) changes the digest payload, when the entries before it are equal.
proof fn lemma_payload_sensitive_type(
    title: Seq<char>,
    a: AuditorView,
    m1: ModuleAttributesView,
    m2: ModuleAttributesView,
    k: int,
)
    requires
        m1.module_address == m2.module_address,
        m1.packed_attributes == m2.packed_attributes,
        m1.type_attributes.len() == m2.type_attributes.len(),
        0 <= k < m1.type_attributes.len(),
        forall|i: int|
            0 <= i < k ==> m1.type_attributes[i] == m2.type_attributes[i],
        m1.type_attributes[k].encoded_attributes.len()
            == m2.type_attributes[k].encoded_attributes.len(),
        m1.type_attributes[k].encoded_attributes != m2.type_attributes[k].encoded_attributes,
    ensures
        enc_digest_payload(title, a, m1) != enc_digest_payload(title, a, m2),
{
    let es1 = m1.type_attributes.map_values(
        |t: ModuleTypeAttributesView| enc_module_type_attributes(t),
    );
    let es2 = m2.type_attributes.map_values(
        |t: ModuleTypeAttributesView| enc_module_type_attributes(t),
    );
    assert(es1.take(k) =~= es2.take(k));
    let j = lemma_differ_index(
        m1.type_attributes[k].encoded_attributes,
        m2.type_attributes[k].encoded_attributes,
    );
    let q = 12 + m1.module_address.len() + 128 + enc_bytes(m1.packed_attributes).len() + 32 + 32
        * m1.type_attributes.len() + concat_seqs(es1.take(k)).len() + 96 + j;
    lemma_enc_ma_type_byte(m1, k, j);
    lemma_enc_ma_type_byte(m2, k, j);
    lemma_payload_ma_byte(title, a, m1, q as int);
    lemma_payload_ma_byte(title, a, m2, q as int);
}

/// Changing the global attribute group in any way — flipping any single
/// flag included — changes the canonical digest payload built from the
/// declaration, and with it the hashed bytes.
pub proof fn lemma_digest_sensitive_global(
    title: Seq<char>,
    a: AuditorView,
    m1: JsonModuleAttributes,
    m2: JsonModuleAttributes,
)
    requires
        m1.module_address == m2.module_address,
        m1.global_attributes != m2.global_attributes,
    ensures
        enc_digest_payload(title, a, built_module_attributes(m1)) != enc_digest_payload(
            title,
            a,
            built_module_attributes(m2),
        ),
{
    lemma_pack_global_injective(m1.global_attributes, m2.global_attributes);
    lemma_payload_sensitive_packed(title, a, built_module_attributes(m1), built_module_attributes(m2));
}

/// Changing the validator attribute group in any way — flipping any single
/// flag included — changes the canonical digest payload built from the
/// declaration, and with it the hashed bytes.
pub proof fn lemma_digest_sensitive_validator(
    title: Seq<char>,
    a: AuditorView,
    m1: JsonModuleAttributes,
    m2: JsonModuleAttributes,
)
    requires
        m1.module_address == m2.module_address,
        m1.global_attributes == m2.global_attributes,
        m1.validator_attributes != m2.validator_attributes,
    ensures
        enc_digest_payload(title, a, built_module_attributes(m1)) != enc_digest_payload(
            title,
            a,
            built_module_attributes(m2),
        ),
{
    lemma_pack_validator_injective(m1.validator_attributes, m2.validator_attributes);
    lemma_payload_sensitive_type(
        title,
        a,
        built_module_attributes(m1),
        built_module_attributes(m2),
        0,
    );
}

/// Changing the executor attribute group in any way — flipping any single
/// flag included — changes the canonical digest payload built from the
/// declaration, and with it the hashed bytes.
pub proof fn lemma_digest_sensitive_executor(
    title: Seq<char>,
    a: AuditorView,
    m1: JsonModuleAttributes,
    m2: JsonModuleAttributes,
)
    requires
        m1.module_address == m2.module_address,
        m1.global_attributes == m2.global_attributes,
        m1.validator_attributes == m2.validator_attributes,
        m1.executor_attributes != m2.executor_attributes,
    ensures
        enc_digest_payload(title, a, built_module_attributes(m1)) != enc_digest_payload(
            title,
            a,
            built_module_attributes(m2),
        ),
{
    lemma_pack_executor_injective(m1.executor_attributes, m2.executor_attributes);
    lemma_payload_sensitive_type(
        title,
        a,
        built_module_attributes(m1),
        built_module_attributes(m2),
        1,
    );
}

/// Changing the fallback attribute group in any way — flipping any single
/// flag included — changes the canonical digest payload built from the
/// declaration, and with it the hashed bytes.
pub proof fn lemma_digest_sensitive_fallback(
    title: Seq<char>,
    a: AuditorView,
    m1: JsonModuleAttributes,
    m2: JsonModuleAttributes,
)
    requires
        m1.module_address == m2.module_address,
        m1.global_attributes == m2.global_attributes,
        m1.validator_attributes == m2.validator_attributes,
        m1.executor_attributes == m2.executor_attributes,
        m1.fallback_attributes != m2.fallback_attributes,
    ensures
        enc_digest_payload(title, a, built_module_attributes(m1)) != enc_digest_payload(
            title,
            a,
            built_module_attributes(m2),
        ),
{
    lemma_pack_fallback_injective(m1.fallback_attributes, m2.fallback_attributes);
    lemma_payload_sensitive_type(
        title,
        a,
        built_module_attributes(m1),
        built_module_attributes(m2),
        2,
    );
}

/// Changing the hook attribute group in any way — flipping any single
/// flag included — changes the canonical digest payload built from the
/// declaration, and with it the hashed bytes.
pub proof fn lemma_digest_sensitive_hook(
    title: Seq<char>,
    a: AuditorView,
    m1: JsonModuleAttributes,
    m2: JsonModuleAttributes,
)
    requires
        m1.module_address == m2.module_address,
        m1.global_attributes == m2.global_attributes,
        m1.validator_attributes == m2.validator_attributes,
        m1.executor_attributes == m2.executor_attributes,
        m1.fallback_attributes == m2.fallback_attributes,
        m1.hook_attributes != m2.hook_attributes,
    ensures
        enc_digest_payload(title, a, built_module_attributes(m1)) != enc_digest_payload(
            title,
            a,
            built_module_attributes(m2),
        ),
{
    lemma_pack_hook_injective(m1.hook_attributes, m2.hook_attributes);
    lemma_payload_sensitive_type(
        title,
        a,
        built_module_attributes(m1),
        built_module_attributes(m2),
        3,
    );
}

/// Changing the external-dependency flags in any way — flipping any single
/// flag included — changes the canonical digest payload built from the
/// declaration, and with it the hashed bytes.  (A change to the `erc_deps`
/// list alone is not a flag flip and is not covered here.)
pub proof fn lemma_digest_sensitive_external(
    title: Seq<char>,
    a: AuditorView,
    m1: JsonModuleAttributes,
    m2: JsonModuleAttributes,
)
    requires
        m1.module_address == m2.module_address,
        m1.global_attributes == m2.global_attributes,
        m1.validator_attributes == m2.validator_attributes,
        m1.executor_attributes == m2.executor_attributes,
        m1.fallback_attributes == m2.fallback_attributes,
        m1.hook_attributes == m2.hook_attributes,
        m1.external_dependency.erc_deps == m2.external_dependency.erc_deps,
        m1.external_dependency != m2.external_dependency,
    ensures
        enc_digest_payload(title, a, built_module_attributes(m1)) != enc_digest_payload(
            title,
            a,
            built_module_attributes(m2),
        ),
{
    lemma_pack_external_injective(m1.external_dependency, m2.external_dependency);
    assert(built_module_attributes(m1).type_attributes =~= built_module_attributes(
        m2,
    ).type_attributes);
    lemma_payload_sensitive_external(
        title,
        a,
        built_module_attributes(m1),
        built_module_attributes(m2),
    );
}

} // verus!
