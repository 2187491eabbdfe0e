//! The content digest and the summary assembler.
//!
//! The digest is the Keccak-256 hash of the canonical encoding of exactly
//! {title, auditor, module attributes}.  The signature block is never part
//! of the hashed payload, so the digest a summary carries can never depend
//! on the signature that will later be computed over it.

use vstd::prelude::*;

use crate::abi::{
    abi_encode_bytes, abi_encode_string, abi_word, enc_string, encode_addr_word, encode_word,
};
use crate::record::{
    built_module_attributes, enc_auditor, enc_digest_payload, enc_module_attributes,
    enc_signature, encode_auditor, encode_module_attributes,
};
use crate::types::{
    Address, AuditSummary, AuditSummaryView, Auditor, Input, Signature, SignatureType,
};

verus! {

/// The Keccak-256 digest of a byte sequence.  The function is left
/// uninterpreted: the same bytes give the same digest, and nothing more is
/// assumed of it.
pub uninterp spec fn keccak_of(data: Seq<u8>) -> Seq<u8>;

/// Relies on `alloy_primitives::keccak256`: the Keccak-256 hash of the
/// input bytes, a pure 32-byte function of the input alone.
#[verifier::external_body]
fn keccak256_bytes(data: &Vec<u8>) -> (r: [u8; 32])
    ensures
        r@ == keccak_of(data@),
{
    alloy_primitives::keccak256(data.as_slice()).0
}

/// Canonical encoding of the full audit summary, as one dynamic value: the
/// offset word to it, four field offset words, then the tails of the
/// title, the auditor block, the module attribute record and the signature
/// block, in that order.
pub open spec fn enc_audit_summary(s: AuditSummaryView) -> Seq<u8> {
    let t_title = enc_string(s.title);
    let t_aud = enc_auditor(s.auditor);
    let t_mod = enc_module_attributes(s.module_attributes);
    let t_sig = enc_signature(s.signature);
    abi_word(32) + abi_word(128) + abi_word(128 + t_title.len()) + abi_word(
        128 + t_title.len() + t_aud.len(),
    ) + abi_word(128 + t_title.len() + t_aud.len() + t_mod.len()) + t_title + t_aud + t_mod
        + t_sig
}

impl AuditSummary {
    /// Builds the canonical digest payload: the encoding of exactly
    /// {title, auditor, module attributes}.  This is the byte string an
    /// on-chain verifier must reconstruct to validate a signature.
    pub fn encode(&self) -> (r: Vec<u8>)
        ensures
            r@ == enc_digest_payload(self@.title, self@.auditor, self@.module_attributes),
    {
        let t_title = abi_encode_string(self.title.as_str());
        let t_aud = encode_auditor(&self.auditor);
        let t_mod = encode_module_attributes(&self.module_attributes);
        let o2: u128 = 96u128 + (t_title.len() as u128);
        let o3: u128 = o2 + (t_aud.len() as u128);
        let mut r = encode_word(32);
        let mut w1 = encode_word(96);
        r.append(&mut w1);
        let mut w2 = encode_word(o2);
        r.append(&mut w2);
        let mut w3 = encode_word(o3);
        r.append(&mut w3);
        let mut p1 = t_title;
        r.append(&mut p1);
        let mut p2 = t_aud;
        r.append(&mut p2);
        let mut p3 = t_mod;
        r.append(&mut p3);
        proof {
            assert(r@ =~= enc_digest_payload(self@.title, self@.auditor, self@.module_attributes));
        }
        r
    }

    /// Computes the content digest: the Keccak-256 hash of the canonical
    /// digest payload.  Two summaries that agree on title, auditor and
    /// module attributes get the same digest, whatever their signatures.
    pub fn digest(&self) -> (r: [u8; 32])
        ensures
            r@ == keccak_of(
                enc_digest_payload(self@.title, self@.auditor, self@.module_attributes),
            ),
    {
        let payload = self.encode();
        keccak256_bytes(&payload)
    }

    /// Builds the canonical encoding of the full summary, signature block
    /// included: the on-chain submission format.
    pub fn abi_encode(&self) -> (r: Vec<u8>)
        ensures
            r@ == enc_audit_summary(self@),
    {
        let t_title = abi_encode_string(self.title.as_str());
        let t_aud = encode_auditor(&self.auditor);
        let t_mod = encode_module_attributes(&self.module_attributes);
        let t_sig = encode_signature_block(&self.signature);
        let o2: u128 = 128u128 + (t_title.len() as u128);
        let o3: u128 = o2 + (t_aud.len() as u128);
        let o4: u128 = o3 + (t_mod.len() as u128);
        let mut r = encode_word(32);
        let mut w1 = encode_word(128);
        r.append(&mut w1);
        let mut w2 = encode_word(o2);
        r.append(&mut w2);
        let mut w3 = encode_word(o3);
        r.append(&mut w3);
        let mut w4 = encode_word(o4);
        r.append(&mut w4);
        let mut p1 = t_title;
        r.append(&mut p1);
        let mut p2 = t_aud;
        r.append(&mut p2);
        let mut p3 = t_mod;
        r.append(&mut p3);
        let mut p4 = t_sig;
        r.append(&mut p4);
        proof {
            assert(r@ =~= enc_audit_summary(self@));
        }
        r
    }
}

/// Builds the signature block encoding.
fn encode_signature_block(s: &Signature) -> (r: Vec<u8>)
    ensures
        r@ == enc_signature(s@),
{
    let mut r = encode_word(s.sig_type.code() as u128);
    let mut w2 = encode_addr_word(s.signer.bytes.as_slice());
    r.append(&mut w2);
    let mut w3 = encode_word(128);
    r.append(&mut w3);
    let mut h = vstd::slice::slice_to_vec(s.hash.as_slice());
    r.append(&mut h);
    let mut b = abi_encode_bytes(s.signature_data.as_slice());
    r.append(&mut b);
    proof {
        assert(r@ =~= enc_signature(s@));
    }
    r
}

impl Input {
    /// Assembles the signable audit summary from a parsed input document:
    /// title and auditor copied verbatim, the module attribute record
    /// built from the declared groups, and a signature block holding the
    /// given signature type and signer, empty signature bytes, and the
    /// computed content digest.
    pub fn encode(&self, sig_type: SignatureType, signer: Address) -> (r: AuditSummary)
        ensures
            r@.title == self.title@,
            r@.auditor == self.auditor@,
            r@.module_attributes == built_module_attributes(self.module_attributes),
            r.module_attributes.wf(),
            r@.signature.sig_type == sig_type,
            r@.signature.signer == signer@,
            r@.signature.signature_data == Seq::<u8>::empty(),
            r@.signature.hash == keccak_of(
                enc_digest_payload(
                    self.title@,
                    self.auditor@,
                    built_module_attributes(self.module_attributes),
                ),
            ),
    {
        let auditor = Auditor {
            name: clone_string(&self.auditor.name),
            uri: clone_string(&self.auditor.uri),
            authors: clone_strings(&self.auditor.authors),
        };
        let module_attributes = self.module_attributes.encode();
        let mut summary = AuditSummary {
            title: clone_string(&self.title),
            auditor,
            module_attributes,
            signature: Signature {
                sig_type,
                signer,
                signature_data: Vec::new(),
                hash: [0u8; 32],
            },
        };
        let actual_hash = summary.digest();
        summary.signature.hash = actual_hash;
        summary
    }
}

/// Copies a string.
fn clone_string(s: &String) -> (r: String)
    ensures
        r@ == s@,
{
    s.clone()
}

/// Copies a list of strings.
fn clone_strings(v: &Vec<String>) -> (r: Vec<String>)
    ensures
        r.deep_view() == v.deep_view(),
{
    let mut r: Vec<String> = Vec::new();
    let mut i: usize = 0;
    while i < v.len()
        invariant
            i <= v@.len(),
            r.deep_view() == v.deep_view().take(i as int),
        decreases v@.len() - i,
    {
        let ghost pre = r.deep_view();
        r.push(clone_string(&v[i]));
        proof {
            assert(r.deep_view() =~~= pre.push(v@[i as int]@));
            assert(v.deep_view()[i as int] == v@[i as int]@);
            assert(v.deep_view().take(i + 1) =~~= pre.push(v.deep_view()[i as int]));
        }
        i = i + 1;
    }
    proof {
        assert(v.deep_view().take(v@.len() as int) =~~= v.deep_view());
    }
    r
}

/// Two summaries with the same title, auditor and module attributes have
/// the same canonical digest payload, and so the same digest — whatever
/// their signature blocks hold.
pub proof fn lemma_digest_deterministic(s1: AuditSummaryView, s2: AuditSummaryView)
    requires
        s1.title == s2.title,
        s1.auditor == s2.auditor,
        s1.module_attributes == s2.module_attributes,
    ensures
        enc_digest_payload(s1.title, s1.auditor, s1.module_attributes) == enc_digest_payload(
            s2.title,
            s2.auditor,
            s2.module_attributes,
        ),
        keccak_of(enc_digest_payload(s1.title, s1.auditor, s1.module_attributes)) == keccak_of(
            enc_digest_payload(s2.title, s2.auditor, s2.module_attributes),
        ),
{
}

} // verus!
