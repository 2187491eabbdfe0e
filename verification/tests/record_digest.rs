use alloy_sol_types::sol_data;
use alloy_sol_types::SolType;

use module_audit::types::{
    Address, Input, JsonAuditor, JsonExecutorAttributes, JsonExternalDependency,
    JsonFallbackAttributes, JsonGlobalAttributes, JsonHookAttributes, JsonModuleAttributes,
    JsonValidatorAttributes, ModuleType, SignatureType,
};

// The ABI shape of the digest payload triple, spelled out for the
// independent-encoder cross check (structs encode as tuples).
type DigestTuple = (
    sol_data::String,
    (sol_data::String, sol_data::String, sol_data::Array<sol_data::String>),
    (
        sol_data::Address,
        sol_data::Bytes,
        sol_data::Array<(sol_data::Uint<8>, sol_data::Bytes)>,
        sol_data::Bytes,
        sol_data::Array<sol_data::Uint<16>>,
    ),
);

// The ABI shape of the full summary, with the signature block as its
// fourth member.
type SummaryTuple = (
    sol_data::String,
    (sol_data::String, sol_data::String, sol_data::Array<sol_data::String>),
    (
        sol_data::Address,
        sol_data::Bytes,
        sol_data::Array<(sol_data::Uint<8>, sol_data::Bytes)>,
        sol_data::Bytes,
        sol_data::Array<sol_data::Uint<16>>,
    ),
    (sol_data::Uint<8>, sol_data::Address, sol_data::Bytes, sol_data::FixedBytes<32>),
);

fn sample_module_attrs() -> JsonModuleAttributes {
    JsonModuleAttributes {
        module_address: Address::new([0x42; 20]),
        global_attributes: JsonGlobalAttributes {
            reentrancy_protection: true,
            important_data_validation: false,
            input_manipulation_protection: true,
            emits_events: true,
            module_owner_cant_rug: false,
            upgradeable: true,
            pausable: false,
            licensed_module: true,
            erc7562_storage_compliant: false,
            uninstall_clean_up: true,
        },
        validator_attributes: JsonValidatorAttributes {
            unscoped_validator: true,
            recovery_module: false,
            multiplexer: true,
        },
        executor_attributes: JsonExecutorAttributes {
            handles_user_assets: true,
            no_delegate_call: false,
            triggered_by_account: true,
            triggered_by_relayer: false,
            deterministic_execution: true,
        },
        fallback_attributes: JsonFallbackAttributes {
            compatibility_feature: true,
            callbacks: false,
        },
        hook_attributes: JsonHookAttributes {
            default_allow: true,
            default_deny: false,
            access_control: true,
            module_control: false,
            user_control: true,
        },
        external_dependency: JsonExternalDependency {
            oracle: true,
            bridges: false,
            dexs: true,
            vaults: false,
            registry: true,
            lending: false,
            liquidity_provision: true,
            governance: false,
            privacy: true,
            zk_provers: false,
            erc_deps: vec![],
        },
    }
}

fn sample_input() -> Input {
    Input {
        title: String::from("Audit of ExampleModule"),
        auditor: JsonAuditor {
            name: String::from("Example Security"),
            uri: String::from("https://example.invalid/audits"),
            authors: vec![String::from("A. Author"), String::from("B. Author")],
        },
        report_url: String::from("https://example.invalid/report.pdf"),
        signer: Address::new([0x11; 20]),
        module_attributes: sample_module_attrs(),
        signature: None,
    }
}

#[test]
fn test_module_attributes_encode() {
    let module_attrs = sample_module_attrs();

    let encoded = module_attrs.encode();

    assert_eq!(encoded.module_address, module_attrs.module_address);
    assert_eq!(encoded.packed_attributes, module_attrs.global_attributes.pack());
    assert_eq!(
        encoded.packed_external_dependency,
        module_attrs.external_dependency.pack()
    );
    assert_eq!(encoded.type_attributes.len(), 4);

    assert_eq!(encoded.type_attributes[0].module_type, ModuleType::Validator);
    assert_eq!(
        encoded.type_attributes[0].encoded_attributes,
        module_attrs.validator_attributes.pack()
    );

    assert_eq!(encoded.type_attributes[1].module_type, ModuleType::Executor);
    assert_eq!(
        encoded.type_attributes[1].encoded_attributes,
        module_attrs.executor_attributes.pack()
    );

    assert_eq!(encoded.type_attributes[2].module_type, ModuleType::Fallback);
    assert_eq!(
        encoded.type_attributes[2].encoded_attributes,
        module_attrs.fallback_attributes.pack()
    );

    assert_eq!(encoded.type_attributes[3].module_type, ModuleType::Hook);
    assert_eq!(
        encoded.type_attributes[3].encoded_attributes,
        module_attrs.hook_attributes.pack()
    );
}

#[test]
fn test_module_record_scenario() {
    // the concrete packed bytes of each per-type group, in the fixed order
    let encoded = sample_module_attrs().encode();
    assert_eq!(encoded.type_attributes.len(), 4);
    assert_eq!(encoded.type_attributes[0].module_type, ModuleType::Validator);
    assert_eq!(encoded.type_attributes[0].encoded_attributes, vec![1u8, 0, 1]);
    assert_eq!(encoded.type_attributes[1].module_type, ModuleType::Executor);
    assert_eq!(encoded.type_attributes[1].encoded_attributes, vec![1u8, 0, 1, 0, 1]);
    assert_eq!(encoded.type_attributes[2].module_type, ModuleType::Fallback);
    assert_eq!(encoded.type_attributes[2].encoded_attributes, vec![1u8, 0]);
    assert_eq!(encoded.type_attributes[3].module_type, ModuleType::Hook);
    assert_eq!(encoded.type_attributes[3].encoded_attributes, vec![1u8, 0, 1, 0, 1]);
    assert_eq!(encoded.packed_attributes, vec![1u8, 0, 1, 1, 0, 1, 0, 1, 0, 1]);
}

#[test]
fn test_type_attributes_order_all_false() {
    // the four entries and their order do not depend on the flag values
    let mut attrs = sample_module_attrs();
    attrs.validator_attributes = JsonValidatorAttributes {
        unscoped_validator: false,
        recovery_module: false,
        multiplexer: false,
    };
    attrs.executor_attributes = JsonExecutorAttributes {
        handles_user_assets: false,
        no_delegate_call: false,
        triggered_by_account: false,
        triggered_by_relayer: false,
        deterministic_execution: false,
    };
    attrs.fallback_attributes = JsonFallbackAttributes {
        compatibility_feature: false,
        callbacks: false,
    };
    attrs.hook_attributes = JsonHookAttributes {
        default_allow: false,
        default_deny: false,
        access_control: false,
        module_control: false,
        user_control: false,
    };
    let encoded = attrs.encode();
    assert_eq!(encoded.type_attributes.len(), 4);
    assert_eq!(encoded.type_attributes[0].module_type, ModuleType::Validator);
    assert_eq!(encoded.type_attributes[0].encoded_attributes, vec![0u8, 0, 0]);
    assert_eq!(encoded.type_attributes[1].module_type, ModuleType::Executor);
    assert_eq!(encoded.type_attributes[1].encoded_attributes, vec![0u8; 5]);
    assert_eq!(encoded.type_attributes[2].module_type, ModuleType::Fallback);
    assert_eq!(encoded.type_attributes[2].encoded_attributes, vec![0u8, 0]);
    assert_eq!(encoded.type_attributes[3].module_type, ModuleType::Hook);
    assert_eq!(encoded.type_attributes[3].encoded_attributes, vec![0u8; 5]);
}

#[test]
fn test_summary_assembly() {
    let input = sample_input();
    let summary = input.encode(SignatureType::Secp256k1, Address::new([0x11; 20]));
    assert_eq!(summary.title, input.title);
    assert_eq!(summary.auditor.name, input.auditor.name);
    assert_eq!(summary.auditor.uri, input.auditor.uri);
    assert_eq!(summary.auditor.authors, input.auditor.authors);
    assert_eq!(summary.signature.sig_type, SignatureType::Secp256k1);
    assert_eq!(summary.signature.signer, Address::new([0x11; 20]));
    assert!(summary.signature.signature_data.is_empty());
    // the embedded hash is the digest of the summary's own content
    assert_eq!(summary.signature.hash, summary.digest());
}

#[test]
fn test_digest_ignores_signature() {
    let input = sample_input();
    let summary = input.encode(SignatureType::Secp256k1, Address::new([0x11; 20]));
    let mut tampered = summary.clone();
    tampered.signature.signature_data = vec![0xde, 0xad, 0xbe, 0xef];
    tampered.signature.hash = [0x99; 32];
    assert_eq!(summary.digest(), tampered.digest());

    // but the full on-chain encoding does see the signature block
    assert_ne!(summary.abi_encode(), tampered.abi_encode());
}

#[test]
fn test_digest_flag_sensitivity() {
    let input = sample_input();
    let base = input.encode(SignatureType::Secp256k1, Address::new([0x11; 20]));

    let mut flipped = sample_input();
    flipped.module_attributes.global_attributes.pausable = true;
    let changed = flipped.encode(SignatureType::Secp256k1, Address::new([0x11; 20]));
    assert_ne!(base.digest(), changed.digest());

    let mut flipped2 = sample_input();
    flipped2.module_attributes.hook_attributes.module_control = true;
    let changed2 = flipped2.encode(SignatureType::Secp256k1, Address::new([0x11; 20]));
    assert_ne!(base.digest(), changed2.digest());

    let mut flipped3 = sample_input();
    flipped3.module_attributes.external_dependency.bridges = true;
    let changed3 = flipped3.encode(SignatureType::Secp256k1, Address::new([0x11; 20]));
    assert_ne!(base.digest(), changed3.digest());
}

#[test]
fn test_digest_matches_keccak_of_payload() {
    // the digest is exactly Keccak-256 over the canonical payload
    let input = sample_input();
    let summary = input.encode(SignatureType::Secp256k1, Address::new([0x11; 20]));
    let payload = summary.encode();
    let expected = alloy_primitives::keccak256(payload.as_slice());
    assert_eq!(summary.digest().to_vec(), expected.to_vec());
}

#[test]
fn test_payload_layout() {
    // the canonical payload opens with the offset word to the encoded
    // triple, then the triple's own offset words
    let input = sample_input();
    let summary = input.encode(SignatureType::Secp256k1, Address::new([0x11; 20]));
    let payload = summary.encode();
    assert_eq!(payload.len() % 32, 0);
    // first word: offset 32 to the triple; second word: offset 96 to the
    // title tail within it
    let mut w0 = vec![0u8; 32];
    w0[31] = 32;
    assert_eq!(&payload[0..32], w0.as_slice());
    let mut w1 = vec![0u8; 32];
    w1[31] = 96;
    assert_eq!(&payload[32..64], w1.as_slice());
    // the title tail begins with the title's byte length
    let title_len = summary.title.len();
    assert_eq!(payload[32 + 96 + 31] as usize, title_len);
}

#[test]
fn test_payload_matches_independent_encoder() {
    // the canonical payload is byte-identical to what an independent ABI
    // encoder produces for the same {title, auditor, moduleAttributes}
    // value (structs encode as tuples)
    let input = sample_input();
    let summary = input.encode(SignatureType::Secp256k1, Address::new([0x11; 20]));

    let title = summary.title.clone();
    let auditor = (
        summary.auditor.name.clone(),
        summary.auditor.uri.clone(),
        summary.auditor.authors.clone(),
    );
    let type_attributes: Vec<(u8, alloy_primitives::Bytes)> = summary
        .module_attributes
        .type_attributes
        .iter()
        .map(|t| {
            (
                t.module_type.code(),
                alloy_primitives::Bytes::from(t.encoded_attributes.clone()),
            )
        })
        .collect();
    let module_attributes = (
        alloy_primitives::Address::from(summary.module_attributes.module_address.bytes),
        alloy_primitives::Bytes::from(summary.module_attributes.packed_attributes.clone()),
        type_attributes,
        alloy_primitives::Bytes::from(
            summary.module_attributes.packed_external_dependency.clone(),
        ),
        summary.module_attributes.erc_deps.clone(),
    );
    let value = (title, auditor, module_attributes);
    let expected = <DigestTuple as SolType>::abi_encode(&value);

    assert_eq!(summary.encode(), expected);
}

#[test]
fn test_full_encoding_matches_independent_encoder() {
    // the full on-chain encoding, signature block included, is also
    // byte-identical to an independent ABI encoder's output
    let input = sample_input();
    let mut summary = input.encode(SignatureType::Secp256k1, Address::new([0x11; 20]));
    summary.signature.signature_data = vec![0xaa, 0xbb];

    let title = summary.title.clone();
    let auditor = (
        summary.auditor.name.clone(),
        summary.auditor.uri.clone(),
        summary.auditor.authors.clone(),
    );
    let type_attributes: Vec<(u8, alloy_primitives::Bytes)> = summary
        .module_attributes
        .type_attributes
        .iter()
        .map(|t| {
            (
                t.module_type.code(),
                alloy_primitives::Bytes::from(t.encoded_attributes.clone()),
            )
        })
        .collect();
    let module_attributes = (
        alloy_primitives::Address::from(summary.module_attributes.module_address.bytes),
        alloy_primitives::Bytes::from(summary.module_attributes.packed_attributes.clone()),
        type_attributes,
        alloy_primitives::Bytes::from(
            summary.module_attributes.packed_external_dependency.clone(),
        ),
        summary.module_attributes.erc_deps.clone(),
    );
    let signature = (
        summary.signature.sig_type.code(),
        alloy_primitives::Address::from(summary.signature.signer.bytes),
        alloy_primitives::Bytes::from(summary.signature.signature_data.clone()),
        alloy_primitives::FixedBytes::<32>::from(summary.signature.hash),
    );
    let value = (title, auditor, module_attributes, signature);
    let expected = <SummaryTuple as SolType>::abi_encode(&value);

    assert_eq!(summary.abi_encode(), expected);
}

#[test]
fn test_encode_word_and_bytes() {
    let w = module_audit::abi::encode_word(0x0102);
    let mut expected = vec![0u8; 32];
    expected[30] = 1;
    expected[31] = 2;
    assert_eq!(w, expected);

    let b = module_audit::abi::abi_encode_bytes(&[9, 8, 7]);
    let mut expected_b = vec![0u8; 32];
    expected_b[31] = 3;
    expected_b.extend_from_slice(&[9, 8, 7]);
    expected_b.extend_from_slice(&[0u8; 29]);
    assert_eq!(b, expected_b);
}
