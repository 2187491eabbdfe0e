use module_audit::types::{
    DecodeError, JsonExecutorAttributes, JsonExternalDependency, JsonFallbackAttributes,
    JsonGlobalAttributes, JsonHookAttributes, JsonValidatorAttributes,
};

fn sample_global() -> JsonGlobalAttributes {
    JsonGlobalAttributes {
        reentrancy_protection: true,
        important_data_validation: false,
        input_manipulation_protection: true,
        emits_events: true,
        module_owner_cant_rug: false,
        upgradeable: true,
        pausable: false,
        licensed_module: true,
        erc7562_storage_compliant: false,
        uninstall_clean_up: true,
    }
}

#[test]
fn test_global_attributes_pack_unpack() {
    let global_attrs = sample_global();

    let packed = global_attrs.pack();
    let unpacked = JsonGlobalAttributes::unpack(&packed).unwrap();

    assert_eq!(unpacked, global_attrs);
}

#[test]
fn test_validator_attributes_pack_unpack() {
    let validator_attrs = JsonValidatorAttributes {
        unscoped_validator: true,
        recovery_module: false,
        multiplexer: true,
    };

    let packed = validator_attrs.pack();
    let unpacked = JsonValidatorAttributes::unpack(&packed).unwrap();

    assert_eq!(unpacked, validator_attrs);
}

#[test]
fn test_executor_attributes_pack_unpack() {
    let executor_attrs = JsonExecutorAttributes {
        handles_user_assets: true,
        no_delegate_call: false,
        triggered_by_account: true,
        triggered_by_relayer: false,
        deterministic_execution: true,
    };

    let packed = executor_attrs.pack();
    let unpacked = JsonExecutorAttributes::unpack(&packed).unwrap();

    assert_eq!(unpacked, executor_attrs);
}

#[test]
fn test_fallback_attributes_pack_unpack() {
    let fallback_attrs = JsonFallbackAttributes {
        compatibility_feature: true,
        callbacks: false,
    };

    let packed = fallback_attrs.pack();
    let unpacked = JsonFallbackAttributes::unpack(&packed).unwrap();

    assert_eq!(unpacked, fallback_attrs);
}

#[test]
fn test_hook_attributes_pack_unpack() {
    let hook_attrs = JsonHookAttributes {
        default_allow: true,
        default_deny: false,
        access_control: true,
        module_control: false,
        user_control: true,
    };

    let packed = hook_attrs.pack();
    let unpacked = JsonHookAttributes::unpack(&packed).unwrap();

    assert_eq!(unpacked, hook_attrs);
}

#[test]
fn test_external_dependency_pack_unpack() {
    let external_dependency = JsonExternalDependency {
        oracle: true,
        bridges: false,
        dexs: true,
        vaults: false,
        registry: true,
        lending: false,
        liquidity_provision: true,
        governance: false,
        privacy: true,
        zk_provers: false,
        erc_deps: vec![],
    };

    let packed = external_dependency.pack();
    let unpacked = JsonExternalDependency::unpack(&packed).unwrap();

    assert_eq!(unpacked, external_dependency);
}

#[test]
fn test_invalid_byte_length() {
    // Invalid length for JsonGlobalAttributes (expects 10 bytes)
    let invalid_global = vec![0u8; 9];
    assert!(JsonGlobalAttributes::unpack(&invalid_global).is_err());

    // Invalid length for JsonValidatorAttributes (expects 3 bytes)
    let invalid_validator = vec![0u8; 2];
    assert!(JsonValidatorAttributes::unpack(&invalid_validator).is_err());

    // Invalid length for JsonExecutorAttributes (expects 5 bytes)
    let invalid_executor = vec![0u8; 4];
    assert!(JsonExecutorAttributes::unpack(&invalid_executor).is_err());

    // Invalid length for JsonFallbackAttributes (expects 2 bytes)
    let invalid_fallback = vec![0u8; 1];
    assert!(JsonFallbackAttributes::unpack(&invalid_fallback).is_err());

    // Invalid length for JsonHookAttributes (expects 5 bytes)
    let invalid_hook = vec![0u8; 4];
    assert!(JsonHookAttributes::unpack(&invalid_hook).is_err());

    // Invalid length for JsonExternalDependency (expects 10 bytes)
    let invalid_external = vec![0u8; 9];
    assert!(JsonExternalDependency::unpack(&invalid_external).is_err());
}

#[test]
fn test_global_pack_bytes() {
    assert_eq!(sample_global().pack(), vec![1u8, 0, 1, 1, 0, 1, 0, 1, 0, 1]);
}

#[test]
fn test_validator_fallback_pack_bytes() {
    let validator_attrs = JsonValidatorAttributes {
        unscoped_validator: true,
        recovery_module: false,
        multiplexer: true,
    };
    assert_eq!(validator_attrs.pack(), vec![1u8, 0, 1]);

    let fallback_attrs = JsonFallbackAttributes {
        compatibility_feature: true,
        callbacks: false,
    };
    assert_eq!(fallback_attrs.pack(), vec![1u8, 0]);
}

#[test]
fn test_invalid_length_boundaries() {
    // one byte short and one byte long, with the expected/actual counts named
    let short = vec![0u8; 9];
    assert_eq!(
        JsonGlobalAttributes::unpack(&short),
        Err(DecodeError::InvalidLength {
            expected: 10,
            actual: 9,
        })
    );
    let long = vec![0u8; 11];
    assert_eq!(
        JsonGlobalAttributes::unpack(&long),
        Err(DecodeError::InvalidLength {
            expected: 10,
            actual: 11,
        })
    );

    let short_v = vec![1u8, 1];
    assert_eq!(
        JsonValidatorAttributes::unpack(&short_v),
        Err(DecodeError::InvalidLength {
            expected: 3,
            actual: 2,
        })
    );
    let long_v = vec![1u8, 1, 1, 1];
    assert_eq!(
        JsonValidatorAttributes::unpack(&long_v),
        Err(DecodeError::InvalidLength {
            expected: 3,
            actual: 4,
        })
    );

    let short_e = vec![0u8; 4];
    assert_eq!(
        JsonExecutorAttributes::unpack(&short_e),
        Err(DecodeError::InvalidLength {
            expected: 5,
            actual: 4,
        })
    );
    let long_e = vec![0u8; 6];
    assert_eq!(
        JsonExecutorAttributes::unpack(&long_e),
        Err(DecodeError::InvalidLength {
            expected: 5,
            actual: 6,
        })
    );

    let short_f = vec![0u8; 1];
    assert_eq!(
        JsonFallbackAttributes::unpack(&short_f),
        Err(DecodeError::InvalidLength {
            expected: 2,
            actual: 1,
        })
    );
    let long_f = vec![0u8; 3];
    assert_eq!(
        JsonFallbackAttributes::unpack(&long_f),
        Err(DecodeError::InvalidLength {
            expected: 2,
            actual: 3,
        })
    );

    let short_h = vec![0u8; 4];
    assert_eq!(
        JsonHookAttributes::unpack(&short_h),
        Err(DecodeError::InvalidLength {
            expected: 5,
            actual: 4,
        })
    );
    let long_h = vec![0u8; 6];
    assert_eq!(
        JsonHookAttributes::unpack(&long_h),
        Err(DecodeError::InvalidLength {
            expected: 5,
            actual: 6,
        })
    );

    let short_x = vec![0u8; 9];
    assert_eq!(
        JsonExternalDependency::unpack(&short_x),
        Err(DecodeError::InvalidLength {
            expected: 10,
            actual: 9,
        })
    );
    let long_x = vec![0u8; 11];
    assert_eq!(
        JsonExternalDependency::unpack(&long_x),
        Err(DecodeError::InvalidLength {
            expected: 10,
            actual: 11,
        })
    );
}

#[test]
fn test_unpack_nonzero_bytes_are_true() {
    // any nonzero byte means true, by design
    let bytes = vec![0u8, 2, 0xff, 1, 0, 0, 7, 0, 0, 0];
    let g = JsonGlobalAttributes::unpack(&bytes).unwrap();
    assert!(!g.reentrancy_protection);
    assert!(g.important_data_validation);
    assert!(g.input_manipulation_protection);
    assert!(g.emits_events);
    assert!(!g.module_owner_cant_rug);
    assert!(!g.upgradeable);
    assert!(g.pausable);
    assert!(!g.licensed_module);
    assert!(!g.erc7562_storage_compliant);
    assert!(!g.uninstall_clean_up);
}

#[test]
fn test_external_unpack_empty_erc_deps() {
    // the packed bytes never carry dependency identifiers
    let external = JsonExternalDependency {
        oracle: false,
        bridges: true,
        dexs: false,
        vaults: true,
        registry: false,
        lending: true,
        liquidity_provision: false,
        governance: true,
        privacy: false,
        zk_provers: true,
        erc_deps: vec![7, 20, 721],
    };
    let packed = external.pack();
    assert_eq!(packed, vec![0u8, 1, 0, 1, 0, 1, 0, 1, 0, 1]);
    let unpacked = JsonExternalDependency::unpack(&packed).unwrap();
    assert!(unpacked.erc_deps.is_empty());
    assert_eq!(unpacked.bridges, external.bridges);
    assert_eq!(unpacked.zk_provers, external.zk_provers);
}
