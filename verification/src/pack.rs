//! Attribute packing: each group of boolean flags maps to a fixed-order
//! byte sequence, one byte per flag, `0x01` for true and `0x00` for false.
//! Unpacking accepts exactly the group's declared byte count and treats any
//! nonzero byte as true.

use vstd::prelude::*;

use crate::types::{
    DecodeError, JsonExecutorAttributes, JsonExternalDependency, JsonFallbackAttributes,
    JsonGlobalAttributes, JsonHookAttributes, JsonValidatorAttributes,
};

verus! {

/// The single wire byte for one boolean flag.
pub open spec fn bool_byte(b: bool) -> u8 {
    if b {
        1
    } else {
        0
    }
}

/// Packed form of the global attribute group: ten bytes in field order.
pub open spec fn spec_pack_global(g: JsonGlobalAttributes) -> Seq<u8> {
    seq![
        bool_byte(g.reentrancy_protection),
        bool_byte(g.important_data_validation),
        bool_byte(g.input_manipulation_protection),
        bool_byte(g.emits_events),
        bool_byte(g.module_owner_cant_rug),
        bool_byte(g.upgradeable),
        bool_byte(g.pausable),
        bool_byte(g.licensed_module),
        bool_byte(g.erc7562_storage_compliant),
        bool_byte(g.uninstall_clean_up),
    ]
}

/// The group a ten-byte blob decodes to: any nonzero byte means true.
pub open spec fn spec_unpack_global(b: Seq<u8>) -> JsonGlobalAttributes
    recommends
        b.len() == 10,
{
    JsonGlobalAttributes {
        reentrancy_protection: b[0] != 0,
        important_data_validation: b[1] != 0,
        input_manipulation_protection: b[2] != 0,
        emits_events: b[3] != 0,
        module_owner_cant_rug: b[4] != 0,
        upgradeable: b[5] != 0,
        pausable: b[6] != 0,
        licensed_module: b[7] != 0,
        erc7562_storage_compliant: b[8] != 0,
        uninstall_clean_up: b[9] != 0,
    }
}

impl JsonGlobalAttributes {
    /// Packs the ten global flags into ten bytes, in field order.
    pub fn pack(&self) -> (r: Vec<u8>)
        ensures
            r@ == spec_pack_global(*self),
            r@.len() == 10,
    {
        let r: Vec<u8> = vec![
            if self.reentrancy_protection { 1 } else { 0 },
            if self.important_data_validation { 1 } else { 0 },
            if self.input_manipulation_protection { 1 } else { 0 },
            if self.emits_events { 1 } else { 0 },
            if self.module_owner_cant_rug { 1 } else { 0 },
            if self.upgradeable { 1 } else { 0 },
            if self.pausable { 1 } else { 0 },
            if self.licensed_module { 1 } else { 0 },
            if self.erc7562_storage_compliant { 1 } else { 0 },
            if self.uninstall_clean_up { 1 } else { 0 },
        ];
        proof {
            assert(r@ =~= spec_pack_global(*self));
        }
        r
    }

    /// Decodes ten bytes back into the global flags; any other length is an
    /// `InvalidLength` error naming the expected and actual counts.
    pub fn unpack(bytes: &Vec<u8>) -> (r: Result<Self, DecodeError>)
        ensures
            r is Ok <==> bytes@.len() == 10,
            r is Ok ==> r->Ok_0 == spec_unpack_global(bytes@),
            r is Err ==> r->Err_0 == (DecodeError::InvalidLength {
                expected: 10,
                actual: bytes@.len() as usize,
            }),
    {
        if bytes.len() != 10 {
            return Err(DecodeError::InvalidLength { expected: 10, actual: bytes.len() });
        }
        Ok(
            JsonGlobalAttributes {
                reentrancy_protection: bytes[0] != 0,
                important_data_validation: bytes[1] != 0,
                input_manipulation_protection: bytes[2] != 0,
                emits_events: bytes[3] != 0,
                module_owner_cant_rug: bytes[4] != 0,
                upgradeable: bytes[5] != 0,
                pausable: bytes[6] != 0,
                licensed_module: bytes[7] != 0,
                erc7562_storage_compliant: bytes[8] != 0,
                uninstall_clean_up: bytes[9] != 0,
            },
        )
    }
}

/// Packed form of the validator attribute group: three bytes in field order.
pub open spec fn spec_pack_validator(v: JsonValidatorAttributes) -> Seq<u8> {
    seq![
        bool_byte(v.unscoped_validator),
        bool_byte(v.recovery_module),
        bool_byte(v.multiplexer),
    ]
}

/// The group a three-byte blob decodes to: any nonzero byte means true.
pub open spec fn spec_unpack_validator(b: Seq<u8>) -> JsonValidatorAttributes
    recommends
        b.len() == 3,
{
    JsonValidatorAttributes {
        unscoped_validator: b[0] != 0,
        recovery_module: b[1] != 0,
        multiplexer: b[2] != 0,
    }
}

impl JsonValidatorAttributes {
    /// Packs the three validator flags into three bytes, in field order.
    pub fn pack(&self) -> (r: Vec<u8>)
        ensures
            r@ == spec_pack_validator(*self),
            r@.len() == 3,
    {
        let r: Vec<u8> = vec![
            if self.unscoped_validator { 1 } else { 0 },
            if self.recovery_module { 1 } else { 0 },
            if self.multiplexer { 1 } else { 0 },
        ];
        proof {
            assert(r@ =~= spec_pack_validator(*self));
        }
        r
    }

    /// Decodes three bytes back into the validator flags; any other length
    /// is an `InvalidLength` error naming the expected and actual counts.
    pub fn unpack(bytes: &Vec<u8>) -> (r: Result<Self, DecodeError>)
        ensures
            r is Ok <==> bytes@.len() == 3,
            r is Ok ==> r->Ok_0 == spec_unpack_validator(bytes@),
            r is Err ==> r->Err_0 == (DecodeError::InvalidLength {
                expected: 3,
                actual: bytes@.len() as usize,
            }),
    {
        if bytes.len() != 3 {
            return Err(DecodeError::InvalidLength { expected: 3, actual: bytes.len() });
        }
        Ok(
            JsonValidatorAttributes {
                unscoped_validator: bytes[0] != 0,
                recovery_module: bytes[1] != 0,
                multiplexer: bytes[2] != 0,
            },
        )
    }
}

/// Packed form of the executor attribute group: five bytes in field order.
pub open spec fn spec_pack_executor(e: JsonExecutorAttributes) -> Seq<u8> {
    seq![
        bool_byte(e.handles_user_assets),
        bool_byte(e.no_delegate_call),
        bool_byte(e.triggered_by_account),
        bool_byte(e.triggered_by_relayer),
        bool_byte(e.deterministic_execution),
    ]
}

/// The group a five-byte blob decodes to: any nonzero byte means true.
pub open spec fn spec_unpack_executor(b: Seq<u8>) -> JsonExecutorAttributes
    recommends
        b.len() == 5,
{
    JsonExecutorAttributes {
        handles_user_assets: b[0] != 0,
        no_delegate_call: b[1] != 0,
        triggered_by_account: b[2] != 0,
        triggered_by_relayer: b[3] != 0,
        deterministic_execution: b[4] != 0,
    }
}

impl JsonExecutorAttributes {
    /// Packs the five executor flags into five bytes, in field order.
    pub fn pack(&self) -> (r: Vec<u8>)
        ensures
            r@ == spec_pack_executor(*self),
            r@.len() == 5,
    {
        let r: Vec<u8> = vec![
            if self.handles_user_assets { 1 } else { 0 },
            if self.no_delegate_call { 1 } else { 0 },
            if self.triggered_by_account { 1 } else { 0 },
            if self.triggered_by_relayer { 1 } else { 0 },
            if self.deterministic_execution { 1 } else { 0 },
        ];
        proof {
            assert(r@ =~= spec_pack_executor(*self));
        }
        r
    }

    /// Decodes five bytes back into the executor flags; any other length is
    /// an `InvalidLength` error naming the expected and actual counts.
    pub fn unpack(bytes: &Vec<u8>) -> (r: Result<Self, DecodeError>)
        ensures
            r is Ok <==> bytes@.len() == 5,
            r is Ok ==> r->Ok_0 == spec_unpack_executor(bytes@),
            r is Err ==> r->Err_0 == (DecodeError::InvalidLength {
                expected: 5,
                actual: bytes@.len() as usize,
            }),
    {
        if bytes.len() != 5 {
            return Err(DecodeError::InvalidLength { expected: 5, actual: bytes.len() });
        }
        Ok(
            JsonExecutorAttributes {
                handles_user_assets: bytes[0] != 0,
                no_delegate_call: bytes[1] != 0,
                triggered_by_account: bytes[2] != 0,
                triggered_by_relayer: bytes[3] != 0,
                deterministic_execution: bytes[4] != 0,
            },
        )
    }
}

/// Packed form of the fallback attribute group: two bytes in field order.
pub open spec fn spec_pack_fallback(f: JsonFallbackAttributes) -> Seq<u8> {
    seq![bool_byte(f.compatibility_feature), bool_byte(f.callbacks)]
}

/// The group a two-byte blob decodes to: any nonzero byte means true.
pub open spec fn spec_unpack_fallback(b: Seq<u8>) -> JsonFallbackAttributes
    recommends
        b.len() == 2,
{
    JsonFallbackAttributes { compatibility_feature: b[0] != 0, callbacks: b[1] != 0 }
}

impl JsonFallbackAttributes {
    /// Packs the two fallback flags into two bytes, in field order.
    pub fn pack(&self) -> (r: Vec<u8>)
        ensures
            r@ == spec_pack_fallback(*self),
            r@.len() == 2,
    {
        let r: Vec<u8> = vec![
            if self.compatibility_feature { 1 } else { 0 },
            if self.callbacks { 1 } else { 0 },
        ];
        proof {
            assert(r@ =~= spec_pack_fallback(*self));
        }
        r
    }

    /// Decodes two bytes back into the fallback flags; any other length is
    /// an `InvalidLength` error naming the expected and actual counts.
    pub fn unpack(bytes: &Vec<u8>) -> (r: Result<Self, DecodeError>)
        ensures
            r is Ok <==> bytes@.len() == 2,
            r is Ok ==> r->Ok_0 == spec_unpack_fallback(bytes@),
            r is Err ==> r->Err_0 == (DecodeError::InvalidLength {
                expected: 2,
                actual: bytes@.len() as usize,
            }),
    {
        if bytes.len() != 2 {
            return Err(DecodeError::InvalidLength { expected: 2, actual: bytes.len() });
        }
        Ok(JsonFallbackAttributes { compatibility_feature: bytes[0] != 0, callbacks: bytes[1] != 0 })
    }
}

/// Packed form of the hook attribute group: five bytes in field order.
pub open spec fn spec_pack_hook(h: JsonHookAttributes) -> Seq<u8> {
    seq![
        bool_byte(h.default_allow),
        bool_byte(h.default_deny),
        bool_byte(h.access_control),
        bool_byte(h.module_control),
        bool_byte(h.user_control),
    ]
}

/// The group a five-byte blob decodes to: any nonzero byte means true.
pub open spec fn spec_unpack_hook(b: Seq<u8>) -> JsonHookAttributes
    recommends
        b.len() == 5,
{
    JsonHookAttributes {
        default_allow: b[0] != 0,
        default_deny: b[1] != 0,
        access_control: b[2] != 0,
        module_control: b[3] != 0,
        user_control: b[4] != 0,
    }
}

impl JsonHookAttributes {
    /// Packs the five hook flags into five bytes, in field order.
    pub fn pack(&self) -> (r: Vec<u8>)
        ensures
            r@ == spec_pack_hook(*self),
            r@.len() == 5,
    {
        let r: Vec<u8> = vec![
            if self.default_allow { 1 } else { 0 },
            if self.default_deny { 1 } else { 0 },
            if self.access_control { 1 } else { 0 },
            if self.module_control { 1 } else { 0 },
            if self.user_control { 1 } else { 0 },
        ];
        proof {
            assert(r@ =~= spec_pack_hook(*self));
        }
        r
    }

    /// Decodes five bytes back into the hook flags; any other length is an
    /// `InvalidLength` error naming the expected and actual counts.
    pub fn unpack(bytes: &Vec<u8>) -> (r: Result<Self, DecodeError>)
        ensures
            r is Ok <==> bytes@.len() == 5,
            r is Ok ==> r->Ok_0 == spec_unpack_hook(bytes@),
            r is Err ==> r->Err_0 == (DecodeError::InvalidLength {
                expected: 5,
                actual: bytes@.len() as usize,
            }),
    {
        if bytes.len() != 5 {
            return Err(DecodeError::InvalidLength { expected: 5, actual: bytes.len() });
        }
        Ok(
            JsonHookAttributes {
                default_allow: bytes[0] != 0,
                default_deny: bytes[1] != 0,
                access_control: bytes[2] != 0,
                module_control: bytes[3] != 0,
                user_control: bytes[4] != 0,
            },
        )
    }
}

/// Packed form of the external-dependency group: ten bytes in field order.
/// The `erc_deps` identifiers travel beside the packed bytes, never inside
/// them.
pub open spec fn spec_pack_external(x: JsonExternalDependency) -> Seq<u8> {
    seq![
        bool_byte(x.oracle),
        bool_byte(x.bridges),
        bool_byte(x.dexs),
        bool_byte(x.vaults),
        bool_byte(x.registry),
        bool_byte(x.lending),
        bool_byte(x.liquidity_provision),
        bool_byte(x.governance),
        bool_byte(x.privacy),
        bool_byte(x.zk_provers),
    ]
}

/// The group a ten-byte blob decodes to: any nonzero byte means true.
/// The packed bytes carry no dependency identifiers, so the decoded
/// `erc_deps` list is supplied separately (the decoder hands back an empty
/// one).
pub open spec fn spec_unpack_external(b: Seq<u8>, deps: Vec<u16>) -> JsonExternalDependency
    recommends
        b.len() == 10,
{
    JsonExternalDependency {
        oracle: b[0] != 0,
        bridges: b[1] != 0,
        dexs: b[2] != 0,
        vaults: b[3] != 0,
        registry: b[4] != 0,
        lending: b[5] != 0,
        liquidity_provision: b[6] != 0,
        governance: b[7] != 0,
        privacy: b[8] != 0,
        zk_provers: b[9] != 0,
        erc_deps: deps,
    }
}

impl JsonExternalDependency {
    /// Packs the ten external-dependency flags into ten bytes, in field
    /// order.  `erc_deps` is not part of the packed bytes.
    pub fn pack(&self) -> (r: Vec<u8>)
        ensures
            r@ == spec_pack_external(*self),
            r@.len() == 10,
    {
        let r: Vec<u8> = vec![
            if self.oracle { 1 } else { 0 },
            if self.bridges { 1 } else { 0 },
            if self.dexs { 1 } else { 0 },
            if self.vaults { 1 } else { 0 },
            if self.registry { 1 } else { 0 },
            if self.lending { 1 } else { 0 },
            if self.liquidity_provision { 1 } else { 0 },
            if self.governance { 1 } else { 0 },
            if self.privacy { 1 } else { 0 },
            if self.zk_provers { 1 } else { 0 },
        ];
        proof {
            assert(r@ =~= spec_pack_external(*self));
        }
        r
    }

    /// Decodes ten bytes back into the external-dependency flags, with an
    /// empty `erc_deps` list; any other length is an `InvalidLength` error
    /// naming the expected and actual counts.
    pub fn unpack(bytes: &Vec<u8>) -> (r: Result<Self, DecodeError>)
        ensures
            r is Ok <==> bytes@.len() == 10,
            r is Ok ==> r->Ok_0 == spec_unpack_external(bytes@, r->Ok_0.erc_deps),
            r is Ok ==> r->Ok_0.erc_deps@ == Seq::<u16>::empty(),
            r is Err ==> r->Err_0 == (DecodeError::InvalidLength {
                expected: 10,
                actual: bytes@.len() as usize,
            }),
    {
        if bytes.len() != 10 {
            return Err(DecodeError::InvalidLength { expected: 10, actual: bytes.len() });
        }
        Ok(
            JsonExternalDependency {
                oracle: bytes[0] != 0,
                bridges: bytes[1] != 0,
                dexs: bytes[2] != 0,
                vaults: bytes[3] != 0,
                registry: bytes[4] != 0,
                lending: bytes[5] != 0,
                liquidity_provision: bytes[6] != 0,
                governance: bytes[7] != 0,
                privacy: bytes[8] != 0,
                zk_provers: bytes[9] != 0,
                erc_deps: Vec::new(),
            },
        )
    }
}

/// Round trip: unpacking a packed global group restores it exactly.
pub proof fn lemma_global_round_trip(g: JsonGlobalAttributes)
    ensures
        spec_unpack_global(spec_pack_global(g)) == g,
{
}

/// Round trip: unpacking a packed validator group restores it exactly.
pub proof fn lemma_validator_round_trip(v: JsonValidatorAttributes)
    ensures
        spec_unpack_validator(spec_pack_validator(v)) == v,
{
}

/// Round trip: unpacking a packed executor group restores it exactly.
pub proof fn lemma_executor_round_trip(e: JsonExecutorAttributes)
    ensures
        spec_unpack_executor(spec_pack_executor(e)) == e,
{
}

/// Round trip: unpacking a packed fallback group restores it exactly.
pub proof fn lemma_fallback_round_trip(f: JsonFallbackAttributes)
    ensures
        spec_unpack_fallback(spec_pack_fallback(f)) == f,
{
}

/// Round trip: unpacking a packed hook group restores it exactly.
pub proof fn lemma_hook_round_trip(h: JsonHookAttributes)
    ensures
        spec_unpack_hook(spec_pack_hook(h)) == h,
{
}

/// Round trip: unpacking a packed external-dependency group restores every
/// flag exactly.  The `erc_deps` list is not part of the packed bytes: the
/// decoder hands back an empty one, so the round trip is stated for an
/// arbitrary decoded list `deps`.
pub proof fn lemma_external_round_trip(x: JsonExternalDependency, deps: Vec<u16>)
    ensures
        spec_unpack_external(spec_pack_external(x), deps) == (JsonExternalDependency {
            erc_deps: deps,
            ..x
        }),
{
}

/// Packing is injective: two global groups with the same packed bytes are
/// the same group, so no information is lost by packing.
pub proof fn lemma_pack_global_injective(g1: JsonGlobalAttributes, g2: JsonGlobalAttributes)
    ensures
        spec_pack_global(g1) == spec_pack_global(g2) ==> g1 == g2,
{
    if spec_pack_global(g1) == spec_pack_global(g2) {
        assert(spec_pack_global(g1)[0] == spec_pack_global(g2)[0]);
        assert(spec_pack_global(g1)[1] == spec_pack_global(g2)[1]);
        assert(spec_pack_global(g1)[2] == spec_pack_global(g2)[2]);
        assert(spec_pack_global(g1)[3] == spec_pack_global(g2)[3]);
        assert(spec_pack_global(g1)[4] == spec_pack_global(g2)[4]);
        assert(spec_pack_global(g1)[5] == spec_pack_global(g2)[5]);
        assert(spec_pack_global(g1)[6] == spec_pack_global(g2)[6]);
        assert(spec_pack_global(g1)[7] == spec_pack_global(g2)[7]);
        assert(spec_pack_global(g1)[8] == spec_pack_global(g2)[8]);
        assert(spec_pack_global(g1)[9] == spec_pack_global(g2)[9]);
    }
}

/// Packing is injective: two validator groups with the same packed bytes
/// are the same group.
pub proof fn lemma_pack_validator_injective(
    v1: JsonValidatorAttributes,
    v2: JsonValidatorAttributes,
)
    ensures
        spec_pack_validator(v1) == spec_pack_validator(v2) ==> v1 == v2,
{
    if spec_pack_validator(v1) == spec_pack_validator(v2) {
        assert(spec_pack_validator(v1)[0] == spec_pack_validator(v2)[0]);
        assert(spec_pack_validator(v1)[1] == spec_pack_validator(v2)[1]);
        assert(spec_pack_validator(v1)[2] == spec_pack_validator(v2)[2]);
    }
}

/// Packing is injective: two executor groups with the same packed bytes
/// are the same group.
pub proof fn lemma_pack_executor_injective(e1: JsonExecutorAttributes, e2: JsonExecutorAttributes)
    ensures
        spec_pack_executor(e1) == spec_pack_executor(e2) ==> e1 == e2,
{
    if spec_pack_executor(e1) == spec_pack_executor(e2) {
        assert(spec_pack_executor(e1)[0] == spec_pack_executor(e2)[0]);
        assert(spec_pack_executor(e1)[1] == spec_pack_executor(e2)[1]);
        assert(spec_pack_executor(e1)[2] == spec_pack_executor(e2)[2]);
        assert(spec_pack_executor(e1)[3] == spec_pack_executor(e2)[3]);
        assert(spec_pack_executor(e1)[4] == spec_pack_executor(e2)[4]);
    }
}

/// Packing is injective: two fallback groups with the same packed bytes
/// are the same group.
pub proof fn lemma_pack_fallback_injective(f1: JsonFallbackAttributes, f2: JsonFallbackAttributes)
    ensures
        spec_pack_fallback(f1) == spec_pack_fallback(f2) ==> f1 == f2,
{
    if spec_pack_fallback(f1) == spec_pack_fallback(f2) {
        assert(spec_pack_fallback(f1)[0] == spec_pack_fallback(f2)[0]);
        assert(spec_pack_fallback(f1)[1] == spec_pack_fallback(f2)[1]);
    }
}

/// Packing is injective: two hook groups with the same packed bytes are
/// the same group.
pub proof fn lemma_pack_hook_injective(h1: JsonHookAttributes, h2: JsonHookAttributes)
    ensures
        spec_pack_hook(h1) == spec_pack_hook(h2) ==> h1 == h2,
{
    if spec_pack_hook(h1) == spec_pack_hook(h2) {
        assert(spec_pack_hook(h1)[0] == spec_pack_hook(h2)[0]);
        assert(spec_pack_hook(h1)[1] == spec_pack_hook(h2)[1]);
        assert(spec_pack_hook(h1)[2] == spec_pack_hook(h2)[2]);
        assert(spec_pack_hook(h1)[3] == spec_pack_hook(h2)[3]);
        assert(spec_pack_hook(h1)[4] == spec_pack_hook(h2)[4]);
    }
}

/// Packing is injective on the flags: two external-dependency groups with
/// the same packed bytes and the same `erc_deps` list are the same group.
pub proof fn lemma_pack_external_injective(
    x1: JsonExternalDependency,
    x2: JsonExternalDependency,
)
    ensures
        spec_pack_external(x1) == spec_pack_external(x2) && x1.erc_deps == x2.erc_deps ==> x1
            == x2,
{
    if spec_pack_external(x1) == spec_pack_external(x2) {
        assert(spec_pack_external(x1)[0] == spec_pack_external(x2)[0]);
        assert(spec_pack_external(x1)[1] == spec_pack_external(x2)[1]);
        assert(spec_pack_external(x1)[2] == spec_pack_external(x2)[2]);
        assert(spec_pack_external(x1)[3] == spec_pack_external(x2)[3]);
        assert(spec_pack_external(x1)[4] == spec_pack_external(x2)[4]);
        assert(spec_pack_external(x1)[5] == spec_pack_external(x2)[5]);
        assert(spec_pack_external(x1)[6] == spec_pack_external(x2)[6]);
        assert(spec_pack_external(x1)[7] == spec_pack_external(x2)[7]);
        assert(spec_pack_external(x1)[8] == spec_pack_external(x2)[8]);
        assert(spec_pack_external(x1)[9] == spec_pack_external(x2)[9]);
    }
}

} // verus!

