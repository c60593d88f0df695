use forgemod::structs::forgemod::{ForgeError, ForgeMod, ForgeModGeneric};
use forgemod::structs::v1::data;
use forgemod::structs::v1::manifest;
use forgemod::structs::v1::{
    unpack_v1_forgemod, unpack_v1_raw, DependencyBuilder, ForgeModTypes, IncludeBuilder,
    IncludeDataBuilder, ManifestBuilder, ManifestTypes, ManifestV1, ModBuilder,
};
use forgemod::version::{Requirement, Version};
use forgemod::wire::Wire;
use std::io::Write;

type ModEnvelope = ForgeMod<ManifestV1, manifest::Mod, data::Mod>;
type LibEnvelope = ForgeMod<ManifestV1, manifest::Lib, data::Lib>;
type ModuleEnvelope = ForgeMod<ManifestV1, manifest::Module, data::Module>;
type ParentEnvelope = ForgeMod<ManifestV1, manifest::Parent, data::Parent>;

fn xz(raw: &[u8]) -> Vec<u8> {
    let mut encoder = xz2::write::XzEncoder::new(Vec::new(), 6);
    encoder.write_all(raw).unwrap();
    encoder.finish().unwrap()
}

fn head(version: u32, kind: &str) -> Vec<u8> {
    let mut raw = Vec::new();
    ForgeModGeneric { format_version: version, kind: kind.to_string() }.encode(&mut raw);
    raw
}

fn full_mod() -> ModEnvelope {
    let mut m = ManifestBuilder::new_mod(
        "pp".to_string(),
        Version { major: 0, minor: 1, patch: 2, pre: "beta.1".to_string(), build: "sha.5".to_string() },
        Requirement::parse(">=1.23.4, <2").unwrap(),
        "./pp.dll".to_string(),
    );
    m.description("a mod".to_string())
        .website("https://example.org".to_string())
        .category("cosmetic".to_string())
        .pre_exec(Some("pre.sh".to_string()))
        .post_exec(Some("post.sh".to_string()))
        .includes(IncludeBuilder::new().add("./Plugins".into(), "a".into()).add("./Libs".into(), "b".into()).clone().build())
        .depends(
            DependencyBuilder::new()
                .add("zeta".to_string(), Requirement::parse("^1").unwrap())
                .add("alpha".to_string(), Requirement::any())
                .add("zeta".to_string(), Requirement::parse("^1").unwrap())
                .clone()
                .build(),
        )
        .conflicts(DependencyBuilder::new().add("old".to_string(), Requirement::parse("<0.3").unwrap()).clone().build());
    let mut b = ModBuilder::new_mod_raw(m.build(), (0..=255u8).collect());
    b.includes(
        IncludeDataBuilder::new()
            .add_raw("./Plugins".to_string(), vec![0xFF, 0xFF])
            .add_raw("./Libs".to_string(), vec![0; 1000])
            .clone()
            .build(),
    );
    b.build()
}

fn small_lib() -> LibEnvelope {
    ModBuilder::new_lib_raw(
        ManifestBuilder::new_lib("l".to_string(), Version::new(1, 0, 0), Requirement::any(), "l.dll".to_string()).build(),
        vec![1, 2, 3],
    )
    .build()
}

fn small_module() -> ModuleEnvelope {
    ModBuilder::new_module_raw(ManifestBuilder::new_module("m".to_string(), "m.dll".to_string()).build(), vec![4]).build()
}

fn small_parent() -> ParentEnvelope {
    let mut m = ManifestBuilder::new_module_parent("p".to_string(), Version::new(2, 0, 0), Requirement::any());
    m.modules(vec!["one".to_string(), "two".to_string()]);
    ModBuilder::new_module_parent(m.build()).build()
}

#[test]
fn round_trip_keeps_every_field_and_list_order() {
    let e = full_mod();
    let bin = e.pack().unwrap();
    let back = ModEnvelope::from_bytes(&bin).unwrap();
    assert_eq!(back, e);
    assert_eq!(back.manifest().inner().depends[0].name, "zeta");
    assert_eq!(back.manifest().inner().depends[1].name, "alpha");
    assert_eq!(back.manifest().inner().depends[2].name, "zeta");
    assert_eq!(back.manifest().inner().version.pre, "beta.1");
    assert_eq!(back.includes_data()[1].data.len(), 1000);
    assert_eq!(back.artifact_data().len(), 256);
}

#[test]
fn round_trip_of_every_kind() {
    assert_eq!(LibEnvelope::from_bytes(&small_lib().pack().unwrap()), Ok(small_lib()));
    assert_eq!(ModuleEnvelope::from_bytes(&small_module().pack().unwrap()), Ok(small_module()));
    assert_eq!(ParentEnvelope::from_bytes(&small_parent().pack().unwrap()), Ok(small_parent()));
    assert_eq!(ModEnvelope::from_bytes(&full_mod().pack().unwrap()), Ok(full_mod()));
}

#[test]
fn round_trip_of_raw_bytes() {
    assert_eq!(ModEnvelope::from_raw(&full_mod().to_raw()), Ok(full_mod()));
    assert_eq!(ParentEnvelope::from_raw(&small_parent().to_raw()), Ok(small_parent()));
}

#[test]
fn peek_agrees_with_the_envelope() {
    let e = full_mod();
    let peeked = ForgeModGeneric::from_bytes(&e.pack().unwrap()).unwrap();
    assert_eq!(peeked.kind(), e.kind());
    assert_eq!(peeked.format_version(), e.format_version());
    assert_eq!(peeked, ForgeModGeneric { format_version: 1, kind: "mod".to_string() });
    let p = ForgeModGeneric::from_bytes(&small_parent().pack().unwrap()).unwrap();
    assert_eq!(p, ForgeModGeneric { format_version: 1, kind: "parent".to_string() });
    let l = ForgeModGeneric::from_bytes(&small_lib().pack().unwrap()).unwrap();
    assert_eq!(l, ForgeModGeneric { format_version: 1, kind: "lib".to_string() });
    let m = ForgeModGeneric::from_bytes(&small_module().pack().unwrap()).unwrap();
    assert_eq!(m, ForgeModGeneric { format_version: 1, kind: "module".to_string() });
}

#[test]
fn peek_reads_a_head_whatever_follows() {
    let mut raw = head(7, "anything");
    raw.extend([0xDE, 0xAD]);
    assert_eq!(
        ForgeModGeneric::from_bytes(&xz(&raw)),
        Ok(ForgeModGeneric { format_version: 7, kind: "anything".to_string() })
    );
    assert_eq!(ForgeModGeneric::from_raw(&raw).unwrap().format_version(), 7);
}

#[test]
fn peek_fails_on_a_broken_head() {
    assert_eq!(ForgeModGeneric::from_raw(&[1, 0, 0]), Err(ForgeError::Decode));
    assert_eq!(ForgeModGeneric::from_raw(&[1, 0, 0, 0, 5, 0, 0, 0, 0, 0, 0, 0, b'm']), Err(ForgeError::Decode));
    assert_eq!(ForgeModGeneric::from_bytes(&xz(&[1, 0, 0])), Err(ForgeError::Decode));
    assert_eq!(ForgeModGeneric::from_bytes(&[1, 2, 3]), Err(ForgeError::Compression));
}

#[test]
fn dispatch_gives_the_kind_that_was_packed() {
    match unpack_v1_forgemod(&full_mod().pack().unwrap()).unwrap() {
        ForgeModTypes::Mod(e) => assert_eq!(e, full_mod()),
        other => panic!("{:?}", other),
    }
    match unpack_v1_forgemod(&small_lib().pack().unwrap()).unwrap() {
        ForgeModTypes::Lib(e) => assert_eq!(e, small_lib()),
        other => panic!("{:?}", other),
    }
    match unpack_v1_forgemod(&small_module().pack().unwrap()).unwrap() {
        ForgeModTypes::Module(e) => assert_eq!(e, small_module()),
        other => panic!("{:?}", other),
    }
    match unpack_v1_forgemod(&small_parent().pack().unwrap()).unwrap() {
        ForgeModTypes::Parent(e) => assert_eq!(e, small_parent()),
        other => panic!("{:?}", other),
    }
}

#[test]
fn dispatch_names_the_kind() {
    assert_eq!(unpack_v1_forgemod(&full_mod().pack().unwrap()).unwrap().to_string(), "mod");
    assert_eq!(unpack_v1_forgemod(&small_lib().pack().unwrap()).unwrap().to_string(), "lib");
    assert_eq!(unpack_v1_forgemod(&small_module().pack().unwrap()).unwrap().to_string(), "module");
    assert_eq!(unpack_v1_forgemod(&small_parent().pack().unwrap()).unwrap().to_string(), "parent");
    assert_eq!(unpack_v1_raw(&small_parent().to_raw()).unwrap().kind(), ManifestTypes::ModuleParent);
}

#[test]
fn other_version_is_refused_for_every_kind() {
    for kind in ["mod", "lib", "module", "parent"] {
        for version in [0u32, 2, 3, u32::MAX] {
            let raw = head(version, kind);
            assert_eq!(unpack_v1_raw(&raw), Err(ForgeError::VersionMismatch));
            assert_eq!(unpack_v1_forgemod(&xz(&raw)), Err(ForgeError::VersionMismatch));
        }
    }
}

#[test]
fn other_version_is_refused_before_the_body_is_read() {
    let good = full_mod().to_raw();
    let mut raw = head(2, "mod");
    raw.extend(&good[head(1, "mod").len()..]);
    assert_eq!(unpack_v1_raw(&raw), Err(ForgeError::VersionMismatch));
    let mut broken = head(2, "mod");
    broken.extend([0xFF; 40]);
    assert_eq!(unpack_v1_raw(&broken), Err(ForgeError::VersionMismatch));
    assert_eq!(unpack_v1_raw(&head(2, "no such kind")), Err(ForgeError::VersionMismatch));
}

#[test]
fn unknown_kind_is_refused() {
    for kind in ["", "Mod", "module_parent", "mods", "plugin"] {
        assert_eq!(unpack_v1_raw(&head(1, kind)), Err(ForgeError::UnknownKind));
        assert_eq!(unpack_v1_forgemod(&xz(&head(1, kind))), Err(ForgeError::UnknownKind));
    }
    let good = full_mod().to_raw();
    let mut raw = head(1, "mud");
    raw.extend(&good[head(1, "mod").len()..]);
    assert_eq!(unpack_v1_raw(&raw), Err(ForgeError::UnknownKind));
}

#[test]
fn known_kind_with_a_broken_body_is_a_decode_error() {
    assert_eq!(unpack_v1_raw(&head(1, "mod")), Err(ForgeError::Decode));
    let mut raw = head(1, "lib");
    raw.extend([0xFF; 16]);
    assert_eq!(unpack_v1_raw(&raw), Err(ForgeError::Decode));
    assert_eq!(unpack_v1_raw(&[]), Err(ForgeError::Decode));
    assert_eq!(unpack_v1_forgemod(&xz(&[])), Err(ForgeError::Decode));
}

#[test]
fn bytes_that_are_no_xz_stream_are_a_compression_error() {
    assert_eq!(unpack_v1_forgemod(&[]), Err(ForgeError::Compression));
    assert_eq!(unpack_v1_forgemod(&full_mod().to_raw()), Err(ForgeError::Compression));
    assert_eq!(ModEnvelope::from_bytes(b"not a stream"), Err(ForgeError::Compression));
    let bin = full_mod().pack().unwrap();
    assert_eq!(ModEnvelope::from_bytes(&bin[..bin.len() / 2]), Err(ForgeError::Compression));
    let mut flipped = bin.to_vec();
    let middle = flipped.len() / 2;
    flipped[middle] ^= 0x55;
    assert_eq!(ModEnvelope::from_bytes(&flipped), Err(ForgeError::Compression));
}

#[test]
fn unpacking_as_another_kind_is_a_decode_error() {
    let bin = small_lib().pack().unwrap();
    assert_eq!(ModEnvelope::from_bytes(&bin), Err(ForgeError::Decode));
    assert_eq!(ModuleEnvelope::from_bytes(&bin), Err(ForgeError::Decode));
    assert_eq!(ParentEnvelope::from_bytes(&bin), Err(ForgeError::Decode));
    assert_eq!(LibEnvelope::from_bytes(&bin), Ok(small_lib()));
}

#[test]
fn unpacking_another_version_is_a_decode_error() {
    let good = small_lib().to_raw();
    let mut raw = head(2, "lib");
    raw.extend(&good[head(1, "lib").len()..]);
    assert_eq!(LibEnvelope::from_raw(&raw), Err(ForgeError::Decode));
    assert_eq!(LibEnvelope::from_bytes(&xz(&raw)), Err(ForgeError::Decode));
}

#[test]
fn mismatched_manifest_and_payload_types_never_unpack() {
    let bin = small_lib().pack().unwrap();
    assert_eq!(
        ForgeMod::<ManifestV1, manifest::Lib, data::Mod>::from_bytes(&bin),
        Err(ForgeError::Decode)
    );
    assert_eq!(
        ForgeMod::<ManifestV1, manifest::Mod, data::Lib>::from_bytes(&full_mod().pack().unwrap()),
        Err(ForgeError::Decode)
    );
}

#[test]
fn error_messages() {
    assert_eq!(ForgeError::VersionMismatch.message(), "cannot find v1 manifest information.");
    assert_eq!(ForgeError::UnknownKind.message(), "unknown kind");
    assert_ne!(ForgeError::Compression.message(), ForgeError::Decode.message());
}
