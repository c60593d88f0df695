use forgemod::structs::forgemod::{ForgeError, ForgeMod};
use forgemod::structs::v1::data;
use forgemod::structs::v1::manifest;
use forgemod::structs::v1::{ManifestBuilder, ManifestV1, ModBuilder};
use forgemod::version::{Requirement, Version};
use std::io::Read;

type LibEnvelope = ForgeMod<ManifestV1, manifest::Lib, data::Lib>;

fn lib(artifact: Vec<u8>) -> LibEnvelope {
    ModBuilder::new_lib_raw(
        ManifestBuilder::new_lib("l".to_string(), Version::new(1, 0, 0), Requirement::any(), "l.dll".to_string()).build(),
        artifact,
    )
    .build()
}

fn unxz(stream: &[u8]) -> Vec<u8> {
    let mut out = Vec::new();
    xz2::read::XzDecoder::new(stream).read_to_end(&mut out).unwrap();
    out
}

#[test]
fn pack_gives_an_xz_stream_of_the_raw_bytes() {
    let e = lib(vec![7; 4096]);
    let bin = e.pack().unwrap();
    assert_eq!(bin[..6].to_vec(), vec![0xFD, b'7', b'z', b'X', b'Z', 0x00]);
    assert_ne!(bin.to_vec(), e.to_raw());
    assert!(bin.len() < e.to_raw().len());
    assert_eq!(unxz(&bin), e.to_raw());
}

#[test]
fn pack_is_the_same_for_the_same_envelope() {
    assert_eq!(lib(vec![1, 2, 3]).pack().unwrap(), lib(vec![1, 2, 3]).pack().unwrap());
    assert_ne!(lib(vec![1, 2, 3]).pack().unwrap(), lib(vec![1, 2, 4]).pack().unwrap());
}

#[test]
fn seal_wraps_the_stream_or_reports_the_failure() {
    let sealed = LibEnvelope::seal(Some(vec![1, 2, 3])).unwrap();
    assert_eq!(sealed.to_vec(), vec![1, 2, 3]);
    assert_eq!(sealed.len(), 3);
    assert_eq!(LibEnvelope::seal(None), Err(ForgeError::Compression));
}

#[test]
fn empty_artifact_bytes_round_trip() {
    let e = lib(vec![]);
    assert_eq!(LibEnvelope::from_bytes(&e.pack().unwrap()), Ok(lib(vec![])));
}

#[test]
fn names_outside_ascii_round_trip() {
    let m = ManifestBuilder::new_mod("Æúű--cool?".to_string(), Version::new(1, 0, 0), Requirement::any(), "ą/ß.dll".to_string()).build();
    assert_eq!(m.id(), "aeuu-cool");
    let e = ModBuilder::new_mod_raw(m, vec![0]).build();
    let back = ForgeMod::<ManifestV1, manifest::Mod, data::Mod>::from_bytes(&e.pack().unwrap()).unwrap();
    assert_eq!(back.manifest().inner().name, "Æúű--cool?");
    assert_eq!(back.manifest().inner().artifact, "ą/ß.dll");
    assert_eq!(back, e);
}

#[test]
fn a_name_without_letters_or_digits_has_an_empty_id() {
    let m = ManifestBuilder::new_module("!!!".to_string(), "a".to_string()).build();
    assert_eq!(m.id(), "");
    let n = ManifestBuilder::new_module(String::new(), "a".to_string()).build();
    assert_eq!(n.id(), "");
}

fn id_of(name: &str) -> String {
    ManifestBuilder::new_module(name.to_string(), "a".to_string()).build().id().to_string()
}

#[test]
fn ids_have_the_shape_of_a_slug() {
    assert_eq!(id_of("My Test String!!!1!1"), "my-test-string-1-1");
    assert_eq!(id_of("test\nit   now!"), "test-it-now");
    assert_eq!(id_of("  --test_-_cool"), "test-cool");
    assert_eq!(id_of("You & Me"), "you-me");
    assert_eq!(id_of("user@example.com"), "user-example-com");
    for name in ["--a--", "A  B", "x_y-z", "-", "9 lives", "ÉCOLE № 5"] {
        let id = id_of(name);
        assert!(id.chars().all(|c| c.is_ascii_lowercase() || c.is_ascii_digit() || c == '-'));
        assert!(!id.contains("--"));
        assert!(!id.starts_with('-'));
        assert!(!id.ends_with('-'));
    }
}
