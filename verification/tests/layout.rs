use forgemod::structs::forgemod::{ForgeError, ForgeMod, ForgeModGeneric};
use forgemod::structs::v1::data;
use forgemod::structs::v1::manifest;
use forgemod::structs::v1::manifest::{Category, Dependency, Include};
use forgemod::structs::v1::{ManifestBuilder, ManifestV1, ModBuilder};
use forgemod::version::{Comparator, Op, Requirement, Version};
use forgemod::wire::{decode_blob, encode_blob, encode_text, text_eq, Wire};

fn wire_of<T: Wire>(value: &T) -> Vec<u8> {
    let mut out = Vec::new();
    value.encode(&mut out);
    out
}

fn module_envelope() -> ForgeMod<ManifestV1, manifest::Module, data::Module> {
    ModBuilder::new_module_raw(
        ManifestBuilder::new_module("ab".to_string(), "a.dll".to_string()).build(),
        vec![1, 2, 3],
    )
    .build()
}

#[test]
fn u32_is_four_bytes_little_endian() {
    assert_eq!(wire_of(&0x0403_0201u32), vec![1, 2, 3, 4]);
    assert_eq!(wire_of(&1u32), bincode::serialize(&1u32).unwrap());
    assert_eq!(u32::decode(&[1, 2, 3, 4, 9], 0), Some((0x0403_0201, 4)));
    assert_eq!(u32::decode(&[9, 1, 2, 3, 4], 1), Some((0x0403_0201, 5)));
}

#[test]
fn u32_needs_four_bytes() {
    assert_eq!(u32::decode(&[1, 2, 3], 0), None);
    assert_eq!(u32::decode(&[1, 2, 3, 4], 1), None);
    assert_eq!(u32::decode(&[], 0), None);
}

#[test]
fn u64_is_eight_bytes_little_endian() {
    assert_eq!(wire_of(&0x0807_0605_0403_0201u64), vec![1, 2, 3, 4, 5, 6, 7, 8]);
    assert_eq!(wire_of(&u64::MAX), bincode::serialize(&u64::MAX).unwrap());
    assert_eq!(u64::decode(&[1, 2, 3, 4, 5, 6, 7, 8], 0), Some((0x0807_0605_0403_0201, 8)));
    assert_eq!(u64::decode(&[1, 2, 3, 4, 5, 6, 7], 0), None);
}

#[test]
fn bool_is_one_byte_zero_or_one() {
    assert_eq!(wire_of(&true), vec![1]);
    assert_eq!(wire_of(&false), vec![0]);
    assert_eq!(wire_of(&true), bincode::serialize(&true).unwrap());
    assert_eq!(bool::decode(&[0], 0), Some((false, 1)));
    assert_eq!(bool::decode(&[1], 0), Some((true, 1)));
    assert_eq!(bool::decode(&[2], 0), None);
    assert_eq!(bool::decode(&[], 0), None);
}

#[test]
fn blob_is_length_then_bytes() {
    let mut out = vec![7];
    encode_blob(&[0xAA, 0xBB], &mut out);
    assert_eq!(out, vec![7, 2, 0, 0, 0, 0, 0, 0, 0, 0xAA, 0xBB]);
    assert_eq!(decode_blob(&out, 1), Some((vec![0xAA, 0xBB], 11)));
    assert_eq!(out[1..].to_vec(), bincode::serialize(&vec![0xAAu8, 0xBB]).unwrap());
}

#[test]
fn blob_longer_than_what_is_left_is_refused() {
    assert_eq!(decode_blob(&[3, 0, 0, 0, 0, 0, 0, 0, 1, 2], 0), None);
    assert_eq!(decode_blob(&[0xFF, 0xFF, 0xFF, 0xFF, 0xFF, 0xFF, 0xFF, 0xFF, 1], 0), None);
    assert_eq!(decode_blob(&[0, 0, 0, 0, 0, 0, 0, 0], 0), Some((vec![], 8)));
}

#[test]
fn text_is_the_blob_of_its_utf8() {
    let text = "héllo".to_string();
    assert_eq!(wire_of(&text), bincode::serialize(&text).unwrap());
    assert_eq!(wire_of(&text)[..8].to_vec(), vec![6, 0, 0, 0, 0, 0, 0, 0]);
    assert_eq!(String::decode(&wire_of(&text), 0), Some((text, 14)));
    let mut out = Vec::new();
    encode_text("mod", &mut out);
    assert_eq!(out, vec![3, 0, 0, 0, 0, 0, 0, 0, b'm', b'o', b'd']);
}

#[test]
fn text_that_is_not_utf8_is_refused() {
    assert_eq!(String::decode(&[2, 0, 0, 0, 0, 0, 0, 0, 0xC3, 0x28], 0), None);
    assert_eq!(String::decode(&[1, 0, 0, 0, 0, 0, 0, 0, 0xFF], 0), None);
    assert_eq!(String::decode(&[2, 0, 0, 0, 0, 0, 0, 0, 0xC3, 0xA9], 0), Some(("é".to_string(), 10)));
}

#[test]
fn text_eq_compares_characters() {
    assert!(text_eq("mod", "mod"));
    assert!(!text_eq("mod", "mot"));
    assert!(!text_eq("mod", "mods"));
    assert!(text_eq("", ""));
}

#[test]
fn option_is_a_mark_then_the_value() {
    let some: Option<String> = Some("a".to_string());
    let none: Option<String> = None;
    assert_eq!(wire_of(&none), vec![0]);
    assert_eq!(wire_of(&some), vec![1, 1, 0, 0, 0, 0, 0, 0, 0, b'a']);
    assert_eq!(wire_of(&some), bincode::serialize(&some).unwrap());
    assert_eq!(Option::<String>::decode(&[0], 0), Some((None, 1)));
    assert_eq!(Option::<String>::decode(&wire_of(&some), 0), Some((some, 10)));
    assert_eq!(Option::<String>::decode(&[2], 0), None);
    assert_eq!(Option::<u64>::decode(&[1, 1, 2], 0), None);
}

#[test]
fn list_is_its_length_then_its_items() {
    let list = vec!["b".to_string(), "a".to_string(), "b".to_string()];
    assert_eq!(wire_of(&list), bincode::serialize(&list).unwrap());
    assert_eq!(Vec::<String>::decode(&wire_of(&list), 0), Some((list, 35)));
    let empty: Vec<String> = vec![];
    assert_eq!(wire_of(&empty), vec![0; 8]);
    assert_eq!(Vec::<String>::decode(&[0; 8], 0), Some((empty, 8)));
}

#[test]
fn list_with_fewer_items_than_announced_is_refused() {
    let mut bytes = wire_of(&vec!["a".to_string()]);
    bytes[0] = 2;
    assert_eq!(Vec::<String>::decode(&bytes, 0), None);
}

#[test]
fn record_is_its_fields_in_order() {
    let file = Include { bs_dest: "d".to_string(), local_src: "s".to_string() };
    assert_eq!(wire_of(&file), bincode::serialize(&("d", "s")).unwrap());
    let (back, next) = Include::decode(&wire_of(&file), 0).unwrap();
    assert_eq!(back, file);
    assert_eq!(next, 18);
}

#[test]
fn version_is_numbers_then_tags() {
    let version = Version { major: 1, minor: 2, patch: 3, pre: "rc.1".to_string(), build: "x".to_string() };
    assert_eq!(wire_of(&version), bincode::serialize(&(1u64, 2u64, 3u64, "rc.1", "x")).unwrap());
    assert_eq!(Version::decode(&wire_of(&version), 0), Some((version, 45)));
}

#[test]
fn operator_codes() {
    let ops = [Op::Exact, Op::Greater, Op::GreaterEq, Op::Less, Op::LessEq, Op::Tilde, Op::Caret, Op::Wildcard];
    for (code, op) in ops.iter().enumerate() {
        assert_eq!(op.to_code(), code as u32);
        assert_eq!(Op::from_code(code as u32), Some(*op));
        assert_eq!(wire_of(op), vec![code as u8, 0, 0, 0]);
        assert_eq!(Op::decode(&wire_of(op), 0), Some((*op, 4)));
    }
    assert_eq!(Op::from_code(8), None);
    assert_eq!(Op::decode(&[8, 0, 0, 0], 0), None);
}

#[test]
fn requirement_round_trip() {
    let req = Requirement {
        comparators: vec![
            Comparator { op: Op::GreaterEq, major: 1, minor: Some(2), patch: None, pre: String::new() },
            Comparator { op: Op::Less, major: 2, minor: None, patch: None, pre: String::new() },
        ],
    };
    let bytes = wire_of(&req);
    assert_eq!(Requirement::decode(&bytes, 0), Some((req, bytes.len())));
}

#[test]
fn category_is_its_name_as_text() {
    assert_eq!(wire_of(&Category::Gameplay), wire_of(&"gameplay".to_string()));
    assert_eq!(wire_of(&Category::Other), wire_of(&"other".to_string()));
    for category in [Category::Core, Category::Library, Category::Gameplay, Category::Cosmetic, Category::Tool, Category::Other] {
        let bytes = wire_of(&category);
        assert_eq!(Category::decode(&bytes, 0), Some((category, bytes.len())));
        assert_eq!(Category::from_text(category.as_str()), category);
    }
}

#[test]
fn unknown_category_text_decodes_to_other() {
    assert_eq!(Category::from_text("practice"), Category::Other);
    assert_eq!(Category::from_text(""), Category::Other);
    assert_eq!(Category::from_text("Core"), Category::Other);
    assert_eq!(Category::from_text("core"), Category::Core);
    let bytes = wire_of(&"no such category".to_string());
    assert_eq!(Category::decode(&bytes, 0), Some((Category::Other, bytes.len())));
}

#[test]
fn manifest_with_unknown_category_text_is_read_as_other() {
    let envelope = ModBuilder::new_module_parent(
        ManifestBuilder::new_module_parent("p".to_string(), Version::new(1, 0, 0), Requirement::any()).build(),
    )
    .build();
    let raw = envelope.to_raw();
    let other = wire_of(&"other".to_string());
    let at = raw.windows(other.len()).position(|w| w == &other[..]).unwrap();
    let mut changed = raw[..at].to_vec();
    changed.extend(wire_of(&"stream tools".to_string()));
    changed.extend(&raw[at + other.len()..]);
    let back = ForgeMod::<ManifestV1, manifest::Parent, data::Parent>::from_raw(&changed).unwrap();
    assert_eq!(back.manifest().inner().category, Category::Other);
    assert_eq!(back, envelope);
}

#[test]
fn envelope_starts_with_version_and_kind() {
    let raw = module_envelope().to_raw();
    let head = bincode::serialize(&(1u32, "module")).unwrap();
    assert_eq!(raw[..head.len()].to_vec(), head);
    assert_eq!(head, wire_of(&ForgeModGeneric { format_version: 1, kind: "module".to_string() }));
}

#[test]
fn payload_layout() {
    let envelope = ModBuilder::new_mod_raw(
        ManifestBuilder::new_mod("m".to_string(), Version::new(1, 0, 0), Requirement::any(), "a".to_string()).build(),
        vec![9, 8],
    )
    .build();
    let expected = bincode::serialize(&(vec![9u8, 8], Vec::<(String, Vec<u8>)>::new())).unwrap();
    assert_eq!(wire_of(envelope.data()), expected);
    let raw = envelope.to_raw();
    assert_eq!(raw[raw.len() - expected.len()..].to_vec(), expected);
}

#[test]
fn manifest_layout_of_a_module() {
    let envelope = module_envelope();
    let manifest = bincode::serialize(&(
        "ab",
        1u32,
        "module",
        ("ab", false, false, Some("a.dll"), Vec::<(String, String)>::new()),
        (None::<String>, None::<String>, Vec::<(String, u64)>::new(), Vec::<(String, u64)>::new()),
    ))
    .unwrap();
    assert_eq!(wire_of(envelope.manifest()), manifest);
    let payload = bincode::serialize(&("ab", false, false, vec![1u8, 2, 3], Vec::<(String, Vec<u8>)>::new())).unwrap();
    assert_eq!(wire_of(envelope.data()), payload);
    let mut whole = bincode::serialize(&(1u32, "module")).unwrap();
    whole.extend(manifest);
    whole.extend(payload);
    assert_eq!(envelope.to_raw(), whole);
}

#[test]
fn absent_artifact_is_refused() {
    let envelope = module_envelope();
    let raw = envelope.to_raw();
    assert_eq!(ForgeMod::<ManifestV1, manifest::Module, data::Module>::from_raw(&raw), Ok(envelope));
    // version, kind, id, manifest version, type, name, required, suggested
    let mark = 4 + (8 + 6) + (8 + 2) + 4 + (8 + 6) + (8 + 2) + 1 + 1;
    assert_eq!(raw[mark], 1);
    let mut absent = raw[..mark].to_vec();
    absent.push(0);
    absent.extend(&raw[mark + 1 + 8 + 5..]);
    assert_eq!(
        ForgeMod::<ManifestV1, manifest::Module, data::Module>::from_raw(&absent),
        Err(ForgeError::Decode)
    );
}

#[test]
fn bytes_after_the_envelope_are_refused() {
    let mut raw = module_envelope().to_raw();
    raw.push(0);
    assert_eq!(
        ForgeMod::<ManifestV1, manifest::Module, data::Module>::from_raw(&raw),
        Err(ForgeError::Decode)
    );
    assert_eq!(ForgeModGeneric::from_raw(&raw).unwrap().kind(), "module");
}

#[test]
fn truncated_envelope_is_refused() {
    let raw = module_envelope().to_raw();
    for cut in 0..raw.len() {
        assert_eq!(
            ForgeMod::<ManifestV1, manifest::Module, data::Module>::from_raw(&raw[..cut]),
            Err(ForgeError::Decode)
        );
    }
}

#[test]
fn dependency_layout() {
    let dependency = Dependency { name: "x".to_string(), version: Requirement::parse("^1.2").unwrap() };
    let expected = bincode::serialize(&("x", vec![(6u32, 1u64, Some(2u64), None::<u64>, "")])).unwrap();
    assert_eq!(wire_of(&dependency), expected);
}

#[test]
fn mod_with_unknown_category_text_is_read_as_other() {
    let mut m = ManifestBuilder::new_mod("m".to_string(), Version::new(1, 0, 0), Requirement::any(), "a".to_string());
    m.category("cosmetic".to_string());
    let envelope = ModBuilder::new_mod_raw(m.build(), vec![1]).build();
    let raw = envelope.to_raw();
    let known = wire_of(&"cosmetic".to_string());
    let at = raw.windows(known.len()).position(|w| w == &known[..]).unwrap();
    let mut changed = raw[..at].to_vec();
    changed.extend(wire_of(&"Cosmetics!".to_string()));
    changed.extend(&raw[at + known.len()..]);
    let back = ForgeMod::<ManifestV1, manifest::Mod, data::Mod>::from_raw(&changed).unwrap();
    assert_eq!(back.manifest().inner().category, Category::Other);
    assert_eq!(back.manifest().inner().name, "m");
    assert_eq!(back.artifact_data(), &[1u8][..]);
    let same = ForgeMod::<ManifestV1, manifest::Mod, data::Mod>::from_raw(&raw).unwrap();
    assert_eq!(same.manifest().inner().category, Category::Cosmetic);
}

#[test]
fn manifest_layout_of_a_mod() {
    let mut m = ManifestBuilder::new_mod(
        "pp".to_string(),
        Version::new(0, 1, 2),
        Requirement::parse("=1.23.4").unwrap(),
        "./pp.dll".to_string(),
    );
    m.description("d".to_string()).pre_exec(Some("s".to_string()));
    m.depends(vec![Dependency { name: "x".to_string(), version: Requirement::any() }]);
    let envelope = ModBuilder::new_mod_raw(m.build(), vec![0xFF, 0xFF]).build();
    let expected = bincode::serialize(&(
        (1u32, "mod"),
        ("pp", 1u32, "mod"),
        ("pp", "d", "", (0u64, 1u64, 2u64, "", ""), vec![(0u32, 1u64, Some(23u64), Some(4u64), "")], "other"),
        (Some("./pp.dll"), Vec::<(String, String)>::new()),
        (Some("s"), None::<String>, vec![("x", Vec::<(u32, u64)>::new())], Vec::<(String, u64)>::new()),
        (vec![0xFFu8, 0xFF], Vec::<(String, Vec<u8>)>::new()),
    ))
    .unwrap();
    assert_eq!(envelope.to_raw(), expected);
}
