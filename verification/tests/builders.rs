use forgemod::structs::forgemod::ForgeMod;
use forgemod::structs::manifest::{ForgeManifest, ForgeManifestSafe};
use forgemod::structs::v1::data;
use forgemod::structs::v1::data::IncludeData;
use forgemod::structs::v1::manifest;
use forgemod::structs::v1::manifest::{Category, Dependency, Include};
use forgemod::structs::v1::{
    DependencyBuilder, IncludeBuilder, IncludeDataBuilder, ManifestBuilder, ManifestTypes,
    ManifestV1, ModBuilder,
};
use forgemod::version::{Comparator, Op, Requirement, Version};

fn game() -> Requirement {
    Requirement::parse("=1.23.4").unwrap()
}

fn mod_builder() -> ManifestBuilder<manifest::Mod> {
    ManifestBuilder::new_mod("pp".to_string(), Version::new(0, 1, 2), game(), "./pp.dll".to_string())
}

#[test]
fn new_mod_stores_the_four_required_fields() {
    let m = mod_builder().build();
    assert_eq!(m.inner().name, "pp");
    assert_eq!(m.inner().version, Version::new(0, 1, 2));
    assert_eq!(m.inner().game_version, game());
    assert_eq!(m.inner().artifact, "./pp.dll");
}

#[test]
fn new_mod_leaves_the_rest_empty() {
    let m = mod_builder().build();
    assert_eq!(m.inner().description, "");
    assert_eq!(m.inner().website, "");
    assert_eq!(m.inner().category, Category::Other);
    assert_eq!(m.inner().includes, vec![]);
    assert_eq!(m.inner().pre_exec, None);
    assert_eq!(m.inner().post_exec, None);
    assert_eq!(m.inner().depends, vec![]);
    assert_eq!(m.inner().conflicts, vec![]);
}

#[test]
fn new_lib_stores_the_four_required_fields() {
    let m = ManifestBuilder::new_lib("Lib One".to_string(), Version::new(3, 2, 1), game(), "l.dll".to_string()).build();
    assert_eq!(m.inner().name, "Lib One");
    assert_eq!(m.inner().version, Version::new(3, 2, 1));
    assert_eq!(m.inner().game_version, game());
    assert_eq!(m.inner().artifact, "l.dll");
    assert_eq!(m.manifest_type(), "lib");
    assert_eq!(m.id(), "lib-one");
}

#[test]
fn build_marks_generation_and_kind() {
    let m = mod_builder().build();
    assert_eq!(m.manifest_version(), 1);
    assert_eq!(m.manifest_type(), "mod");
    let p = ManifestBuilder::new_module_parent("p".to_string(), Version::new(1, 0, 0), game()).build();
    assert_eq!(p.manifest_version(), 1);
    assert_eq!(p.manifest_type(), "module_parent");
    let q = ManifestBuilder::new_module("q".to_string(), "q.dll".to_string()).build();
    assert_eq!(q.manifest_version(), 1);
    assert_eq!(q.manifest_type(), "module");
}

#[test]
fn id_is_the_slug_of_the_name() {
    assert_eq!(mod_builder().build().id(), "pp");
    let m = ManifestBuilder::new_mod("My Test String!!!1!1".to_string(), Version::new(0, 1, 2), game(), "a".to_string()).build();
    assert_eq!(m.id(), "my-test-string-1-1");
    assert_eq!(m.inner().name, "My Test String!!!1!1");
}

#[test]
fn same_name_gives_same_id() {
    let a = ManifestBuilder::new_module("Beat Saber".to_string(), "a".to_string()).build();
    let b = ManifestBuilder::new_module("Beat Saber".to_string(), "b".to_string()).build();
    assert_eq!(a.id(), b.id());
    assert_eq!(a.id(), "beat-saber");
}

#[test]
fn build_with_id_takes_the_id_as_given() {
    let m = mod_builder().build_with_id("chosen".to_string());
    assert_eq!(m.id(), "chosen");
    assert_eq!(m.manifest_version(), 1);
    assert_eq!(m.manifest_type(), "mod");
    assert_eq!(m.inner(), mod_builder().build().inner());
}

#[test]
fn setters_replace_what_was_set() {
    let mut b = mod_builder();
    b.description("first".to_string()).description("second".to_string());
    b.website("w1".to_string());
    b.website("w2".to_string());
    b.pre_exec(Some("a.sh".to_string())).pre_exec(None);
    b.post_exec(None).post_exec(Some("b.sh".to_string()));
    let m = b.build();
    assert_eq!(m.inner().description, "second");
    assert_eq!(m.inner().website, "w2");
    assert_eq!(m.inner().pre_exec, None);
    assert_eq!(m.inner().post_exec, Some("b.sh".to_string()));
    assert_eq!(m.inner().name, "pp");
}

#[test]
fn category_setter_is_lenient() {
    let mut b = mod_builder();
    b.category("gameplay".to_string());
    assert_eq!(b.clone().build().inner().category, Category::Gameplay);
    b.category("no such thing".to_string());
    assert_eq!(b.build().inner().category, Category::Other);
}

#[test]
fn list_setters_replace_and_do_not_append() {
    let first = IncludeBuilder::new().add("a".into(), "1".into()).add("b".into(), "2".into()).clone().build();
    let second = IncludeBuilder::new().add("c".into(), "3".into()).clone().build();
    let deps1 = DependencyBuilder::new().add("x".to_string(), game()).clone().build();
    let deps2 = DependencyBuilder::new().add("y".to_string(), Requirement::any()).clone().build();
    let mut b = mod_builder();
    b.includes(first).includes(second.clone());
    b.depends(deps1.clone()).depends(deps2.clone());
    b.conflicts(deps2.clone());
    b.conflicts(deps1.clone());
    let m = b.build();
    assert_eq!(m.inner().includes, second);
    assert_eq!(m.inner().includes.len(), 1);
    assert_eq!(m.inner().depends, deps2);
    assert_eq!(m.inner().conflicts, deps1);
}

#[test]
fn parent_modules_setter_replaces() {
    let mut b = ManifestBuilder::new_module_parent("p".to_string(), Version::new(1, 0, 0), game());
    b.modules(vec!["modules/a".to_string(), "modules/b".to_string()]);
    b.modules(vec!["modules/c".to_string()]);
    b.description("d".to_string()).website("w".to_string()).category("tool".to_string());
    let m = b.build();
    assert_eq!(m.inner().modules, vec!["modules/c".to_string()]);
    assert_eq!(m.inner().description, "d");
    assert_eq!(m.inner().website, "w");
    assert_eq!(m.inner().category, Category::Tool);
}

#[test]
fn module_flags() {
    let mut b = ManifestBuilder::new_module("m".to_string(), "m.dll".to_string());
    assert_eq!(b.clone().build().inner().required, false);
    assert_eq!(b.clone().build().inner().suggested, false);
    b.required(true).suggested(true).required(false);
    let m = b.build();
    assert_eq!(m.inner().required, false);
    assert_eq!(m.inner().suggested, true);
}

#[test]
fn include_builder_keeps_order() {
    let list = IncludeBuilder::new()
        .add("./Plugins".to_string(), "./out/a.dll".to_string())
        .add("./Libs".to_string(), "./out/b.dll".to_string())
        .clone()
        .build();
    assert_eq!(
        list,
        vec![
            Include { bs_dest: "./Plugins".to_string(), local_src: "./out/a.dll".to_string() },
            Include { bs_dest: "./Libs".to_string(), local_src: "./out/b.dll".to_string() },
        ]
    );
    assert_eq!(IncludeBuilder::new().build(), vec![]);
}

#[test]
fn dependency_builder_keeps_order_and_duplicates() {
    let list = DependencyBuilder::new()
        .add("b".to_string(), game())
        .add("a".to_string(), Requirement::any())
        .add("b".to_string(), game())
        .clone()
        .build();
    assert_eq!(list.len(), 3);
    assert_eq!(list[0], Dependency { name: "b".to_string(), version: game() });
    assert_eq!(list[1], Dependency { name: "a".to_string(), version: Requirement::any() });
    assert_eq!(list[2], list[0]);
    assert_eq!(DependencyBuilder::new().build(), vec![]);
}

#[test]
fn include_data_builder_keeps_order() {
    let list = IncludeDataBuilder::new()
        .add_raw("./Plugins".to_string(), vec![0xFF, 0xFF])
        .add_raw("./Libs".to_string(), vec![])
        .clone()
        .build();
    assert_eq!(
        list,
        vec![
            IncludeData { dest: "./Plugins".to_string(), data: vec![0xFF, 0xFF] },
            IncludeData { dest: "./Libs".to_string(), data: vec![] },
        ]
    );
    assert_eq!(IncludeDataBuilder::new().build(), vec![]);
}

#[test]
fn mod_envelope_holds_manifest_and_payload() {
    let manifest = mod_builder().build();
    let mut b = ModBuilder::new_mod_raw(manifest.clone(), vec![0xFF, 0xFF]);
    b.includes(IncludeDataBuilder::new().add_raw("./Plugins".to_string(), vec![0xFF, 0xFF]).clone().build());
    let e = b.build();
    assert_eq!(e.format_version(), 1);
    assert_eq!(e.kind(), "mod");
    assert_eq!(e.manifest(), &ForgeManifestSafe::from(manifest));
    assert_eq!(e.manifest().id(), "pp");
    assert_eq!(e.artifact_data(), &[0xFFu8, 0xFF][..]);
    assert_eq!(e.includes_data(), &[IncludeData { dest: "./Plugins".to_string(), data: vec![0xFF, 0xFF] }][..]);
}

#[test]
fn payload_includes_setter_replaces() {
    let first = IncludeDataBuilder::new().add_raw("a".to_string(), vec![1]).add_raw("b".to_string(), vec![2]).clone().build();
    let second = IncludeDataBuilder::new().add_raw("c".to_string(), vec![3]).clone().build();
    let mut b = ModBuilder::new_lib_raw(
        ManifestBuilder::new_lib("l".to_string(), Version::new(1, 0, 0), game(), "l.dll".to_string()).build(),
        vec![7],
    );
    b.includes(first).includes(second.clone());
    let e = b.build();
    assert_eq!(e.includes_data(), &second[..]);
    assert_eq!(e.artifact_data(), &[7u8][..]);
    assert_eq!(e.kind(), "lib");
}

#[test]
fn module_payload_repeats_the_manifest() {
    let mut m = ManifestBuilder::new_module("Some Module".to_string(), "m.dll".to_string());
    m.required(true);
    let e = ModBuilder::new_module_raw(m.build(), vec![1, 2]).build();
    assert_eq!(e.kind(), "module");
    assert_eq!(e.data()._id, "some-module");
    assert_eq!(e.data().required, true);
    assert_eq!(e.data().suggested, false);
    assert_eq!(e.artifact_data(), &[1u8, 2][..]);
    assert_eq!(e.includes_data(), &[][..]);
}

#[test]
fn parent_envelope_has_no_payload() {
    let e = ModBuilder::new_module_parent(
        ManifestBuilder::new_module_parent("p".to_string(), Version::new(1, 0, 0), game()).build(),
    )
    .build();
    assert_eq!(e.kind(), "parent");
    assert_eq!(e.format_version(), 1);
    assert_eq!(e.data(), &data::Parent {});
    assert_eq!(e.manifest().manifest_type(), "module_parent");
}

#[test]
fn defaults_are_empty() {
    let m = manifest::Mod::default();
    assert_eq!(m.name, "");
    assert_eq!(m.version, Version::new(0, 0, 0));
    assert_eq!(m.game_version, Requirement::any());
    assert_eq!(m.game_version, Requirement::parse("*").unwrap());
    assert_eq!(m.category, Category::Other);
    assert_eq!(m.artifact, "");
    let l = manifest::Lib::default();
    assert_eq!(l.version, Version::new(0, 0, 0));
    assert_eq!(l.depends, vec![]);
    let p = manifest::Parent::default();
    assert_eq!(p.modules, Vec::<String>::new());
    assert_eq!(p.game_version, Requirement::any());
    let q = manifest::Module::default();
    assert_eq!(q.required, false);
    assert_eq!(q.suggested, false);
    assert_eq!(q.pre_exec, None);
}

#[test]
fn kinds_as_text() {
    assert_eq!(ManifestTypes::Mod.to_string(), "mod");
    assert_eq!(ManifestTypes::ModuleParent.to_string(), "module_parent");
    assert_eq!(ManifestTypes::Module.to_string(), "module");
    assert_eq!(ManifestTypes::Lib.to_string(), "lib");
    assert_eq!(ManifestTypes::Mod.envelope_kind(), "mod");
    assert_eq!(ManifestTypes::ModuleParent.envelope_kind(), "parent");
    assert_eq!(ManifestTypes::Module.envelope_kind(), "module");
    assert_eq!(ManifestTypes::Lib.envelope_kind(), "lib");
    assert_eq!(ManifestTypes::from_envelope_kind("parent"), Some(ManifestTypes::ModuleParent));
    assert_eq!(ManifestTypes::from_envelope_kind("module_parent"), None);
    assert_eq!(ManifestTypes::from_envelope_kind("Mod"), None);
}

#[test]
fn manifest_into_safe_keeps_every_field() {
    let m: ForgeManifest<manifest::Mod, ManifestV1> = mod_builder().build();
    let safe = ForgeManifestSafe::from(m.clone());
    assert_eq!(safe.id(), m.id());
    assert_eq!(safe.manifest_version(), m.manifest_version());
    assert_eq!(safe.manifest_type(), m.manifest_type());
    assert_eq!(safe.inner(), m.inner());
    assert_eq!(m.clone().into_safe(), safe);
}

#[test]
fn requirement_parse_reads_comparators() {
    assert_eq!(
        Requirement::parse("=1.23.4"),
        Some(Requirement {
            comparators: vec![Comparator { op: Op::Exact, major: 1, minor: Some(23), patch: Some(4), pre: String::new() }],
        })
    );
    let req = Requirement::parse(">=1.2.3-rc.1, <2, ~0.3, ^4.5, >7, <=8.1, 9.*, 1.0.0").unwrap();
    let ops: Vec<Op> = req.comparators.iter().map(|c| c.op).collect();
    assert_eq!(ops, vec![Op::GreaterEq, Op::Less, Op::Tilde, Op::Caret, Op::Greater, Op::LessEq, Op::Wildcard, Op::Caret]);
    assert_eq!(req.comparators[0], Comparator { op: Op::GreaterEq, major: 1, minor: Some(2), patch: Some(3), pre: "rc.1".to_string() });
    assert_eq!(req.comparators[1], Comparator { op: Op::Less, major: 2, minor: None, patch: None, pre: String::new() });
    assert_eq!(req.comparators[6], Comparator { op: Op::Wildcard, major: 9, minor: None, patch: None, pre: String::new() });
}

#[test]
fn requirement_parse_refuses_what_is_no_constraint() {
    assert_eq!(Requirement::parse(">a.b"), None);
    assert_eq!(Requirement::parse("@1.0.0"), None);
    assert_eq!(Requirement::parse("^1.0.0, "), None);
    assert_eq!(Requirement::parse(">=1.0 <2.0"), None);
    assert_eq!(Requirement::parse("*.*"), None);
    assert_eq!(Requirement::parse("*"), Some(Requirement::any()));
    assert_eq!(Requirement::any().comparators, vec![]);
}

#[test]
fn requirement_from_parts() {
    let c = Comparator { op: Op::Tilde, major: 1, minor: None, patch: None, pre: String::new() };
    assert_eq!(Requirement::from_parts(vec![]), Some(Requirement::any()));
    assert_eq!(
        Requirement::from_parts(vec![Some(c.clone()), Some(c.clone())]),
        Some(Requirement { comparators: vec![c.clone(), c.clone()] })
    );
    assert_eq!(Requirement::from_parts(vec![Some(c.clone()), None]), None);
    assert_eq!(Requirement::from_parts(vec![None, Some(c)]), None);
}

#[test]
fn version_new_has_no_tags() {
    let v = Version::new(0, 1, 2);
    assert_eq!((v.major, v.minor, v.patch), (0, 1, 2));
    assert_eq!(v.pre, "");
    assert_eq!(v.build, "");
}

#[test]
fn envelope_clone_is_equal() {
    let e: ForgeMod<ManifestV1, manifest::Mod, data::Mod> =
        ModBuilder::new_mod_raw(mod_builder().build(), vec![1]).build();
    assert_eq!(e.clone(), e);
}

#[test]
fn lib_and_module_list_setters_replace() {
    let first = IncludeBuilder::new().add("a".into(), "1".into()).clone().build();
    let second = IncludeBuilder::new().add("b".into(), "2".into()).add("c".into(), "3".into()).clone().build();
    let deps1 = DependencyBuilder::new().add("x".to_string(), game()).clone().build();
    let deps2 = DependencyBuilder::new().add("y".to_string(), game()).add("z".to_string(), game()).clone().build();
    let mut l = ManifestBuilder::new_lib("l".to_string(), Version::new(1, 0, 0), game(), "l.dll".to_string());
    l.includes(first.clone()).includes(second.clone());
    l.depends(deps1.clone()).depends(deps2.clone());
    l.conflicts(deps2.clone()).conflicts(deps1.clone());
    let l = l.build();
    assert_eq!(l.inner().includes, second);
    assert_eq!(l.inner().depends, deps2);
    assert_eq!(l.inner().conflicts, deps1);
    let mut m = ManifestBuilder::new_module("m".to_string(), "m.dll".to_string());
    m.includes(second).includes(first.clone());
    m.depends(deps2.clone()).depends(deps1.clone());
    m.conflicts(deps1).conflicts(deps2.clone());
    let m = m.build();
    assert_eq!(m.inner().includes, first);
    assert_eq!(m.inner().depends.len(), 1);
    assert_eq!(m.inner().conflicts, deps2);
    let mut p = ManifestBuilder::new_module_parent("p".to_string(), Version::new(1, 0, 0), game());
    p.depends(deps2.clone()).depends(vec![]);
    p.conflicts(vec![]).conflicts(deps2.clone());
    let p = p.build();
    assert_eq!(p.inner().depends, vec![]);
    assert_eq!(p.inner().conflicts, deps2);
}

#[test]
fn setting_an_empty_list_clears_it() {
    let mut b = mod_builder();
    b.includes(IncludeBuilder::new().add("a".into(), "1".into()).clone().build());
    b.includes(vec![]);
    assert_eq!(b.build().inner().includes, vec![]);
}

#[test]
fn manifest_getters() {
    let m = mod_builder().build();
    assert_eq!(m.id(), "pp");
    assert_eq!(m.manifest_version(), 1);
    assert_eq!(m.manifest_type(), "mod");
    assert_eq!(m.inner().name, "pp");
    let safe = m.into_safe();
    assert_eq!(safe.id(), "pp");
    assert_eq!(safe.manifest_version(), 1);
    assert_eq!(safe.manifest_type(), "mod");
    assert_eq!(safe.inner().artifact, "./pp.dll");
}
