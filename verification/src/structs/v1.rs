//! The first generation of the manifest schema: its four kinds of package,
//! their builders, and the reading of an envelope whose kind is not known in
//! advance.

use vstd::prelude::*;
use crate::compress::{xz_decompress, xz_unpacked};
use crate::structs::forgemod::{
    lemma_read_wire_envelope, read_envelope, wf_envelope, wire_envelope, ForgeError, ForgeMod,
    ForgeModData, ForgeModGeneric, ForgeModGenericView, ForgeModView,
};
use crate::structs::manifest::{ForgeManifest, ManifestComponent, ManifestVersion, ManifestView};
use crate::structs::v1::data::{IncludeData, IncludeDataView};
use crate::structs::v1::manifest::{Category, Dependency, DependencyView, Include, IncludeView};
use crate::version::{Requirement, Version};
use crate::wire::{models, Wire};


pub mod data;
pub mod manifest;

verus! {

/// The first generation of the manifest schema.
#[derive(Debug, Clone, PartialEq)]
pub struct ManifestV1;

impl ManifestVersion for ManifestV1 {
    open spec fn number() -> u32 {
        1
    }

    fn format_version() -> (n: u32) {
        1
    }
}

/// The four kinds of package.
#[derive(Debug, Clone, Copy, PartialEq, Eq, Structural)]
pub enum ManifestTypes {
    /// A mod that stands alone.
    Mod,
    /// A package that only groups modules.
    ModuleParent,
    /// One module of a parent.
    Module,
    /// A library that other packages depend on.
    Lib,
}

impl ManifestTypes {
    /// The text by which a manifest names its kind.
    pub open spec fn manifest_tag(self) -> Seq<char> {
        match self {
            ManifestTypes::Mod => "mod"@,
            ManifestTypes::ModuleParent => "module_parent"@,
            ManifestTypes::Module => "module"@,
            ManifestTypes::Lib => "lib"@,
        }
    }

    /// The text by which an envelope names its kind.
    pub open spec fn envelope_tag(self) -> Seq<char> {
        match self {
            ManifestTypes::Mod => "mod"@,
            ManifestTypes::ModuleParent => "parent"@,
            ManifestTypes::Module => "module"@,
            ManifestTypes::Lib => "lib"@,
        }
    }

    /// The kind that an envelope names by `tag`, if it names one.
    pub open spec fn of_envelope_tag(tag: Seq<char>) -> Option<ManifestTypes> {
        if tag == "mod"@ {
            Some(ManifestTypes::Mod)
        } else if tag == "parent"@ {
            Some(ManifestTypes::ModuleParent)
        } else if tag == "module"@ {
            Some(ManifestTypes::Module)
        } else if tag == "lib"@ {
            Some(ManifestTypes::Lib)
        } else {
            None
        }
    }

    /// The text by which a manifest names this kind.
    pub fn to_string(&self) -> (text: String)
        ensures
            text@ == self.manifest_tag(),
    {
        match self {
            Self::Mod => "mod".to_string(),
            Self::ModuleParent => "module_parent".to_string(),
            Self::Module => "module".to_string(),
            Self::Lib => "lib".to_string(),
        }
    }

    /// The text by which an envelope names this kind.
    pub fn envelope_kind(&self) -> (text: &'static str)
        ensures
            text@ == self.envelope_tag(),
    {
        match self {
            Self::Mod => "mod",
            Self::ModuleParent => "parent",
            Self::Module => "module",
            Self::Lib => "lib",
        }
    }

    /// The kind that an envelope names by `tag`; `None` where it names none.
    pub fn from_envelope_kind(tag: &str) -> (kind: Option<ManifestTypes>)
        ensures
            kind == ManifestTypes::of_envelope_tag(tag@),
    {
        if crate::wire::text_eq(tag, "mod") {
            Some(Self::Mod)
        } else if crate::wire::text_eq(tag, "parent") {
            Some(Self::ModuleParent)
        } else if crate::wire::text_eq(tag, "module") {
            Some(Self::Module)
        } else if crate::wire::text_eq(tag, "lib") {
            Some(Self::Lib)
        } else {
            None
        }
    }

    /// An envelope's name for a kind names that kind and no other.
    pub proof fn lemma_envelope_tag(kind: ManifestTypes)
        ensures
            ManifestTypes::of_envelope_tag(kind.envelope_tag()) == Some(kind),
    {
        reveal_strlit("mod");
        reveal_strlit("parent");
        reveal_strlit("module");
        reveal_strlit("lib");
        assert("mod"@.len() == 3);
        assert("parent"@.len() == 6);
        assert("module"@.len() == 6);
        assert("lib"@.len() == 3);
        assert("mod"@[0] == 'm');
        assert("lib"@[0] == 'l');
        assert("parent"@[0] == 'p');
        assert("module"@[0] == 'm');
    }
}



/// What `slug::slugify` makes of a name: the identifier of the package.
pub uninterp spec fn slug_text(name: Seq<char>) -> Seq<char>;

/// Whether a text has the shape of a slug: made of `a` to `z`, `0` to `9` and
/// `-`, with no `-` at its start, at its end or after another.
pub open spec fn is_slug(text: Seq<char>) -> bool {
    &&& forall|i: int|
        0 <= i < text.len() ==> {
            let c = #[trigger] text[i];
            ('a' <= c && c <= 'z') || ('0' <= c && c <= '9') || c == '-'
        }
    &&& forall|i: int| 0 <= i < text.len() - 1 ==> !(#[trigger] text[i] == '-' && text[i + 1] == '-')
    &&& text.len() > 0 ==> text[0] != '-' && text[text.len() - 1] != '-'
}

/// `slug::slugify`: the identifier that stands for `name`. It has the shape of
/// a slug, as the crate's documentation says of every result.
#[verifier::external_body]
fn slugify(name: &str) -> (id: String)
    ensures
        id@ == slug_text(name@),
        is_slug(id@),
{
    slug::slugify(name)
}

/// Assembles the manifest of one kind of package. The fields that have no
/// sensible default are given when the builder is made; every other field has a
/// setter, and each call of a setter replaces what was set before.
#[derive(Debug, Clone, PartialEq)]
pub struct ManifestBuilder<T: ManifestComponent> {
    _inner: T,
}

impl<T: ManifestComponent> View for ManifestBuilder<T> {
    type V = T::Model;

    closed spec fn view(&self) -> T::Model {
        self._inner.model()
    }
}

impl<T: ManifestComponent> ManifestBuilder<T> {
    /// Ends the build with `id` as the package's identifier.
    pub fn build_with_id(self, id: String) -> (m: ForgeManifest<T, ManifestV1>)
        ensures
            m@ == (ManifestView {
                id: id@,
                manifest_version: 1,
                manifest_type: T::kind().manifest_tag(),
                inner: self@,
            }),
    {
        ForgeManifest::assemble(id, 1, T::manifest_kind().to_string(), self._inner)
    }
}

impl ManifestBuilder<manifest::Mod> {
    /// Starts the manifest of a mod from the four fields that every such
    /// manifest must state. Every other field starts empty, and the category as
    /// `Category::Other`.
    pub fn new_mod(
        name: String,
        mod_version: Version,
        game_version: Requirement,
        artifact: String,
    ) -> (builder: Self)
        ensures
            builder@ == (manifest::ModView {
                name: name@,
                version: mod_version@,
                game_version: game_version@,
                artifact: artifact@,
                ..manifest::Mod::empty()
            }),
    {
        Self {
            _inner: manifest::Mod {
                name,
                version: mod_version,
                artifact,
                game_version,
                ..Default::default()
            },
        }
    }

    /// What the package does.
    pub fn description(&mut self, description: String) -> (ret: &mut Self)
        ensures
            ret@ == (manifest::ModView { description: description@, ..old(self)@ }),
            *final(self) == *final(ret),
    {
        self._inner.description = description;
        self
    }

    /// Where to read more.
    pub fn website(&mut self, website: String) -> (ret: &mut Self)
        ensures
            ret@ == (manifest::ModView { website: website@, ..old(self)@ }),
            *final(self) == *final(ret),
    {
        self._inner.website = website;
        self
    }

    /// Where the package is shown. A text that names no category stands for
    /// `Category::Other`.
    pub fn category(&mut self, category: String) -> (ret: &mut Self)
        ensures
            ret@ == (manifest::ModView { category: Category::of_text(category@), ..old(self)@ }),
            *final(self) == *final(ret),
    {
        self._inner.category = Category::from_text(category.as_str());
        self
    }

    /// The script to run before installing, or `None` for no script.
    pub fn pre_exec(&mut self, pre_exec: Option<String>) -> (ret: &mut Self)
        ensures
            ret@ == (manifest::ModView { pre_exec: pre_exec.model(), ..old(self)@ }),
            *final(self) == *final(ret),
    {
        self._inner.pre_exec = pre_exec;
        self
    }

    /// The script to run after installing, or `None` for no script.
    pub fn post_exec(&mut self, post_exec: Option<String>) -> (ret: &mut Self)
        ensures
            ret@ == (manifest::ModView { post_exec: post_exec.model(), ..old(self)@ }),
            *final(self) == *final(ret),
    {
        self._inner.post_exec = post_exec;
        self
    }

    /// The files that are installed beside the artifact. The list replaces the
    /// one that was set before.
    pub fn includes(&mut self, includes: Vec<Include>) -> (ret: &mut Self)
        ensures
            ret@ == old(self)@.with_includes(includes.model()),
            *final(self) == *final(ret),
    {
        self._inner.includes = includes;
        self
    }

    /// The packages that this one needs. The list replaces the one that was set
    /// before.
    pub fn depends(&mut self, depends: Vec<Dependency>) -> (ret: &mut Self)
        ensures
            ret@ == old(self)@.with_depends(depends.model()),
            *final(self) == *final(ret),
    {
        self._inner.depends = depends;
        self
    }

    /// The packages that this one cannot live with. The list replaces the one
    /// that was set before.
    pub fn conflicts(&mut self, conflicts: Vec<Dependency>) -> (ret: &mut Self)
        ensures
            ret@ == old(self)@.with_conflicts(conflicts.model()),
            *final(self) == *final(ret),
    {
        self._inner.conflicts = conflicts;
        self
    }

    /// Ends the build: the manifest of a mod, with the identifier that its name
    /// gives, and marked as a manifest of the first generation and of its kind.
    pub fn build(self) -> (m: ForgeManifest<manifest::Mod, ManifestV1>)
        ensures
            m@ == (ManifestView {
                id: slug_text(self@.name),
                manifest_version: 1,
                manifest_type: ManifestTypes::Mod.manifest_tag(),
                inner: self@,
            }),
            is_slug(m@.id),
    {
        let id = slugify(self._inner.name.as_str());
        self.build_with_id(id)
    }
}

impl ManifestBuilder<manifest::Lib> {
    /// Starts the manifest of a library from the four fields that every such
    /// manifest must state. Every other field starts empty, and the category as
    /// `Category::Other`.
    pub fn new_lib(
        name: String,
        lib_version: Version,
        game_version: Requirement,
        artifact: String,
    ) -> (builder: Self)
        ensures
            builder@ == (manifest::LibView {
                name: name@,
                version: lib_version@,
                game_version: game_version@,
                artifact: artifact@,
                ..manifest::Lib::empty()
            }),
    {
        Self {
            _inner: manifest::Lib {
                name,
                version: lib_version,
                artifact,
                game_version,
                ..Default::default()
            },
        }
    }

    /// What the package does.
    pub fn description(&mut self, description: String) -> (ret: &mut Self)
        ensures
            ret@ == (manifest::LibView { description: description@, ..old(self)@ }),
            *final(self) == *final(ret),
    {
        self._inner.description = description;
        self
    }

    /// Where to read more.
    pub fn website(&mut self, website: String) -> (ret: &mut Self)
        ensures
            ret@ == (manifest::LibView { website: website@, ..old(self)@ }),
            *final(self) == *final(ret),
    {
        self._inner.website = website;
        self
    }

    /// Where the package is shown. A text that names no category stands for
    /// `Category::Other`.
    pub fn category(&mut self, category: String) -> (ret: &mut Self)
        ensures
            ret@ == (manifest::LibView { category: Category::of_text(category@), ..old(self)@ }),
            *final(self) == *final(ret),
    {
        self._inner.category = Category::from_text(category.as_str());
        self
    }

    /// The script to run before installing, or `None` for no script.
    pub fn pre_exec(&mut self, pre_exec: Option<String>) -> (ret: &mut Self)
        ensures
            ret@ == (manifest::LibView { pre_exec: pre_exec.model(), ..old(self)@ }),
            *final(self) == *final(ret),
    {
        self._inner.pre_exec = pre_exec;
        self
    }

    /// The script to run after installing, or `None` for no script.
    pub fn post_exec(&mut self, post_exec: Option<String>) -> (ret: &mut Self)
        ensures
            ret@ == (manifest::LibView { post_exec: post_exec.model(), ..old(self)@ }),
            *final(self) == *final(ret),
    {
        self._inner.post_exec = post_exec;
        self
    }

    /// The files that are installed beside the artifact. The list replaces the
    /// one that was set before.
    pub fn includes(&mut self, includes: Vec<Include>) -> (ret: &mut Self)
        ensures
            ret@ == old(self)@.with_includes(includes.model()),
            *final(self) == *final(ret),
    {
        self._inner.includes = includes;
        self
    }

    /// The packages that this one needs. The list replaces the one that was set
    /// before.
    pub fn depends(&mut self, depends: Vec<Dependency>) -> (ret: &mut Self)
        ensures
            ret@ == old(self)@.with_depends(depends.model()),
            *final(self) == *final(ret),
    {
        self._inner.depends = depends;
        self
    }

    /// The packages that this one cannot live with. The list replaces the one
    /// that was set before.
    pub fn conflicts(&mut self, conflicts: Vec<Dependency>) -> (ret: &mut Self)
        ensures
            ret@ == old(self)@.with_conflicts(conflicts.model()),
            *final(self) == *final(ret),
    {
        self._inner.conflicts = conflicts;
        self
    }

    /// Ends the build: the manifest of a library, with the identifier that its name
    /// gives, and marked as a manifest of the first generation and of its kind.
    pub fn build(self) -> (m: ForgeManifest<manifest::Lib, ManifestV1>)
        ensures
            m@ == (ManifestView {
                id: slug_text(self@.name),
                manifest_version: 1,
                manifest_type: ManifestTypes::Lib.manifest_tag(),
                inner: self@,
            }),
            is_slug(m@.id),
    {
        let id = slugify(self._inner.name.as_str());
        self.build_with_id(id)
    }
}

impl ManifestBuilder<manifest::Parent> {
    /// Starts the manifest of a parent of modules from the three fields that
    /// every such manifest must state. Every other field starts empty, and the
    /// category as `Category::Other`.
    pub fn new_module_parent(
        name: String,
        parent_version: Version,
        game_version: Requirement,
    ) -> (builder: Self)
        ensures
            builder@ == (manifest::ParentView {
                name: name@,
                version: parent_version@,
                game_version: game_version@,
                ..manifest::Parent::empty()
            }),
    {
        Self {
            _inner: manifest::Parent {
                name,
                version: parent_version,
                game_version,
                ..Default::default()
            },
        }
    }

    /// What the package does.
    pub fn description(&mut self, description: String) -> (ret: &mut Self)
        ensures
            ret@ == (manifest::ParentView { description: description@, ..old(self)@ }),
            *final(self) == *final(ret),
    {
        self._inner.description = description;
        self
    }

    /// Where to read more.
    pub fn website(&mut self, website: String) -> (ret: &mut Self)
        ensures
            ret@ == (manifest::ParentView { website: website@, ..old(self)@ }),
            *final(self) == *final(ret),
    {
        self._inner.website = website;
        self
    }

    /// Where the package is shown. A text that names no category stands for
    /// `Category::Other`.
    pub fn category(&mut self, category: String) -> (ret: &mut Self)
        ensures
            ret@ == (manifest::ParentView { category: Category::of_text(category@), ..old(self)@ }),
            *final(self) == *final(ret),
    {
        self._inner.category = Category::from_text(category.as_str());
        self
    }

    /// The script to run before installing, or `None` for no script.
    pub fn pre_exec(&mut self, pre_exec: Option<String>) -> (ret: &mut Self)
        ensures
            ret@ == (manifest::ParentView { pre_exec: pre_exec.model(), ..old(self)@ }),
            *final(self) == *final(ret),
    {
        self._inner.pre_exec = pre_exec;
        self
    }

    /// The script to run after installing, or `None` for no script.
    pub fn post_exec(&mut self, post_exec: Option<String>) -> (ret: &mut Self)
        ensures
            ret@ == (manifest::ParentView { post_exec: post_exec.model(), ..old(self)@ }),
            *final(self) == *final(ret),
    {
        self._inner.post_exec = post_exec;
        self
    }

    /// Where the manifests of the modules are read from. The list replaces the
    /// one that was set before.
    pub fn modules(&mut self, modules: Vec<String>) -> (ret: &mut Self)
        ensures
            ret@ == old(self)@.with_modules(modules.model()),
            *final(self) == *final(ret),
    {
        self._inner.modules = modules;
        self
    }

    /// The packages that this one needs. The list replaces the one that was set
    /// before.
    pub fn depends(&mut self, depends: Vec<Dependency>) -> (ret: &mut Self)
        ensures
            ret@ == old(self)@.with_depends(depends.model()),
            *final(self) == *final(ret),
    {
        self._inner.depends = depends;
        self
    }

    /// The packages that this one cannot live with. The list replaces the one
    /// that was set before.
    pub fn conflicts(&mut self, conflicts: Vec<Dependency>) -> (ret: &mut Self)
        ensures
            ret@ == old(self)@.with_conflicts(conflicts.model()),
            *final(self) == *final(ret),
    {
        self._inner.conflicts = conflicts;
        self
    }

    /// Ends the build: the manifest of a parent of modules, with the identifier that its name
    /// gives, and marked as a manifest of the first generation and of its kind.
    pub fn build(self) -> (m: ForgeManifest<manifest::Parent, ManifestV1>)
        ensures
            m@ == (ManifestView {
                id: slug_text(self@.name),
                manifest_version: 1,
                manifest_type: ManifestTypes::ModuleParent.manifest_tag(),
                inner: self@,
            }),
            is_slug(m@.id),
    {
        let id = slugify(self._inner.name.as_str());
        self.build_with_id(id)
    }
}

impl ManifestBuilder<manifest::Module> {
    /// Starts the manifest of a module from the two fields that every such
    /// manifest must state. The module starts neither required nor suggested,
    /// and every other field starts empty.
    pub fn new_module(module_name: String, artifact: String) -> (builder: Self)
        ensures
            builder@ == (manifest::ModuleView {
                name: module_name@,
                artifact: artifact@,
                ..manifest::Module::empty()
            }),
    {
        Self { _inner: manifest::Module { name: module_name, artifact, ..Default::default() } }
    }

    /// Whether the parent cannot be installed without this module.
    pub fn required(&mut self, required: bool) -> (ret: &mut Self)
        ensures
            ret@ == (manifest::ModuleView { required: required, ..old(self)@ }),
            *final(self) == *final(ret),
    {
        self._inner.required = required;
        self
    }

    /// Whether the module is installed unless the user says otherwise.
    pub fn suggested(&mut self, suggested: bool) -> (ret: &mut Self)
        ensures
            ret@ == (manifest::ModuleView { suggested: suggested, ..old(self)@ }),
            *final(self) == *final(ret),
    {
        self._inner.suggested = suggested;
        self
    }

    /// The script to run before installing, or `None` for no script.
    pub fn pre_exec(&mut self, pre_exec: Option<String>) -> (ret: &mut Self)
        ensures
            ret@ == (manifest::ModuleView { pre_exec: pre_exec.model(), ..old(self)@ }),
            *final(self) == *final(ret),
    {
        self._inner.pre_exec = pre_exec;
        self
    }

    /// The script to run after installing, or `None` for no script.
    pub fn post_exec(&mut self, post_exec: Option<String>) -> (ret: &mut Self)
        ensures
            ret@ == (manifest::ModuleView { post_exec: post_exec.model(), ..old(self)@ }),
            *final(self) == *final(ret),
    {
        self._inner.post_exec = post_exec;
        self
    }

    /// The files that are installed beside the artifact. The list replaces the
    /// one that was set before.
    pub fn includes(&mut self, includes: Vec<Include>) -> (ret: &mut Self)
        ensures
            ret@ == old(self)@.with_includes(includes.model()),
            *final(self) == *final(ret),
    {
        self._inner.includes = includes;
        self
    }

    /// The packages that this one needs. The list replaces the one that was set
    /// before.
    pub fn depends(&mut self, depends: Vec<Dependency>) -> (ret: &mut Self)
        ensures
            ret@ == old(self)@.with_depends(depends.model()),
            *final(self) == *final(ret),
    {
        self._inner.depends = depends;
        self
    }

    /// The packages that this one cannot live with. The list replaces the one
    /// that was set before.
    pub fn conflicts(&mut self, conflicts: Vec<Dependency>) -> (ret: &mut Self)
        ensures
            ret@ == old(self)@.with_conflicts(conflicts.model()),
            *final(self) == *final(ret),
    {
        self._inner.conflicts = conflicts;
        self
    }

    /// Ends the build: the manifest of a module, with the identifier that its name
    /// gives, and marked as a manifest of the first generation and of its kind.
    pub fn build(self) -> (m: ForgeManifest<manifest::Module, ManifestV1>)
        ensures
            m@ == (ManifestView {
                id: slug_text(self@.name),
                manifest_version: 1,
                manifest_type: ManifestTypes::Module.manifest_tag(),
                inner: self@,
            }),
            is_slug(m@.id),
    {
        let id = slugify(self._inner.name.as_str());
        self.build_with_id(id)
    }
}

/// Gathers the files that are installed beside an artifact, one by one.
#[derive(Debug, Clone, PartialEq)]
pub struct IncludeBuilder {
    _inners: Vec<Include>,
}

impl View for IncludeBuilder {
    type V = Seq<IncludeView>;

    closed spec fn view(&self) -> Seq<IncludeView> {
        self._inners.model()
    }
}

impl IncludeBuilder {
    /// A builder that holds no file yet.
    pub fn new() -> (builder: Self)
        ensures
            builder@ == Seq::<IncludeView>::empty(),
    {
        let builder = Self { _inners: Vec::new() };
        assert(builder@ =~= Seq::<IncludeView>::empty());
        builder
    }

    /// Adds one file at the end: where it goes, and where it is read from.
    pub fn add(&mut self, bs_dest: String, local_src: String) -> (ret: &mut Self)
        ensures
            ret@ == old(self)@.push(IncludeView { bs_dest: bs_dest@, local_src: local_src@ }),
            *final(self) == *final(ret),
    {
        let ghost before = self@;
        self._inners.push(Include { bs_dest, local_src });
        assert(self@ =~= before.push(IncludeView { bs_dest: bs_dest@, local_src: local_src@ }));
        self
    }

    /// Ends the build: the files, in the order in which they were added.
    pub fn build(self) -> (list: Vec<Include>)
        ensures
            list.model() == self@,
    {
        self._inners
    }
}

/// Gathers the packages that a package needs, or cannot live with, one by one.
#[derive(Debug, Clone, PartialEq)]
pub struct DependencyBuilder {
    _inners: Vec<Dependency>,
}

impl View for DependencyBuilder {
    type V = Seq<DependencyView>;

    closed spec fn view(&self) -> Seq<DependencyView> {
        self._inners.model()
    }
}

impl DependencyBuilder {
    /// A builder that holds no package yet.
    pub fn new() -> (builder: Self)
        ensures
            builder@ == Seq::<DependencyView>::empty(),
    {
        let builder = Self { _inners: Vec::new() };
        assert(builder@ =~= Seq::<DependencyView>::empty());
        builder
    }

    /// Adds one package at the end: its identifier, and the versions that are
    /// meant. A package that was added before is added again.
    pub fn add(&mut self, name: String, version: Requirement) -> (ret: &mut Self)
        ensures
            ret@ == old(self)@.push(DependencyView { name: name@, version: version@ }),
            *final(self) == *final(ret),
    {
        let ghost before = self@;
        self._inners.push(Dependency { name, version });
        assert(self@ =~= before.push(DependencyView { name: name@, version: version@ }));
        self
    }

    /// Ends the build: the packages, in the order in which they were added.
    pub fn build(self) -> (list: Vec<Dependency>)
        ensures
            list.model() == self@,
    {
        self._inners
    }
}

/// The value of a [`ModBuilder`]: the manifest it was given and the payload it
/// has gathered.
pub struct ModBuilderView<C, D> {
    pub manifest: ManifestView<C>,
    pub data: D,
}

/// Assembles an envelope: takes a finished manifest, gathers the payload of its
/// package, and puts both together.
#[derive(Debug, Clone, PartialEq)]
pub struct ModBuilder<Type: ManifestComponent, Data: ForgeModData> {
    _manifest: ForgeManifest<Type, ManifestV1>,
    _inner: Data,
}

impl<Type: ManifestComponent, Data: ForgeModData> View for ModBuilder<Type, Data> {
    type V = ModBuilderView<Type::Model, Data::Model>;

    closed spec fn view(&self) -> ModBuilderView<Type::Model, Data::Model> {
        ModBuilderView { manifest: self._manifest@, data: self._inner.model() }
    }
}

impl ModBuilder<manifest::Mod, data::Mod> {
    /// Starts the envelope of a mod from its manifest and the bytes of its
    /// artifact, with no file beside the artifact yet.
    pub fn new_mod_raw(
        manifest: ForgeManifest<manifest::Mod, ManifestV1>,
        artifact_data: Vec<u8>,
    ) -> (builder: Self)
        ensures
            builder@ == (ModBuilderView {
                manifest: manifest@,
                data: data::ModView { artifact_data: artifact_data@, includes_data: Seq::empty() },
            }),
    {
        let builder = Self {
            _manifest: manifest,
            _inner: data::Mod { artifact_data, includes_data: Vec::new() },
        };
        assert(builder@.data.includes_data =~= Seq::empty());
        builder
    }

    /// The files that are installed beside the artifact. The list replaces the
    /// one that was set before.
    pub fn includes(&mut self, includes: Vec<IncludeData>) -> (ret: &mut Self)
        ensures
            ret@ == (ModBuilderView {
                data: old(self)@.data.with_includes_data(includes.model()),
                ..old(self)@
            }),
            *final(self) == *final(ret),
    {
        self._inner.includes_data = includes;
        self
    }

    /// Ends the build: the envelope of the manifest and the payload, marked as
    /// an envelope of the first generation and of kind `mod`.
    pub fn build(self) -> (e: ForgeMod<ManifestV1, manifest::Mod, data::Mod>)
        ensures
            e@ == (ForgeModView {
                format_version: 1,
                kind: ManifestTypes::Mod.envelope_tag(),
                manifest: self@.manifest,
                data: self@.data,
            }),
    {
        ForgeMod::assemble(self._manifest.into_safe(), self._inner)
    }

}

impl ForgeMod<ManifestV1, manifest::Mod, data::Mod> {
    /// The bytes of the artifact.
    pub fn artifact_data(&self) -> (bytes: &[u8])
        ensures
            bytes@ == self@.data.artifact_data,
    {
        self.data().artifact_data.as_slice()
    }

    /// The files that are installed beside the artifact, in order.
    pub fn includes_data(&self) -> (files: &[IncludeData])
        ensures
            models::<IncludeData>(files@) == self@.data.includes_data,
    {
        self.data().includes_data.as_slice()
    }
}

impl ModBuilder<manifest::Parent, data::Parent> {
    /// Starts the envelope of a parent of modules from its manifest. A parent
    /// has no payload.
    pub fn new_module_parent(manifest: ForgeManifest<manifest::Parent, ManifestV1>) -> (builder: Self)
        ensures
            builder@ == (ModBuilderView { manifest: manifest@, data: data::ParentView {} }),
    {
        Self { _manifest: manifest, _inner: data::Parent {} }
    }

    /// Ends the build: the envelope of the manifest, marked as an envelope of
    /// the first generation and of kind `parent`.
    pub fn build(self) -> (e: ForgeMod<ManifestV1, manifest::Parent, data::Parent>)
        ensures
            e@ == (ForgeModView {
                format_version: 1,
                kind: ManifestTypes::ModuleParent.envelope_tag(),
                manifest: self@.manifest,
                data: self@.data,
            }),
    {
        ForgeMod::assemble(self._manifest.into_safe(), self._inner)
    }
}

impl ModBuilder<manifest::Module, data::Module> {
    /// Starts the envelope of a module from its manifest and the bytes of its
    /// artifact, with no file beside the artifact yet. The payload repeats the
    /// manifest's identifier and whether the module is required or suggested.
    pub fn new_module_raw(
        manifest: ForgeManifest<manifest::Module, ManifestV1>,
        artifact_data: Vec<u8>,
    ) -> (builder: Self)
        ensures
            builder@ == (ModBuilderView {
                manifest: manifest@,
                data: data::ModuleView {
                    _id: manifest@.id,
                    required: manifest@.inner.required,
                    suggested: manifest@.inner.suggested,
                    artifact_data: artifact_data@,
                    includes_data: Seq::empty(),
                },
            }),
    {
        let builder = Self {
            _inner: data::Module {
                _id: manifest.id().to_string(),
                required: manifest.inner().required,
                suggested: manifest.inner().suggested,
                artifact_data,
                includes_data: Vec::new(),
            },
            _manifest: manifest,
        };
        assert(builder@.data.includes_data =~= Seq::empty());
        builder
    }

    /// The files that are installed beside the artifact. The list replaces the
    /// one that was set before.
    pub fn includes(&mut self, includes: Vec<IncludeData>) -> (ret: &mut Self)
        ensures
            ret@ == (ModBuilderView {
                data: old(self)@.data.with_includes_data(includes.model()),
                ..old(self)@
            }),
            *final(self) == *final(ret),
    {
        self._inner.includes_data = includes;
        self
    }

    /// Ends the build: the envelope of the manifest and the payload, marked as
    /// an envelope of the first generation and of kind `module`.
    pub fn build(self) -> (e: ForgeMod<ManifestV1, manifest::Module, data::Module>)
        ensures
            e@ == (ForgeModView {
                format_version: 1,
                kind: ManifestTypes::Module.envelope_tag(),
                manifest: self@.manifest,
                data: self@.data,
            }),
    {
        ForgeMod::assemble(self._manifest.into_safe(), self._inner)
    }

}

impl ForgeMod<ManifestV1, manifest::Module, data::Module> {
    /// The bytes of the artifact.
    pub fn artifact_data(&self) -> (bytes: &[u8])
        ensures
            bytes@ == self@.data.artifact_data,
    {
        self.data().artifact_data.as_slice()
    }

    /// The files that are installed beside the artifact, in order.
    pub fn includes_data(&self) -> (files: &[IncludeData])
        ensures
            models::<IncludeData>(files@) == self@.data.includes_data,
    {
        self.data().includes_data.as_slice()
    }
}

impl ModBuilder<manifest::Lib, data::Lib> {
    /// Starts the envelope of a library from its manifest and the bytes of its
    /// artifact, with no file beside the artifact yet.
    pub fn new_lib_raw(
        manifest: ForgeManifest<manifest::Lib, ManifestV1>,
        artifact_data: Vec<u8>,
    ) -> (builder: Self)
        ensures
            builder@ == (ModBuilderView {
                manifest: manifest@,
                data: data::LibView { artifact_data: artifact_data@, includes_data: Seq::empty() },
            }),
    {
        let builder = Self {
            _manifest: manifest,
            _inner: data::Lib { artifact_data, includes_data: Vec::new() },
        };
        assert(builder@.data.includes_data =~= Seq::empty());
        builder
    }

    /// The files that are installed beside the artifact. The list replaces the
    /// one that was set before.
    pub fn includes(&mut self, includes: Vec<IncludeData>) -> (ret: &mut Self)
        ensures
            ret@ == (ModBuilderView {
                data: old(self)@.data.with_includes_data(includes.model()),
                ..old(self)@
            }),
            *final(self) == *final(ret),
    {
        self._inner.includes_data = includes;
        self
    }

    /// Ends the build: the envelope of the manifest and the payload, marked as
    /// an envelope of the first generation and of kind `lib`.
    pub fn build(self) -> (e: ForgeMod<ManifestV1, manifest::Lib, data::Lib>)
        ensures
            e@ == (ForgeModView {
                format_version: 1,
                kind: ManifestTypes::Lib.envelope_tag(),
                manifest: self@.manifest,
                data: self@.data,
            }),
    {
        ForgeMod::assemble(self._manifest.into_safe(), self._inner)
    }

}

impl ForgeMod<ManifestV1, manifest::Lib, data::Lib> {
    /// The bytes of the artifact.
    pub fn artifact_data(&self) -> (bytes: &[u8])
        ensures
            bytes@ == self@.data.artifact_data,
    {
        self.data().artifact_data.as_slice()
    }

    /// The files that are installed beside the artifact, in order.
    pub fn includes_data(&self) -> (files: &[IncludeData])
        ensures
            models::<IncludeData>(files@) == self@.data.includes_data,
    {
        self.data().includes_data.as_slice()
    }
}

/// Gathers the files that are installed beside an artifact, with what they
/// hold, one by one.
#[derive(Debug, Clone, PartialEq)]
pub struct IncludeDataBuilder {
    _inners: Vec<IncludeData>,
}

impl View for IncludeDataBuilder {
    type V = Seq<IncludeDataView>;

    closed spec fn view(&self) -> Seq<IncludeDataView> {
        self._inners.model()
    }
}

impl IncludeDataBuilder {
    /// A builder that holds no file yet.
    pub fn new() -> (builder: Self)
        ensures
            builder@ == Seq::<IncludeDataView>::empty(),
    {
        let builder = Self { _inners: Vec::new() };
        assert(builder@ =~= Seq::<IncludeDataView>::empty());
        builder
    }

    /// Adds one file at the end: where it goes, and what it holds.
    pub fn add_raw(&mut self, dest: String, data: Vec<u8>) -> (ret: &mut Self)
        ensures
            ret@ == old(self)@.push(IncludeDataView { dest: dest@, data: data@ }),
            *final(self) == *final(ret),
    {
        let ghost before = self@;
        self._inners.push(IncludeData { dest, data });
        assert(self@ =~= before.push(IncludeDataView { dest: dest@, data: data@ }));
        self
    }

    /// Ends the build: the files, in the order in which they were added.
    pub fn build(self) -> (list: Vec<IncludeData>)
        ensures
            list.model() == self@,
    {
        self._inners
    }
}

/// An envelope of any of the four kinds.
#[derive(Debug, Clone, PartialEq)]
pub enum ForgeModTypes {
    /// A mod that stands alone.
    Mod(ForgeMod<ManifestV1, manifest::Mod, data::Mod>),
    /// A package that only groups modules.
    Parent(ForgeMod<ManifestV1, manifest::Parent, data::Parent>),
    /// One module of a parent.
    Module(ForgeMod<ManifestV1, manifest::Module, data::Module>),
    /// A library.
    Lib(ForgeMod<ManifestV1, manifest::Lib, data::Lib>),
}

/// The value of a [`ForgeModTypes`].
pub enum ForgeModTypesView {
    Mod(ForgeModView<manifest::ModView, data::ModView>),
    Parent(ForgeModView<manifest::ParentView, data::ParentView>),
    Module(ForgeModView<manifest::ModuleView, data::ModuleView>),
    Lib(ForgeModView<manifest::LibView, data::LibView>),
}

impl ForgeModTypesView {
    /// The kind of the envelope.
    pub open spec fn kind(self) -> ManifestTypes {
        match self {
            ForgeModTypesView::Mod(_) => ManifestTypes::Mod,
            ForgeModTypesView::Parent(_) => ManifestTypes::ModuleParent,
            ForgeModTypesView::Module(_) => ManifestTypes::Module,
            ForgeModTypesView::Lib(_) => ManifestTypes::Lib,
        }
    }
}

impl View for ForgeModTypes {
    type V = ForgeModTypesView;

    open spec fn view(&self) -> ForgeModTypesView {
        match self {
            ForgeModTypes::Mod(e) => ForgeModTypesView::Mod(e@),
            ForgeModTypes::Parent(e) => ForgeModTypesView::Parent(e@),
            ForgeModTypes::Module(e) => ForgeModTypesView::Module(e@),
            ForgeModTypes::Lib(e) => ForgeModTypesView::Lib(e@),
        }
    }
}

impl ForgeModTypes {
    /// The kind of the envelope.
    pub fn kind(&self) -> (kind: ManifestTypes)
        ensures
            kind == self@.kind(),
    {
        match self {
            ForgeModTypes::Mod(_) => ManifestTypes::Mod,
            ForgeModTypes::Parent(_) => ManifestTypes::ModuleParent,
            ForgeModTypes::Module(_) => ManifestTypes::Module,
            ForgeModTypes::Lib(_) => ManifestTypes::Lib,
        }
    }

    /// The kind of the envelope, as an envelope names it.
    pub fn to_string(&self) -> (text: String)
        ensures
            text@ == self@.kind().envelope_tag(),
    {
        self.kind().envelope_kind().to_string()
    }
}

/// What reading `raw`, the uncompressed bytes of an envelope of unknown kind,
/// yields. The version and the kind are read first. A version other than 1 is
/// a `VersionMismatch` and a kind that is none of the four an `UnknownKind`,
/// whatever follows; only then is the rest read, as an envelope of the kind
/// that was named.
pub open spec fn dispatched(raw: Seq<u8>) -> Result<ForgeModTypesView, ForgeError> {
    match ForgeModGeneric::read(raw) {
        None => Err(ForgeError::Decode),
        Some((head, rest)) => if head.format_version != 1 {
            Err(ForgeError::VersionMismatch)
        } else {
            match ManifestTypes::of_envelope_tag(head.kind) {
                None => Err(ForgeError::UnknownKind),
                Some(ManifestTypes::Mod) => match read_envelope::<
                    ManifestV1,
                    manifest::Mod,
                    data::Mod,
                >(raw) {
                    Some(e) => Ok(ForgeModTypesView::Mod(e)),
                    None => Err(ForgeError::Decode),
                },
                Some(ManifestTypes::ModuleParent) => match read_envelope::<
                    ManifestV1,
                    manifest::Parent,
                    data::Parent,
                >(raw) {
                    Some(e) => Ok(ForgeModTypesView::Parent(e)),
                    None => Err(ForgeError::Decode),
                },
                Some(ManifestTypes::Module) => match read_envelope::<
                    ManifestV1,
                    manifest::Module,
                    data::Module,
                >(raw) {
                    Some(e) => Ok(ForgeModTypesView::Module(e)),
                    None => Err(ForgeError::Decode),
                },
                Some(ManifestTypes::Lib) => match read_envelope::<
                    ManifestV1,
                    manifest::Lib,
                    data::Lib,
                >(raw) {
                    Some(e) => Ok(ForgeModTypesView::Lib(e)),
                    None => Err(ForgeError::Decode),
                },
            }
        },
    }
}

/// What reading a compressed stream as an envelope of unknown kind yields.
pub open spec fn unpacked_v1(stream: Seq<u8>) -> Result<ForgeModTypesView, ForgeError> {
    match xz_unpacked(stream) {
        None => Err(ForgeError::Compression),
        Some(raw) => dispatched(raw),
    }
}

/// Version gate: bytes that start with a version other than 1 are refused as a
/// `VersionMismatch`, whatever kind they name and whatever follows.
pub proof fn lemma_version_gate(raw: Seq<u8>, head: ForgeModGenericView, rest: Seq<u8>)
    requires
        ForgeModGeneric::read(raw) == Some((head, rest)),
        head.format_version != 1,
    ensures
        dispatched(raw) == Err::<ForgeModTypesView, ForgeError>(ForgeError::VersionMismatch),
{
}

/// Kind gate: bytes that start with version 1 and a kind that is none of the
/// four are refused as an `UnknownKind`, whatever follows.
pub proof fn lemma_kind_gate(raw: Seq<u8>, head: ForgeModGenericView, rest: Seq<u8>)
    requires
        ForgeModGeneric::read(raw) == Some((head, rest)),
        head.format_version == 1,
        forall|kind: ManifestTypes| head.kind != kind.envelope_tag(),
    ensures
        dispatched(raw) == Err::<ForgeModTypesView, ForgeError>(ForgeError::UnknownKind),
{
    match ManifestTypes::of_envelope_tag(head.kind) {
        Some(kind) => {
            assert(head.kind == kind.envelope_tag());
        },
        None => {},
    }
}

/// Round trip without knowing the kind: the bytes of a well-formed envelope of
/// a mod are read back as that envelope, of kind `Mod`; so is a stream
/// that decompresses to them.
pub proof fn lemma_dispatch_mod(
    e: ForgeModView<manifest::ModView, data::ModView>,
    stream: Seq<u8>,
)
    requires
        wf_envelope::<ManifestV1, manifest::Mod, data::Mod>(e),
    ensures
        dispatched(wire_envelope::<ManifestV1, manifest::Mod, data::Mod>(e)) == Ok::<
            ForgeModTypesView,
            ForgeError,
        >(ForgeModTypesView::Mod(e)),
        xz_unpacked(stream) == Some(wire_envelope::<ManifestV1, manifest::Mod, data::Mod>(e))
            ==> unpacked_v1(stream) == Ok::<ForgeModTypesView, ForgeError>(
            ForgeModTypesView::Mod(e),
        ),
{
    lemma_read_wire_envelope::<ManifestV1, manifest::Mod, data::Mod>(e);
    ManifestTypes::lemma_envelope_tag(ManifestTypes::Mod);
}

/// Round trip without knowing the kind: the bytes of a well-formed envelope of
/// a parent of modules are read back as that envelope, of kind `ModuleParent`; so is a stream
/// that decompresses to them.
pub proof fn lemma_dispatch_parent(
    e: ForgeModView<manifest::ParentView, data::ParentView>,
    stream: Seq<u8>,
)
    requires
        wf_envelope::<ManifestV1, manifest::Parent, data::Parent>(e),
    ensures
        dispatched(wire_envelope::<ManifestV1, manifest::Parent, data::Parent>(e)) == Ok::<
            ForgeModTypesView,
            ForgeError,
        >(ForgeModTypesView::Parent(e)),
        xz_unpacked(stream) == Some(wire_envelope::<ManifestV1, manifest::Parent, data::Parent>(e))
            ==> unpacked_v1(stream) == Ok::<ForgeModTypesView, ForgeError>(
            ForgeModTypesView::Parent(e),
        ),
{
    lemma_read_wire_envelope::<ManifestV1, manifest::Parent, data::Parent>(e);
    ManifestTypes::lemma_envelope_tag(ManifestTypes::ModuleParent);
}

/// Round trip without knowing the kind: the bytes of a well-formed envelope of
/// a module are read back as that envelope, of kind `Module`; so is a stream
/// that decompresses to them.
pub proof fn lemma_dispatch_module(
    e: ForgeModView<manifest::ModuleView, data::ModuleView>,
    stream: Seq<u8>,
)
    requires
        wf_envelope::<ManifestV1, manifest::Module, data::Module>(e),
    ensures
        dispatched(wire_envelope::<ManifestV1, manifest::Module, data::Module>(e)) == Ok::<
            ForgeModTypesView,
            ForgeError,
        >(ForgeModTypesView::Module(e)),
        xz_unpacked(stream) == Some(wire_envelope::<ManifestV1, manifest::Module, data::Module>(e))
            ==> unpacked_v1(stream) == Ok::<ForgeModTypesView, ForgeError>(
            ForgeModTypesView::Module(e),
        ),
{
    lemma_read_wire_envelope::<ManifestV1, manifest::Module, data::Module>(e);
    ManifestTypes::lemma_envelope_tag(ManifestTypes::Module);
}

/// Round trip without knowing the kind: the bytes of a well-formed envelope of
/// a library are read back as that envelope, of kind `Lib`; so is a stream
/// that decompresses to them.
pub proof fn lemma_dispatch_lib(
    e: ForgeModView<manifest::LibView, data::LibView>,
    stream: Seq<u8>,
)
    requires
        wf_envelope::<ManifestV1, manifest::Lib, data::Lib>(e),
    ensures
        dispatched(wire_envelope::<ManifestV1, manifest::Lib, data::Lib>(e)) == Ok::<
            ForgeModTypesView,
            ForgeError,
        >(ForgeModTypesView::Lib(e)),
        xz_unpacked(stream) == Some(wire_envelope::<ManifestV1, manifest::Lib, data::Lib>(e))
            ==> unpacked_v1(stream) == Ok::<ForgeModTypesView, ForgeError>(
            ForgeModTypesView::Lib(e),
        ),
{
    lemma_read_wire_envelope::<ManifestV1, manifest::Lib, data::Lib>(e);
    ManifestTypes::lemma_envelope_tag(ManifestTypes::Lib);
}

/// Reads an envelope of unknown kind from `raw`, its uncompressed bytes.
pub fn unpack_v1_raw(raw: &[u8]) -> (res: Result<ForgeModTypes, ForgeError>)
    ensures
        match res {
            Ok(e) => dispatched(raw@) == Ok::<ForgeModTypesView, ForgeError>(e@),
            Err(e) => dispatched(raw@) == Err::<ForgeModTypesView, ForgeError>(e),
        },
{
    let generic = match ForgeModGeneric::from_raw(raw) {
        Ok(generic) => generic,
        Err(e) => { return Err(e); },
    };
    let format_version: u32 = generic.format_version();

    if format_version != 1 {
        return Err(ForgeError::VersionMismatch);
    }
    match ManifestTypes::from_envelope_kind(generic.kind()) {
        Some(ManifestTypes::Mod) => match ForgeMod::<ManifestV1, manifest::Mod, data::Mod>::from_raw(
            raw,
        ) {
            Ok(e) => Ok(ForgeModTypes::Mod(e)),
            Err(e) => Err(e),
        },
        Some(ManifestTypes::ModuleParent) => match ForgeMod::<
            ManifestV1,
            manifest::Parent,
            data::Parent,
        >::from_raw(raw) {
            Ok(e) => Ok(ForgeModTypes::Parent(e)),
            Err(e) => Err(e),
        },
        Some(ManifestTypes::Module) => match ForgeMod::<
            ManifestV1,
            manifest::Module,
            data::Module,
        >::from_raw(raw) {
            Ok(e) => Ok(ForgeModTypes::Module(e)),
            Err(e) => Err(e),
        },
        Some(ManifestTypes::Lib) => match ForgeMod::<ManifestV1, manifest::Lib, data::Lib>::from_raw(
            raw,
        ) {
            Ok(e) => Ok(ForgeModTypes::Lib(e)),
            Err(e) => Err(e),
        },
        None => Err(ForgeError::UnknownKind),
    }
}

/// Unpacks an envelope whose kind is not known in advance: decompresses
/// `data`, reads the version and the kind, and then reads the envelope as one
/// of that kind.
pub fn unpack_v1_forgemod(data: &[u8]) -> (res: Result<ForgeModTypes, ForgeError>)
    ensures
        match res {
            Ok(e) => unpacked_v1(data@) == Ok::<ForgeModTypesView, ForgeError>(e@),
            Err(e) => unpacked_v1(data@) == Err::<ForgeModTypesView, ForgeError>(e),
        },
{
    match xz_decompress(data) {
        None => Err(ForgeError::Compression),
        Some(raw) => unpack_v1_raw(raw.as_slice()),
    }
}

} // verus!
