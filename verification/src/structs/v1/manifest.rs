//! The manifest fields of each kind of package.

use vstd::prelude::*;
use crate::structs::manifest::ManifestComponent;
use crate::structs::v1::ManifestTypes;
use crate::version::{Requirement, RequirementView, Version, VersionView};
use crate::wire::{encode_text, lemma_concat_assoc, text_eq, wire_option, Wire};

verus! {

/// Where a package is shown when it is installed. The set is closed: a text
/// that names none of the others stands for `Other`.
#[derive(Debug, Clone, Copy, PartialEq, Eq, Structural)]
pub enum Category {
    /// What other packages cannot run without.
    Core,
    /// Code shared between packages.
    Library,
    /// Changes to how the game plays.
    Gameplay,
    /// Changes to how the game looks.
    Cosmetic,
    /// Utilities around the game.
    Tool,
    /// Everything else.
    Other,
}

impl Category {
    /// The text that stands for a category in a manifest.
    pub open spec fn name(self) -> Seq<char> {
        match self {
            Category::Core => "core"@,
            Category::Library => "library"@,
            Category::Gameplay => "gameplay"@,
            Category::Cosmetic => "cosmetic"@,
            Category::Tool => "tool"@,
            Category::Other => "other"@,
        }
    }

    /// The category that a text stands for: the one it names, and `Other` where
    /// it names none.
    pub open spec fn of_text(text: Seq<char>) -> Category {
        if text == "core"@ {
            Category::Core
        } else if text == "library"@ {
            Category::Library
        } else if text == "gameplay"@ {
            Category::Gameplay
        } else if text == "cosmetic"@ {
            Category::Cosmetic
        } else if text == "tool"@ {
            Category::Tool
        } else {
            Category::Other
        }
    }

    /// Whether a text names one of the categories.
    pub open spec fn is_name(text: Seq<char>) -> bool {
        exists|c: Category| text == c.name()
    }

    /// The text that stands for `self` in a manifest.
    pub fn as_str(&self) -> (text: &'static str)
        ensures
            text@ == self.name(),
    {
        match self {
            Category::Core => "core",
            Category::Library => "library",
            Category::Gameplay => "gameplay",
            Category::Cosmetic => "cosmetic",
            Category::Tool => "tool",
            Category::Other => "other",
        }
    }

    /// The category that `text` stands for. Never fails: a text that names no
    /// category stands for `Other`.
    pub fn from_text(text: &str) -> (category: Category)
        ensures
            category == Category::of_text(text@),
            !Category::is_name(text@) ==> category == Category::Other,
    {
        proof {
            Category::lemma_lenient(text@);
        }
        if text_eq(text, "core") {
            Category::Core
        } else if text_eq(text, "library") {
            Category::Library
        } else if text_eq(text, "gameplay") {
            Category::Gameplay
        } else if text_eq(text, "cosmetic") {
            Category::Cosmetic
        } else if text_eq(text, "tool") {
            Category::Tool
        } else {
            Category::Other
        }
    }

    /// A text that names no category stands for `Other`.
    pub proof fn lemma_lenient(text: Seq<char>)
        ensures
            !Category::is_name(text) ==> Category::of_text(text) == Category::Other,
    {
        if Category::of_text(text) != Category::Other {
            assert(text == Category::of_text(text).name());
        }
    }

    /// Lenient reading: whatever text stands where a category is expected, it is
    /// read, as the category that it names or as `Other` where it names none.
    pub proof fn lemma_read_any_text(text: Seq<char>, rest: Seq<u8>)
        requires
            String::wf(text),
        ensures
            Category::read(String::wire(text) + rest) == Some((Category::of_text(text), rest)),
            !Category::is_name(text) ==> Category::read(String::wire(text) + rest) == Some(
                (Category::Other, rest),
            ),
    {
        reveal(<Category as Wire>::read);
        String::lemma_read_wire(text, rest);
        Category::lemma_lenient(text);
    }

    /// The text of a category stands for that category.
    pub proof fn lemma_of_name(category: Category)
        ensures
            Category::of_text(category.name()) == category,
    {
        reveal_strlit("core");
        reveal_strlit("library");
        reveal_strlit("gameplay");
        reveal_strlit("cosmetic");
        reveal_strlit("tool");
        reveal_strlit("other");
        assert("core"@.len() == 4 && "core"@[0] == 'c');
        assert("library"@.len() == 7);
        assert("gameplay"@.len() == 8 && "gameplay"@[0] == 'g');
        assert("cosmetic"@.len() == 8 && "cosmetic"@[0] == 'c');
        assert("tool"@.len() == 4 && "tool"@[0] == 't');
        assert("other"@.len() == 5);
    }
}

impl Wire for Category {
    type Model = Category;

    open spec fn model(&self) -> Category {
        *self
    }

    open spec fn wf(v: Category) -> bool {
        String::wf(v.name())
    }

    #[verifier::opaque]
    open spec fn wire(v: Category) -> Seq<u8> {
        String::wire(v.name())
    }

    #[verifier::opaque]
    open spec fn read(b: Seq<u8>) -> Option<(Category, Seq<u8>)> {
        match String::read(b) {
            Some((text, r)) => Some((Category::of_text(text), r)),
            None => None,
        }
    }

    fn encode(&self, out: &mut Vec<u8>) {
        proof {
            reveal(<Category as Wire>::wire);
        }
        encode_text(self.as_str(), out);
    }

    fn decode(b: &[u8], pos: usize) -> (res: Option<(Self, usize)>) {
        proof {
            reveal(<Category as Wire>::read);
        }
        let (text, next): (String, usize) = String::decode(b, pos)?;
        Some((Category::from_text(text.as_str()), next))
    }

    proof fn lemma_read_wire(v: Category, rest: Seq<u8>) {
        reveal(<Category as Wire>::read);
        reveal(<Category as Wire>::wire);
        String::lemma_read_wire(v.name(), rest);
        Category::lemma_of_name(v);
    }
}

/// The bytes of a path that a manifest must state: marked as present, then the
/// path.
#[verifier::opaque]
pub open spec fn wire_required(path: Seq<char>) -> Seq<u8> {
    Option::<String>::wire(Some(path))
}

/// Whether a path that a manifest must state is well formed.
pub open spec fn wf_required(path: Seq<char>) -> bool {
    String::wf(path)
}

/// Reads a path that a manifest must state; `None` also where the bytes mark
/// it as absent.
#[verifier::opaque]
pub open spec fn read_required(b: Seq<u8>) -> Option<(Seq<char>, Seq<u8>)> {
    match Option::<String>::read(b) {
        Some((Some(path), r)) => Some((path, r)),
        _ => None,
    }
}

/// Appends a path that a manifest must state to `out`.
pub fn encode_required(path: &String, out: &mut Vec<u8>)
    ensures
        final(out)@ == old(out)@ + wire_required(path@),
        wf_required(path@),
{
    proof {
        reveal(wire_required);
        reveal(wire_option);
    }
    out.push(1u8);
    path.encode(out);
    assert(out@ =~= old(out)@ + (seq![1u8] + String::wire(path@)));
}

/// Reads a path that a manifest must state from `b`, starting at `pos`.
pub fn decode_required(b: &[u8], pos: usize) -> (res: Option<(String, usize)>)
    ensures
        match res {
            Some((path, next)) => pos <= next <= b@.len() && read_required(b@.skip(pos as int))
                == Some((path@, b@.skip(next as int))),
            None => pos > b@.len() || read_required(b@.skip(pos as int)) is None,
        },
{
    proof {
        reveal(read_required);
    }
    let (path, next): (Option<String>, usize) = Option::<String>::decode(b, pos)?;
    match path {
        Some(path) => Some((path, next)),
        None => None,
    }
}

/// Reading the bytes of a required path gives it back, whatever follows.
pub proof fn lemma_read_wire_required(path: Seq<char>, rest: Seq<u8>)
    requires
        wf_required(path),
    ensures
        read_required(wire_required(path) + rest) == Some((path, rest)),
{
    reveal(read_required);
    reveal(wire_required);
    Option::<String>::lemma_read_wire(Some(path), rest);
}

/// Another package that a package needs, or cannot live with: its identifier
/// and the versions concerned.
#[derive(Debug, Clone, PartialEq)]
pub struct Dependency {
    /// The other package's identifier.
    pub name: String,
    /// The versions of it that are meant.
    pub version: Requirement,
}

/// The value of a [`Dependency`].
pub struct DependencyView {
    pub name: Seq<char>,
    pub version: RequirementView,
}

impl View for Dependency {
    type V = DependencyView;

    open spec fn view(&self) -> DependencyView {
        DependencyView {
            name: self.name@,
            version: self.version.model(),
        }
    }
}

impl Wire for Dependency {
    type Model = DependencyView;

    open spec fn model(&self) -> DependencyView {
        self@
    }

    open spec fn wf(v: DependencyView) -> bool {
        &&& String::wf(v.name)
        &&& Requirement::wf(v.version)
    }

    #[verifier::opaque]
    open spec fn wire(v: DependencyView) -> Seq<u8> {
        String::wire(v.name)
            + Requirement::wire(v.version)
    }

    #[verifier::opaque]
    open spec fn read(b: Seq<u8>) -> Option<(DependencyView, Seq<u8>)> {
        match String::read(b) {
            Some((name, r1)) => match Requirement::read(r1) {
                Some((version, r2)) => Some((DependencyView { name, version }, r2)),
                None => None,
            },
            None => None,
        }
    }

    fn encode(&self, out: &mut Vec<u8>) {
        proof {
            reveal(<Dependency as Wire>::wire);
        }
        self.name.encode(out);
        let ghost done = String::wire(self@.name);
        self.version.encode(out);
        proof {
            lemma_concat_assoc(old(out)@, done, Requirement::wire(self@.version));
        }
    }

    fn decode(b: &[u8], pos: usize) -> (res: Option<(Self, usize)>) {
        proof {
            reveal(<Dependency as Wire>::read);
        }
        let (name, pos): (String, usize) = String::decode(b, pos)?;
        let (version, pos): (Requirement, usize) = Requirement::decode(b, pos)?;
        Some((Dependency { name, version }, pos))
    }

    proof fn lemma_read_wire(v: DependencyView, rest: Seq<u8>) {
        reveal(<Dependency as Wire>::read);
        reveal(<Dependency as Wire>::wire);
        let after_name = Requirement::wire(v.version) + rest;
        let done = String::wire(v.name);
        lemma_concat_assoc(done, Requirement::wire(v.version), rest);
        String::lemma_read_wire(v.name, after_name);
        Requirement::lemma_read_wire(v.version, rest);
    }
}

/// A file that is installed beside the artifact.
#[derive(Debug, Clone, PartialEq)]
pub struct Include {
    /// Where the file goes, in the game's directory.
    pub bs_dest: String,
    /// Where the file is read from when the package is built.
    pub local_src: String,
}

/// The value of an [`Include`].
pub struct IncludeView {
    pub bs_dest: Seq<char>,
    pub local_src: Seq<char>,
}

impl View for Include {
    type V = IncludeView;

    open spec fn view(&self) -> IncludeView {
        IncludeView {
            bs_dest: self.bs_dest@,
            local_src: self.local_src@,
        }
    }
}

impl Wire for Include {
    type Model = IncludeView;

    open spec fn model(&self) -> IncludeView {
        self@
    }

    open spec fn wf(v: IncludeView) -> bool {
        &&& String::wf(v.bs_dest)
        &&& String::wf(v.local_src)
    }

    #[verifier::opaque]
    open spec fn wire(v: IncludeView) -> Seq<u8> {
        String::wire(v.bs_dest)
            + String::wire(v.local_src)
    }

    #[verifier::opaque]
    open spec fn read(b: Seq<u8>) -> Option<(IncludeView, Seq<u8>)> {
        match String::read(b) {
            Some((bs_dest, r1)) => match String::read(r1) {
                Some((local_src, r2)) => Some((IncludeView { bs_dest, local_src }, r2)),
                None => None,
            },
            None => None,
        }
    }

    fn encode(&self, out: &mut Vec<u8>) {
        proof {
            reveal(<Include as Wire>::wire);
        }
        self.bs_dest.encode(out);
        let ghost done = String::wire(self@.bs_dest);
        self.local_src.encode(out);
        proof {
            lemma_concat_assoc(old(out)@, done, String::wire(self@.local_src));
        }
    }

    fn decode(b: &[u8], pos: usize) -> (res: Option<(Self, usize)>) {
        proof {
            reveal(<Include as Wire>::read);
        }
        let (bs_dest, pos): (String, usize) = String::decode(b, pos)?;
        let (local_src, pos): (String, usize) = String::decode(b, pos)?;
        Some((Include { bs_dest, local_src }, pos))
    }

    proof fn lemma_read_wire(v: IncludeView, rest: Seq<u8>) {
        reveal(<Include as Wire>::read);
        reveal(<Include as Wire>::wire);
        let after_bs_dest = String::wire(v.local_src) + rest;
        let done = String::wire(v.bs_dest);
        lemma_concat_assoc(done, String::wire(v.local_src), rest);
        String::lemma_read_wire(v.bs_dest, after_bs_dest);
        String::lemma_read_wire(v.local_src, rest);
    }
}

/// The manifest fields of a mod that stands alone.
#[derive(Debug, Clone, PartialEq)]
pub struct Mod {
    /// The package's name.
    pub name: String,
    /// What the package does.
    pub description: String,
    /// Where to read more.
    pub website: String,
    /// The package's own version.
    pub version: Version,
    /// The versions of the game that it works with.
    pub game_version: Requirement,
    /// Where the package is shown.
    pub category: Category,
    /// Where the artifact is read from when the package is built.
    pub artifact: String,
    /// The files that are installed beside the artifact, in order.
    pub includes: Vec<Include>,
    /// A script to run before installing, if any.
    pub pre_exec: Option<String>,
    /// A script to run after installing, if any.
    pub post_exec: Option<String>,
    /// The packages that this one needs, in the order declared.
    pub depends: Vec<Dependency>,
    /// The packages that this one cannot live with, in the order declared.
    pub conflicts: Vec<Dependency>,
}

/// The value of a [`Mod`].
pub struct ModView {
    pub name: Seq<char>,
    pub description: Seq<char>,
    pub website: Seq<char>,
    pub version: VersionView,
    pub game_version: RequirementView,
    pub category: Category,
    pub artifact: Seq<char>,
    pub includes: Seq<IncludeView>,
    pub pre_exec: Option<Seq<char>>,
    pub post_exec: Option<Seq<char>>,
    pub depends: Seq<DependencyView>,
    pub conflicts: Seq<DependencyView>,
}

impl View for Mod {
    type V = ModView;

    open spec fn view(&self) -> ModView {
        ModView {
            name: self.name@,
            description: self.description@,
            website: self.website@,
            version: self.version.model(),
            game_version: self.game_version.model(),
            category: self.category,
            artifact: self.artifact@,
            includes: self.includes.model(),
            pre_exec: self.pre_exec.model(),
            post_exec: self.post_exec.model(),
            depends: self.depends.model(),
            conflicts: self.conflicts.model(),
        }
    }
}

impl Wire for Mod {
    type Model = ModView;

    open spec fn model(&self) -> ModView {
        self@
    }

    open spec fn wf(v: ModView) -> bool {
        &&& String::wf(v.name)
        &&& String::wf(v.description)
        &&& String::wf(v.website)
        &&& Version::wf(v.version)
        &&& Requirement::wf(v.game_version)
        &&& Category::wf(v.category)
        &&& wf_required(v.artifact)
        &&& Vec::<Include>::wf(v.includes)
        &&& Option::<String>::wf(v.pre_exec)
        &&& Option::<String>::wf(v.post_exec)
        &&& Vec::<Dependency>::wf(v.depends)
        &&& Vec::<Dependency>::wf(v.conflicts)
    }

    #[verifier::opaque]
    open spec fn wire(v: ModView) -> Seq<u8> {
        String::wire(v.name)
            + String::wire(v.description)
            + String::wire(v.website)
            + Version::wire(v.version)
            + Requirement::wire(v.game_version)
            + Category::wire(v.category)
            + wire_required(v.artifact)
            + Vec::<Include>::wire(v.includes)
            + Option::<String>::wire(v.pre_exec)
            + Option::<String>::wire(v.post_exec)
            + Vec::<Dependency>::wire(v.depends)
            + Vec::<Dependency>::wire(v.conflicts)
    }

    #[verifier::opaque]
    open spec fn read(b: Seq<u8>) -> Option<(ModView, Seq<u8>)> {
        match String::read(b) {
            Some((name, r1)) => match String::read(r1) {
                Some((description, r2)) => match String::read(r2) {
                    Some((website, r3)) => match Version::read(r3) {
                        Some((version, r4)) => match Requirement::read(r4) {
                            Some((game_version, r5)) => match Category::read(r5) {
                                Some((category, r6)) => match read_required(r6) {
                                    Some((artifact, r7)) => match Vec::<Include>::read(r7) {
                                        Some((includes, r8)) => match Option::<String>::read(r8) {
                                            Some((pre_exec, r9)) => match Option::<String>::read(r9) {
                                                Some((post_exec, r10)) => match Vec::<Dependency>::read(r10) {
                                                    Some((depends, r11)) => match Vec::<Dependency>::read(r11) {
                                                        Some((conflicts, r12)) => Some(
                                                            (
                                                                ModView {
                                                                    name,
                                                                    description,
                                                                    website,
                                                                    version,
                                                                    game_version,
                                                                    category,
                                                                    artifact,
                                                                    includes,
                                                                    pre_exec,
                                                                    post_exec,
                                                                    depends,
                                                                    conflicts,
                                                                },
                                                                r12,
                                                            ),
                                                        ),
                                                        None => None,
                                                    },
                                                    None => None,
                                                },
                                                None => None,
                                            },
                                            None => None,
                                        },
                                        None => None,
                                    },
                                    None => None,
                                },
                                None => None,
                            },
                            None => None,
                        },
                        None => None,
                    },
                    None => None,
                },
                None => None,
            },
            None => None,
        }
    }

    fn encode(&self, out: &mut Vec<u8>) {
        proof {
            reveal(<Mod as Wire>::wire);
        }
        self.name.encode(out);
        let ghost done = String::wire(self@.name);
        self.description.encode(out);
        proof {
            lemma_concat_assoc(old(out)@, done, String::wire(self@.description));
        }
        let ghost done = done + String::wire(self@.description);
        self.website.encode(out);
        proof {
            lemma_concat_assoc(old(out)@, done, String::wire(self@.website));
        }
        let ghost done = done + String::wire(self@.website);
        self.version.encode(out);
        proof {
            lemma_concat_assoc(old(out)@, done, Version::wire(self@.version));
        }
        let ghost done = done + Version::wire(self@.version);
        self.game_version.encode(out);
        proof {
            lemma_concat_assoc(old(out)@, done, Requirement::wire(self@.game_version));
        }
        let ghost done = done + Requirement::wire(self@.game_version);
        self.category.encode(out);
        proof {
            lemma_concat_assoc(old(out)@, done, Category::wire(self@.category));
        }
        let ghost done = done + Category::wire(self@.category);
        encode_required(&self.artifact, out);
        proof {
            lemma_concat_assoc(old(out)@, done, wire_required(self@.artifact));
        }
        let ghost done = done + wire_required(self@.artifact);
        self.includes.encode(out);
        proof {
            lemma_concat_assoc(old(out)@, done, Vec::<Include>::wire(self@.includes));
        }
        let ghost done = done + Vec::<Include>::wire(self@.includes);
        self.pre_exec.encode(out);
        proof {
            lemma_concat_assoc(old(out)@, done, Option::<String>::wire(self@.pre_exec));
        }
        let ghost done = done + Option::<String>::wire(self@.pre_exec);
        self.post_exec.encode(out);
        proof {
            lemma_concat_assoc(old(out)@, done, Option::<String>::wire(self@.post_exec));
        }
        let ghost done = done + Option::<String>::wire(self@.post_exec);
        self.depends.encode(out);
        proof {
            lemma_concat_assoc(old(out)@, done, Vec::<Dependency>::wire(self@.depends));
        }
        let ghost done = done + Vec::<Dependency>::wire(self@.depends);
        self.conflicts.encode(out);
        proof {
            lemma_concat_assoc(old(out)@, done, Vec::<Dependency>::wire(self@.conflicts));
        }
    }

    fn decode(b: &[u8], pos: usize) -> (res: Option<(Self, usize)>) {
        proof {
            reveal(<Mod as Wire>::read);
        }
        let (name, pos): (String, usize) = String::decode(b, pos)?;
        let (description, pos): (String, usize) = String::decode(b, pos)?;
        let (website, pos): (String, usize) = String::decode(b, pos)?;
        let (version, pos): (Version, usize) = Version::decode(b, pos)?;
        let (game_version, pos): (Requirement, usize) = Requirement::decode(b, pos)?;
        let (category, pos): (Category, usize) = Category::decode(b, pos)?;
        let (artifact, pos): (String, usize) = decode_required(b, pos)?;
        let (includes, pos): (Vec<Include>, usize) = Vec::<Include>::decode(b, pos)?;
        let (pre_exec, pos): (Option<String>, usize) = Option::<String>::decode(b, pos)?;
        let (post_exec, pos): (Option<String>, usize) = Option::<String>::decode(b, pos)?;
        let (depends, pos): (Vec<Dependency>, usize) = Vec::<Dependency>::decode(b, pos)?;
        let (conflicts, pos): (Vec<Dependency>, usize) = Vec::<Dependency>::decode(b, pos)?;
        Some(
            (
                Mod {
                    name,
                    description,
                    website,
                    version,
                    game_version,
                    category,
                    artifact,
                    includes,
                    pre_exec,
                    post_exec,
                    depends,
                    conflicts,
                },
                pos,
            ),
        )
    }

    proof fn lemma_read_wire(v: ModView, rest: Seq<u8>) {
        reveal(<Mod as Wire>::read);
        reveal(<Mod as Wire>::wire);
        let after_depends = Vec::<Dependency>::wire(v.conflicts) + rest;
        let after_post_exec = Vec::<Dependency>::wire(v.depends) + after_depends;
        let after_pre_exec = Option::<String>::wire(v.post_exec) + after_post_exec;
        let after_includes = Option::<String>::wire(v.pre_exec) + after_pre_exec;
        let after_artifact = Vec::<Include>::wire(v.includes) + after_includes;
        let after_category = wire_required(v.artifact) + after_artifact;
        let after_game_version = Category::wire(v.category) + after_category;
        let after_version = Requirement::wire(v.game_version) + after_game_version;
        let after_website = Version::wire(v.version) + after_version;
        let after_description = String::wire(v.website) + after_website;
        let after_name = String::wire(v.description) + after_description;
        let done = String::wire(v.name);
        lemma_concat_assoc(done, String::wire(v.description), after_description);
        let done = done + String::wire(v.description);
        lemma_concat_assoc(done, String::wire(v.website), after_website);
        let done = done + String::wire(v.website);
        lemma_concat_assoc(done, Version::wire(v.version), after_version);
        let done = done + Version::wire(v.version);
        lemma_concat_assoc(done, Requirement::wire(v.game_version), after_game_version);
        let done = done + Requirement::wire(v.game_version);
        lemma_concat_assoc(done, Category::wire(v.category), after_category);
        let done = done + Category::wire(v.category);
        lemma_concat_assoc(done, wire_required(v.artifact), after_artifact);
        let done = done + wire_required(v.artifact);
        lemma_concat_assoc(done, Vec::<Include>::wire(v.includes), after_includes);
        let done = done + Vec::<Include>::wire(v.includes);
        lemma_concat_assoc(done, Option::<String>::wire(v.pre_exec), after_pre_exec);
        let done = done + Option::<String>::wire(v.pre_exec);
        lemma_concat_assoc(done, Option::<String>::wire(v.post_exec), after_post_exec);
        let done = done + Option::<String>::wire(v.post_exec);
        lemma_concat_assoc(done, Vec::<Dependency>::wire(v.depends), after_depends);
        let done = done + Vec::<Dependency>::wire(v.depends);
        lemma_concat_assoc(done, Vec::<Dependency>::wire(v.conflicts), rest);
        String::lemma_read_wire(v.name, after_name);
        String::lemma_read_wire(v.description, after_description);
        String::lemma_read_wire(v.website, after_website);
        Version::lemma_read_wire(v.version, after_version);
        Requirement::lemma_read_wire(v.game_version, after_game_version);
        Category::lemma_read_wire(v.category, after_category);
        lemma_read_wire_required(v.artifact, after_artifact);
        Vec::<Include>::lemma_read_wire(v.includes, after_includes);
        Option::<String>::lemma_read_wire(v.pre_exec, after_pre_exec);
        Option::<String>::lemma_read_wire(v.post_exec, after_post_exec);
        Vec::<Dependency>::lemma_read_wire(v.depends, after_depends);
        Vec::<Dependency>::lemma_read_wire(v.conflicts, rest);
    }
}

impl ManifestComponent for Mod {
    open spec fn kind() -> ManifestTypes {
        ManifestTypes::Mod
    }

    fn manifest_kind() -> (kind: ManifestTypes) {
        ManifestTypes::Mod
    }
}

impl Mod {
    /// The value of the manifest of a mod in which nothing has been stated yet.
    pub open spec fn empty() -> ModView {
        ModView {
            name: Seq::empty(),
            description: Seq::empty(),
            website: Seq::empty(),
            version: VersionView {
                major: 0,
                minor: 0,
                patch: 0,
                pre: Seq::empty(),
                build: Seq::empty(),
            },
            game_version: RequirementView { comparators: Seq::empty() },
            category: Category::Other,
            artifact: Seq::empty(),
            includes: Seq::empty(),
            pre_exec: None,
            post_exec: None,
            depends: Seq::empty(),
            conflicts: Seq::empty(),
        }
    }

    /// The bytes of the manifest of a mod in which `text` stands where the
    /// category is expected, whether or not `text` names a category.
    pub open spec fn wire_with_category(v: ModView, text: Seq<char>) -> Seq<u8> {
        String::wire(v.name)
            + String::wire(v.description)
            + String::wire(v.website)
            + Version::wire(v.version)
            + Requirement::wire(v.game_version)
            + String::wire(text)
            + wire_required(v.artifact)
            + Vec::<Include>::wire(v.includes)
            + Option::<String>::wire(v.pre_exec)
            + Option::<String>::wire(v.post_exec)
            + Vec::<Dependency>::wire(v.depends)
            + Vec::<Dependency>::wire(v.conflicts)
    }

    /// Lenient reading: the manifest of a mod is read back whatever text stands
    /// where its category is expected. The category that is read is the one that
    /// the text names, and `Category::Other` where it names none.
    pub proof fn lemma_read_any_category(v: ModView, text: Seq<char>, rest: Seq<u8>)
        requires
            Mod::wf(v),
            String::wf(text),
        ensures
            Mod::read(Mod::wire_with_category(v, text) + rest) == Some(
                (ModView { category: Category::of_text(text), ..v }, rest),
            ),
            !Category::is_name(text) ==> Mod::read(Mod::wire_with_category(v, text) + rest)
                == Some((ModView { category: Category::Other, ..v }, rest)),
    {
        reveal(<Mod as Wire>::read);
        let after_depends = Vec::<Dependency>::wire(v.conflicts) + rest;
        let after_post_exec = Vec::<Dependency>::wire(v.depends) + after_depends;
        let after_pre_exec = Option::<String>::wire(v.post_exec) + after_post_exec;
        let after_includes = Option::<String>::wire(v.pre_exec) + after_pre_exec;
        let after_artifact = Vec::<Include>::wire(v.includes) + after_includes;
        let after_category = wire_required(v.artifact) + after_artifact;
        let after_game_version = String::wire(text) + after_category;
        let after_version = Requirement::wire(v.game_version) + after_game_version;
        let after_website = Version::wire(v.version) + after_version;
        let after_description = String::wire(v.website) + after_website;
        let after_name = String::wire(v.description) + after_description;
        let done = String::wire(v.name);
        lemma_concat_assoc(done, String::wire(v.description), after_description);
        let done = done + String::wire(v.description);
        lemma_concat_assoc(done, String::wire(v.website), after_website);
        let done = done + String::wire(v.website);
        lemma_concat_assoc(done, Version::wire(v.version), after_version);
        let done = done + Version::wire(v.version);
        lemma_concat_assoc(done, Requirement::wire(v.game_version), after_game_version);
        let done = done + Requirement::wire(v.game_version);
        lemma_concat_assoc(done, String::wire(text), after_category);
        let done = done + String::wire(text);
        lemma_concat_assoc(done, wire_required(v.artifact), after_artifact);
        let done = done + wire_required(v.artifact);
        lemma_concat_assoc(done, Vec::<Include>::wire(v.includes), after_includes);
        let done = done + Vec::<Include>::wire(v.includes);
        lemma_concat_assoc(done, Option::<String>::wire(v.pre_exec), after_pre_exec);
        let done = done + Option::<String>::wire(v.pre_exec);
        lemma_concat_assoc(done, Option::<String>::wire(v.post_exec), after_post_exec);
        let done = done + Option::<String>::wire(v.post_exec);
        lemma_concat_assoc(done, Vec::<Dependency>::wire(v.depends), after_depends);
        let done = done + Vec::<Dependency>::wire(v.depends);
        lemma_concat_assoc(done, Vec::<Dependency>::wire(v.conflicts), rest);
        String::lemma_read_wire(v.name, after_name);
        String::lemma_read_wire(v.description, after_description);
        String::lemma_read_wire(v.website, after_website);
        Version::lemma_read_wire(v.version, after_version);
        Requirement::lemma_read_wire(v.game_version, after_game_version);
        Category::lemma_read_any_text(text, after_category);
        lemma_read_wire_required(v.artifact, after_artifact);
        Vec::<Include>::lemma_read_wire(v.includes, after_includes);
        Option::<String>::lemma_read_wire(v.pre_exec, after_pre_exec);
        Option::<String>::lemma_read_wire(v.post_exec, after_post_exec);
        Vec::<Dependency>::lemma_read_wire(v.depends, after_depends);
        Vec::<Dependency>::lemma_read_wire(v.conflicts, rest);
        Category::lemma_lenient(text);
    }
}

impl Default for Mod {
    fn default() -> (blank: Self)
        ensures
            blank@ == Mod::empty(),
    {
        let blank = Mod {
            name: String::new(),
            description: String::new(),
            website: String::new(),
            version: Version::new(0, 0, 0),
            game_version: Requirement::any(),
            category: Category::Other,
            artifact: String::new(),
            includes: Vec::new(),
            pre_exec: None,
            post_exec: None,
            depends: Vec::new(),
            conflicts: Vec::new(),
        };
        proof {
            assert(blank@.includes =~= Seq::empty());
            assert(blank@.depends =~= Seq::empty());
            assert(blank@.conflicts =~= Seq::empty());
        }
        blank
    }
}

impl ModView {
    /// This value with `includes` as its files, in the place of the ones it had.
    pub open spec fn with_includes(self, includes: Seq<IncludeView>) -> ModView {
        ModView { includes, ..self }
    }

    /// This value with `depends` as its dependencies, in the place of the ones it had.
    pub open spec fn with_depends(self, depends: Seq<DependencyView>) -> ModView {
        ModView { depends, ..self }
    }

    /// This value with `conflicts` as its conflicts, in the place of the ones it had.
    pub open spec fn with_conflicts(self, conflicts: Seq<DependencyView>) -> ModView {
        ModView { conflicts, ..self }
    }

    /// Replace, not append: after two lists of files were set in turn, a manifest
    /// holds the second and nothing of the first, as if the first was never set.
    pub proof fn lemma_includes_replace(self, first: Seq<IncludeView>, second: Seq<IncludeView>)
        ensures
            self.with_includes(first).with_includes(second) == self.with_includes(second),
            self.with_includes(first).with_includes(second).includes == second,
    {
    }

    /// Replace, not append: after two lists of dependencies were set in turn, a manifest
    /// holds the second and nothing of the first, as if the first was never set.
    pub proof fn lemma_depends_replace(
        self,
        first: Seq<DependencyView>,
        second: Seq<DependencyView>,
    )
        ensures
            self.with_depends(first).with_depends(second) == self.with_depends(second),
            self.with_depends(first).with_depends(second).depends == second,
    {
    }

    /// Replace, not append: after two lists of conflicts were set in turn, a manifest
    /// holds the second and nothing of the first, as if the first was never set.
    pub proof fn lemma_conflicts_replace(
        self,
        first: Seq<DependencyView>,
        second: Seq<DependencyView>,
    )
        ensures
            self.with_conflicts(first).with_conflicts(second) == self.with_conflicts(second),
            self.with_conflicts(first).with_conflicts(second).conflicts == second,
    {
    }
}

/// The manifest fields of a package that only groups modules.
#[derive(Debug, Clone, PartialEq)]
pub struct Parent {
    /// The package's name.
    pub name: String,
    /// What the package does.
    pub description: String,
    /// Where to read more.
    pub website: String,
    /// The package's own version.
    pub version: Version,
    /// The versions of the game that it works with.
    pub game_version: Requirement,
    /// Where the package is shown.
    pub category: Category,
    /// A script to run before installing, if any.
    pub pre_exec: Option<String>,
    /// A script to run after installing, if any.
    pub post_exec: Option<String>,
    /// The packages that this one needs, in the order declared.
    pub depends: Vec<Dependency>,
    /// The packages that this one cannot live with, in the order declared.
    pub conflicts: Vec<Dependency>,
    /// Where the manifests of the modules are read from, in order.
    pub modules: Vec<String>,
}

/// The value of a [`Parent`].
pub struct ParentView {
    pub name: Seq<char>,
    pub description: Seq<char>,
    pub website: Seq<char>,
    pub version: VersionView,
    pub game_version: RequirementView,
    pub category: Category,
    pub pre_exec: Option<Seq<char>>,
    pub post_exec: Option<Seq<char>>,
    pub depends: Seq<DependencyView>,
    pub conflicts: Seq<DependencyView>,
    pub modules: Seq<Seq<char>>,
}

impl View for Parent {
    type V = ParentView;

    open spec fn view(&self) -> ParentView {
        ParentView {
            name: self.name@,
            description: self.description@,
            website: self.website@,
            version: self.version.model(),
            game_version: self.game_version.model(),
            category: self.category,
            pre_exec: self.pre_exec.model(),
            post_exec: self.post_exec.model(),
            depends: self.depends.model(),
            conflicts: self.conflicts.model(),
            modules: self.modules.model(),
        }
    }
}

impl Wire for Parent {
    type Model = ParentView;

    open spec fn model(&self) -> ParentView {
        self@
    }

    open spec fn wf(v: ParentView) -> bool {
        &&& String::wf(v.name)
        &&& String::wf(v.description)
        &&& String::wf(v.website)
        &&& Version::wf(v.version)
        &&& Requirement::wf(v.game_version)
        &&& Category::wf(v.category)
        &&& Option::<String>::wf(v.pre_exec)
        &&& Option::<String>::wf(v.post_exec)
        &&& Vec::<Dependency>::wf(v.depends)
        &&& Vec::<Dependency>::wf(v.conflicts)
        &&& Vec::<String>::wf(v.modules)
    }

    #[verifier::opaque]
    open spec fn wire(v: ParentView) -> Seq<u8> {
        String::wire(v.name)
            + String::wire(v.description)
            + String::wire(v.website)
            + Version::wire(v.version)
            + Requirement::wire(v.game_version)
            + Category::wire(v.category)
            + Option::<String>::wire(v.pre_exec)
            + Option::<String>::wire(v.post_exec)
            + Vec::<Dependency>::wire(v.depends)
            + Vec::<Dependency>::wire(v.conflicts)
            + Vec::<String>::wire(v.modules)
    }

    #[verifier::opaque]
    open spec fn read(b: Seq<u8>) -> Option<(ParentView, Seq<u8>)> {
        match String::read(b) {
            Some((name, r1)) => match String::read(r1) {
                Some((description, r2)) => match String::read(r2) {
                    Some((website, r3)) => match Version::read(r3) {
                        Some((version, r4)) => match Requirement::read(r4) {
                            Some((game_version, r5)) => match Category::read(r5) {
                                Some((category, r6)) => match Option::<String>::read(r6) {
                                    Some((pre_exec, r7)) => match Option::<String>::read(r7) {
                                        Some((post_exec, r8)) => match Vec::<Dependency>::read(r8) {
                                            Some((depends, r9)) => match Vec::<Dependency>::read(r9) {
                                                Some((conflicts, r10)) => match Vec::<String>::read(r10) {
                                                    Some((modules, r11)) => Some(
                                                        (
                                                            ParentView {
                                                                name,
                                                                description,
                                                                website,
                                                                version,
                                                                game_version,
                                                                category,
                                                                pre_exec,
                                                                post_exec,
                                                                depends,
                                                                conflicts,
                                                                modules,
                                                            },
                                                            r11,
                                                        ),
                                                    ),
                                                    None => None,
                                                },
                                                None => None,
                                            },
                                            None => None,
                                        },
                                        None => None,
                                    },
                                    None => None,
                                },
                                None => None,
                            },
                            None => None,
                        },
                        None => None,
                    },
                    None => None,
                },
                None => None,
            },
            None => None,
        }
    }

    fn encode(&self, out: &mut Vec<u8>) {
        proof {
            reveal(<Parent as Wire>::wire);
        }
        self.name.encode(out);
        let ghost done = String::wire(self@.name);
        self.description.encode(out);
        proof {
            lemma_concat_assoc(old(out)@, done, String::wire(self@.description));
        }
        let ghost done = done + String::wire(self@.description);
        self.website.encode(out);
        proof {
            lemma_concat_assoc(old(out)@, done, String::wire(self@.website));
        }
        let ghost done = done + String::wire(self@.website);
        self.version.encode(out);
        proof {
            lemma_concat_assoc(old(out)@, done, Version::wire(self@.version));
        }
        let ghost done = done + Version::wire(self@.version);
        self.game_version.encode(out);
        proof {
            lemma_concat_assoc(old(out)@, done, Requirement::wire(self@.game_version));
        }
        let ghost done = done + Requirement::wire(self@.game_version);
        self.category.encode(out);
        proof {
            lemma_concat_assoc(old(out)@, done, Category::wire(self@.category));
        }
        let ghost done = done + Category::wire(self@.category);
        self.pre_exec.encode(out);
        proof {
            lemma_concat_assoc(old(out)@, done, Option::<String>::wire(self@.pre_exec));
        }
        let ghost done = done + Option::<String>::wire(self@.pre_exec);
        self.post_exec.encode(out);
        proof {
            lemma_concat_assoc(old(out)@, done, Option::<String>::wire(self@.post_exec));
        }
        let ghost done = done + Option::<String>::wire(self@.post_exec);
        self.depends.encode(out);
        proof {
            lemma_concat_assoc(old(out)@, done, Vec::<Dependency>::wire(self@.depends));
        }
        let ghost done = done + Vec::<Dependency>::wire(self@.depends);
        self.conflicts.encode(out);
        proof {
            lemma_concat_assoc(old(out)@, done, Vec::<Dependency>::wire(self@.conflicts));
        }
        let ghost done = done + Vec::<Dependency>::wire(self@.conflicts);
        self.modules.encode(out);
        proof {
            lemma_concat_assoc(old(out)@, done, Vec::<String>::wire(self@.modules));
        }
    }

    fn decode(b: &[u8], pos: usize) -> (res: Option<(Self, usize)>) {
        proof {
            reveal(<Parent as Wire>::read);
        }
        let (name, pos): (String, usize) = String::decode(b, pos)?;
        let (description, pos): (String, usize) = String::decode(b, pos)?;
        let (website, pos): (String, usize) = String::decode(b, pos)?;
        let (version, pos): (Version, usize) = Version::decode(b, pos)?;
        let (game_version, pos): (Requirement, usize) = Requirement::decode(b, pos)?;
        let (category, pos): (Category, usize) = Category::decode(b, pos)?;
        let (pre_exec, pos): (Option<String>, usize) = Option::<String>::decode(b, pos)?;
        let (post_exec, pos): (Option<String>, usize) = Option::<String>::decode(b, pos)?;
        let (depends, pos): (Vec<Dependency>, usize) = Vec::<Dependency>::decode(b, pos)?;
        let (conflicts, pos): (Vec<Dependency>, usize) = Vec::<Dependency>::decode(b, pos)?;
        let (modules, pos): (Vec<String>, usize) = Vec::<String>::decode(b, pos)?;
        Some(
            (
                Parent {
                    name,
                    description,
                    website,
                    version,
                    game_version,
                    category,
                    pre_exec,
                    post_exec,
                    depends,
                    conflicts,
                    modules,
                },
                pos,
            ),
        )
    }

    proof fn lemma_read_wire(v: ParentView, rest: Seq<u8>) {
        reveal(<Parent as Wire>::read);
        reveal(<Parent as Wire>::wire);
        let after_conflicts = Vec::<String>::wire(v.modules) + rest;
        let after_depends = Vec::<Dependency>::wire(v.conflicts) + after_conflicts;
        let after_post_exec = Vec::<Dependency>::wire(v.depends) + after_depends;
        let after_pre_exec = Option::<String>::wire(v.post_exec) + after_post_exec;
        let after_category = Option::<String>::wire(v.pre_exec) + after_pre_exec;
        let after_game_version = Category::wire(v.category) + after_category;
        let after_version = Requirement::wire(v.game_version) + after_game_version;
        let after_website = Version::wire(v.version) + after_version;
        let after_description = String::wire(v.website) + after_website;
        let after_name = String::wire(v.description) + after_description;
        let done = String::wire(v.name);
        lemma_concat_assoc(done, String::wire(v.description), after_description);
        let done = done + String::wire(v.description);
        lemma_concat_assoc(done, String::wire(v.website), after_website);
        let done = done + String::wire(v.website);
        lemma_concat_assoc(done, Version::wire(v.version), after_version);
        let done = done + Version::wire(v.version);
        lemma_concat_assoc(done, Requirement::wire(v.game_version), after_game_version);
        let done = done + Requirement::wire(v.game_version);
        lemma_concat_assoc(done, Category::wire(v.category), after_category);
        let done = done + Category::wire(v.category);
        lemma_concat_assoc(done, Option::<String>::wire(v.pre_exec), after_pre_exec);
        let done = done + Option::<String>::wire(v.pre_exec);
        lemma_concat_assoc(done, Option::<String>::wire(v.post_exec), after_post_exec);
        let done = done + Option::<String>::wire(v.post_exec);
        lemma_concat_assoc(done, Vec::<Dependency>::wire(v.depends), after_depends);
        let done = done + Vec::<Dependency>::wire(v.depends);
        lemma_concat_assoc(done, Vec::<Dependency>::wire(v.conflicts), after_conflicts);
        let done = done + Vec::<Dependency>::wire(v.conflicts);
        lemma_concat_assoc(done, Vec::<String>::wire(v.modules), rest);
        String::lemma_read_wire(v.name, after_name);
        String::lemma_read_wire(v.description, after_description);
        String::lemma_read_wire(v.website, after_website);
        Version::lemma_read_wire(v.version, after_version);
        Requirement::lemma_read_wire(v.game_version, after_game_version);
        Category::lemma_read_wire(v.category, after_category);
        Option::<String>::lemma_read_wire(v.pre_exec, after_pre_exec);
        Option::<String>::lemma_read_wire(v.post_exec, after_post_exec);
        Vec::<Dependency>::lemma_read_wire(v.depends, after_depends);
        Vec::<Dependency>::lemma_read_wire(v.conflicts, after_conflicts);
        Vec::<String>::lemma_read_wire(v.modules, rest);
    }
}

impl ManifestComponent for Parent {
    open spec fn kind() -> ManifestTypes {
        ManifestTypes::ModuleParent
    }

    fn manifest_kind() -> (kind: ManifestTypes) {
        ManifestTypes::ModuleParent
    }
}

impl Parent {
    /// The value of the manifest of a parent of modules in which nothing has been stated yet.
    pub open spec fn empty() -> ParentView {
        ParentView {
            name: Seq::empty(),
            description: Seq::empty(),
            website: Seq::empty(),
            version: VersionView {
                major: 0,
                minor: 0,
                patch: 0,
                pre: Seq::empty(),
                build: Seq::empty(),
            },
            game_version: RequirementView { comparators: Seq::empty() },
            category: Category::Other,
            pre_exec: None,
            post_exec: None,
            depends: Seq::empty(),
            conflicts: Seq::empty(),
            modules: Seq::empty(),
        }
    }

    /// The bytes of the manifest of a parent of modules in which `text` stands where the
    /// category is expected, whether or not `text` names a category.
    pub open spec fn wire_with_category(v: ParentView, text: Seq<char>) -> Seq<u8> {
        String::wire(v.name)
            + String::wire(v.description)
            + String::wire(v.website)
            + Version::wire(v.version)
            + Requirement::wire(v.game_version)
            + String::wire(text)
            + Option::<String>::wire(v.pre_exec)
            + Option::<String>::wire(v.post_exec)
            + Vec::<Dependency>::wire(v.depends)
            + Vec::<Dependency>::wire(v.conflicts)
            + Vec::<String>::wire(v.modules)
    }

    /// Lenient reading: the manifest of a parent of modules is read back whatever text stands
    /// where its category is expected. The category that is read is the one that
    /// the text names, and `Category::Other` where it names none.
    pub proof fn lemma_read_any_category(v: ParentView, text: Seq<char>, rest: Seq<u8>)
        requires
            Parent::wf(v),
            String::wf(text),
        ensures
            Parent::read(Parent::wire_with_category(v, text) + rest) == Some(
                (ParentView { category: Category::of_text(text), ..v }, rest),
            ),
            !Category::is_name(text) ==> Parent::read(Parent::wire_with_category(v, text) + rest)
                == Some((ParentView { category: Category::Other, ..v }, rest)),
    {
        reveal(<Parent as Wire>::read);
        let after_conflicts = Vec::<String>::wire(v.modules) + rest;
        let after_depends = Vec::<Dependency>::wire(v.conflicts) + after_conflicts;
        let after_post_exec = Vec::<Dependency>::wire(v.depends) + after_depends;
        let after_pre_exec = Option::<String>::wire(v.post_exec) + after_post_exec;
        let after_category = Option::<String>::wire(v.pre_exec) + after_pre_exec;
        let after_game_version = String::wire(text) + after_category;
        let after_version = Requirement::wire(v.game_version) + after_game_version;
        let after_website = Version::wire(v.version) + after_version;
        let after_description = String::wire(v.website) + after_website;
        let after_name = String::wire(v.description) + after_description;
        let done = String::wire(v.name);
        lemma_concat_assoc(done, String::wire(v.description), after_description);
        let done = done + String::wire(v.description);
        lemma_concat_assoc(done, String::wire(v.website), after_website);
        let done = done + String::wire(v.website);
        lemma_concat_assoc(done, Version::wire(v.version), after_version);
        let done = done + Version::wire(v.version);
        lemma_concat_assoc(done, Requirement::wire(v.game_version), after_game_version);
        let done = done + Requirement::wire(v.game_version);
        lemma_concat_assoc(done, String::wire(text), after_category);
        let done = done + String::wire(text);
        lemma_concat_assoc(done, Option::<String>::wire(v.pre_exec), after_pre_exec);
        let done = done + Option::<String>::wire(v.pre_exec);
        lemma_concat_assoc(done, Option::<String>::wire(v.post_exec), after_post_exec);
        let done = done + Option::<String>::wire(v.post_exec);
        lemma_concat_assoc(done, Vec::<Dependency>::wire(v.depends), after_depends);
        let done = done + Vec::<Dependency>::wire(v.depends);
        lemma_concat_assoc(done, Vec::<Dependency>::wire(v.conflicts), after_conflicts);
        let done = done + Vec::<Dependency>::wire(v.conflicts);
        lemma_concat_assoc(done, Vec::<String>::wire(v.modules), rest);
        String::lemma_read_wire(v.name, after_name);
        String::lemma_read_wire(v.description, after_description);
        String::lemma_read_wire(v.website, after_website);
        Version::lemma_read_wire(v.version, after_version);
        Requirement::lemma_read_wire(v.game_version, after_game_version);
        Category::lemma_read_any_text(text, after_category);
        Option::<String>::lemma_read_wire(v.pre_exec, after_pre_exec);
        Option::<String>::lemma_read_wire(v.post_exec, after_post_exec);
        Vec::<Dependency>::lemma_read_wire(v.depends, after_depends);
        Vec::<Dependency>::lemma_read_wire(v.conflicts, after_conflicts);
        Vec::<String>::lemma_read_wire(v.modules, rest);
        Category::lemma_lenient(text);
    }
}

impl Default for Parent {
    fn default() -> (blank: Self)
        ensures
            blank@ == Parent::empty(),
    {
        let blank = Parent {
            name: String::new(),
            description: String::new(),
            website: String::new(),
            version: Version::new(0, 0, 0),
            game_version: Requirement::any(),
            category: Category::Other,
            pre_exec: None,
            post_exec: None,
            depends: Vec::new(),
            conflicts: Vec::new(),
            modules: Vec::new(),
        };
        proof {
            assert(blank@.depends =~= Seq::empty());
            assert(blank@.conflicts =~= Seq::empty());
            assert(blank@.modules =~= Seq::empty());
        }
        blank
    }
}

impl ParentView {
    /// This value with `modules` as its modules, in the place of the ones it had.
    pub open spec fn with_modules(self, modules: Seq<Seq<char>>) -> ParentView {
        ParentView { modules, ..self }
    }

    /// This value with `depends` as its dependencies, in the place of the ones it had.
    pub open spec fn with_depends(self, depends: Seq<DependencyView>) -> ParentView {
        ParentView { depends, ..self }
    }

    /// This value with `conflicts` as its conflicts, in the place of the ones it had.
    pub open spec fn with_conflicts(self, conflicts: Seq<DependencyView>) -> ParentView {
        ParentView { conflicts, ..self }
    }

    /// Replace, not append: after two lists of modules were set in turn, a manifest
    /// holds the second and nothing of the first, as if the first was never set.
    pub proof fn lemma_modules_replace(self, first: Seq<Seq<char>>, second: Seq<Seq<char>>)
        ensures
            self.with_modules(first).with_modules(second) == self.with_modules(second),
            self.with_modules(first).with_modules(second).modules == second,
    {
    }

    /// Replace, not append: after two lists of dependencies were set in turn, a manifest
    /// holds the second and nothing of the first, as if the first was never set.
    pub proof fn lemma_depends_replace(
        self,
        first: Seq<DependencyView>,
        second: Seq<DependencyView>,
    )
        ensures
            self.with_depends(first).with_depends(second) == self.with_depends(second),
            self.with_depends(first).with_depends(second).depends == second,
    {
    }

    /// Replace, not append: after two lists of conflicts were set in turn, a manifest
    /// holds the second and nothing of the first, as if the first was never set.
    pub proof fn lemma_conflicts_replace(
        self,
        first: Seq<DependencyView>,
        second: Seq<DependencyView>,
    )
        ensures
            self.with_conflicts(first).with_conflicts(second) == self.with_conflicts(second),
            self.with_conflicts(first).with_conflicts(second).conflicts == second,
    {
    }
}

/// The manifest fields of one module of a parent.
#[derive(Debug, Clone, PartialEq)]
pub struct Module {
    /// The module's name.
    pub name: String,
    /// Whether the parent cannot be installed without this module.
    pub required: bool,
    /// Whether the module is installed unless the user says otherwise.
    pub suggested: bool,
    /// Where the artifact is read from when the package is built.
    pub artifact: String,
    /// The files that are installed beside the artifact, in order.
    pub includes: Vec<Include>,
    /// A script to run before installing, if any.
    pub pre_exec: Option<String>,
    /// A script to run after installing, if any.
    pub post_exec: Option<String>,
    /// The packages that this one needs, in the order declared.
    pub depends: Vec<Dependency>,
    /// The packages that this one cannot live with, in the order declared.
    pub conflicts: Vec<Dependency>,
}

/// The value of a [`Module`].
pub struct ModuleView {
    pub name: Seq<char>,
    pub required: bool,
    pub suggested: bool,
    pub artifact: Seq<char>,
    pub includes: Seq<IncludeView>,
    pub pre_exec: Option<Seq<char>>,
    pub post_exec: Option<Seq<char>>,
    pub depends: Seq<DependencyView>,
    pub conflicts: Seq<DependencyView>,
}

impl View for Module {
    type V = ModuleView;

    open spec fn view(&self) -> ModuleView {
        ModuleView {
            name: self.name@,
            required: self.required,
            suggested: self.suggested,
            artifact: self.artifact@,
            includes: self.includes.model(),
            pre_exec: self.pre_exec.model(),
            post_exec: self.post_exec.model(),
            depends: self.depends.model(),
            conflicts: self.conflicts.model(),
        }
    }
}

impl Wire for Module {
    type Model = ModuleView;

    open spec fn model(&self) -> ModuleView {
        self@
    }

    open spec fn wf(v: ModuleView) -> bool {
        &&& String::wf(v.name)
        &&& wf_required(v.artifact)
        &&& Vec::<Include>::wf(v.includes)
        &&& Option::<String>::wf(v.pre_exec)
        &&& Option::<String>::wf(v.post_exec)
        &&& Vec::<Dependency>::wf(v.depends)
        &&& Vec::<Dependency>::wf(v.conflicts)
    }

    #[verifier::opaque]
    open spec fn wire(v: ModuleView) -> Seq<u8> {
        String::wire(v.name)
            + bool::wire(v.required)
            + bool::wire(v.suggested)
            + wire_required(v.artifact)
            + Vec::<Include>::wire(v.includes)
            + Option::<String>::wire(v.pre_exec)
            + Option::<String>::wire(v.post_exec)
            + Vec::<Dependency>::wire(v.depends)
            + Vec::<Dependency>::wire(v.conflicts)
    }

    #[verifier::opaque]
    open spec fn read(b: Seq<u8>) -> Option<(ModuleView, Seq<u8>)> {
        match String::read(b) {
            Some((name, r1)) => match bool::read(r1) {
                Some((required, r2)) => match bool::read(r2) {
                    Some((suggested, r3)) => match read_required(r3) {
                        Some((artifact, r4)) => match Vec::<Include>::read(r4) {
                            Some((includes, r5)) => match Option::<String>::read(r5) {
                                Some((pre_exec, r6)) => match Option::<String>::read(r6) {
                                    Some((post_exec, r7)) => match Vec::<Dependency>::read(r7) {
                                        Some((depends, r8)) => match Vec::<Dependency>::read(r8) {
                                            Some((conflicts, r9)) => Some(
                                                (
                                                    ModuleView {
                                                        name,
                                                        required,
                                                        suggested,
                                                        artifact,
                                                        includes,
                                                        pre_exec,
                                                        post_exec,
                                                        depends,
                                                        conflicts,
                                                    },
                                                    r9,
                                                ),
                                            ),
                                            None => None,
                                        },
                                        None => None,
                                    },
                                    None => None,
                                },
                                None => None,
                            },
                            None => None,
                        },
                        None => None,
                    },
                    None => None,
                },
                None => None,
            },
            None => None,
        }
    }

    fn encode(&self, out: &mut Vec<u8>) {
        proof {
            reveal(<Module as Wire>::wire);
        }
        self.name.encode(out);
        let ghost done = String::wire(self@.name);
        self.required.encode(out);
        proof {
            lemma_concat_assoc(old(out)@, done, bool::wire(self@.required));
        }
        let ghost done = done + bool::wire(self@.required);
        self.suggested.encode(out);
        proof {
            lemma_concat_assoc(old(out)@, done, bool::wire(self@.suggested));
        }
        let ghost done = done + bool::wire(self@.suggested);
        encode_required(&self.artifact, out);
        proof {
            lemma_concat_assoc(old(out)@, done, wire_required(self@.artifact));
        }
        let ghost done = done + wire_required(self@.artifact);
        self.includes.encode(out);
        proof {
            lemma_concat_assoc(old(out)@, done, Vec::<Include>::wire(self@.includes));
        }
        let ghost done = done + Vec::<Include>::wire(self@.includes);
        self.pre_exec.encode(out);
        proof {
            lemma_concat_assoc(old(out)@, done, Option::<String>::wire(self@.pre_exec));
        }
        let ghost done = done + Option::<String>::wire(self@.pre_exec);
        self.post_exec.encode(out);
        proof {
            lemma_concat_assoc(old(out)@, done, Option::<String>::wire(self@.post_exec));
        }
        let ghost done = done + Option::<String>::wire(self@.post_exec);
        self.depends.encode(out);
        proof {
            lemma_concat_assoc(old(out)@, done, Vec::<Dependency>::wire(self@.depends));
        }
        let ghost done = done + Vec::<Dependency>::wire(self@.depends);
        self.conflicts.encode(out);
        proof {
            lemma_concat_assoc(old(out)@, done, Vec::<Dependency>::wire(self@.conflicts));
        }
    }

    fn decode(b: &[u8], pos: usize) -> (res: Option<(Self, usize)>) {
        proof {
            reveal(<Module as Wire>::read);
        }
        let (name, pos): (String, usize) = String::decode(b, pos)?;
        let (required, pos): (bool, usize) = bool::decode(b, pos)?;
        let (suggested, pos): (bool, usize) = bool::decode(b, pos)?;
        let (artifact, pos): (String, usize) = decode_required(b, pos)?;
        let (includes, pos): (Vec<Include>, usize) = Vec::<Include>::decode(b, pos)?;
        let (pre_exec, pos): (Option<String>, usize) = Option::<String>::decode(b, pos)?;
        let (post_exec, pos): (Option<String>, usize) = Option::<String>::decode(b, pos)?;
        let (depends, pos): (Vec<Dependency>, usize) = Vec::<Dependency>::decode(b, pos)?;
        let (conflicts, pos): (Vec<Dependency>, usize) = Vec::<Dependency>::decode(b, pos)?;
        Some(
            (
                Module {
                    name,
                    required,
                    suggested,
                    artifact,
                    includes,
                    pre_exec,
                    post_exec,
                    depends,
                    conflicts,
                },
                pos,
            ),
        )
    }

    proof fn lemma_read_wire(v: ModuleView, rest: Seq<u8>) {
        reveal(<Module as Wire>::read);
        reveal(<Module as Wire>::wire);
        let after_depends = Vec::<Dependency>::wire(v.conflicts) + rest;
        let after_post_exec = Vec::<Dependency>::wire(v.depends) + after_depends;
        let after_pre_exec = Option::<String>::wire(v.post_exec) + after_post_exec;
        let after_includes = Option::<String>::wire(v.pre_exec) + after_pre_exec;
        let after_artifact = Vec::<Include>::wire(v.includes) + after_includes;
        let after_suggested = wire_required(v.artifact) + after_artifact;
        let after_required = bool::wire(v.suggested) + after_suggested;
        let after_name = bool::wire(v.required) + after_required;
        let done = String::wire(v.name);
        lemma_concat_assoc(done, bool::wire(v.required), after_required);
        let done = done + bool::wire(v.required);
        lemma_concat_assoc(done, bool::wire(v.suggested), after_suggested);
        let done = done + bool::wire(v.suggested);
        lemma_concat_assoc(done, wire_required(v.artifact), after_artifact);
        let done = done + wire_required(v.artifact);
        lemma_concat_assoc(done, Vec::<Include>::wire(v.includes), after_includes);
        let done = done + Vec::<Include>::wire(v.includes);
        lemma_concat_assoc(done, Option::<String>::wire(v.pre_exec), after_pre_exec);
        let done = done + Option::<String>::wire(v.pre_exec);
        lemma_concat_assoc(done, Option::<String>::wire(v.post_exec), after_post_exec);
        let done = done + Option::<String>::wire(v.post_exec);
        lemma_concat_assoc(done, Vec::<Dependency>::wire(v.depends), after_depends);
        let done = done + Vec::<Dependency>::wire(v.depends);
        lemma_concat_assoc(done, Vec::<Dependency>::wire(v.conflicts), rest);
        String::lemma_read_wire(v.name, after_name);
        bool::lemma_read_wire(v.required, after_required);
        bool::lemma_read_wire(v.suggested, after_suggested);
        lemma_read_wire_required(v.artifact, after_artifact);
        Vec::<Include>::lemma_read_wire(v.includes, after_includes);
        Option::<String>::lemma_read_wire(v.pre_exec, after_pre_exec);
        Option::<String>::lemma_read_wire(v.post_exec, after_post_exec);
        Vec::<Dependency>::lemma_read_wire(v.depends, after_depends);
        Vec::<Dependency>::lemma_read_wire(v.conflicts, rest);
    }
}

impl ManifestComponent for Module {
    open spec fn kind() -> ManifestTypes {
        ManifestTypes::Module
    }

    fn manifest_kind() -> (kind: ManifestTypes) {
        ManifestTypes::Module
    }
}

impl Module {
    /// The value of the manifest of a module in which nothing has been stated yet.
    pub open spec fn empty() -> ModuleView {
        ModuleView {
            name: Seq::empty(),
            required: false,
            suggested: false,
            artifact: Seq::empty(),
            includes: Seq::empty(),
            pre_exec: None,
            post_exec: None,
            depends: Seq::empty(),
            conflicts: Seq::empty(),
        }
    }
}

impl Default for Module {
    fn default() -> (blank: Self)
        ensures
            blank@ == Module::empty(),
    {
        let blank = Module {
            name: String::new(),
            required: false,
            suggested: false,
            artifact: String::new(),
            includes: Vec::new(),
            pre_exec: None,
            post_exec: None,
            depends: Vec::new(),
            conflicts: Vec::new(),
        };
        proof {
            assert(blank@.includes =~= Seq::empty());
            assert(blank@.depends =~= Seq::empty());
            assert(blank@.conflicts =~= Seq::empty());
        }
        blank
    }
}

impl ModuleView {
    /// This value with `includes` as its files, in the place of the ones it had.
    pub open spec fn with_includes(self, includes: Seq<IncludeView>) -> ModuleView {
        ModuleView { includes, ..self }
    }

    /// This value with `depends` as its dependencies, in the place of the ones it had.
    pub open spec fn with_depends(self, depends: Seq<DependencyView>) -> ModuleView {
        ModuleView { depends, ..self }
    }

    /// This value with `conflicts` as its conflicts, in the place of the ones it had.
    pub open spec fn with_conflicts(self, conflicts: Seq<DependencyView>) -> ModuleView {
        ModuleView { conflicts, ..self }
    }

    /// Replace, not append: after two lists of files were set in turn, a manifest
    /// holds the second and nothing of the first, as if the first was never set.
    pub proof fn lemma_includes_replace(self, first: Seq<IncludeView>, second: Seq<IncludeView>)
        ensures
            self.with_includes(first).with_includes(second) == self.with_includes(second),
            self.with_includes(first).with_includes(second).includes == second,
    {
    }

    /// Replace, not append: after two lists of dependencies were set in turn, a manifest
    /// holds the second and nothing of the first, as if the first was never set.
    pub proof fn lemma_depends_replace(
        self,
        first: Seq<DependencyView>,
        second: Seq<DependencyView>,
    )
        ensures
            self.with_depends(first).with_depends(second) == self.with_depends(second),
            self.with_depends(first).with_depends(second).depends == second,
    {
    }

    /// Replace, not append: after two lists of conflicts were set in turn, a manifest
    /// holds the second and nothing of the first, as if the first was never set.
    pub proof fn lemma_conflicts_replace(
        self,
        first: Seq<DependencyView>,
        second: Seq<DependencyView>,
    )
        ensures
            self.with_conflicts(first).with_conflicts(second) == self.with_conflicts(second),
            self.with_conflicts(first).with_conflicts(second).conflicts == second,
    {
    }
}

/// The manifest fields of a library.
#[derive(Debug, Clone, PartialEq)]
pub struct Lib {
    /// The package's name.
    pub name: String,
    /// What the package does.
    pub description: String,
    /// Where to read more.
    pub website: String,
    /// The package's own version.
    pub version: Version,
    /// The versions of the game that it works with.
    pub game_version: Requirement,
    /// Where the package is shown.
    pub category: Category,
    /// Where the artifact is read from when the package is built.
    pub artifact: String,
    /// The files that are installed beside the artifact, in order.
    pub includes: Vec<Include>,
    /// A script to run before installing, if any.
    pub pre_exec: Option<String>,
    /// A script to run after installing, if any.
    pub post_exec: Option<String>,
    /// The packages that this one needs, in the order declared.
    pub depends: Vec<Dependency>,
    /// The packages that this one cannot live with, in the order declared.
    pub conflicts: Vec<Dependency>,
}

/// The value of a [`Lib`].
pub struct LibView {
    pub name: Seq<char>,
    pub description: Seq<char>,
    pub website: Seq<char>,
    pub version: VersionView,
    pub game_version: RequirementView,
    pub category: Category,
    pub artifact: Seq<char>,
    pub includes: Seq<IncludeView>,
    pub pre_exec: Option<Seq<char>>,
    pub post_exec: Option<Seq<char>>,
    pub depends: Seq<DependencyView>,
    pub conflicts: Seq<DependencyView>,
}

impl View for Lib {
    type V = LibView;

    open spec fn view(&self) -> LibView {
        LibView {
            name: self.name@,
            description: self.description@,
            website: self.website@,
            version: self.version.model(),
            game_version: self.game_version.model(),
            category: self.category,
            artifact: self.artifact@,
            includes: self.includes.model(),
            pre_exec: self.pre_exec.model(),
            post_exec: self.post_exec.model(),
            depends: self.depends.model(),
            conflicts: self.conflicts.model(),
        }
    }
}

impl Wire for Lib {
    type Model = LibView;

    open spec fn model(&self) -> LibView {
        self@
    }

    open spec fn wf(v: LibView) -> bool {
        &&& String::wf(v.name)
        &&& String::wf(v.description)
        &&& String::wf(v.website)
        &&& Version::wf(v.version)
        &&& Requirement::wf(v.game_version)
        &&& Category::wf(v.category)
        &&& wf_required(v.artifact)
        &&& Vec::<Include>::wf(v.includes)
        &&& Option::<String>::wf(v.pre_exec)
        &&& Option::<String>::wf(v.post_exec)
        &&& Vec::<Dependency>::wf(v.depends)
        &&& Vec::<Dependency>::wf(v.conflicts)
    }

    #[verifier::opaque]
    open spec fn wire(v: LibView) -> Seq<u8> {
        String::wire(v.name)
            + String::wire(v.description)
            + String::wire(v.website)
            + Version::wire(v.version)
            + Requirement::wire(v.game_version)
            + Category::wire(v.category)
            + wire_required(v.artifact)
            + Vec::<Include>::wire(v.includes)
            + Option::<String>::wire(v.pre_exec)
            + Option::<String>::wire(v.post_exec)
            + Vec::<Dependency>::wire(v.depends)
            + Vec::<Dependency>::wire(v.conflicts)
    }

    #[verifier::opaque]
    open spec fn read(b: Seq<u8>) -> Option<(LibView, Seq<u8>)> {
        match String::read(b) {
            Some((name, r1)) => match String::read(r1) {
                Some((description, r2)) => match String::read(r2) {
                    Some((website, r3)) => match Version::read(r3) {
                        Some((version, r4)) => match Requirement::read(r4) {
                            Some((game_version, r5)) => match Category::read(r5) {
                                Some((category, r6)) => match read_required(r6) {
                                    Some((artifact, r7)) => match Vec::<Include>::read(r7) {
                                        Some((includes, r8)) => match Option::<String>::read(r8) {
                                            Some((pre_exec, r9)) => match Option::<String>::read(r9) {
                                                Some((post_exec, r10)) => match Vec::<Dependency>::read(r10) {
                                                    Some((depends, r11)) => match Vec::<Dependency>::read(r11) {
                                                        Some((conflicts, r12)) => Some(
                                                            (
                                                                LibView {
                                                                    name,
                                                                    description,
                                                                    website,
                                                                    version,
                                                                    game_version,
                                                                    category,
                                                                    artifact,
                                                                    includes,
                                                                    pre_exec,
                                                                    post_exec,
                                                                    depends,
                                                                    conflicts,
                                                                },
                                                                r12,
                                                            ),
                                                        ),
                                                        None => None,
                                                    },
                                                    None => None,
                                                },
                                                None => None,
                                            },
                                            None => None,
                                        },
                                        None => None,
                                    },
                                    None => None,
                                },
                                None => None,
                            },
                            None => None,
                        },
                        None => None,
                    },
                    None => None,
                },
                None => None,
            },
            None => None,
        }
    }

    fn encode(&self, out: &mut Vec<u8>) {
        proof {
            reveal(<Lib as Wire>::wire);
        }
        self.name.encode(out);
        let ghost done = String::wire(self@.name);
        self.description.encode(out);
        proof {
            lemma_concat_assoc(old(out)@, done, String::wire(self@.description));
        }
        let ghost done = done + String::wire(self@.description);
        self.website.encode(out);
        proof {
            lemma_concat_assoc(old(out)@, done, String::wire(self@.website));
        }
        let ghost done = done + String::wire(self@.website);
        self.version.encode(out);
        proof {
            lemma_concat_assoc(old(out)@, done, Version::wire(self@.version));
        }
        let ghost done = done + Version::wire(self@.version);
        self.game_version.encode(out);
        proof {
            lemma_concat_assoc(old(out)@, done, Requirement::wire(self@.game_version));
        }
        let ghost done = done + Requirement::wire(self@.game_version);
        self.category.encode(out);
        proof {
            lemma_concat_assoc(old(out)@, done, Category::wire(self@.category));
        }
        let ghost done = done + Category::wire(self@.category);
        encode_required(&self.artifact, out);
        proof {
            lemma_concat_assoc(old(out)@, done, wire_required(self@.artifact));
        }
        let ghost done = done + wire_required(self@.artifact);
        self.includes.encode(out);
        proof {
            lemma_concat_assoc(old(out)@, done, Vec::<Include>::wire(self@.includes));
        }
        let ghost done = done + Vec::<Include>::wire(self@.includes);
        self.pre_exec.encode(out);
        proof {
            lemma_concat_assoc(old(out)@, done, Option::<String>::wire(self@.pre_exec));
        }
        let ghost done = done + Option::<String>::wire(self@.pre_exec);
        self.post_exec.encode(out);
        proof {
            lemma_concat_assoc(old(out)@, done, Option::<String>::wire(self@.post_exec));
        }
        let ghost done = done + Option::<String>::wire(self@.post_exec);
        self.depends.encode(out);
        proof {
            lemma_concat_assoc(old(out)@, done, Vec::<Dependency>::wire(self@.depends));
        }
        let ghost done = done + Vec::<Dependency>::wire(self@.depends);
        self.conflicts.encode(out);
        proof {
            lemma_concat_assoc(old(out)@, done, Vec::<Dependency>::wire(self@.conflicts));
        }
    }

    fn decode(b: &[u8], pos: usize) -> (res: Option<(Self, usize)>) {
        proof {
            reveal(<Lib as Wire>::read);
        }
        let (name, pos): (String, usize) = String::decode(b, pos)?;
        let (description, pos): (String, usize) = String::decode(b, pos)?;
        let (website, pos): (String, usize) = String::decode(b, pos)?;
        let (version, pos): (Version, usize) = Version::decode(b, pos)?;
        let (game_version, pos): (Requirement, usize) = Requirement::decode(b, pos)?;
        let (category, pos): (Category, usize) = Category::decode(b, pos)?;
        let (artifact, pos): (String, usize) = decode_required(b, pos)?;
        let (includes, pos): (Vec<Include>, usize) = Vec::<Include>::decode(b, pos)?;
        let (pre_exec, pos): (Option<String>, usize) = Option::<String>::decode(b, pos)?;
        let (post_exec, pos): (Option<String>, usize) = Option::<String>::decode(b, pos)?;
        let (depends, pos): (Vec<Dependency>, usize) = Vec::<Dependency>::decode(b, pos)?;
        let (conflicts, pos): (Vec<Dependency>, usize) = Vec::<Dependency>::decode(b, pos)?;
        Some(
            (
                Lib {
                    name,
                    description,
                    website,
                    version,
                    game_version,
                    category,
                    artifact,
                    includes,
                    pre_exec,
                    post_exec,
                    depends,
                    conflicts,
                },
                pos,
            ),
        )
    }

    proof fn lemma_read_wire(v: LibView, rest: Seq<u8>) {
        reveal(<Lib as Wire>::read);
        reveal(<Lib as Wire>::wire);
        let after_depends = Vec::<Dependency>::wire(v.conflicts) + rest;
        let after_post_exec = Vec::<Dependency>::wire(v.depends) + after_depends;
        let after_pre_exec = Option::<String>::wire(v.post_exec) + after_post_exec;
        let after_includes = Option::<String>::wire(v.pre_exec) + after_pre_exec;
        let after_artifact = Vec::<Include>::wire(v.includes) + after_includes;
        let after_category = wire_required(v.artifact) + after_artifact;
        let after_game_version = Category::wire(v.category) + after_category;
        let after_version = Requirement::wire(v.game_version) + after_game_version;
        let after_website = Version::wire(v.version) + after_version;
        let after_description = String::wire(v.website) + after_website;
        let after_name = String::wire(v.description) + after_description;
        let done = String::wire(v.name);
        lemma_concat_assoc(done, String::wire(v.description), after_description);
        let done = done + String::wire(v.description);
        lemma_concat_assoc(done, String::wire(v.website), after_website);
        let done = done + String::wire(v.website);
        lemma_concat_assoc(done, Version::wire(v.version), after_version);
        let done = done + Version::wire(v.version);
        lemma_concat_assoc(done, Requirement::wire(v.game_version), after_game_version);
        let done = done + Requirement::wire(v.game_version);
        lemma_concat_assoc(done, Category::wire(v.category), after_category);
        let done = done + Category::wire(v.category);
        lemma_concat_assoc(done, wire_required(v.artifact), after_artifact);
        let done = done + wire_required(v.artifact);
        lemma_concat_assoc(done, Vec::<Include>::wire(v.includes), after_includes);
        let done = done + Vec::<Include>::wire(v.includes);
        lemma_concat_assoc(done, Option::<String>::wire(v.pre_exec), after_pre_exec);
        let done = done + Option::<String>::wire(v.pre_exec);
        lemma_concat_assoc(done, Option::<String>::wire(v.post_exec), after_post_exec);
        let done = done + Option::<String>::wire(v.post_exec);
        lemma_concat_assoc(done, Vec::<Dependency>::wire(v.depends), after_depends);
        let done = done + Vec::<Dependency>::wire(v.depends);
        lemma_concat_assoc(done, Vec::<Dependency>::wire(v.conflicts), rest);
        String::lemma_read_wire(v.name, after_name);
        String::lemma_read_wire(v.description, after_description);
        String::lemma_read_wire(v.website, after_website);
        Version::lemma_read_wire(v.version, after_version);
        Requirement::lemma_read_wire(v.game_version, after_game_version);
        Category::lemma_read_wire(v.category, after_category);
        lemma_read_wire_required(v.artifact, after_artifact);
        Vec::<Include>::lemma_read_wire(v.includes, after_includes);
        Option::<String>::lemma_read_wire(v.pre_exec, after_pre_exec);
        Option::<String>::lemma_read_wire(v.post_exec, after_post_exec);
        Vec::<Dependency>::lemma_read_wire(v.depends, after_depends);
        Vec::<Dependency>::lemma_read_wire(v.conflicts, rest);
    }
}

impl ManifestComponent for Lib {
    open spec fn kind() -> ManifestTypes {
        ManifestTypes::Lib
    }

    fn manifest_kind() -> (kind: ManifestTypes) {
        ManifestTypes::Lib
    }
}

impl Lib {
    /// The value of the manifest of a library in which nothing has been stated yet.
    pub open spec fn empty() -> LibView {
        LibView {
            name: Seq::empty(),
            description: Seq::empty(),
            website: Seq::empty(),
            version: VersionView {
                major: 0,
                minor: 0,
                patch: 0,
                pre: Seq::empty(),
                build: Seq::empty(),
            },
            game_version: RequirementView { comparators: Seq::empty() },
            category: Category::Other,
            artifact: Seq::empty(),
            includes: Seq::empty(),
            pre_exec: None,
            post_exec: None,
            depends: Seq::empty(),
            conflicts: Seq::empty(),
        }
    }

    /// The bytes of the manifest of a library in which `text` stands where the
    /// category is expected, whether or not `text` names a category.
    pub open spec fn wire_with_category(v: LibView, text: Seq<char>) -> Seq<u8> {
        String::wire(v.name)
            + String::wire(v.description)
            + String::wire(v.website)
            + Version::wire(v.version)
            + Requirement::wire(v.game_version)
            + String::wire(text)
            + wire_required(v.artifact)
            + Vec::<Include>::wire(v.includes)
            + Option::<String>::wire(v.pre_exec)
            + Option::<String>::wire(v.post_exec)
            + Vec::<Dependency>::wire(v.depends)
            + Vec::<Dependency>::wire(v.conflicts)
    }

    /// Lenient reading: the manifest of a library is read back whatever text stands
    /// where its category is expected. The category that is read is the one that
    /// the text names, and `Category::Other` where it names none.
    pub proof fn lemma_read_any_category(v: LibView, text: Seq<char>, rest: Seq<u8>)
        requires
            Lib::wf(v),
            String::wf(text),
        ensures
            Lib::read(Lib::wire_with_category(v, text) + rest) == Some(
                (LibView { category: Category::of_text(text), ..v }, rest),
            ),
            !Category::is_name(text) ==> Lib::read(Lib::wire_with_category(v, text) + rest)
                == Some((LibView { category: Category::Other, ..v }, rest)),
    {
        reveal(<Lib as Wire>::read);
        let after_depends = Vec::<Dependency>::wire(v.conflicts) + rest;
        let after_post_exec = Vec::<Dependency>::wire(v.depends) + after_depends;
        let after_pre_exec = Option::<String>::wire(v.post_exec) + after_post_exec;
        let after_includes = Option::<String>::wire(v.pre_exec) + after_pre_exec;
        let after_artifact = Vec::<Include>::wire(v.includes) + after_includes;
        let after_category = wire_required(v.artifact) + after_artifact;
        let after_game_version = String::wire(text) + after_category;
        let after_version = Requirement::wire(v.game_version) + after_game_version;
        let after_website = Version::wire(v.version) + after_version;
        let after_description = String::wire(v.website) + after_website;
        let after_name = String::wire(v.description) + after_description;
        let done = String::wire(v.name);
        lemma_concat_assoc(done, String::wire(v.description), after_description);
        let done = done + String::wire(v.description);
        lemma_concat_assoc(done, String::wire(v.website), after_website);
        let done = done + String::wire(v.website);
        lemma_concat_assoc(done, Version::wire(v.version), after_version);
        let done = done + Version::wire(v.version);
        lemma_concat_assoc(done, Requirement::wire(v.game_version), after_game_version);
        let done = done + Requirement::wire(v.game_version);
        lemma_concat_assoc(done, String::wire(text), after_category);
        let done = done + String::wire(text);
        lemma_concat_assoc(done, wire_required(v.artifact), after_artifact);
        let done = done + wire_required(v.artifact);
        lemma_concat_assoc(done, Vec::<Include>::wire(v.includes), after_includes);
        let done = done + Vec::<Include>::wire(v.includes);
        lemma_concat_assoc(done, Option::<String>::wire(v.pre_exec), after_pre_exec);
        let done = done + Option::<String>::wire(v.pre_exec);
        lemma_concat_assoc(done, Option::<String>::wire(v.post_exec), after_post_exec);
        let done = done + Option::<String>::wire(v.post_exec);
        lemma_concat_assoc(done, Vec::<Dependency>::wire(v.depends), after_depends);
        let done = done + Vec::<Dependency>::wire(v.depends);
        lemma_concat_assoc(done, Vec::<Dependency>::wire(v.conflicts), rest);
        String::lemma_read_wire(v.name, after_name);
        String::lemma_read_wire(v.description, after_description);
        String::lemma_read_wire(v.website, after_website);
        Version::lemma_read_wire(v.version, after_version);
        Requirement::lemma_read_wire(v.game_version, after_game_version);
        Category::lemma_read_any_text(text, after_category);
        lemma_read_wire_required(v.artifact, after_artifact);
        Vec::<Include>::lemma_read_wire(v.includes, after_includes);
        Option::<String>::lemma_read_wire(v.pre_exec, after_pre_exec);
        Option::<String>::lemma_read_wire(v.post_exec, after_post_exec);
        Vec::<Dependency>::lemma_read_wire(v.depends, after_depends);
        Vec::<Dependency>::lemma_read_wire(v.conflicts, rest);
        Category::lemma_lenient(text);
    }
}

impl Default for Lib {
    fn default() -> (blank: Self)
        ensures
            blank@ == Lib::empty(),
    {
        let blank = Lib {
            name: String::new(),
            description: String::new(),
            website: String::new(),
            version: Version::new(0, 0, 0),
            game_version: Requirement::any(),
            category: Category::Other,
            artifact: String::new(),
            includes: Vec::new(),
            pre_exec: None,
            post_exec: None,
            depends: Vec::new(),
            conflicts: Vec::new(),
        };
        proof {
            assert(blank@.includes =~= Seq::empty());
            assert(blank@.depends =~= Seq::empty());
            assert(blank@.conflicts =~= Seq::empty());
        }
        blank
    }
}

impl LibView {
    /// This value with `includes` as its files, in the place of the ones it had.
    pub open spec fn with_includes(self, includes: Seq<IncludeView>) -> LibView {
        LibView { includes, ..self }
    }

    /// This value with `depends` as its dependencies, in the place of the ones it had.
    pub open spec fn with_depends(self, depends: Seq<DependencyView>) -> LibView {
        LibView { depends, ..self }
    }

    /// This value with `conflicts` as its conflicts, in the place of the ones it had.
    pub open spec fn with_conflicts(self, conflicts: Seq<DependencyView>) -> LibView {
        LibView { conflicts, ..self }
    }

    /// Replace, not append: after two lists of files were set in turn, a manifest
    /// holds the second and nothing of the first, as if the first was never set.
    pub proof fn lemma_includes_replace(self, first: Seq<IncludeView>, second: Seq<IncludeView>)
        ensures
            self.with_includes(first).with_includes(second) == self.with_includes(second),
            self.with_includes(first).with_includes(second).includes == second,
    {
    }

    /// Replace, not append: after two lists of dependencies were set in turn, a manifest
    /// holds the second and nothing of the first, as if the first was never set.
    pub proof fn lemma_depends_replace(
        self,
        first: Seq<DependencyView>,
        second: Seq<DependencyView>,
    )
        ensures
            self.with_depends(first).with_depends(second) == self.with_depends(second),
            self.with_depends(first).with_depends(second).depends == second,
    {
    }

    /// Replace, not append: after two lists of conflicts were set in turn, a manifest
    /// holds the second and nothing of the first, as if the first was never set.
    pub proof fn lemma_conflicts_replace(
        self,
        first: Seq<DependencyView>,
        second: Seq<DependencyView>,
    )
        ensures
            self.with_conflicts(first).with_conflicts(second) == self.with_conflicts(second),
            self.with_conflicts(first).with_conflicts(second).conflicts == second,
    {
    }
}

} // verus!
