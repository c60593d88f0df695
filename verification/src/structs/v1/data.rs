//! The payload of each kind of package.

use vstd::prelude::*;
use crate::structs::forgemod::ForgeModData;
use crate::structs::v1::ManifestTypes;
use crate::wire::{
    decode_blob, encode_blob, lemma_concat_assoc, lemma_read_wire_blob, read_blob, wf_blob,
    wire_blob, Wire,
};

verus! {

/// A file that is installed beside the artifact: where it goes, and what it
/// holds.
#[derive(Debug, Clone, PartialEq)]
pub struct IncludeData {
    /// Where the file goes, in the game's directory.
    pub dest: String,
    /// What the file holds.
    pub data: Vec<u8>,
}

/// The value of an [`IncludeData`].
pub struct IncludeDataView {
    pub dest: Seq<char>,
    pub data: Seq<u8>,
}

impl View for IncludeData {
    type V = IncludeDataView;

    open spec fn view(&self) -> IncludeDataView {
        IncludeDataView {
            dest: self.dest@,
            data: self.data@,
        }
    }
}

impl Wire for IncludeData {
    type Model = IncludeDataView;

    open spec fn model(&self) -> IncludeDataView {
        self@
    }

    open spec fn wf(v: IncludeDataView) -> bool {
        &&& String::wf(v.dest)
        &&& wf_blob(v.data)
    }

    #[verifier::opaque]
    open spec fn wire(v: IncludeDataView) -> Seq<u8> {
        String::wire(v.dest)
            + wire_blob(v.data)
    }

    #[verifier::opaque]
    open spec fn read(b: Seq<u8>) -> Option<(IncludeDataView, Seq<u8>)> {
        match String::read(b) {
            Some((dest, r1)) => match read_blob(r1) {
                Some((data, r2)) => Some((IncludeDataView { dest, data }, r2)),
                None => None,
            },
            None => None,
        }
    }

    fn encode(&self, out: &mut Vec<u8>) {
        proof {
            reveal(<IncludeData as Wire>::wire);
        }
        self.dest.encode(out);
        let ghost done = String::wire(self@.dest);
        encode_blob(self.data.as_slice(), out);
        proof {
            lemma_concat_assoc(old(out)@, done, wire_blob(self@.data));
        }
    }

    fn decode(b: &[u8], pos: usize) -> (res: Option<(Self, usize)>) {
        proof {
            reveal(<IncludeData as Wire>::read);
        }
        let (dest, pos): (String, usize) = String::decode(b, pos)?;
        let (data, pos): (Vec<u8>, usize) = decode_blob(b, pos)?;
        Some((IncludeData { dest, data }, pos))
    }

    proof fn lemma_read_wire(v: IncludeDataView, rest: Seq<u8>) {
        reveal(<IncludeData as Wire>::read);
        reveal(<IncludeData as Wire>::wire);
        let after_dest = wire_blob(v.data) + rest;
        let done = String::wire(v.dest);
        lemma_concat_assoc(done, wire_blob(v.data), rest);
        String::lemma_read_wire(v.dest, after_dest);
        lemma_read_wire_blob(v.data, rest);
    }
}

/// The payload of a mod that stands alone.
#[derive(Debug, Clone, PartialEq)]
pub struct Mod {
    /// What the artifact holds.
    pub artifact_data: Vec<u8>,
    /// The files that are installed beside the artifact, in order.
    pub includes_data: Vec<IncludeData>,
}

/// The value of a [`Mod`].
pub struct ModView {
    pub artifact_data: Seq<u8>,
    pub includes_data: Seq<IncludeDataView>,
}

impl View for Mod {
    type V = ModView;

    open spec fn view(&self) -> ModView {
        ModView {
            artifact_data: self.artifact_data@,
            includes_data: self.includes_data.model(),
        }
    }
}

impl Wire for Mod {
    type Model = ModView;

    open spec fn model(&self) -> ModView {
        self@
    }

    open spec fn wf(v: ModView) -> bool {
        &&& wf_blob(v.artifact_data)
        &&& Vec::<IncludeData>::wf(v.includes_data)
    }

    #[verifier::opaque]
    open spec fn wire(v: ModView) -> Seq<u8> {
        wire_blob(v.artifact_data)
            + Vec::<IncludeData>::wire(v.includes_data)
    }

    #[verifier::opaque]
    open spec fn read(b: Seq<u8>) -> Option<(ModView, Seq<u8>)> {
        match read_blob(b) {
            Some((artifact_data, r1)) => match Vec::<IncludeData>::read(r1) {
                Some((includes_data, r2)) => Some((ModView { artifact_data, includes_data }, r2)),
                None => None,
            },
            None => None,
        }
    }

    fn encode(&self, out: &mut Vec<u8>) {
        proof {
            reveal(<Mod as Wire>::wire);
        }
        encode_blob(self.artifact_data.as_slice(), out);
        let ghost done = wire_blob(self@.artifact_data);
        self.includes_data.encode(out);
        proof {
            lemma_concat_assoc(old(out)@, done, Vec::<IncludeData>::wire(self@.includes_data));
        }
    }

    fn decode(b: &[u8], pos: usize) -> (res: Option<(Self, usize)>) {
        proof {
            reveal(<Mod as Wire>::read);
        }
        let (artifact_data, pos): (Vec<u8>, usize) = decode_blob(b, pos)?;
        let (includes_data, pos): (Vec<IncludeData>, usize) = Vec::<IncludeData>::decode(b, pos)?;
        Some((Mod { artifact_data, includes_data }, pos))
    }

    proof fn lemma_read_wire(v: ModView, rest: Seq<u8>) {
        reveal(<Mod as Wire>::read);
        reveal(<Mod as Wire>::wire);
        let after_artifact_data = Vec::<IncludeData>::wire(v.includes_data) + rest;
        let done = wire_blob(v.artifact_data);
        lemma_concat_assoc(done, Vec::<IncludeData>::wire(v.includes_data), rest);
        lemma_read_wire_blob(v.artifact_data, after_artifact_data);
        Vec::<IncludeData>::lemma_read_wire(v.includes_data, rest);
    }
}

impl ForgeModData for Mod {
    open spec fn kind() -> ManifestTypes {
        ManifestTypes::Mod
    }

    fn data_kind() -> (kind: ManifestTypes) {
        ManifestTypes::Mod
    }
}

impl ModView {
    /// This value with `includes_data` as its files, in the place of the ones it had.
    pub open spec fn with_includes_data(self, includes_data: Seq<IncludeDataView>) -> ModView {
        ModView { includes_data, ..self }
    }

    /// Replace, not append: after two lists of files were set in turn, a payload
    /// holds the second and nothing of the first, as if the first was never set.
    pub proof fn lemma_includes_data_replace(
        self,
        first: Seq<IncludeDataView>,
        second: Seq<IncludeDataView>,
    )
        ensures
            self.with_includes_data(first).with_includes_data(second) == self.with_includes_data(
                second,
            ),
            self.with_includes_data(first).with_includes_data(second).includes_data == second,
    {
    }
}

/// The payload of a package that only groups modules: nothing.
#[derive(Debug, Clone, PartialEq)]
pub struct Parent {}

/// The value of a [`Parent`].
pub struct ParentView {}

impl View for Parent {
    type V = ParentView;

    open spec fn view(&self) -> ParentView {
        ParentView {}
    }
}

impl Wire for Parent {
    type Model = ParentView;

    open spec fn model(&self) -> ParentView {
        self@
    }

    open spec fn wf(v: ParentView) -> bool {
        true
    }

    #[verifier::opaque]
    open spec fn wire(v: ParentView) -> Seq<u8> {
        Seq::empty()
    }

    #[verifier::opaque]
    open spec fn read(b: Seq<u8>) -> Option<(ParentView, Seq<u8>)> {
        Some((ParentView {}, b))
    }

    fn encode(&self, out: &mut Vec<u8>) {
        proof {
            reveal(<Parent as Wire>::wire);
        }
        assert(out@ =~= old(out)@ + Self::wire(self@));
    }

    fn decode(b: &[u8], pos: usize) -> (res: Option<(Self, usize)>) {
        proof {
            reveal(<Parent as Wire>::read);
        }
        if pos > b.len() {
            return None;
        }
        Some((Parent {}, pos))
    }

    proof fn lemma_read_wire(v: ParentView, rest: Seq<u8>) {
        reveal(<Parent as Wire>::read);
        reveal(<Parent as Wire>::wire);
        assert(Self::wire(v) + rest =~= rest);
    }
}

impl ForgeModData for Parent {
    open spec fn kind() -> ManifestTypes {
        ManifestTypes::ModuleParent
    }

    fn data_kind() -> (kind: ManifestTypes) {
        ManifestTypes::ModuleParent
    }
}

/// The payload of one module of a parent. It repeats what the installer needs
/// from the module's manifest.
#[derive(Debug, Clone, PartialEq)]
pub struct Module {
    /// The module's identifier.
    pub _id: String,
    /// Whether the parent cannot be installed without this module.
    pub required: bool,
    /// Whether the module is installed unless the user says otherwise.
    pub suggested: bool,
    /// What the artifact holds.
    pub artifact_data: Vec<u8>,
    /// The files that are installed beside the artifact, in order.
    pub includes_data: Vec<IncludeData>,
}

/// The value of a [`Module`].
pub struct ModuleView {
    pub _id: Seq<char>,
    pub required: bool,
    pub suggested: bool,
    pub artifact_data: Seq<u8>,
    pub includes_data: Seq<IncludeDataView>,
}

impl View for Module {
    type V = ModuleView;

    open spec fn view(&self) -> ModuleView {
        ModuleView {
            _id: self._id@,
            required: self.required,
            suggested: self.suggested,
            artifact_data: self.artifact_data@,
            includes_data: self.includes_data.model(),
        }
    }
}

impl Wire for Module {
    type Model = ModuleView;

    open spec fn model(&self) -> ModuleView {
        self@
    }

    open spec fn wf(v: ModuleView) -> bool {
        &&& String::wf(v._id)
        &&& wf_blob(v.artifact_data)
        &&& Vec::<IncludeData>::wf(v.includes_data)
    }

    #[verifier::opaque]
    open spec fn wire(v: ModuleView) -> Seq<u8> {
        String::wire(v._id)
            + bool::wire(v.required)
            + bool::wire(v.suggested)
            + wire_blob(v.artifact_data)
            + Vec::<IncludeData>::wire(v.includes_data)
    }

    #[verifier::opaque]
    open spec fn read(b: Seq<u8>) -> Option<(ModuleView, Seq<u8>)> {
        match String::read(b) {
            Some((_id, r1)) => match bool::read(r1) {
                Some((required, r2)) => match bool::read(r2) {
                    Some((suggested, r3)) => match read_blob(r3) {
                        Some((artifact_data, r4)) => match Vec::<IncludeData>::read(r4) {
                            Some((includes_data, r5)) => Some(
                                (
                                    ModuleView {
                                        _id,
                                        required,
                                        suggested,
                                        artifact_data,
                                        includes_data,
                                    },
                                    r5,
                                ),
                            ),
                            None => None,
                        },
                        None => None,
                    },
                    None => None,
                },
                None => None,
            },
            None => None,
        }
    }

    fn encode(&self, out: &mut Vec<u8>) {
        proof {
            reveal(<Module as Wire>::wire);
        }
        self._id.encode(out);
        let ghost done = String::wire(self@._id);
        self.required.encode(out);
        proof {
            lemma_concat_assoc(old(out)@, done, bool::wire(self@.required));
        }
        let ghost done = done + bool::wire(self@.required);
        self.suggested.encode(out);
        proof {
            lemma_concat_assoc(old(out)@, done, bool::wire(self@.suggested));
        }
        let ghost done = done + bool::wire(self@.suggested);
        encode_blob(self.artifact_data.as_slice(), out);
        proof {
            lemma_concat_assoc(old(out)@, done, wire_blob(self@.artifact_data));
        }
        let ghost done = done + wire_blob(self@.artifact_data);
        self.includes_data.encode(out);
        proof {
            lemma_concat_assoc(old(out)@, done, Vec::<IncludeData>::wire(self@.includes_data));
        }
    }

    fn decode(b: &[u8], pos: usize) -> (res: Option<(Self, usize)>) {
        proof {
            reveal(<Module as Wire>::read);
        }
        let (_id, pos): (String, usize) = String::decode(b, pos)?;
        let (required, pos): (bool, usize) = bool::decode(b, pos)?;
        let (suggested, pos): (bool, usize) = bool::decode(b, pos)?;
        let (artifact_data, pos): (Vec<u8>, usize) = decode_blob(b, pos)?;
        let (includes_data, pos): (Vec<IncludeData>, usize) = Vec::<IncludeData>::decode(b, pos)?;
        Some((Module { _id, required, suggested, artifact_data, includes_data }, pos))
    }

    proof fn lemma_read_wire(v: ModuleView, rest: Seq<u8>) {
        reveal(<Module as Wire>::read);
        reveal(<Module as Wire>::wire);
        let after_artifact_data = Vec::<IncludeData>::wire(v.includes_data) + rest;
        let after_suggested = wire_blob(v.artifact_data) + after_artifact_data;
        let after_required = bool::wire(v.suggested) + after_suggested;
        let after__id = bool::wire(v.required) + after_required;
        let done = String::wire(v._id);
        lemma_concat_assoc(done, bool::wire(v.required), after_required);
        let done = done + bool::wire(v.required);
        lemma_concat_assoc(done, bool::wire(v.suggested), after_suggested);
        let done = done + bool::wire(v.suggested);
        lemma_concat_assoc(done, wire_blob(v.artifact_data), after_artifact_data);
        let done = done + wire_blob(v.artifact_data);
        lemma_concat_assoc(done, Vec::<IncludeData>::wire(v.includes_data), rest);
        String::lemma_read_wire(v._id, after__id);
        bool::lemma_read_wire(v.required, after_required);
        bool::lemma_read_wire(v.suggested, after_suggested);
        lemma_read_wire_blob(v.artifact_data, after_artifact_data);
        Vec::<IncludeData>::lemma_read_wire(v.includes_data, rest);
    }
}

impl ForgeModData for Module {
    open spec fn kind() -> ManifestTypes {
        ManifestTypes::Module
    }

    fn data_kind() -> (kind: ManifestTypes) {
        ManifestTypes::Module
    }
}

impl ModuleView {
    /// This value with `includes_data` as its files, in the place of the ones it had.
    pub open spec fn with_includes_data(self, includes_data: Seq<IncludeDataView>) -> ModuleView {
        ModuleView { includes_data, ..self }
    }

    /// Replace, not append: after two lists of files were set in turn, a payload
    /// holds the second and nothing of the first, as if the first was never set.
    pub proof fn lemma_includes_data_replace(
        self,
        first: Seq<IncludeDataView>,
        second: Seq<IncludeDataView>,
    )
        ensures
            self.with_includes_data(first).with_includes_data(second) == self.with_includes_data(
                second,
            ),
            self.with_includes_data(first).with_includes_data(second).includes_data == second,
    {
    }
}

/// The payload of a library.
#[derive(Debug, Clone, PartialEq)]
pub struct Lib {
    /// What the artifact holds.
    pub artifact_data: Vec<u8>,
    /// The files that are installed beside the artifact, in order.
    pub includes_data: Vec<IncludeData>,
}

/// The value of a [`Lib`].
pub struct LibView {
    pub artifact_data: Seq<u8>,
    pub includes_data: Seq<IncludeDataView>,
}

impl View for Lib {
    type V = LibView;

    open spec fn view(&self) -> LibView {
        LibView {
            artifact_data: self.artifact_data@,
            includes_data: self.includes_data.model(),
        }
    }
}

impl Wire for Lib {
    type Model = LibView;

    open spec fn model(&self) -> LibView {
        self@
    }

    open spec fn wf(v: LibView) -> bool {
        &&& wf_blob(v.artifact_data)
        &&& Vec::<IncludeData>::wf(v.includes_data)
    }

    #[verifier::opaque]
    open spec fn wire(v: LibView) -> Seq<u8> {
        wire_blob(v.artifact_data)
            + Vec::<IncludeData>::wire(v.includes_data)
    }

    #[verifier::opaque]
    open spec fn read(b: Seq<u8>) -> Option<(LibView, Seq<u8>)> {
        match read_blob(b) {
            Some((artifact_data, r1)) => match Vec::<IncludeData>::read(r1) {
                Some((includes_data, r2)) => Some((LibView { artifact_data, includes_data }, r2)),
                None => None,
            },
            None => None,
        }
    }

    fn encode(&self, out: &mut Vec<u8>) {
        proof {
            reveal(<Lib as Wire>::wire);
        }
        encode_blob(self.artifact_data.as_slice(), out);
        let ghost done = wire_blob(self@.artifact_data);
        self.includes_data.encode(out);
        proof {
            lemma_concat_assoc(old(out)@, done, Vec::<IncludeData>::wire(self@.includes_data));
        }
    }

    fn decode(b: &[u8], pos: usize) -> (res: Option<(Self, usize)>) {
        proof {
            reveal(<Lib as Wire>::read);
        }
        let (artifact_data, pos): (Vec<u8>, usize) = decode_blob(b, pos)?;
        let (includes_data, pos): (Vec<IncludeData>, usize) = Vec::<IncludeData>::decode(b, pos)?;
        Some((Lib { artifact_data, includes_data }, pos))
    }

    proof fn lemma_read_wire(v: LibView, rest: Seq<u8>) {
        reveal(<Lib as Wire>::read);
        reveal(<Lib as Wire>::wire);
        let after_artifact_data = Vec::<IncludeData>::wire(v.includes_data) + rest;
        let done = wire_blob(v.artifact_data);
        lemma_concat_assoc(done, Vec::<IncludeData>::wire(v.includes_data), rest);
        lemma_read_wire_blob(v.artifact_data, after_artifact_data);
        Vec::<IncludeData>::lemma_read_wire(v.includes_data, rest);
    }
}

impl ForgeModData for Lib {
    open spec fn kind() -> ManifestTypes {
        ManifestTypes::Lib
    }

    fn data_kind() -> (kind: ManifestTypes) {
        ManifestTypes::Lib
    }
}

impl LibView {
    /// This value with `includes_data` as its files, in the place of the ones it had.
    pub open spec fn with_includes_data(self, includes_data: Seq<IncludeDataView>) -> LibView {
        LibView { includes_data, ..self }
    }

    /// Replace, not append: after two lists of files were set in turn, a payload
    /// holds the second and nothing of the first, as if the first was never set.
    pub proof fn lemma_includes_data_replace(
        self,
        first: Seq<IncludeDataView>,
        second: Seq<IncludeDataView>,
    )
        ensures
            self.with_includes_data(first).with_includes_data(second) == self.with_includes_data(
                second,
            ),
            self.with_includes_data(first).with_includes_data(second).includes_data == second,
    {
    }
}

} // verus!
