//! The envelope: a manifest together with the payload of its package, and the
//! byte stream that carries both.
//!
//! An envelope is written as its format version and its kind, then its
//! manifest, then its payload; the whole is compressed as one XZ stream. The
//! first two fields are laid out alike for every kind, so that a reader can
//! learn what follows before it commits to a way of reading it.

use core::marker::PhantomData;
use vstd::prelude::*;
use crate::compress::{xz_compress, xz_decompress, xz_unpacked};
use crate::structs::manifest::{
    ForgeManifestSafe, ManifestComponent, ManifestVersion, ManifestView,
};
use crate::structs::v1::ManifestTypes;
use crate::wire::{lemma_concat_assoc, text_eq, Wire};

verus! {

/// Why a byte stream could not be written or read.
#[derive(Debug, Clone, Copy, PartialEq, Eq, Structural)]
pub enum ForgeError {
    /// The compression pass failed: on reading, the stream is corrupt or cut
    /// short.
    Compression,
    /// The uncompressed bytes are not the layout of the envelope that was asked
    /// for.
    Decode,
    /// The envelope follows another generation of the format than the reader
    /// supports.
    VersionMismatch,
    /// The envelope names a kind of package that the reader does not know.
    UnknownKind,
}

impl ForgeError {
    /// The sentence that says what went wrong.
    pub open spec fn text(self) -> Seq<char> {
        match self {
            ForgeError::Compression => "the compressed stream could not be written or read"@,
            ForgeError::Decode => "the bytes do not hold the expected envelope"@,
            ForgeError::VersionMismatch => "cannot find v1 manifest information."@,
            ForgeError::UnknownKind => "unknown kind"@,
        }
    }

    /// A sentence that says what went wrong.
    pub fn message(&self) -> (text: &'static str)
        ensures
            text@ == self.text(),
    {
        match self {
            ForgeError::Compression => "the compressed stream could not be written or read",
            ForgeError::Decode => "the bytes do not hold the expected envelope",
            ForgeError::VersionMismatch => "cannot find v1 manifest information.",
            ForgeError::UnknownKind => "unknown kind",
        }
    }
}

/// The payload of one kind of package.
pub trait ForgeModData: Wire {
    /// The kind of package that this payload belongs to.
    spec fn kind() -> ManifestTypes;

    /// The kind of package that this payload belongs to.
    fn data_kind() -> (kind: ManifestTypes)
        ensures
            kind == Self::kind(),
    ;
}

/// What every envelope starts with, whatever its kind: enough to choose how to
/// read the rest.
#[derive(Debug, Clone, PartialEq)]
pub struct ForgeModGeneric {
    /// The generation of the format that the envelope follows.
    pub format_version: u32,
    /// The kind of package, as text.
    pub kind: String,
}

/// The value of a [`ForgeModGeneric`].
pub struct ForgeModGenericView {
    pub format_version: u32,
    pub kind: Seq<char>,
}

impl View for ForgeModGeneric {
    type V = ForgeModGenericView;

    open spec fn view(&self) -> ForgeModGenericView {
        ForgeModGenericView {
            format_version: self.format_version,
            kind: self.kind@,
        }
    }
}

impl Wire for ForgeModGeneric {
    type Model = ForgeModGenericView;

    open spec fn model(&self) -> ForgeModGenericView {
        self@
    }

    open spec fn wf(v: ForgeModGenericView) -> bool {
        String::wf(v.kind)
    }

    #[verifier::opaque]
    open spec fn wire(v: ForgeModGenericView) -> Seq<u8> {
        u32::wire(v.format_version)
            + String::wire(v.kind)
    }

    #[verifier::opaque]
    open spec fn read(b: Seq<u8>) -> Option<(ForgeModGenericView, Seq<u8>)> {
        match u32::read(b) {
            Some((format_version, r1)) => match String::read(r1) {
                Some((kind, r2)) => Some((ForgeModGenericView { format_version, kind }, r2)),
                None => None,
            },
            None => None,
        }
    }

    fn encode(&self, out: &mut Vec<u8>) {
        proof {
            reveal(<ForgeModGeneric as Wire>::wire);
        }
        self.format_version.encode(out);
        let ghost done = u32::wire(self@.format_version);
        self.kind.encode(out);
        proof {
            lemma_concat_assoc(old(out)@, done, String::wire(self@.kind));
        }
    }

    fn decode(b: &[u8], pos: usize) -> (res: Option<(Self, usize)>) {
        proof {
            reveal(<ForgeModGeneric as Wire>::read);
        }
        let (format_version, pos): (u32, usize) = u32::decode(b, pos)?;
        let (kind, pos): (String, usize) = String::decode(b, pos)?;
        Some((ForgeModGeneric { format_version, kind }, pos))
    }

    proof fn lemma_read_wire(v: ForgeModGenericView, rest: Seq<u8>) {
        reveal(<ForgeModGeneric as Wire>::read);
        reveal(<ForgeModGeneric as Wire>::wire);
        let after_format_version = String::wire(v.kind) + rest;
        let done = u32::wire(v.format_version);
        lemma_concat_assoc(done, String::wire(v.kind), rest);
        u32::lemma_read_wire(v.format_version, after_format_version);
        String::lemma_read_wire(v.kind, rest);
    }
}

/// What reading the start of a compressed stream yields.
pub open spec fn peeked(stream: Seq<u8>) -> Result<ForgeModGenericView, ForgeError> {
    match xz_unpacked(stream) {
        None => Err(ForgeError::Compression),
        Some(raw) => match ForgeModGeneric::read(raw) {
            Some((head, rest)) => Ok(head),
            None => Err(ForgeError::Decode),
        },
    }
}

impl ForgeModGeneric {
    /// Reads the version and the kind that `raw`, the uncompressed bytes of an
    /// envelope, starts with. What follows them is not looked at.
    pub fn from_raw(raw: &[u8]) -> (res: Result<Self, ForgeError>)
        ensures
            match res {
                Ok(head) => ForgeModGeneric::read(raw@) matches Some((h, rest)) && h == head@,
                Err(e) => e == ForgeError::Decode && ForgeModGeneric::read(raw@) is None,
            },
    {
        assert(raw@.skip(0) =~= raw@);
        match ForgeModGeneric::decode(raw, 0) {
            Some((head, next)) => Ok(head),
            None => Err(ForgeError::Decode),
        }
    }

    /// Reads the version and the kind of the envelope that `bytes` holds,
    /// without reading the envelope itself.
    pub fn from_bytes(bytes: &[u8]) -> (res: Result<Self, ForgeError>)
        ensures
            match res {
                Ok(head) => peeked(bytes@) == Ok::<ForgeModGenericView, ForgeError>(head@),
                Err(e) => peeked(bytes@) == Err::<ForgeModGenericView, ForgeError>(e),
            },
    {
        match xz_decompress(bytes) {
            None => Err(ForgeError::Compression),
            Some(raw) => ForgeModGeneric::from_raw(raw.as_slice()),
        }
    }

    /// The generation of the format that the envelope follows.
    pub fn format_version(&self) -> (n: u32)
        ensures
            n == self@.format_version,
    {
        self.format_version
    }

    /// The kind of package, as text.
    pub fn kind(&self) -> (kind: &str)
        ensures
            kind@ == self@.kind,
    {
        self.kind.as_str()
    }
}

/// The value of an envelope: what it declares, its manifest and its payload.
pub struct ForgeModView<C, D> {
    pub format_version: u32,
    pub kind: Seq<char>,
    pub manifest: ManifestView<C>,
    pub data: D,
}

impl<C, D> ForgeModView<C, D> {
    /// What the envelope starts with.
    pub open spec fn head(self) -> ForgeModGenericView {
        ForgeModGenericView { format_version: self.format_version, kind: self.kind }
    }
}

/// A packaged mod: a manifest with the payload of its package. What it declares
/// always agrees with its type: the format version is that of `Version`, and
/// the kind is that of `Comp` and of `Inner`.
#[derive(Debug, PartialEq)]
pub struct ForgeMod<Version: ManifestVersion, Comp: ManifestComponent, Inner: ForgeModData> {
    format_version: u32,
    kind: String,
    manifest: ForgeManifestSafe<Comp, Version>,
    data: Inner,
    _marker: PhantomData<Version>,
}

impl<Version: ManifestVersion, Comp: ManifestComponent, Inner: ForgeModData> View for ForgeMod<
    Version,
    Comp,
    Inner,
> {
    type V = ForgeModView<Comp::Model, Inner::Model>;

    closed spec fn view(&self) -> ForgeModView<Comp::Model, Inner::Model> {
        ForgeModView {
            format_version: self.format_version,
            kind: self.kind@,
            manifest: self.manifest@,
            data: self.data.model(),
        }
    }
}

/// Whether what an envelope declares agrees with its type.
pub open spec fn stamped<Version: ManifestVersion, Comp: ManifestComponent, Inner: ForgeModData>(
    e: ForgeModView<Comp::Model, Inner::Model>,
) -> bool {
    &&& e.format_version == Version::number()
    &&& e.kind == Comp::kind().envelope_tag()
    &&& Inner::kind() == Comp::kind()
}

/// Whether an envelope is well formed: what it declares agrees with its type,
/// and each of its parts is well formed.
pub open spec fn wf_envelope<Version: ManifestVersion, Comp: ManifestComponent, Inner: ForgeModData>(
    e: ForgeModView<Comp::Model, Inner::Model>,
) -> bool {
    &&& stamped::<Version, Comp, Inner>(e)
    &&& ForgeModGeneric::wf(e.head())
    &&& ForgeManifestSafe::<Comp, Version>::wf(e.manifest)
    &&& Inner::wf(e.data)
}

/// The uncompressed bytes of an envelope: what it declares, then its manifest,
/// then its payload.
#[verifier::opaque]
pub open spec fn wire_envelope<Version: ManifestVersion, Comp: ManifestComponent, Inner: ForgeModData>(
    e: ForgeModView<Comp::Model, Inner::Model>,
) -> Seq<u8> {
    ForgeModGeneric::wire(e.head()) + (ForgeManifestSafe::<Comp, Version>::wire(e.manifest)
        + Inner::wire(e.data))
}

/// Reads an envelope from `raw`. The version and the kind come first: where
/// they are not those of `Version`, `Comp` and `Inner`, nothing more is read.
/// Then come the manifest and the payload, after which no byte may be left.
#[verifier::opaque]
pub open spec fn read_envelope<
    Version: ManifestVersion,
    Comp: ManifestComponent,
    Inner: ForgeModData,
>(raw: Seq<u8>) -> Option<ForgeModView<Comp::Model, Inner::Model>> {
    match ForgeModGeneric::read(raw) {
        Some((head, r1)) => if head.format_version == Version::number() && head.kind
            == Comp::kind().envelope_tag() && Inner::kind() == Comp::kind() {
            match ForgeManifestSafe::<Comp, Version>::read(r1) {
                Some((manifest, r2)) => match Inner::read(r2) {
                    Some((data, r3)) => if r3.len() == 0 {
                        Some(
                            ForgeModView {
                                format_version: head.format_version,
                                kind: head.kind,
                                manifest,
                                data,
                            },
                        )
                    } else {
                        None
                    },
                    None => None,
                },
                None => None,
            }
        } else {
            None
        },
        None => None,
    }
}

/// What reading a compressed stream as an envelope yields.
pub open spec fn unpacked<Version: ManifestVersion, Comp: ManifestComponent, Inner: ForgeModData>(
    stream: Seq<u8>,
) -> Result<ForgeModView<Comp::Model, Inner::Model>, ForgeError> {
    match xz_unpacked(stream) {
        None => Err(ForgeError::Compression),
        Some(raw) => match read_envelope::<Version, Comp, Inner>(raw) {
            Some(e) => Ok(e),
            None => Err(ForgeError::Decode),
        },
    }
}

/// Reading the bytes of a well-formed envelope gives the envelope back, and
/// reading only their start gives what the envelope declares.
pub proof fn lemma_read_wire_envelope<
    Version: ManifestVersion,
    Comp: ManifestComponent,
    Inner: ForgeModData,
>(e: ForgeModView<Comp::Model, Inner::Model>)
    requires
        wf_envelope::<Version, Comp, Inner>(e),
    ensures
        read_envelope::<Version, Comp, Inner>(wire_envelope::<Version, Comp, Inner>(e)) == Some(e),
        ForgeModGeneric::read(wire_envelope::<Version, Comp, Inner>(e)) matches Some((head, rest))
            && head == e.head(),
{
    reveal(read_envelope);
    reveal(wire_envelope);
    let s3 = Seq::<u8>::empty();
    let s2 = Inner::wire(e.data) + s3;
    let s1 = ForgeManifestSafe::<Comp, Version>::wire(e.manifest) + s2;
    let s0 = ForgeModGeneric::wire(e.head()) + s1;
    assert(s2 =~= Inner::wire(e.data));
    ForgeModGeneric::lemma_read_wire(e.head(), s1);
    ForgeManifestSafe::<Comp, Version>::lemma_read_wire(e.manifest, s2);
    Inner::lemma_read_wire(e.data, s3);
}

/// Round trip: a stream that decompresses to the bytes of a well-formed
/// envelope unpacks to that envelope, and peeking into it gives what the
/// envelope declares.
pub proof fn lemma_unpack_pack<
    Version: ManifestVersion,
    Comp: ManifestComponent,
    Inner: ForgeModData,
>(e: ForgeModView<Comp::Model, Inner::Model>, stream: Seq<u8>)
    requires
        wf_envelope::<Version, Comp, Inner>(e),
    ensures
        xz_unpacked(stream) == Some(wire_envelope::<Version, Comp, Inner>(e)) ==> {
            &&& unpacked::<Version, Comp, Inner>(stream) == Ok::<
                ForgeModView<Comp::Model, Inner::Model>,
                ForgeError,
            >(e)
            &&& peeked(stream) == Ok::<ForgeModGenericView, ForgeError>(e.head())
        },
{
    lemma_read_wire_envelope::<Version, Comp, Inner>(e);
}

/// `bytes::Bytes`, a shared buffer of bytes.
#[verifier::external_type_specification]
#[verifier::external_body]
pub struct ExBytes(bytes::Bytes);

/// The bytes that a `bytes::Bytes` holds, in order.
pub uninterp spec fn bytes_contents(buffer: bytes::Bytes) -> Seq<u8>;

/// `Bytes::from` on a vector: a buffer that holds the vector's bytes.
#[verifier::external_body]
fn bytes_from_vec(bytes: Vec<u8>) -> (buffer: bytes::Bytes)
    ensures
        bytes_contents(buffer) == bytes@,
{
    bytes::Bytes::from(bytes)
}

impl<Version: ManifestVersion, Comp: ManifestComponent, Inner: ForgeModData> ForgeMod<
    Version,
    Comp,
    Inner,
> {
    #[verifier::type_invariant]
    spec fn inv(&self) -> bool {
        stamped::<Version, Comp, Inner>(self@)
    }

    /// Puts a manifest and its payload into an envelope.
    pub(crate) fn assemble(manifest: ForgeManifestSafe<Comp, Version>, data: Inner) -> (e: Self)
        requires
            Inner::kind() == Comp::kind(),
        ensures
            e@ == (ForgeModView {
                format_version: Version::number(),
                kind: Comp::kind().envelope_tag(),
                manifest: manifest@,
                data: data.model(),
            }),
    {
        ForgeMod {
            format_version: Version::format_version(),
            kind: Comp::manifest_kind().envelope_kind().to_string(),
            manifest,
            data,
            _marker: PhantomData,
        }
    }

    /// The generation of the format that the envelope follows.
    pub fn format_version(&self) -> (n: u32)
        ensures
            n == self@.format_version,
            n == Version::number(),
    {
        proof {
            use_type_invariant(self);
        }
        self.format_version
    }

    /// The kind of package, as text.
    pub fn kind(&self) -> (kind: &str)
        ensures
            kind@ == self@.kind,
            kind@ == Comp::kind().envelope_tag(),
    {
        proof {
            use_type_invariant(self);
        }
        self.kind.as_str()
    }

    /// The manifest.
    pub fn manifest(&self) -> (manifest: &ForgeManifestSafe<Comp, Version>)
        ensures
            manifest@ == self@.manifest,
    {
        &self.manifest
    }

    /// The payload.
    pub fn data(&self) -> (data: &Inner)
        ensures
            data.model() == self@.data,
    {
        &self.data
    }

    /// The uncompressed bytes of the envelope.
    pub fn to_raw(&self) -> (raw: Vec<u8>)
        ensures
            raw@ == wire_envelope::<Version, Comp, Inner>(self@),
            wf_envelope::<Version, Comp, Inner>(self@),
    {
        proof {
            use_type_invariant(self);
            reveal(wire_envelope);
        }
        let mut raw: Vec<u8> = Vec::new();
        let head = ForgeModGeneric { format_version: self.format_version, kind: self.kind.clone() };
        head.encode(&mut raw);
        self.manifest.encode(&mut raw);
        self.data.encode(&mut raw);
        proof {
            lemma_concat_assoc(
                ForgeModGeneric::wire(self@.head()),
                ForgeManifestSafe::<Comp, Version>::wire(self@.manifest),
                Inner::wire(self@.data),
            );
            assert(raw@ =~= wire_envelope::<Version, Comp, Inner>(self@));
        }
        raw
    }

    /// What `pack` returns once the compression pass has ended: the stream, or
    /// the failure of the pass.
    pub fn seal(compressed: Option<Vec<u8>>) -> (res: Result<bytes::Bytes, ForgeError>)
        ensures
            match compressed {
                Some(stream) => res matches Ok(buffer) && bytes_contents(buffer) == stream@,
                None => res matches Err(e) && e == ForgeError::Compression,
            },
    {
        match compressed {
            Some(stream) => Ok(bytes_from_vec(stream)),
            None => Err(ForgeError::Compression),
        }
    }

    /// Packs the envelope: lays it out as bytes and compresses them. Fails only
    /// where the compression pass does. The stream that comes back unpacks to
    /// this envelope, and peeking into it gives what this envelope declares.
    pub fn pack(&self) -> (res: Result<bytes::Bytes, ForgeError>)
        ensures
            wf_envelope::<Version, Comp, Inner>(self@),
            match res {
                Ok(buffer) => {
                    &&& xz_unpacked(bytes_contents(buffer)) == Some(
                        wire_envelope::<Version, Comp, Inner>(self@),
                    )
                    &&& unpacked::<Version, Comp, Inner>(bytes_contents(buffer)) == Ok::<
                        ForgeModView<Comp::Model, Inner::Model>,
                        ForgeError,
                    >(self@)
                    &&& peeked(bytes_contents(buffer)) == Ok::<ForgeModGenericView, ForgeError>(
                        self@.head(),
                    )
                },
                Err(e) => e == ForgeError::Compression,
            },
    {
        let raw = self.to_raw();
        let res = Self::seal(xz_compress(raw.as_slice()));
        proof {
            if res is Ok {
                lemma_unpack_pack::<Version, Comp, Inner>(self@, bytes_contents(res.unwrap()));
            }
        }
        res
    }

    /// Reads an envelope of this kind from `raw`, its uncompressed bytes.
    pub fn from_raw(raw: &[u8]) -> (res: Result<Self, ForgeError>)
        ensures
            match res {
                Ok(e) => read_envelope::<Version, Comp, Inner>(raw@) == Some(e@),
                Err(e) => e == ForgeError::Decode && read_envelope::<Version, Comp, Inner>(raw@)
                    is None,
            },
    {
        proof {
            reveal(read_envelope);
            assert(raw@.skip(0) =~= raw@);
        }
        let (head, pos): (ForgeModGeneric, usize) = match ForgeModGeneric::decode(raw, 0) {
            Some(found) => found,
            None => { return Err(ForgeError::Decode); },
        };
        if head.format_version != Version::format_version() {
            return Err(ForgeError::Decode);
        }
        if !text_eq(head.kind.as_str(), Comp::manifest_kind().envelope_kind()) {
            return Err(ForgeError::Decode);
        }
        if Inner::data_kind() != Comp::manifest_kind() {
            return Err(ForgeError::Decode);
        }
        let (manifest, pos): (ForgeManifestSafe<Comp, Version>, usize) = match ForgeManifestSafe::<
            Comp,
            Version,
        >::decode(raw, pos) {
            Some(found) => found,
            None => { return Err(ForgeError::Decode); },
        };
        let (data, pos): (Inner, usize) = match Inner::decode(raw, pos) {
            Some(found) => found,
            None => { return Err(ForgeError::Decode); },
        };
        if pos != raw.len() {
            return Err(ForgeError::Decode);
        }
        Ok(
            ForgeMod {
                format_version: head.format_version,
                kind: head.kind,
                manifest,
                data,
                _marker: PhantomData,
            },
        )
    }

    /// Unpacks an envelope of this kind from `bytes`: decompresses them, then
    /// reads the envelope. Fails with `Compression` where `bytes` are no whole
    /// XZ stream, and with `Decode` where what they hold is not an envelope of
    /// this version and kind.
    pub fn from_bytes(bytes: &[u8]) -> (res: Result<Self, ForgeError>)
        ensures
            match res {
                Ok(e) => unpacked::<Version, Comp, Inner>(bytes@) == Ok::<
                    ForgeModView<Comp::Model, Inner::Model>,
                    ForgeError,
                >(e@),
                Err(e) => unpacked::<Version, Comp, Inner>(bytes@) == Err::<
                    ForgeModView<Comp::Model, Inner::Model>,
                    ForgeError,
                >(e),
            },
    {
        match xz_decompress(bytes) {
            None => Err(ForgeError::Compression),
            Some(raw) => Self::from_raw(raw.as_slice()),
        }
    }
}

impl<
    Version: ManifestVersion,
    Comp: ManifestComponent + Clone,
    Inner: ForgeModData + Clone,
> Clone for ForgeMod<Version, Comp, Inner> {
    fn clone(&self) -> (copy: Self)
        ensures
            copy@.head() == self@.head(),
            copy@.manifest.id == self@.manifest.id,
            copy@.manifest.manifest_version == self@.manifest.manifest_version,
            copy@.manifest.manifest_type == self@.manifest.manifest_type,
    {
        proof {
            use_type_invariant(self);
        }
        ForgeMod {
            format_version: self.format_version,
            kind: self.kind.clone(),
            manifest: self.manifest.clone(),
            data: self.data.clone(),
            _marker: PhantomData,
        }
    }
}

} // verus!
