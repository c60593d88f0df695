//! The outer record of a manifest, shared by every kind of package and every
//! generation of the schema.

use core::marker::PhantomData;
use vstd::prelude::*;
use crate::structs::v1::ManifestTypes;
use crate::wire::{lemma_concat_assoc, Wire};

verus! {

/// A generation of the manifest schema.
pub trait ManifestVersion: Sized {
    /// The number that marks this generation in a manifest and in an envelope.
    spec fn number() -> u32;

    /// The number that marks this generation.
    fn format_version() -> (n: u32)
        ensures
            n == Self::number(),
    ;
}

/// The part of a manifest that belongs to one kind of package.
pub trait ManifestComponent: Wire {
    /// The kind of package that this part describes.
    spec fn kind() -> ManifestTypes;

    /// The kind of package that this part describes.
    fn manifest_kind() -> (kind: ManifestTypes)
        ensures
            kind == Self::kind(),
    ;
}

/// The value of a manifest: its identity, the generation and kind it declares,
/// and the part that belongs to its kind.
pub struct ManifestView<C> {
    pub id: Seq<char>,
    pub manifest_version: u32,
    pub manifest_type: Seq<char>,
    pub inner: C,
}

/// A manifest as its author wrote it. Once built it does not change: its
/// fields can be read and nothing else.
#[derive(Debug, PartialEq)]
pub struct ForgeManifest<Inner: ManifestComponent, Version: ManifestVersion> {
    _id: String,
    manifest_version: u32,
    _type: String,
    inner: Inner,
    _marker: PhantomData<Version>,
}

/// A manifest as an envelope carries it. Once built it does not change: its
/// fields can be read and nothing else.
#[derive(Debug, PartialEq)]
pub struct ForgeManifestSafe<Inner: ManifestComponent, Version: ManifestVersion> {
    _id: String,
    manifest_version: u32,
    _type: String,
    inner: Inner,
    _marker: PhantomData<Version>,
}

/// What every manifest states, whatever its kind: enough to choose how to read
/// the rest.
#[derive(Debug, Clone, PartialEq)]
pub struct ForgeManifestGeneric {
    /// The package's identifier.
    pub _id: String,
    /// The generation of the schema that the manifest follows.
    pub manifest_version: u32,
    /// The kind of package, as text.
    pub _type: String,
}

impl<Inner: ManifestComponent, Version: ManifestVersion> View for ForgeManifest<Inner, Version> {
    type V = ManifestView<Inner::Model>;

    closed spec fn view(&self) -> ManifestView<Inner::Model> {
        ManifestView {
            id: self._id@,
            manifest_version: self.manifest_version,
            manifest_type: self._type@,
            inner: self.inner.model(),
        }
    }
}

impl<Inner: ManifestComponent, Version: ManifestVersion> View for ForgeManifestSafe<
    Inner,
    Version,
> {
    type V = ManifestView<Inner::Model>;

    closed spec fn view(&self) -> ManifestView<Inner::Model> {
        ManifestView {
            id: self._id@,
            manifest_version: self.manifest_version,
            manifest_type: self._type@,
            inner: self.inner.model(),
        }
    }
}

impl<Inner: ManifestComponent, Version: ManifestVersion> ForgeManifest<Inner, Version> {
    /// Puts a manifest together from its parts.
    pub(crate) fn assemble(
        id: String,
        manifest_version: u32,
        manifest_type: String,
        inner: Inner,
    ) -> (m: Self)
        ensures
            m@ == (ManifestView {
                id: id@,
                manifest_version,
                manifest_type: manifest_type@,
                inner: inner.model(),
            }),
    {
        ForgeManifest { _id: id, manifest_version, _type: manifest_type, inner, _marker: PhantomData }
    }

    /// The package's identifier, derived from its name.
    pub fn id(&self) -> (id: &str)
        ensures
            id@ == self@.id,
    {
        self._id.as_str()
    }

    /// The generation of the schema that the manifest follows.
    pub fn manifest_version(&self) -> (n: u32)
        ensures
            n == self@.manifest_version,
    {
        self.manifest_version
    }

    /// The kind of package, as text.
    pub fn manifest_type(&self) -> (kind: &str)
        ensures
            kind@ == self@.manifest_type,
    {
        self._type.as_str()
    }

    /// The fields that belong to this kind of package.
    pub fn inner(&self) -> (inner: &Inner)
        ensures
            inner.model() == self@.inner,
    {
        &self.inner
    }

    /// The same manifest, as an envelope carries it.
    pub fn into_safe(self) -> (safe: ForgeManifestSafe<Inner, Version>)
        ensures
            safe@ == self@,
    {
        ForgeManifestSafe::from(self)
    }
}

impl<Inner: ManifestComponent, Version: ManifestVersion> ForgeManifestSafe<Inner, Version> {
    /// The package's identifier, derived from its name.
    pub fn id(&self) -> (id: &str)
        ensures
            id@ == self@.id,
    {
        self._id.as_str()
    }

    /// The generation of the schema that the manifest follows.
    pub fn manifest_version(&self) -> (n: u32)
        ensures
            n == self@.manifest_version,
    {
        self.manifest_version
    }

    /// The kind of package, as text.
    pub fn manifest_type(&self) -> (kind: &str)
        ensures
            kind@ == self@.manifest_type,
    {
        self._type.as_str()
    }

    /// The fields that belong to this kind of package.
    pub fn inner(&self) -> (inner: &Inner)
        ensures
            inner.model() == self@.inner,
    {
        &self.inner
    }
}

impl<Inner: ManifestComponent + Clone, Version: ManifestVersion> Clone for ForgeManifest<
    Inner,
    Version,
> {
    fn clone(&self) -> (copy: Self)
        ensures
            copy@.id == self@.id,
            copy@.manifest_version == self@.manifest_version,
            copy@.manifest_type == self@.manifest_type,
    {
        ForgeManifest {
            _id: self._id.clone(),
            manifest_version: self.manifest_version,
            _type: self._type.clone(),
            inner: self.inner.clone(),
            _marker: PhantomData,
        }
    }
}

impl<Inner: ManifestComponent + Clone, Version: ManifestVersion> Clone for ForgeManifestSafe<
    Inner,
    Version,
> {
    fn clone(&self) -> (copy: Self)
        ensures
            copy@.id == self@.id,
            copy@.manifest_version == self@.manifest_version,
            copy@.manifest_type == self@.manifest_type,
    {
        ForgeManifestSafe {
            _id: self._id.clone(),
            manifest_version: self.manifest_version,
            _type: self._type.clone(),
            inner: self.inner.clone(),
            _marker: PhantomData,
        }
    }
}

impl<Inner: ManifestComponent, Version: ManifestVersion> From<
    ForgeManifest<Inner, Version>,
> for ForgeManifestSafe<Inner, Version> {
    fn from(manifest: ForgeManifest<Inner, Version>) -> (safe: Self) {
        Self {
            _id: manifest._id,
            manifest_version: manifest.manifest_version,
            _type: manifest._type,
            inner: manifest.inner,
            _marker: PhantomData,
        }
    }
}

impl<Inner: ManifestComponent, Version: ManifestVersion> vstd::std_specs::convert::FromSpecImpl<
    ForgeManifest<Inner, Version>,
> for ForgeManifestSafe<Inner, Version> {
    open spec fn obeys_from_spec() -> bool {
        true
    }

    closed spec fn from_spec(manifest: ForgeManifest<Inner, Version>) -> Self {
        ForgeManifestSafe {
            _id: manifest._id,
            manifest_version: manifest.manifest_version,
            _type: manifest._type,
            inner: manifest.inner,
            _marker: PhantomData,
        }
    }
}

/// A manifest that is made for an envelope has the value of the manifest it is
/// made from.
pub proof fn lemma_from_keeps_value<Inner: ManifestComponent, Version: ManifestVersion>(
    manifest: ForgeManifest<Inner, Version>,
)
    ensures
        <ForgeManifestSafe<Inner, Version> as vstd::std_specs::convert::FromSpec<
            ForgeManifest<Inner, Version>,
        >>::from_spec(manifest)@ == manifest@,
{
}

/// The bytes of a manifest: its identifier, its generation, its kind, then the
/// fields of its kind.
#[verifier::opaque]
pub open spec fn wire_manifest<C: ManifestComponent>(m: ManifestView<C::Model>) -> Seq<u8> {
    String::wire(m.id) + u32::wire(m.manifest_version) + String::wire(m.manifest_type) + C::wire(
        m.inner,
    )
}

/// Whether a manifest is well formed: each of its parts is.
pub open spec fn wf_manifest<C: ManifestComponent>(m: ManifestView<C::Model>) -> bool {
    &&& String::wf(m.id)
    &&& String::wf(m.manifest_type)
    &&& C::wf(m.inner)
}

/// Reads a manifest from the front of `b`.
#[verifier::opaque]
pub open spec fn read_manifest<C: ManifestComponent>(b: Seq<u8>) -> Option<
    (ManifestView<C::Model>, Seq<u8>),
> {
    match String::read(b) {
        Some((id, r1)) => match u32::read(r1) {
            Some((manifest_version, r2)) => match String::read(r2) {
                Some((manifest_type, r3)) => match C::read(r3) {
                    Some((inner, r4)) => Some(
                        (ManifestView { id, manifest_version, manifest_type, inner }, r4),
                    ),
                    None => None,
                },
                None => None,
            },
            None => None,
        },
        None => None,
    }
}

impl<Inner: ManifestComponent, Version: ManifestVersion> Wire for ForgeManifestSafe<
    Inner,
    Version,
> {
    type Model = ManifestView<Inner::Model>;

    open spec fn model(&self) -> ManifestView<Inner::Model> {
        self@
    }

    open spec fn wf(v: ManifestView<Inner::Model>) -> bool {
        wf_manifest::<Inner>(v)
    }

    open spec fn wire(v: ManifestView<Inner::Model>) -> Seq<u8> {
        wire_manifest::<Inner>(v)
    }

    open spec fn read(b: Seq<u8>) -> Option<(ManifestView<Inner::Model>, Seq<u8>)> {
        read_manifest::<Inner>(b)
    }

    fn encode(&self, out: &mut Vec<u8>) {
        proof {
            reveal(wire_manifest);
        }
        self._id.encode(out);
        let ghost l1 = String::wire(self@.id);
        self.manifest_version.encode(out);
        proof {
            lemma_concat_assoc(old(out)@, l1, u32::wire(self@.manifest_version));
        }
        let ghost l2 = l1 + u32::wire(self@.manifest_version);
        self._type.encode(out);
        proof {
            lemma_concat_assoc(old(out)@, l2, String::wire(self@.manifest_type));
        }
        let ghost l3 = l2 + String::wire(self@.manifest_type);
        self.inner.encode(out);
        proof {
            lemma_concat_assoc(old(out)@, l3, Inner::wire(self@.inner));
        }
    }

    fn decode(b: &[u8], pos: usize) -> (res: Option<(Self, usize)>) {
        proof {
            reveal(read_manifest);
        }
        let (_id, pos): (String, usize) = String::decode(b, pos)?;
        let (manifest_version, pos): (u32, usize) = u32::decode(b, pos)?;
        let (_type, pos): (String, usize) = String::decode(b, pos)?;
        let (inner, pos): (Inner, usize) = Inner::decode(b, pos)?;
        Some((ForgeManifestSafe { _id, manifest_version, _type, inner, _marker: PhantomData }, pos))
    }

    proof fn lemma_read_wire(v: ManifestView<Inner::Model>, rest: Seq<u8>) {
        reveal(read_manifest);
        reveal(wire_manifest);
        let s4 = rest;
        let s3 = Inner::wire(v.inner) + s4;
        let s2 = String::wire(v.manifest_type) + s3;
        let s1 = u32::wire(v.manifest_version) + s2;
        let s0 = String::wire(v.id) + s1;
        let l1 = String::wire(v.id);
        let l2 = l1 + u32::wire(v.manifest_version);
        lemma_concat_assoc(l1, u32::wire(v.manifest_version), s2);
        let l3 = l2 + String::wire(v.manifest_type);
        lemma_concat_assoc(l2, String::wire(v.manifest_type), s3);
        lemma_concat_assoc(l3, Inner::wire(v.inner), s4);
        String::lemma_read_wire(v.id, s1);
        u32::lemma_read_wire(v.manifest_version, s2);
        String::lemma_read_wire(v.manifest_type, s3);
        Inner::lemma_read_wire(v.inner, s4);
    }
}

} // verus!
