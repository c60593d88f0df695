//! Semantic versions and version constraints, as the package format carries
//! them.
//!
//! A manifest states its own version and the versions of the game and of other
//! packages that it works with. This crate stores and transports those values;
//! it never evaluates a constraint against a version.

use vstd::prelude::*;
use crate::wire::{lemma_concat_assoc, models, Wire};

verus! {

/// A semantic version: three numbers, then an optional pre-release tag and
/// optional build metadata, each empty when absent.
#[derive(Debug, Clone, PartialEq, Eq)]
pub struct Version {
    /// Incompatible changes.
    pub major: u64,
    /// Compatible additions.
    pub minor: u64,
    /// Fixes.
    pub patch: u64,
    /// The pre-release tag, without its leading hyphen.
    pub pre: String,
    /// The build metadata, without its leading plus sign.
    pub build: String,
}

/// The value of a [`Version`].
pub struct VersionView {
    pub major: u64,
    pub minor: u64,
    pub patch: u64,
    pub pre: Seq<char>,
    pub build: Seq<char>,
}

impl View for Version {
    type V = VersionView;

    open spec fn view(&self) -> VersionView {
        VersionView {
            major: self.major,
            minor: self.minor,
            patch: self.patch,
            pre: self.pre@,
            build: self.build@,
        }
    }
}

impl Wire for Version {
    type Model = VersionView;

    open spec fn model(&self) -> VersionView {
        self@
    }

    open spec fn wf(v: VersionView) -> bool {
        &&& String::wf(v.pre)
        &&& String::wf(v.build)
    }

    #[verifier::opaque]
    open spec fn wire(v: VersionView) -> Seq<u8> {
        u64::wire(v.major)
            + u64::wire(v.minor)
            + u64::wire(v.patch)
            + String::wire(v.pre)
            + String::wire(v.build)
    }

    #[verifier::opaque]
    open spec fn read(b: Seq<u8>) -> Option<(VersionView, Seq<u8>)> {
        match u64::read(b) {
            Some((major, r1)) => match u64::read(r1) {
                Some((minor, r2)) => match u64::read(r2) {
                    Some((patch, r3)) => match String::read(r3) {
                        Some((pre, r4)) => match String::read(r4) {
                            Some((build, r5)) => Some(
                                (
                                    VersionView {
                                        major,
                                        minor,
                                        patch,
                                        pre,
                                        build,
                                    },
                                    r5,
                                ),
                            ),
                            None => None,
                        },
                        None => None,
                    },
                    None => None,
                },
                None => None,
            },
            None => None,
        }
    }

    fn encode(&self, out: &mut Vec<u8>) {
        proof {
            reveal(<Version as Wire>::wire);
        }
        self.major.encode(out);
        let ghost done = u64::wire(self@.major);
        self.minor.encode(out);
        proof {
            lemma_concat_assoc(old(out)@, done, u64::wire(self@.minor));
        }
        let ghost done = done + u64::wire(self@.minor);
        self.patch.encode(out);
        proof {
            lemma_concat_assoc(old(out)@, done, u64::wire(self@.patch));
        }
        let ghost done = done + u64::wire(self@.patch);
        self.pre.encode(out);
        proof {
            lemma_concat_assoc(old(out)@, done, String::wire(self@.pre));
        }
        let ghost done = done + String::wire(self@.pre);
        self.build.encode(out);
        proof {
            lemma_concat_assoc(old(out)@, done, String::wire(self@.build));
        }
    }

    fn decode(b: &[u8], pos: usize) -> (res: Option<(Self, usize)>) {
        proof {
            reveal(<Version as Wire>::read);
        }
        let (major, pos): (u64, usize) = u64::decode(b, pos)?;
        let (minor, pos): (u64, usize) = u64::decode(b, pos)?;
        let (patch, pos): (u64, usize) = u64::decode(b, pos)?;
        let (pre, pos): (String, usize) = String::decode(b, pos)?;
        let (build, pos): (String, usize) = String::decode(b, pos)?;
        Some((Version { major, minor, patch, pre, build }, pos))
    }

    proof fn lemma_read_wire(v: VersionView, rest: Seq<u8>) {
        reveal(<Version as Wire>::read);
        reveal(<Version as Wire>::wire);
        let after_pre = String::wire(v.build) + rest;
        let after_patch = String::wire(v.pre) + after_pre;
        let after_minor = u64::wire(v.patch) + after_patch;
        let after_major = u64::wire(v.minor) + after_minor;
        let done = u64::wire(v.major);
        lemma_concat_assoc(done, u64::wire(v.minor), after_minor);
        let done = done + u64::wire(v.minor);
        lemma_concat_assoc(done, u64::wire(v.patch), after_patch);
        let done = done + u64::wire(v.patch);
        lemma_concat_assoc(done, String::wire(v.pre), after_pre);
        let done = done + String::wire(v.pre);
        lemma_concat_assoc(done, String::wire(v.build), rest);
        u64::lemma_read_wire(v.major, after_major);
        u64::lemma_read_wire(v.minor, after_minor);
        u64::lemma_read_wire(v.patch, after_patch);
        String::lemma_read_wire(v.pre, after_pre);
        String::lemma_read_wire(v.build, rest);
    }
}

impl Version {
    /// The version `major.minor.patch`, with no pre-release tag and no build
    /// metadata.
    pub fn new(major: u64, minor: u64, patch: u64) -> (v: Version)
        ensures
            v@ == (VersionView { major, minor, patch, pre: Seq::empty(), build: Seq::empty() }),
    {
        Version { major, minor, patch, pre: String::new(), build: String::new() }
    }
}

/// How a comparator relates a version to the numbers it names.
#[derive(Debug, Clone, Copy, PartialEq, Eq, Structural)]
pub enum Op {
    /// `=`
    Exact,
    /// `>`
    Greater,
    /// `>=`
    GreaterEq,
    /// `<`
    Less,
    /// `<=`
    LessEq,
    /// `~`
    Tilde,
    /// `^`
    Caret,
    /// `*`
    Wildcard,
}

impl Op {
    /// The number that stands for an operator in the binary layout.
    pub open spec fn code(self) -> u32 {
        match self {
            Op::Exact => 0,
            Op::Greater => 1,
            Op::GreaterEq => 2,
            Op::Less => 3,
            Op::LessEq => 4,
            Op::Tilde => 5,
            Op::Caret => 6,
            Op::Wildcard => 7,
        }
    }

    /// The operator that a number stands for, if any.
    pub open spec fn of_code(code: u32) -> Option<Op> {
        if code == 0 {
            Some(Op::Exact)
        } else if code == 1 {
            Some(Op::Greater)
        } else if code == 2 {
            Some(Op::GreaterEq)
        } else if code == 3 {
            Some(Op::Less)
        } else if code == 4 {
            Some(Op::LessEq)
        } else if code == 5 {
            Some(Op::Tilde)
        } else if code == 6 {
            Some(Op::Caret)
        } else if code == 7 {
            Some(Op::Wildcard)
        } else {
            None
        }
    }

    /// The number that stands for `self` in the binary layout.
    pub fn to_code(self) -> (code: u32)
        ensures
            code == self.code(),
            Op::of_code(code) == Some(self),
    {
        match self {
            Op::Exact => 0,
            Op::Greater => 1,
            Op::GreaterEq => 2,
            Op::Less => 3,
            Op::LessEq => 4,
            Op::Tilde => 5,
            Op::Caret => 6,
            Op::Wildcard => 7,
        }
    }

    /// The operator that `code` stands for; `None` where it stands for none.
    pub fn from_code(code: u32) -> (op: Option<Op>)
        ensures
            op == Op::of_code(code),
    {
        match code {
            0 => Some(Op::Exact),
            1 => Some(Op::Greater),
            2 => Some(Op::GreaterEq),
            3 => Some(Op::Less),
            4 => Some(Op::LessEq),
            5 => Some(Op::Tilde),
            6 => Some(Op::Caret),
            7 => Some(Op::Wildcard),
            _ => None,
        }
    }
}

impl Wire for Op {
    type Model = Op;

    open spec fn model(&self) -> Op {
        *self
    }

    open spec fn wf(v: Op) -> bool {
        true
    }

    #[verifier::opaque]
    open spec fn wire(v: Op) -> Seq<u8> {
        u32::wire(v.code())
    }

    #[verifier::opaque]
    open spec fn read(b: Seq<u8>) -> Option<(Op, Seq<u8>)> {
        match u32::read(b) {
            Some((code, r)) => match Op::of_code(code) {
                Some(op) => Some((op, r)),
                None => None,
            },
            None => None,
        }
    }

    fn encode(&self, out: &mut Vec<u8>) {
        proof {
            reveal(<Op as Wire>::wire);
        }
        self.to_code().encode(out);
    }

    fn decode(b: &[u8], pos: usize) -> (res: Option<(Self, usize)>) {
        proof {
            reveal(<Op as Wire>::read);
        }
        let (code, next): (u32, usize) = u32::decode(b, pos)?;
        let op = Op::from_code(code)?;
        Some((op, next))
    }

    proof fn lemma_read_wire(v: Op, rest: Seq<u8>) {
        reveal(<Op as Wire>::read);
        reveal(<Op as Wire>::wire);
        u32::lemma_read_wire(v.code(), rest);
    }
}

/// One clause of a version constraint: an operator and the version numbers it
/// applies to. `minor` and `patch` may be left out, as in `>=1` or `~1.2`.
#[derive(Debug, Clone, PartialEq, Eq)]
pub struct Comparator {
    /// How a version is compared with the numbers.
    pub op: Op,
    /// The major number.
    pub major: u64,
    /// The minor number, if given.
    pub minor: Option<u64>,
    /// The patch number, if given.
    pub patch: Option<u64>,
    /// The pre-release tag, empty when absent.
    pub pre: String,
}

/// The value of a [`Comparator`].
pub struct ComparatorView {
    pub op: Op,
    pub major: u64,
    pub minor: Option<u64>,
    pub patch: Option<u64>,
    pub pre: Seq<char>,
}

impl View for Comparator {
    type V = ComparatorView;

    open spec fn view(&self) -> ComparatorView {
        ComparatorView {
            op: self.op,
            major: self.major,
            minor: self.minor,
            patch: self.patch,
            pre: self.pre@,
        }
    }
}

impl Wire for Comparator {
    type Model = ComparatorView;

    open spec fn model(&self) -> ComparatorView {
        self@
    }

    open spec fn wf(v: ComparatorView) -> bool {
        String::wf(v.pre)
    }

    #[verifier::opaque]
    open spec fn wire(v: ComparatorView) -> Seq<u8> {
        Op::wire(v.op)
            + u64::wire(v.major)
            + Option::<u64>::wire(v.minor)
            + Option::<u64>::wire(v.patch)
            + String::wire(v.pre)
    }

    #[verifier::opaque]
    open spec fn read(b: Seq<u8>) -> Option<(ComparatorView, Seq<u8>)> {
        match Op::read(b) {
            Some((op, r1)) => match u64::read(r1) {
                Some((major, r2)) => match Option::<u64>::read(r2) {
                    Some((minor, r3)) => match Option::<u64>::read(r3) {
                        Some((patch, r4)) => match String::read(r4) {
                            Some((pre, r5)) => Some(
                                (
                                    ComparatorView {
                                        op,
                                        major,
                                        minor,
                                        patch,
                                        pre,
                                    },
                                    r5,
                                ),
                            ),
                            None => None,
                        },
                        None => None,
                    },
                    None => None,
                },
                None => None,
            },
            None => None,
        }
    }

    fn encode(&self, out: &mut Vec<u8>) {
        proof {
            reveal(<Comparator as Wire>::wire);
        }
        self.op.encode(out);
        let ghost done = Op::wire(self@.op);
        self.major.encode(out);
        proof {
            lemma_concat_assoc(old(out)@, done, u64::wire(self@.major));
        }
        let ghost done = done + u64::wire(self@.major);
        self.minor.encode(out);
        proof {
            lemma_concat_assoc(old(out)@, done, Option::<u64>::wire(self@.minor));
        }
        let ghost done = done + Option::<u64>::wire(self@.minor);
        self.patch.encode(out);
        proof {
            lemma_concat_assoc(old(out)@, done, Option::<u64>::wire(self@.patch));
        }
        let ghost done = done + Option::<u64>::wire(self@.patch);
        self.pre.encode(out);
        proof {
            lemma_concat_assoc(old(out)@, done, String::wire(self@.pre));
        }
    }

    fn decode(b: &[u8], pos: usize) -> (res: Option<(Self, usize)>) {
        proof {
            reveal(<Comparator as Wire>::read);
        }
        let (op, pos): (Op, usize) = Op::decode(b, pos)?;
        let (major, pos): (u64, usize) = u64::decode(b, pos)?;
        let (minor, pos): (Option<u64>, usize) = Option::<u64>::decode(b, pos)?;
        let (patch, pos): (Option<u64>, usize) = Option::<u64>::decode(b, pos)?;
        let (pre, pos): (String, usize) = String::decode(b, pos)?;
        Some((Comparator { op, major, minor, patch, pre }, pos))
    }

    proof fn lemma_read_wire(v: ComparatorView, rest: Seq<u8>) {
        reveal(<Comparator as Wire>::read);
        reveal(<Comparator as Wire>::wire);
        let after_patch = String::wire(v.pre) + rest;
        let after_minor = Option::<u64>::wire(v.patch) + after_patch;
        let after_major = Option::<u64>::wire(v.minor) + after_minor;
        let after_op = u64::wire(v.major) + after_major;
        let done = Op::wire(v.op);
        lemma_concat_assoc(done, u64::wire(v.major), after_major);
        let done = done + u64::wire(v.major);
        lemma_concat_assoc(done, Option::<u64>::wire(v.minor), after_minor);
        let done = done + Option::<u64>::wire(v.minor);
        lemma_concat_assoc(done, Option::<u64>::wire(v.patch), after_patch);
        let done = done + Option::<u64>::wire(v.patch);
        lemma_concat_assoc(done, String::wire(v.pre), rest);
        Op::lemma_read_wire(v.op, after_op);
        u64::lemma_read_wire(v.major, after_major);
        Option::<u64>::lemma_read_wire(v.minor, after_minor);
        Option::<u64>::lemma_read_wire(v.patch, after_patch);
        String::lemma_read_wire(v.pre, rest);
    }
}

/// A version constraint: a list of comparators, all of which a version has to
/// meet. The constraint with no comparator is written `*`.
#[derive(Debug, Clone, PartialEq, Eq)]
pub struct Requirement {
    /// The clauses, in the order in which they were written.
    pub comparators: Vec<Comparator>,
}

/// The value of a [`Requirement`].
pub struct RequirementView {
    pub comparators: Seq<ComparatorView>,
}

impl View for Requirement {
    type V = RequirementView;

    open spec fn view(&self) -> RequirementView {
        RequirementView {
            comparators: self.comparators.model(),
        }
    }
}

impl Wire for Requirement {
    type Model = RequirementView;

    open spec fn model(&self) -> RequirementView {
        self@
    }

    open spec fn wf(v: RequirementView) -> bool {
        Vec::<Comparator>::wf(v.comparators)
    }

    #[verifier::opaque]
    open spec fn wire(v: RequirementView) -> Seq<u8> {
        Vec::<Comparator>::wire(v.comparators)
    }

    #[verifier::opaque]
    open spec fn read(b: Seq<u8>) -> Option<(RequirementView, Seq<u8>)> {
        match Vec::<Comparator>::read(b) {
            Some((comparators, r1)) => Some((RequirementView { comparators }, r1)),
            None => None,
        }
    }

    fn encode(&self, out: &mut Vec<u8>) {
        proof {
            reveal(<Requirement as Wire>::wire);
        }
        self.comparators.encode(out);
    }

    fn decode(b: &[u8], pos: usize) -> (res: Option<(Self, usize)>) {
        proof {
            reveal(<Requirement as Wire>::read);
        }
        let (comparators, pos): (Vec<Comparator>, usize) = Vec::<Comparator>::decode(b, pos)?;
        Some((Requirement { comparators }, pos))
    }

    proof fn lemma_read_wire(v: RequirementView, rest: Seq<u8>) {
        reveal(<Requirement as Wire>::read);
        reveal(<Requirement as Wire>::wire);
        Vec::<Comparator>::lemma_read_wire(v.comparators, rest);
    }
}

/// `semver::VersionReq`, a parsed version constraint.
#[verifier::external_type_specification]
#[verifier::external_body]
pub struct ExSemverReq(semver::VersionReq);

/// The comparators that a `semver::VersionReq` holds, in order, each with its
/// `op`, `major`, `minor`, `patch` and the text of its `pre`; `None` in the
/// place of a comparator whose operator is none of the eight of [`Op`].
pub uninterp spec fn req_comparators(req: semver::VersionReq) -> Seq<Option<ComparatorView>>;

/// What `semver::VersionReq::parse` makes of a text: the comparators of the
/// constraint that it reads, or `None` where it reports an error.
pub uninterp spec fn parsed_req(text: Seq<char>) -> Option<Seq<Option<ComparatorView>>>;

/// `semver::VersionReq::parse`, with its error as `None`.
#[verifier::external_body]
fn semver_parse_req(text: &str) -> (res: Option<semver::VersionReq>)
    ensures
        res is Some <==> parsed_req(text@) is Some,
        res matches Some(req) ==> parsed_req(text@) == Some(req_comparators(req)),
{
    semver::VersionReq::parse(text).ok()
}

/// The number of comparators of a `semver::VersionReq`: the length of its
/// field `comparators`.
#[verifier::external_body]
fn semver_req_len(req: &semver::VersionReq) -> (n: usize)
    ensures
        n == req_comparators(*req).len(),
{
    req.comparators.len()
}

/// The comparator at place `i` of a `semver::VersionReq`, field by field;
/// `None` where its operator is none of the eight of [`Op`].
#[verifier::external_body]
fn semver_req_get(req: &semver::VersionReq, i: usize) -> (res: Option<Comparator>)
    requires
        i < req_comparators(*req).len(),
    ensures
        res is Some <==> req_comparators(*req)[i as int] is Some,
        res matches Some(c) ==> req_comparators(*req)[i as int] == Some(c@),
{
    let c = &req.comparators[i];
    let op = match c.op {
        semver::Op::Exact => Op::Exact,
        semver::Op::Greater => Op::Greater,
        semver::Op::GreaterEq => Op::GreaterEq,
        semver::Op::Less => Op::Less,
        semver::Op::LessEq => Op::LessEq,
        semver::Op::Tilde => Op::Tilde,
        semver::Op::Caret => Op::Caret,
        semver::Op::Wildcard => Op::Wildcard,
        _ => return None,
    };
    let pre = c.pre.as_str().to_string();
    Some(Comparator { op, major: c.major, minor: c.minor, patch: c.patch, pre })
}

impl Requirement {
    /// The constraint with no comparator, written `*`.
    pub fn any() -> (req: Requirement)
        ensures
            req@ == (RequirementView { comparators: Seq::empty() }),
    {
        let req = Requirement { comparators: Vec::new() };
        assert(req@.comparators =~= Seq::empty());
        req
    }

    /// The constraint that a list of comparators makes: `None` where the list
    /// has a gap.
    pub open spec fn of_parts(parts: Seq<Option<ComparatorView>>) -> Option<RequirementView> {
        if forall|i: int| 0 <= i < parts.len() ==> parts[i] is Some {
            Some(RequirementView { comparators: Seq::new(parts.len(), |i: int| parts[i].unwrap()) })
        } else {
            None
        }
    }

    /// The constraint that a text states: what `semver` reads from it, where
    /// every operator it reads is one of the eight of [`Op`].
    pub open spec fn of_text(text: Seq<char>) -> Option<RequirementView> {
        match parsed_req(text) {
            Some(parts) => Requirement::of_parts(parts),
            None => None,
        }
    }

    /// The constraint that `parts` make, in their order; `None` where one of
    /// them is `None`.
    pub fn from_parts(parts: Vec<Option<Comparator>>) -> (res: Option<Requirement>)
        ensures
            res is Some <==> Requirement::of_parts(parts.model()) is Some,
            res matches Some(req) ==> Requirement::of_parts(parts.model()) == Some(req@),
    {
        let ghost all = models::<Option<Comparator>>(parts@);
        let mut left = parts;
        let mut comparators: Vec<Comparator> = Vec::new();
        while left.len() > 0
            invariant
                all == models::<Option<Comparator>>(parts@),
                comparators@.len() + left@.len() == all.len(),
                forall|i: int|
                    0 <= i < comparators@.len() ==> all[i] == Some(#[trigger] comparators@[i]@),
                forall|i: int|
                    0 <= i < left@.len() ==> all[comparators@.len() + i] == (#[trigger] models::<
                        Option<Comparator>,
                    >(left@)[i]),
            decreases left@.len(),
        {
            let ghost before = models::<Option<Comparator>>(left@);
            let part = left.remove(0);
            proof {
                assert forall|i: int| 0 <= i < left@.len() implies all[comparators@.len() + 1 + i]
                    == (#[trigger] models::<Option<Comparator>>(left@)[i]) by {
                    assert(models::<Option<Comparator>>(left@)[i] == before[i + 1]);
                }
                assert(all[comparators@.len() as int] == before[0]);
            }
            match part {
                Some(c) => {
                    comparators.push(c);
                },
                None => {
                    return None;
                },
            }
        }
        let req = Requirement { comparators };
        proof {
            assert forall|i: int| 0 <= i < all.len() implies all[i] == Some(
                req@.comparators[i],
            ) by {
                assert(all[i] == Some(comparators@[i]@));
            }
            assert(req@.comparators =~= Seq::new(all.len(), |i: int| all[i].unwrap()));
        }
        Some(req)
    }

    /// Reads a constraint from its text, such as `>=1.2.3, <2`, as `semver`
    /// does. `None` where the text is no constraint.
    pub fn parse(text: &str) -> (res: Option<Requirement>)
        ensures
            res is Some <==> Requirement::of_text(text@) is Some,
            res matches Some(req) ==> Requirement::of_text(text@) == Some(req@),
    {
        let parsed = semver_parse_req(text)?;
        let n: usize = semver_req_len(&parsed);
        let mut parts: Vec<Option<Comparator>> = Vec::new();
        let mut i: usize = 0;
        while i < n
            invariant
                i <= n,
                n == req_comparators(parsed).len(),
                parts@.len() == i,
                forall|j: int|
                    0 <= j < i ==> #[trigger] models::<Option<Comparator>>(parts@)[j]
                        == req_comparators(parsed)[j],
            decreases n - i,
        {
            let ghost before = models::<Option<Comparator>>(parts@);
            let part = semver_req_get(&parsed, i);
            parts.push(part);
            proof {
                assert forall|j: int| 0 <= j < i + 1 implies #[trigger] models::<
                    Option<Comparator>,
                >(parts@)[j] == req_comparators(parsed)[j] by {
                    if j < i {
                        assert(models::<Option<Comparator>>(parts@)[j] == before[j]);
                    }
                }
            }
            i += 1;
        }
        proof {
            assert(models::<Option<Comparator>>(parts@) =~= req_comparators(parsed));
        }
        Requirement::from_parts(parts)
    }
}

} // verus!
