//! The binary layout of the package format.
//!
//! Every value is laid out as a run of bytes with no padding: integers in
//! little-endian order, a byte string as its length in eight bytes followed by
//! its bytes, a text as the byte string of its UTF-8 form, a list as its length
//! in eight bytes followed by its items, an optional value as one byte (0 or 1)
//! followed by the value when there is one, and a record as its fields in
//! order.
//!
//! This is the layout that the `bincode` crate writes for the same values with
//! fixed-width integers, so that its readers and writers can exchange bytes
//! with this one.
//!
//! Each layout is given twice: `wire` says which bytes stand for a value, and
//! `read` reads a value back from the front of a byte sequence. The two are
//! tied together by `lemma_read_wire`. Both are kept opaque, so that a proof
//! about a record sees the bytes of a field as one block.

use vstd::prelude::*;
use vstd::bytes::{
    lemma_auto_spec_u32_to_from_le_bytes, lemma_auto_spec_u64_to_from_le_bytes,
    spec_u32_from_le_bytes, spec_u32_to_le_bytes, spec_u64_from_le_bytes, spec_u64_to_le_bytes,
    u32_from_le_bytes, u32_to_le_bytes, u64_from_le_bytes, u64_to_le_bytes,
};
use vstd::slice::{slice_subrange, slice_to_vec};
use vstd::utf8::{
    decode_utf8, encode_utf8, encode_utf8_decode_utf8, encode_utf8_valid_utf8, valid_utf8,
};

verus! {

/// A type with a place in the binary layout.
pub trait Wire: Sized {
    /// The mathematical value that an object of this type stands for.
    type Model;

    /// The value of `self`.
    spec fn model(&self) -> Self::Model;

    /// Whether `v` is well formed: every length in it fits in eight bytes.
    spec fn wf(v: Self::Model) -> bool;

    /// The bytes that stand for `v`.
    spec fn wire(v: Self::Model) -> Seq<u8>;

    /// Reads one value from the front of `b`: the value and the bytes that follow
    /// it, or `None` where `b` does not start with a value of this type.
    spec fn read(b: Seq<u8>) -> Option<(Self::Model, Seq<u8>)>;

    /// Appends the bytes of `self` to `out`.
    fn encode(&self, out: &mut Vec<u8>)
        ensures
            final(out)@ == old(out)@ + Self::wire(self.model()),
            Self::wf(self.model()),
    ;

    /// Reads one value from `b`, starting at `pos`; returns it with the position
    /// after it, or `None` where no value starts there.
    fn decode(b: &[u8], pos: usize) -> (res: Option<(Self, usize)>)
        ensures
            match res {
                Some((v, next)) => pos <= next <= b@.len() && Self::read(b@.skip(pos as int))
                    == Some((v.model(), b@.skip(next as int))),
                None => pos > b@.len() || Self::read(b@.skip(pos as int)) is None,
            },
    ;

    /// Reading the bytes of a value gives the value back, whatever follows them.
    proof fn lemma_read_wire(v: Self::Model, rest: Seq<u8>)
        requires
            Self::wf(v),
        ensures
            Self::read(Self::wire(v) + rest) == Some((v, rest)),
    ;
}

/// `b` from `pos` on, once `k` more bytes are dropped, is `b` from `pos + k` on;
/// its first `k` bytes are those of `b` from `pos` to `pos + k`.
pub proof fn lemma_skip_skip(b: Seq<u8>, pos: int, k: int)
    requires
        0 <= pos,
        0 <= k,
        pos + k <= b.len(),
    ensures
        b.skip(pos).skip(k) == b.skip(pos + k),
        b.skip(pos).take(k) == b.subrange(pos, pos + k),
{
    assert(b.skip(pos).skip(k) =~= b.skip(pos + k));
    assert(b.skip(pos).take(k) =~= b.subrange(pos, pos + k));
}

/// A sequence in front of another: taking its length gives it back, dropping
/// its length gives the other.
pub proof fn lemma_split_concat(a: Seq<u8>, b: Seq<u8>)
    ensures
        (a + b).take(a.len() as int) == a,
        (a + b).skip(a.len() as int) == b,
{
    assert((a + b).take(a.len() as int) =~= a);
    assert((a + b).skip(a.len() as int) =~= b);
}

/// Joining three sequences gives the same whichever two are joined first.
pub proof fn lemma_concat_assoc(a: Seq<u8>, b: Seq<u8>, c: Seq<u8>)
    ensures
        (a + b) + c == a + (b + c),
{
    assert((a + b) + c =~= a + (b + c));
}

impl Wire for u32 {
    type Model = u32;

    open spec fn model(&self) -> u32 {
        *self
    }

    open spec fn wf(v: u32) -> bool {
        true
    }

    #[verifier::opaque]
    open spec fn wire(v: u32) -> Seq<u8> {
        spec_u32_to_le_bytes(v)
    }

    #[verifier::opaque]
    open spec fn read(b: Seq<u8>) -> Option<(u32, Seq<u8>)> {
        if b.len() >= 4 {
            Some((spec_u32_from_le_bytes(b.take(4)), b.skip(4)))
        } else {
            None
        }
    }

    fn encode(&self, out: &mut Vec<u8>) {
        proof {
            reveal(<u32 as Wire>::wire);
        }
        let mut bytes = u32_to_le_bytes(*self);
        out.append(&mut bytes);
    }

    fn decode(b: &[u8], pos: usize) -> (res: Option<(Self, usize)>) {
        proof {
            reveal(<u32 as Wire>::read);
        }
        if pos > b.len() || b.len() - pos < 4 {
            None
        } else {
            let v = u32_from_le_bytes(slice_subrange(b, pos, pos + 4));
            proof {
                lemma_skip_skip(b@, pos as int, 4);
            }
            Some((v, pos + 4))
        }
    }

    proof fn lemma_read_wire(v: u32, rest: Seq<u8>) {
        reveal(<u32 as Wire>::read);
        reveal(<u32 as Wire>::wire);
        lemma_auto_spec_u32_to_from_le_bytes();
        lemma_split_concat(spec_u32_to_le_bytes(v), rest);
    }
}

impl Wire for u64 {
    type Model = u64;

    open spec fn model(&self) -> u64 {
        *self
    }

    open spec fn wf(v: u64) -> bool {
        true
    }

    #[verifier::opaque]
    open spec fn wire(v: u64) -> Seq<u8> {
        spec_u64_to_le_bytes(v)
    }

    #[verifier::opaque]
    open spec fn read(b: Seq<u8>) -> Option<(u64, Seq<u8>)> {
        if b.len() >= 8 {
            Some((spec_u64_from_le_bytes(b.take(8)), b.skip(8)))
        } else {
            None
        }
    }

    fn encode(&self, out: &mut Vec<u8>) {
        proof {
            reveal(<u64 as Wire>::wire);
        }
        let mut bytes = u64_to_le_bytes(*self);
        out.append(&mut bytes);
    }

    fn decode(b: &[u8], pos: usize) -> (res: Option<(Self, usize)>) {
        proof {
            reveal(<u64 as Wire>::read);
        }
        if pos > b.len() || b.len() - pos < 8 {
            None
        } else {
            let v = u64_from_le_bytes(slice_subrange(b, pos, pos + 8));
            proof {
                lemma_skip_skip(b@, pos as int, 8);
            }
            Some((v, pos + 8))
        }
    }

    proof fn lemma_read_wire(v: u64, rest: Seq<u8>) {
        reveal(<u64 as Wire>::read);
        reveal(<u64 as Wire>::wire);
        lemma_auto_spec_u64_to_from_le_bytes();
        lemma_split_concat(spec_u64_to_le_bytes(v), rest);
    }
}

impl Wire for bool {
    type Model = bool;

    open spec fn model(&self) -> bool {
        *self
    }

    open spec fn wf(v: bool) -> bool {
        true
    }

    #[verifier::opaque]
    open spec fn wire(v: bool) -> Seq<u8> {
        seq![if v { 1u8 } else { 0u8 }]
    }

    #[verifier::opaque]
    open spec fn read(b: Seq<u8>) -> Option<(bool, Seq<u8>)> {
        if b.len() >= 1 && b[0] <= 1 {
            Some((b[0] == 1, b.skip(1)))
        } else {
            None
        }
    }

    fn encode(&self, out: &mut Vec<u8>) {
        proof {
            reveal(<bool as Wire>::wire);
        }
        out.push(if *self { 1u8 } else { 0u8 });
        assert(out@ == old(out)@ + Self::wire(*self));
    }

    fn decode(b: &[u8], pos: usize) -> (res: Option<(Self, usize)>) {
        proof {
            reveal(<bool as Wire>::read);
        }
        if pos >= b.len() {
            return None;
        }
        let mark: u8 = b[pos];
        proof {
            lemma_skip_skip(b@, pos as int, 1);
        }
        if mark <= 1 {
            Some((mark == 1, pos + 1))
        } else {
            None
        }
    }

    proof fn lemma_read_wire(v: bool, rest: Seq<u8>) {
        reveal(<bool as Wire>::read);
        reveal(<bool as Wire>::wire);
        lemma_split_concat(Self::wire(v), rest);
    }
}

/// The bytes of a byte string: its length, then the bytes themselves.
#[verifier::opaque]
pub open spec fn wire_blob(d: Seq<u8>) -> Seq<u8> {
    u64::wire(d.len() as u64) + d
}

/// Whether a byte string's length fits in its length prefix.
pub open spec fn wf_blob(d: Seq<u8>) -> bool {
    d.len() <= u64::MAX
}

/// Reads a byte string from the front of `b`.
#[verifier::opaque]
pub open spec fn read_blob(b: Seq<u8>) -> Option<(Seq<u8>, Seq<u8>)> {
    match u64::read(b) {
        Some((n, r)) => if n <= r.len() {
            Some((r.take(n as int), r.skip(n as int)))
        } else {
            None
        },
        None => None,
    }
}

/// Reading the bytes of a byte string gives it back, whatever follows.
pub proof fn lemma_read_wire_blob(d: Seq<u8>, rest: Seq<u8>)
    requires
        wf_blob(d),
    ensures
        read_blob(wire_blob(d) + rest) == Some((d, rest)),
{
    reveal(read_blob);
    reveal(wire_blob);
    let n = d.len() as u64;
    lemma_concat_assoc(u64::wire(n), d, rest);
    u64::lemma_read_wire(n, d + rest);
    lemma_split_concat(d, rest);
}

/// Appends a byte string to `out`.
pub fn encode_blob(d: &[u8], out: &mut Vec<u8>)
    ensures
        final(out)@ == old(out)@ + wire_blob(d@),
        wf_blob(d@),
{
    proof {
        reveal(wire_blob);
    }
    let n: usize = d.len();
    let len: u64 = n as u64;
    len.encode(out);
    let mut copy = slice_to_vec(d);
    out.append(&mut copy);
    proof {
        lemma_concat_assoc(old(out)@, u64::wire(len), d@);
    }
}

/// Reads a byte string from `b`, starting at `pos`; `None` where none starts
/// there.
pub fn decode_blob(b: &[u8], pos: usize) -> (res: Option<(Vec<u8>, usize)>)
    ensures
        match res {
            Some((d, next)) => pos <= next <= b@.len() && read_blob(b@.skip(pos as int)) == Some(
                (d@, b@.skip(next as int)),
            ),
            None => pos > b@.len() || read_blob(b@.skip(pos as int)) is None,
        },
{
    proof {
        reveal(read_blob);
    }
    let (n, start): (u64, usize) = u64::decode(b, pos)?;
    let left: usize = b.len() - start;
    if n > left as u64 {
        None
    } else {
        let count: usize = n as usize;
        let d = slice_to_vec(slice_subrange(b, start, start + count));
        proof {
            lemma_skip_skip(b@, start as int, count as int);
        }
        Some((d, start + count))
    }
}

/// `String::from_utf8`: the text that `bytes` spell where they are valid UTF-8,
/// and nothing where they are not.
#[verifier::external_body]
fn text_from_utf8(bytes: Vec<u8>) -> (res: Option<String>)
    ensures
        res is Some <==> valid_utf8(bytes@),
        res matches Some(s) ==> s@ == decode_utf8(bytes@),
{
    String::from_utf8(bytes).ok()
}

impl Wire for String {
    type Model = Seq<char>;

    open spec fn model(&self) -> Seq<char> {
        self@
    }

    open spec fn wf(v: Seq<char>) -> bool {
        wf_blob(encode_utf8(v))
    }

    #[verifier::opaque]
    open spec fn wire(v: Seq<char>) -> Seq<u8> {
        wire_blob(encode_utf8(v))
    }

    #[verifier::opaque]
    open spec fn read(b: Seq<u8>) -> Option<(Seq<char>, Seq<u8>)> {
        match read_blob(b) {
            Some((d, r)) => if valid_utf8(d) {
                Some((decode_utf8(d), r))
            } else {
                None
            },
            None => None,
        }
    }

    fn encode(&self, out: &mut Vec<u8>) {
        encode_text(self.as_str(), out);
    }

    fn decode(b: &[u8], pos: usize) -> (res: Option<(Self, usize)>) {
        proof {
            reveal(<String as Wire>::read);
        }
        let (d, next): (Vec<u8>, usize) = decode_blob(b, pos)?;
        let text = text_from_utf8(d)?;
        Some((text, next))
    }

    proof fn lemma_read_wire(v: Seq<char>, rest: Seq<u8>) {
        reveal(<String as Wire>::read);
        reveal(<String as Wire>::wire);
        lemma_read_wire_blob(encode_utf8(v), rest);
        encode_utf8_valid_utf8(v);
        encode_utf8_decode_utf8(v);
    }
}

/// Appends a text to `out`.
pub fn encode_text(text: &str, out: &mut Vec<u8>)
    ensures
        final(out)@ == old(out)@ + String::wire(text@),
        String::wf(text@),
{
    proof {
        reveal(<String as Wire>::wire);
    }
    encode_blob(text.as_bytes(), out);
}

/// Whether two texts are the same, character for character.
pub fn text_eq(a: &str, b: &str) -> (same: bool)
    ensures
        same == (a@ == b@),
{
    let x = a.as_bytes();
    let y = b.as_bytes();
    proof {
        encode_utf8_decode_utf8(a@);
        encode_utf8_decode_utf8(b@);
    }
    if x.len() != y.len() {
        return false;
    }
    let n: usize = x.len();
    let mut i: usize = 0;
    while i < n
        invariant
            i <= n,
            n == x@.len(),
            n == y@.len(),
            x@ == encode_utf8(a@),
            y@ == encode_utf8(b@),
            forall|j: int| 0 <= j < i ==> x@[j] == y@[j],
        decreases n - i,
    {
        if x[i] != y[i] {
            return false;
        }
        i += 1;
    }
    assert(x@ =~= y@);
    true
}

/// The bytes of an optional value: one byte that says whether a value follows,
/// then the value.
#[verifier::opaque]
pub open spec fn wire_option<T: Wire>(v: Option<T::Model>) -> Seq<u8> {
    match v {
        Some(x) => seq![1u8] + T::wire(x),
        None => seq![0u8],
    }
}

/// Reads an optional value from the front of `b`: one byte that says whether a
/// value follows, then the value.
#[verifier::opaque]
pub open spec fn read_option<T: Wire>(b: Seq<u8>) -> Option<(Option<T::Model>, Seq<u8>)> {
    if b.len() >= 1 && b[0] == 0 {
        Some((None, b.skip(1)))
    } else if b.len() >= 1 && b[0] == 1 {
        match T::read(b.skip(1)) {
            Some((x, r)) => Some((Some(x), r)),
            None => None,
        }
    } else {
        None
    }
}

impl<T: Wire> Wire for Option<T> {
    type Model = Option<T::Model>;

    open spec fn model(&self) -> Option<T::Model> {
        match self {
            Some(x) => Some(x.model()),
            None => None,
        }
    }

    open spec fn wf(v: Option<T::Model>) -> bool {
        match v {
            Some(x) => T::wf(x),
            None => true,
        }
    }

    open spec fn wire(v: Option<T::Model>) -> Seq<u8> {
        wire_option::<T>(v)
    }

    open spec fn read(b: Seq<u8>) -> Option<(Option<T::Model>, Seq<u8>)> {
        read_option::<T>(b)
    }

    fn encode(&self, out: &mut Vec<u8>) {
        proof {
            reveal(wire_option);
        }
        match self {
            None => {
                out.push(0u8);
                assert(out@ == old(out)@ + seq![0u8]);
            },
            Some(x) => {
                out.push(1u8);
                x.encode(out);
                assert(out@ =~= old(out)@ + (seq![1u8] + T::wire(x.model())));
            },
        }
    }

    fn decode(b: &[u8], pos: usize) -> (res: Option<(Self, usize)>) {
        proof {
            reveal(read_option);
        }
        if pos >= b.len() {
            return None;
        }
        let mark: u8 = b[pos];
        proof {
            lemma_skip_skip(b@, pos as int, 1);
        }
        if mark == 0 {
            Some((None, pos + 1))
        } else if mark == 1 {
            let (x, next): (T, usize) = T::decode(b, pos + 1)?;
            Some((Some(x), next))
        } else {
            None
        }
    }

    proof fn lemma_read_wire(v: Option<T::Model>, rest: Seq<u8>) {
        reveal(read_option);
        reveal(wire_option);
        match v {
            None => {
                lemma_split_concat(seq![0u8], rest);
            },
            Some(x) => {
                lemma_concat_assoc(seq![1u8], T::wire(x), rest);
                lemma_split_concat(seq![1u8], T::wire(x) + rest);
                T::lemma_read_wire(x, rest);
            },
        }
    }
}

/// The bytes of the items of a list, one after another.
pub open spec fn wire_items<T: Wire>(s: Seq<T::Model>) -> Seq<u8>
    decreases s.len(),
{
    if s.len() == 0 {
        Seq::empty()
    } else {
        T::wire(s[0]) + wire_items::<T>(s.skip(1))
    }
}

/// Whether every item of a list is well formed.
pub open spec fn wf_items<T: Wire>(s: Seq<T::Model>) -> bool {
    forall|i: int| 0 <= i < s.len() ==> T::wf(#[trigger] s[i])
}

/// Reads `n` items from the front of `b`.
pub open spec fn read_items<T: Wire>(n: nat, b: Seq<u8>) -> Option<(Seq<T::Model>, Seq<u8>)>
    decreases n,
{
    if n == 0 {
        Some((Seq::empty(), b))
    } else {
        match T::read(b) {
            Some((v, r)) => match read_items::<T>((n - 1) as nat, r) {
                Some((vs, r2)) => Some((seq![v] + vs, r2)),
                None => None,
            },
            None => None,
        }
    }
}

/// The values of the objects of a list, in order.
pub open spec fn models<T: Wire>(s: Seq<T>) -> Seq<T::Model> {
    Seq::new(s.len(), |i: int| s[i].model())
}

/// The bytes of a list with one more item at its end are the bytes of the list,
/// then those of the item.
pub proof fn lemma_wire_items_push<T: Wire>(s: Seq<T::Model>, v: T::Model)
    ensures
        wire_items::<T>(s.push(v)) == wire_items::<T>(s) + T::wire(v),
    decreases s.len(),
{
    if s.len() == 0 {
        assert(s.push(v).skip(1) =~= Seq::<T::Model>::empty());
        assert(wire_items::<T>(s.push(v).skip(1)) =~= Seq::<u8>::empty());
        assert(wire_items::<T>(s.push(v)) =~= wire_items::<T>(s) + T::wire(v));
    } else {
        lemma_wire_items_push::<T>(s.skip(1), v);
        assert(s.push(v).skip(1) =~= s.skip(1).push(v));
        lemma_concat_assoc(T::wire(s[0]), wire_items::<T>(s.skip(1)), T::wire(v));
    }
}

/// Reading as many items as a list has from the bytes of its items gives the
/// list back, whatever follows.
pub proof fn lemma_read_wire_items<T: Wire>(s: Seq<T::Model>, rest: Seq<u8>)
    requires
        wf_items::<T>(s),
    ensures
        read_items::<T>(s.len(), wire_items::<T>(s) + rest) == Some((s, rest)),
    decreases s.len(),
{
    if s.len() == 0 {
        assert(wire_items::<T>(s) + rest =~= rest);
        assert(s =~= Seq::<T::Model>::empty());
    } else {
        let tail = s.skip(1);
        lemma_concat_assoc(T::wire(s[0]), wire_items::<T>(tail), rest);
        T::lemma_read_wire(s[0], wire_items::<T>(tail) + rest);
        assert(wf_items::<T>(tail)) by {
            assert forall|i: int| 0 <= i < tail.len() implies T::wf(#[trigger] tail[i]) by {
                assert(tail[i] == s[i + 1]);
            }
        }
        lemma_read_wire_items::<T>(tail, rest);
        assert(seq![s[0]] + tail =~= s);
    }
}

/// The bytes of a list: the number of its items, then the items.
#[verifier::opaque]
pub open spec fn wire_list<T: Wire>(v: Seq<T::Model>) -> Seq<u8> {
    u64::wire(v.len() as u64) + wire_items::<T>(v)
}

/// Reads a list from the front of `b`: the number of its items, then the items.
#[verifier::opaque]
pub open spec fn read_list<T: Wire>(b: Seq<u8>) -> Option<(Seq<T::Model>, Seq<u8>)> {
    match u64::read(b) {
        Some((n, r)) => read_items::<T>(n as nat, r),
        None => None,
    }
}

impl<T: Wire> Wire for Vec<T> {
    type Model = Seq<T::Model>;

    open spec fn model(&self) -> Seq<T::Model> {
        models::<T>(self@)
    }

    open spec fn wf(v: Seq<T::Model>) -> bool {
        v.len() <= u64::MAX && wf_items::<T>(v)
    }

    open spec fn wire(v: Seq<T::Model>) -> Seq<u8> {
        wire_list::<T>(v)
    }

    open spec fn read(b: Seq<u8>) -> Option<(Seq<T::Model>, Seq<u8>)> {
        read_list::<T>(b)
    }

    fn encode(&self, out: &mut Vec<u8>) {
        proof {
            reveal(wire_list);
        }
        let n: usize = self.len();
        let len: u64 = n as u64;
        len.encode(out);
        let ghost head = out@;
        let mut i: usize = 0;
        while i < n
            invariant
                i <= n,
                n == self@.len(),
                out@ == head + wire_items::<T>(models::<T>(self@.take(i as int))),
                wf_items::<T>(models::<T>(self@.take(i as int))),
            decreases n - i,
        {
            let ghost before = models::<T>(self@.take(i as int));
            self[i].encode(out);
            proof {
                let v = self@[i as int].model();
                assert(models::<T>(self@.take(i + 1)) =~= before.push(v));
                lemma_wire_items_push::<T>(before, v);
                lemma_concat_assoc(head, wire_items::<T>(before), T::wire(v));
            }
            i += 1;
        }
        proof {
            assert(self@.take(n as int) =~= self@);
            lemma_concat_assoc(old(out)@, u64::wire(len), wire_items::<T>(self.model()));
        }
    }

    fn decode(b: &[u8], pos: usize) -> (res: Option<(Self, usize)>) {
        proof {
            reveal(read_list);
        }
        let (n, start): (u64, usize) = u64::decode(b, pos)?;
        let mut items: Vec<T> = Vec::new();
        let mut cur: usize = start;
        let mut i: u64 = 0;
        assert(models::<T>(items@) =~= Seq::<T::Model>::empty());
        while i < n
            invariant
                pos <= start <= cur <= b@.len(),
                i <= n,
                u64::read(b@.skip(pos as int)) == Some((n, b@.skip(start as int))),
                read_items::<T>(n as nat, b@.skip(start as int)) == match read_items::<T>(
                    (n - i) as nat,
                    b@.skip(cur as int),
                ) {
                    Some((vs, r)) => Some((models::<T>(items@) + vs, r)),
                    None => None,
                },
            decreases n - i,
        {
            let ghost before = models::<T>(items@);
            match T::decode(b, cur) {
                None => {
                    proof {
                        reveal(read_list);
                    }
                    return None;
                },
                Some((v, next)) => {
                    items.push(v);
                    proof {
                        assert(models::<T>(items@) =~= before.push(v.model()));
                        match read_items::<T>((n - i - 1) as nat, b@.skip(next as int)) {
                            Some((vs, r)) => {
                                assert(before + (seq![v.model()] + vs) =~= before.push(v.model())
                                    + vs);
                            },
                            None => {},
                        }
                    }
                    cur = next;
                    i += 1;
                },
            }
        }
        proof {
            assert(models::<T>(items@) + Seq::<T::Model>::empty() =~= models::<T>(items@));
        }
        Some((items, cur))
    }

    proof fn lemma_read_wire(v: Seq<T::Model>, rest: Seq<u8>) {
        reveal(read_list);
        reveal(wire_list);
        let n = v.len() as u64;
        lemma_concat_assoc(u64::wire(n), wire_items::<T>(v), rest);
        u64::lemma_read_wire(n, wire_items::<T>(v) + rest);
        lemma_read_wire_items::<T>(v, rest);
    }
}

} // verus!
