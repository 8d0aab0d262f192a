//! Serialization of values into growable byte vectors, and their recovery
//! from byte sources.
//!
//! Every value is appended as its `t_bytes`: primitives as their native
//! memory representation, `bool` as one byte, strings and vectors as their
//! length followed by their contents, options as a `bool` followed by the
//! value when there is one, and tuples as their fields in order.
use crate::fast_io::{
    bool_bytes, consumed, i16_bytes, i32_bytes, i64_bytes, i8_bytes, isize_bytes,
    lemma_primitive_bytes, read_bool, read_i16, read_i32, read_i64, read_isize, read_u16,
    read_u32, read_u64, read_usize, rest, str_bytes, str_read, str_read_len, str_readable,
    u16_bytes, u32_bytes, u64_bytes, u8_bytes, usize_bytes, ByteSource,
};
use crate::fast_ser::lemma_str_roundtrip;
use crate::native::{lemma_ne_roundtrip, u16_to_ne, u32_to_ne, u64_to_ne};
use vstd::prelude::*;
use vstd::slice::slice_to_vec;

verus! {

/// Trait to serialize an item into bytes.  A value's `deep_view` is what it
/// holds: the value itself for a primitive, the text of a string, the
/// elements' deep views for a vector or an array, and so on.
pub trait TSerialize: DeepView {
    /// The bytes that `serialize` appends for this value.
    spec fn t_bytes(&self) -> Seq<u8>;

    fn serialize(&self, w: &mut Vec<u8>)
        ensures
            final(w)@ == old(w)@ + self.t_bytes(),
    ;
}

/// Trait to recover items from byte streams. See [`TSerialize`]
pub trait TDeserialize: TSerialize + Sized {
    /// The bytes start with something this type can read.
    spec fn t_readable(b: Seq<u8>) -> bool;

    /// How many bytes reading from the start of `b` consumes.
    spec fn t_read_len(b: Seq<u8>) -> nat;

    /// Reading from the start of `b` yields `v`.
    spec fn t_reads(b: Seq<u8>, v: Self) -> bool;

    fn deserialize<'a, S: ByteSource<'a>>(r: &mut S) -> (v: Self)
        requires
            old(r).source_pos() <= old(r).source_buffer().len(),
            Self::t_readable(rest(old(r).source_buffer(), old(r).source_pos())),
        ensures
            consumed(
                old(r).source_buffer(),
                old(r).source_pos(),
                final(r).source_buffer(),
                final(r).source_pos(),
                Self::t_read_len(rest(old(r).source_buffer(), old(r).source_pos())),
            ),
            Self::t_reads(rest(old(r).source_buffer(), old(r).source_pos()), v),
    ;

    /// A read never consumes more bytes than there are.
    proof fn lemma_t_read_bounded(b: Seq<u8>)
        requires
            Self::t_readable(b),
        ensures
            Self::t_read_len(b) <= b.len(),
    ;

    /// Whatever follows a value's bytes, reading them back consumes exactly
    /// those bytes and yields the same value: one with the same bytes and
    /// the same contents.
    proof fn lemma_t_roundtrip(v: Self, tail: Seq<u8>)
        requires
            v.t_bytes().len() <= usize::MAX,
        ensures
            Self::t_readable(v.t_bytes() + tail),
            Self::t_read_len(v.t_bytes() + tail) == v.t_bytes().len(),
            forall|w: Self| #[trigger]
                Self::t_reads(v.t_bytes() + tail, w) ==> w.t_bytes() == v.t_bytes()
                    && w.deep_view() == v.deep_view(),
    ;
}

/// Serialize an item into bytes
pub fn serialize<T: TSerialize>(lt: &T, w: &mut Vec<u8>)
    ensures
        final(w)@ == old(w)@ + lt.t_bytes(),
{
    lt.serialize(w);
}

/// Deserialize an item from a byte stream
pub fn deserialize<'a, T: TDeserialize, S: ByteSource<'a>>(r: &mut S) -> (v: T)
    requires
        old(r).source_pos() <= old(r).source_buffer().len(),
        T::t_readable(rest(old(r).source_buffer(), old(r).source_pos())),
    ensures
        consumed(
            old(r).source_buffer(),
            old(r).source_pos(),
            final(r).source_buffer(),
            final(r).source_pos(),
            T::t_read_len(rest(old(r).source_buffer(), old(r).source_pos())),
        ),
        T::t_reads(rest(old(r).source_buffer(), old(r).source_pos()), v),
{
    T::deserialize(r)
}

// MARK: Primitives

fn u8_to_vec(v: u8) -> (b: Vec<u8>)
    ensures
        b@ == u8_bytes(v),
{
    let b = vec![v];
    assert(b@ =~= u8_bytes(v));
    b
}

fn i8_to_vec(v: i8) -> (b: Vec<u8>)
    ensures
        b@ == i8_bytes(v),
{
    u8_to_vec(v as u8)
}

fn usize_to_ne(v: usize) -> (b: Vec<u8>)
    ensures
        b@ == usize_bytes(v),
{
    u64_to_ne(v as u64)
}

fn i16_to_ne(v: i16) -> (b: Vec<u8>)
    ensures
        b@ == i16_bytes(v),
{
    u16_to_ne(v as u16)
}

fn i32_to_ne(v: i32) -> (b: Vec<u8>)
    ensures
        b@ == i32_bytes(v),
{
    u32_to_ne(v as u32)
}

fn i64_to_ne(v: i64) -> (b: Vec<u8>)
    ensures
        b@ == i64_bytes(v),
{
    u64_to_ne(v as u64)
}

fn isize_to_ne(v: isize) -> (b: Vec<u8>)
    ensures
        b@ == isize_bytes(v),
{
    u64_to_ne(v as u64)
}

impl<T: TSerialize> TSerialize for &T {
    open spec fn t_bytes(&self) -> Seq<u8> {
        (**self).t_bytes()
    }

    fn serialize(&self, w: &mut Vec<u8>) {
        (**self).serialize(w);
    }
}

impl TSerialize for bool {
    open spec fn t_bytes(&self) -> Seq<u8> {
        bool_bytes(*self)
    }

    fn serialize(&self, w: &mut Vec<u8>) {
        let mut b = u8_to_vec(if *self { 1u8 } else { 0u8 });
        w.append(&mut b);
    }
}

impl TDeserialize for bool {
    open spec fn t_readable(b: Seq<u8>) -> bool {
        b.len() >= 1
    }

    open spec fn t_read_len(b: Seq<u8>) -> nat {
        1
    }

    open spec fn t_reads(b: Seq<u8>, v: Self) -> bool {
        v == read_bool(b)
    }

    fn deserialize<'a, S: ByteSource<'a>>(r: &mut S) -> (v: Self) {
        u8::deserialize(r) != 0
    }

    proof fn lemma_t_read_bounded(b: Seq<u8>) {
    }

    proof fn lemma_t_roundtrip(v: Self, tail: Seq<u8>) {
        assert((v.t_bytes() + tail)[0] == v.t_bytes()[0]);
    }
}

impl TSerialize for u8 {
    open spec fn t_bytes(&self) -> Seq<u8> {
        u8_bytes(*self)
    }

    fn serialize(&self, w: &mut Vec<u8>) {
        let mut b = u8_to_vec(*self);
        w.append(&mut b);
    }
}

impl TDeserialize for u8 {
    open spec fn t_readable(b: Seq<u8>) -> bool {
        b.len() >= 1
    }

    open spec fn t_read_len(b: Seq<u8>) -> nat {
        1
    }

    open spec fn t_reads(b: Seq<u8>, v: Self) -> bool {
        v == b[0]
    }

    fn deserialize<'a, S: ByteSource<'a>>(r: &mut S) -> (v: Self) {
        r.get_u8()
    }

    proof fn lemma_t_read_bounded(b: Seq<u8>) {
    }

    proof fn lemma_t_roundtrip(v: Self, tail: Seq<u8>) {
        lemma_primitive_bytes();
        assert((v.t_bytes() + tail).take(1) =~= v.t_bytes());
        assert((v.t_bytes() + tail)[0] == v.t_bytes()[0]);
    }
}

impl TSerialize for u16 {
    open spec fn t_bytes(&self) -> Seq<u8> {
        u16_bytes(*self)
    }

    fn serialize(&self, w: &mut Vec<u8>) {
        let mut b = u16_to_ne(*self);
        w.append(&mut b);
    }
}

impl TDeserialize for u16 {
    open spec fn t_readable(b: Seq<u8>) -> bool {
        b.len() >= 2
    }

    open spec fn t_read_len(b: Seq<u8>) -> nat {
        2
    }

    open spec fn t_reads(b: Seq<u8>, v: Self) -> bool {
        v == read_u16(b.take(2))
    }

    fn deserialize<'a, S: ByteSource<'a>>(r: &mut S) -> (v: Self) {
        r.get_u16()
    }

    proof fn lemma_t_read_bounded(b: Seq<u8>) {
    }

    proof fn lemma_t_roundtrip(v: Self, tail: Seq<u8>) {
        lemma_primitive_bytes();
        assert((v.t_bytes() + tail).take(2) =~= v.t_bytes());
        assert((v.t_bytes() + tail)[0] == v.t_bytes()[0]);
    }
}

impl TSerialize for u32 {
    open spec fn t_bytes(&self) -> Seq<u8> {
        u32_bytes(*self)
    }

    fn serialize(&self, w: &mut Vec<u8>) {
        let mut b = u32_to_ne(*self);
        w.append(&mut b);
    }
}

impl TDeserialize for u32 {
    open spec fn t_readable(b: Seq<u8>) -> bool {
        b.len() >= 4
    }

    open spec fn t_read_len(b: Seq<u8>) -> nat {
        4
    }

    open spec fn t_reads(b: Seq<u8>, v: Self) -> bool {
        v == read_u32(b.take(4))
    }

    fn deserialize<'a, S: ByteSource<'a>>(r: &mut S) -> (v: Self) {
        r.get_u32()
    }

    proof fn lemma_t_read_bounded(b: Seq<u8>) {
    }

    proof fn lemma_t_roundtrip(v: Self, tail: Seq<u8>) {
        lemma_primitive_bytes();
        assert((v.t_bytes() + tail).take(4) =~= v.t_bytes());
        assert((v.t_bytes() + tail)[0] == v.t_bytes()[0]);
    }
}

impl TSerialize for u64 {
    open spec fn t_bytes(&self) -> Seq<u8> {
        u64_bytes(*self)
    }

    fn serialize(&self, w: &mut Vec<u8>) {
        let mut b = u64_to_ne(*self);
        w.append(&mut b);
    }
}

impl TDeserialize for u64 {
    open spec fn t_readable(b: Seq<u8>) -> bool {
        b.len() >= 8
    }

    open spec fn t_read_len(b: Seq<u8>) -> nat {
        8
    }

    open spec fn t_reads(b: Seq<u8>, v: Self) -> bool {
        v == read_u64(b.take(8))
    }

    fn deserialize<'a, S: ByteSource<'a>>(r: &mut S) -> (v: Self) {
        r.get_u64()
    }

    proof fn lemma_t_read_bounded(b: Seq<u8>) {
    }

    proof fn lemma_t_roundtrip(v: Self, tail: Seq<u8>) {
        lemma_primitive_bytes();
        assert((v.t_bytes() + tail).take(8) =~= v.t_bytes());
        assert((v.t_bytes() + tail)[0] == v.t_bytes()[0]);
    }
}

impl TSerialize for usize {
    open spec fn t_bytes(&self) -> Seq<u8> {
        usize_bytes(*self)
    }

    fn serialize(&self, w: &mut Vec<u8>) {
        let mut b = usize_to_ne(*self);
        w.append(&mut b);
    }
}

impl TDeserialize for usize {
    open spec fn t_readable(b: Seq<u8>) -> bool {
        b.len() >= 8
    }

    open spec fn t_read_len(b: Seq<u8>) -> nat {
        8
    }

    open spec fn t_reads(b: Seq<u8>, v: Self) -> bool {
        v == read_usize(b.take(8))
    }

    fn deserialize<'a, S: ByteSource<'a>>(r: &mut S) -> (v: Self) {
        r.get_usize()
    }

    proof fn lemma_t_read_bounded(b: Seq<u8>) {
    }

    proof fn lemma_t_roundtrip(v: Self, tail: Seq<u8>) {
        lemma_primitive_bytes();
        assert((v.t_bytes() + tail).take(8) =~= v.t_bytes());
        assert((v.t_bytes() + tail)[0] == v.t_bytes()[0]);
    }
}

impl TSerialize for i8 {
    open spec fn t_bytes(&self) -> Seq<u8> {
        i8_bytes(*self)
    }

    fn serialize(&self, w: &mut Vec<u8>) {
        let mut b = i8_to_vec(*self);
        w.append(&mut b);
    }
}

impl TDeserialize for i8 {
    open spec fn t_readable(b: Seq<u8>) -> bool {
        b.len() >= 1
    }

    open spec fn t_read_len(b: Seq<u8>) -> nat {
        1
    }

    open spec fn t_reads(b: Seq<u8>, v: Self) -> bool {
        v == b[0] as i8
    }

    fn deserialize<'a, S: ByteSource<'a>>(r: &mut S) -> (v: Self) {
        let v = r.get_i8();
        proof {
            lemma_primitive_bytes();
        }
        v
    }

    proof fn lemma_t_read_bounded(b: Seq<u8>) {
    }

    proof fn lemma_t_roundtrip(v: Self, tail: Seq<u8>) {
        lemma_primitive_bytes();
        assert((v.t_bytes() + tail).take(1) =~= v.t_bytes());
        assert((v.t_bytes() + tail)[0] == v.t_bytes()[0]);
    }
}

impl TSerialize for i16 {
    open spec fn t_bytes(&self) -> Seq<u8> {
        i16_bytes(*self)
    }

    fn serialize(&self, w: &mut Vec<u8>) {
        let mut b = i16_to_ne(*self);
        w.append(&mut b);
    }
}

impl TDeserialize for i16 {
    open spec fn t_readable(b: Seq<u8>) -> bool {
        b.len() >= 2
    }

    open spec fn t_read_len(b: Seq<u8>) -> nat {
        2
    }

    open spec fn t_reads(b: Seq<u8>, v: Self) -> bool {
        v == read_i16(b.take(2))
    }

    fn deserialize<'a, S: ByteSource<'a>>(r: &mut S) -> (v: Self) {
        r.get_i16()
    }

    proof fn lemma_t_read_bounded(b: Seq<u8>) {
    }

    proof fn lemma_t_roundtrip(v: Self, tail: Seq<u8>) {
        lemma_primitive_bytes();
        assert((v.t_bytes() + tail).take(2) =~= v.t_bytes());
        assert((v.t_bytes() + tail)[0] == v.t_bytes()[0]);
    }
}

impl TSerialize for i32 {
    open spec fn t_bytes(&self) -> Seq<u8> {
        i32_bytes(*self)
    }

    fn serialize(&self, w: &mut Vec<u8>) {
        let mut b = i32_to_ne(*self);
        w.append(&mut b);
    }
}

impl TDeserialize for i32 {
    open spec fn t_readable(b: Seq<u8>) -> bool {
        b.len() >= 4
    }

    open spec fn t_read_len(b: Seq<u8>) -> nat {
        4
    }

    open spec fn t_reads(b: Seq<u8>, v: Self) -> bool {
        v == read_i32(b.take(4))
    }

    fn deserialize<'a, S: ByteSource<'a>>(r: &mut S) -> (v: Self) {
        r.get_i32()
    }

    proof fn lemma_t_read_bounded(b: Seq<u8>) {
    }

    proof fn lemma_t_roundtrip(v: Self, tail: Seq<u8>) {
        lemma_primitive_bytes();
        assert((v.t_bytes() + tail).take(4) =~= v.t_bytes());
        assert((v.t_bytes() + tail)[0] == v.t_bytes()[0]);
    }
}

impl TSerialize for i64 {
    open spec fn t_bytes(&self) -> Seq<u8> {
        i64_bytes(*self)
    }

    fn serialize(&self, w: &mut Vec<u8>) {
        let mut b = i64_to_ne(*self);
        w.append(&mut b);
    }
}

impl TDeserialize for i64 {
    open spec fn t_readable(b: Seq<u8>) -> bool {
        b.len() >= 8
    }

    open spec fn t_read_len(b: Seq<u8>) -> nat {
        8
    }

    open spec fn t_reads(b: Seq<u8>, v: Self) -> bool {
        v == read_i64(b.take(8))
    }

    fn deserialize<'a, S: ByteSource<'a>>(r: &mut S) -> (v: Self) {
        r.get_i64()
    }

    proof fn lemma_t_read_bounded(b: Seq<u8>) {
    }

    proof fn lemma_t_roundtrip(v: Self, tail: Seq<u8>) {
        lemma_primitive_bytes();
        assert((v.t_bytes() + tail).take(8) =~= v.t_bytes());
        assert((v.t_bytes() + tail)[0] == v.t_bytes()[0]);
    }
}

impl TSerialize for isize {
    open spec fn t_bytes(&self) -> Seq<u8> {
        isize_bytes(*self)
    }

    fn serialize(&self, w: &mut Vec<u8>) {
        let mut b = isize_to_ne(*self);
        w.append(&mut b);
    }
}

impl TDeserialize for isize {
    open spec fn t_readable(b: Seq<u8>) -> bool {
        b.len() >= 8
    }

    open spec fn t_read_len(b: Seq<u8>) -> nat {
        8
    }

    open spec fn t_reads(b: Seq<u8>, v: Self) -> bool {
        v == read_isize(b.take(8))
    }

    fn deserialize<'a, S: ByteSource<'a>>(r: &mut S) -> (v: Self) {
        r.get_isize()
    }

    proof fn lemma_t_read_bounded(b: Seq<u8>) {
    }

    proof fn lemma_t_roundtrip(v: Self, tail: Seq<u8>) {
        lemma_primitive_bytes();
        assert((v.t_bytes() + tail).take(8) =~= v.t_bytes());
        assert((v.t_bytes() + tail)[0] == v.t_bytes()[0]);
    }
}

// MARK: Strings

impl TSerialize for String {
    open spec fn t_bytes(&self) -> Seq<u8> {
        str_bytes(self@)
    }

    fn serialize(&self, w: &mut Vec<u8>) {
        let bytes = self.as_str().as_bytes();
        bytes.len().serialize(w);
        let mut b = slice_to_vec(bytes);
        w.append(&mut b);
        assert(w@ =~= old(w)@ + self.t_bytes());
    }
}

impl TDeserialize for String {
    open spec fn t_readable(b: Seq<u8>) -> bool {
        str_readable(b)
    }

    open spec fn t_read_len(b: Seq<u8>) -> nat {
        str_read_len(b)
    }

    open spec fn t_reads(b: Seq<u8>, v: Self) -> bool {
        v@ == str_read(b)
    }

    fn deserialize<'a, S: ByteSource<'a>>(r: &mut S) -> (v: Self) {
        r.get_string()
    }

    proof fn lemma_t_read_bounded(b: Seq<u8>) {
    }

    proof fn lemma_t_roundtrip(v: Self, tail: Seq<u8>) {
        lemma_str_roundtrip(v@, tail);
    }
}

// MARK: Option<T>

impl<T: TSerialize> TSerialize for Option<T> {
    open spec fn t_bytes(&self) -> Seq<u8> {
        match self {
            Some(v) => bool_bytes(true) + v.t_bytes(),
            None => bool_bytes(false),
        }
    }

    fn serialize(&self, w: &mut Vec<u8>) {
        if let Some(value) = self {
            true.serialize(w);
            value.serialize(w);
            assert(w@ =~= old(w)@ + self.t_bytes());
        } else {
            false.serialize(w);
        }
    }
}

impl<T: TDeserialize> TDeserialize for Option<T> {
    open spec fn t_readable(b: Seq<u8>) -> bool {
        &&& b.len() >= 1
        &&& b[0] != 0 ==> T::t_readable(b.skip(1))
    }

    open spec fn t_read_len(b: Seq<u8>) -> nat {
        if b[0] != 0 {
            1 + T::t_read_len(b.skip(1))
        } else {
            1
        }
    }

    open spec fn t_reads(b: Seq<u8>, v: Self) -> bool {
        match v {
            Some(x) => b[0] != 0 && T::t_reads(b.skip(1), x),
            None => b[0] == 0,
        }
    }

    fn deserialize<'a, S: ByteSource<'a>>(r: &mut S) -> (v: Self) {
        let ghost b = rest(r.source_buffer(), r.source_pos());
        let exists = bool::deserialize(r);
        assert(rest(r.source_buffer(), r.source_pos()) =~= b.skip(1));
        if exists {
            Some(T::deserialize(r))
        } else {
            None
        }
    }

    proof fn lemma_t_read_bounded(b: Seq<u8>) {
        if b[0] != 0 {
            T::lemma_t_read_bounded(b.skip(1));
        }
    }

    proof fn lemma_t_roundtrip(v: Self, tail: Seq<u8>) {
        let b = v.t_bytes() + tail;
        match v {
            Some(x) => {
                assert(b.skip(1) =~= x.t_bytes() + tail);
                T::lemma_t_roundtrip(x, tail);
            },
            None => {
            },
        }
        assert(b[0] == v.t_bytes()[0]);
    }
}

// MARK: Tuples

impl<T0: TSerialize, T1: TSerialize> TSerialize for (T0, T1) {
    open spec fn t_bytes(&self) -> Seq<u8> {
        self.0.t_bytes() + self.1.t_bytes()
    }

    fn serialize(&self, w: &mut Vec<u8>) {
        self.0.serialize(w);
        self.1.serialize(w);
        assert(w@ =~= old(w)@ + self.t_bytes());
    }
}

impl<T0: TDeserialize, T1: TDeserialize> TDeserialize for (T0, T1) {
    open spec fn t_readable(b: Seq<u8>) -> bool {
        &&& T0::t_readable(b)
        &&& T1::t_readable(b.skip(T0::t_read_len(b) as int))
    }

    open spec fn t_read_len(b: Seq<u8>) -> nat {
        T0::t_read_len(b) + T1::t_read_len(b.skip(T0::t_read_len(b) as int))
    }

    open spec fn t_reads(b: Seq<u8>, v: Self) -> bool {
        &&& T0::t_reads(b, v.0)
        &&& T1::t_reads(b.skip(T0::t_read_len(b) as int), v.1)
    }

    fn deserialize<'a, S: ByteSource<'a>>(r: &mut S) -> (v: Self) {
        let ghost b = rest(r.source_buffer(), r.source_pos());
        proof {
            T0::lemma_t_read_bounded(b);
        }
        let a = T0::deserialize(r);
        assert(rest(r.source_buffer(), r.source_pos()) =~= b.skip(T0::t_read_len(b) as int));
        let c = T1::deserialize(r);
        (a, c)
    }

    proof fn lemma_t_read_bounded(b: Seq<u8>) {
        T0::lemma_t_read_bounded(b);
        T1::lemma_t_read_bounded(b.skip(T0::t_read_len(b) as int));
    }

    proof fn lemma_t_roundtrip(v: Self, tail: Seq<u8>) {
        let b = v.t_bytes() + tail;
        assert(b =~= v.0.t_bytes() + (v.1.t_bytes() + tail));
        T0::lemma_t_roundtrip(v.0, v.1.t_bytes() + tail);
        assert(b.skip(v.0.t_bytes().len() as int) =~= v.1.t_bytes() + tail);
        T1::lemma_t_roundtrip(v.1, tail);
    }
}

impl<T0: TSerialize, T1: TSerialize, T2: TSerialize> TSerialize for (T0, T1, T2) {
    open spec fn t_bytes(&self) -> Seq<u8> {
        self.0.t_bytes() + self.1.t_bytes() + self.2.t_bytes()
    }

    fn serialize(&self, w: &mut Vec<u8>) {
        self.0.serialize(w);
        self.1.serialize(w);
        self.2.serialize(w);
        assert(w@ =~= old(w)@ + self.t_bytes());
    }
}

impl<T0: TDeserialize, T1: TDeserialize, T2: TDeserialize> TDeserialize for (T0, T1, T2) {
    open spec fn t_readable(b: Seq<u8>) -> bool {
        &&& T0::t_readable(b)
        &&& <(T1, T2)>::t_readable(b.skip(T0::t_read_len(b) as int))
    }

    open spec fn t_read_len(b: Seq<u8>) -> nat {
        T0::t_read_len(b) + <(T1, T2)>::t_read_len(b.skip(T0::t_read_len(b) as int))
    }

    open spec fn t_reads(b: Seq<u8>, v: Self) -> bool {
        &&& T0::t_reads(b, v.0)
        &&& <(T1, T2)>::t_reads(b.skip(T0::t_read_len(b) as int), (v.1, v.2))
    }

    fn deserialize<'a, S: ByteSource<'a>>(r: &mut S) -> (v: Self) {
        let ghost b = rest(r.source_buffer(), r.source_pos());
        proof {
            T0::lemma_t_read_bounded(b);
        }
        let a = T0::deserialize(r);
        assert(rest(r.source_buffer(), r.source_pos()) =~= b.skip(T0::t_read_len(b) as int));
        let (x, y) = <(T1, T2)>::deserialize(r);
        (a, x, y)
    }

    proof fn lemma_t_read_bounded(b: Seq<u8>) {
        T0::lemma_t_read_bounded(b);
        <(T1, T2)>::lemma_t_read_bounded(b.skip(T0::t_read_len(b) as int));
    }

    proof fn lemma_t_roundtrip(v: Self, tail: Seq<u8>) {
        let b = v.t_bytes() + tail;
        let bc = (v.1, v.2);
        assert(b =~= v.0.t_bytes() + (bc.t_bytes() + tail));
        T0::lemma_t_roundtrip(v.0, bc.t_bytes() + tail);
        assert(b.skip(v.0.t_bytes().len() as int) =~= bc.t_bytes() + tail);
        <(T1, T2)>::lemma_t_roundtrip(bc, tail);
        assert forall|w: Self| #[trigger] Self::t_reads(b, w) implies w.t_bytes() == v.t_bytes() by {
            let wbc = (w.1, w.2);
            assert(<(T1, T2)>::t_reads(bc.t_bytes() + tail, wbc));
            assert(w.t_bytes() =~= w.0.t_bytes() + wbc.t_bytes());
            assert(v.t_bytes() =~= v.0.t_bytes() + bc.t_bytes());
        }
    }
}

// MARK: Vectors

/// The bytes of a sequence of values, one after another.
pub open spec fn t_seq_bytes<T: TSerialize>(s: Seq<T>) -> Seq<u8>
    decreases s.len(),
{
    if s.len() == 0 {
        seq![]
    } else {
        t_seq_bytes(s.drop_last()) + s.last().t_bytes()
    }
}

/// The bytes of a vector: its length, then its elements.
pub open spec fn t_vec_bytes<T: TSerialize>(s: Seq<T>) -> Seq<u8> {
    usize_bytes(s.len() as usize) + t_seq_bytes(s)
}

/// How many bytes reading `k` values one after another from `b` consumes.
pub open spec fn elems_read_len<T: TDeserialize>(b: Seq<u8>, k: nat) -> nat
    decreases k,
{
    if k == 0 {
        0
    } else {
        let m = elems_read_len::<T>(b, (k - 1) as nat);
        m + T::t_read_len(b.skip(m as int))
    }
}

/// `k` values can be read one after another from `b`.
pub open spec fn elems_readable<T: TDeserialize>(b: Seq<u8>, k: nat) -> bool
    decreases k,
{
    if k == 0 {
        true
    } else {
        elems_readable::<T>(b, (k - 1) as nat) && T::t_readable(
            b.skip(elems_read_len::<T>(b, (k - 1) as nat) as int),
        )
    }
}

/// Reading `vs.len()` values one after another from `b` yields `vs`.
pub open spec fn elems_reads<T: TDeserialize>(b: Seq<u8>, vs: Seq<T>) -> bool
    decreases vs.len(),
{
    if vs.len() == 0 {
        true
    } else {
        elems_reads(b, vs.drop_last()) && T::t_reads(
            b.skip(elems_read_len::<T>(b, (vs.len() - 1) as nat) as int),
            vs.last(),
        )
    }
}

proof fn lemma_elems_readable_prefix<T: TDeserialize>(b: Seq<u8>, j: nat, k: nat)
    requires
        j <= k,
        elems_readable::<T>(b, k),
    ensures
        elems_readable::<T>(b, j),
        elems_read_len::<T>(b, j) <= b.len(),
    decreases k,
{
    if j < k {
        lemma_elems_readable_prefix::<T>(b, j, (k - 1) as nat);
    } else if k > 0 {
        lemma_elems_readable_prefix::<T>(b, (k - 1) as nat, (k - 1) as nat);
        let m = elems_read_len::<T>(b, (k - 1) as nat);
        T::lemma_t_read_bounded(b.skip(m as int));
    }
}

proof fn lemma_t_seq_split<T: TSerialize>(s: Seq<T>, j: int)
    requires
        0 <= j <= s.len(),
    ensures
        t_seq_bytes(s) == t_seq_bytes(s.take(j)) + t_seq_bytes(s.skip(j)),
    decreases s.len(),
{
    if j == s.len() {
        assert(s.take(j) =~= s);
        assert(t_seq_bytes(s.skip(j)) =~= seq![]);
        assert(t_seq_bytes(s) =~= t_seq_bytes(s.take(j)) + t_seq_bytes(s.skip(j)));
    } else {
        let d = s.drop_last();
        lemma_t_seq_split(d, j);
        assert(d.take(j) =~= s.take(j));
        assert(s.skip(j).drop_last() =~= d.skip(j));
        assert(t_seq_bytes(s) =~= t_seq_bytes(s.take(j)) + t_seq_bytes(s.skip(j)));
    }
}

proof fn lemma_t_seq_len_bound<T: TSerialize>(s: Seq<T>, i: int)
    requires
        0 <= i < s.len(),
    ensures
        t_seq_bytes(s.take(i)).len() + s[i].t_bytes().len() <= t_seq_bytes(s).len(),
        t_seq_bytes(s.take(i + 1)) == t_seq_bytes(s.take(i)) + s[i].t_bytes(),
{
    lemma_t_seq_split(s, i + 1);
    assert(s.take(i + 1).drop_last() =~= s.take(i));
}

/// Reading back the elements of `vs` from their bytes followed by `tail`.
proof fn lemma_elems_roundtrip<T: TDeserialize>(vs: Seq<T>, tail: Seq<u8>, k: nat)
    requires
        k <= vs.len(),
        t_seq_bytes(vs).len() <= usize::MAX,
    ensures
        elems_readable::<T>(t_seq_bytes(vs) + tail, k),
        elems_read_len::<T>(t_seq_bytes(vs) + tail, k) == t_seq_bytes(vs.take(k as int)).len(),
        forall|ws: Seq<T>|
            ws.len() == k && #[trigger] elems_reads(t_seq_bytes(vs) + tail, ws) ==> t_seq_bytes(ws)
                == t_seq_bytes(vs.take(k as int)) && forall|i: int|
                0 <= i < k ==> (#[trigger] ws[i]).deep_view() == vs[i].deep_view(),
    decreases k,
{
    let b = t_seq_bytes(vs) + tail;
    if k == 0 {
        assert forall|ws: Seq<T>|
            ws.len() == k && #[trigger] elems_reads(b, ws) implies t_seq_bytes(ws) == t_seq_bytes(
            vs.take(k as int),
        ) && forall|i: int| 0 <= i < k ==> (#[trigger] ws[i]).deep_view() == vs[i].deep_view() by {
            assert(vs.take(0) =~= Seq::<T>::empty());
            assert(ws =~= Seq::<T>::empty());
        }
    } else {
        let j = (k - 1) as int;
        lemma_elems_roundtrip(vs, tail, (k - 1) as nat);
        lemma_t_seq_len_bound(vs, j);
        lemma_t_seq_split(vs, j + 1);
        let m = t_seq_bytes(vs.take(j)).len();
        let x = vs[j];
        let after = t_seq_bytes(vs.skip(j + 1)) + tail;
        assert(b.skip(m as int) =~= x.t_bytes() + after);
        T::lemma_t_roundtrip(x, after);
        assert forall|ws: Seq<T>|
            ws.len() == k && #[trigger] elems_reads(b, ws) implies t_seq_bytes(ws) == t_seq_bytes(
            vs.take(k as int),
        ) && forall|i: int| 0 <= i < k ==> (#[trigger] ws[i]).deep_view() == vs[i].deep_view() by {
            let wd = ws.drop_last();
            assert(elems_reads(b, wd));
            assert(T::t_reads(x.t_bytes() + after, ws.last()));
            assert forall|i: int| 0 <= i < k implies (#[trigger] ws[i]).deep_view()
                == vs[i].deep_view() by {
                if i < j {
                    assert(wd[i] == ws[i]);
                }
            }
        }
    }
}

impl<T: TSerialize> TSerialize for Vec<T> {
    open spec fn t_bytes(&self) -> Seq<u8> {
        t_vec_bytes(self@)
    }

    fn serialize(&self, w: &mut Vec<u8>) {
        serialize_pod_slice(self.as_slice(), w);
    }
}

impl<T: TDeserialize> TDeserialize for Vec<T> {
    open spec fn t_readable(b: Seq<u8>) -> bool {
        &&& b.len() >= 8
        &&& elems_readable::<T>(b.skip(8), read_usize(b.take(8)) as nat)
    }

    open spec fn t_read_len(b: Seq<u8>) -> nat {
        8 + elems_read_len::<T>(b.skip(8), read_usize(b.take(8)) as nat)
    }

    open spec fn t_reads(b: Seq<u8>, v: Self) -> bool {
        &&& v@.len() == read_usize(b.take(8))
        &&& elems_reads(b.skip(8), v@)
    }

    fn deserialize<'a, S: ByteSource<'a>>(r: &mut S) -> (v: Self) {
        deserialize_pod_slice(r)
    }

    proof fn lemma_t_read_bounded(b: Seq<u8>) {
        let c = read_usize(b.take(8)) as nat;
        lemma_elems_readable_prefix::<T>(b.skip(8), c, c);
    }

    proof fn lemma_t_roundtrip(v: Self, tail: Seq<u8>) {
        lemma_primitive_bytes();
        broadcast use vstd::std_specs::vec::axiom_spec_len;

        assert(v.len() == v@.len());
        let n = v@.len();
        let b = v.t_bytes() + tail;
        assert(b.take(8) =~= usize_bytes(n as usize));
        assert(b.skip(8) =~= t_seq_bytes(v@) + tail);
        lemma_elems_roundtrip(v@, tail, n);
        assert(v@.take(n as int) =~= v@);
        assert forall|w: Self| #[trigger] Self::t_reads(b, w) implies w.t_bytes() == v.t_bytes()
            && w.deep_view() == v.deep_view() by {
            assert(w@.len() == n);
            assert(w.deep_view() =~= v.deep_view());
        }
    }
}

/// Serialize a slice: its length, then each element.  The elements of a
/// slice of plain values are thereby their memory representation.
pub fn serialize_pod_slice<T: TSerialize>(slice: &[T], w: &mut Vec<u8>)
    ensures
        final(w)@ == old(w)@ + t_vec_bytes(slice@),
{
    slice.len().serialize(w);
    let n = slice.len();
    let mut i: usize = 0;
    while i < n
        invariant
            0 <= i <= n,
            n == slice@.len(),
            w@ == old(w)@ + usize_bytes(n) + t_seq_bytes(slice@.take(i as int)),
        decreases n - i,
    {
        proof {
            lemma_t_seq_len_bound(slice@, i as int);
        }
        slice[i].serialize(w);
        i = i + 1;
        assert(w@ =~= old(w)@ + usize_bytes(n) + t_seq_bytes(slice@.take(i as int)));
    }
    assert(slice@.take(n as int) =~= slice@);
    assert(w@ =~= old(w)@ + t_vec_bytes(slice@));
}

/// Deserialize a vector: its length, then that many elements.
pub fn deserialize_pod_slice<'a, T: TDeserialize, S: ByteSource<'a>>(r: &mut S) -> (v: Vec<T>)
    requires
        old(r).source_pos() <= old(r).source_buffer().len(),
        <Vec<T>>::t_readable(rest(old(r).source_buffer(), old(r).source_pos())),
    ensures
        consumed(
            old(r).source_buffer(),
            old(r).source_pos(),
            final(r).source_buffer(),
            final(r).source_pos(),
            <Vec<T>>::t_read_len(rest(old(r).source_buffer(), old(r).source_pos())),
        ),
        <Vec<T>>::t_reads(rest(old(r).source_buffer(), old(r).source_pos()), v),
{
    let ghost b = rest(r.source_buffer(), r.source_pos());
    let ghost p0 = r.source_pos();
    let count = usize::deserialize(r);
    let ghost b8 = b.skip(8);
    assert(rest(r.source_buffer(), r.source_pos()) =~= b8);
    let mut ret: Vec<T> = Vec::new();
    let mut i: usize = 0;
    while i < count
        invariant
            0 <= i <= count,
            count == read_usize(b.take(8)),
            b8 == b.skip(8),
            b.len() >= 8,
            b == rest(old(r).source_buffer(), p0),
            p0 == old(r).source_pos(),
            p0 <= old(r).source_buffer().len(),
            elems_readable::<T>(b8, count as nat),
            r.source_buffer() == old(r).source_buffer(),
            r.source_pos() == p0 + 8 + elems_read_len::<T>(b8, i as nat),
            ret@.len() == i,
            elems_reads(b8, ret@),
        decreases count - i,
    {
        proof {
            lemma_elems_readable_prefix::<T>(b8, (i + 1) as nat, count as nat);
            lemma_elems_readable_prefix::<T>(b8, i as nat, count as nat);
        }
        let ghost m = elems_read_len::<T>(b8, i as nat);
        assert(rest(r.source_buffer(), r.source_pos()) =~= b8.skip(m as int));
        let x = T::deserialize(r);
        let ghost old_ret = ret@;
        ret.push(x);
        proof {
            assert(ret@.drop_last() =~= old_ret);
        }
        i = i + 1;
    }
    ret
}

/// What `serialize` appends is what `deserialize` takes back: after
/// serializing `v` behind `prefix`, reading from the end of `prefix` consumes
/// exactly `v`'s bytes and yields `v` again: a value with `v`'s bytes and
/// `v`'s contents.
pub proof fn lemma_serialize_then_deserialize<T: TDeserialize>(prefix: Seq<u8>, v: T)
    requires
        v.t_bytes().len() <= usize::MAX,
    ensures
        ({
            let after = rest(prefix + v.t_bytes(), prefix.len());
            &&& T::t_readable(after)
            &&& T::t_read_len(after) == v.t_bytes().len()
            &&& forall|w: T| #[trigger]
                T::t_reads(after, w) ==> w.t_bytes() == v.t_bytes() && w.deep_view()
                    == v.deep_view()
        }),
{
    assert(rest(prefix + v.t_bytes(), prefix.len()) =~= v.t_bytes() + Seq::<u8>::empty());
    T::lemma_t_roundtrip(v, Seq::<u8>::empty());
}

} // verus!
