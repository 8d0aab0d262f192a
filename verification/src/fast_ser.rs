//! Serialization traits and their encodings for primitives, strings,
//! vectors of primitives, options, results, boxes and small tuples.
//!
//! Implementations are symmetric: the bytes that `write_fast` puts for a
//! value are read back by `read_fast` as a value with the same bytes.
use crate::fast_io::{
    splice,
    bool_bytes, consumed, fits, i16_bytes, i32_bytes, i64_bytes, i8_bytes, isize_bytes,
    lemma_primitive_bytes, lemma_wrote_twice, read_bool, read_i16, read_i32, read_i64, read_isize,
    read_u16, read_u32, read_u64, read_usize, rest, str_bytes, str_read, str_read_len,
    str_readable, u16_bytes, u32_bytes, u64_bytes, u8_bytes, usize_bytes, wrote, ByteSink,
    ByteSource,
};
use vstd::prelude::*;
use vstd::utf8::{encode_utf8, encode_utf8_decode_utf8, encode_utf8_valid_utf8};

verus! {

/// Encode a value into a `ByteSink`.
pub trait FastWrite {
    /// The bytes that `write_fast` puts for this value.
    spec fn fast_bytes(&self) -> Seq<u8>;

    /// Encode `self` into `w`, advancing it by exactly the encoding's length.
    fn write_fast<W: ByteSink>(&self, w: &mut W)
        requires
            fits(old(w).sink_buffer(), old(w).sink_pos(), self.fast_bytes().len()),
        ensures
            wrote(
                old(w).sink_buffer(),
                old(w).sink_pos(),
                final(w).sink_buffer(),
                final(w).sink_pos(),
                self.fast_bytes(),
            ),
    ;
}

/// Decode a value from a `ByteSource`.
pub trait FastRead: FastWrite + Sized {
    /// What a value holds: the value itself for a primitive or a plain
    /// struct, the text of a string, the elements' values for a vector or
    /// an array, and so on.
    type Value;

    spec fn fast_value(&self) -> Self::Value;

    /// The bytes start with something this type can read.
    spec fn fast_readable(b: Seq<u8>) -> bool;

    /// How many bytes reading from the start of `b` consumes.
    spec fn fast_read_len(b: Seq<u8>) -> nat;

    /// Reading from the start of `b` yields `v`.
    spec fn fast_reads(b: Seq<u8>, v: Self) -> bool;

    /// Decode a value from `r`, reading exactly the bytes that it needs.
    fn read_fast<'a, S: ByteSource<'a>>(r: &mut S) -> (v: Self)
        requires
            old(r).source_pos() <= old(r).source_buffer().len(),
            Self::fast_readable(rest(old(r).source_buffer(), old(r).source_pos())),
        ensures
            consumed(
                old(r).source_buffer(),
                old(r).source_pos(),
                final(r).source_buffer(),
                final(r).source_pos(),
                Self::fast_read_len(rest(old(r).source_buffer(), old(r).source_pos())),
            ),
            Self::fast_reads(rest(old(r).source_buffer(), old(r).source_pos()), v),
    ;

    /// A read never consumes more bytes than there are.
    proof fn lemma_read_bounded(b: Seq<u8>)
        requires
            Self::fast_readable(b),
        ensures
            Self::fast_read_len(b) <= b.len(),
    ;

    /// Whatever follows a value's bytes, reading them back consumes exactly
    /// those bytes and yields the same value: one with the same bytes that
    /// holds the same.  (Bytes that a buffer can hold are at most
    /// `usize::MAX` long.)
    proof fn lemma_roundtrip(v: Self, tail: Seq<u8>)
        requires
            v.fast_bytes().len() <= usize::MAX,
        ensures
            Self::fast_readable(v.fast_bytes() + tail),
            Self::fast_read_len(v.fast_bytes() + tail) == v.fast_bytes().len(),
            forall|w: Self| #[trigger]
                Self::fast_reads(v.fast_bytes() + tail, w) ==> w.fast_bytes() == v.fast_bytes()
                    && w.fast_value() == v.fast_value(),
    ;
}

/// Plain fixed-width values whose bytes are their memory representation.
pub trait FastPod: FastRead {
    spec fn pod_width() -> nat;

    /// A plain value's bytes determine what it holds.
    proof fn lemma_pod_injective(v: Self, w: Self)
        requires
            v.fast_bytes() == w.fast_bytes(),
        ensures
            v.fast_value() == w.fast_value(),
    ;

    proof fn lemma_pod(v: Self, b: Seq<u8>)
        ensures
            Self::pod_width() > 0,
            v.fast_bytes().len() == Self::pod_width(),
            Self::fast_read_len(b) == Self::pod_width(),
            Self::fast_readable(b) <==> b.len() >= Self::pod_width(),
            b.len() >= Self::pod_width() ==> (Self::fast_reads(b, v) <==> b.take(
                Self::pod_width() as int,
            ) == v.fast_bytes()),
    ;
}

/// Convenience wrapper to read a type implementing `FastRead`.
pub fn read_fast<'a, T: FastRead, S: ByteSource<'a>>(r: &mut S) -> (v: T)
    requires
        old(r).source_pos() <= old(r).source_buffer().len(),
        T::fast_readable(rest(old(r).source_buffer(), old(r).source_pos())),
    ensures
        consumed(
            old(r).source_buffer(),
            old(r).source_pos(),
            final(r).source_buffer(),
            final(r).source_pos(),
            T::fast_read_len(rest(old(r).source_buffer(), old(r).source_pos())),
        ),
        T::fast_reads(rest(old(r).source_buffer(), old(r).source_pos()), v),
{
    T::read_fast(r)
}

// MARK: Primitives & PODs

impl FastWrite for u8 {
    open spec fn fast_bytes(&self) -> Seq<u8> {
        u8_bytes(*self)
    }

    fn write_fast<W: ByteSink>(&self, w: &mut W) {
        proof {
            lemma_primitive_bytes();
        }
        w.put_u8(*self);
    }
}

impl FastRead for u8 {
    type Value = u8;

    open spec fn fast_value(&self) -> u8 {
        *self
    }

    open spec fn fast_readable(b: Seq<u8>) -> bool {
        b.len() >= 1
    }

    open spec fn fast_read_len(b: Seq<u8>) -> nat {
        1
    }

    open spec fn fast_reads(b: Seq<u8>, v: Self) -> bool {
        v == b[0]
    }

    fn read_fast<'a, S: ByteSource<'a>>(r: &mut S) -> (v: Self) {
        let v = r.get_u8();
        proof {
            lemma_primitive_bytes();
        }
        v
    }

    proof fn lemma_read_bounded(b: Seq<u8>) {
    }

    proof fn lemma_roundtrip(v: Self, rest: Seq<u8>) {
        lemma_primitive_bytes();
        assert((v.fast_bytes() + rest).take(1) =~= v.fast_bytes());
        assert((v.fast_bytes() + rest)[0] == v.fast_bytes()[0]);
    }
}

impl FastPod for u8 {
    proof fn lemma_pod_injective(v: Self, w: Self) {
        lemma_primitive_bytes();
        assert(u8_bytes(v)[0] == v && u8_bytes(w)[0] == w);
    }

    open spec fn pod_width() -> nat {
        1
    }

    proof fn lemma_pod(v: Self, b: Seq<u8>) {
        lemma_primitive_bytes();
        if b.len() >= 1 {
            let t = b.take(1);
            assert(u8_bytes(t[0]) == t);
            assert(t[0] == b[0]);
        }
    }
}


impl FastWrite for i8 {
    open spec fn fast_bytes(&self) -> Seq<u8> {
        i8_bytes(*self)
    }

    fn write_fast<W: ByteSink>(&self, w: &mut W) {
        proof {
            lemma_primitive_bytes();
        }
        w.put_i8(*self);
    }
}

impl FastRead for i8 {
    type Value = i8;

    open spec fn fast_value(&self) -> i8 {
        *self
    }

    open spec fn fast_readable(b: Seq<u8>) -> bool {
        b.len() >= 1
    }

    open spec fn fast_read_len(b: Seq<u8>) -> nat {
        1
    }

    open spec fn fast_reads(b: Seq<u8>, v: Self) -> bool {
        v == b[0] as i8
    }

    fn read_fast<'a, S: ByteSource<'a>>(r: &mut S) -> (v: Self) {
        let v = r.get_i8();
        proof {
            lemma_primitive_bytes();
        }
        v
    }

    proof fn lemma_read_bounded(b: Seq<u8>) {
    }

    proof fn lemma_roundtrip(v: Self, rest: Seq<u8>) {
        lemma_primitive_bytes();
        assert((v.fast_bytes() + rest).take(1) =~= v.fast_bytes());
        assert((v.fast_bytes() + rest)[0] == v.fast_bytes()[0]);
    }
}

impl FastPod for i8 {
    proof fn lemma_pod_injective(v: Self, w: Self) {
        lemma_primitive_bytes();
        assert(i8_bytes(v).len() == 1 && i8_bytes(w).len() == 1);
        assert((i8_bytes(v)[0] as i8) == v && (i8_bytes(w)[0] as i8) == w);
    }

    open spec fn pod_width() -> nat {
        1
    }

    proof fn lemma_pod(v: Self, b: Seq<u8>) {
        lemma_primitive_bytes();
        if b.len() >= 1 {
            let t = b.take(1);
            assert(i8_bytes(t[0] as i8) == t);
            assert(t[0] == b[0]);
        }
    }
}


impl FastWrite for u16 {
    open spec fn fast_bytes(&self) -> Seq<u8> {
        u16_bytes(*self)
    }

    fn write_fast<W: ByteSink>(&self, w: &mut W) {
        proof {
            lemma_primitive_bytes();
        }
        w.put_u16(*self);
    }
}

impl FastRead for u16 {
    type Value = u16;

    open spec fn fast_value(&self) -> u16 {
        *self
    }

    open spec fn fast_readable(b: Seq<u8>) -> bool {
        b.len() >= 2
    }

    open spec fn fast_read_len(b: Seq<u8>) -> nat {
        2
    }

    open spec fn fast_reads(b: Seq<u8>, v: Self) -> bool {
        v == read_u16(b.take(2))
    }

    fn read_fast<'a, S: ByteSource<'a>>(r: &mut S) -> (v: Self) {
        let v = r.get_u16();
        proof {
            lemma_primitive_bytes();
        }
        v
    }

    proof fn lemma_read_bounded(b: Seq<u8>) {
    }

    proof fn lemma_roundtrip(v: Self, rest: Seq<u8>) {
        lemma_primitive_bytes();
        assert((v.fast_bytes() + rest).take(2) =~= v.fast_bytes());
        assert((v.fast_bytes() + rest)[0] == v.fast_bytes()[0]);
    }
}

impl FastPod for u16 {
    proof fn lemma_pod_injective(v: Self, w: Self) {
        lemma_primitive_bytes();
        assert(u16_bytes(v).len() == 2 && u16_bytes(w).len() == 2);
        assert(read_u16(u16_bytes(v)) == v && read_u16(u16_bytes(w)) == w);
    }

    open spec fn pod_width() -> nat {
        2
    }

    proof fn lemma_pod(v: Self, b: Seq<u8>) {
        lemma_primitive_bytes();
        if b.len() >= 2 {
            let t = b.take(2);
            assert(u16_bytes(read_u16(t)) == t);
            assert(t[0] == b[0]);
        }
    }
}


impl FastWrite for i16 {
    open spec fn fast_bytes(&self) -> Seq<u8> {
        i16_bytes(*self)
    }

    fn write_fast<W: ByteSink>(&self, w: &mut W) {
        proof {
            lemma_primitive_bytes();
        }
        w.put_i16(*self);
    }
}

impl FastRead for i16 {
    type Value = i16;

    open spec fn fast_value(&self) -> i16 {
        *self
    }

    open spec fn fast_readable(b: Seq<u8>) -> bool {
        b.len() >= 2
    }

    open spec fn fast_read_len(b: Seq<u8>) -> nat {
        2
    }

    open spec fn fast_reads(b: Seq<u8>, v: Self) -> bool {
        v == read_i16(b.take(2))
    }

    fn read_fast<'a, S: ByteSource<'a>>(r: &mut S) -> (v: Self) {
        let v = r.get_i16();
        proof {
            lemma_primitive_bytes();
        }
        v
    }

    proof fn lemma_read_bounded(b: Seq<u8>) {
    }

    proof fn lemma_roundtrip(v: Self, rest: Seq<u8>) {
        lemma_primitive_bytes();
        assert((v.fast_bytes() + rest).take(2) =~= v.fast_bytes());
        assert((v.fast_bytes() + rest)[0] == v.fast_bytes()[0]);
    }
}

impl FastPod for i16 {
    proof fn lemma_pod_injective(v: Self, w: Self) {
        lemma_primitive_bytes();
        assert(i16_bytes(v).len() == 2 && i16_bytes(w).len() == 2);
        assert(read_i16(i16_bytes(v)) == v && read_i16(i16_bytes(w)) == w);
    }

    open spec fn pod_width() -> nat {
        2
    }

    proof fn lemma_pod(v: Self, b: Seq<u8>) {
        lemma_primitive_bytes();
        if b.len() >= 2 {
            let t = b.take(2);
            assert(i16_bytes(read_i16(t)) == t);
            assert(t[0] == b[0]);
        }
    }
}


impl FastWrite for u32 {
    open spec fn fast_bytes(&self) -> Seq<u8> {
        u32_bytes(*self)
    }

    fn write_fast<W: ByteSink>(&self, w: &mut W) {
        proof {
            lemma_primitive_bytes();
        }
        w.put_u32(*self);
    }
}

impl FastRead for u32 {
    type Value = u32;

    open spec fn fast_value(&self) -> u32 {
        *self
    }

    open spec fn fast_readable(b: Seq<u8>) -> bool {
        b.len() >= 4
    }

    open spec fn fast_read_len(b: Seq<u8>) -> nat {
        4
    }

    open spec fn fast_reads(b: Seq<u8>, v: Self) -> bool {
        v == read_u32(b.take(4))
    }

    fn read_fast<'a, S: ByteSource<'a>>(r: &mut S) -> (v: Self) {
        let v = r.get_u32();
        proof {
            lemma_primitive_bytes();
        }
        v
    }

    proof fn lemma_read_bounded(b: Seq<u8>) {
    }

    proof fn lemma_roundtrip(v: Self, rest: Seq<u8>) {
        lemma_primitive_bytes();
        assert((v.fast_bytes() + rest).take(4) =~= v.fast_bytes());
        assert((v.fast_bytes() + rest)[0] == v.fast_bytes()[0]);
    }
}

impl FastPod for u32 {
    proof fn lemma_pod_injective(v: Self, w: Self) {
        lemma_primitive_bytes();
        assert(u32_bytes(v).len() == 4 && u32_bytes(w).len() == 4);
        assert(read_u32(u32_bytes(v)) == v && read_u32(u32_bytes(w)) == w);
    }

    open spec fn pod_width() -> nat {
        4
    }

    proof fn lemma_pod(v: Self, b: Seq<u8>) {
        lemma_primitive_bytes();
        if b.len() >= 4 {
            let t = b.take(4);
            assert(u32_bytes(read_u32(t)) == t);
            assert(t[0] == b[0]);
        }
    }
}


impl FastWrite for i32 {
    open spec fn fast_bytes(&self) -> Seq<u8> {
        i32_bytes(*self)
    }

    fn write_fast<W: ByteSink>(&self, w: &mut W) {
        proof {
            lemma_primitive_bytes();
        }
        w.put_i32(*self);
    }
}

impl FastRead for i32 {
    type Value = i32;

    open spec fn fast_value(&self) -> i32 {
        *self
    }

    open spec fn fast_readable(b: Seq<u8>) -> bool {
        b.len() >= 4
    }

    open spec fn fast_read_len(b: Seq<u8>) -> nat {
        4
    }

    open spec fn fast_reads(b: Seq<u8>, v: Self) -> bool {
        v == read_i32(b.take(4))
    }

    fn read_fast<'a, S: ByteSource<'a>>(r: &mut S) -> (v: Self) {
        let v = r.get_i32();
        proof {
            lemma_primitive_bytes();
        }
        v
    }

    proof fn lemma_read_bounded(b: Seq<u8>) {
    }

    proof fn lemma_roundtrip(v: Self, rest: Seq<u8>) {
        lemma_primitive_bytes();
        assert((v.fast_bytes() + rest).take(4) =~= v.fast_bytes());
        assert((v.fast_bytes() + rest)[0] == v.fast_bytes()[0]);
    }
}

impl FastPod for i32 {
    proof fn lemma_pod_injective(v: Self, w: Self) {
        lemma_primitive_bytes();
        assert(i32_bytes(v).len() == 4 && i32_bytes(w).len() == 4);
        assert(read_i32(i32_bytes(v)) == v && read_i32(i32_bytes(w)) == w);
    }

    open spec fn pod_width() -> nat {
        4
    }

    proof fn lemma_pod(v: Self, b: Seq<u8>) {
        lemma_primitive_bytes();
        if b.len() >= 4 {
            let t = b.take(4);
            assert(i32_bytes(read_i32(t)) == t);
            assert(t[0] == b[0]);
        }
    }
}


impl FastWrite for u64 {
    open spec fn fast_bytes(&self) -> Seq<u8> {
        u64_bytes(*self)
    }

    fn write_fast<W: ByteSink>(&self, w: &mut W) {
        proof {
            lemma_primitive_bytes();
        }
        w.put_u64(*self);
    }
}

impl FastRead for u64 {
    type Value = u64;

    open spec fn fast_value(&self) -> u64 {
        *self
    }

    open spec fn fast_readable(b: Seq<u8>) -> bool {
        b.len() >= 8
    }

    open spec fn fast_read_len(b: Seq<u8>) -> nat {
        8
    }

    open spec fn fast_reads(b: Seq<u8>, v: Self) -> bool {
        v == read_u64(b.take(8))
    }

    fn read_fast<'a, S: ByteSource<'a>>(r: &mut S) -> (v: Self) {
        let v = r.get_u64();
        proof {
            lemma_primitive_bytes();
        }
        v
    }

    proof fn lemma_read_bounded(b: Seq<u8>) {
    }

    proof fn lemma_roundtrip(v: Self, rest: Seq<u8>) {
        lemma_primitive_bytes();
        assert((v.fast_bytes() + rest).take(8) =~= v.fast_bytes());
        assert((v.fast_bytes() + rest)[0] == v.fast_bytes()[0]);
    }
}


impl FastWrite for i64 {
    open spec fn fast_bytes(&self) -> Seq<u8> {
        i64_bytes(*self)
    }

    fn write_fast<W: ByteSink>(&self, w: &mut W) {
        proof {
            lemma_primitive_bytes();
        }
        w.put_i64(*self);
    }
}

impl FastRead for i64 {
    type Value = i64;

    open spec fn fast_value(&self) -> i64 {
        *self
    }

    open spec fn fast_readable(b: Seq<u8>) -> bool {
        b.len() >= 8
    }

    open spec fn fast_read_len(b: Seq<u8>) -> nat {
        8
    }

    open spec fn fast_reads(b: Seq<u8>, v: Self) -> bool {
        v == read_i64(b.take(8))
    }

    fn read_fast<'a, S: ByteSource<'a>>(r: &mut S) -> (v: Self) {
        let v = r.get_i64();
        proof {
            lemma_primitive_bytes();
        }
        v
    }

    proof fn lemma_read_bounded(b: Seq<u8>) {
    }

    proof fn lemma_roundtrip(v: Self, rest: Seq<u8>) {
        lemma_primitive_bytes();
        assert((v.fast_bytes() + rest).take(8) =~= v.fast_bytes());
        assert((v.fast_bytes() + rest)[0] == v.fast_bytes()[0]);
    }
}


impl FastWrite for usize {
    open spec fn fast_bytes(&self) -> Seq<u8> {
        usize_bytes(*self)
    }

    fn write_fast<W: ByteSink>(&self, w: &mut W) {
        proof {
            lemma_primitive_bytes();
        }
        w.put_usize(*self);
    }
}

impl FastRead for usize {
    type Value = usize;

    open spec fn fast_value(&self) -> usize {
        *self
    }

    open spec fn fast_readable(b: Seq<u8>) -> bool {
        b.len() >= 8
    }

    open spec fn fast_read_len(b: Seq<u8>) -> nat {
        8
    }

    open spec fn fast_reads(b: Seq<u8>, v: Self) -> bool {
        v == read_usize(b.take(8))
    }

    fn read_fast<'a, S: ByteSource<'a>>(r: &mut S) -> (v: Self) {
        let v = r.get_usize();
        proof {
            lemma_primitive_bytes();
        }
        v
    }

    proof fn lemma_read_bounded(b: Seq<u8>) {
    }

    proof fn lemma_roundtrip(v: Self, rest: Seq<u8>) {
        lemma_primitive_bytes();
        assert((v.fast_bytes() + rest).take(8) =~= v.fast_bytes());
        assert((v.fast_bytes() + rest)[0] == v.fast_bytes()[0]);
    }
}


impl FastWrite for isize {
    open spec fn fast_bytes(&self) -> Seq<u8> {
        isize_bytes(*self)
    }

    fn write_fast<W: ByteSink>(&self, w: &mut W) {
        proof {
            lemma_primitive_bytes();
        }
        w.put_isize(*self);
    }
}

impl FastRead for isize {
    type Value = isize;

    open spec fn fast_value(&self) -> isize {
        *self
    }

    open spec fn fast_readable(b: Seq<u8>) -> bool {
        b.len() >= 8
    }

    open spec fn fast_read_len(b: Seq<u8>) -> nat {
        8
    }

    open spec fn fast_reads(b: Seq<u8>, v: Self) -> bool {
        v == read_isize(b.take(8))
    }

    fn read_fast<'a, S: ByteSource<'a>>(r: &mut S) -> (v: Self) {
        let v = r.get_isize();
        proof {
            lemma_primitive_bytes();
        }
        v
    }

    proof fn lemma_read_bounded(b: Seq<u8>) {
    }

    proof fn lemma_roundtrip(v: Self, rest: Seq<u8>) {
        lemma_primitive_bytes();
        assert((v.fast_bytes() + rest).take(8) =~= v.fast_bytes());
        assert((v.fast_bytes() + rest)[0] == v.fast_bytes()[0]);
    }
}


impl FastWrite for bool {
    open spec fn fast_bytes(&self) -> Seq<u8> {
        bool_bytes(*self)
    }

    fn write_fast<W: ByteSink>(&self, w: &mut W) {
        w.put_bool(*self);
    }
}

impl FastRead for bool {
    type Value = bool;

    open spec fn fast_value(&self) -> bool {
        *self
    }

    open spec fn fast_readable(b: Seq<u8>) -> bool {
        b.len() >= 1
    }

    open spec fn fast_read_len(b: Seq<u8>) -> nat {
        1
    }

    open spec fn fast_reads(b: Seq<u8>, v: Self) -> bool {
        v == read_bool(b)
    }

    fn read_fast<'a, S: ByteSource<'a>>(r: &mut S) -> (v: Self) {
        r.get_bool()
    }

    proof fn lemma_read_bounded(b: Seq<u8>) {
    }

    proof fn lemma_roundtrip(v: Self, tail: Seq<u8>) {
        assert((v.fast_bytes() + tail)[0] == v.fast_bytes()[0]);
    }
}

// MARK: Strings

impl FastWrite for String {
    open spec fn fast_bytes(&self) -> Seq<u8> {
        str_bytes(self@)
    }

    fn write_fast<W: ByteSink>(&self, w: &mut W) {
        w.put_str(self.as_str());
    }
}

impl<'s> FastWrite for &'s str {
    open spec fn fast_bytes(&self) -> Seq<u8> {
        str_bytes(self@)
    }

    fn write_fast<W: ByteSink>(&self, w: &mut W) {
        w.put_str(*self);
    }
}

impl FastRead for String {
    type Value = Seq<char>;

    open spec fn fast_value(&self) -> Seq<char> {
        self@
    }

    open spec fn fast_readable(b: Seq<u8>) -> bool {
        str_readable(b)
    }

    open spec fn fast_read_len(b: Seq<u8>) -> nat {
        str_read_len(b)
    }

    open spec fn fast_reads(b: Seq<u8>, v: Self) -> bool {
        v@ == str_read(b)
    }

    fn read_fast<'a, S: ByteSource<'a>>(r: &mut S) -> (v: Self) {
        r.get_string()
    }

    proof fn lemma_read_bounded(b: Seq<u8>) {
    }

    proof fn lemma_roundtrip(v: Self, tail: Seq<u8>) {
        lemma_str_roundtrip(v@, tail);
    }
}

/// A string's bytes, whatever follows them, read back as that string.
pub proof fn lemma_str_roundtrip(s: Seq<char>, tail: Seq<u8>)
    requires
        str_bytes(s).len() <= usize::MAX,
    ensures
        str_readable(str_bytes(s) + tail),
        str_read_len(str_bytes(s) + tail) == str_bytes(s).len(),
        str_read(str_bytes(s) + tail) == s,
{
    lemma_primitive_bytes();
    let enc = encode_utf8(s);
    let b = str_bytes(s) + tail;
    assert(b.take(8) =~= usize_bytes(enc.len() as usize));
    assert(b.subrange(8, 8 + enc.len() as int) =~= enc);
    encode_utf8_valid_utf8(s);
    encode_utf8_decode_utf8(s);
}

// MARK: References and boxes

impl<T: FastWrite> FastWrite for &T {
    open spec fn fast_bytes(&self) -> Seq<u8> {
        (**self).fast_bytes()
    }

    fn write_fast<W: ByteSink>(&self, w: &mut W) {
        (**self).write_fast(w);
    }
}

impl<T: FastWrite> FastWrite for Box<T> {
    open spec fn fast_bytes(&self) -> Seq<u8> {
        (**self).fast_bytes()
    }

    fn write_fast<W: ByteSink>(&self, w: &mut W) {
        let t: &T = &**self;
        t.write_fast(w);
    }
}

impl<T: FastRead> FastRead for Box<T> {
    type Value = T::Value;

    open spec fn fast_value(&self) -> T::Value {
        (**self).fast_value()
    }

    open spec fn fast_readable(b: Seq<u8>) -> bool {
        T::fast_readable(b)
    }

    open spec fn fast_read_len(b: Seq<u8>) -> nat {
        T::fast_read_len(b)
    }

    open spec fn fast_reads(b: Seq<u8>, v: Self) -> bool {
        T::fast_reads(b, *v)
    }

    fn read_fast<'a, S: ByteSource<'a>>(r: &mut S) -> (v: Self) {
        Box::new(T::read_fast(r))
    }

    proof fn lemma_read_bounded(b: Seq<u8>) {
        T::lemma_read_bounded(b);
    }

    proof fn lemma_roundtrip(v: Self, tail: Seq<u8>) {
        T::lemma_roundtrip(*v, tail);
        assert forall|w: Self| #[trigger]
            Self::fast_reads(v.fast_bytes() + tail, w) implies w.fast_bytes() == v.fast_bytes() by {
            assert(T::fast_reads((*v).fast_bytes() + tail, *w));
        }
    }
}

// MARK: Option<T>

impl<T: FastWrite> FastWrite for Option<T> {
    open spec fn fast_bytes(&self) -> Seq<u8> {
        match self {
            Some(v) => seq![1u8] + v.fast_bytes(),
            None => seq![0u8],
        }
    }

    fn write_fast<W: ByteSink>(&self, w: &mut W) {
        match self {
            Some(v) => {
                w.put_u8(1);
                let ghost b1 = w.sink_buffer();
                let ghost p1 = w.sink_pos();
                v.write_fast(w);
                proof {
                    lemma_wrote_twice(
                        old(w).sink_buffer(),
                        old(w).sink_pos(),
                        b1,
                        p1,
                        w.sink_buffer(),
                        w.sink_pos(),
                        seq![1u8],
                        v.fast_bytes(),
                    );
                }
            },
            None => {
                w.put_u8(0);
            },
        }
    }
}

impl<T: FastRead> FastRead for Option<T> {
    type Value = Option<T::Value>;

    open spec fn fast_value(&self) -> Option<T::Value> {
        match self {
            Some(x) => Some(x.fast_value()),
            None => None,
        }
    }

    open spec fn fast_readable(b: Seq<u8>) -> bool {
        &&& b.len() >= 1
        &&& b[0] != 0 ==> T::fast_readable(b.skip(1))
    }

    open spec fn fast_read_len(b: Seq<u8>) -> nat {
        if b[0] != 0 {
            1 + T::fast_read_len(b.skip(1))
        } else {
            1
        }
    }

    open spec fn fast_reads(b: Seq<u8>, v: Self) -> bool {
        match v {
            Some(x) => b[0] != 0 && T::fast_reads(b.skip(1), x),
            None => b[0] == 0,
        }
    }

    fn read_fast<'a, S: ByteSource<'a>>(r: &mut S) -> (v: Self) {
        let ghost b = rest(r.source_buffer(), r.source_pos());
        let tag = r.get_u8();
        assert(rest(r.source_buffer(), r.source_pos()) =~= b.skip(1));
        if tag != 0 {
            Some(T::read_fast(r))
        } else {
            None
        }
    }

    proof fn lemma_read_bounded(b: Seq<u8>) {
        if b[0] != 0 {
            T::lemma_read_bounded(b.skip(1));
        }
    }

    proof fn lemma_roundtrip(v: Self, tail: Seq<u8>) {
        let b = v.fast_bytes() + tail;
        match v {
            Some(x) => {
                assert(b.skip(1) =~= x.fast_bytes() + tail);
                T::lemma_roundtrip(x, tail);
            },
            None => {
            },
        }
        assert(b[0] == v.fast_bytes()[0]);
    }
}

// MARK: Result<U,V>

impl<U: FastWrite, V: FastWrite> FastWrite for Result<U, V> {
    open spec fn fast_bytes(&self) -> Seq<u8> {
        match self {
            Ok(v) => seq![1u8] + v.fast_bytes(),
            Err(x) => seq![0u8] + x.fast_bytes(),
        }
    }

    fn write_fast<W: ByteSink>(&self, w: &mut W) {
        match self {
            Ok(v) => {
                w.put_u8(1);
                let ghost b1 = w.sink_buffer();
                let ghost p1 = w.sink_pos();
                v.write_fast(w);
                proof {
                    lemma_wrote_twice(
                        old(w).sink_buffer(),
                        old(w).sink_pos(),
                        b1,
                        p1,
                        w.sink_buffer(),
                        w.sink_pos(),
                        seq![1u8],
                        v.fast_bytes(),
                    );
                }
            },
            Err(x) => {
                w.put_u8(0);
                let ghost b1 = w.sink_buffer();
                let ghost p1 = w.sink_pos();
                x.write_fast(w);
                proof {
                    lemma_wrote_twice(
                        old(w).sink_buffer(),
                        old(w).sink_pos(),
                        b1,
                        p1,
                        w.sink_buffer(),
                        w.sink_pos(),
                        seq![0u8],
                        x.fast_bytes(),
                    );
                }
            },
        }
    }
}

impl<U: FastRead, V: FastRead> FastRead for Result<U, V> {
    type Value = Result<U::Value, V::Value>;

    open spec fn fast_value(&self) -> Result<U::Value, V::Value> {
        match self {
            Ok(x) => Ok(x.fast_value()),
            Err(y) => Err(y.fast_value()),
        }
    }

    open spec fn fast_readable(b: Seq<u8>) -> bool {
        &&& b.len() >= 1
        &&& b[0] != 0 ==> U::fast_readable(b.skip(1))
        &&& b[0] == 0 ==> V::fast_readable(b.skip(1))
    }

    open spec fn fast_read_len(b: Seq<u8>) -> nat {
        if b[0] != 0 {
            1 + U::fast_read_len(b.skip(1))
        } else {
            1 + V::fast_read_len(b.skip(1))
        }
    }

    open spec fn fast_reads(b: Seq<u8>, v: Self) -> bool {
        match v {
            Ok(x) => b[0] != 0 && U::fast_reads(b.skip(1), x),
            Err(y) => b[0] == 0 && V::fast_reads(b.skip(1), y),
        }
    }

    fn read_fast<'a, S: ByteSource<'a>>(r: &mut S) -> (v: Self) {
        let ghost b = rest(r.source_buffer(), r.source_pos());
        let tag = r.get_u8();
        assert(rest(r.source_buffer(), r.source_pos()) =~= b.skip(1));
        if tag != 0 {
            Ok(U::read_fast(r))
        } else {
            Err(V::read_fast(r))
        }
    }

    proof fn lemma_read_bounded(b: Seq<u8>) {
        if b[0] != 0 {
            U::lemma_read_bounded(b.skip(1));
        } else {
            V::lemma_read_bounded(b.skip(1));
        }
    }

    proof fn lemma_roundtrip(v: Self, tail: Seq<u8>) {
        let b = v.fast_bytes() + tail;
        match v {
            Ok(x) => {
                assert(b.skip(1) =~= x.fast_bytes() + tail);
                U::lemma_roundtrip(x, tail);
            },
            Err(y) => {
                assert(b.skip(1) =~= y.fast_bytes() + tail);
                V::lemma_roundtrip(y, tail);
            },
        }
        assert(b[0] == v.fast_bytes()[0]);
    }
}

// MARK: Small tuples

impl<A: FastWrite, B: FastWrite> FastWrite for (A, B) {
    open spec fn fast_bytes(&self) -> Seq<u8> {
        self.0.fast_bytes() + self.1.fast_bytes()
    }

    fn write_fast<W: ByteSink>(&self, w: &mut W) {
        self.0.write_fast(w);
        let ghost b1 = w.sink_buffer();
        let ghost p1 = w.sink_pos();
        self.1.write_fast(w);
        proof {
            lemma_wrote_twice(
                old(w).sink_buffer(),
                old(w).sink_pos(),
                b1,
                p1,
                w.sink_buffer(),
                w.sink_pos(),
                self.0.fast_bytes(),
                self.1.fast_bytes(),
            );
        }
    }
}

impl<A: FastRead, B: FastRead> FastRead for (A, B) {
    type Value = (A::Value, B::Value);

    open spec fn fast_value(&self) -> (A::Value, B::Value) {
        (self.0.fast_value(), self.1.fast_value())
    }

    open spec fn fast_readable(b: Seq<u8>) -> bool {
        &&& A::fast_readable(b)
        &&& B::fast_readable(b.skip(A::fast_read_len(b) as int))
    }

    open spec fn fast_read_len(b: Seq<u8>) -> nat {
        A::fast_read_len(b) + B::fast_read_len(b.skip(A::fast_read_len(b) as int))
    }

    open spec fn fast_reads(b: Seq<u8>, v: Self) -> bool {
        &&& A::fast_reads(b, v.0)
        &&& B::fast_reads(b.skip(A::fast_read_len(b) as int), v.1)
    }

    fn read_fast<'a, S: ByteSource<'a>>(r: &mut S) -> (v: Self) {
        let ghost b = rest(r.source_buffer(), r.source_pos());
        proof {
            A::lemma_read_bounded(b);
        }
        let a = A::read_fast(r);
        assert(rest(r.source_buffer(), r.source_pos()) =~= b.skip(A::fast_read_len(b) as int));
        let c = B::read_fast(r);
        (a, c)
    }

    proof fn lemma_read_bounded(b: Seq<u8>) {
        A::lemma_read_bounded(b);
        B::lemma_read_bounded(b.skip(A::fast_read_len(b) as int));
    }

    proof fn lemma_roundtrip(v: Self, tail: Seq<u8>) {
        let b = v.fast_bytes() + tail;
        assert(b =~= v.0.fast_bytes() + (v.1.fast_bytes() + tail));
        A::lemma_roundtrip(v.0, v.1.fast_bytes() + tail);
        assert(b.skip(v.0.fast_bytes().len() as int) =~= v.1.fast_bytes() + tail);
        B::lemma_roundtrip(v.1, tail);
    }
}

impl<A: FastWrite, B: FastWrite, C: FastWrite> FastWrite for (A, B, C) {
    open spec fn fast_bytes(&self) -> Seq<u8> {
        self.0.fast_bytes() + self.1.fast_bytes() + self.2.fast_bytes()
    }

    fn write_fast<W: ByteSink>(&self, w: &mut W) {
        self.0.write_fast(w);
        let ghost b1 = w.sink_buffer();
        let ghost p1 = w.sink_pos();
        self.1.write_fast(w);
        proof {
            lemma_wrote_twice(
                old(w).sink_buffer(),
                old(w).sink_pos(),
                b1,
                p1,
                w.sink_buffer(),
                w.sink_pos(),
                self.0.fast_bytes(),
                self.1.fast_bytes(),
            );
        }
        let ghost b2 = w.sink_buffer();
        let ghost p2 = w.sink_pos();
        self.2.write_fast(w);
        proof {
            lemma_wrote_twice(
                old(w).sink_buffer(),
                old(w).sink_pos(),
                b2,
                p2,
                w.sink_buffer(),
                w.sink_pos(),
                self.0.fast_bytes() + self.1.fast_bytes(),
                self.2.fast_bytes(),
            );
        }
    }
}

impl<A: FastRead, B: FastRead, C: FastRead> FastRead for (A, B, C) {
    type Value = (A::Value, B::Value, C::Value);

    open spec fn fast_value(&self) -> (A::Value, B::Value, C::Value) {
        (self.0.fast_value(), self.1.fast_value(), self.2.fast_value())
    }

    open spec fn fast_readable(b: Seq<u8>) -> bool {
        &&& A::fast_readable(b)
        &&& <(B, C)>::fast_readable(b.skip(A::fast_read_len(b) as int))
    }

    open spec fn fast_read_len(b: Seq<u8>) -> nat {
        A::fast_read_len(b) + <(B, C)>::fast_read_len(b.skip(A::fast_read_len(b) as int))
    }

    open spec fn fast_reads(b: Seq<u8>, v: Self) -> bool {
        &&& A::fast_reads(b, v.0)
        &&& <(B, C)>::fast_reads(b.skip(A::fast_read_len(b) as int), (v.1, v.2))
    }

    fn read_fast<'a, S: ByteSource<'a>>(r: &mut S) -> (v: Self) {
        let ghost b = rest(r.source_buffer(), r.source_pos());
        proof {
            A::lemma_read_bounded(b);
        }
        let a = A::read_fast(r);
        assert(rest(r.source_buffer(), r.source_pos()) =~= b.skip(A::fast_read_len(b) as int));
        let (x, y) = <(B, C)>::read_fast(r);
        (a, x, y)
    }

    proof fn lemma_read_bounded(b: Seq<u8>) {
        A::lemma_read_bounded(b);
        <(B, C)>::lemma_read_bounded(b.skip(A::fast_read_len(b) as int));
    }

    proof fn lemma_roundtrip(v: Self, tail: Seq<u8>) {
        let b = v.fast_bytes() + tail;
        let bc = (v.1, v.2);
        assert(b =~= v.0.fast_bytes() + (bc.fast_bytes() + tail));
        A::lemma_roundtrip(v.0, bc.fast_bytes() + tail);
        assert(b.skip(v.0.fast_bytes().len() as int) =~= bc.fast_bytes() + tail);
        <(B, C)>::lemma_roundtrip(bc, tail);
        assert forall|w: Self| #[trigger]
            Self::fast_reads(b, w) implies w.fast_bytes() == v.fast_bytes() by {
            let wbc = (w.1, w.2);
            assert(<(B, C)>::fast_reads(bc.fast_bytes() + tail, wbc));
            assert(w.fast_bytes() =~= w.0.fast_bytes() + wbc.fast_bytes());
            assert(v.fast_bytes() =~= v.0.fast_bytes() + bc.fast_bytes());
        }
    }
}

// MARK: Slice + Vectors

/// The bytes of a sequence of values, one after another.
pub open spec fn seq_fast_bytes<T: FastWrite>(s: Seq<T>) -> Seq<u8>
    decreases s.len(),
{
    if s.len() == 0 {
        seq![]
    } else {
        seq_fast_bytes(s.drop_last()) + s.last().fast_bytes()
    }
}

/// The bytes of a slice of plain values: its length, then its elements.
pub open spec fn pod_slice_bytes<T: FastPod>(s: Seq<T>) -> Seq<u8> {
    usize_bytes(s.len() as usize) + seq_fast_bytes(s)
}

proof fn lemma_mul_step(i: nat, c: nat, w: nat)
    requires
        i < c,
    ensures
        i * w + w <= c * w,
        (i + 1) * w == i * w + w,
{
    assert(i * w + w <= c * w) by (nonlinear_arith)
        requires
            i < c,
    ;
    assert((i + 1) * w == i * w + w) by (nonlinear_arith);
}

/// `n` plain values take `n` times their width.
pub proof fn lemma_pod_seq_len<T: FastPod>(s: Seq<T>)
    ensures
        seq_fast_bytes(s).len() == s.len() * T::pod_width(),
    decreases s.len(),
{
    if s.len() > 0 {
        lemma_pod_seq_len(s.drop_last());
        T::lemma_pod(s.last(), seq![]);
        lemma_mul_step((s.len() - 1) as nat, s.len(), T::pod_width());
    }
}

/// Plain values laid out one after another determine what each holds.
proof fn lemma_pod_seq_injective<T: FastPod>(a: Seq<T>, b: Seq<T>)
    requires
        a.len() == b.len(),
        seq_fast_bytes(a) == seq_fast_bytes(b),
    ensures
        forall|i: int| 0 <= i < a.len() ==> (#[trigger] a[i]).fast_value() == b[i].fast_value(),
    decreases a.len(),
{
    if a.len() > 0 {
        let n = a.len();
        lemma_pod_seq_len(a.drop_last());
        lemma_pod_seq_len(b.drop_last());
        T::lemma_pod(a.last(), seq![]);
        T::lemma_pod(b.last(), seq![]);
        let m = seq_fast_bytes(a.drop_last()).len();
        let whole = seq_fast_bytes(a);
        assert(seq_fast_bytes(a.drop_last()) =~= whole.take(m as int));
        assert(seq_fast_bytes(b.drop_last()) =~= whole.take(m as int));
        assert(a.last().fast_bytes() =~= whole.skip(m as int));
        assert(b.last().fast_bytes() =~= whole.skip(m as int));
        lemma_pod_seq_injective(a.drop_last(), b.drop_last());
        T::lemma_pod_injective(a.last(), b.last());
        assert forall|i: int| 0 <= i < a.len() implies (#[trigger] a[i]).fast_value()
            == b[i].fast_value() by {
            if i < n - 1 {
                assert(a.drop_last()[i] == a[i]);
                assert(b.drop_last()[i] == b[i]);
            }
        }
    }
}

/// Write a slice of plain values (length + elements).
pub fn write_pod_slice<T: FastPod, W: ByteSink>(s: &[T], w: &mut W)
    requires
        fits(old(w).sink_buffer(), old(w).sink_pos(), pod_slice_bytes(s@).len()),
    ensures
        wrote(
            old(w).sink_buffer(),
            old(w).sink_pos(),
            final(w).sink_buffer(),
            final(w).sink_pos(),
            pod_slice_bytes(s@),
        ),
{
    proof {
        lemma_primitive_bytes();
        lemma_pod_seq_len(s@);
    }
    let n = s.len();
    w.put_usize(n);
    let ghost head = usize_bytes(n);
    let mut i: usize = 0;
    while i < n
        invariant
            0 <= i <= n,
            n == s@.len(),
            head == usize_bytes(n),
            head.len() == 8,
            fits(old(w).sink_buffer(), old(w).sink_pos(), pod_slice_bytes(s@).len()),
            seq_fast_bytes(s@).len() == n * T::pod_width(),
            wrote(
                old(w).sink_buffer(),
                old(w).sink_pos(),
                w.sink_buffer(),
                w.sink_pos(),
                head + seq_fast_bytes(s@.take(i as int)),
            ),
        decreases n - i,
    {
        proof {
            lemma_pod_seq_len(s@.take(i as int));
            lemma_mul_step(i as nat, n as nat, T::pod_width());
            T::lemma_pod(s@[i as int], seq![]);
            assert(s@.take(i + 1).drop_last() =~= s@.take(i as int));
        }
        let ghost b1 = w.sink_buffer();
        let ghost p1 = w.sink_pos();
        s[i].write_fast(w);
        proof {
            lemma_wrote_twice(
                old(w).sink_buffer(),
                old(w).sink_pos(),
                b1,
                p1,
                w.sink_buffer(),
                w.sink_pos(),
                head + seq_fast_bytes(s@.take(i as int)),
                s@[i as int].fast_bytes(),
            );
            assert(head + seq_fast_bytes(s@.take(i + 1)) =~= head + seq_fast_bytes(
                s@.take(i as int),
            ) + s@[i as int].fast_bytes());
        }
        i = i + 1;
    }
    assert(s@.take(n as int) =~= s@);
}

/// The bytes start with a length `c` and `c` plain values.
pub open spec fn pod_vec_readable<T: FastPod>(b: Seq<u8>) -> bool {
    &&& b.len() >= 8
    &&& 8 + read_usize(b.take(8)) * T::pod_width() <= b.len()
}

/// How many bytes reading a vector of plain values consumes.
pub open spec fn pod_vec_read_len<T: FastPod>(b: Seq<u8>) -> nat {
    (8 + read_usize(b.take(8)) * T::pod_width()) as nat
}

/// Reading a vector of plain values from `b` yields `v`: as many values as
/// the length says, whose bytes are the bytes that follow it.
pub open spec fn pod_vec_reads<T: FastPod>(b: Seq<u8>, v: Seq<T>) -> bool {
    &&& v.len() == read_usize(b.take(8))
    &&& seq_fast_bytes(v) == b.subrange(8, 8 + read_usize(b.take(8)) * T::pod_width())
}

/// Read a vector of plain values (length + elements).
pub fn read_pod_vec<'a, T: FastPod, S: ByteSource<'a>>(r: &mut S) -> (v: Vec<T>)
    requires
        old(r).source_pos() <= old(r).source_buffer().len(),
        pod_vec_readable::<T>(rest(old(r).source_buffer(), old(r).source_pos())),
    ensures
        consumed(
            old(r).source_buffer(),
            old(r).source_pos(),
            final(r).source_buffer(),
            final(r).source_pos(),
            pod_vec_read_len::<T>(rest(old(r).source_buffer(), old(r).source_pos())),
        ),
        pod_vec_reads(rest(old(r).source_buffer(), old(r).source_pos()), v@),
{
    let ghost b = rest(r.source_buffer(), r.source_pos());
    let ghost p0 = r.source_pos();
    let count = r.get_usize();
    let ghost wd = T::pod_width();
    proof {
        T::lemma_pod(arbitrary(), b);
    }
    assert(rest(r.source_buffer(), r.source_pos()) =~= b.skip(8));
    let mut v: Vec<T> = Vec::new();
    let mut i: usize = 0;
    while i < count
        invariant
            0 <= i <= count,
            count == read_usize(b.take(8)),
            wd == T::pod_width(),
            wd > 0,
            8 + count * wd <= b.len(),
            b == rest(old(r).source_buffer(), p0),
            p0 == old(r).source_pos(),
            p0 <= old(r).source_buffer().len(),
            r.source_buffer() == old(r).source_buffer(),
            r.source_pos() == p0 + 8 + i * wd,
            v@.len() == i,
            seq_fast_bytes(v@) == b.subrange(8, 8 + i * wd),
        decreases count - i,
    {
        proof {
            lemma_mul_step(i as nat, count as nat, wd);
        }
        let ghost cur = rest(r.source_buffer(), r.source_pos());
        assert(cur =~= b.skip(8 + i * wd));
        proof {
            T::lemma_pod(arbitrary(), cur);
        }
        let x = T::read_fast(r);
        proof {
            T::lemma_pod(x, cur);
            assert(v@.push(x).drop_last() =~= v@);
            assert(b.subrange(8, 8 + (i + 1) * wd) =~= b.subrange(8, 8 + i * wd) + cur.take(
                wd as int,
            ));
        }
        v.push(x);
        i = i + 1;
    }
    v
}

impl<T: FastPod> FastWrite for [T] {
    open spec fn fast_bytes(&self) -> Seq<u8> {
        pod_slice_bytes(self@)
    }

    fn write_fast<W: ByteSink>(&self, w: &mut W) {
        write_pod_slice(self, w);
    }
}

impl<T: FastPod> FastWrite for Vec<T> {
    open spec fn fast_bytes(&self) -> Seq<u8> {
        pod_slice_bytes(self@)
    }

    fn write_fast<W: ByteSink>(&self, w: &mut W) {
        write_pod_slice(self.as_slice(), w);
    }
}

impl<T: FastPod> FastRead for Vec<T> {
    type Value = Seq<T::Value>;

    open spec fn fast_value(&self) -> Seq<T::Value> {
        Seq::new(self@.len(), |i: int| self@[i].fast_value())
    }

    open spec fn fast_readable(b: Seq<u8>) -> bool {
        pod_vec_readable::<T>(b)
    }

    open spec fn fast_read_len(b: Seq<u8>) -> nat {
        pod_vec_read_len::<T>(b)
    }

    open spec fn fast_reads(b: Seq<u8>, v: Self) -> bool {
        pod_vec_reads(b, v@)
    }

    fn read_fast<'a, S: ByteSource<'a>>(r: &mut S) -> (v: Self) {
        read_pod_vec(r)
    }

    proof fn lemma_read_bounded(b: Seq<u8>) {
    }

    proof fn lemma_roundtrip(v: Self, tail: Seq<u8>) {
        lemma_primitive_bytes();
        lemma_pod_seq_len(v@);
        T::lemma_pod(arbitrary(), seq![]);
        let n = v@.len();
        let wd = T::pod_width();
        assert(n <= n * wd) by (nonlinear_arith)
            requires
                wd > 0,
        ;
        let b = v.fast_bytes() + tail;
        assert(b.take(8) =~= usize_bytes(n as usize));
        assert(b.subrange(8, (8 + n * wd) as int) =~= seq_fast_bytes(v@));
        assert forall|w: Self| #[trigger] Self::fast_reads(b, w) implies w.fast_bytes()
            == v.fast_bytes() && w.fast_value() == v.fast_value() by {
            assert(w@.len() == n);
            lemma_pod_seq_injective(w@, v@);
            assert(w.fast_value() =~= v.fast_value());
        }
    }
}

/// What `write_fast` puts is what `read_fast` takes back: after writing `v`
/// at `pos` into `buf`, reading from `pos` consumes exactly `v`'s bytes and
/// yields `v` again: a value with `v`'s bytes that holds what `v` holds.
pub proof fn lemma_write_then_read<T: FastRead>(buf: Seq<u8>, pos: nat, v: T)
    requires
        fits(buf, pos, v.fast_bytes().len()),
        buf.len() <= usize::MAX,
    ensures
        ({
            let after = rest(splice(buf, pos as int, v.fast_bytes()), pos);
            &&& T::fast_readable(after)
            &&& T::fast_read_len(after) == v.fast_bytes().len()
            &&& forall|w: T| #[trigger]
                T::fast_reads(after, w) ==> w.fast_bytes() == v.fast_bytes() && w.fast_value()
                    == v.fast_value()
        }),
{
    let n = v.fast_bytes().len();
    let tail = buf.subrange((pos + n) as int, buf.len() as int);
    assert(rest(splice(buf, pos as int, v.fast_bytes()), pos) =~= v.fast_bytes() + tail);
    T::lemma_roundtrip(v, tail);
}

} // verus!
