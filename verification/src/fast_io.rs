//! Minimal byte readers and writers over in-memory slices.
//!
//! Primitives are stored in their native-endian memory representation, a
//! string as its byte length (a `usize`) followed by its UTF-8 bytes, and a
//! slice of primitives as its element count followed by the elements.
use crate::native::{
    from_ne_u16, from_ne_u32, from_ne_u64, lemma_ne_roundtrip, ne_u16, ne_u32, ne_u64, u16_from_ne,
    u16_to_ne, u32_from_ne, u32_to_ne, u64_from_ne, u64_to_ne,
};
use vstd::prelude::*;
use vstd::string::StringSliceAdditionalSpecFns;
use vstd::utf8::{decode_utf8, encode_utf8, encode_utf8_decode_utf8, valid_utf8};

verus! {

// MARK: Wire representations

/// `buf` with the bytes from `pos` on overwritten by `src`.
pub open spec fn splice(buf: Seq<u8>, pos: int, src: Seq<u8>) -> Seq<u8> {
    buf.subrange(0, pos) + src + buf.subrange(pos + src.len(), buf.len() as int)
}

pub open spec fn u8_bytes(v: u8) -> Seq<u8> {
    seq![v]
}

pub open spec fn i8_bytes(v: i8) -> Seq<u8> {
    seq![v as u8]
}

pub open spec fn u16_bytes(v: u16) -> Seq<u8> {
    ne_u16(v)
}

pub open spec fn i16_bytes(v: i16) -> Seq<u8> {
    ne_u16(v as u16)
}

pub open spec fn u32_bytes(v: u32) -> Seq<u8> {
    ne_u32(v)
}

pub open spec fn i32_bytes(v: i32) -> Seq<u8> {
    ne_u32(v as u32)
}

pub open spec fn u64_bytes(v: u64) -> Seq<u8> {
    ne_u64(v)
}

pub open spec fn i64_bytes(v: i64) -> Seq<u8> {
    ne_u64(v as u64)
}

/// A `usize` or `isize` is written as 8 bytes: its memory representation on
/// the 64-bit targets that both ends of a transcript run on.  (On a 32-bit
/// target these 8 bytes still read back to the value, but they are not its
/// memory representation.)
pub open spec fn usize_bytes(v: usize) -> Seq<u8> {
    ne_u64(v as u64)
}

pub open spec fn isize_bytes(v: isize) -> Seq<u8> {
    ne_u64(v as u64)
}

/// A `bool` is stored as the byte 1 or 0.
pub open spec fn bool_bytes(v: bool) -> Seq<u8> {
    seq![if v { 1u8 } else { 0u8 }]
}

/// A string is stored as its UTF-8 length followed by its UTF-8 bytes.
pub open spec fn str_bytes(s: Seq<char>) -> Seq<u8> {
    usize_bytes(encode_utf8(s).len() as usize) + encode_utf8(s)
}

/// The values that the byte sequence `b` of a primitive's width reads back as.
pub open spec fn read_u16(b: Seq<u8>) -> u16 {
    from_ne_u16(b)
}

pub open spec fn read_i16(b: Seq<u8>) -> i16 {
    from_ne_u16(b) as i16
}

pub open spec fn read_u32(b: Seq<u8>) -> u32 {
    from_ne_u32(b)
}

pub open spec fn read_i32(b: Seq<u8>) -> i32 {
    from_ne_u32(b) as i32
}

pub open spec fn read_u64(b: Seq<u8>) -> u64 {
    from_ne_u64(b)
}

pub open spec fn read_i64(b: Seq<u8>) -> i64 {
    from_ne_u64(b) as i64
}

pub open spec fn read_usize(b: Seq<u8>) -> usize {
    from_ne_u64(b) as usize
}

pub open spec fn read_isize(b: Seq<u8>) -> isize {
    from_ne_u64(b) as isize
}

/// Any nonzero byte reads back as `true`.
pub open spec fn read_bool(b: Seq<u8>) -> bool {
    b[0] != 0
}

/// Each primitive's bytes have its width and read back to it, and every byte
/// sequence of that width is the bytes of the value that it reads back as.
pub proof fn lemma_primitive_bytes()
    ensures
        forall|v: u8| #[trigger] u8_bytes(v).len() == 1 && u8_bytes(v)[0] == v,
        forall|v: i8| #[trigger] i8_bytes(v).len() == 1 && (i8_bytes(v)[0] as i8) == v,
        forall|v: u16| #[trigger] u16_bytes(v).len() == 2 && read_u16(u16_bytes(v)) == v,
        forall|v: i16| #[trigger] i16_bytes(v).len() == 2 && read_i16(i16_bytes(v)) == v,
        forall|v: u32| #[trigger] u32_bytes(v).len() == 4 && read_u32(u32_bytes(v)) == v,
        forall|v: i32| #[trigger] i32_bytes(v).len() == 4 && read_i32(i32_bytes(v)) == v,
        forall|v: u64| #[trigger] u64_bytes(v).len() == 8 && read_u64(u64_bytes(v)) == v,
        forall|v: i64| #[trigger] i64_bytes(v).len() == 8 && read_i64(i64_bytes(v)) == v,
        forall|v: usize| #[trigger] usize_bytes(v).len() == 8 && read_usize(usize_bytes(v)) == v,
        forall|v: isize| #[trigger] isize_bytes(v).len() == 8 && read_isize(isize_bytes(v)) == v,
        forall|v: bool| #[trigger] bool_bytes(v).len() == 1 && read_bool(bool_bytes(v)) == v,
        forall|s: Seq<u8>| s.len() == 1 ==> #[trigger] u8_bytes(s[0]) == s,
        forall|s: Seq<u8>| s.len() == 1 ==> #[trigger] i8_bytes(s[0] as i8) == s,
        forall|s: Seq<u8>| s.len() == 2 ==> #[trigger] u16_bytes(read_u16(s)) == s,
        forall|s: Seq<u8>| s.len() == 2 ==> #[trigger] i16_bytes(read_i16(s)) == s,
        forall|s: Seq<u8>| s.len() == 4 ==> #[trigger] u32_bytes(read_u32(s)) == s,
        forall|s: Seq<u8>| s.len() == 4 ==> #[trigger] i32_bytes(read_i32(s)) == s,
        forall|s: Seq<u8>| s.len() == 8 ==> #[trigger] u64_bytes(read_u64(s)) == s,
        forall|s: Seq<u8>| s.len() == 8 ==> #[trigger] i64_bytes(read_i64(s)) == s,
{
    lemma_ne_roundtrip();
    assert forall|v: i8| #[trigger] i8_bytes(v).len() == 1 && (i8_bytes(v)[0] as i8) == v by {
        assert((v as u8) as i8 == v) by (bit_vector);
    }
    assert forall|v: i16| #[trigger] i16_bytes(v).len() == 2 && read_i16(i16_bytes(v)) == v by {
        assert((v as u16) as i16 == v) by (bit_vector);
    }
    assert forall|v: i32| #[trigger] i32_bytes(v).len() == 4 && read_i32(i32_bytes(v)) == v by {
        assert((v as u32) as i32 == v) by (bit_vector);
    }
    assert forall|v: i64| #[trigger] i64_bytes(v).len() == 8 && read_i64(i64_bytes(v)) == v by {
        assert((v as u64) as i64 == v) by (bit_vector);
    }
    assert forall|v: isize| #[trigger] isize_bytes(v).len() == 8 && read_isize(isize_bytes(v)) == v by {
        assert((v as u64) as isize == v) by (bit_vector);
    }
    assert forall|s: Seq<u8>| s.len() == 1 implies #[trigger] u8_bytes(s[0]) == s by {
        assert(u8_bytes(s[0]) =~= s);
    }
    assert forall|s: Seq<u8>| s.len() == 1 implies #[trigger] i8_bytes(s[0] as i8) == s by {
        let b = s[0];
        assert((b as i8) as u8 == b) by (bit_vector);
        assert(i8_bytes(s[0] as i8) =~= s);
    }
    assert forall|s: Seq<u8>| s.len() == 2 implies #[trigger] i16_bytes(read_i16(s)) == s by {
        let u = from_ne_u16(s);
        assert((u as i16) as u16 == u) by (bit_vector);
    }
    assert forall|s: Seq<u8>| s.len() == 4 implies #[trigger] i32_bytes(read_i32(s)) == s by {
        let u = from_ne_u32(s);
        assert((u as i32) as u32 == u) by (bit_vector);
    }
    assert forall|s: Seq<u8>| s.len() == 8 implies #[trigger] i64_bytes(read_i64(s)) == s by {
        let u = from_ne_u64(s);
        assert((u as i64) as u64 == u) by (bit_vector);
    }
    assert forall|v: usize| #[trigger] usize_bytes(v).len() == 8 && read_usize(usize_bytes(v)) == v by {
        assert((v as u64) as usize == v) by (bit_vector);
    }
}

// MARK: Traits

/// A destination of bytes with a write position.
pub trait ByteSink: Sized {
    /// The whole destination buffer.
    spec fn sink_buffer(&self) -> Seq<u8>;

    /// How many bytes of the buffer have been written.
    spec fn sink_pos(&self) -> nat;

    /// Core write implementation
    fn put_bytes(&mut self, src: &[u8])
        requires
            fits(old(self).sink_buffer(), old(self).sink_pos(), src@.len()),
        ensures
            wrote(old(self).sink_buffer(), old(self).sink_pos(), final(self).sink_buffer(), final(self).sink_pos(), src@),
    ;

    // Primitives as native endian POD
    fn put_u8(&mut self, v: u8)
        requires
            fits(old(self).sink_buffer(), old(self).sink_pos(), 1),
        ensures
            wrote(old(self).sink_buffer(), old(self).sink_pos(), final(self).sink_buffer(), final(self).sink_pos(), u8_bytes(v)),
    {
        let b = [v];
        self.put_bytes(&b);
        assert(b@ =~= u8_bytes(v));
    }

    fn put_i8(&mut self, v: i8)
        requires
            fits(old(self).sink_buffer(), old(self).sink_pos(), 1),
        ensures
            wrote(old(self).sink_buffer(), old(self).sink_pos(), final(self).sink_buffer(), final(self).sink_pos(), i8_bytes(v)),
    {
        self.put_u8(v as u8);
    }

    fn put_u16(&mut self, v: u16)
        requires
            fits(old(self).sink_buffer(), old(self).sink_pos(), 2),
        ensures
            wrote(old(self).sink_buffer(), old(self).sink_pos(), final(self).sink_buffer(), final(self).sink_pos(), u16_bytes(v)),
    {
        proof {
            lemma_ne_roundtrip();
        }
        let b = u16_to_ne(v);
        self.put_bytes(b.as_slice());
    }

    fn put_i16(&mut self, v: i16)
        requires
            fits(old(self).sink_buffer(), old(self).sink_pos(), 2),
        ensures
            wrote(old(self).sink_buffer(), old(self).sink_pos(), final(self).sink_buffer(), final(self).sink_pos(), i16_bytes(v)),
    {
        self.put_u16(v as u16);
    }

    fn put_u32(&mut self, v: u32)
        requires
            fits(old(self).sink_buffer(), old(self).sink_pos(), 4),
        ensures
            wrote(old(self).sink_buffer(), old(self).sink_pos(), final(self).sink_buffer(), final(self).sink_pos(), u32_bytes(v)),
    {
        proof {
            lemma_ne_roundtrip();
        }
        let b = u32_to_ne(v);
        self.put_bytes(b.as_slice());
    }

    fn put_i32(&mut self, v: i32)
        requires
            fits(old(self).sink_buffer(), old(self).sink_pos(), 4),
        ensures
            wrote(old(self).sink_buffer(), old(self).sink_pos(), final(self).sink_buffer(), final(self).sink_pos(), i32_bytes(v)),
    {
        self.put_u32(v as u32);
    }

    fn put_u64(&mut self, v: u64)
        requires
            fits(old(self).sink_buffer(), old(self).sink_pos(), 8),
        ensures
            wrote(old(self).sink_buffer(), old(self).sink_pos(), final(self).sink_buffer(), final(self).sink_pos(), u64_bytes(v)),
    {
        proof {
            lemma_ne_roundtrip();
        }
        let b = u64_to_ne(v);
        self.put_bytes(b.as_slice());
    }

    fn put_i64(&mut self, v: i64)
        requires
            fits(old(self).sink_buffer(), old(self).sink_pos(), 8),
        ensures
            wrote(old(self).sink_buffer(), old(self).sink_pos(), final(self).sink_buffer(), final(self).sink_pos(), i64_bytes(v)),
    {
        self.put_u64(v as u64);
    }

    fn put_usize(&mut self, v: usize)
        requires
            fits(old(self).sink_buffer(), old(self).sink_pos(), 8),
        ensures
            wrote(old(self).sink_buffer(), old(self).sink_pos(), final(self).sink_buffer(), final(self).sink_pos(), usize_bytes(v)),
    {
        self.put_u64(v as u64);
    }

    fn put_isize(&mut self, v: isize)
        requires
            fits(old(self).sink_buffer(), old(self).sink_pos(), 8),
        ensures
            wrote(old(self).sink_buffer(), old(self).sink_pos(), final(self).sink_buffer(), final(self).sink_pos(), isize_bytes(v)),
    {
        self.put_u64(v as u64);
    }

    fn put_bool(&mut self, v: bool)
        requires
            fits(old(self).sink_buffer(), old(self).sink_pos(), 1),
        ensures
            wrote(old(self).sink_buffer(), old(self).sink_pos(), final(self).sink_buffer(), final(self).sink_pos(), bool_bytes(v)),
    {
        self.put_u8(if v { 1u8 } else { 0u8 });
    }

    fn put_str(&mut self, s: &str)
        requires
            fits(old(self).sink_buffer(), old(self).sink_pos(), str_bytes(s@).len()),
        ensures
            wrote(old(self).sink_buffer(), old(self).sink_pos(), final(self).sink_buffer(), final(self).sink_pos(), str_bytes(s@)),
    {
        proof {
            lemma_ne_roundtrip();
        }
        let bytes = s.as_bytes();
        self.put_usize(bytes.len());
        let ghost b1 = self.sink_buffer();
        let ghost p1 = self.sink_pos();
        self.put_bytes(bytes);
        proof {
            lemma_wrote_twice(
                old(self).sink_buffer(),
                old(self).sink_pos(),
                b1,
                p1,
                self.sink_buffer(),
                self.sink_pos(),
                usize_bytes(bytes@.len() as usize),
                bytes@,
            );
        }
    }
}

/// A buffer with position `pos` has room for `n` more bytes.
pub open spec fn fits(buf: Seq<u8>, pos: nat, n: nat) -> bool {
    pos + n <= buf.len()
}

/// Writing `bytes` at `pos0` into `buf0` gives `buf1` with position `pos1`.
pub open spec fn wrote(buf0: Seq<u8>, pos0: nat, buf1: Seq<u8>, pos1: nat, bytes: Seq<u8>) -> bool {
    &&& buf1 == splice(buf0, pos0 as int, bytes)
    &&& pos1 == pos0 + bytes.len()
}

/// Two writes in a row write the concatenation of their bytes.
pub proof fn lemma_wrote_twice(
    b0: Seq<u8>,
    p0: nat,
    b1: Seq<u8>,
    p1: nat,
    b2: Seq<u8>,
    p2: nat,
    x: Seq<u8>,
    y: Seq<u8>,
)
    requires
        fits(b0, p0, x.len() + y.len()),
        wrote(b0, p0, b1, p1, x),
        wrote(b1, p1, b2, p2, y),
    ensures
        wrote(b0, p0, b2, p2, x + y),
{
    assert(b2 =~= splice(b0, p0 as int, x + y));
}

/// A source of bytes with a read position.
pub trait ByteSource<'a>: Sized {
    /// The whole source buffer.
    spec fn source_buffer(&self) -> Seq<u8>;

    /// How many bytes of the buffer have been consumed.
    spec fn source_pos(&self) -> nat;

    fn take_bytes(&mut self, n: usize) -> (out: &'a [u8])
        requires
            fits(old(self).source_buffer(), old(self).source_pos(), n as nat),
        ensures
            out@.len() == n,
            took(old(self).source_buffer(), old(self).source_pos(), final(self).source_buffer(), final(self).source_pos(), out@),
    ;

    fn take_bytes_to(&mut self, n: &mut [u8])
        requires
            fits(old(self).source_buffer(), old(self).source_pos(), old(n)@.len()),
        ensures
            final(n)@.len() == old(n)@.len(),
            took(old(self).source_buffer(), old(self).source_pos(), final(self).source_buffer(), final(self).source_pos(), final(n)@),
    ;

    // Primitives
    fn get_u8(&mut self) -> (v: u8)
        requires
            fits(old(self).source_buffer(), old(self).source_pos(), 1),
        ensures
            took(old(self).source_buffer(), old(self).source_pos(), final(self).source_buffer(), final(self).source_pos(), u8_bytes(v)),
    {
        let b = self.take_bytes(1);
        let v = b[0];
        assert(b@ =~= u8_bytes(v));
        v
    }

    fn get_i8(&mut self) -> (v: i8)
        requires
            fits(old(self).source_buffer(), old(self).source_pos(), 1),
        ensures
            took(old(self).source_buffer(), old(self).source_pos(), final(self).source_buffer(), final(self).source_pos(), i8_bytes(v)),
    {
        let b = self.get_u8();
        let v = b as i8;
        assert(v as u8 == b) by (bit_vector)
            requires
                v == b as i8,
        ;
        v
    }

    fn get_u16(&mut self) -> (v: u16)
        requires
            fits(old(self).source_buffer(), old(self).source_pos(), 2),
        ensures
            consumed(old(self).source_buffer(), old(self).source_pos(), final(self).source_buffer(), final(self).source_pos(), 2),
            v == read_u16(rest(old(self).source_buffer(), old(self).source_pos()).take(2)),
    {
        let b = self.take_bytes(2);
        assert(b@ =~= rest(old(self).source_buffer(), old(self).source_pos()).take(2));
        u16_from_ne(b)
    }

    fn get_i16(&mut self) -> (v: i16)
        requires
            fits(old(self).source_buffer(), old(self).source_pos(), 2),
        ensures
            consumed(old(self).source_buffer(), old(self).source_pos(), final(self).source_buffer(), final(self).source_pos(), 2),
            v == read_i16(rest(old(self).source_buffer(), old(self).source_pos()).take(2)),
    {
        self.get_u16() as i16
    }

    fn get_u32(&mut self) -> (v: u32)
        requires
            fits(old(self).source_buffer(), old(self).source_pos(), 4),
        ensures
            consumed(old(self).source_buffer(), old(self).source_pos(), final(self).source_buffer(), final(self).source_pos(), 4),
            v == read_u32(rest(old(self).source_buffer(), old(self).source_pos()).take(4)),
    {
        let b = self.take_bytes(4);
        assert(b@ =~= rest(old(self).source_buffer(), old(self).source_pos()).take(4));
        u32_from_ne(b)
    }

    fn get_i32(&mut self) -> (v: i32)
        requires
            fits(old(self).source_buffer(), old(self).source_pos(), 4),
        ensures
            consumed(old(self).source_buffer(), old(self).source_pos(), final(self).source_buffer(), final(self).source_pos(), 4),
            v == read_i32(rest(old(self).source_buffer(), old(self).source_pos()).take(4)),
    {
        self.get_u32() as i32
    }

    fn get_u64(&mut self) -> (v: u64)
        requires
            fits(old(self).source_buffer(), old(self).source_pos(), 8),
        ensures
            consumed(old(self).source_buffer(), old(self).source_pos(), final(self).source_buffer(), final(self).source_pos(), 8),
            v == read_u64(rest(old(self).source_buffer(), old(self).source_pos()).take(8)),
    {
        let b = self.take_bytes(8);
        assert(b@ =~= rest(old(self).source_buffer(), old(self).source_pos()).take(8));
        u64_from_ne(b)
    }

    fn get_i64(&mut self) -> (v: i64)
        requires
            fits(old(self).source_buffer(), old(self).source_pos(), 8),
        ensures
            consumed(old(self).source_buffer(), old(self).source_pos(), final(self).source_buffer(), final(self).source_pos(), 8),
            v == read_i64(rest(old(self).source_buffer(), old(self).source_pos()).take(8)),
    {
        self.get_u64() as i64
    }

    fn get_usize(&mut self) -> (v: usize)
        requires
            fits(old(self).source_buffer(), old(self).source_pos(), 8),
        ensures
            consumed(old(self).source_buffer(), old(self).source_pos(), final(self).source_buffer(), final(self).source_pos(), 8),
            v == read_usize(rest(old(self).source_buffer(), old(self).source_pos()).take(8)),
    {
        self.get_u64() as usize
    }

    fn get_isize(&mut self) -> (v: isize)
        requires
            fits(old(self).source_buffer(), old(self).source_pos(), 8),
        ensures
            consumed(old(self).source_buffer(), old(self).source_pos(), final(self).source_buffer(), final(self).source_pos(), 8),
            v == read_isize(rest(old(self).source_buffer(), old(self).source_pos()).take(8)),
    {
        self.get_u64() as isize
    }

    fn get_bool(&mut self) -> (v: bool)
        requires
            fits(old(self).source_buffer(), old(self).source_pos(), 1),
        ensures
            consumed(old(self).source_buffer(), old(self).source_pos(), final(self).source_buffer(), final(self).source_pos(), 1),
            v == read_bool(rest(old(self).source_buffer(), old(self).source_pos())),
    {
        self.get_u8() != 0
    }

    /// Reads a length-prefixed string; its bytes must be UTF-8.
    fn get_string(&mut self) -> (s: String)
        requires
            old(self).source_pos() <= old(self).source_buffer().len(),
            str_readable(rest(old(self).source_buffer(), old(self).source_pos())),
        ensures
            consumed(old(self).source_buffer(), old(self).source_pos(), final(self).source_buffer(), final(self).source_pos(), str_read_len(rest(old(self).source_buffer(), old(self).source_pos()))),
            s@ == str_read(rest(old(self).source_buffer(), old(self).source_pos())),
    {
        let ghost r0 = rest(old(self).source_buffer(), old(self).source_pos());
        let n = self.get_usize();
        assert(rest(self.source_buffer(), self.source_pos()) =~= r0.skip(8));
        let b = self.take_bytes(n);
        assert(b@ =~= r0.subrange(8, 8 + n));
        let text = utf8_to_str(b);
        text.to_owned()
    }
}

/// The unread bytes of a buffer read up to `pos`.
pub open spec fn rest(buf: Seq<u8>, pos: nat) -> Seq<u8> {
    buf.subrange(pos as int, buf.len() as int)
}

/// Reading `n` bytes from `buf0` at `pos0` leaves `buf1` at `pos1`.
pub open spec fn consumed(buf0: Seq<u8>, pos0: nat, buf1: Seq<u8>, pos1: nat, n: nat) -> bool {
    &&& buf1 == buf0
    &&& pos1 == pos0 + n
}

/// Reading from `buf0` at `pos0` took `bytes`, its next unread bytes.
pub open spec fn took(buf0: Seq<u8>, pos0: nat, buf1: Seq<u8>, pos1: nat, bytes: Seq<u8>) -> bool {
    &&& consumed(buf0, pos0, buf1, pos1, bytes.len())
    &&& bytes == buf0.subrange(pos0 as int, (pos0 + bytes.len()) as int)
}

// MARK: Byte Writer

/// Write raw bytes and primitives to a slice.
///
/// The fields are public so that contracts can relate the borrowed slice to
/// what the writer leaves in it.
pub struct ByteWriter<'a> {
    pub buf: &'a mut [u8],
    pub pos: usize,
}

impl<'a> ByteWriter<'a> {
    pub fn new(buf: &'a mut [u8]) -> (w: Self)
        ensures
            w.buf@ == old(buf)@,
            w.pos == 0,
            final(buf)@ == final(w.buf)@,
    {
        Self { buf, pos: 0 }
    }

    pub fn new_with_position(buf: &'a mut [u8], pos: usize) -> (w: Self)
        ensures
            w.buf@ == old(buf)@,
            w.pos == pos,
            final(buf)@ == final(w.buf)@,
    {
        Self { buf, pos }
    }

    pub fn position(&self) -> (p: usize)
        ensures
            p == self.pos,
    {
        self.pos
    }

    pub fn remaining(&self) -> (r: usize)
        requires
            self.sink_pos() <= self.sink_buffer().len(),
        ensures
            r == self.sink_buffer().len() - self.sink_pos(),
    {
        self.buf.len() - self.pos
    }
}

impl<'a> ByteSink for ByteWriter<'a> {
    open spec fn sink_buffer(&self) -> Seq<u8> {
        self.buf@
    }

    open spec fn sink_pos(&self) -> nat {
        self.pos as nat
    }

    fn put_bytes(&mut self, src: &[u8])
        ensures
            final(final(self).buf)@ == final(old(self).buf)@,
    {
        let start = self.pos;
        let n = src.len();
        let len = self.buf.len();
        let mut i: usize = 0;
        while i < n
            invariant
                0 <= i <= n,
                n == src@.len(),
                start == old(self).pos,
                start + n <= old(self).buf@.len(),
                len == old(self).buf@.len(),
                self.pos == start,
                self.buf@.len() == old(self).buf@.len(),
                self.buf@ =~= old(self).buf@.subrange(0, start as int) + src@.subrange(0, i as int)
                    + old(self).buf@.subrange(start + i, old(self).buf@.len() as int),
                final(self.buf)@ == final(old(self).buf)@,
            decreases n - i,
        {
            self.buf[start + i] = src[i];
            i = i + 1;
        }
        self.pos = start + n;
        assert(self.buf@ =~= splice(old(self).buf@, start as int, src@));
    }
}

// MARK: Byte Reader

/// Read raw bytes and primitives from a slice.
pub struct ByteReader<'a> {
    buf: &'a [u8],
    pos: usize,
}

impl<'a> ByteReader<'a> {
    pub fn new(buf: &'a [u8]) -> (r: Self)
        ensures
            r.source_buffer() == buf@,
            r.source_pos() == 0,
    {
        Self { buf, pos: 0 }
    }

    pub fn new_with_position(buf: &'a mut [u8], pos: usize) -> (r: Self)
        ensures
            r.source_buffer() == old(buf)@,
            r.source_pos() == pos,
    {
        Self { buf, pos }
    }

    pub fn position(&self) -> (p: usize)
        ensures
            p == self.source_pos(),
    {
        self.pos
    }

    pub fn remaining(&self) -> (r: usize)
        requires
            self.source_pos() <= self.source_buffer().len(),
        ensures
            r == self.source_buffer().len() - self.source_pos(),
    {
        self.buf.len() - self.pos
    }
}

impl<'a> ByteSource<'a> for ByteReader<'a> {
    closed spec fn source_buffer(&self) -> Seq<u8> {
        self.buf@
    }

    closed spec fn source_pos(&self) -> nat {
        self.pos as nat
    }

    fn take_bytes(&mut self, n: usize) -> (out: &'a [u8]) {
        let _ = self.buf.len();
        let end = self.pos + n;
        let out = vstd::slice::slice_subrange(self.buf, self.pos, end);
        self.pos = end;
        out
    }

    fn take_bytes_to(&mut self, n: &mut [u8]) {
        let start = self.pos;
        let count = n.len();
        let len = self.buf.len();
        let mut i: usize = 0;
        while i < count
            invariant
                0 <= i <= count,
                count == old(n)@.len(),
                n@.len() == count,
                start == self.pos,
                start + count <= self.buf@.len(),
                len == self.buf@.len(),
                forall|k: int| 0 <= k < i ==> n@[k] == self.buf@[start + k],
            decreases count - i,
        {
            n[i] = self.buf[start + i];
            i = i + 1;
        }
        assert(n@ =~= self.buf@.subrange(start as int, start + count));
        self.pos = start + count;
    }
}

/// The bytes hold a length prefix and that many UTF-8 bytes.
pub open spec fn str_readable(b: Seq<u8>) -> bool {
    &&& b.len() >= 8
    &&& 8 + read_usize(b.take(8)) <= b.len()
    &&& valid_utf8(b.subrange(8, 8 + read_usize(b.take(8))))
}

/// How many bytes a string read consumes.
pub open spec fn str_read_len(b: Seq<u8>) -> nat {
    (8 + read_usize(b.take(8))) as nat
}

/// The characters that a string read yields.
pub open spec fn str_read(b: Seq<u8>) -> Seq<char> {
    decode_utf8(b.subrange(8, 8 + read_usize(b.take(8))))
}

/// `std::str::from_utf8`, called only on bytes that are UTF-8, where it
/// returns the string slice whose UTF-8 bytes are `b`.
#[verifier::external_body]
fn utf8_bytes_as_str(b: &[u8]) -> (s: &str)
    requires
        valid_utf8(b@),
    ensures
        s.spec_bytes() == b@,
{
    std::str::from_utf8(b).unwrap()
}

/// The string slice that the UTF-8 bytes `b` spell.
fn utf8_to_str(b: &[u8]) -> (s: &str)
    requires
        valid_utf8(b@),
    ensures
        s@ == decode_utf8(b@),
{
    let s = utf8_bytes_as_str(b);
    proof {
        encode_utf8_decode_utf8(s@);
    }
    s
}

} // verus!
