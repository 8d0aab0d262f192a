//! Native-endian byte representations of the fixed-width integers.
//!
//! The wire format of this crate is the in-memory representation of each
//! primitive, so both ends of a transcript must share one architecture.  The
//! representation is stated over vstd's little-endian byte functions and
//! vstd's abstraction of the hardware's endianness.
use vstd::bytes::*;
use vstd::endian::{endianness, Endian};
use vstd::prelude::*;

verus! {

/// The native order of a little-endian byte sequence.
pub open spec fn ne_order(le: Seq<u8>) -> Seq<u8> {
    match endianness() {
        Endian::Little => le,
        Endian::Big => le.reverse(),
    }
}

pub open spec fn ne_u16(v: u16) -> Seq<u8> {
    ne_order(spec_u16_to_le_bytes(v))
}

pub open spec fn ne_u32(v: u32) -> Seq<u8> {
    ne_order(spec_u32_to_le_bytes(v))
}

pub open spec fn ne_u64(v: u64) -> Seq<u8> {
    ne_order(spec_u64_to_le_bytes(v))
}

pub open spec fn from_ne_u16(b: Seq<u8>) -> u16 {
    spec_u16_from_le_bytes(ne_order(b))
}

pub open spec fn from_ne_u32(b: Seq<u8>) -> u32 {
    spec_u32_from_le_bytes(ne_order(b))
}

pub open spec fn from_ne_u64(b: Seq<u8>) -> u64 {
    spec_u64_from_le_bytes(ne_order(b))
}

/// Putting bytes in the hardware's order keeps their number, and doing it
/// twice gives the bytes back.
pub proof fn lemma_ne_order(s: Seq<u8>)
    ensures
        ne_order(s).len() == s.len(),
        ne_order(ne_order(s)) == s,
{
    assert(s.reverse().reverse() =~= s);
}

/// Each native representation has the width of its type and reads back to its
/// value, and every byte sequence of that width is the representation of the
/// value that it reads back as.
pub proof fn lemma_ne_roundtrip()
    ensures
        forall|v: u16| #[trigger] ne_u16(v).len() == 2 && from_ne_u16(ne_u16(v)) == v,
        forall|v: u32| #[trigger] ne_u32(v).len() == 4 && from_ne_u32(ne_u32(v)) == v,
        forall|v: u64| #[trigger] ne_u64(v).len() == 8 && from_ne_u64(ne_u64(v)) == v,
        forall|s: Seq<u8>| s.len() == 2 ==> #[trigger] ne_u16(from_ne_u16(s)) == s,
        forall|s: Seq<u8>| s.len() == 4 ==> #[trigger] ne_u32(from_ne_u32(s)) == s,
        forall|s: Seq<u8>| s.len() == 8 ==> #[trigger] ne_u64(from_ne_u64(s)) == s,
{
    assert forall|s: Seq<u8>| s.len() == 2 implies #[trigger] ne_u16(from_ne_u16(s)) == s by {
        lemma_ne_order(s);
        lemma_ne_order(spec_u16_to_le_bytes(from_ne_u16(s)));
        lemma_auto_spec_u16_to_from_le_bytes();
    }
    assert forall|s: Seq<u8>| s.len() == 4 implies #[trigger] ne_u32(from_ne_u32(s)) == s by {
        lemma_ne_order(s);
        lemma_auto_spec_u32_to_from_le_bytes();
    }
    assert forall|s: Seq<u8>| s.len() == 8 implies #[trigger] ne_u64(from_ne_u64(s)) == s by {
        lemma_ne_order(s);
        lemma_auto_spec_u64_to_from_le_bytes();
    }
    lemma_auto_spec_u16_to_from_le_bytes();
    lemma_auto_spec_u32_to_from_le_bytes();
    lemma_auto_spec_u64_to_from_le_bytes();
    assert forall|v: u16| #[trigger] ne_u16(v).len() == 2 && from_ne_u16(ne_u16(v)) == v by {
        lemma_ne_order(spec_u16_to_le_bytes(v));
    }
    assert forall|v: u32| #[trigger] ne_u32(v).len() == 4 && from_ne_u32(ne_u32(v)) == v by {
        lemma_ne_order(spec_u32_to_le_bytes(v));
    }
    assert forall|v: u64| #[trigger] ne_u64(v).len() == 8 && from_ne_u64(ne_u64(v)) == v by {
        lemma_ne_order(spec_u64_to_le_bytes(v));
    }
}

/// `u16::to_ne_bytes`: the memory representation of `v` in the hardware's byte order.
#[verifier::external_body]
pub(crate) fn u16_to_ne(v: u16) -> (b: Vec<u8>)
    ensures
        b@ == ne_u16(v),
{
    v.to_ne_bytes().to_vec()
}

/// `u32::to_ne_bytes`: the memory representation of `v` in the hardware's byte order.
#[verifier::external_body]
pub(crate) fn u32_to_ne(v: u32) -> (b: Vec<u8>)
    ensures
        b@ == ne_u32(v),
{
    v.to_ne_bytes().to_vec()
}

/// `u64::to_ne_bytes`: the memory representation of `v` in the hardware's byte order.
#[verifier::external_body]
pub(crate) fn u64_to_ne(v: u64) -> (b: Vec<u8>)
    ensures
        b@ == ne_u64(v),
{
    v.to_ne_bytes().to_vec()
}

/// `u16::from_ne_bytes`: the value whose hardware-order representation is `b`.
#[verifier::external_body]
pub(crate) fn u16_from_ne(b: &[u8]) -> (v: u16)
    requires
        b@.len() == 2,
    ensures
        v == from_ne_u16(b@),
{
    u16::from_ne_bytes([b[0], b[1]])
}

/// `u32::from_ne_bytes`: the value whose hardware-order representation is `b`.
#[verifier::external_body]
pub(crate) fn u32_from_ne(b: &[u8]) -> (v: u32)
    requires
        b@.len() == 4,
    ensures
        v == from_ne_u32(b@),
{
    u32::from_ne_bytes([b[0], b[1], b[2], b[3]])
}

/// `u64::from_ne_bytes`: the value whose hardware-order representation is `b`.
#[verifier::external_body]
pub(crate) fn u64_from_ne(b: &[u8]) -> (v: u64)
    requires
        b@.len() == 8,
    ensures
        v == from_ne_u64(b@),
{
    u64::from_ne_bytes([b[0], b[1], b[2], b[3], b[4], b[5], b[6], b[7]])
}

} // verus!
