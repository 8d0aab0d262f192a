//! Mesh data on the wire: vertex attribute values and indices.
//!
//! Each attribute format is written as a one-byte tag and its elements as a
//! vector of plain values.  Float components travel as their IEEE bits.
use crate::fast_io::{
    fits, lemma_primitive_bytes, lemma_wrote_twice, rest, i8_bytes, wrote, ByteSink, ByteSource,
};
use crate::fast_ser::{FastPod, FastRead, FastWrite};
use crate::transcript::{deserialize_pod_slice, serialize_pod_slice, TDeserialize, TSerialize};
use vstd::prelude::*;

verus! {

// MARK: Fixed-size arrays of plain values

impl<T: FastPod> FastWrite for [T; 2] {
    open spec fn fast_bytes(&self) -> Seq<u8> {
        self@[0].fast_bytes() + self@[1].fast_bytes()
    }

    fn write_fast<W: ByteSink>(&self, w: &mut W) {
        proof {
            T::lemma_pod(self@[0], seq![]);
            T::lemma_pod(self@[1], seq![]);
        }
        self[0].write_fast(w);
        let ghost b1 = w.sink_buffer();
        let ghost p1 = w.sink_pos();
        self[1].write_fast(w);
        proof {
            lemma_wrote_twice(
                old(w).sink_buffer(),
                old(w).sink_pos(),
                b1,
                p1,
                w.sink_buffer(),
                w.sink_pos(),
                self@[0].fast_bytes(),
                self@[1].fast_bytes(),
            );
        }
    }
}

impl<T: FastPod> FastRead for [T; 2] {
    type Value = Seq<T::Value>;

    open spec fn fast_value(&self) -> Seq<T::Value> {
        Seq::new(2, |i: int| self@[i].fast_value())
    }

    open spec fn fast_readable(b: Seq<u8>) -> bool {
        b.len() >= 2 * T::pod_width()
    }

    open spec fn fast_read_len(b: Seq<u8>) -> nat {
        2 * T::pod_width()
    }

    open spec fn fast_reads(b: Seq<u8>, v: Self) -> bool {
        &&& T::fast_reads(b, v@[0])
        &&& T::fast_reads(b.skip(T::pod_width() as int), v@[1])
    }

    fn read_fast<'a, S: ByteSource<'a>>(r: &mut S) -> (v: Self) {
        let ghost b = rest(r.source_buffer(), r.source_pos());
        proof {
            T::lemma_pod(arbitrary(), b);
            T::lemma_pod(arbitrary(), b.skip(T::pod_width() as int));
        }
        let a = T::read_fast(r);
        assert(rest(r.source_buffer(), r.source_pos()) =~= b.skip(T::pod_width() as int));
        let c = T::read_fast(r);
        let v = [a, c];
        assert(v@[0] == a && v@[1] == c);
        v
    }

    proof fn lemma_read_bounded(b: Seq<u8>) {
    }

    proof fn lemma_roundtrip(v: Self, tail: Seq<u8>) {
        let wd = T::pod_width();
        T::lemma_pod(v@[0], v@[1].fast_bytes() + tail);
        T::lemma_pod(v@[1], tail);
        let b = v.fast_bytes() + tail;
        T::lemma_pod(v@[0], b);
        T::lemma_pod(v@[1], b.skip(wd as int));
        assert(b.take(wd as int) =~= v@[0].fast_bytes());
        assert(b.skip(wd as int).take(wd as int) =~= v@[1].fast_bytes());
        assert forall|x: Self| #[trigger] Self::fast_reads(b, x) implies x.fast_bytes()
            == v.fast_bytes() by {
            T::lemma_pod(x@[0], b);
            T::lemma_pod(x@[1], b.skip(wd as int));
        }
        assert forall|x: Self| #[trigger] Self::fast_reads(b, x) implies x.fast_value()
            == v.fast_value() by {
            assert(x.fast_bytes() == v.fast_bytes());
            Self::lemma_pod_injective(x, v);
        }
    }
}

impl<T: FastPod> FastPod for [T; 2] {
    proof fn lemma_pod_injective(v: Self, w: Self) {
        let wd = T::pod_width();
        T::lemma_pod(v@[0], seq![]);
        T::lemma_pod(w@[0], seq![]);
        T::lemma_pod(v@[1], seq![]);
        T::lemma_pod(w@[1], seq![]);
        let vb = v.fast_bytes();
        let wb = w.fast_bytes();
        assert(vb.subrange((0 * wd) as int, (1 * wd) as int) =~= v@[0].fast_bytes());
        assert(wb.subrange((0 * wd) as int, (1 * wd) as int) =~= w@[0].fast_bytes());
        T::lemma_pod_injective(v@[0], w@[0]);
        assert(vb.subrange((1 * wd) as int, (2 * wd) as int) =~= v@[1].fast_bytes());
        assert(wb.subrange((1 * wd) as int, (2 * wd) as int) =~= w@[1].fast_bytes());
        T::lemma_pod_injective(v@[1], w@[1]);
        assert(v.fast_value() =~= w.fast_value());
    }

    open spec fn pod_width() -> nat {
        2 * T::pod_width()
    }

    proof fn lemma_pod(v: Self, b: Seq<u8>) {
        let wd = T::pod_width();
        T::lemma_pod(v@[0], b);
        T::lemma_pod(v@[1], b.skip(wd as int));
        if b.len() >= 2 * wd {
            let t = b.take((2 * wd) as int);
            let vb = v.fast_bytes();
            assert(t =~= b.take(wd as int) + b.skip(wd as int).take(wd as int));
            if t == vb {
                assert(b.take(wd as int) =~= vb.take(wd as int));
                assert(vb.take(wd as int) =~= v@[0].fast_bytes());
                assert(b.skip(wd as int).take(wd as int) =~= vb.skip(wd as int));
                assert(vb.skip(wd as int) =~= v@[1].fast_bytes());
            }
            if Self::fast_reads(b, v) {
                assert(t =~= vb);
            }
        }
    }
}

impl<T: FastPod> FastWrite for [T; 3] {
    open spec fn fast_bytes(&self) -> Seq<u8> {
        self@[0].fast_bytes() + self@[1].fast_bytes() + self@[2].fast_bytes()
    }

    fn write_fast<W: ByteSink>(&self, w: &mut W) {
        proof {
            T::lemma_pod(self@[0], seq![]);
            T::lemma_pod(self@[1], seq![]);
            T::lemma_pod(self@[2], seq![]);
        }
        let ghost b0 = w.sink_buffer();
        let ghost p0 = w.sink_pos();
        self[0].write_fast(w);
        let ghost b1 = w.sink_buffer();
        let ghost p1 = w.sink_pos();
        self[1].write_fast(w);
        proof {
            lemma_wrote_twice(b0, p0, b1, p1, w.sink_buffer(), w.sink_pos(), self@[0].fast_bytes(), self@[1].fast_bytes());
        }
        let ghost b2 = w.sink_buffer();
        let ghost p2 = w.sink_pos();
        self[2].write_fast(w);
        proof {
            lemma_wrote_twice(b0, p0, b2, p2, w.sink_buffer(), w.sink_pos(), self@[0].fast_bytes() + self@[1].fast_bytes(), self@[2].fast_bytes());
        }
    }
}

impl<T: FastPod> FastRead for [T; 3] {
    type Value = Seq<T::Value>;

    open spec fn fast_value(&self) -> Seq<T::Value> {
        Seq::new(3, |i: int| self@[i].fast_value())
    }

    open spec fn fast_readable(b: Seq<u8>) -> bool {
        b.len() >= 3 * T::pod_width()
    }

    open spec fn fast_read_len(b: Seq<u8>) -> nat {
        3 * T::pod_width()
    }

    open spec fn fast_reads(b: Seq<u8>, v: Self) -> bool {
        let wd = T::pod_width();
        &&& T::fast_reads(b, v@[0])
        &&& T::fast_reads(b.skip((wd) as int), v@[1])
        &&& T::fast_reads(b.skip((2 * wd) as int), v@[2])
    }

    fn read_fast<'a, S: ByteSource<'a>>(r: &mut S) -> (v: Self) {
        let ghost b = rest(r.source_buffer(), r.source_pos());
        let ghost wd = T::pod_width();
        proof {
            T::lemma_pod(arbitrary(), b);
            T::lemma_pod(arbitrary(), b.skip((wd) as int));
            T::lemma_pod(arbitrary(), b.skip((2 * wd) as int));
        }
        let a0 = T::read_fast(r);
        assert(rest(r.source_buffer(), r.source_pos()) =~= b.skip((wd) as int));
        let a1 = T::read_fast(r);
        assert(rest(r.source_buffer(), r.source_pos()) =~= b.skip((2 * wd) as int));
        let a2 = T::read_fast(r);
        let v = [a0, a1, a2];
        assert(v@[0] == a0 && v@[1] == a1 && v@[2] == a2);
        v
    }

    proof fn lemma_read_bounded(b: Seq<u8>) {
    }

    proof fn lemma_roundtrip(v: Self, tail: Seq<u8>) {
        let wd = T::pod_width();
        let b = v.fast_bytes() + tail;
        T::lemma_pod(v@[0], b);
        T::lemma_pod(v@[1], b.skip((wd) as int));
        T::lemma_pod(v@[2], b.skip((2 * wd) as int));
        assert(b.take(wd as int) =~= v@[0].fast_bytes());
        assert(b.skip((wd) as int).take(wd as int) =~= v@[1].fast_bytes());
        assert(b.skip((2 * wd) as int).take(wd as int) =~= v@[2].fast_bytes());
        assert forall|x: Self| #[trigger] Self::fast_reads(b, x) implies x.fast_bytes()
            == v.fast_bytes() by {
            T::lemma_pod(x@[0], b);
            T::lemma_pod(x@[1], b.skip((wd) as int));
            T::lemma_pod(x@[2], b.skip((2 * wd) as int));
        }
        assert forall|x: Self| #[trigger] Self::fast_reads(b, x) implies x.fast_value()
            == v.fast_value() by {
            assert(x.fast_bytes() == v.fast_bytes());
            Self::lemma_pod_injective(x, v);
        }
    }
}

impl<T: FastPod> FastPod for [T; 3] {
    proof fn lemma_pod_injective(v: Self, w: Self) {
        let wd = T::pod_width();
        T::lemma_pod(v@[0], seq![]);
        T::lemma_pod(w@[0], seq![]);
        T::lemma_pod(v@[1], seq![]);
        T::lemma_pod(w@[1], seq![]);
        T::lemma_pod(v@[2], seq![]);
        T::lemma_pod(w@[2], seq![]);
        let vb = v.fast_bytes();
        let wb = w.fast_bytes();
        assert(vb.subrange((0 * wd) as int, (1 * wd) as int) =~= v@[0].fast_bytes());
        assert(wb.subrange((0 * wd) as int, (1 * wd) as int) =~= w@[0].fast_bytes());
        T::lemma_pod_injective(v@[0], w@[0]);
        assert(vb.subrange((1 * wd) as int, (2 * wd) as int) =~= v@[1].fast_bytes());
        assert(wb.subrange((1 * wd) as int, (2 * wd) as int) =~= w@[1].fast_bytes());
        T::lemma_pod_injective(v@[1], w@[1]);
        assert(vb.subrange((2 * wd) as int, (3 * wd) as int) =~= v@[2].fast_bytes());
        assert(wb.subrange((2 * wd) as int, (3 * wd) as int) =~= w@[2].fast_bytes());
        T::lemma_pod_injective(v@[2], w@[2]);
        assert(v.fast_value() =~= w.fast_value());
    }

    open spec fn pod_width() -> nat {
        3 * T::pod_width()
    }

    proof fn lemma_pod(v: Self, b: Seq<u8>) {
        let wd = T::pod_width();
        T::lemma_pod(v@[0], b);
        T::lemma_pod(v@[1], b.skip((wd) as int));
        T::lemma_pod(v@[2], b.skip((2 * wd) as int));
        if b.len() >= 3 * wd {
            let t = b.take((3 * wd) as int);
            let vb = v.fast_bytes();
            assert(t =~= b.take(wd as int) + b.skip((wd) as int).take(wd as int) + b.skip((2 * wd) as int).take(wd as int));
            if t == vb {
                assert(b.take(wd as int) =~= vb.subrange((0) as int, (wd) as int));
                assert(vb.subrange((0) as int, (wd) as int) =~= v@[0].fast_bytes());
                assert(b.skip((wd) as int).take(wd as int) =~= vb.subrange((wd) as int, (2 * wd) as int));
                assert(vb.subrange((wd) as int, (2 * wd) as int) =~= v@[1].fast_bytes());
                assert(b.skip((2 * wd) as int).take(wd as int) =~= vb.subrange((2 * wd) as int, (3 * wd) as int));
                assert(vb.subrange((2 * wd) as int, (3 * wd) as int) =~= v@[2].fast_bytes());
            }
            if Self::fast_reads(b, v) {
                assert(t =~= vb);
            }
        }
    }
}

impl<T: FastPod> FastWrite for [T; 4] {
    open spec fn fast_bytes(&self) -> Seq<u8> {
        self@[0].fast_bytes() + self@[1].fast_bytes() + self@[2].fast_bytes() + self@[3].fast_bytes()
    }

    fn write_fast<W: ByteSink>(&self, w: &mut W) {
        proof {
            T::lemma_pod(self@[0], seq![]);
            T::lemma_pod(self@[1], seq![]);
            T::lemma_pod(self@[2], seq![]);
            T::lemma_pod(self@[3], seq![]);
        }
        let ghost b0 = w.sink_buffer();
        let ghost p0 = w.sink_pos();
        self[0].write_fast(w);
        let ghost b1 = w.sink_buffer();
        let ghost p1 = w.sink_pos();
        self[1].write_fast(w);
        proof {
            lemma_wrote_twice(b0, p0, b1, p1, w.sink_buffer(), w.sink_pos(), self@[0].fast_bytes(), self@[1].fast_bytes());
        }
        let ghost b2 = w.sink_buffer();
        let ghost p2 = w.sink_pos();
        self[2].write_fast(w);
        proof {
            lemma_wrote_twice(b0, p0, b2, p2, w.sink_buffer(), w.sink_pos(), self@[0].fast_bytes() + self@[1].fast_bytes(), self@[2].fast_bytes());
        }
        let ghost b3 = w.sink_buffer();
        let ghost p3 = w.sink_pos();
        self[3].write_fast(w);
        proof {
            lemma_wrote_twice(b0, p0, b3, p3, w.sink_buffer(), w.sink_pos(), self@[0].fast_bytes() + self@[1].fast_bytes() + self@[2].fast_bytes(), self@[3].fast_bytes());
        }
    }
}

impl<T: FastPod> FastRead for [T; 4] {
    type Value = Seq<T::Value>;

    open spec fn fast_value(&self) -> Seq<T::Value> {
        Seq::new(4, |i: int| self@[i].fast_value())
    }

    open spec fn fast_readable(b: Seq<u8>) -> bool {
        b.len() >= 4 * T::pod_width()
    }

    open spec fn fast_read_len(b: Seq<u8>) -> nat {
        4 * T::pod_width()
    }

    open spec fn fast_reads(b: Seq<u8>, v: Self) -> bool {
        let wd = T::pod_width();
        &&& T::fast_reads(b, v@[0])
        &&& T::fast_reads(b.skip((wd) as int), v@[1])
        &&& T::fast_reads(b.skip((2 * wd) as int), v@[2])
        &&& T::fast_reads(b.skip((3 * wd) as int), v@[3])
    }

    fn read_fast<'a, S: ByteSource<'a>>(r: &mut S) -> (v: Self) {
        let ghost b = rest(r.source_buffer(), r.source_pos());
        let ghost wd = T::pod_width();
        proof {
            T::lemma_pod(arbitrary(), b);
            T::lemma_pod(arbitrary(), b.skip((wd) as int));
            T::lemma_pod(arbitrary(), b.skip((2 * wd) as int));
            T::lemma_pod(arbitrary(), b.skip((3 * wd) as int));
        }
        let a0 = T::read_fast(r);
        assert(rest(r.source_buffer(), r.source_pos()) =~= b.skip((wd) as int));
        let a1 = T::read_fast(r);
        assert(rest(r.source_buffer(), r.source_pos()) =~= b.skip((2 * wd) as int));
        let a2 = T::read_fast(r);
        assert(rest(r.source_buffer(), r.source_pos()) =~= b.skip((3 * wd) as int));
        let a3 = T::read_fast(r);
        let v = [a0, a1, a2, a3];
        assert(v@[0] == a0 && v@[1] == a1 && v@[2] == a2 && v@[3] == a3);
        v
    }

    proof fn lemma_read_bounded(b: Seq<u8>) {
    }

    proof fn lemma_roundtrip(v: Self, tail: Seq<u8>) {
        let wd = T::pod_width();
        let b = v.fast_bytes() + tail;
        T::lemma_pod(v@[0], b);
        T::lemma_pod(v@[1], b.skip((wd) as int));
        T::lemma_pod(v@[2], b.skip((2 * wd) as int));
        T::lemma_pod(v@[3], b.skip((3 * wd) as int));
        assert(b.take(wd as int) =~= v@[0].fast_bytes());
        assert(b.skip((wd) as int).take(wd as int) =~= v@[1].fast_bytes());
        assert(b.skip((2 * wd) as int).take(wd as int) =~= v@[2].fast_bytes());
        assert(b.skip((3 * wd) as int).take(wd as int) =~= v@[3].fast_bytes());
        assert forall|x: Self| #[trigger] Self::fast_reads(b, x) implies x.fast_bytes()
            == v.fast_bytes() by {
            T::lemma_pod(x@[0], b);
            T::lemma_pod(x@[1], b.skip((wd) as int));
            T::lemma_pod(x@[2], b.skip((2 * wd) as int));
            T::lemma_pod(x@[3], b.skip((3 * wd) as int));
        }
        assert forall|x: Self| #[trigger] Self::fast_reads(b, x) implies x.fast_value()
            == v.fast_value() by {
            assert(x.fast_bytes() == v.fast_bytes());
            Self::lemma_pod_injective(x, v);
        }
    }
}

impl<T: FastPod> FastPod for [T; 4] {
    proof fn lemma_pod_injective(v: Self, w: Self) {
        let wd = T::pod_width();
        T::lemma_pod(v@[0], seq![]);
        T::lemma_pod(w@[0], seq![]);
        T::lemma_pod(v@[1], seq![]);
        T::lemma_pod(w@[1], seq![]);
        T::lemma_pod(v@[2], seq![]);
        T::lemma_pod(w@[2], seq![]);
        T::lemma_pod(v@[3], seq![]);
        T::lemma_pod(w@[3], seq![]);
        let vb = v.fast_bytes();
        let wb = w.fast_bytes();
        assert(vb.subrange((0 * wd) as int, (1 * wd) as int) =~= v@[0].fast_bytes());
        assert(wb.subrange((0 * wd) as int, (1 * wd) as int) =~= w@[0].fast_bytes());
        T::lemma_pod_injective(v@[0], w@[0]);
        assert(vb.subrange((1 * wd) as int, (2 * wd) as int) =~= v@[1].fast_bytes());
        assert(wb.subrange((1 * wd) as int, (2 * wd) as int) =~= w@[1].fast_bytes());
        T::lemma_pod_injective(v@[1], w@[1]);
        assert(vb.subrange((2 * wd) as int, (3 * wd) as int) =~= v@[2].fast_bytes());
        assert(wb.subrange((2 * wd) as int, (3 * wd) as int) =~= w@[2].fast_bytes());
        T::lemma_pod_injective(v@[2], w@[2]);
        assert(vb.subrange((3 * wd) as int, (4 * wd) as int) =~= v@[3].fast_bytes());
        assert(wb.subrange((3 * wd) as int, (4 * wd) as int) =~= w@[3].fast_bytes());
        T::lemma_pod_injective(v@[3], w@[3]);
        assert(v.fast_value() =~= w.fast_value());
    }

    open spec fn pod_width() -> nat {
        4 * T::pod_width()
    }

    proof fn lemma_pod(v: Self, b: Seq<u8>) {
        let wd = T::pod_width();
        T::lemma_pod(v@[0], b);
        T::lemma_pod(v@[1], b.skip((wd) as int));
        T::lemma_pod(v@[2], b.skip((2 * wd) as int));
        T::lemma_pod(v@[3], b.skip((3 * wd) as int));
        if b.len() >= 4 * wd {
            let t = b.take((4 * wd) as int);
            let vb = v.fast_bytes();
            assert(t =~= b.take(wd as int) + b.skip((wd) as int).take(wd as int) + b.skip((2 * wd) as int).take(wd as int) + b.skip((3 * wd) as int).take(wd as int));
            if t == vb {
                assert(b.take(wd as int) =~= vb.subrange((0) as int, (wd) as int));
                assert(vb.subrange((0) as int, (wd) as int) =~= v@[0].fast_bytes());
                assert(b.skip((wd) as int).take(wd as int) =~= vb.subrange((wd) as int, (2 * wd) as int));
                assert(vb.subrange((wd) as int, (2 * wd) as int) =~= v@[1].fast_bytes());
                assert(b.skip((2 * wd) as int).take(wd as int) =~= vb.subrange((2 * wd) as int, (3 * wd) as int));
                assert(vb.subrange((2 * wd) as int, (3 * wd) as int) =~= v@[2].fast_bytes());
                assert(b.skip((3 * wd) as int).take(wd as int) =~= vb.subrange((3 * wd) as int, (4 * wd) as int));
                assert(vb.subrange((3 * wd) as int, (4 * wd) as int) =~= v@[3].fast_bytes());
            }
            if Self::fast_reads(b, v) {
                assert(t =~= vb);
            }
        }
    }
}

// MARK: Arrays in transcripts

impl<T: TSerialize> TSerialize for [T; 2] {
    open spec fn t_bytes(&self) -> Seq<u8> {
        self@[0].t_bytes() + self@[1].t_bytes()
    }

    fn serialize(&self, w: &mut Vec<u8>) {
        self[0].serialize(w);
        self[1].serialize(w);
        assert(w@ =~= old(w)@ + self.t_bytes());
    }
}

impl<T: TDeserialize> TDeserialize for [T; 2] {
    open spec fn t_readable(b: Seq<u8>) -> bool {
        let b0 = b;
        let b1 = b0.skip(T::t_read_len(b0) as int);
        &&& T::t_readable(b0)
        &&& T::t_readable(b1)
    }

    open spec fn t_read_len(b: Seq<u8>) -> nat {
        let b0 = b;
        let b1 = b0.skip(T::t_read_len(b0) as int);
        T::t_read_len(b0) + T::t_read_len(b1)
    }

    open spec fn t_reads(b: Seq<u8>, v: Self) -> bool {
        let b0 = b;
        let b1 = b0.skip(T::t_read_len(b0) as int);
        &&& T::t_reads(b0, v@[0])
        &&& T::t_reads(b1, v@[1])
    }

    fn deserialize<'a, S: ByteSource<'a>>(r: &mut S) -> (v: Self) {
        let ghost b = rest(r.source_buffer(), r.source_pos());
        let ghost b0 = b;
        let ghost b1 = b0.skip(T::t_read_len(b0) as int);
        proof {
            T::lemma_t_read_bounded(b0);
        }
        let a0 = T::deserialize(r);
        proof {
            T::lemma_t_read_bounded(b1);
        }
        assert(rest(r.source_buffer(), r.source_pos()) =~= b1);
        let a1 = T::deserialize(r);
        let v = [a0, a1];
        assert(v@[0] == a0 && v@[1] == a1);
        v
    }

    proof fn lemma_t_read_bounded(b: Seq<u8>) {
        let b0 = b;
        let b1 = b0.skip(T::t_read_len(b0) as int);
        T::lemma_t_read_bounded(b0);
        T::lemma_t_read_bounded(b1);
    }

    proof fn lemma_t_roundtrip(v: Self, tail: Seq<u8>) {
        let b = v.t_bytes() + tail;
        let b0 = b;
        let b1 = b0.skip(T::t_read_len(b0) as int);
        assert(b0 =~= v@[0].t_bytes() + (v@[1].t_bytes() + tail));
        T::lemma_t_roundtrip(v@[0], v@[1].t_bytes() + tail);
        assert(b0.skip(v@[0].t_bytes().len() as int) =~= v@[1].t_bytes() + tail);
        assert(b1 =~= v@[1].t_bytes() + (tail));
        T::lemma_t_roundtrip(v@[1], tail);
        assert forall|x: Self| #[trigger] Self::t_reads(b, x) implies x.t_bytes() == v.t_bytes()
            && x.deep_view() == v.deep_view() by {
            assert(x.deep_view() =~= v.deep_view());
            assert(T::t_reads(b0, x@[0]));
            assert(T::t_reads(b1, x@[1]));
        }
    }
}

impl<T: TSerialize> TSerialize for [T; 3] {
    open spec fn t_bytes(&self) -> Seq<u8> {
        self@[0].t_bytes() + self@[1].t_bytes() + self@[2].t_bytes()
    }

    fn serialize(&self, w: &mut Vec<u8>) {
        self[0].serialize(w);
        self[1].serialize(w);
        self[2].serialize(w);
        assert(w@ =~= old(w)@ + self.t_bytes());
    }
}

impl<T: TDeserialize> TDeserialize for [T; 3] {
    open spec fn t_readable(b: Seq<u8>) -> bool {
        let b0 = b;
        let b1 = b0.skip(T::t_read_len(b0) as int);
        let b2 = b1.skip(T::t_read_len(b1) as int);
        &&& T::t_readable(b0)
        &&& T::t_readable(b1)
        &&& T::t_readable(b2)
    }

    open spec fn t_read_len(b: Seq<u8>) -> nat {
        let b0 = b;
        let b1 = b0.skip(T::t_read_len(b0) as int);
        let b2 = b1.skip(T::t_read_len(b1) as int);
        T::t_read_len(b0) + T::t_read_len(b1) + T::t_read_len(b2)
    }

    open spec fn t_reads(b: Seq<u8>, v: Self) -> bool {
        let b0 = b;
        let b1 = b0.skip(T::t_read_len(b0) as int);
        let b2 = b1.skip(T::t_read_len(b1) as int);
        &&& T::t_reads(b0, v@[0])
        &&& T::t_reads(b1, v@[1])
        &&& T::t_reads(b2, v@[2])
    }

    fn deserialize<'a, S: ByteSource<'a>>(r: &mut S) -> (v: Self) {
        let ghost b = rest(r.source_buffer(), r.source_pos());
        let ghost b0 = b;
        let ghost b1 = b0.skip(T::t_read_len(b0) as int);
        let ghost b2 = b1.skip(T::t_read_len(b1) as int);
        proof {
            T::lemma_t_read_bounded(b0);
        }
        let a0 = T::deserialize(r);
        proof {
            T::lemma_t_read_bounded(b1);
        }
        assert(rest(r.source_buffer(), r.source_pos()) =~= b1);
        let a1 = T::deserialize(r);
        proof {
            T::lemma_t_read_bounded(b2);
        }
        assert(rest(r.source_buffer(), r.source_pos()) =~= b2);
        let a2 = T::deserialize(r);
        let v = [a0, a1, a2];
        assert(v@[0] == a0 && v@[1] == a1 && v@[2] == a2);
        v
    }

    proof fn lemma_t_read_bounded(b: Seq<u8>) {
        let b0 = b;
        let b1 = b0.skip(T::t_read_len(b0) as int);
        let b2 = b1.skip(T::t_read_len(b1) as int);
        T::lemma_t_read_bounded(b0);
        T::lemma_t_read_bounded(b1);
        T::lemma_t_read_bounded(b2);
    }

    proof fn lemma_t_roundtrip(v: Self, tail: Seq<u8>) {
        let b = v.t_bytes() + tail;
        let b0 = b;
        let b1 = b0.skip(T::t_read_len(b0) as int);
        let b2 = b1.skip(T::t_read_len(b1) as int);
        assert(b0 =~= v@[0].t_bytes() + (v@[1].t_bytes() + v@[2].t_bytes() + tail));
        T::lemma_t_roundtrip(v@[0], v@[1].t_bytes() + v@[2].t_bytes() + tail);
        assert(b0.skip(v@[0].t_bytes().len() as int) =~= v@[1].t_bytes() + v@[2].t_bytes() + tail);
        assert(b1 =~= v@[1].t_bytes() + (v@[2].t_bytes() + tail));
        T::lemma_t_roundtrip(v@[1], v@[2].t_bytes() + tail);
        assert(b1.skip(v@[1].t_bytes().len() as int) =~= v@[2].t_bytes() + tail);
        assert(b2 =~= v@[2].t_bytes() + (tail));
        T::lemma_t_roundtrip(v@[2], tail);
        assert forall|x: Self| #[trigger] Self::t_reads(b, x) implies x.t_bytes() == v.t_bytes()
            && x.deep_view() == v.deep_view() by {
            assert(x.deep_view() =~= v.deep_view());
            assert(T::t_reads(b0, x@[0]));
            assert(T::t_reads(b1, x@[1]));
            assert(T::t_reads(b2, x@[2]));
        }
    }
}

impl<T: TSerialize> TSerialize for [T; 4] {
    open spec fn t_bytes(&self) -> Seq<u8> {
        self@[0].t_bytes() + self@[1].t_bytes() + self@[2].t_bytes() + self@[3].t_bytes()
    }

    fn serialize(&self, w: &mut Vec<u8>) {
        self[0].serialize(w);
        self[1].serialize(w);
        self[2].serialize(w);
        self[3].serialize(w);
        assert(w@ =~= old(w)@ + self.t_bytes());
    }
}

impl<T: TDeserialize> TDeserialize for [T; 4] {
    open spec fn t_readable(b: Seq<u8>) -> bool {
        let b0 = b;
        let b1 = b0.skip(T::t_read_len(b0) as int);
        let b2 = b1.skip(T::t_read_len(b1) as int);
        let b3 = b2.skip(T::t_read_len(b2) as int);
        &&& T::t_readable(b0)
        &&& T::t_readable(b1)
        &&& T::t_readable(b2)
        &&& T::t_readable(b3)
    }

    open spec fn t_read_len(b: Seq<u8>) -> nat {
        let b0 = b;
        let b1 = b0.skip(T::t_read_len(b0) as int);
        let b2 = b1.skip(T::t_read_len(b1) as int);
        let b3 = b2.skip(T::t_read_len(b2) as int);
        T::t_read_len(b0) + T::t_read_len(b1) + T::t_read_len(b2) + T::t_read_len(b3)
    }

    open spec fn t_reads(b: Seq<u8>, v: Self) -> bool {
        let b0 = b;
        let b1 = b0.skip(T::t_read_len(b0) as int);
        let b2 = b1.skip(T::t_read_len(b1) as int);
        let b3 = b2.skip(T::t_read_len(b2) as int);
        &&& T::t_reads(b0, v@[0])
        &&& T::t_reads(b1, v@[1])
        &&& T::t_reads(b2, v@[2])
        &&& T::t_reads(b3, v@[3])
    }

    fn deserialize<'a, S: ByteSource<'a>>(r: &mut S) -> (v: Self) {
        let ghost b = rest(r.source_buffer(), r.source_pos());
        let ghost b0 = b;
        let ghost b1 = b0.skip(T::t_read_len(b0) as int);
        let ghost b2 = b1.skip(T::t_read_len(b1) as int);
        let ghost b3 = b2.skip(T::t_read_len(b2) as int);
        proof {
            T::lemma_t_read_bounded(b0);
        }
        let a0 = T::deserialize(r);
        proof {
            T::lemma_t_read_bounded(b1);
        }
        assert(rest(r.source_buffer(), r.source_pos()) =~= b1);
        let a1 = T::deserialize(r);
        proof {
            T::lemma_t_read_bounded(b2);
        }
        assert(rest(r.source_buffer(), r.source_pos()) =~= b2);
        let a2 = T::deserialize(r);
        proof {
            T::lemma_t_read_bounded(b3);
        }
        assert(rest(r.source_buffer(), r.source_pos()) =~= b3);
        let a3 = T::deserialize(r);
        let v = [a0, a1, a2, a3];
        assert(v@[0] == a0 && v@[1] == a1 && v@[2] == a2 && v@[3] == a3);
        v
    }

    proof fn lemma_t_read_bounded(b: Seq<u8>) {
        let b0 = b;
        let b1 = b0.skip(T::t_read_len(b0) as int);
        let b2 = b1.skip(T::t_read_len(b1) as int);
        let b3 = b2.skip(T::t_read_len(b2) as int);
        T::lemma_t_read_bounded(b0);
        T::lemma_t_read_bounded(b1);
        T::lemma_t_read_bounded(b2);
        T::lemma_t_read_bounded(b3);
    }

    proof fn lemma_t_roundtrip(v: Self, tail: Seq<u8>) {
        let b = v.t_bytes() + tail;
        let b0 = b;
        let b1 = b0.skip(T::t_read_len(b0) as int);
        let b2 = b1.skip(T::t_read_len(b1) as int);
        let b3 = b2.skip(T::t_read_len(b2) as int);
        assert(b0 =~= v@[0].t_bytes() + (v@[1].t_bytes() + v@[2].t_bytes() + v@[3].t_bytes() + tail));
        T::lemma_t_roundtrip(v@[0], v@[1].t_bytes() + v@[2].t_bytes() + v@[3].t_bytes() + tail);
        assert(b0.skip(v@[0].t_bytes().len() as int) =~= v@[1].t_bytes() + v@[2].t_bytes() + v@[3].t_bytes() + tail);
        assert(b1 =~= v@[1].t_bytes() + (v@[2].t_bytes() + v@[3].t_bytes() + tail));
        T::lemma_t_roundtrip(v@[1], v@[2].t_bytes() + v@[3].t_bytes() + tail);
        assert(b1.skip(v@[1].t_bytes().len() as int) =~= v@[2].t_bytes() + v@[3].t_bytes() + tail);
        assert(b2 =~= v@[2].t_bytes() + (v@[3].t_bytes() + tail));
        T::lemma_t_roundtrip(v@[2], v@[3].t_bytes() + tail);
        assert(b2.skip(v@[2].t_bytes().len() as int) =~= v@[3].t_bytes() + tail);
        assert(b3 =~= v@[3].t_bytes() + (tail));
        T::lemma_t_roundtrip(v@[3], tail);
        assert forall|x: Self| #[trigger] Self::t_reads(b, x) implies x.t_bytes() == v.t_bytes()
            && x.deep_view() == v.deep_view() by {
            assert(x.deep_view() =~= v.deep_view());
            assert(T::t_reads(b0, x@[0]));
            assert(T::t_reads(b1, x@[1]));
            assert(T::t_reads(b2, x@[2]));
            assert(T::t_reads(b3, x@[3]));
        }
    }
}

// MARK: Attribute values and indices

/// The values of one vertex attribute, by format.  Each format holds its
/// elements; float components are held as their bits.
pub enum VertexAttributeValues {
    Float32(Vec<u32>),
    Sint32(Vec<i32>),
    Uint32(Vec<u32>),
    Float32x2(Vec<[u32; 2]>),
    Sint32x2(Vec<[i32; 2]>),
    Uint32x2(Vec<[u32; 2]>),
    Float32x3(Vec<[u32; 3]>),
    Sint32x3(Vec<[i32; 3]>),
    Uint32x3(Vec<[u32; 3]>),
    Float32x4(Vec<[u32; 4]>),
    Sint32x4(Vec<[i32; 4]>),
    Uint32x4(Vec<[u32; 4]>),
    Sint16x2(Vec<[i16; 2]>),
    Snorm16x2(Vec<[i16; 2]>),
    Uint16x2(Vec<[u16; 2]>),
    Unorm16x2(Vec<[u16; 2]>),
    Sint16x4(Vec<[i16; 4]>),
    Snorm16x4(Vec<[i16; 4]>),
    Uint16x4(Vec<[u16; 4]>),
    Unorm16x4(Vec<[u16; 4]>),
    Sint8x2(Vec<[i8; 2]>),
    Snorm8x2(Vec<[i8; 2]>),
    Uint8x2(Vec<[u8; 2]>),
    Unorm8x2(Vec<[u8; 2]>),
    Sint8x4(Vec<[i8; 4]>),
    Snorm8x4(Vec<[i8; 4]>),
    Uint8x4(Vec<[u8; 4]>),
    Unorm8x4(Vec<[u8; 4]>),
}

impl FastWrite for VertexAttributeValues {
    open spec fn fast_bytes(&self) -> Seq<u8> {
        match self {
            VertexAttributeValues::Float32(x) => i8_bytes(0i8) + x.fast_bytes(),
            VertexAttributeValues::Sint32(x) => i8_bytes(1i8) + x.fast_bytes(),
            VertexAttributeValues::Uint32(x) => i8_bytes(2i8) + x.fast_bytes(),
            VertexAttributeValues::Float32x2(x) => i8_bytes(3i8) + x.fast_bytes(),
            VertexAttributeValues::Sint32x2(x) => i8_bytes(4i8) + x.fast_bytes(),
            VertexAttributeValues::Uint32x2(x) => i8_bytes(5i8) + x.fast_bytes(),
            VertexAttributeValues::Float32x3(x) => i8_bytes(6i8) + x.fast_bytes(),
            VertexAttributeValues::Sint32x3(x) => i8_bytes(7i8) + x.fast_bytes(),
            VertexAttributeValues::Uint32x3(x) => i8_bytes(8i8) + x.fast_bytes(),
            VertexAttributeValues::Float32x4(x) => i8_bytes(9i8) + x.fast_bytes(),
            VertexAttributeValues::Sint32x4(x) => i8_bytes(10i8) + x.fast_bytes(),
            VertexAttributeValues::Uint32x4(x) => i8_bytes(11i8) + x.fast_bytes(),
            VertexAttributeValues::Sint16x2(x) => i8_bytes(12i8) + x.fast_bytes(),
            VertexAttributeValues::Snorm16x2(x) => i8_bytes(13i8) + x.fast_bytes(),
            VertexAttributeValues::Uint16x2(x) => i8_bytes(14i8) + x.fast_bytes(),
            VertexAttributeValues::Unorm16x2(x) => i8_bytes(15i8) + x.fast_bytes(),
            VertexAttributeValues::Sint16x4(x) => i8_bytes(16i8) + x.fast_bytes(),
            VertexAttributeValues::Snorm16x4(x) => i8_bytes(17i8) + x.fast_bytes(),
            VertexAttributeValues::Uint16x4(x) => i8_bytes(18i8) + x.fast_bytes(),
            VertexAttributeValues::Unorm16x4(x) => i8_bytes(19i8) + x.fast_bytes(),
            VertexAttributeValues::Sint8x2(x) => i8_bytes(20i8) + x.fast_bytes(),
            VertexAttributeValues::Snorm8x2(x) => i8_bytes(21i8) + x.fast_bytes(),
            VertexAttributeValues::Uint8x2(x) => i8_bytes(22i8) + x.fast_bytes(),
            VertexAttributeValues::Unorm8x2(x) => i8_bytes(23i8) + x.fast_bytes(),
            VertexAttributeValues::Sint8x4(x) => i8_bytes(24i8) + x.fast_bytes(),
            VertexAttributeValues::Snorm8x4(x) => i8_bytes(25i8) + x.fast_bytes(),
            VertexAttributeValues::Uint8x4(x) => i8_bytes(26i8) + x.fast_bytes(),
            VertexAttributeValues::Unorm8x4(x) => i8_bytes(27i8) + x.fast_bytes(),
        }
    }

    fn write_fast<W: ByteSink>(&self, w: &mut W) {
        proof {
            lemma_primitive_bytes();
        }
        match self {
            VertexAttributeValues::Float32(x) => {
                0i8.write_fast(w);
                let ghost b1 = w.sink_buffer();
                let ghost p1 = w.sink_pos();
                x.write_fast(w);
                proof {
                    lemma_wrote_twice(old(w).sink_buffer(), old(w).sink_pos(), b1, p1, w.sink_buffer(), w.sink_pos(), i8_bytes(0i8), x.fast_bytes());
                }
            },
            VertexAttributeValues::Sint32(x) => {
                1i8.write_fast(w);
                let ghost b1 = w.sink_buffer();
                let ghost p1 = w.sink_pos();
                x.write_fast(w);
                proof {
                    lemma_wrote_twice(old(w).sink_buffer(), old(w).sink_pos(), b1, p1, w.sink_buffer(), w.sink_pos(), i8_bytes(1i8), x.fast_bytes());
                }
            },
            VertexAttributeValues::Uint32(x) => {
                2i8.write_fast(w);
                let ghost b1 = w.sink_buffer();
                let ghost p1 = w.sink_pos();
                x.write_fast(w);
                proof {
                    lemma_wrote_twice(old(w).sink_buffer(), old(w).sink_pos(), b1, p1, w.sink_buffer(), w.sink_pos(), i8_bytes(2i8), x.fast_bytes());
                }
            },
            VertexAttributeValues::Float32x2(x) => {
                3i8.write_fast(w);
                let ghost b1 = w.sink_buffer();
                let ghost p1 = w.sink_pos();
                x.write_fast(w);
                proof {
                    lemma_wrote_twice(old(w).sink_buffer(), old(w).sink_pos(), b1, p1, w.sink_buffer(), w.sink_pos(), i8_bytes(3i8), x.fast_bytes());
                }
            },
            VertexAttributeValues::Sint32x2(x) => {
                4i8.write_fast(w);
                let ghost b1 = w.sink_buffer();
                let ghost p1 = w.sink_pos();
                x.write_fast(w);
                proof {
                    lemma_wrote_twice(old(w).sink_buffer(), old(w).sink_pos(), b1, p1, w.sink_buffer(), w.sink_pos(), i8_bytes(4i8), x.fast_bytes());
                }
            },
            VertexAttributeValues::Uint32x2(x) => {
                5i8.write_fast(w);
                let ghost b1 = w.sink_buffer();
                let ghost p1 = w.sink_pos();
                x.write_fast(w);
                proof {
                    lemma_wrote_twice(old(w).sink_buffer(), old(w).sink_pos(), b1, p1, w.sink_buffer(), w.sink_pos(), i8_bytes(5i8), x.fast_bytes());
                }
            },
            VertexAttributeValues::Float32x3(x) => {
                6i8.write_fast(w);
                let ghost b1 = w.sink_buffer();
                let ghost p1 = w.sink_pos();
                x.write_fast(w);
                proof {
                    lemma_wrote_twice(old(w).sink_buffer(), old(w).sink_pos(), b1, p1, w.sink_buffer(), w.sink_pos(), i8_bytes(6i8), x.fast_bytes());
                }
            },
            VertexAttributeValues::Sint32x3(x) => {
                7i8.write_fast(w);
                let ghost b1 = w.sink_buffer();
                let ghost p1 = w.sink_pos();
                x.write_fast(w);
                proof {
                    lemma_wrote_twice(old(w).sink_buffer(), old(w).sink_pos(), b1, p1, w.sink_buffer(), w.sink_pos(), i8_bytes(7i8), x.fast_bytes());
                }
            },
            VertexAttributeValues::Uint32x3(x) => {
                8i8.write_fast(w);
                let ghost b1 = w.sink_buffer();
                let ghost p1 = w.sink_pos();
                x.write_fast(w);
                proof {
                    lemma_wrote_twice(old(w).sink_buffer(), old(w).sink_pos(), b1, p1, w.sink_buffer(), w.sink_pos(), i8_bytes(8i8), x.fast_bytes());
                }
            },
            VertexAttributeValues::Float32x4(x) => {
                9i8.write_fast(w);
                let ghost b1 = w.sink_buffer();
                let ghost p1 = w.sink_pos();
                x.write_fast(w);
                proof {
                    lemma_wrote_twice(old(w).sink_buffer(), old(w).sink_pos(), b1, p1, w.sink_buffer(), w.sink_pos(), i8_bytes(9i8), x.fast_bytes());
                }
            },
            VertexAttributeValues::Sint32x4(x) => {
                10i8.write_fast(w);
                let ghost b1 = w.sink_buffer();
                let ghost p1 = w.sink_pos();
                x.write_fast(w);
                proof {
                    lemma_wrote_twice(old(w).sink_buffer(), old(w).sink_pos(), b1, p1, w.sink_buffer(), w.sink_pos(), i8_bytes(10i8), x.fast_bytes());
                }
            },
            VertexAttributeValues::Uint32x4(x) => {
                11i8.write_fast(w);
                let ghost b1 = w.sink_buffer();
                let ghost p1 = w.sink_pos();
                x.write_fast(w);
                proof {
                    lemma_wrote_twice(old(w).sink_buffer(), old(w).sink_pos(), b1, p1, w.sink_buffer(), w.sink_pos(), i8_bytes(11i8), x.fast_bytes());
                }
            },
            VertexAttributeValues::Sint16x2(x) => {
                12i8.write_fast(w);
                let ghost b1 = w.sink_buffer();
                let ghost p1 = w.sink_pos();
                x.write_fast(w);
                proof {
                    lemma_wrote_twice(old(w).sink_buffer(), old(w).sink_pos(), b1, p1, w.sink_buffer(), w.sink_pos(), i8_bytes(12i8), x.fast_bytes());
                }
            },
            VertexAttributeValues::Snorm16x2(x) => {
                13i8.write_fast(w);
                let ghost b1 = w.sink_buffer();
                let ghost p1 = w.sink_pos();
                x.write_fast(w);
                proof {
                    lemma_wrote_twice(old(w).sink_buffer(), old(w).sink_pos(), b1, p1, w.sink_buffer(), w.sink_pos(), i8_bytes(13i8), x.fast_bytes());
                }
            },
            VertexAttributeValues::Uint16x2(x) => {
                14i8.write_fast(w);
                let ghost b1 = w.sink_buffer();
                let ghost p1 = w.sink_pos();
                x.write_fast(w);
                proof {
                    lemma_wrote_twice(old(w).sink_buffer(), old(w).sink_pos(), b1, p1, w.sink_buffer(), w.sink_pos(), i8_bytes(14i8), x.fast_bytes());
                }
            },
            VertexAttributeValues::Unorm16x2(x) => {
                15i8.write_fast(w);
                let ghost b1 = w.sink_buffer();
                let ghost p1 = w.sink_pos();
                x.write_fast(w);
                proof {
                    lemma_wrote_twice(old(w).sink_buffer(), old(w).sink_pos(), b1, p1, w.sink_buffer(), w.sink_pos(), i8_bytes(15i8), x.fast_bytes());
                }
            },
            VertexAttributeValues::Sint16x4(x) => {
                16i8.write_fast(w);
                let ghost b1 = w.sink_buffer();
                let ghost p1 = w.sink_pos();
                x.write_fast(w);
                proof {
                    lemma_wrote_twice(old(w).sink_buffer(), old(w).sink_pos(), b1, p1, w.sink_buffer(), w.sink_pos(), i8_bytes(16i8), x.fast_bytes());
                }
            },
            VertexAttributeValues::Snorm16x4(x) => {
                17i8.write_fast(w);
                let ghost b1 = w.sink_buffer();
                let ghost p1 = w.sink_pos();
                x.write_fast(w);
                proof {
                    lemma_wrote_twice(old(w).sink_buffer(), old(w).sink_pos(), b1, p1, w.sink_buffer(), w.sink_pos(), i8_bytes(17i8), x.fast_bytes());
                }
            },
            VertexAttributeValues::Uint16x4(x) => {
                18i8.write_fast(w);
                let ghost b1 = w.sink_buffer();
                let ghost p1 = w.sink_pos();
                x.write_fast(w);
                proof {
                    lemma_wrote_twice(old(w).sink_buffer(), old(w).sink_pos(), b1, p1, w.sink_buffer(), w.sink_pos(), i8_bytes(18i8), x.fast_bytes());
                }
            },
            VertexAttributeValues::Unorm16x4(x) => {
                19i8.write_fast(w);
                let ghost b1 = w.sink_buffer();
                let ghost p1 = w.sink_pos();
                x.write_fast(w);
                proof {
                    lemma_wrote_twice(old(w).sink_buffer(), old(w).sink_pos(), b1, p1, w.sink_buffer(), w.sink_pos(), i8_bytes(19i8), x.fast_bytes());
                }
            },
            VertexAttributeValues::Sint8x2(x) => {
                20i8.write_fast(w);
                let ghost b1 = w.sink_buffer();
                let ghost p1 = w.sink_pos();
                x.write_fast(w);
                proof {
                    lemma_wrote_twice(old(w).sink_buffer(), old(w).sink_pos(), b1, p1, w.sink_buffer(), w.sink_pos(), i8_bytes(20i8), x.fast_bytes());
                }
            },
            VertexAttributeValues::Snorm8x2(x) => {
                21i8.write_fast(w);
                let ghost b1 = w.sink_buffer();
                let ghost p1 = w.sink_pos();
                x.write_fast(w);
                proof {
                    lemma_wrote_twice(old(w).sink_buffer(), old(w).sink_pos(), b1, p1, w.sink_buffer(), w.sink_pos(), i8_bytes(21i8), x.fast_bytes());
                }
            },
            VertexAttributeValues::Uint8x2(x) => {
                22i8.write_fast(w);
                let ghost b1 = w.sink_buffer();
                let ghost p1 = w.sink_pos();
                x.write_fast(w);
                proof {
                    lemma_wrote_twice(old(w).sink_buffer(), old(w).sink_pos(), b1, p1, w.sink_buffer(), w.sink_pos(), i8_bytes(22i8), x.fast_bytes());
                }
            },
            VertexAttributeValues::Unorm8x2(x) => {
                23i8.write_fast(w);
                let ghost b1 = w.sink_buffer();
                let ghost p1 = w.sink_pos();
                x.write_fast(w);
                proof {
                    lemma_wrote_twice(old(w).sink_buffer(), old(w).sink_pos(), b1, p1, w.sink_buffer(), w.sink_pos(), i8_bytes(23i8), x.fast_bytes());
                }
            },
            VertexAttributeValues::Sint8x4(x) => {
                24i8.write_fast(w);
                let ghost b1 = w.sink_buffer();
                let ghost p1 = w.sink_pos();
                x.write_fast(w);
                proof {
                    lemma_wrote_twice(old(w).sink_buffer(), old(w).sink_pos(), b1, p1, w.sink_buffer(), w.sink_pos(), i8_bytes(24i8), x.fast_bytes());
                }
            },
            VertexAttributeValues::Snorm8x4(x) => {
                25i8.write_fast(w);
                let ghost b1 = w.sink_buffer();
                let ghost p1 = w.sink_pos();
                x.write_fast(w);
                proof {
                    lemma_wrote_twice(old(w).sink_buffer(), old(w).sink_pos(), b1, p1, w.sink_buffer(), w.sink_pos(), i8_bytes(25i8), x.fast_bytes());
                }
            },
            VertexAttributeValues::Uint8x4(x) => {
                26i8.write_fast(w);
                let ghost b1 = w.sink_buffer();
                let ghost p1 = w.sink_pos();
                x.write_fast(w);
                proof {
                    lemma_wrote_twice(old(w).sink_buffer(), old(w).sink_pos(), b1, p1, w.sink_buffer(), w.sink_pos(), i8_bytes(26i8), x.fast_bytes());
                }
            },
            VertexAttributeValues::Unorm8x4(x) => {
                27i8.write_fast(w);
                let ghost b1 = w.sink_buffer();
                let ghost p1 = w.sink_pos();
                x.write_fast(w);
                proof {
                    lemma_wrote_twice(old(w).sink_buffer(), old(w).sink_pos(), b1, p1, w.sink_buffer(), w.sink_pos(), i8_bytes(27i8), x.fast_bytes());
                }
            },
        }
    }
}

impl FastRead for VertexAttributeValues {
    type Value = VertexAttributeValuesView;

    open spec fn fast_value(&self) -> VertexAttributeValuesView {
        match self {
            VertexAttributeValues::Float32(x) => VertexAttributeValuesView::Float32(x.fast_value()),
            VertexAttributeValues::Sint32(x) => VertexAttributeValuesView::Sint32(x.fast_value()),
            VertexAttributeValues::Uint32(x) => VertexAttributeValuesView::Uint32(x.fast_value()),
            VertexAttributeValues::Float32x2(x) => VertexAttributeValuesView::Float32x2(x.fast_value()),
            VertexAttributeValues::Sint32x2(x) => VertexAttributeValuesView::Sint32x2(x.fast_value()),
            VertexAttributeValues::Uint32x2(x) => VertexAttributeValuesView::Uint32x2(x.fast_value()),
            VertexAttributeValues::Float32x3(x) => VertexAttributeValuesView::Float32x3(x.fast_value()),
            VertexAttributeValues::Sint32x3(x) => VertexAttributeValuesView::Sint32x3(x.fast_value()),
            VertexAttributeValues::Uint32x3(x) => VertexAttributeValuesView::Uint32x3(x.fast_value()),
            VertexAttributeValues::Float32x4(x) => VertexAttributeValuesView::Float32x4(x.fast_value()),
            VertexAttributeValues::Sint32x4(x) => VertexAttributeValuesView::Sint32x4(x.fast_value()),
            VertexAttributeValues::Uint32x4(x) => VertexAttributeValuesView::Uint32x4(x.fast_value()),
            VertexAttributeValues::Sint16x2(x) => VertexAttributeValuesView::Sint16x2(x.fast_value()),
            VertexAttributeValues::Snorm16x2(x) => VertexAttributeValuesView::Snorm16x2(x.fast_value()),
            VertexAttributeValues::Uint16x2(x) => VertexAttributeValuesView::Uint16x2(x.fast_value()),
            VertexAttributeValues::Unorm16x2(x) => VertexAttributeValuesView::Unorm16x2(x.fast_value()),
            VertexAttributeValues::Sint16x4(x) => VertexAttributeValuesView::Sint16x4(x.fast_value()),
            VertexAttributeValues::Snorm16x4(x) => VertexAttributeValuesView::Snorm16x4(x.fast_value()),
            VertexAttributeValues::Uint16x4(x) => VertexAttributeValuesView::Uint16x4(x.fast_value()),
            VertexAttributeValues::Unorm16x4(x) => VertexAttributeValuesView::Unorm16x4(x.fast_value()),
            VertexAttributeValues::Sint8x2(x) => VertexAttributeValuesView::Sint8x2(x.fast_value()),
            VertexAttributeValues::Snorm8x2(x) => VertexAttributeValuesView::Snorm8x2(x.fast_value()),
            VertexAttributeValues::Uint8x2(x) => VertexAttributeValuesView::Uint8x2(x.fast_value()),
            VertexAttributeValues::Unorm8x2(x) => VertexAttributeValuesView::Unorm8x2(x.fast_value()),
            VertexAttributeValues::Sint8x4(x) => VertexAttributeValuesView::Sint8x4(x.fast_value()),
            VertexAttributeValues::Snorm8x4(x) => VertexAttributeValuesView::Snorm8x4(x.fast_value()),
            VertexAttributeValues::Uint8x4(x) => VertexAttributeValuesView::Uint8x4(x.fast_value()),
            VertexAttributeValues::Unorm8x4(x) => VertexAttributeValuesView::Unorm8x4(x.fast_value()),
        }
    }

    open spec fn fast_readable(b: Seq<u8>) -> bool {
        b.len() >= 1 && match b[0] {
            0u8 => Vec::<u32>::fast_readable(b.skip(1)),
            1u8 => Vec::<i32>::fast_readable(b.skip(1)),
            2u8 => Vec::<u32>::fast_readable(b.skip(1)),
            3u8 => Vec::<[u32; 2]>::fast_readable(b.skip(1)),
            4u8 => Vec::<[i32; 2]>::fast_readable(b.skip(1)),
            5u8 => Vec::<[u32; 2]>::fast_readable(b.skip(1)),
            6u8 => Vec::<[u32; 3]>::fast_readable(b.skip(1)),
            7u8 => Vec::<[i32; 3]>::fast_readable(b.skip(1)),
            8u8 => Vec::<[u32; 3]>::fast_readable(b.skip(1)),
            9u8 => Vec::<[u32; 4]>::fast_readable(b.skip(1)),
            10u8 => Vec::<[i32; 4]>::fast_readable(b.skip(1)),
            11u8 => Vec::<[u32; 4]>::fast_readable(b.skip(1)),
            12u8 => Vec::<[i16; 2]>::fast_readable(b.skip(1)),
            13u8 => Vec::<[i16; 2]>::fast_readable(b.skip(1)),
            14u8 => Vec::<[u16; 2]>::fast_readable(b.skip(1)),
            15u8 => Vec::<[u16; 2]>::fast_readable(b.skip(1)),
            16u8 => Vec::<[i16; 4]>::fast_readable(b.skip(1)),
            17u8 => Vec::<[i16; 4]>::fast_readable(b.skip(1)),
            18u8 => Vec::<[u16; 4]>::fast_readable(b.skip(1)),
            19u8 => Vec::<[u16; 4]>::fast_readable(b.skip(1)),
            20u8 => Vec::<[i8; 2]>::fast_readable(b.skip(1)),
            21u8 => Vec::<[i8; 2]>::fast_readable(b.skip(1)),
            22u8 => Vec::<[u8; 2]>::fast_readable(b.skip(1)),
            23u8 => Vec::<[u8; 2]>::fast_readable(b.skip(1)),
            24u8 => Vec::<[i8; 4]>::fast_readable(b.skip(1)),
            25u8 => Vec::<[i8; 4]>::fast_readable(b.skip(1)),
            26u8 => Vec::<[u8; 4]>::fast_readable(b.skip(1)),
            27u8 => Vec::<[u8; 4]>::fast_readable(b.skip(1)),
            _ => false,
        }
    }

    open spec fn fast_read_len(b: Seq<u8>) -> nat {
        1 + match b[0] {
            0u8 => Vec::<u32>::fast_read_len(b.skip(1)),
            1u8 => Vec::<i32>::fast_read_len(b.skip(1)),
            2u8 => Vec::<u32>::fast_read_len(b.skip(1)),
            3u8 => Vec::<[u32; 2]>::fast_read_len(b.skip(1)),
            4u8 => Vec::<[i32; 2]>::fast_read_len(b.skip(1)),
            5u8 => Vec::<[u32; 2]>::fast_read_len(b.skip(1)),
            6u8 => Vec::<[u32; 3]>::fast_read_len(b.skip(1)),
            7u8 => Vec::<[i32; 3]>::fast_read_len(b.skip(1)),
            8u8 => Vec::<[u32; 3]>::fast_read_len(b.skip(1)),
            9u8 => Vec::<[u32; 4]>::fast_read_len(b.skip(1)),
            10u8 => Vec::<[i32; 4]>::fast_read_len(b.skip(1)),
            11u8 => Vec::<[u32; 4]>::fast_read_len(b.skip(1)),
            12u8 => Vec::<[i16; 2]>::fast_read_len(b.skip(1)),
            13u8 => Vec::<[i16; 2]>::fast_read_len(b.skip(1)),
            14u8 => Vec::<[u16; 2]>::fast_read_len(b.skip(1)),
            15u8 => Vec::<[u16; 2]>::fast_read_len(b.skip(1)),
            16u8 => Vec::<[i16; 4]>::fast_read_len(b.skip(1)),
            17u8 => Vec::<[i16; 4]>::fast_read_len(b.skip(1)),
            18u8 => Vec::<[u16; 4]>::fast_read_len(b.skip(1)),
            19u8 => Vec::<[u16; 4]>::fast_read_len(b.skip(1)),
            20u8 => Vec::<[i8; 2]>::fast_read_len(b.skip(1)),
            21u8 => Vec::<[i8; 2]>::fast_read_len(b.skip(1)),
            22u8 => Vec::<[u8; 2]>::fast_read_len(b.skip(1)),
            23u8 => Vec::<[u8; 2]>::fast_read_len(b.skip(1)),
            24u8 => Vec::<[i8; 4]>::fast_read_len(b.skip(1)),
            25u8 => Vec::<[i8; 4]>::fast_read_len(b.skip(1)),
            26u8 => Vec::<[u8; 4]>::fast_read_len(b.skip(1)),
            27u8 => Vec::<[u8; 4]>::fast_read_len(b.skip(1)),
            _ => 0,
        }
    }

    open spec fn fast_reads(b: Seq<u8>, v: Self) -> bool {
        match v {
            VertexAttributeValues::Float32(x) => b[0] == 0u8 && Vec::<u32>::fast_reads(b.skip(1), x),
            VertexAttributeValues::Sint32(x) => b[0] == 1u8 && Vec::<i32>::fast_reads(b.skip(1), x),
            VertexAttributeValues::Uint32(x) => b[0] == 2u8 && Vec::<u32>::fast_reads(b.skip(1), x),
            VertexAttributeValues::Float32x2(x) => b[0] == 3u8 && Vec::<[u32; 2]>::fast_reads(b.skip(1), x),
            VertexAttributeValues::Sint32x2(x) => b[0] == 4u8 && Vec::<[i32; 2]>::fast_reads(b.skip(1), x),
            VertexAttributeValues::Uint32x2(x) => b[0] == 5u8 && Vec::<[u32; 2]>::fast_reads(b.skip(1), x),
            VertexAttributeValues::Float32x3(x) => b[0] == 6u8 && Vec::<[u32; 3]>::fast_reads(b.skip(1), x),
            VertexAttributeValues::Sint32x3(x) => b[0] == 7u8 && Vec::<[i32; 3]>::fast_reads(b.skip(1), x),
            VertexAttributeValues::Uint32x3(x) => b[0] == 8u8 && Vec::<[u32; 3]>::fast_reads(b.skip(1), x),
            VertexAttributeValues::Float32x4(x) => b[0] == 9u8 && Vec::<[u32; 4]>::fast_reads(b.skip(1), x),
            VertexAttributeValues::Sint32x4(x) => b[0] == 10u8 && Vec::<[i32; 4]>::fast_reads(b.skip(1), x),
            VertexAttributeValues::Uint32x4(x) => b[0] == 11u8 && Vec::<[u32; 4]>::fast_reads(b.skip(1), x),
            VertexAttributeValues::Sint16x2(x) => b[0] == 12u8 && Vec::<[i16; 2]>::fast_reads(b.skip(1), x),
            VertexAttributeValues::Snorm16x2(x) => b[0] == 13u8 && Vec::<[i16; 2]>::fast_reads(b.skip(1), x),
            VertexAttributeValues::Uint16x2(x) => b[0] == 14u8 && Vec::<[u16; 2]>::fast_reads(b.skip(1), x),
            VertexAttributeValues::Unorm16x2(x) => b[0] == 15u8 && Vec::<[u16; 2]>::fast_reads(b.skip(1), x),
            VertexAttributeValues::Sint16x4(x) => b[0] == 16u8 && Vec::<[i16; 4]>::fast_reads(b.skip(1), x),
            VertexAttributeValues::Snorm16x4(x) => b[0] == 17u8 && Vec::<[i16; 4]>::fast_reads(b.skip(1), x),
            VertexAttributeValues::Uint16x4(x) => b[0] == 18u8 && Vec::<[u16; 4]>::fast_reads(b.skip(1), x),
            VertexAttributeValues::Unorm16x4(x) => b[0] == 19u8 && Vec::<[u16; 4]>::fast_reads(b.skip(1), x),
            VertexAttributeValues::Sint8x2(x) => b[0] == 20u8 && Vec::<[i8; 2]>::fast_reads(b.skip(1), x),
            VertexAttributeValues::Snorm8x2(x) => b[0] == 21u8 && Vec::<[i8; 2]>::fast_reads(b.skip(1), x),
            VertexAttributeValues::Uint8x2(x) => b[0] == 22u8 && Vec::<[u8; 2]>::fast_reads(b.skip(1), x),
            VertexAttributeValues::Unorm8x2(x) => b[0] == 23u8 && Vec::<[u8; 2]>::fast_reads(b.skip(1), x),
            VertexAttributeValues::Sint8x4(x) => b[0] == 24u8 && Vec::<[i8; 4]>::fast_reads(b.skip(1), x),
            VertexAttributeValues::Snorm8x4(x) => b[0] == 25u8 && Vec::<[i8; 4]>::fast_reads(b.skip(1), x),
            VertexAttributeValues::Uint8x4(x) => b[0] == 26u8 && Vec::<[u8; 4]>::fast_reads(b.skip(1), x),
            VertexAttributeValues::Unorm8x4(x) => b[0] == 27u8 && Vec::<[u8; 4]>::fast_reads(b.skip(1), x),
        }
    }

    fn read_fast<'a, S: ByteSource<'a>>(r: &mut S) -> (v: Self) {
        let ghost b = rest(r.source_buffer(), r.source_pos());
        proof {
            lemma_primitive_bytes();
        }
        let tag = r.get_u8();
        assert(rest(r.source_buffer(), r.source_pos()) =~= b.skip(1));
        assert(tag == b[0]);
        match tag {
            0 => VertexAttributeValues::Float32(Vec::<u32>::read_fast(r)),
            1 => VertexAttributeValues::Sint32(Vec::<i32>::read_fast(r)),
            2 => VertexAttributeValues::Uint32(Vec::<u32>::read_fast(r)),
            3 => VertexAttributeValues::Float32x2(Vec::<[u32; 2]>::read_fast(r)),
            4 => VertexAttributeValues::Sint32x2(Vec::<[i32; 2]>::read_fast(r)),
            5 => VertexAttributeValues::Uint32x2(Vec::<[u32; 2]>::read_fast(r)),
            6 => VertexAttributeValues::Float32x3(Vec::<[u32; 3]>::read_fast(r)),
            7 => VertexAttributeValues::Sint32x3(Vec::<[i32; 3]>::read_fast(r)),
            8 => VertexAttributeValues::Uint32x3(Vec::<[u32; 3]>::read_fast(r)),
            9 => VertexAttributeValues::Float32x4(Vec::<[u32; 4]>::read_fast(r)),
            10 => VertexAttributeValues::Sint32x4(Vec::<[i32; 4]>::read_fast(r)),
            11 => VertexAttributeValues::Uint32x4(Vec::<[u32; 4]>::read_fast(r)),
            12 => VertexAttributeValues::Sint16x2(Vec::<[i16; 2]>::read_fast(r)),
            13 => VertexAttributeValues::Snorm16x2(Vec::<[i16; 2]>::read_fast(r)),
            14 => VertexAttributeValues::Uint16x2(Vec::<[u16; 2]>::read_fast(r)),
            15 => VertexAttributeValues::Unorm16x2(Vec::<[u16; 2]>::read_fast(r)),
            16 => VertexAttributeValues::Sint16x4(Vec::<[i16; 4]>::read_fast(r)),
            17 => VertexAttributeValues::Snorm16x4(Vec::<[i16; 4]>::read_fast(r)),
            18 => VertexAttributeValues::Uint16x4(Vec::<[u16; 4]>::read_fast(r)),
            19 => VertexAttributeValues::Unorm16x4(Vec::<[u16; 4]>::read_fast(r)),
            20 => VertexAttributeValues::Sint8x2(Vec::<[i8; 2]>::read_fast(r)),
            21 => VertexAttributeValues::Snorm8x2(Vec::<[i8; 2]>::read_fast(r)),
            22 => VertexAttributeValues::Uint8x2(Vec::<[u8; 2]>::read_fast(r)),
            23 => VertexAttributeValues::Unorm8x2(Vec::<[u8; 2]>::read_fast(r)),
            24 => VertexAttributeValues::Sint8x4(Vec::<[i8; 4]>::read_fast(r)),
            25 => VertexAttributeValues::Snorm8x4(Vec::<[i8; 4]>::read_fast(r)),
            26 => VertexAttributeValues::Uint8x4(Vec::<[u8; 4]>::read_fast(r)),
            27 => VertexAttributeValues::Unorm8x4(Vec::<[u8; 4]>::read_fast(r)),
            _ => {
                proof {
                    assert(false);
                }
                VertexAttributeValues::Float32(Vec::new())
            },
        }
    }

    proof fn lemma_read_bounded(b: Seq<u8>) {
        match b[0] {
            0u8 => Vec::<u32>::lemma_read_bounded(b.skip(1)),
            1u8 => Vec::<i32>::lemma_read_bounded(b.skip(1)),
            2u8 => Vec::<u32>::lemma_read_bounded(b.skip(1)),
            3u8 => Vec::<[u32; 2]>::lemma_read_bounded(b.skip(1)),
            4u8 => Vec::<[i32; 2]>::lemma_read_bounded(b.skip(1)),
            5u8 => Vec::<[u32; 2]>::lemma_read_bounded(b.skip(1)),
            6u8 => Vec::<[u32; 3]>::lemma_read_bounded(b.skip(1)),
            7u8 => Vec::<[i32; 3]>::lemma_read_bounded(b.skip(1)),
            8u8 => Vec::<[u32; 3]>::lemma_read_bounded(b.skip(1)),
            9u8 => Vec::<[u32; 4]>::lemma_read_bounded(b.skip(1)),
            10u8 => Vec::<[i32; 4]>::lemma_read_bounded(b.skip(1)),
            11u8 => Vec::<[u32; 4]>::lemma_read_bounded(b.skip(1)),
            12u8 => Vec::<[i16; 2]>::lemma_read_bounded(b.skip(1)),
            13u8 => Vec::<[i16; 2]>::lemma_read_bounded(b.skip(1)),
            14u8 => Vec::<[u16; 2]>::lemma_read_bounded(b.skip(1)),
            15u8 => Vec::<[u16; 2]>::lemma_read_bounded(b.skip(1)),
            16u8 => Vec::<[i16; 4]>::lemma_read_bounded(b.skip(1)),
            17u8 => Vec::<[i16; 4]>::lemma_read_bounded(b.skip(1)),
            18u8 => Vec::<[u16; 4]>::lemma_read_bounded(b.skip(1)),
            19u8 => Vec::<[u16; 4]>::lemma_read_bounded(b.skip(1)),
            20u8 => Vec::<[i8; 2]>::lemma_read_bounded(b.skip(1)),
            21u8 => Vec::<[i8; 2]>::lemma_read_bounded(b.skip(1)),
            22u8 => Vec::<[u8; 2]>::lemma_read_bounded(b.skip(1)),
            23u8 => Vec::<[u8; 2]>::lemma_read_bounded(b.skip(1)),
            24u8 => Vec::<[i8; 4]>::lemma_read_bounded(b.skip(1)),
            25u8 => Vec::<[i8; 4]>::lemma_read_bounded(b.skip(1)),
            26u8 => Vec::<[u8; 4]>::lemma_read_bounded(b.skip(1)),
            27u8 => Vec::<[u8; 4]>::lemma_read_bounded(b.skip(1)),
            _ => {},
        }
    }

    proof fn lemma_roundtrip(v: Self, tail: Seq<u8>) {
        lemma_primitive_bytes();
        let b = v.fast_bytes() + tail;
        match v {
            VertexAttributeValues::Float32(x) => {
                assert(b.skip(1) =~= x.fast_bytes() + tail);
                assert(b[0] == 0u8);
                Vec::<u32>::lemma_roundtrip(x, tail);
            },
            VertexAttributeValues::Sint32(x) => {
                assert(b.skip(1) =~= x.fast_bytes() + tail);
                assert(b[0] == 1u8);
                Vec::<i32>::lemma_roundtrip(x, tail);
            },
            VertexAttributeValues::Uint32(x) => {
                assert(b.skip(1) =~= x.fast_bytes() + tail);
                assert(b[0] == 2u8);
                Vec::<u32>::lemma_roundtrip(x, tail);
            },
            VertexAttributeValues::Float32x2(x) => {
                assert(b.skip(1) =~= x.fast_bytes() + tail);
                assert(b[0] == 3u8);
                Vec::<[u32; 2]>::lemma_roundtrip(x, tail);
            },
            VertexAttributeValues::Sint32x2(x) => {
                assert(b.skip(1) =~= x.fast_bytes() + tail);
                assert(b[0] == 4u8);
                Vec::<[i32; 2]>::lemma_roundtrip(x, tail);
            },
            VertexAttributeValues::Uint32x2(x) => {
                assert(b.skip(1) =~= x.fast_bytes() + tail);
                assert(b[0] == 5u8);
                Vec::<[u32; 2]>::lemma_roundtrip(x, tail);
            },
            VertexAttributeValues::Float32x3(x) => {
                assert(b.skip(1) =~= x.fast_bytes() + tail);
                assert(b[0] == 6u8);
                Vec::<[u32; 3]>::lemma_roundtrip(x, tail);
            },
            VertexAttributeValues::Sint32x3(x) => {
                assert(b.skip(1) =~= x.fast_bytes() + tail);
                assert(b[0] == 7u8);
                Vec::<[i32; 3]>::lemma_roundtrip(x, tail);
            },
            VertexAttributeValues::Uint32x3(x) => {
                assert(b.skip(1) =~= x.fast_bytes() + tail);
                assert(b[0] == 8u8);
                Vec::<[u32; 3]>::lemma_roundtrip(x, tail);
            },
            VertexAttributeValues::Float32x4(x) => {
                assert(b.skip(1) =~= x.fast_bytes() + tail);
                assert(b[0] == 9u8);
                Vec::<[u32; 4]>::lemma_roundtrip(x, tail);
            },
            VertexAttributeValues::Sint32x4(x) => {
                assert(b.skip(1) =~= x.fast_bytes() + tail);
                assert(b[0] == 10u8);
                Vec::<[i32; 4]>::lemma_roundtrip(x, tail);
            },
            VertexAttributeValues::Uint32x4(x) => {
                assert(b.skip(1) =~= x.fast_bytes() + tail);
                assert(b[0] == 11u8);
                Vec::<[u32; 4]>::lemma_roundtrip(x, tail);
            },
            VertexAttributeValues::Sint16x2(x) => {
                assert(b.skip(1) =~= x.fast_bytes() + tail);
                assert(b[0] == 12u8);
                Vec::<[i16; 2]>::lemma_roundtrip(x, tail);
            },
            VertexAttributeValues::Snorm16x2(x) => {
                assert(b.skip(1) =~= x.fast_bytes() + tail);
                assert(b[0] == 13u8);
                Vec::<[i16; 2]>::lemma_roundtrip(x, tail);
            },
            VertexAttributeValues::Uint16x2(x) => {
                assert(b.skip(1) =~= x.fast_bytes() + tail);
                assert(b[0] == 14u8);
                Vec::<[u16; 2]>::lemma_roundtrip(x, tail);
            },
            VertexAttributeValues::Unorm16x2(x) => {
                assert(b.skip(1) =~= x.fast_bytes() + tail);
                assert(b[0] == 15u8);
                Vec::<[u16; 2]>::lemma_roundtrip(x, tail);
            },
            VertexAttributeValues::Sint16x4(x) => {
                assert(b.skip(1) =~= x.fast_bytes() + tail);
                assert(b[0] == 16u8);
                Vec::<[i16; 4]>::lemma_roundtrip(x, tail);
            },
            VertexAttributeValues::Snorm16x4(x) => {
                assert(b.skip(1) =~= x.fast_bytes() + tail);
                assert(b[0] == 17u8);
                Vec::<[i16; 4]>::lemma_roundtrip(x, tail);
            },
            VertexAttributeValues::Uint16x4(x) => {
                assert(b.skip(1) =~= x.fast_bytes() + tail);
                assert(b[0] == 18u8);
                Vec::<[u16; 4]>::lemma_roundtrip(x, tail);
            },
            VertexAttributeValues::Unorm16x4(x) => {
                assert(b.skip(1) =~= x.fast_bytes() + tail);
                assert(b[0] == 19u8);
                Vec::<[u16; 4]>::lemma_roundtrip(x, tail);
            },
            VertexAttributeValues::Sint8x2(x) => {
                assert(b.skip(1) =~= x.fast_bytes() + tail);
                assert(b[0] == 20u8);
                Vec::<[i8; 2]>::lemma_roundtrip(x, tail);
            },
            VertexAttributeValues::Snorm8x2(x) => {
                assert(b.skip(1) =~= x.fast_bytes() + tail);
                assert(b[0] == 21u8);
                Vec::<[i8; 2]>::lemma_roundtrip(x, tail);
            },
            VertexAttributeValues::Uint8x2(x) => {
                assert(b.skip(1) =~= x.fast_bytes() + tail);
                assert(b[0] == 22u8);
                Vec::<[u8; 2]>::lemma_roundtrip(x, tail);
            },
            VertexAttributeValues::Unorm8x2(x) => {
                assert(b.skip(1) =~= x.fast_bytes() + tail);
                assert(b[0] == 23u8);
                Vec::<[u8; 2]>::lemma_roundtrip(x, tail);
            },
            VertexAttributeValues::Sint8x4(x) => {
                assert(b.skip(1) =~= x.fast_bytes() + tail);
                assert(b[0] == 24u8);
                Vec::<[i8; 4]>::lemma_roundtrip(x, tail);
            },
            VertexAttributeValues::Snorm8x4(x) => {
                assert(b.skip(1) =~= x.fast_bytes() + tail);
                assert(b[0] == 25u8);
                Vec::<[i8; 4]>::lemma_roundtrip(x, tail);
            },
            VertexAttributeValues::Uint8x4(x) => {
                assert(b.skip(1) =~= x.fast_bytes() + tail);
                assert(b[0] == 26u8);
                Vec::<[u8; 4]>::lemma_roundtrip(x, tail);
            },
            VertexAttributeValues::Unorm8x4(x) => {
                assert(b.skip(1) =~= x.fast_bytes() + tail);
                assert(b[0] == 27u8);
                Vec::<[u8; 4]>::lemma_roundtrip(x, tail);
            },
        }
    }
}

/// The index buffer of a mesh, in 16 or 32 bits.
pub enum Indices {
    U16(Vec<u16>),
    U32(Vec<u32>),
}

impl FastWrite for Indices {
    open spec fn fast_bytes(&self) -> Seq<u8> {
        match self {
            Indices::U16(x) => i8_bytes(0i8) + x.fast_bytes(),
            Indices::U32(x) => i8_bytes(1i8) + x.fast_bytes(),
        }
    }

    fn write_fast<W: ByteSink>(&self, w: &mut W) {
        proof {
            lemma_primitive_bytes();
        }
        match self {
            Indices::U16(x) => {
                0i8.write_fast(w);
                let ghost b1 = w.sink_buffer();
                let ghost p1 = w.sink_pos();
                x.write_fast(w);
                proof {
                    lemma_wrote_twice(old(w).sink_buffer(), old(w).sink_pos(), b1, p1, w.sink_buffer(), w.sink_pos(), i8_bytes(0i8), x.fast_bytes());
                }
            },
            Indices::U32(x) => {
                1i8.write_fast(w);
                let ghost b1 = w.sink_buffer();
                let ghost p1 = w.sink_pos();
                x.write_fast(w);
                proof {
                    lemma_wrote_twice(old(w).sink_buffer(), old(w).sink_pos(), b1, p1, w.sink_buffer(), w.sink_pos(), i8_bytes(1i8), x.fast_bytes());
                }
            },
        }
    }
}

impl FastRead for Indices {
    type Value = IndicesView;

    open spec fn fast_value(&self) -> IndicesView {
        match self {
            Indices::U16(x) => IndicesView::U16(x.fast_value()),
            Indices::U32(x) => IndicesView::U32(x.fast_value()),
        }
    }

    open spec fn fast_readable(b: Seq<u8>) -> bool {
        b.len() >= 1 && match b[0] {
            0u8 => Vec::<u16>::fast_readable(b.skip(1)),
            1u8 => Vec::<u32>::fast_readable(b.skip(1)),
            _ => false,
        }
    }

    open spec fn fast_read_len(b: Seq<u8>) -> nat {
        1 + match b[0] {
            0u8 => Vec::<u16>::fast_read_len(b.skip(1)),
            1u8 => Vec::<u32>::fast_read_len(b.skip(1)),
            _ => 0,
        }
    }

    open spec fn fast_reads(b: Seq<u8>, v: Self) -> bool {
        match v {
            Indices::U16(x) => b[0] == 0u8 && Vec::<u16>::fast_reads(b.skip(1), x),
            Indices::U32(x) => b[0] == 1u8 && Vec::<u32>::fast_reads(b.skip(1), x),
        }
    }

    fn read_fast<'a, S: ByteSource<'a>>(r: &mut S) -> (v: Self) {
        let ghost b = rest(r.source_buffer(), r.source_pos());
        proof {
            lemma_primitive_bytes();
        }
        let tag = r.get_u8();
        assert(rest(r.source_buffer(), r.source_pos()) =~= b.skip(1));
        assert(tag == b[0]);
        match tag {
            0 => Indices::U16(Vec::<u16>::read_fast(r)),
            1 => Indices::U32(Vec::<u32>::read_fast(r)),
            _ => {
                proof {
                    assert(false);
                }
                Indices::U16(Vec::new())
            },
        }
    }

    proof fn lemma_read_bounded(b: Seq<u8>) {
        match b[0] {
            0u8 => Vec::<u16>::lemma_read_bounded(b.skip(1)),
            1u8 => Vec::<u32>::lemma_read_bounded(b.skip(1)),
            _ => {},
        }
    }

    proof fn lemma_roundtrip(v: Self, tail: Seq<u8>) {
        lemma_primitive_bytes();
        let b = v.fast_bytes() + tail;
        match v {
            Indices::U16(x) => {
                assert(b.skip(1) =~= x.fast_bytes() + tail);
                assert(b[0] == 0u8);
                Vec::<u16>::lemma_roundtrip(x, tail);
            },
            Indices::U32(x) => {
                assert(b.skip(1) =~= x.fast_bytes() + tail);
                assert(b[0] == 1u8);
                Vec::<u32>::lemma_roundtrip(x, tail);
            },
        }
    }
}

/// What a vertex attribute holds: its format and the components of each
/// element.
pub enum VertexAttributeValuesView {
    Float32(Seq<u32>),
    Sint32(Seq<i32>),
    Uint32(Seq<u32>),
    Float32x2(Seq<Seq<u32>>),
    Sint32x2(Seq<Seq<i32>>),
    Uint32x2(Seq<Seq<u32>>),
    Float32x3(Seq<Seq<u32>>),
    Sint32x3(Seq<Seq<i32>>),
    Uint32x3(Seq<Seq<u32>>),
    Float32x4(Seq<Seq<u32>>),
    Sint32x4(Seq<Seq<i32>>),
    Uint32x4(Seq<Seq<u32>>),
    Sint16x2(Seq<Seq<i16>>),
    Snorm16x2(Seq<Seq<i16>>),
    Uint16x2(Seq<Seq<u16>>),
    Unorm16x2(Seq<Seq<u16>>),
    Sint16x4(Seq<Seq<i16>>),
    Snorm16x4(Seq<Seq<i16>>),
    Uint16x4(Seq<Seq<u16>>),
    Unorm16x4(Seq<Seq<u16>>),
    Sint8x2(Seq<Seq<i8>>),
    Snorm8x2(Seq<Seq<i8>>),
    Uint8x2(Seq<Seq<u8>>),
    Unorm8x2(Seq<Seq<u8>>),
    Sint8x4(Seq<Seq<i8>>),
    Snorm8x4(Seq<Seq<i8>>),
    Uint8x4(Seq<Seq<u8>>),
    Unorm8x4(Seq<Seq<u8>>),
}

impl DeepView for VertexAttributeValues {
    type V = VertexAttributeValuesView;

    open spec fn deep_view(&self) -> VertexAttributeValuesView {
        match self {
            VertexAttributeValues::Float32(x) => VertexAttributeValuesView::Float32(x.deep_view()),
            VertexAttributeValues::Sint32(x) => VertexAttributeValuesView::Sint32(x.deep_view()),
            VertexAttributeValues::Uint32(x) => VertexAttributeValuesView::Uint32(x.deep_view()),
            VertexAttributeValues::Float32x2(x) => VertexAttributeValuesView::Float32x2(x.deep_view()),
            VertexAttributeValues::Sint32x2(x) => VertexAttributeValuesView::Sint32x2(x.deep_view()),
            VertexAttributeValues::Uint32x2(x) => VertexAttributeValuesView::Uint32x2(x.deep_view()),
            VertexAttributeValues::Float32x3(x) => VertexAttributeValuesView::Float32x3(x.deep_view()),
            VertexAttributeValues::Sint32x3(x) => VertexAttributeValuesView::Sint32x3(x.deep_view()),
            VertexAttributeValues::Uint32x3(x) => VertexAttributeValuesView::Uint32x3(x.deep_view()),
            VertexAttributeValues::Float32x4(x) => VertexAttributeValuesView::Float32x4(x.deep_view()),
            VertexAttributeValues::Sint32x4(x) => VertexAttributeValuesView::Sint32x4(x.deep_view()),
            VertexAttributeValues::Uint32x4(x) => VertexAttributeValuesView::Uint32x4(x.deep_view()),
            VertexAttributeValues::Sint16x2(x) => VertexAttributeValuesView::Sint16x2(x.deep_view()),
            VertexAttributeValues::Snorm16x2(x) => VertexAttributeValuesView::Snorm16x2(x.deep_view()),
            VertexAttributeValues::Uint16x2(x) => VertexAttributeValuesView::Uint16x2(x.deep_view()),
            VertexAttributeValues::Unorm16x2(x) => VertexAttributeValuesView::Unorm16x2(x.deep_view()),
            VertexAttributeValues::Sint16x4(x) => VertexAttributeValuesView::Sint16x4(x.deep_view()),
            VertexAttributeValues::Snorm16x4(x) => VertexAttributeValuesView::Snorm16x4(x.deep_view()),
            VertexAttributeValues::Uint16x4(x) => VertexAttributeValuesView::Uint16x4(x.deep_view()),
            VertexAttributeValues::Unorm16x4(x) => VertexAttributeValuesView::Unorm16x4(x.deep_view()),
            VertexAttributeValues::Sint8x2(x) => VertexAttributeValuesView::Sint8x2(x.deep_view()),
            VertexAttributeValues::Snorm8x2(x) => VertexAttributeValuesView::Snorm8x2(x.deep_view()),
            VertexAttributeValues::Uint8x2(x) => VertexAttributeValuesView::Uint8x2(x.deep_view()),
            VertexAttributeValues::Unorm8x2(x) => VertexAttributeValuesView::Unorm8x2(x.deep_view()),
            VertexAttributeValues::Sint8x4(x) => VertexAttributeValuesView::Sint8x4(x.deep_view()),
            VertexAttributeValues::Snorm8x4(x) => VertexAttributeValuesView::Snorm8x4(x.deep_view()),
            VertexAttributeValues::Uint8x4(x) => VertexAttributeValuesView::Uint8x4(x.deep_view()),
            VertexAttributeValues::Unorm8x4(x) => VertexAttributeValuesView::Unorm8x4(x.deep_view()),
        }
    }
}

/// What an index buffer holds: its width and its indices.
pub enum IndicesView {
    U16(Seq<u16>),
    U32(Seq<u32>),
}

impl DeepView for Indices {
    type V = IndicesView;

    open spec fn deep_view(&self) -> IndicesView {
        match self {
            Indices::U16(x) => IndicesView::U16(x.deep_view()),
            Indices::U32(x) => IndicesView::U32(x.deep_view()),
        }
    }
}

/// A vertex attribute reads back as itself: after its bytes, whether
/// `serialize` or `write_fast` wrote them, reading consumes exactly those
/// bytes and gives the same format with the same elements.
pub proof fn lemma_attribute_values_roundtrip(v: VertexAttributeValues, tail: Seq<u8>)
    requires
        v.t_bytes().len() <= usize::MAX,
        v.fast_bytes().len() <= usize::MAX,
    ensures
        VertexAttributeValues::t_readable(v.t_bytes() + tail),
        VertexAttributeValues::t_read_len(v.t_bytes() + tail) == v.t_bytes().len(),
        forall|w: VertexAttributeValues| #[trigger]
            VertexAttributeValues::t_reads(v.t_bytes() + tail, w) ==> w.deep_view()
                == v.deep_view(),
        VertexAttributeValues::fast_readable(v.fast_bytes() + tail),
        VertexAttributeValues::fast_read_len(v.fast_bytes() + tail) == v.fast_bytes().len(),
        forall|w: VertexAttributeValues| #[trigger]
            VertexAttributeValues::fast_reads(v.fast_bytes() + tail, w) ==> w.fast_value()
                == v.fast_value(),
{
    VertexAttributeValues::lemma_t_roundtrip(v, tail);
    VertexAttributeValues::lemma_roundtrip(v, tail);
}

// MARK: Attribute values and indices in transcripts

impl TSerialize for VertexAttributeValues {
    open spec fn t_bytes(&self) -> Seq<u8> {
        match self {
            VertexAttributeValues::Float32(x) => i8_bytes(0i8) + x.t_bytes(),
            VertexAttributeValues::Sint32(x) => i8_bytes(1i8) + x.t_bytes(),
            VertexAttributeValues::Uint32(x) => i8_bytes(2i8) + x.t_bytes(),
            VertexAttributeValues::Float32x2(x) => i8_bytes(3i8) + x.t_bytes(),
            VertexAttributeValues::Sint32x2(x) => i8_bytes(4i8) + x.t_bytes(),
            VertexAttributeValues::Uint32x2(x) => i8_bytes(5i8) + x.t_bytes(),
            VertexAttributeValues::Float32x3(x) => i8_bytes(6i8) + x.t_bytes(),
            VertexAttributeValues::Sint32x3(x) => i8_bytes(7i8) + x.t_bytes(),
            VertexAttributeValues::Uint32x3(x) => i8_bytes(8i8) + x.t_bytes(),
            VertexAttributeValues::Float32x4(x) => i8_bytes(9i8) + x.t_bytes(),
            VertexAttributeValues::Sint32x4(x) => i8_bytes(10i8) + x.t_bytes(),
            VertexAttributeValues::Uint32x4(x) => i8_bytes(11i8) + x.t_bytes(),
            VertexAttributeValues::Sint16x2(x) => i8_bytes(12i8) + x.t_bytes(),
            VertexAttributeValues::Snorm16x2(x) => i8_bytes(13i8) + x.t_bytes(),
            VertexAttributeValues::Uint16x2(x) => i8_bytes(14i8) + x.t_bytes(),
            VertexAttributeValues::Unorm16x2(x) => i8_bytes(15i8) + x.t_bytes(),
            VertexAttributeValues::Sint16x4(x) => i8_bytes(16i8) + x.t_bytes(),
            VertexAttributeValues::Snorm16x4(x) => i8_bytes(17i8) + x.t_bytes(),
            VertexAttributeValues::Uint16x4(x) => i8_bytes(18i8) + x.t_bytes(),
            VertexAttributeValues::Unorm16x4(x) => i8_bytes(19i8) + x.t_bytes(),
            VertexAttributeValues::Sint8x2(x) => i8_bytes(20i8) + x.t_bytes(),
            VertexAttributeValues::Snorm8x2(x) => i8_bytes(21i8) + x.t_bytes(),
            VertexAttributeValues::Uint8x2(x) => i8_bytes(22i8) + x.t_bytes(),
            VertexAttributeValues::Unorm8x2(x) => i8_bytes(23i8) + x.t_bytes(),
            VertexAttributeValues::Sint8x4(x) => i8_bytes(24i8) + x.t_bytes(),
            VertexAttributeValues::Snorm8x4(x) => i8_bytes(25i8) + x.t_bytes(),
            VertexAttributeValues::Uint8x4(x) => i8_bytes(26i8) + x.t_bytes(),
            VertexAttributeValues::Unorm8x4(x) => i8_bytes(27i8) + x.t_bytes(),
        }
    }

    fn serialize(&self, w: &mut Vec<u8>) {
        match self {
            VertexAttributeValues::Float32(x) => {
                0i8.serialize(w);
                serialize_pod_slice(x.as_slice(), w);
            },
            VertexAttributeValues::Sint32(x) => {
                1i8.serialize(w);
                serialize_pod_slice(x.as_slice(), w);
            },
            VertexAttributeValues::Uint32(x) => {
                2i8.serialize(w);
                serialize_pod_slice(x.as_slice(), w);
            },
            VertexAttributeValues::Float32x2(x) => {
                3i8.serialize(w);
                serialize_pod_slice(x.as_slice(), w);
            },
            VertexAttributeValues::Sint32x2(x) => {
                4i8.serialize(w);
                serialize_pod_slice(x.as_slice(), w);
            },
            VertexAttributeValues::Uint32x2(x) => {
                5i8.serialize(w);
                serialize_pod_slice(x.as_slice(), w);
            },
            VertexAttributeValues::Float32x3(x) => {
                6i8.serialize(w);
                serialize_pod_slice(x.as_slice(), w);
            },
            VertexAttributeValues::Sint32x3(x) => {
                7i8.serialize(w);
                serialize_pod_slice(x.as_slice(), w);
            },
            VertexAttributeValues::Uint32x3(x) => {
                8i8.serialize(w);
                serialize_pod_slice(x.as_slice(), w);
            },
            VertexAttributeValues::Float32x4(x) => {
                9i8.serialize(w);
                serialize_pod_slice(x.as_slice(), w);
            },
            VertexAttributeValues::Sint32x4(x) => {
                10i8.serialize(w);
                serialize_pod_slice(x.as_slice(), w);
            },
            VertexAttributeValues::Uint32x4(x) => {
                11i8.serialize(w);
                serialize_pod_slice(x.as_slice(), w);
            },
            VertexAttributeValues::Sint16x2(x) => {
                12i8.serialize(w);
                serialize_pod_slice(x.as_slice(), w);
            },
            VertexAttributeValues::Snorm16x2(x) => {
                13i8.serialize(w);
                serialize_pod_slice(x.as_slice(), w);
            },
            VertexAttributeValues::Uint16x2(x) => {
                14i8.serialize(w);
                serialize_pod_slice(x.as_slice(), w);
            },
            VertexAttributeValues::Unorm16x2(x) => {
                15i8.serialize(w);
                serialize_pod_slice(x.as_slice(), w);
            },
            VertexAttributeValues::Sint16x4(x) => {
                16i8.serialize(w);
                serialize_pod_slice(x.as_slice(), w);
            },
            VertexAttributeValues::Snorm16x4(x) => {
                17i8.serialize(w);
                serialize_pod_slice(x.as_slice(), w);
            },
            VertexAttributeValues::Uint16x4(x) => {
                18i8.serialize(w);
                serialize_pod_slice(x.as_slice(), w);
            },
            VertexAttributeValues::Unorm16x4(x) => {
                19i8.serialize(w);
                serialize_pod_slice(x.as_slice(), w);
            },
            VertexAttributeValues::Sint8x2(x) => {
                20i8.serialize(w);
                serialize_pod_slice(x.as_slice(), w);
            },
            VertexAttributeValues::Snorm8x2(x) => {
                21i8.serialize(w);
                serialize_pod_slice(x.as_slice(), w);
            },
            VertexAttributeValues::Uint8x2(x) => {
                22i8.serialize(w);
                serialize_pod_slice(x.as_slice(), w);
            },
            VertexAttributeValues::Unorm8x2(x) => {
                23i8.serialize(w);
                serialize_pod_slice(x.as_slice(), w);
            },
            VertexAttributeValues::Sint8x4(x) => {
                24i8.serialize(w);
                serialize_pod_slice(x.as_slice(), w);
            },
            VertexAttributeValues::Snorm8x4(x) => {
                25i8.serialize(w);
                serialize_pod_slice(x.as_slice(), w);
            },
            VertexAttributeValues::Uint8x4(x) => {
                26i8.serialize(w);
                serialize_pod_slice(x.as_slice(), w);
            },
            VertexAttributeValues::Unorm8x4(x) => {
                27i8.serialize(w);
                serialize_pod_slice(x.as_slice(), w);
            },
        }
        assert(w@ =~= old(w)@ + self.t_bytes());
    }
}

impl TDeserialize for VertexAttributeValues {
    open spec fn t_readable(b: Seq<u8>) -> bool {
        b.len() >= 1 && match b[0] {
            0u8 => Vec::<u32>::t_readable(b.skip(1)),
            1u8 => Vec::<i32>::t_readable(b.skip(1)),
            2u8 => Vec::<u32>::t_readable(b.skip(1)),
            3u8 => Vec::<[u32; 2]>::t_readable(b.skip(1)),
            4u8 => Vec::<[i32; 2]>::t_readable(b.skip(1)),
            5u8 => Vec::<[u32; 2]>::t_readable(b.skip(1)),
            6u8 => Vec::<[u32; 3]>::t_readable(b.skip(1)),
            7u8 => Vec::<[i32; 3]>::t_readable(b.skip(1)),
            8u8 => Vec::<[u32; 3]>::t_readable(b.skip(1)),
            9u8 => Vec::<[u32; 4]>::t_readable(b.skip(1)),
            10u8 => Vec::<[i32; 4]>::t_readable(b.skip(1)),
            11u8 => Vec::<[u32; 4]>::t_readable(b.skip(1)),
            12u8 => Vec::<[i16; 2]>::t_readable(b.skip(1)),
            13u8 => Vec::<[i16; 2]>::t_readable(b.skip(1)),
            14u8 => Vec::<[u16; 2]>::t_readable(b.skip(1)),
            15u8 => Vec::<[u16; 2]>::t_readable(b.skip(1)),
            16u8 => Vec::<[i16; 4]>::t_readable(b.skip(1)),
            17u8 => Vec::<[i16; 4]>::t_readable(b.skip(1)),
            18u8 => Vec::<[u16; 4]>::t_readable(b.skip(1)),
            19u8 => Vec::<[u16; 4]>::t_readable(b.skip(1)),
            20u8 => Vec::<[i8; 2]>::t_readable(b.skip(1)),
            21u8 => Vec::<[i8; 2]>::t_readable(b.skip(1)),
            22u8 => Vec::<[u8; 2]>::t_readable(b.skip(1)),
            23u8 => Vec::<[u8; 2]>::t_readable(b.skip(1)),
            24u8 => Vec::<[i8; 4]>::t_readable(b.skip(1)),
            25u8 => Vec::<[i8; 4]>::t_readable(b.skip(1)),
            26u8 => Vec::<[u8; 4]>::t_readable(b.skip(1)),
            27u8 => Vec::<[u8; 4]>::t_readable(b.skip(1)),
            _ => false,
        }
    }

    open spec fn t_read_len(b: Seq<u8>) -> nat {
        1 + match b[0] {
            0u8 => Vec::<u32>::t_read_len(b.skip(1)),
            1u8 => Vec::<i32>::t_read_len(b.skip(1)),
            2u8 => Vec::<u32>::t_read_len(b.skip(1)),
            3u8 => Vec::<[u32; 2]>::t_read_len(b.skip(1)),
            4u8 => Vec::<[i32; 2]>::t_read_len(b.skip(1)),
            5u8 => Vec::<[u32; 2]>::t_read_len(b.skip(1)),
            6u8 => Vec::<[u32; 3]>::t_read_len(b.skip(1)),
            7u8 => Vec::<[i32; 3]>::t_read_len(b.skip(1)),
            8u8 => Vec::<[u32; 3]>::t_read_len(b.skip(1)),
            9u8 => Vec::<[u32; 4]>::t_read_len(b.skip(1)),
            10u8 => Vec::<[i32; 4]>::t_read_len(b.skip(1)),
            11u8 => Vec::<[u32; 4]>::t_read_len(b.skip(1)),
            12u8 => Vec::<[i16; 2]>::t_read_len(b.skip(1)),
            13u8 => Vec::<[i16; 2]>::t_read_len(b.skip(1)),
            14u8 => Vec::<[u16; 2]>::t_read_len(b.skip(1)),
            15u8 => Vec::<[u16; 2]>::t_read_len(b.skip(1)),
            16u8 => Vec::<[i16; 4]>::t_read_len(b.skip(1)),
            17u8 => Vec::<[i16; 4]>::t_read_len(b.skip(1)),
            18u8 => Vec::<[u16; 4]>::t_read_len(b.skip(1)),
            19u8 => Vec::<[u16; 4]>::t_read_len(b.skip(1)),
            20u8 => Vec::<[i8; 2]>::t_read_len(b.skip(1)),
            21u8 => Vec::<[i8; 2]>::t_read_len(b.skip(1)),
            22u8 => Vec::<[u8; 2]>::t_read_len(b.skip(1)),
            23u8 => Vec::<[u8; 2]>::t_read_len(b.skip(1)),
            24u8 => Vec::<[i8; 4]>::t_read_len(b.skip(1)),
            25u8 => Vec::<[i8; 4]>::t_read_len(b.skip(1)),
            26u8 => Vec::<[u8; 4]>::t_read_len(b.skip(1)),
            27u8 => Vec::<[u8; 4]>::t_read_len(b.skip(1)),
            _ => 0,
        }
    }

    open spec fn t_reads(b: Seq<u8>, v: Self) -> bool {
        match v {
            VertexAttributeValues::Float32(x) => b[0] == 0u8 && Vec::<u32>::t_reads(b.skip(1), x),
            VertexAttributeValues::Sint32(x) => b[0] == 1u8 && Vec::<i32>::t_reads(b.skip(1), x),
            VertexAttributeValues::Uint32(x) => b[0] == 2u8 && Vec::<u32>::t_reads(b.skip(1), x),
            VertexAttributeValues::Float32x2(x) => b[0] == 3u8 && Vec::<[u32; 2]>::t_reads(b.skip(1), x),
            VertexAttributeValues::Sint32x2(x) => b[0] == 4u8 && Vec::<[i32; 2]>::t_reads(b.skip(1), x),
            VertexAttributeValues::Uint32x2(x) => b[0] == 5u8 && Vec::<[u32; 2]>::t_reads(b.skip(1), x),
            VertexAttributeValues::Float32x3(x) => b[0] == 6u8 && Vec::<[u32; 3]>::t_reads(b.skip(1), x),
            VertexAttributeValues::Sint32x3(x) => b[0] == 7u8 && Vec::<[i32; 3]>::t_reads(b.skip(1), x),
            VertexAttributeValues::Uint32x3(x) => b[0] == 8u8 && Vec::<[u32; 3]>::t_reads(b.skip(1), x),
            VertexAttributeValues::Float32x4(x) => b[0] == 9u8 && Vec::<[u32; 4]>::t_reads(b.skip(1), x),
            VertexAttributeValues::Sint32x4(x) => b[0] == 10u8 && Vec::<[i32; 4]>::t_reads(b.skip(1), x),
            VertexAttributeValues::Uint32x4(x) => b[0] == 11u8 && Vec::<[u32; 4]>::t_reads(b.skip(1), x),
            VertexAttributeValues::Sint16x2(x) => b[0] == 12u8 && Vec::<[i16; 2]>::t_reads(b.skip(1), x),
            VertexAttributeValues::Snorm16x2(x) => b[0] == 13u8 && Vec::<[i16; 2]>::t_reads(b.skip(1), x),
            VertexAttributeValues::Uint16x2(x) => b[0] == 14u8 && Vec::<[u16; 2]>::t_reads(b.skip(1), x),
            VertexAttributeValues::Unorm16x2(x) => b[0] == 15u8 && Vec::<[u16; 2]>::t_reads(b.skip(1), x),
            VertexAttributeValues::Sint16x4(x) => b[0] == 16u8 && Vec::<[i16; 4]>::t_reads(b.skip(1), x),
            VertexAttributeValues::Snorm16x4(x) => b[0] == 17u8 && Vec::<[i16; 4]>::t_reads(b.skip(1), x),
            VertexAttributeValues::Uint16x4(x) => b[0] == 18u8 && Vec::<[u16; 4]>::t_reads(b.skip(1), x),
            VertexAttributeValues::Unorm16x4(x) => b[0] == 19u8 && Vec::<[u16; 4]>::t_reads(b.skip(1), x),
            VertexAttributeValues::Sint8x2(x) => b[0] == 20u8 && Vec::<[i8; 2]>::t_reads(b.skip(1), x),
            VertexAttributeValues::Snorm8x2(x) => b[0] == 21u8 && Vec::<[i8; 2]>::t_reads(b.skip(1), x),
            VertexAttributeValues::Uint8x2(x) => b[0] == 22u8 && Vec::<[u8; 2]>::t_reads(b.skip(1), x),
            VertexAttributeValues::Unorm8x2(x) => b[0] == 23u8 && Vec::<[u8; 2]>::t_reads(b.skip(1), x),
            VertexAttributeValues::Sint8x4(x) => b[0] == 24u8 && Vec::<[i8; 4]>::t_reads(b.skip(1), x),
            VertexAttributeValues::Snorm8x4(x) => b[0] == 25u8 && Vec::<[i8; 4]>::t_reads(b.skip(1), x),
            VertexAttributeValues::Uint8x4(x) => b[0] == 26u8 && Vec::<[u8; 4]>::t_reads(b.skip(1), x),
            VertexAttributeValues::Unorm8x4(x) => b[0] == 27u8 && Vec::<[u8; 4]>::t_reads(b.skip(1), x),
        }
    }

    fn deserialize<'a, S: ByteSource<'a>>(r: &mut S) -> (v: Self) {
        let ghost b = rest(r.source_buffer(), r.source_pos());
        proof {
            lemma_primitive_bytes();
        }
        let tag = i8::deserialize(r);
        assert(rest(r.source_buffer(), r.source_pos()) =~= b.skip(1));
        assert(tag as u8 == b[0]);
        match tag {
            0 => VertexAttributeValues::Float32(deserialize_pod_slice(r)),
            1 => VertexAttributeValues::Sint32(deserialize_pod_slice(r)),
            2 => VertexAttributeValues::Uint32(deserialize_pod_slice(r)),
            3 => VertexAttributeValues::Float32x2(deserialize_pod_slice(r)),
            4 => VertexAttributeValues::Sint32x2(deserialize_pod_slice(r)),
            5 => VertexAttributeValues::Uint32x2(deserialize_pod_slice(r)),
            6 => VertexAttributeValues::Float32x3(deserialize_pod_slice(r)),
            7 => VertexAttributeValues::Sint32x3(deserialize_pod_slice(r)),
            8 => VertexAttributeValues::Uint32x3(deserialize_pod_slice(r)),
            9 => VertexAttributeValues::Float32x4(deserialize_pod_slice(r)),
            10 => VertexAttributeValues::Sint32x4(deserialize_pod_slice(r)),
            11 => VertexAttributeValues::Uint32x4(deserialize_pod_slice(r)),
            12 => VertexAttributeValues::Sint16x2(deserialize_pod_slice(r)),
            13 => VertexAttributeValues::Snorm16x2(deserialize_pod_slice(r)),
            14 => VertexAttributeValues::Uint16x2(deserialize_pod_slice(r)),
            15 => VertexAttributeValues::Unorm16x2(deserialize_pod_slice(r)),
            16 => VertexAttributeValues::Sint16x4(deserialize_pod_slice(r)),
            17 => VertexAttributeValues::Snorm16x4(deserialize_pod_slice(r)),
            18 => VertexAttributeValues::Uint16x4(deserialize_pod_slice(r)),
            19 => VertexAttributeValues::Unorm16x4(deserialize_pod_slice(r)),
            20 => VertexAttributeValues::Sint8x2(deserialize_pod_slice(r)),
            21 => VertexAttributeValues::Snorm8x2(deserialize_pod_slice(r)),
            22 => VertexAttributeValues::Uint8x2(deserialize_pod_slice(r)),
            23 => VertexAttributeValues::Unorm8x2(deserialize_pod_slice(r)),
            24 => VertexAttributeValues::Sint8x4(deserialize_pod_slice(r)),
            25 => VertexAttributeValues::Snorm8x4(deserialize_pod_slice(r)),
            26 => VertexAttributeValues::Uint8x4(deserialize_pod_slice(r)),
            27 => VertexAttributeValues::Unorm8x4(deserialize_pod_slice(r)),
            _ => {
                proof {
                    assert(false);
                }
                VertexAttributeValues::Float32(Vec::new())
            },
        }
    }

    proof fn lemma_t_read_bounded(b: Seq<u8>) {
        match b[0] {
            0u8 => Vec::<u32>::lemma_t_read_bounded(b.skip(1)),
            1u8 => Vec::<i32>::lemma_t_read_bounded(b.skip(1)),
            2u8 => Vec::<u32>::lemma_t_read_bounded(b.skip(1)),
            3u8 => Vec::<[u32; 2]>::lemma_t_read_bounded(b.skip(1)),
            4u8 => Vec::<[i32; 2]>::lemma_t_read_bounded(b.skip(1)),
            5u8 => Vec::<[u32; 2]>::lemma_t_read_bounded(b.skip(1)),
            6u8 => Vec::<[u32; 3]>::lemma_t_read_bounded(b.skip(1)),
            7u8 => Vec::<[i32; 3]>::lemma_t_read_bounded(b.skip(1)),
            8u8 => Vec::<[u32; 3]>::lemma_t_read_bounded(b.skip(1)),
            9u8 => Vec::<[u32; 4]>::lemma_t_read_bounded(b.skip(1)),
            10u8 => Vec::<[i32; 4]>::lemma_t_read_bounded(b.skip(1)),
            11u8 => Vec::<[u32; 4]>::lemma_t_read_bounded(b.skip(1)),
            12u8 => Vec::<[i16; 2]>::lemma_t_read_bounded(b.skip(1)),
            13u8 => Vec::<[i16; 2]>::lemma_t_read_bounded(b.skip(1)),
            14u8 => Vec::<[u16; 2]>::lemma_t_read_bounded(b.skip(1)),
            15u8 => Vec::<[u16; 2]>::lemma_t_read_bounded(b.skip(1)),
            16u8 => Vec::<[i16; 4]>::lemma_t_read_bounded(b.skip(1)),
            17u8 => Vec::<[i16; 4]>::lemma_t_read_bounded(b.skip(1)),
            18u8 => Vec::<[u16; 4]>::lemma_t_read_bounded(b.skip(1)),
            19u8 => Vec::<[u16; 4]>::lemma_t_read_bounded(b.skip(1)),
            20u8 => Vec::<[i8; 2]>::lemma_t_read_bounded(b.skip(1)),
            21u8 => Vec::<[i8; 2]>::lemma_t_read_bounded(b.skip(1)),
            22u8 => Vec::<[u8; 2]>::lemma_t_read_bounded(b.skip(1)),
            23u8 => Vec::<[u8; 2]>::lemma_t_read_bounded(b.skip(1)),
            24u8 => Vec::<[i8; 4]>::lemma_t_read_bounded(b.skip(1)),
            25u8 => Vec::<[i8; 4]>::lemma_t_read_bounded(b.skip(1)),
            26u8 => Vec::<[u8; 4]>::lemma_t_read_bounded(b.skip(1)),
            27u8 => Vec::<[u8; 4]>::lemma_t_read_bounded(b.skip(1)),
            _ => {},
        }
    }

    proof fn lemma_t_roundtrip(v: Self, tail: Seq<u8>) {
        lemma_primitive_bytes();
        let b = v.t_bytes() + tail;
        match v {
            VertexAttributeValues::Float32(x) => {
                assert(b.skip(1) =~= x.t_bytes() + tail);
                assert(b[0] == 0u8);
                Vec::<u32>::lemma_t_roundtrip(x, tail);
            },
            VertexAttributeValues::Sint32(x) => {
                assert(b.skip(1) =~= x.t_bytes() + tail);
                assert(b[0] == 1u8);
                Vec::<i32>::lemma_t_roundtrip(x, tail);
            },
            VertexAttributeValues::Uint32(x) => {
                assert(b.skip(1) =~= x.t_bytes() + tail);
                assert(b[0] == 2u8);
                Vec::<u32>::lemma_t_roundtrip(x, tail);
            },
            VertexAttributeValues::Float32x2(x) => {
                assert(b.skip(1) =~= x.t_bytes() + tail);
                assert(b[0] == 3u8);
                Vec::<[u32; 2]>::lemma_t_roundtrip(x, tail);
            },
            VertexAttributeValues::Sint32x2(x) => {
                assert(b.skip(1) =~= x.t_bytes() + tail);
                assert(b[0] == 4u8);
                Vec::<[i32; 2]>::lemma_t_roundtrip(x, tail);
            },
            VertexAttributeValues::Uint32x2(x) => {
                assert(b.skip(1) =~= x.t_bytes() + tail);
                assert(b[0] == 5u8);
                Vec::<[u32; 2]>::lemma_t_roundtrip(x, tail);
            },
            VertexAttributeValues::Float32x3(x) => {
                assert(b.skip(1) =~= x.t_bytes() + tail);
                assert(b[0] == 6u8);
                Vec::<[u32; 3]>::lemma_t_roundtrip(x, tail);
            },
            VertexAttributeValues::Sint32x3(x) => {
                assert(b.skip(1) =~= x.t_bytes() + tail);
                assert(b[0] == 7u8);
                Vec::<[i32; 3]>::lemma_t_roundtrip(x, tail);
            },
            VertexAttributeValues::Uint32x3(x) => {
                assert(b.skip(1) =~= x.t_bytes() + tail);
                assert(b[0] == 8u8);
                Vec::<[u32; 3]>::lemma_t_roundtrip(x, tail);
            },
            VertexAttributeValues::Float32x4(x) => {
                assert(b.skip(1) =~= x.t_bytes() + tail);
                assert(b[0] == 9u8);
                Vec::<[u32; 4]>::lemma_t_roundtrip(x, tail);
            },
            VertexAttributeValues::Sint32x4(x) => {
                assert(b.skip(1) =~= x.t_bytes() + tail);
                assert(b[0] == 10u8);
                Vec::<[i32; 4]>::lemma_t_roundtrip(x, tail);
            },
            VertexAttributeValues::Uint32x4(x) => {
                assert(b.skip(1) =~= x.t_bytes() + tail);
                assert(b[0] == 11u8);
                Vec::<[u32; 4]>::lemma_t_roundtrip(x, tail);
            },
            VertexAttributeValues::Sint16x2(x) => {
                assert(b.skip(1) =~= x.t_bytes() + tail);
                assert(b[0] == 12u8);
                Vec::<[i16; 2]>::lemma_t_roundtrip(x, tail);
            },
            VertexAttributeValues::Snorm16x2(x) => {
                assert(b.skip(1) =~= x.t_bytes() + tail);
                assert(b[0] == 13u8);
                Vec::<[i16; 2]>::lemma_t_roundtrip(x, tail);
            },
            VertexAttributeValues::Uint16x2(x) => {
                assert(b.skip(1) =~= x.t_bytes() + tail);
                assert(b[0] == 14u8);
                Vec::<[u16; 2]>::lemma_t_roundtrip(x, tail);
            },
            VertexAttributeValues::Unorm16x2(x) => {
                assert(b.skip(1) =~= x.t_bytes() + tail);
                assert(b[0] == 15u8);
                Vec::<[u16; 2]>::lemma_t_roundtrip(x, tail);
            },
            VertexAttributeValues::Sint16x4(x) => {
                assert(b.skip(1) =~= x.t_bytes() + tail);
                assert(b[0] == 16u8);
                Vec::<[i16; 4]>::lemma_t_roundtrip(x, tail);
            },
            VertexAttributeValues::Snorm16x4(x) => {
                assert(b.skip(1) =~= x.t_bytes() + tail);
                assert(b[0] == 17u8);
                Vec::<[i16; 4]>::lemma_t_roundtrip(x, tail);
            },
            VertexAttributeValues::Uint16x4(x) => {
                assert(b.skip(1) =~= x.t_bytes() + tail);
                assert(b[0] == 18u8);
                Vec::<[u16; 4]>::lemma_t_roundtrip(x, tail);
            },
            VertexAttributeValues::Unorm16x4(x) => {
                assert(b.skip(1) =~= x.t_bytes() + tail);
                assert(b[0] == 19u8);
                Vec::<[u16; 4]>::lemma_t_roundtrip(x, tail);
            },
            VertexAttributeValues::Sint8x2(x) => {
                assert(b.skip(1) =~= x.t_bytes() + tail);
                assert(b[0] == 20u8);
                Vec::<[i8; 2]>::lemma_t_roundtrip(x, tail);
            },
            VertexAttributeValues::Snorm8x2(x) => {
                assert(b.skip(1) =~= x.t_bytes() + tail);
                assert(b[0] == 21u8);
                Vec::<[i8; 2]>::lemma_t_roundtrip(x, tail);
            },
            VertexAttributeValues::Uint8x2(x) => {
                assert(b.skip(1) =~= x.t_bytes() + tail);
                assert(b[0] == 22u8);
                Vec::<[u8; 2]>::lemma_t_roundtrip(x, tail);
            },
            VertexAttributeValues::Unorm8x2(x) => {
                assert(b.skip(1) =~= x.t_bytes() + tail);
                assert(b[0] == 23u8);
                Vec::<[u8; 2]>::lemma_t_roundtrip(x, tail);
            },
            VertexAttributeValues::Sint8x4(x) => {
                assert(b.skip(1) =~= x.t_bytes() + tail);
                assert(b[0] == 24u8);
                Vec::<[i8; 4]>::lemma_t_roundtrip(x, tail);
            },
            VertexAttributeValues::Snorm8x4(x) => {
                assert(b.skip(1) =~= x.t_bytes() + tail);
                assert(b[0] == 25u8);
                Vec::<[i8; 4]>::lemma_t_roundtrip(x, tail);
            },
            VertexAttributeValues::Uint8x4(x) => {
                assert(b.skip(1) =~= x.t_bytes() + tail);
                assert(b[0] == 26u8);
                Vec::<[u8; 4]>::lemma_t_roundtrip(x, tail);
            },
            VertexAttributeValues::Unorm8x4(x) => {
                assert(b.skip(1) =~= x.t_bytes() + tail);
                assert(b[0] == 27u8);
                Vec::<[u8; 4]>::lemma_t_roundtrip(x, tail);
            },
        }
    }
}

impl TSerialize for Indices {
    open spec fn t_bytes(&self) -> Seq<u8> {
        match self {
            Indices::U16(x) => i8_bytes(0i8) + x.t_bytes(),
            Indices::U32(x) => i8_bytes(1i8) + x.t_bytes(),
        }
    }

    fn serialize(&self, w: &mut Vec<u8>) {
        match self {
            Indices::U16(x) => {
                0i8.serialize(w);
                serialize_pod_slice(x.as_slice(), w);
            },
            Indices::U32(x) => {
                1i8.serialize(w);
                serialize_pod_slice(x.as_slice(), w);
            },
        }
        assert(w@ =~= old(w)@ + self.t_bytes());
    }
}

impl TDeserialize for Indices {
    open spec fn t_readable(b: Seq<u8>) -> bool {
        b.len() >= 1 && match b[0] {
            0u8 => Vec::<u16>::t_readable(b.skip(1)),
            1u8 => Vec::<u32>::t_readable(b.skip(1)),
            _ => false,
        }
    }

    open spec fn t_read_len(b: Seq<u8>) -> nat {
        1 + match b[0] {
            0u8 => Vec::<u16>::t_read_len(b.skip(1)),
            1u8 => Vec::<u32>::t_read_len(b.skip(1)),
            _ => 0,
        }
    }

    open spec fn t_reads(b: Seq<u8>, v: Self) -> bool {
        match v {
            Indices::U16(x) => b[0] == 0u8 && Vec::<u16>::t_reads(b.skip(1), x),
            Indices::U32(x) => b[0] == 1u8 && Vec::<u32>::t_reads(b.skip(1), x),
        }
    }

    fn deserialize<'a, S: ByteSource<'a>>(r: &mut S) -> (v: Self) {
        let ghost b = rest(r.source_buffer(), r.source_pos());
        proof {
            lemma_primitive_bytes();
        }
        let tag = i8::deserialize(r);
        assert(rest(r.source_buffer(), r.source_pos()) =~= b.skip(1));
        assert(tag as u8 == b[0]);
        match tag {
            0 => Indices::U16(deserialize_pod_slice(r)),
            1 => Indices::U32(deserialize_pod_slice(r)),
            _ => {
                proof {
                    assert(false);
                }
                Indices::U16(Vec::new())
            },
        }
    }

    proof fn lemma_t_read_bounded(b: Seq<u8>) {
        match b[0] {
            0u8 => Vec::<u16>::lemma_t_read_bounded(b.skip(1)),
            1u8 => Vec::<u32>::lemma_t_read_bounded(b.skip(1)),
            _ => {},
        }
    }

    proof fn lemma_t_roundtrip(v: Self, tail: Seq<u8>) {
        lemma_primitive_bytes();
        let b = v.t_bytes() + tail;
        match v {
            Indices::U16(x) => {
                assert(b.skip(1) =~= x.t_bytes() + tail);
                assert(b[0] == 0u8);
                Vec::<u16>::lemma_t_roundtrip(x, tail);
            },
            Indices::U32(x) => {
                assert(b.skip(1) =~= x.t_bytes() + tail);
                assert(b[0] == 1u8);
                Vec::<u32>::lemma_t_roundtrip(x, tail);
            },
        }
    }
}

} // verus!
