//! Gizmo line settings on the wire: how segments are joined, how lines are
//! dashed, and the line configuration that carries both.
//!
//! Each enum is a one-byte tag followed by its payload.  A tag that no
//! variant uses reads back as the default variant.  Float settings travel as
//! their IEEE bits.
use crate::fast_io::{lemma_primitive_bytes, lemma_wrote_twice, rest, u8_bytes, ByteSink, ByteSource};
use crate::fast_ser::{FastRead, FastWrite};
use vstd::prelude::*;

verus! {

// MARK: Joints

/// How consecutive line segments are joined.
pub enum GizmoLineJoint {
    /// Segments are drawn without joints.
    NoJoint,
    Miter,
    /// Rounded joints drawn with this many segments.
    Round(u32),
    Bevel,
}

impl FastWrite for GizmoLineJoint {
    open spec fn fast_bytes(&self) -> Seq<u8> {
        match self {
            GizmoLineJoint::NoJoint => u8_bytes(0u8),
            GizmoLineJoint::Miter => u8_bytes(1u8),
            GizmoLineJoint::Round(resolution) => u8_bytes(2u8) + resolution.fast_bytes(),
            GizmoLineJoint::Bevel => u8_bytes(3u8),
        }
    }

    fn write_fast<W: ByteSink>(&self, w: &mut W) {
        proof {
            lemma_primitive_bytes();
        }
        match self {
            GizmoLineJoint::NoJoint => 0u8.write_fast(w),
            GizmoLineJoint::Miter => 1u8.write_fast(w),
            GizmoLineJoint::Round(resolution) => {
                2u8.write_fast(w);
                let ghost b1 = w.sink_buffer();
                let ghost p1 = w.sink_pos();
                resolution.write_fast(w);
                proof {
                    lemma_wrote_twice(
                        old(w).sink_buffer(),
                        old(w).sink_pos(),
                        b1,
                        p1,
                        w.sink_buffer(),
                        w.sink_pos(),
                        u8_bytes(2u8),
                        resolution.fast_bytes(),
                    );
                }
            },
            GizmoLineJoint::Bevel => 3u8.write_fast(w),
        }
    }
}

impl FastRead for GizmoLineJoint {
    type Value = GizmoLineJoint;

    open spec fn fast_value(&self) -> GizmoLineJoint {
        *self
    }

    open spec fn fast_readable(b: Seq<u8>) -> bool {
        b.len() >= 1 && (b[0] == 2u8 ==> u32::fast_readable(b.skip(1)))
    }

    open spec fn fast_read_len(b: Seq<u8>) -> nat {
        if b[0] == 2u8 {
            1 + u32::fast_read_len(b.skip(1))
        } else {
            1
        }
    }

    /// Tags past the last variant read as `NoJoint`.
    open spec fn fast_reads(b: Seq<u8>, v: Self) -> bool {
        match v {
            GizmoLineJoint::NoJoint => b[0] == 0u8 || b[0] > 3u8,
            GizmoLineJoint::Miter => b[0] == 1u8,
            GizmoLineJoint::Round(resolution) => b[0] == 2u8 && u32::fast_reads(
                b.skip(1),
                resolution,
            ),
            GizmoLineJoint::Bevel => b[0] == 3u8,
        }
    }

    fn read_fast<'a, S: ByteSource<'a>>(r: &mut S) -> (v: Self) {
        let ghost b = rest(r.source_buffer(), r.source_pos());
        proof {
            lemma_primitive_bytes();
        }
        let tag = r.get_u8();
        assert(rest(r.source_buffer(), r.source_pos()) =~= b.skip(1));
        assert(tag == b[0]);
        match tag {
            0 => GizmoLineJoint::NoJoint,
            1 => GizmoLineJoint::Miter,
            2 => GizmoLineJoint::Round(u32::read_fast(r)),
            3 => GizmoLineJoint::Bevel,
            _ => GizmoLineJoint::NoJoint,
        }
    }

    proof fn lemma_read_bounded(b: Seq<u8>) {
    }

    proof fn lemma_roundtrip(v: Self, tail: Seq<u8>) {
        lemma_primitive_bytes();
        let b = v.fast_bytes() + tail;
        assert(b[0] == v.fast_bytes()[0]);
        match v {
            GizmoLineJoint::Round(x) => {
                assert(b.skip(1) =~= x.fast_bytes() + tail);
                u32::lemma_roundtrip(x, tail);
            },
            _ => {},
        }
    }
}

// MARK: Styles

/// How a line is drawn along its length.
pub enum GizmoLineStyle {
    Solid,
    Dotted,
    /// Dashes: the gap and the dash length as scales of the line width
    /// (IEEE bits).
    Dashed { gap_scale: u32, line_scale: u32 },
}

impl FastWrite for GizmoLineStyle {
    open spec fn fast_bytes(&self) -> Seq<u8> {
        match self {
            GizmoLineStyle::Solid => u8_bytes(0u8),
            GizmoLineStyle::Dotted => u8_bytes(1u8),
            GizmoLineStyle::Dashed { gap_scale, line_scale } => u8_bytes(2u8)
                + gap_scale.fast_bytes() + line_scale.fast_bytes(),
        }
    }

    fn write_fast<W: ByteSink>(&self, w: &mut W) {
        proof {
            lemma_primitive_bytes();
        }
        match self {
            GizmoLineStyle::Solid => 0u8.write_fast(w),
            GizmoLineStyle::Dotted => 1u8.write_fast(w),
            GizmoLineStyle::Dashed { gap_scale, line_scale } => {
                2u8.write_fast(w);
                let ghost b1 = w.sink_buffer();
                let ghost p1 = w.sink_pos();
                gap_scale.write_fast(w);
                proof {
                    lemma_wrote_twice(
                        old(w).sink_buffer(),
                        old(w).sink_pos(),
                        b1,
                        p1,
                        w.sink_buffer(),
                        w.sink_pos(),
                        u8_bytes(2u8),
                        gap_scale.fast_bytes(),
                    );
                }
                let ghost b2 = w.sink_buffer();
                let ghost p2 = w.sink_pos();
                line_scale.write_fast(w);
                proof {
                    lemma_wrote_twice(
                        old(w).sink_buffer(),
                        old(w).sink_pos(),
                        b2,
                        p2,
                        w.sink_buffer(),
                        w.sink_pos(),
                        u8_bytes(2u8) + gap_scale.fast_bytes(),
                        line_scale.fast_bytes(),
                    );
                }
            },
        }
    }
}

impl FastRead for GizmoLineStyle {
    type Value = GizmoLineStyle;

    open spec fn fast_value(&self) -> GizmoLineStyle {
        *self
    }

    open spec fn fast_readable(b: Seq<u8>) -> bool {
        b.len() >= 1 && (b[0] == 2u8 ==> b.len() >= 9)
    }

    open spec fn fast_read_len(b: Seq<u8>) -> nat {
        if b[0] == 2u8 {
            9
        } else {
            1
        }
    }

    /// Tags past the last variant read as `Solid`.
    open spec fn fast_reads(b: Seq<u8>, v: Self) -> bool {
        match v {
            GizmoLineStyle::Solid => b[0] == 0u8 || b[0] > 2u8,
            GizmoLineStyle::Dotted => b[0] == 1u8,
            GizmoLineStyle::Dashed { gap_scale, line_scale } => {
                &&& b[0] == 2u8
                &&& u32::fast_reads(b.skip(1), gap_scale)
                &&& u32::fast_reads(b.skip(5), line_scale)
            },
        }
    }

    fn read_fast<'a, S: ByteSource<'a>>(r: &mut S) -> (v: Self) {
        let ghost b = rest(r.source_buffer(), r.source_pos());
        proof {
            lemma_primitive_bytes();
        }
        let tag = r.get_u8();
        assert(rest(r.source_buffer(), r.source_pos()) =~= b.skip(1));
        assert(tag == b[0]);
        match tag {
            0 => GizmoLineStyle::Solid,
            1 => GizmoLineStyle::Dotted,
            2 => {
                let gap_scale = u32::read_fast(r);
                assert(rest(r.source_buffer(), r.source_pos()) =~= b.skip(5));
                let line_scale = u32::read_fast(r);
                GizmoLineStyle::Dashed { gap_scale, line_scale }
            },
            _ => GizmoLineStyle::Solid,
        }
    }

    proof fn lemma_read_bounded(b: Seq<u8>) {
    }

    proof fn lemma_roundtrip(v: Self, tail: Seq<u8>) {
        lemma_primitive_bytes();
        let b = v.fast_bytes() + tail;
        assert(b[0] == v.fast_bytes()[0]);
        match v {
            GizmoLineStyle::Dashed { gap_scale, line_scale } => {
                assert(b.skip(1) =~= gap_scale.fast_bytes() + (line_scale.fast_bytes() + tail));
                assert(b.skip(5) =~= line_scale.fast_bytes() + tail);
                u32::lemma_roundtrip(gap_scale, line_scale.fast_bytes() + tail);
                u32::lemma_roundtrip(line_scale, tail);
                assert forall|w: Self| #[trigger] Self::fast_reads(b, w) implies w.fast_bytes()
                    == v.fast_bytes() by {
                    match w {
                        GizmoLineStyle::Dashed { gap_scale: g, line_scale: l } => {
                            assert(u32::fast_reads(b.skip(1), g));
                            assert(u32::fast_reads(b.skip(5), l));
                        },
                        _ => {},
                    }
                }
            },
            _ => {},
        }
    }
}

// MARK: Line configuration

/// The settings of a gizmo's lines.
pub struct GizmoLineConfig {
    /// Line width (IEEE bits).
    pub width: u32,
    /// Whether the width shrinks with distance.
    pub perspective: bool,
    pub style: GizmoLineStyle,
    pub joints: GizmoLineJoint,
}

/// Where the joint setting starts in a line configuration's bytes.
pub open spec fn joints_offset(b: Seq<u8>) -> int {
    5 + GizmoLineStyle::fast_read_len(b.skip(5)) as int
}

impl FastWrite for GizmoLineConfig {
    open spec fn fast_bytes(&self) -> Seq<u8> {
        self.width.fast_bytes() + self.perspective.fast_bytes() + self.style.fast_bytes()
            + self.joints.fast_bytes()
    }

    fn write_fast<W: ByteSink>(&self, w: &mut W) {
        proof {
            lemma_primitive_bytes();
        }
        self.width.write_fast(w);
        let ghost b1 = w.sink_buffer();
        let ghost p1 = w.sink_pos();
        self.perspective.write_fast(w);
        proof {
            lemma_wrote_twice(
                old(w).sink_buffer(),
                old(w).sink_pos(),
                b1,
                p1,
                w.sink_buffer(),
                w.sink_pos(),
                self.width.fast_bytes(),
                self.perspective.fast_bytes(),
            );
        }
        let ghost b2 = w.sink_buffer();
        let ghost p2 = w.sink_pos();
        self.style.write_fast(w);
        proof {
            lemma_wrote_twice(
                old(w).sink_buffer(),
                old(w).sink_pos(),
                b2,
                p2,
                w.sink_buffer(),
                w.sink_pos(),
                self.width.fast_bytes() + self.perspective.fast_bytes(),
                self.style.fast_bytes(),
            );
        }
        let ghost b3 = w.sink_buffer();
        let ghost p3 = w.sink_pos();
        self.joints.write_fast(w);
        proof {
            lemma_wrote_twice(
                old(w).sink_buffer(),
                old(w).sink_pos(),
                b3,
                p3,
                w.sink_buffer(),
                w.sink_pos(),
                self.width.fast_bytes() + self.perspective.fast_bytes() + self.style.fast_bytes(),
                self.joints.fast_bytes(),
            );
        }
    }
}

impl FastRead for GizmoLineConfig {
    type Value = GizmoLineConfig;

    open spec fn fast_value(&self) -> GizmoLineConfig {
        *self
    }

    open spec fn fast_readable(b: Seq<u8>) -> bool {
        &&& b.len() >= 5
        &&& GizmoLineStyle::fast_readable(b.skip(5))
        &&& GizmoLineJoint::fast_readable(b.skip(joints_offset(b)))
    }

    open spec fn fast_read_len(b: Seq<u8>) -> nat {
        (joints_offset(b) + GizmoLineJoint::fast_read_len(b.skip(joints_offset(b)))) as nat
    }

    open spec fn fast_reads(b: Seq<u8>, v: Self) -> bool {
        &&& u32::fast_reads(b, v.width)
        &&& bool::fast_reads(b.skip(4), v.perspective)
        &&& GizmoLineStyle::fast_reads(b.skip(5), v.style)
        &&& GizmoLineJoint::fast_reads(b.skip(joints_offset(b)), v.joints)
    }

    fn read_fast<'a, S: ByteSource<'a>>(r: &mut S) -> (v: Self) {
        let ghost b = rest(r.source_buffer(), r.source_pos());
        proof {
            lemma_primitive_bytes();
        }
        let width = u32::read_fast(r);
        assert(rest(r.source_buffer(), r.source_pos()) =~= b.skip(4));
        let perspective = bool::read_fast(r);
        assert(rest(r.source_buffer(), r.source_pos()) =~= b.skip(5));
        let style = GizmoLineStyle::read_fast(r);
        assert(rest(r.source_buffer(), r.source_pos()) =~= b.skip(joints_offset(b)));
        let joints = GizmoLineJoint::read_fast(r);
        GizmoLineConfig { width, perspective, style, joints }
    }

    proof fn lemma_read_bounded(b: Seq<u8>) {
    }

    proof fn lemma_roundtrip(v: Self, tail: Seq<u8>) {
        lemma_primitive_bytes();
        let sb = v.style.fast_bytes();
        let jb = v.joints.fast_bytes();
        let b = v.fast_bytes() + tail;
        assert(b =~= v.width.fast_bytes() + (v.perspective.fast_bytes() + sb + jb + tail));
        u32::lemma_roundtrip(v.width, v.perspective.fast_bytes() + sb + jb + tail);
        assert(b.skip(4) =~= v.perspective.fast_bytes() + (sb + jb + tail));
        bool::lemma_roundtrip(v.perspective, sb + jb + tail);
        assert(b.skip(5) =~= sb + (jb + tail));
        GizmoLineStyle::lemma_roundtrip(v.style, jb + tail);
        assert(joints_offset(b) == 5 + sb.len());
        assert(b.skip(joints_offset(b)) =~= jb + tail);
        GizmoLineJoint::lemma_roundtrip(v.joints, tail);
        assert forall|w: Self| #[trigger] Self::fast_reads(b, w) implies w.fast_bytes()
            == v.fast_bytes() by {
            assert(u32::fast_reads(b, w.width));
            assert(bool::fast_reads(b.skip(4), w.perspective));
            assert(GizmoLineStyle::fast_reads(b.skip(5), w.style));
            assert(GizmoLineJoint::fast_reads(b.skip(joints_offset(b)), w.joints));
        }
    }
}

} // verus!
