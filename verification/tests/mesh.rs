use tephrite_rs::fast_io::{ByteReader, ByteWriter};
use tephrite_rs::fast_ser::{FastRead, FastWrite};
use tephrite_rs::mesh::{Indices, VertexAttributeValues};
use tephrite_rs::transcript::{deserialize, serialize};

fn roundtrip<T: FastWrite + FastRead>(x: &T) -> T {
    let mut buf = [0u8; 2048];
    let mut w = ByteWriter::new(&mut buf);
    x.write_fast(&mut w);
    let mut r = ByteReader::new(&buf);
    T::read_fast(&mut r)
}

fn bits3(v: [f32; 3]) -> [u32; 3] {
    [v[0].to_bits(), v[1].to_bits(), v[2].to_bits()]
}

#[test]
fn indices_roundtrip_u16() {
    let idx = Indices::U16(vec![0, 1, 2, 2, 3, 0]);
    let out = roundtrip(&idx);

    match (idx, out) {
        (Indices::U16(items), Indices::U16(items2)) => assert_eq!(items, items2),
        _ => panic!("Mismatch"),
    }
}

#[test]
fn indices_roundtrip_u32() {
    let idx = Indices::U32(vec![0, 1, 2, 2, 3, 0]);
    let out = roundtrip(&idx);
    match (idx, out) {
        (Indices::U32(items), Indices::U32(items2)) => assert_eq!(items, items2),
        _ => panic!("Mismatch"),
    }
}

#[test]
fn vertex_attribute_values_roundtrip() {
    let v = VertexAttributeValues::Float32x3(vec![bits3([1.0, 2.0, 3.0]), bits3([4.5, 6.25, 8.125])]);
    let out = roundtrip(&v);

    match (v, out) {
        (VertexAttributeValues::Float32x3(x), VertexAttributeValues::Float32x3(y)) => {
            assert_eq!(x, y)
        }
        _ => panic!("Mismatch"),
    }
}

#[test]
fn vertex_attribute_layout_is_tag_count_then_components() {
    let v = VertexAttributeValues::Uint16x2(vec![[1, 2], [3, 4]]);
    let mut buf = [0u8; 64];
    let mut w = ByteWriter::new(&mut buf);
    v.write_fast(&mut w);
    let n = w.position();
    let mut expected = vec![14u8];
    expected.extend_from_slice(&2usize.to_ne_bytes());
    for c in [1u16, 2, 3, 4] {
        expected.extend_from_slice(&c.to_ne_bytes());
    }
    assert_eq!(&buf[..n], &expected[..]);
}

#[test]
fn every_attribute_format_keeps_its_tag() {
    let all = vec![
        VertexAttributeValues::Float32(vec![1]),
        VertexAttributeValues::Sint32(vec![-1]),
        VertexAttributeValues::Uint32(vec![2]),
        VertexAttributeValues::Float32x2(vec![[1, 2]]),
        VertexAttributeValues::Sint32x2(vec![[-1, 2]]),
        VertexAttributeValues::Uint32x2(vec![[1, 2]]),
        VertexAttributeValues::Float32x3(vec![[1, 2, 3]]),
        VertexAttributeValues::Sint32x3(vec![[1, -2, 3]]),
        VertexAttributeValues::Uint32x3(vec![[1, 2, 3]]),
        VertexAttributeValues::Float32x4(vec![[1, 2, 3, 4]]),
        VertexAttributeValues::Sint32x4(vec![[1, 2, 3, -4]]),
        VertexAttributeValues::Uint32x4(vec![[1, 2, 3, 4]]),
        VertexAttributeValues::Sint16x2(vec![[-1, 2]]),
        VertexAttributeValues::Snorm16x2(vec![[1, -2]]),
        VertexAttributeValues::Uint16x2(vec![[1, 2]]),
        VertexAttributeValues::Unorm16x2(vec![[1, 2]]),
        VertexAttributeValues::Sint16x4(vec![[1, 2, 3, 4]]),
        VertexAttributeValues::Snorm16x4(vec![[1, 2, 3, 4]]),
        VertexAttributeValues::Uint16x4(vec![[1, 2, 3, 4]]),
        VertexAttributeValues::Unorm16x4(vec![[1, 2, 3, 4]]),
        VertexAttributeValues::Sint8x2(vec![[-1, 2]]),
        VertexAttributeValues::Snorm8x2(vec![[1, -2]]),
        VertexAttributeValues::Uint8x2(vec![[1, 2]]),
        VertexAttributeValues::Unorm8x2(vec![[1, 2]]),
        VertexAttributeValues::Sint8x4(vec![[1, 2, 3, 4]]),
        VertexAttributeValues::Snorm8x4(vec![[1, 2, 3, 4]]),
        VertexAttributeValues::Uint8x4(vec![[1, 2, 3, 4]]),
        VertexAttributeValues::Unorm8x4(vec![[1, 2, 3, 4]]),
    ];
    for (tag, v) in all.iter().enumerate() {
        let mut buf = [0u8; 64];
        let mut w = ByteWriter::new(&mut buf);
        v.write_fast(&mut w);
        let n = w.position();
        assert_eq!(buf[0] as usize, tag);

        let mut t: Vec<u8> = Vec::new();
        serialize(v, &mut t);
        assert_eq!(&t[..], &buf[..n]);

        let mut r = ByteReader::new(&buf[..n]);
        let back = VertexAttributeValues::read_fast(&mut r);
        let mut again = [0u8; 64];
        let mut w2 = ByteWriter::new(&mut again);
        back.write_fast(&mut w2);
        assert_eq!(&again[..n], &buf[..n]);

        let mut r = ByteReader::new(&t);
        let back: VertexAttributeValues = deserialize(&mut r);
        let mut t2: Vec<u8> = Vec::new();
        serialize(&back, &mut t2);
        assert_eq!(t2, t);
    }
}

#[test]
fn indices_in_transcripts_roundtrip() {
    let mut t: Vec<u8> = Vec::new();
    serialize(&Indices::U32(vec![7, 8]), &mut t);
    assert_eq!(t[0], 1);
    let mut r = ByteReader::new(&t);
    match deserialize::<Indices, _>(&mut r) {
        Indices::U32(v) => assert_eq!(v, vec![7, 8]),
        _ => panic!("Mismatch"),
    }
}
