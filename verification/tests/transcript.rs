use tephrite_rs::fast_io::ByteReader;
use tephrite_rs::transcript::{
    deserialize, deserialize_pod_slice, serialize, serialize_pod_slice, TDeserialize, TSerialize,
};

#[test]
fn primitives_and_guard_roundtrip() {
    const SCRIBBLE_GUARD: u32 = 0xDEADBEEFu32;
    let mut bytes = Vec::<u8>::new();
    24i8.serialize(&mut bytes);
    [4i16, 5, 1134].iter().for_each(|x| x.serialize(&mut bytes));
    SCRIBBLE_GUARD.serialize(&mut bytes);
    assert_eq!(bytes.len(), 1 + 6 + 4);

    let mut reader = ByteReader::new(&bytes);
    assert_eq!(i8::deserialize(&mut reader), 24);
    assert_eq!(i16::deserialize(&mut reader), 4);
    assert_eq!(i16::deserialize(&mut reader), 5);
    assert_eq!(i16::deserialize(&mut reader), 1134);
    assert_eq!(u32::deserialize(&mut reader), SCRIBBLE_GUARD, "size guard check");
}

#[test]
fn strings_vectors_options_tuples_roundtrip() {
    let mut bytes = Vec::<u8>::new();
    serialize(&"Hello, world!".to_string(), &mut bytes);
    serialize(&vec![Some(3u32), None], &mut bytes);
    serialize(&(true, 9u64), &mut bytes);
    serialize(&(1u8, 2u16, "x".to_string()), &mut bytes);
    serialize_pod_slice(&[7i32, -7], &mut bytes);

    let mut reader = ByteReader::new(&bytes);
    assert_eq!(deserialize::<String, _>(&mut reader), "Hello, world!");
    assert_eq!(deserialize::<Vec<Option<u32>>, _>(&mut reader), vec![Some(3), None]);
    assert_eq!(deserialize::<(bool, u64), _>(&mut reader), (true, 9));
    assert_eq!(deserialize::<(u8, u16, String), _>(&mut reader), (1, 2, "x".to_string()));
    assert_eq!(deserialize_pod_slice::<i32, _>(&mut reader), vec![7, -7]);
    assert_eq!(reader.position(), bytes.len());
}

#[test]
fn option_is_bool_then_value() {
    let mut bytes = Vec::<u8>::new();
    Some(5u8).serialize(&mut bytes);
    None::<u8>.serialize(&mut bytes);
    assert_eq!(bytes, vec![1, 5, 0]);
}
