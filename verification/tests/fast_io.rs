use tephrite_rs::fast_io::{ByteReader, ByteSink, ByteSource, ByteWriter};

#[test]
fn test_byte_roundtrip() {
    let mut buffer = vec![0u8; 1024];
    {
        let mut writer = ByteWriter::new(&mut buffer);

        // Test writing primitives
        writer.put_u8(255);
        writer.put_i8(-127);
        writer.put_u16(49152); // 0xC000 in hex
        writer.put_i16(-32768); // 0x8000 in hex
        writer.put_u32(4294967295); // 0xFFFFFFFF in hex
        writer.put_i32(-2147483648); // 0x80000000 in hex
        // floats are written by their bit patterns
        writer.put_u32(3.14f32.to_bits());
        writer.put_u64(2.71828f64.to_bits());
        writer.put_usize(usize::MAX);
        writer.put_isize(isize::MIN);

        // Test writing a boolean and string
        writer.put_bool(true);
        writer.put_str("Hello, world!");

        assert_eq!(writer.position(), 64); // Total bytes written
    }

    let mut reader = ByteReader::new(&buffer);

    // Test reading primitives
    assert_eq!(reader.get_u8(), 255);
    assert_eq!(reader.get_i8(), -127);
    assert_eq!(reader.get_u16(), 49152); // 0xC000 in hex
    assert_eq!(reader.get_i16(), -32768); // 0x8000 in hex
    assert_eq!(reader.get_u32(), 4294967295); // 0xFFFFFFFF in hex
    assert_eq!(reader.get_i32(), -2147483648); // 0x80000000 in hex
    assert_eq!(f32::from_bits(reader.get_u32()), 3.14);
    assert_eq!(f64::from_bits(reader.get_u64()), 2.71828);
    assert_eq!(reader.get_usize(), usize::MAX);
    assert_eq!(reader.get_isize(), isize::MIN);

    // Test reading a boolean and string
    assert_eq!(reader.get_bool(), true);
    assert_eq!(reader.get_string(), "Hello, world!");

    assert_eq!(reader.position(), 64); // Total bytes read
}

#[test]
fn primitives_use_native_byte_order() {
    let mut buffer = vec![0u8; 16];
    {
        let mut writer = ByteWriter::new(&mut buffer);
        writer.put_u32(0x0102_0304);
        writer.put_i16(-2);
        assert_eq!(writer.position(), 6);
        assert_eq!(writer.remaining(), 10);
    }
    assert_eq!(&buffer[0..4], &0x0102_0304u32.to_ne_bytes());
    assert_eq!(&buffer[4..6], &(-2i16).to_ne_bytes());
}

#[test]
fn writer_with_position_writes_after_it() {
    let mut buffer = vec![7u8; 8];
    {
        let mut writer = ByteWriter::new_with_position(&mut buffer, 3);
        writer.put_bytes(&[1, 2]);
        assert_eq!(writer.position(), 5);
    }
    assert_eq!(buffer, vec![7, 7, 7, 1, 2, 7, 7, 7]);
}

#[test]
fn reader_takes_bytes_in_order() {
    let mut buffer = vec![1u8, 2, 3, 4, 5];
    let mut reader = ByteReader::new_with_position(&mut buffer, 1);
    assert_eq!(reader.remaining(), 4);
    assert_eq!(reader.take_bytes(2), &[2, 3]);
    let mut out = [0u8; 2];
    reader.take_bytes_to(&mut out);
    assert_eq!(out, [4, 5]);
    assert_eq!(reader.position(), 5);
    assert_eq!(reader.remaining(), 0);
}

#[test]
fn any_nonzero_byte_reads_as_true() {
    let buffer = vec![2u8, 0];
    let mut reader = ByteReader::new(&buffer);
    assert!(reader.get_bool());
    assert!(!reader.get_bool());
}

#[test]
fn string_is_length_then_utf8_bytes() {
    let mut buffer = vec![0u8; 32];
    {
        let mut writer = ByteWriter::new(&mut buffer);
        writer.put_str("h\u{e9}");
        assert_eq!(writer.position(), 8 + 3);
    }
    assert_eq!(&buffer[0..8], &3u64.to_ne_bytes());
    assert_eq!(&buffer[8..11], "h\u{e9}".as_bytes());
    let mut reader = ByteReader::new(&buffer);
    assert_eq!(reader.get_string(), "h\u{e9}");
}
