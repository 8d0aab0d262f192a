use tephrite_rs::fast_io::{ByteReader, ByteWriter};
use tephrite_rs::fast_ser::{read_fast, read_pod_vec, write_pod_slice, FastRead, FastWrite};

fn make_buffer() -> Vec<u8> {
    vec![0u8; 1024]
}

#[test]
fn test_fast_write_read_primitives() {
    let mut buffer = make_buffer();
    {
        let mut writer = ByteWriter::new(&mut buffer);

        // Write primitives using FastWrite
        42_u32.write_fast(&mut writer);
        (-42_i32).write_fast(&mut writer);
        true.write_fast(&mut writer);
        "Hello, world!".to_string().write_fast(&mut writer);
    }

    let mut reader = ByteReader::new(&buffer);

    // Read primitives using FastRead
    assert_eq!(u32::read_fast(&mut reader), 42_u32);
    assert_eq!(i32::read_fast(&mut reader), -42_i32);
    assert_eq!(bool::read_fast(&mut reader), true);
    assert_eq!(String::read_fast(&mut reader), "Hello, world!".to_string());
}

#[test]
fn test_fast_write_read_vectors() {
    let mut buffer = make_buffer();
    {
        let mut writer = ByteWriter::new(&mut buffer);

        // Write a vector of integers
        vec![42, -42].as_slice().write_fast(&mut writer);
    }

    let mut reader = ByteReader::new(&buffer);

    // Read the vector back
    assert_eq!(Vec::<i32>::read_fast(&mut reader), vec![42, -42]);
}

#[test]
fn test_fast_write_read_option() {
    let mut buffer = make_buffer();
    {
        let mut writer = ByteWriter::new(&mut buffer);

        // Write an Option
        Some(42).write_fast(&mut writer);
        None::<i32>.write_fast(&mut writer);
    }

    let mut reader = ByteReader::new(&buffer);

    // Read the Option back
    assert_eq!(Option::<i32>::read_fast(&mut reader), Some(42));
    assert_eq!(Option::<i32>::read_fast(&mut reader), None);
}

#[test]
fn test_fast_write_read_result() {
    let mut buffer = make_buffer();
    {
        let mut writer = ByteWriter::new(&mut buffer);

        // Write a Result
        Result::<i32, i32>::Ok(42).write_fast(&mut writer);
        Result::<i32, i32>::Err(-42).write_fast(&mut writer);
    }

    let mut reader = ByteReader::new(&buffer);

    // Read the Result back
    assert_eq!(Result::<i32, i32>::read_fast(&mut reader), Ok(42));
    assert_eq!(Result::<i32, i32>::read_fast(&mut reader), Err(-42));
}

#[test]
fn test_fast_write_read_tuples() {
    let mut buffer = make_buffer();
    {
        let mut writer = ByteWriter::new(&mut buffer);

        // Write a tuple
        (42, -42).write_fast(&mut writer);
    }

    let mut reader = ByteReader::new(&buffer);

    type ThisTuple = (i32, i32);

    // Read the tuple back
    assert_eq!(ThisTuple::read_fast(&mut reader), (42, -42));
}

#[test]
fn option_tags_and_layout() {
    let mut buffer = make_buffer();
    {
        let mut writer = ByteWriter::new(&mut buffer);
        Some(7u16).write_fast(&mut writer);
        None::<u16>.write_fast(&mut writer);
        assert_eq!(writer.position(), 1 + 2 + 1);
    }
    assert_eq!(buffer[0], 1);
    assert_eq!(&buffer[1..3], &7u16.to_ne_bytes());
    assert_eq!(buffer[3], 0);
}

#[test]
fn result_tags_and_boxes_and_triples() {
    let mut buffer = make_buffer();
    {
        let mut writer = ByteWriter::new(&mut buffer);
        Result::<u8, String>::Err("no".to_string()).write_fast(&mut writer);
        Box::new(9u64).write_fast(&mut writer);
        (1u8, true, -3i64).write_fast(&mut writer);
        (&5u8).write_fast(&mut writer);
        "ab".write_fast(&mut writer);
    }
    assert_eq!(buffer[0], 0);
    let mut reader = ByteReader::new(&buffer);
    assert_eq!(Result::<u8, String>::read_fast(&mut reader), Err("no".to_string()));
    assert_eq!(*Box::<u64>::read_fast(&mut reader), 9);
    assert_eq!(<(u8, bool, i64)>::read_fast(&mut reader), (1, true, -3));
    assert_eq!(read_fast::<u8, _>(&mut reader), 5);
    assert_eq!(read_fast::<String, _>(&mut reader), "ab");
}

#[test]
fn pod_slices_are_length_then_elements() {
    let mut buffer = make_buffer();
    {
        let mut writer = ByteWriter::new(&mut buffer);
        write_pod_slice(&[1u16, 2, 3], &mut writer);
        vec![-1i8, 5].write_fast(&mut writer);
        Vec::<u32>::new().write_fast(&mut writer);
        assert_eq!(writer.position(), 8 + 6 + 8 + 2 + 8);
    }
    assert_eq!(&buffer[0..8], &3u64.to_ne_bytes());
    assert_eq!(&buffer[8..10], &1u16.to_ne_bytes());
    let mut reader = ByteReader::new(&buffer);
    assert_eq!(read_pod_vec::<u16, _>(&mut reader), vec![1, 2, 3]);
    assert_eq!(Vec::<i8>::read_fast(&mut reader), vec![-1, 5]);
    assert_eq!(Vec::<u32>::read_fast(&mut reader), Vec::<u32>::new());
}
