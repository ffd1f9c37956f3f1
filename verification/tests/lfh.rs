use arkiv::utils::Slice;
use arkiv::zip::lfh::LocalFileHeaderReader as Reader;

/// Invokes the function once for each possible u16 value after writing it in
/// little-endian at `[index, index + 1]` in the buffer.
fn test_all_u16_at<F: Fn(&[u8], u16)>(buffer: &mut [u8], index: usize, f: F) {
    for data in 0..65536u32 {
        let data = data as u16;
        buffer[index + 1] = (data >> 8) as u8;
        buffer[index] = data as u8;
        f(buffer, data)
    }
}

/// Invokes the function once for each u32 value close to 0, close to the
/// maximum, and with a scattering of values in the middle, after writing it
/// in little-endian at `[index, index + 3]` in the buffer.
fn test_some_u32_at<F: Fn(&[u8], u32)>(buffer: &mut [u8], index: usize, f: F) {
    for data in 0..65536u32 {
        write_and_test(buffer, data, index, &f);
    }
    for data in 0..65536u32 {
        write_and_test(buffer, 65536 + data * 251, index, &f);
    }
    for data in 0..65536u32 {
        write_and_test(buffer, u32::MAX - 65536 - data * 251, index, &f);
    }
    for data in 0..65536u32 {
        write_and_test(buffer, u32::MAX - data, index, &f);
    }
}

fn write_and_test<F: Fn(&[u8], u32)>(buffer: &mut [u8], data: u32, index: usize, f: &F) {
    buffer[index + 3] = (data >> 24) as u8;
    buffer[index + 2] = (data >> 16) as u8;
    buffer[index + 1] = (data >> 8) as u8;
    buffer[index] = data as u8;
    f(buffer, data)
}

#[test]
fn lfh_reader_new_failure_on_short_slice() {
    let v = vec![0; Reader::min_size() - 1];
    for length in 0..v.len() {
        assert_eq!(Reader::new(Slice::new(&v[0..length])), None);
    }
}

#[test]
fn reader_new_success_on_30_bytes_slice() {
    let v = vec![0; Reader::min_size()];
    assert!(Reader::new(Slice::new(&v)).is_some());
}

#[test]
fn reader_new_success_on_30_bytes_slice_with_nonzero_file_name_length() {
    let mut v = vec![0; Reader::min_size()];
    v[26] = 0x01; // 1 byte file name
    assert!(Reader::new(Slice::new(&v)).is_some());
}

#[test]
fn reader_new_success_on_30_bytes_slice_with_nonzero_extra_field_length() {
    let mut v = vec![0; Reader::min_size()];
    v[28] = 0x01; // 1 byte extra field
    assert!(Reader::new(Slice::new(&v)).is_some());
}

#[test]
fn reader_new_success_on_30_bytes_slice_with_all_nonzero_variables() {
    let mut v = vec![0; Reader::min_size()];
    v[26] = 0x01; // 1 byte file name
    v[28] = 0x01; // 1 byte extra field
    assert!(Reader::new(Slice::new(&v)).is_some());
}

#[test]
fn lfh_reader_signature_success_with_expected_signature() {
    let mut v = vec![0; Reader::min_size()];
    v[3] = 0x04;
    v[2] = 0x03;
    v[1] = 0x4b;
    v[0] = 0x50;
    let lfh = Reader::new(Slice::new(&v)).unwrap();
    assert_eq!(lfh.signature(), Reader::expected_signature());
}

#[test]
fn lfh_reader_signature_success_with_unexpected_signature() {
    let v = vec![0; Reader::min_size()];
    let lfh = Reader::new(Slice::new(&v)).unwrap();
    assert_eq!(lfh.signature(), 0);
}

#[test]
fn lfh_reader_version_needed_to_extract_success() {
    let mut v = vec![0; Reader::min_size()];
    test_all_u16_at(&mut v, 4, |v, version| {
        let lfh = Reader::new(Slice::new(v)).unwrap();
        assert_eq!(lfh.version_needed_to_extract(), version);
    });
}

#[test]
fn lfh_reader_general_purpose_bit_flag_success() {
    let mut v = vec![0; Reader::min_size()];
    test_all_u16_at(&mut v, 6, |v, f| {
        let lfh = Reader::new(Slice::new(v)).unwrap();
        assert_eq!(lfh.general_purpose_bit_flag(), f);
    });
}

#[test]
fn lfh_reader_compression_method_success() {
    let mut v = vec![0; Reader::min_size()];
    test_all_u16_at(&mut v, 8, |v, c| {
        let lfh = Reader::new(Slice::new(v)).unwrap();
        assert_eq!(lfh.compression_method(), c);
    });
}

#[test]
fn lfh_reader_file_last_modification_time_success() {
    let mut v = vec![0; Reader::min_size()];
    test_all_u16_at(&mut v, 10, |v, t| {
        let lfh = Reader::new(Slice::new(v)).unwrap();
        assert_eq!(lfh.file_last_modification_time(), t);
    });
}

#[test]
fn lfh_reader_file_last_modification_date_success() {
    let mut v = vec![0; Reader::min_size()];
    test_all_u16_at(&mut v, 12, |v, d| {
        let lfh = Reader::new(Slice::new(v)).unwrap();
        assert_eq!(lfh.file_last_modification_date(), d);
    });
}

#[test]
fn lfh_reader_crc32_success() {
    let mut v = vec![0; Reader::min_size()];
    test_some_u32_at(&mut v, 14, |v, crc| {
        let lfh = Reader::new(Slice::new(v)).unwrap();
        assert_eq!(lfh.crc32(), crc);
    });
}

#[test]
fn lfh_reader_compressed_size_success() {
    let mut v = vec![0; Reader::min_size()];
    test_some_u32_at(&mut v, 18, |v, size| {
        let lfh = Reader::new(Slice::new(v)).unwrap();
        assert_eq!(lfh.compressed_size(), size);
    });
}

#[test]
fn lfh_reader_uncompressed_size_success() {
    let mut v = vec![0; Reader::min_size()];
    test_some_u32_at(&mut v, 22, |v, size| {
        let lfh = Reader::new(Slice::new(v)).unwrap();
        assert_eq!(lfh.uncompressed_size(), size);
    });
}

#[test]
fn lfh_reader_file_name_size_success() {
    let mut v = vec![0; Reader::min_size()];
    test_all_u16_at(&mut v, 26, |v, size| {
        let lfh = Reader::new(Slice::new(v)).unwrap();
        assert_eq!(lfh.file_name_size(), size);
    });
}

#[test]
fn lfh_reader_extra_field_size_success() {
    let mut v = vec![0; Reader::min_size()];
    test_all_u16_at(&mut v, 28, |v, size| {
        let lfh = Reader::new(Slice::new(v)).unwrap();
        assert_eq!(lfh.extra_field_size(), size);
    });
}

#[test]
fn lfh_reader_extra_field_position_success() {
    let mut v = vec![0; Reader::min_size()];
    test_all_u16_at(&mut v, 26, |v, size| {
        let lfh = Reader::new(Slice::new(v)).unwrap();
        assert_eq!(lfh.extra_field_position(), Reader::min_size() + size as usize);
    });
}

#[test]
fn lfh_reader_file_name_success_with_zero_length() {
    let v = vec![0; Reader::min_size()];
    let lfh = Reader::new(Slice::new(&v)).unwrap();

    assert_eq!(lfh.file_name(), Some(&b""[..]));
}

#[test]
fn lfh_reader_extra_field_success_with_zero_length() {
    let v = vec![0; Reader::min_size()];
    let lfh = Reader::new(Slice::new(&v)).unwrap();

    assert_eq!(lfh.extra_field(), Some(&b""[..]));
}

#[test]
fn lfh_reader_file_name_success_with_hello_world() {
    let mut v = vec![0; Reader::min_size()];
    v.extend_from_slice(b"Hello, World!");
    v[26] = (v.len() - Reader::min_size()) as u8;

    let lfh = Reader::new(Slice::new(&v)).unwrap();

    assert_eq!(lfh.file_name(), Some(&b"Hello, World!"[..]));
}

#[test]
fn lfh_reader_extra_field_success_with_hello_world() {
    let mut v = vec![0; Reader::min_size()];
    v.extend_from_slice(b"Hello, World!");
    v[28] = (v.len() - Reader::min_size()) as u8;

    let lfh = Reader::new(Slice::new(&v)).unwrap();

    assert_eq!(lfh.extra_field(), Some(&b"Hello, World!"[..]));
}

#[test]
fn lfh_reader_file_name_success_with_max_length() {
    let mut v = vec![0; Reader::min_size()];
    v.resize(Reader::min_size() + u16::MAX as usize, 1);

    v[27] = 0xff;
    v[26] = 0xff;

    let lfh = Reader::new(Slice::new(&v)).unwrap();

    assert_eq!(lfh.file_name(), Some(&v[Reader::min_size()..]));
}

#[test]
fn lfh_reader_extra_field_success_with_max_length() {
    let mut v = vec![0; Reader::min_size()];
    v.resize(Reader::min_size() + u16::MAX as usize, 1);

    v[29] = 0xff;
    v[28] = 0xff;

    let lfh = Reader::new(Slice::new(&v)).unwrap();

    assert_eq!(lfh.extra_field(), Some(&v[Reader::min_size()..]));
}

#[test]
fn lfh_reader_file_name_failure_on_too_short_buffer() {
    let mut v = vec![0; Reader::min_size()];
    v.resize(Reader::min_size() + u16::MAX as usize - 1, 1);

    for length in 1..(u16::MAX as usize + 1) {
        v[27] = (length >> 8) as u8;
        v[26] = length as u8;

        let slice = &v[0..(Reader::min_size() + length - 1)];

        let lfh = Reader::new(Slice::new(slice)).unwrap();

        assert_eq!(lfh.file_name(), None);
    }
}

#[test]
fn lfh_reader_extra_field_failure_on_too_short_buffer() {
    let mut v = vec![0; Reader::min_size()];
    v.resize(Reader::min_size() + u16::MAX as usize - 1, 1);

    for length in 1..(u16::MAX as usize + 1) {
        v[29] = (length >> 8) as u8;
        v[28] = length as u8;

        let slice = &v[0..(Reader::min_size() + length - 1)];

        let lfh = Reader::new(Slice::new(slice)).unwrap();

        assert_eq!(lfh.extra_field(), None);
    }
}

#[test]
fn lfh_reader_all_variables_success_with_hello_world() {
    let hello_file = &b"Hello, File!"[..];
    let hello_extra = &b"Hello, Extra!"[..];

    let mut v = vec![0; Reader::min_size()];
    v.extend_from_slice(hello_file);
    v.extend_from_slice(hello_extra);

    v[26] = hello_file.len() as u8;
    v[28] = hello_extra.len() as u8;

    let lfh = Reader::new(Slice::new(&v)).unwrap();

    assert_eq!(lfh.file_name(), Some(hello_file));
    assert_eq!(lfh.extra_field(), Some(hello_extra));
}
