use arkiv::utils::{intersect_slice, position, read_u16_le, read_u32_le, skip, slice, take, Slice};

#[test]
fn slice_success_with_zero_range_on_empty_slice() {
    assert_eq!(slice(&[], 0, 0), Some(&[][..]));
}

#[test]
fn slice_failure_with_invalid_range_on_empty_slice() {
    for i in 1..100 {
        let begin = i * 7919;
        assert_eq!(slice(&[], begin, begin - i), None);
    }
}

#[test]
fn slice_failure_with_non_empty_range_on_empty_slice() {
    for i in 1..100 {
        let begin = i * 7919;
        assert_eq!(slice(&[], begin, begin + i), None);
    }
}

#[test]
fn slice_success_length_matches_range() {
    let v: Vec<u8> = (0..50u8).collect();
    for start in 0..=v.len() {
        for end in start..=v.len() {
            let s = slice(&v, start, end).unwrap();
            assert_eq!(s.len(), end - start);
            assert_eq!(s, &v[start..end]);
        }
    }
}

#[test]
fn slice_failure_past_the_end() {
    let v = [1u8, 2, 3];
    assert_eq!(slice(&v, 0, 4), None);
    assert_eq!(slice(&v, 2, 1), None);
    assert_eq!(slice(&v, 4, 4), None);
}

#[test]
fn bounded_slice_mirrors_free_slice() {
    let v = [10u8, 11, 12, 13, 14];
    let s = Slice::new(&v);
    assert_eq!(s.len(), 5);
    assert_eq!(s.raw(), &v[..]);
    assert_eq!(s.get(0), Some(10));
    assert_eq!(s.get(4), Some(14));
    assert_eq!(s.get(5), None);
    let sub = s.slice(1, 4).unwrap();
    assert_eq!(sub.raw(), &v[1..4]);
    assert_eq!(s.slice(1, 6), None);
    assert_eq!(s.slice(3, 2), None);
}

#[test]
fn bounded_slice_skip_and_take_clamp() {
    let v = [1u8, 2, 3, 4];
    let s = Slice::new(&v);
    assert_eq!(s.skip(1).raw(), &v[1..]);
    assert_eq!(s.skip(9).raw(), &[][..]);
    assert_eq!(s.take(2).raw(), &v[..2]);
    assert_eq!(s.take(9).raw(), &v[..]);
    assert_eq!(skip(&v, 3), &v[3..]);
    assert_eq!(skip(&v, 100), &[][..]);
    assert_eq!(take(&v, 0), &[][..]);
    assert_eq!(take(&v, 100), &v[..]);
}

#[test]
fn position_tracks_sub_slice_offsets() {
    let v = [0u8; 16];
    let hay = Slice::new(&v);
    let sub = hay.slice(5, 12).unwrap();
    assert_eq!(position(sub, hay), Some(5));
    assert_eq!(sub.position(hay), Some(5));
    assert_eq!(position(hay, sub), None);
    let tail = hay.skip(16);
    assert_eq!(position(tail, hay), None);
}

#[test]
fn intersect_slice_clamps_to_buffer() {
    let v = [1u8, 2, 3, 4, 5];
    assert_eq!(intersect_slice(&v, 1, 3), &v[1..3]);
    assert_eq!(intersect_slice(&v, 3, 99), &v[3..]);
    assert_eq!(intersect_slice(&v, 9, 12), &[][..]);
    assert_eq!(intersect_slice(&v, 3, 1), &[][..]);
    assert_eq!(intersect_slice(&v, 5, 5), &[][..]);
}

#[test]
fn read_u16_le_round_trips_all_values() {
    let mut v = [0u8; 2];
    for data in 0..65536u32 {
        let data = data as u16;
        v[1] = (data >> 8) as u8;
        v[0] = data as u8;
        assert_eq!(read_u16_le(Slice::new(&v)), Some(data));
    }
}

#[test]
fn read_u16_le_fails_on_short_slices() {
    assert_eq!(read_u16_le(Slice::new(&[])), None);
    assert_eq!(read_u16_le(Slice::new(&[0x42])), None);
}

#[test]
fn read_u32_le_round_trips_sample_values() {
    let samples = [
        0u32,
        1,
        0xff,
        0x100,
        0xdead,
        0x10000,
        0xdeadbeef,
        0x7fffffff,
        0x80000000,
        u32::MAX - 1,
        u32::MAX,
    ];
    let mut v = [0u8; 4];
    for &data in samples.iter() {
        v[3] = (data >> 24) as u8;
        v[2] = (data >> 16) as u8;
        v[1] = (data >> 8) as u8;
        v[0] = data as u8;
        assert_eq!(read_u32_le(Slice::new(&v)), Some(data));
    }
}

#[test]
fn read_u32_le_fails_on_short_slices() {
    assert_eq!(read_u32_le(Slice::new(&[])), None);
    assert_eq!(read_u32_le(Slice::new(&[1, 2, 3])), None);
}
