use arkiv::utils::{position, Slice};
use arkiv::zip::cdfh::CentralDirectoryFileHeaderReader as CdfhReader;
use arkiv::zip::cdfh_iter::CentralDirectoryFileHeaderIterator as CdfhIterator;

fn count_records(mut it: CdfhIterator<'_>) -> usize {
    let mut total: usize = 0;
    while it.next().is_some() {
        total += 1;
    }
    total
}

#[test]
fn iter_cdfh_none_on_too_small_slice() {
    let v = vec![0; CdfhReader::min_size() - 1];
    for length in 0..v.len() {
        let mut it = CdfhIterator::new(Slice::new(&v[..length]), 1);

        assert_eq!(it.next(), None);
    }
}

#[test]
fn iter_cdfh_exact_on_zeroed_slice() {
    let v = vec![0; CdfhReader::min_size() * 40];
    for count in 0..40 {
        let it = CdfhIterator::new(Slice::new(&v[..]), count);

        assert_eq!(count_records(it), count);
    }
}

#[test]
fn iter_cdfh_early_stop_on_zeroed_slice() {
    let v = vec![0; CdfhReader::min_size() * 40];
    for count in 0..40 {
        let it = CdfhIterator::new(Slice::new(&v[..CdfhReader::min_size() * count]), 50);

        assert_eq!(count_records(it), count);
    }
}

#[test]
fn iter_cdfh_early_stop_on_maxed_slice() {
    let v = vec![0xff; CdfhReader::max_size() * 40];

    for count in 0..40 {
        let it = CdfhIterator::new(Slice::new(&v[..CdfhReader::max_size() * count]), 50);

        assert_eq!(count_records(it), count);
    }
}

#[test]
fn iter_cdfh_adaptable_length_on_large_slice() {
    let min_size = CdfhReader::min_size();

    let v = {
        let mut v = vec![0; min_size * 2 + 40];
        v[32] = 22;
        v[30] = 10;
        v[28] = 8;
        v
    };

    let mut all = Vec::new();
    let mut it = CdfhIterator::new(Slice::new(&v[..]), 2);
    while let Some(cdfh) = it.next() {
        all.push(cdfh);
    }

    assert_eq!(all.len(), 2);
    assert_eq!(position(all[0].raw(), Slice::new(&v[..])), Some(0));
    assert_eq!(position(all[1].raw(), Slice::new(&v[..])), Some(min_size + 40));
}

#[test]
fn iter_cdfh_yields_consecutive_min_size_records_in_order() {
    let n = 7;
    let v = vec![0; CdfhReader::min_size() * n];
    let hay = Slice::new(&v[..]);

    let mut it = CdfhIterator::new(hay, n);
    for i in 0..n {
        let cdfh = it.next().unwrap();
        assert_eq!(position(cdfh.raw(), hay), Some(i * CdfhReader::min_size()));
    }
    assert_eq!(it.next(), None);
}

#[test]
fn iter_cdfh_stops_mid_record_on_truncated_buffer() {
    // two whole minimum-size records followed by a truncated third one
    let v = vec![0; CdfhReader::min_size() * 2 + 17];
    let it = CdfhIterator::new(Slice::new(&v[..]), 5);

    assert_eq!(count_records(it), 2);
}

#[test]
fn iter_cdfh_budget_stops_before_buffer_runs_out() {
    let v = vec![0; CdfhReader::min_size() * 10];
    let mut it = CdfhIterator::new(Slice::new(&v[..]), 3);

    assert!(it.next().is_some());
    assert!(it.next().is_some());
    assert!(it.next().is_some());
    assert_eq!(it.next(), None);
    assert_eq!(it.next(), None);
}
