use n_body::partition::partition;

fn gather(chunks: &[(usize, usize)], f: impl Fn(usize) -> u64) -> Vec<u64> {
    let mut out = Vec::new();
    for &(a, b) in chunks {
        for i in a..b {
            out.push(f(i));
        }
    }
    out
}

#[test]
fn splits_into_even_chunks() {
    assert_eq!(partition(10, 3), vec![(0, 4), (4, 8), (8, 10)]);
    assert_eq!(partition(9, 3), vec![(0, 3), (3, 6), (6, 9)]);
}

#[test]
fn zero_workers_means_one() {
    assert_eq!(partition(5, 0), vec![(0, 5)]);
}

#[test]
fn empty_range_has_no_chunks() {
    assert!(partition(0, 4).is_empty());
}

#[test]
fn more_workers_than_indices() {
    assert_eq!(partition(2, 8), vec![(0, 1), (1, 2)]);
}

#[test]
fn output_same_for_every_pool_size() {
    let f = |i: usize| (i as u64) * (i as u64) + 7;
    for n in 2..40usize {
        let reference = gather(&partition(n, 1), f);
        assert_eq!(reference.len(), n);
        for w in 2..12usize {
            assert_eq!(gather(&partition(n, w), f), reference);
        }
    }
}
