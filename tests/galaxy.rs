use n_body::galaxy::{GalaxyGenerator, JITTER_MAX};

#[test]
fn jitter_values() {
    let g = GalaxyGenerator::new();
    assert_eq!(g.pseudo_random(0), 0);
    assert_eq!(g.pseudo_random(1), 16838);
    assert_eq!(g.pseudo_random(2), 908);
    assert_eq!(g.pseudo_random(500), 30545);
    assert_eq!(g.pseudo_random(2147483649), 16838);
}

#[test]
fn jitter_same_across_resets() {
    let a = GalaxyGenerator::new();
    let b = GalaxyGenerator::new();
    for i in 0..2000usize {
        let x = a.pseudo_random(i);
        assert_eq!(x, b.pseudo_random(i));
        assert!(x <= JITTER_MAX);
    }
    assert_eq!(a.pseudo_random(500), b.pseudo_random(500));
}

#[test]
fn disks_split_evenly() {
    let g = GalaxyGenerator::new();
    assert_eq!(g.disk_sizes(1000), (500, 500));
    assert_eq!(g.disk_sizes(7), (3, 3));
    assert_eq!(g.disk_sizes(0), (0, 0));
}
