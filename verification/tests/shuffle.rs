use sonic_flow::shuffle::fisher_yates_shuffle;

#[test]
fn seeded_shuffle_gives_fixed_order() {
    let mut v: Vec<usize> = (0..5).collect();
    fisher_yates_shuffle(&mut v, 42);
    assert_eq!(v, vec![4, 3, 0, 2, 1]);
}

#[test]
fn seeded_shuffle_of_eight_with_zero_seed() {
    let mut v: Vec<usize> = (0..8).collect();
    fisher_yates_shuffle(&mut v, 0);
    assert_eq!(v, vec![5, 1, 2, 3, 7, 4, 6, 0]);
}

#[test]
fn shuffle_of_short_vectors_changes_nothing() {
    let mut one: Vec<usize> = vec![0];
    fisher_yates_shuffle(&mut one, 7);
    assert_eq!(one, vec![0]);
    let mut none: Vec<usize> = Vec::new();
    fisher_yates_shuffle(&mut none, 7);
    assert!(none.is_empty());
}

#[test]
fn same_seed_same_order() {
    let mut a: Vec<usize> = (0..20).collect();
    let mut b: Vec<usize> = (0..20).collect();
    fisher_yates_shuffle(&mut a, 123456789);
    fisher_yates_shuffle(&mut b, 123456789);
    assert_eq!(a, b);
    let mut sorted = a.clone();
    sorted.sort();
    assert_eq!(sorted, (0..20).collect::<Vec<usize>>());
}

#[test]
fn seed_mixes_seconds_and_nanoseconds() {
    assert_eq!(sonic_flow::clock::seed_from_epoch(Some((1, 5))), (1u64 << 32) ^ 5);
    assert_eq!(sonic_flow::clock::seed_from_epoch(Some((0, 999_999_999))), 999_999_999);
    assert_eq!(sonic_flow::clock::seed_from_epoch(None), 0xdeadbeef_cafebabe);
    let s = sonic_flow::clock::clock_seed();
    assert!((s & 0xffff_ffff) < 1_000_000_000 || s == 0xdeadbeef_cafebabe);
}
