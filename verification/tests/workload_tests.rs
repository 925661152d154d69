use kv_bench::workload::generate_workload;

#[test]
fn generator_produces_n_plus_one_pairs_ending_in_sentinel() {
    let pairs = generate_workload(5);
    assert_eq!(pairs.len(), 6);
    assert_eq!(pairs[5], (5, 0));
    for i in 0..5u64 {
        assert_eq!(pairs[i as usize], (i, i + 1));
    }
}

#[test]
fn generator_boundary_empty_chain() {
    let pairs = generate_workload(0);
    assert_eq!(pairs, vec![(0, 0)]);
}

#[test]
fn generator_chain_of_three() {
    let pairs = generate_workload(3);
    assert_eq!(pairs, vec![(0, 1), (1, 2), (2, 3), (3, 0)]);
}
