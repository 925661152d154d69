use kv_bench::backend::Backend;
use kv_bench::error::StoreError;
use kv_bench::persistent::PersistentBackend;
use kv_bench::runner::{sled_persistent_benchmark, traverse, write_phase};

#[test]
fn persistent_put_get_round_trip() {
    let mut b = PersistentBackend::open("/tmp/kv_bench_test_roundtrip").unwrap();
    for (k, v) in [(0u64, 1u64), (1, 2), (7, 0), (u64::MAX, 42)] {
        assert_eq!(b.put(k, v), Ok(()));
        assert_eq!(b.get(k), Ok(v));
    }
}

#[test]
fn persistent_put_overwrites() {
    let mut b = PersistentBackend::open("/tmp/kv_bench_test_overwrite").unwrap();
    assert_eq!(b.put(1, 2), Ok(()));
    assert_eq!(b.put(1, 9), Ok(()));
    assert_eq!(b.get(1), Ok(9));
}

#[test]
fn persistent_never_written_key_is_not_found() {
    let mut b = PersistentBackend::open("/tmp/kv_bench_test_notfound").unwrap();
    assert_eq!(b.put(1, 2), Ok(()));
    // this test never writes key 424242 at this path
    assert_eq!(b.get(424242), Err(StoreError::NotFound));
}

#[test]
fn persistent_traversal_of_chain_of_three_visits_1_2_3() {
    let mut b = PersistentBackend::open("/tmp/kv_bench_test_traverse").unwrap();
    assert_eq!(write_phase(&mut b, 3), Ok(()));
    assert_eq!(b.get(1), Ok(2));
    assert_eq!(b.get(2), Ok(3));
    assert_eq!(b.get(3), Ok(0));
    assert_eq!(traverse(&b, 3), Ok(vec![1, 2, 3]));
}

#[test]
fn persistent_traversal_is_idempotent() {
    let mut b = PersistentBackend::open("/tmp/kv_bench_test_idempotent").unwrap();
    assert_eq!(write_phase(&mut b, 10), Ok(()));
    let first = traverse(&b, 10);
    let second = traverse(&b, 10);
    assert_eq!(first, second);
    assert_eq!(first, Ok((1..=10).collect::<Vec<u64>>()));
}

#[test]
fn sled_persistent_benchmark_succeeds_on_nonempty_chain() {
    assert!(sled_persistent_benchmark("/tmp/kv_bench_test_bench", 50).is_ok());
}
