use kv_bench::backend::Backend;
use kv_bench::error::{BenchmarkError, StoreError};
use kv_bench::memory::InMemoryBackend;
use kv_bench::runner::{hashmap_benchmark, run_benchmark, traverse, write_phase};

#[test]
fn put_get_round_trip() {
    let mut b = InMemoryBackend::new();
    for (k, v) in [(0u64, 1u64), (1, 2), (7, 0), (u64::MAX, 42)] {
        assert_eq!(b.put(k, v), Ok(()));
        assert_eq!(b.get(k), Ok(v));
    }
}

#[test]
fn put_overwrites() {
    let mut b = InMemoryBackend::new();
    assert_eq!(b.put(1, 2), Ok(()));
    assert_eq!(b.put(1, 9), Ok(()));
    assert_eq!(b.get(1), Ok(9));
}

#[test]
fn get_never_written_key_is_not_found() {
    let mut b = InMemoryBackend::new();
    assert_eq!(b.put(1, 2), Ok(()));
    assert_eq!(b.get(5), Err(StoreError::NotFound));
}

#[test]
fn value_of_wrong_length_is_decode_error() {
    let mut b = InMemoryBackend::new();
    assert_eq!(b.put_raw(3, vec![1, 2, 3]), Ok(()));
    assert_eq!(b.get(3), Err(StoreError::DecodeError));
}

#[test]
fn traversal_of_chain_of_three_visits_1_2_3() {
    let mut b = InMemoryBackend::new();
    assert_eq!(write_phase(&mut b, 3), Ok(()));
    assert_eq!(b.get(1), Ok(2));
    assert_eq!(b.get(2), Ok(3));
    assert_eq!(b.get(3), Ok(0));
    assert_eq!(traverse(&b, 3), Ok(vec![1, 2, 3]));
}

#[test]
fn traversal_is_idempotent() {
    let mut b = InMemoryBackend::new();
    assert_eq!(write_phase(&mut b, 10), Ok(()));
    let first = traverse(&b, 10);
    let second = traverse(&b, 10);
    assert_eq!(first, second);
    assert_eq!(first, Ok((1..=10).collect::<Vec<u64>>()));
}

#[test]
fn traversal_of_empty_chain_is_not_found() {
    let mut b = InMemoryBackend::new();
    assert_eq!(write_phase(&mut b, 0), Ok(()));
    assert_eq!(b.get(0), Ok(0));
    assert_eq!(traverse(&b, 0), Err(StoreError::NotFound));
}

#[test]
fn run_benchmark_visits_whole_chain() {
    let mut b = InMemoryBackend::new();
    let outcome = run_benchmark(&mut b, 100).unwrap();
    assert_eq!(outcome.visited, (1..=100).collect::<Vec<u64>>());
}

#[test]
fn hashmap_benchmark_succeeds_on_nonempty_chain() {
    assert!(hashmap_benchmark(1000).is_ok());
}

#[test]
fn hashmap_benchmark_empty_chain_fails_with_not_found() {
    assert_eq!(
        hashmap_benchmark(0),
        Err(BenchmarkError::ReadFailed(StoreError::NotFound))
    );
}
