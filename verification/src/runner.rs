//! The benchmark runner: drives the generated workload through a backend's
//! write path, then performs the pointer-chasing read traversal, timing
//! each phase.

use vstd::prelude::*;
use crate::backend::{Backend, lookup};
use crate::codec::{be_bytes, lemma_be_round_trip, lemma_be_bytes_distinct, lemma_be_bytes_injective};
use crate::error::{BenchmarkError, StoreError};
use crate::memory::InMemoryBackend;
use crate::persistent::PersistentBackend;
use crate::timer::Timer;
use crate::workload::{chain_keys, chain_value, generate_workload};

verus! {

broadcast use lemma_be_bytes_distinct;

/// The wall-clock nanoseconds of one backend's two phases.
pub struct PhaseTiming {
    pub write_nanos: u128,
    pub read_nanos: u128,
}

/// The outcome of one backend's run: the keys the read traversal visited,
/// in order, and the durations of the two phases.
pub struct BenchmarkOutcome {
    pub visited: Vec<u64>,
    pub timing: PhaseTiming,
}

/// What a completed write phase leaves behind: every chain key `0..=size`
/// maps to the encoding of its chain value, and no key outside the old
/// contents and the chain was added.
pub open spec fn chain_populated(
    before: Map<Seq<u8>, Seq<u8>>,
    after: Map<Seq<u8>, Seq<u8>>,
    size: u64,
) -> bool {
    &&& forall|i: u64|
        i <= size ==> #[trigger] after.contains_key(be_bytes(i)) && after[be_bytes(i)]
            == be_bytes(chain_value(i, size))
    &&& forall|k: Seq<u8>|
        #[trigger] after.contains_key(k) ==> before.contains_key(k) || (exists|i: u64|
            i <= size && k == #[trigger] be_bytes(i))
}

/// A store correctly populated for a traversal of a chain of length
/// `size`: each key `1..=size` holds the encoding of the next key (or of
/// the sentinel at the last), and for the degenerate empty chain, key `1`
/// is absent.
pub open spec fn chain_ready(c: Map<Seq<u8>, Seq<u8>>, size: u64) -> bool {
    &&& forall|i: u64|
        1 <= i <= size ==> #[trigger] c.contains_key(be_bytes(i)) && c[be_bytes(i)] == be_bytes(
            chain_value(i, size),
        )
    &&& size == 0 ==> !c.contains_key(be_bytes(1))
}

/// A completed write phase over a backend that did not already hold key
/// `1` leaves the store ready for the traversal.
pub proof fn lemma_populated_is_ready(
    before: Map<Seq<u8>, Seq<u8>>,
    after: Map<Seq<u8>, Seq<u8>>,
    size: u64,
)
    requires
        chain_populated(before, after, size),
        size == 0 ==> !before.contains_key(be_bytes(1)),
    ensures
        chain_ready(after, size),
{
    if size == 0 && after.contains_key(be_bytes(1)) {
        let i = choose|i: u64| i <= size && be_bytes(1) == #[trigger] be_bytes(i);
        assert(be_bytes(1) == be_bytes(i));
    }
}

/// Write the whole workload for a chain of length `size` into `b`:
/// `put(i, i + 1)` for each `i < size`, then the sentinel `put(size, 0)`.
/// The first failing `put` aborts the phase.
pub fn write_phase<B: Backend>(b: &mut B, size: u64) -> (r: Result<(), StoreError>)
    requires
        size + 1 <= usize::MAX,
    ensures
        final(b).io_free() == old(b).io_free(),
        r is Ok ==> chain_populated(old(b).contents(), final(b).contents(), size),
        r matches Err(e) ==> e == StoreError::Io,
        old(b).io_free() ==> r is Ok,
{
    let ghost before = b.contents();
    let pairs = generate_workload(size);
    let mut idx: usize = 0;
    while idx < pairs.len()
        invariant
            pairs@.len() == size + 1,
            forall|j: int| 0 <= j <= size ==> pairs@[j] == (j as u64, chain_value(j as u64, size)),
            idx <= pairs@.len(),
            b.io_free() == old(b).io_free(),
            forall|j: u64|
                j < idx as u64 ==> #[trigger] b.contents().contains_key(be_bytes(j))
                    && b.contents()[be_bytes(j)] == be_bytes(chain_value(j, size)),
            forall|k: Seq<u8>|
                #[trigger] b.contents().contains_key(k) ==> before.contains_key(k) || (exists|
                    i: u64,
                |
                    i < idx as u64 && k == #[trigger] be_bytes(i)),
        decreases pairs@.len() - idx,
    {
        let (key, value) = pairs[idx];
        match b.put(key, value) {
            Ok(()) => {},
            Err(e) => {
                return Err(e);
            },
        }
        idx = idx + 1;
    }
    Ok(())
}

/// The pointer-chasing read traversal. Starting at key `1`, repeatedly
/// `get` the pointer and follow the decoded value until it is the
/// sentinel `0`. Returns the keys visited, in order.
pub fn traverse<B: Backend>(b: &B, size: u64) -> (r: Result<Vec<u64>, StoreError>)
    requires
        chain_ready(b.contents(), size),
    ensures
        r matches Ok(v) ==> v@ == chain_keys(size) && size >= 1,
        r matches Err(e) ==> e == StoreError::Io || (size == 0 && e == StoreError::NotFound),
        b.io_free() && size >= 1 ==> r is Ok,
        b.io_free() && size == 0 ==> r == Err::<Vec<u64>, StoreError>(StoreError::NotFound),
{
    let mut visited: Vec<u64> = Vec::new();
    let mut pointer: u64 = 1;
    while pointer != 0
        invariant
            chain_ready(b.contents(), size),
            visited@.len() <= size,
            forall|j: int| 0 <= j < visited@.len() ==> visited@[j] == j + 1,
            visited@.len() < size ==> pointer == visited@.len() + 1,
            visited@.len() == size ==> pointer == 0 || size == 0,
            size == 0 ==> pointer == 1,
        decreases size - visited@.len(),
    {
        match b.get(pointer) {
            Ok(value) => {
                proof {
                    lemma_be_round_trip(chain_value(pointer, size));
                    assert(lookup(b.contents(), pointer) == Ok::<u64, StoreError>(
                        chain_value(pointer, size),
                    ));
                }
                visited.push(pointer);
                pointer = value;
            },
            Err(e) => {
                return Err(e);
            },
        }
    }
    proof {
        assert(visited@ =~= chain_keys(size));
    }
    Ok(visited)
}

/// Run the full benchmark state machine over `b`: timed write phase, then
/// timed read traversal. A failure in either phase aborts the run with
/// that phase's error and no timing.
pub fn run_benchmark<B: Backend>(b: &mut B, size: u64) -> (r: Result<
    BenchmarkOutcome,
    BenchmarkError,
>)
    requires
        size + 1 <= usize::MAX,
        size == 0 ==> !old(b).contents().contains_key(be_bytes(1)),
    ensures
        r matches Ok(o) ==> o.visited@ == chain_keys(size) && size >= 1,
        r matches Err(e) ==> match e {
            BenchmarkError::WriteFailed(s) => s == StoreError::Io,
            BenchmarkError::ReadFailed(s) => s == StoreError::Io || (size == 0 && s
                == StoreError::NotFound),
        },
        old(b).io_free() && size >= 1 ==> r is Ok,
        old(b).io_free() && size == 0 ==> r == Err::<BenchmarkOutcome, BenchmarkError>(
            BenchmarkError::ReadFailed(StoreError::NotFound),
        ),
{
    let ghost before = b.contents();
    let write_timer = Timer::start();
    match write_phase(b, size) {
        Ok(()) => {},
        Err(e) => {
            return Err(BenchmarkError::WriteFailed(e));
        },
    }
    let write_nanos = write_timer.elapsed_nanos();
    proof {
        lemma_populated_is_ready(before, b.contents(), size);
    }
    let read_timer = Timer::start();
    let visited = match traverse(b, size) {
        Ok(v) => v,
        Err(e) => {
            return Err(BenchmarkError::ReadFailed(e));
        },
    };
    let read_nanos = read_timer.elapsed_nanos();
    Ok(BenchmarkOutcome { visited, timing: PhaseTiming { write_nanos, read_nanos } })
}

/// Benchmark a fresh in-memory backend with a chain of length `size`.
/// Returns the two phase durations `(write_nanos, read_nanos)`. The
/// in-memory store never fails with `Io`, so for `size >= 1` the run is
/// owed to succeed, and for `size == 0` the traversal is owed to fail
/// with `NotFound` (key `1` is never written).
pub fn hashmap_benchmark(size: u64) -> (r: Result<(u128, u128), BenchmarkError>)
    requires
        size + 1 <= usize::MAX,
    ensures
        size >= 1 ==> r is Ok,
        size == 0 ==> r == Err::<(u128, u128), BenchmarkError>(
            BenchmarkError::ReadFailed(StoreError::NotFound),
        ),
{
    let mut backend = InMemoryBackend::new();
    match run_benchmark(&mut backend, size) {
        Ok(o) => Ok((o.timing.write_nanos, o.timing.read_nanos)),
        Err(e) => Err(e),
    }
}

/// Benchmark the persistent store at `path` with a chain of length
/// `size`. Returns the two phase durations `(write_nanos, read_nanos)`.
/// A failure to open the store surfaces as `WriteFailed(Io)`, since
/// nothing was written yet. The chain must have at least one link: the
/// store keeps whatever the path already held, so only overwriting keys
/// `0..=size` (with `size >= 1`) guarantees the traversal terminates.
pub fn sled_persistent_benchmark(path: &str, size: u64) -> (r: Result<(u128, u128), BenchmarkError>)
    requires
        1 <= size,
        size + 1 <= usize::MAX,
    ensures
        r matches Err(e) ==> match e {
            BenchmarkError::WriteFailed(s) => s == StoreError::Io,
            BenchmarkError::ReadFailed(s) => s == StoreError::Io,
        },
{
    let mut backend = match PersistentBackend::open(path) {
        Ok(b) => b,
        Err(e) => {
            return Err(BenchmarkError::WriteFailed(e));
        },
    };
    match run_benchmark(&mut backend, size) {
        Ok(o) => Ok((o.timing.write_nanos, o.timing.read_nanos)),
        Err(e) => Err(e),
    }
}

/// A store's contents are correctly populated for at most one chain
/// length: the last chain key holds the sentinel, which no inner chain
/// key of a longer chain may hold.
pub proof fn lemma_chain_length_unique(c: Map<Seq<u8>, Seq<u8>>, s1: u64, s2: u64)
    requires
        chain_ready(c, s1),
        chain_ready(c, s2),
    ensures
        s1 == s2,
{
    if s1 < s2 {
        if s1 == 0 {
            assert(c.contains_key(be_bytes(1)));
        } else {
            assert(c.contains_key(be_bytes(s1)));
            assert(c[be_bytes(s1)] == be_bytes(chain_value(s1, s1)));
            assert(c[be_bytes(s1)] == be_bytes(chain_value(s1, s2)));
            lemma_be_bytes_injective(0, (s1 + 1) as u64);
        }
    }
    if s2 < s1 {
        if s2 == 0 {
            assert(c.contains_key(be_bytes(1)));
        } else {
            assert(c.contains_key(be_bytes(s2)));
            assert(c[be_bytes(s2)] == be_bytes(chain_value(s2, s2)));
            assert(c[be_bytes(s2)] == be_bytes(chain_value(s2, s1)));
            lemma_be_bytes_injective(0, (s2 + 1) as u64);
        }
    }
}

/// Idempotence of the read phase: `traverse` only borrows the backend
/// immutably, and on unmodified contents the visited sequence of every
/// successful traversal is the same — the contents admit a single chain
/// length, and the traversal contract pins the visits (and the terminal
/// sentinel `0`) to it.
pub proof fn lemma_traversal_idempotent(c: Map<Seq<u8>, Seq<u8>>, s1: u64, s2: u64)
    requires
        chain_ready(c, s1),
        chain_ready(c, s2),
    ensures
        chain_keys(s1) == chain_keys(s2),
{
    lemma_chain_length_unique(c, s1, s2);
}

}
