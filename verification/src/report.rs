//! The relative-speedup computation of the report.
//!
//! A speedup ratio divides the persistent backend's duration by the
//! in-memory backend's; a measured duration of zero ticks would make that
//! division undefined, so the quotient is guarded and reported as absent
//! rather than computed.

use vstd::prelude::*;

verus! {

/// The speedup of the in-memory backend over the persistent one for a
/// phase, in thousandths: `persistent_nanos * 1000 / memory_nanos`
/// (a value above 1000 means the persistent backend is slower). `None`
/// if the in-memory duration resolved to zero ticks, which would make
/// the ratio undefined.
pub fn speedup_per_mille(persistent_nanos: u128, memory_nanos: u128) -> (r: Option<u128>)
    requires
        persistent_nanos * 1000 <= u128::MAX,
    ensures
        memory_nanos == 0 ==> r is None,
        memory_nanos != 0 ==> r == Some((persistent_nanos * 1000 / memory_nanos as int) as u128),
{
    if memory_nanos == 0 {
        None
    } else {
        Some(persistent_nanos * 1000 / memory_nanos)
    }
}

}
