//! A storage-backend benchmarking harness: drives an identical synthetic
//! workload (a singly linked chain of `u64` keys) through pluggable
//! key-value backends and measures the write and read phases.

pub mod backend;
pub mod codec;
pub mod error;
pub mod memory;
pub mod persistent;
pub mod report;
pub mod runner;
pub mod timer;
pub mod workload;
