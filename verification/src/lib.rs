//! Fixed-duration, multi-worker measurement of proof-of-work hash throughput.
//!
//! A run splits the 64-bit nonce space into one contiguous segment per
//! worker, lets every worker hash upwards from the start of its segment until
//! its own deadline passes, and folds the per-worker counts into a single
//! hashes-per-second figure.

pub mod error;
pub mod partition;
pub mod worker;
pub mod aggregate;
pub mod clock;
pub mod hashing;
pub mod coordinator;
