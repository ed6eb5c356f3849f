//! The monotonic clock each worker reads for itself.
//!
//! Nothing here is proved: these are the standard library's own functions,
//! made known to the verifier. A reading depends on when it is taken, so no
//! contract says what it is.

use std::time::Duration;
use std::time::Instant;
use vstd::prelude::*;

verus! {

/// `std::time::Instant`: a moment on the monotonic clock, carried through
/// without looking inside.
#[verifier::external_type_specification]
#[verifier::external_body]
pub struct ExInstant(std::time::Instant);

/// `Instant::now` gives the present moment. Nothing is claimed of it.
pub assume_specification[ std::time::Instant::now ]() -> Instant;

/// `Instant::elapsed` gives the time gone by since the moment was taken.
/// Nothing is claimed of it.
pub assume_specification[ std::time::Instant::elapsed ](start: &Instant) -> Duration;

/// `Duration::as_secs` gives the whole seconds of a duration. Nothing is
/// claimed of the number beyond its type.
pub assume_specification[ core::time::Duration::as_secs ](duration: &Duration) -> u64;

} // verus!
