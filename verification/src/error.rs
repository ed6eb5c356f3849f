//! Errors reported before any work begins.

use vstd::prelude::*;

verus! {

/// A run was configured with a parameter that makes it meaningless.
#[derive(Clone, Copy, Debug, PartialEq, Eq, Structural)]
pub enum ConfigurationError {
    /// The worker count was zero: there is nothing to split the nonce space
    /// between.
    ZeroWorkers,
    /// The duration was zero seconds: a rate over no time is undefined.
    ZeroDuration,
}

/// The configuration error, if any, of a worker count and a duration.
///
/// The worker count is judged first, so a configuration in which both
/// parameters are zero is reported as `ZeroWorkers`.
pub open spec fn configuration_error(worker_count: u64, duration_seconds: u64) -> Option<
    ConfigurationError,
> {
    if worker_count == 0 {
        Some(ConfigurationError::ZeroWorkers)
    } else if duration_seconds == 0 {
        Some(ConfigurationError::ZeroDuration)
    } else {
        None
    }
}

impl ConfigurationError {
    /// Name of the parameter that was rejected.
    pub open spec fn spec_parameter(self) -> Seq<char> {
        match self {
            ConfigurationError::ZeroWorkers => "worker_count"@,
            ConfigurationError::ZeroDuration => "duration_seconds"@,
        }
    }

    /// What to tell the user: which parameter was rejected, and what it must
    /// be.
    pub open spec fn spec_message(self) -> Seq<char> {
        match self {
            ConfigurationError::ZeroWorkers => "worker_count must be at least 1"@,
            ConfigurationError::ZeroDuration => "duration_seconds must be at least 1"@,
        }
    }

    /// What to tell the user: which parameter was rejected, and what it must
    /// be.
    pub fn message(&self) -> (text: &'static str)
        ensures
            text@ == self.spec_message(),
    {
        match self {
            ConfigurationError::ZeroWorkers => "worker_count must be at least 1",
            ConfigurationError::ZeroDuration => "duration_seconds must be at least 1",
        }
    }

    /// Name of the parameter that was rejected.
    pub fn parameter(&self) -> (name: &'static str)
        ensures
            name@ == self.spec_parameter(),
    {
        match self {
            ConfigurationError::ZeroWorkers => "worker_count",
            ConfigurationError::ZeroDuration => "duration_seconds",
        }
    }
}

} // verus!
