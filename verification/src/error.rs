//! What can go wrong when firmware is asked for.

use vstd::prelude::*;
use vstd::string::StringExecFns;

verus! {

/// The failures that the service reports.
#[derive(Clone, Copy, Debug, PartialEq, Eq, Structural)]
pub enum FirmwareError {
    /// The registry lists no tag that is a semantic version.
    NotFound,
    /// A call to the registry failed.
    Upstream,
    /// A request waited for another one's fetch and found nothing cached
    /// afterwards.
    Unavailable,
    /// A request was given up, or was handed an answer that it had not asked
    /// for.
    Interrupted,
    /// A cache was asked for that can hold nothing.
    ZeroCapacity,
}

impl FirmwareError {
    /// A line for the log.
    pub fn message(&self) -> (s: String)
        ensures
            s@ == match *self {
                FirmwareError::NotFound => "no semver tag found"@,
                FirmwareError::Upstream => "registry request failed"@,
                FirmwareError::Unavailable => "firmware unavailable after waiting"@,
                FirmwareError::Interrupted => "request interrupted"@,
                FirmwareError::ZeroCapacity => "cache size must be greater than zero"@,
            },
    {
        match self {
            FirmwareError::NotFound => String::from_str("no semver tag found"),
            FirmwareError::Upstream => String::from_str("registry request failed"),
            FirmwareError::Unavailable => String::from_str("firmware unavailable after waiting"),
            FirmwareError::Interrupted => String::from_str("request interrupted"),
            FirmwareError::ZeroCapacity => String::from_str(
                "cache size must be greater than zero",
            ),
        }
    }
}

} // verus!
