//! The error taxonomy of the provisioning and launch pipeline.

use vstd::prelude::*;

verus! {

/// Everything that can go wrong between asking for a driver and holding a
/// running child process.  Each variant is surfaced to the caller unchanged;
/// no step is retried.
#[derive(Clone, Copy, Debug, PartialEq, Eq, Structural)]
pub enum DriverError {
    /// The Chrome executable could not be invoked.
    ChromeUnavailable,
    /// Chrome ran but its version output was not of the shape `N(.N)+`.
    VersionFormatInvalid,
    /// The HTTP request failed or the download stream broke.
    NetworkError,
    /// Extracting the downloaded archive failed.
    ArchiveCorrupt,
    /// A filesystem operation failed.
    DiskFullOrPermission,
    /// ChromeDriver could not be started.
    SpawnFailed,
    /// The driver's standard output ended before the readiness sentinel.
    ReadinessChannelClosed,
}

/// The wording of each error, for callers that print one.
pub open spec fn message_spec(e: DriverError) -> Seq<char> {
    match e {
        DriverError::ChromeUnavailable => "the Chrome executable could not be invoked"@,
        DriverError::VersionFormatInvalid => "the Chrome version output has an invalid format"@,
        DriverError::NetworkError => "the download request failed"@,
        DriverError::ArchiveCorrupt => "the downloaded archive could not be extracted"@,
        DriverError::DiskFullOrPermission => "a cache filesystem operation failed"@,
        DriverError::SpawnFailed => "ChromeDriver could not be started"@,
        DriverError::ReadinessChannelClosed => "ChromeDriver closed its output before signalling readiness"@,
    }
}

impl DriverError {
    pub fn message(&self) -> (m: &'static str)
        ensures
            m@ == message_spec(*self),
    {
        match self {
            DriverError::ChromeUnavailable => "the Chrome executable could not be invoked",
            DriverError::VersionFormatInvalid => "the Chrome version output has an invalid format",
            DriverError::NetworkError => "the download request failed",
            DriverError::ArchiveCorrupt => "the downloaded archive could not be extracted",
            DriverError::DiskFullOrPermission => "a cache filesystem operation failed",
            DriverError::SpawnFailed => "ChromeDriver could not be started",
            DriverError::ReadinessChannelClosed => "ChromeDriver closed its output before signalling readiness",
        }
    }
}

} // verus!
