//! The error taxonomy of the orchestration engine.

use vstd::prelude::*;
use vstd::string::StringExecFns;

verus! {

/// Everything that can go wrong inside the engine.
#[derive(Debug, Clone, PartialEq, Eq)]
pub enum Error {
    /// Non-zero exit of a spawned process, with the full command line and the
    /// captured output.
    ExternalCommandFailure(String),
    /// SSH dial or handshake error, or a boot-wait timeout.
    ConnectionFailure(String),
    /// Missing row when resolving a job id by IP address.
    JobNotFound,
    /// Any persistence error.
    QueueFailure(String),
    /// Malformed catalog line, filename without parseable coordinates, or
    /// unexpected raster dimensions.
    DataFormatFailure(String),
    /// Starting a new run while completed jobs from a different run exist.
    ConfigConflict,
}

impl Error {
    /// A human-readable rendering of the error.
    pub fn message(&self) -> (r: String)
        ensures
            self matches Error::ExternalCommandFailure(m) ==> r@ == "external command failed: "@
                + m@,
            self matches Error::ConnectionFailure(m) ==> r@ == "connection failed: "@ + m@,
            self is JobNotFound ==> r@ == "job not found"@,
            self matches Error::QueueFailure(m) ==> r@ == "queue failure: "@ + m@,
            self matches Error::DataFormatFailure(m) ==> r@ == "data format failure: "@ + m@,
            self is ConfigConflict ==> r@
                == "config conflict: completed jobs from a different run exist"@,
    {
        match self {
            Error::ExternalCommandFailure(m) => String::from_str("external command failed: ")
                .concat(m.as_str()),
            Error::ConnectionFailure(m) => String::from_str("connection failed: ").concat(
                m.as_str(),
            ),
            Error::JobNotFound => String::from_str("job not found"),
            Error::QueueFailure(m) => String::from_str("queue failure: ").concat(m.as_str()),
            Error::DataFormatFailure(m) => String::from_str("data format failure: ").concat(
                m.as_str(),
            ),
            Error::ConfigConflict => String::from_str(
                "config conflict: completed jobs from a different run exist",
            ),
        }
    }
}

} // verus!
