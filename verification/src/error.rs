use vstd::prelude::*;

verus! {

/// The failure kinds surfaced by this crate and by the application code
/// driving the backends. No error is retried or handled internally; every
/// failure is reported once to the immediate caller.
#[derive(Clone, Copy, Debug, PartialEq, Eq, Structural)]
pub enum Error {
    /// The logger could not be configured or started: the severity-level
    /// string was not recognized, or the backend failed to open its files.
    LoggerInit,
    /// DNS resolution, connection, timeout or HTTP status failure.
    HttpTransport,
    /// The request payload could not be encoded as JSON.
    Serialization,
    /// The response body stream failed mid-read.
    BodyRead,
}

} // verus!
