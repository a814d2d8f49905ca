//! The error taxonomy of the library.

use vstd::prelude::*;

verus! {

/// Every failure the library can report.
///
/// `InvalidConfiguration` and `OpenError` are returned synchronously by the
/// open path. `EnumerationError` is returned by device enumeration.
/// `ChannelClosed` is returned by a caller operation attempted after the
/// worker has stopped. `WriteFailure` (non-fatal, the worker continues) and
/// `ReadFailure` (fatal, the worker stops) arise inside the worker after a
/// successful open and reach the caller only through the error observer slot,
/// never as a return value.
#[derive(Clone, Copy, Debug, PartialEq, Eq, Structural)]
pub enum PortError {
    /// A settings value lies outside the representable native range.
    InvalidConfiguration,
    /// The device could not be opened, configured, or split.
    OpenError,
    /// The worker has already stopped; the command queue is disconnected.
    ChannelClosed,
    /// A single write attempt failed; the worker keeps running.
    WriteFailure,
    /// A read failed for a reason other than the routine timeout; the worker
    /// stops after reporting it.
    ReadFailure,
    /// The operating-system query for available devices failed.
    EnumerationError,
}

} // verus!
