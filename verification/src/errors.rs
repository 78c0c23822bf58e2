//! The error taxonomy, and the classifier that separates terminal failures
//! (the player process is gone) from transient ones (worth one reconnect).

use vstd::prelude::*;
use vstd::string::StringExecFns;
use crate::text::{str_contains, spec_contains};

verus! {

/// The transport-level failure kinds the reconnect policy distinguishes.
/// The embedding program maps the platform's I/O error kinds onto these.
#[derive(Debug, Clone, Copy, PartialEq, Eq, Structural)]
pub enum IoErrorKind {
    BrokenPipe,
    ConnectionRefused,
    ConnectionReset,
    NotFound,
    TimedOut,
    UnexpectedEof,
    Other,
}

/// A typed error returned by every fallible operation of the library.
#[derive(Debug, Clone)]
pub enum Error {
    /// A transport-level failure, with its kind and a description.
    Io(IoErrorKind, String),
    /// A failure reported by the player, or a protocol-level failure.
    MpvError(String),
    /// A configuration problem.
    ConfigError(String),
    /// Malformed or unexpected JSON.
    JsonError(String),
    /// A malformed instance identifier.
    VideoIdError(String),
}

/// Whether `e` indicates that the player process has exited, so that no
/// reconnect should ever be attempted again: a broken pipe, a refused or
/// reset connection, end of file on the transport or reported by the
/// player, or the socket file being gone. A "property unavailable" report
/// counts only while the connection was believed healthy.
pub open spec fn spec_is_terminal_error(e: Error, connected: bool) -> bool {
    match e {
        Error::Io(kind, _) => kind == IoErrorKind::BrokenPipe || kind
            == IoErrorKind::ConnectionRefused || kind == IoErrorKind::ConnectionReset || kind
            == IoErrorKind::UnexpectedEof || kind == IoErrorKind::NotFound,
        Error::MpvError(m) => spec_contains(m@, "End of file"@) || (connected && spec_contains(
            m@,
            "property unavailable"@,
        )),
        _ => false,
    }
}

/// Classifies `e`: true means the player process has almost certainly
/// exited and the connection must not be retried.
pub fn is_terminal_error(e: &Error, connected: bool) -> (b: bool)
    ensures
        b == spec_is_terminal_error(*e, connected),
{
    match e {
        Error::Io(kind, _) => match kind {
            IoErrorKind::BrokenPipe => true,
            IoErrorKind::ConnectionRefused => true,
            IoErrorKind::ConnectionReset => true,
            IoErrorKind::UnexpectedEof => true,
            IoErrorKind::NotFound => true,
            _ => false,
        },
        Error::MpvError(m) => {
            if str_contains(m.as_str(), "End of file") {
                true
            } else if connected && str_contains(m.as_str(), "property unavailable") {
                true
            } else {
                false
            }
        },
        _ => false,
    }
}

/// The message carried by the error that every operation on an
/// intentionally closed client returns.
pub open spec fn spec_closed_message() -> Seq<char> {
    "Client was intentionally closed"@
}

/// Whether `e` is the error that an intentionally closed client returns.
pub open spec fn spec_is_closed_error(e: Error) -> bool {
    e matches Error::MpvError(m) && m@ == spec_closed_message()
}

/// Builds the error that operations on an intentionally closed client return.
pub fn intentionally_closed_error() -> (e: Error)
    ensures
        spec_is_closed_error(e),
{
    Error::MpvError(String::from_str("Client was intentionally closed"))
}

/// The propagation policy for a failed retry: when the reconnect after a
/// transient request failure itself fails, the caller sees the original
/// request error, never the reconnect failure.
pub fn surfaced_error(original: Error, _reconnect_failure: Error) -> (r: Error)
    ensures
        r == original,
{
    original
}

/// The message carried by the error returned when the transport is down
/// and automatic reconnection is disabled.
pub open spec fn spec_not_connected_message() -> Seq<char> {
    "Not connected to mpv"@
}

/// Whether `e` is the not-connected error.
pub open spec fn spec_is_not_connected_error(e: Error) -> bool {
    e matches Error::MpvError(m) && m@ == spec_not_connected_message()
}

/// Builds the error returned when the transport is down and automatic
/// reconnection is disabled.
pub fn not_connected_error() -> (e: Error)
    ensures
        spec_is_not_connected_error(e),
{
    Error::MpvError(String::from_str("Not connected to mpv"))
}

} // verus!
