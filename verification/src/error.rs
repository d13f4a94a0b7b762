use vstd::prelude::*;

use crate::peer::Packet;

verus! {

/// The kinds of I/O error that this library reports.
#[derive(Clone, Copy, Debug, PartialEq, Eq, Structural)]
pub enum ErrorClass {
    /// A failure with no more specific kind: a refused push, an address
    /// that does not name exactly one socket address.
    Other,
    /// The signal that tells a peer's handler to stop.
    TimedOut,
}

/// What `std::io::Error::kind` gives for `e`, when it is a kind this library
/// reports.
pub uninterp spec fn error_class(e: std::io::Error) -> Option<ErrorClass>;

/// What `e.to_string()` gives.
pub uninterp spec fn error_message(e: std::io::Error) -> Seq<char>;

/// `std::io::Error::new` with the kind that `class` names and the message
/// `msg`. Trusted: std documents that `kind` returns the kind an error was
/// made with, and an error made from a payload displays as that payload,
/// here `msg`.
#[verifier::external_body]
pub(crate) fn io_error(class: ErrorClass, msg: &str) -> (r: std::io::Error)
    ensures
        error_class(r) == Some(class),
        error_message(r) == msg@,
{
    std::io::Error::new(
        match class {
            ErrorClass::Other => std::io::ErrorKind::Other,
            ErrorClass::TimedOut => std::io::ErrorKind::TimedOut,
        },
        msg,
    )
}

/// `std::io::Error::new` with the kind that `class` names, wrapping the send
/// error `err` of a closed channel. Trusted as `io_error` is; Tokio's
/// `SendError` displays as "channel closed".
#[verifier::external_body]
pub(crate) fn io_error_from_send(
    class: ErrorClass,
    err: tokio::sync::mpsc::error::SendError<Packet>,
) -> (r: std::io::Error)
    ensures
        error_class(r) == Some(class),
        error_message(r) == "channel closed"@,
{
    std::io::Error::new(
        match class {
            ErrorClass::Other => std::io::ErrorKind::Other,
            ErrorClass::TimedOut => std::io::ErrorKind::TimedOut,
        },
        err,
    )
}

} // verus!
