use vstd::prelude::*;

verus! {

/// `std::io::Error`, carried through the library unopened.
#[verifier::external_type_specification]
#[verifier::external_body]
pub struct ExIoError(std::io::Error);

/// A Tokio UDP socket registered with a runtime's reactor.
#[verifier::external_type_specification]
#[verifier::external_body]
pub struct ExTokioUdpSocket(tokio::net::UdpSocket);

/// The sending half of a Tokio unbounded channel.
#[verifier::external_type_specification]
#[verifier::external_body]
#[verifier::reject_recursive_types(T)]
pub struct ExUnboundedSender<T>(tokio::sync::mpsc::UnboundedSender<T>);

/// The receiving half of a Tokio unbounded channel.
#[verifier::external_type_specification]
#[verifier::external_body]
#[verifier::reject_recursive_types(T)]
pub struct ExUnboundedReceiver<T>(tokio::sync::mpsc::UnboundedReceiver<T>);

/// The error of a send on a closed Tokio channel; it holds the value back.
#[verifier::external_type_specification]
#[verifier::external_body]
#[verifier::reject_recursive_types(T)]
pub struct ExSendError<T>(tokio::sync::mpsc::error::SendError<T>);

/// A `socket2` socket, before it is turned into a standard UDP socket.
#[verifier::external_type_specification]
#[verifier::external_body]
pub struct ExSocket(socket2::Socket);

/// A `socket2` socket address.
#[verifier::external_type_specification]
#[verifier::external_body]
pub struct ExSockAddr(socket2::SockAddr);

/// An asynchronous mutex of `async-lock`.
#[verifier::external_type_specification]
#[verifier::external_body]
#[verifier::reject_recursive_types(T)]
pub struct ExAsyncMutex<T: ?Sized>(async_lock::Mutex<T>);

/// A reading of the system clock.
#[verifier::external_type_specification]
#[verifier::external_body]
pub struct ExSystemTime(std::time::SystemTime);

/// The error of `SystemTime::duration_since` for a time before the other.
#[verifier::external_type_specification]
#[verifier::external_body]
pub struct ExSystemTimeError(std::time::SystemTimeError);

} // verus!
