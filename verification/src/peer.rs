use vstd::prelude::*;

use std::sync::Arc;

use crate::addr::PeerAddr;
use crate::channel::{channel_send, packet_channel, Handoff};
use crate::error::{error_class, error_message, io_error, io_error_from_send, ErrorClass};

verus! {

/// A shared, reference-counted handle to a [`UdpPeer`].
///
/// The receive loop, the idle checker and the user's handler each hold one.
pub type UDPPeer = Arc<UdpPeer>;

/// What travels through a peer's channel: a received datagram, or the error
/// that tells the handler to stop.
pub type Packet = std::io::Result<Vec<u8>>;

/// Transmit end of a peer's data channel, fed by the socket receive loop.
pub type UdpSender = tokio::sync::mpsc::UnboundedSender<Packet>;

/// Receive end of a peer's data channel, read by the user's handler.
///
/// When the peer is closed, the handler next reads `Err` with kind
/// `TimedOut`.
pub type UdpReader = tokio::sync::mpsc::UnboundedReceiver<Packet>;

/// A single remote UDP client, keyed by its address.
///
/// Created when a datagram arrives from an address that has no peer; data is
/// pushed through its channel to the handler, which reads it from the paired
/// [`UdpReader`]. When the handler finishes, the peer is removed from its
/// socket's registry.
pub struct UdpPeer {
    /// Index of the socket that this peer was created from.
    pub socket_id: usize,
    /// The socket shared by all peers of the same listening socket.
    pub udp_sock: Arc<tokio::net::UdpSocket>,
    /// Remote address of this peer.
    pub addr: PeerAddr,
    /// Transmit half of the channel that carries received data to the handler.
    sender: UdpSender,
}

/// The packet that carries the datagram `buf`.
pub fn data_packet(buf: Vec<u8>) -> (r: Packet)
    ensures
        r == Ok::<Vec<u8>, std::io::Error>(buf),
{
    Ok(buf)
}

/// Whether `p` is the signal that tells a handler to stop: an error of kind
/// `TimedOut` with the message "udp peer need close".
pub open spec fn is_close_signal(p: Packet) -> bool {
    match p {
        Ok(_) => false,
        Err(e) => error_class(e) == Some(ErrorClass::TimedOut) && error_message(e)
            == "udp peer need close"@,
    }
}

/// The signal that tells a handler to stop.
pub fn close_signal() -> (r: Packet)
    ensures
        is_close_signal(r),
{
    Err(io_error(ErrorClass::TimedOut, "udp peer need close"))
}

/// What [`UdpPeer::close`] did for the peer with a given address: the record
/// of the packet it handed to that peer's channel.
pub struct CloseReceipt {
    addr: PeerAddr,
    handoff: Handoff,
}

impl CloseReceipt {
    /// The record of the packet handed over.
    pub closed spec fn handed(&self) -> Handoff {
        self.handoff
    }

    /// The address of the peer that was closed.
    pub closed spec fn closed_addr(&self) -> PeerAddr {
        self.addr
    }

    /// The address of the peer that was closed.
    pub fn addr(&self) -> (r: PeerAddr)
        ensures
            r == self.closed_addr(),
    {
        self.addr
    }
}

/// The result of pushing a datagram, given the outcome of the channel send:
/// `Ok` when the channel took it, else an error of kind `Other` wrapping the
/// send error.
pub fn delivery_result(outcome: Result<(), tokio::sync::mpsc::error::SendError<Packet>>) -> (r:
    std::io::Result<()>)
    ensures
        r is Ok <==> outcome is Ok,
        r matches Err(e) ==> error_class(e) == Some(ErrorClass::Other),
{
    match outcome {
        Ok(()) => Ok(()),
        Err(err) => Err(io_error_from_send(ErrorClass::Other, err)),
    }
}

impl UdpPeer {
    /// The index of the socket this peer belongs to.
    pub closed spec fn socket_index(&self) -> usize {
        self.socket_id
    }

    /// The remote address of this peer.
    pub closed spec fn remote(&self) -> PeerAddr {
        self.addr
    }

    /// The socket through which this peer is answered.
    pub closed spec fn socket(&self) -> Arc<tokio::net::UdpSocket> {
        self.udp_sock
    }

    /// The sending half of this peer's channel.
    pub closed spec fn channel(&self) -> UdpSender {
        self.sender
    }

    /// Create a new peer and return the shared handle plus the reader half of
    /// its data channel.
    pub fn new(socket_id: usize, udp_sock: Arc<tokio::net::UdpSocket>, addr: PeerAddr) -> (r: (
        UDPPeer,
        UdpReader,
    ))
        ensures
            r.0.socket_index() == socket_id,
            r.0.socket() == udp_sock,
            r.0.remote() == addr,
    {
        let (tx, rx) = packet_channel();
        (Arc::new(UdpPeer { socket_id, udp_sock, addr, sender: tx }), rx)
    }

    /// Push a received datagram into the peer's channel.
    ///
    /// Hands `Ok(buf)` to this peer's channel and returns the result with the
    /// record of that hand-off. The result is `Ok` exactly when the channel
    /// took the datagram; it fails, with an error of kind `Other`, when the
    /// handler has dropped the reader.
    pub fn push_data(&self, buf: Vec<u8>) -> (r: (std::io::Result<()>, Handoff))
        ensures
            r.1.target() == self.channel(),
            r.1.item() == Ok::<Vec<u8>, std::io::Error>(buf),
            r.0 is Ok <==> r.1.accepted(),
            r.0 matches Err(e) ==> error_class(e) == Some(ErrorClass::Other),
    {
        let (outcome, handoff) = channel_send(&self.sender, data_packet(buf));
        (delivery_result(outcome), handoff)
    }

    /// Return the index of the socket this peer belongs to.
    pub fn get_socket_id(&self) -> (r: usize)
        ensures
            r == self.socket_index(),
    {
        self.socket_id
    }

    /// Return the remote address of this peer.
    pub fn get_addr(&self) -> (r: PeerAddr)
        ensures
            r == self.remote(),
    {
        self.addr
    }

    /// Signal this peer to shut down.
    ///
    /// Pushes an error of kind `TimedOut` into the channel; the handler sees
    /// it on its next read and should exit, which removes the peer. If the
    /// handler is already gone there is nobody to tell, and nothing happens.
    /// The channel itself stays open: data pushed afterwards still reaches a
    /// reader that is alive.
    /// Returns the receipt: this peer's address, and the record of the close
    /// signal handed to its channel.
    pub fn close(&self) -> (r: CloseReceipt)
        ensures
            r.closed_addr() == self.remote(),
            r.handed().target() == self.channel(),
            is_close_signal(r.handed().item()),
    {
        let (_outcome, handoff) = channel_send(&self.sender, close_signal());
        CloseReceipt { addr: self.addr, handoff }
    }
}

} // verus!
