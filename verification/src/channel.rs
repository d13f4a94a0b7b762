use vstd::prelude::*;

use crate::peer::{Packet, UdpReader, UdpSender};

verus! {

/// A record of one packet handed to a channel: the sending half it went to,
/// the packet itself, and whether the channel took it. Only the send below
/// makes one.
pub struct Handoff {
    target: Ghost<UdpSender>,
    item: Ghost<Packet>,
    accepted: bool,
}

impl Handoff {
    /// The sending half the packet was handed to.
    pub closed spec fn target(&self) -> UdpSender {
        self.target@
    }

    /// The packet that was handed over.
    pub closed spec fn item(&self) -> Packet {
        self.item@
    }

    /// Whether the channel took the packet.
    pub closed spec fn accepted(&self) -> bool {
        self.accepted
    }
}

/// `tokio::sync::mpsc::unbounded_channel`: a fresh channel, as its two halves.
///
/// Nothing is stated of the halves: the pairing of the two lies inside
/// Tokio's shared state.
#[verifier::external_body]
pub(crate) fn packet_channel() -> (UdpSender, UdpReader) {
    tokio::sync::mpsc::unbounded_channel()
}

/// `UnboundedSender::send`: queue `item` for the receiving half, with the
/// record of what was handed to which sender.
///
/// Tokio's source fails the send exactly when the receiving half is closed,
/// which depends on another task; so no clause is stated of the outcome.
#[verifier::external_body]
pub(crate) fn channel_send(sender: &UdpSender, item: Packet) -> (r: (
    Result<(), tokio::sync::mpsc::error::SendError<Packet>>,
    Handoff,
))
    ensures
        r.1.target() == *sender,
        r.1.item() == item,
        r.1.accepted() <==> r.0 is Ok,
{
    let (target, handed) = (Ghost(*sender), Ghost(item));
    match sender.send(item) {
        Ok(()) => (Ok(()), Handoff { target, item: handed, accepted: true }),
        Err(e) => (Err(e), Handoff { target, item: handed, accepted: false }),
    }
}

} // verus!
