//! The items a user of the server needs, gathered in one place.

pub use crate::addr::PeerAddr;
pub use crate::peer::{CloseReceipt, Packet, UDPPeer, UdpPeer, UdpReader, UdpSender};
pub use crate::udp_serv::{PeerRegistry, UdpServer};
