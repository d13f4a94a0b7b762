# udp_server

The core of an asynchronous multi-socket UDP server, with its contracts
proved by Verus. Each remote address is a peer with its own channel; a
handler task per peer reads the channel and answers through the shared
socket; idle peers can be closed after a timeout.

Layout:

- `src/addr.rs` — `PeerAddr`, a remote socket address as plain values.
- `src/clock.rs` — the current time in whole seconds since the epoch.
- `src/error.rs` — the kinds of I/O error the library reports.
- `src/registry.rs` — `PeerTable`, a registry of peers keyed by address, the
  idle test, and the laws of arrival, removal, idleness and receive times.
- `src/channel.rs` — a peer's channel: creating it, and sending with a
  record of what was handed to which sender.
- `src/peer.rs` — `UdpPeer`: creation, pushing data, closing with a receipt
  of the close signal handed to its channel.
- `src/sys.rs` — the socket system calls, each returning a record of the
  value it was handed.
- `src/socket.rs` — the setup asked of the system for a listening socket,
  creating and configuring the sockets (all sharing one address), the CPU
  count.
- `src/udp_serv.rs` — `PeerRegistry` (a socket's peers, each under its own
  address), `UdpContext` and `UdpServer`: construction, the idle timeout,
  and the receive and idle-sweep steps.
- `src/outside.rs` — declarations of the outside types the library holds.
- `app/lib.rs` — the runtime: address resolution, registering the sockets
  with Tokio, replying to a peer, and the receive, idle-check and dispatch
  loops.
