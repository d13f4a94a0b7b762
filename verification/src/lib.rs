//! A multi-socket UDP server core: the per-address peer registry, idle-peer
//! eviction, socket setup and server construction, with their contracts.
//!
//! Each remote address is one peer with its own channel; the receive loops,
//! the idle checker and the dispatch of handlers drive these pieces.

pub mod addr;
pub mod channel;
pub mod clock;
pub mod error;
pub mod lock;
pub mod outside;
pub mod peer;
pub mod prelude;
pub mod registry;
pub mod socket;
pub mod sys;
pub mod udp_serv;
