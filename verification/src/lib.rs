//! Scale-to-zero reverse proxy, verified core.
//!
//! The library holds the decision logic of a proxy that lazily starts a
//! backend process on first demand, relays connections to it, and kills it
//! again after a period with no active connections. The surrounding program
//! performs the actual I/O (accepting sockets, spawning and killing the
//! process, relaying bytes) and consults this library for every decision.

pub mod config;
pub mod placeholder;
pub mod supervisor;
pub mod trace;
