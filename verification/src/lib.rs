//! Rendezvous relay for two peers that share a room key: message framing,
//! the symmetric envelope, the key-agreement bootstrap, the room registry and
//! the per-connection session, all free of I/O. The caller owns the sockets,
//! the clock and the threads, and feeds this library bytes, times and events.

pub mod cli;
pub mod comm;
pub mod croc;
pub mod crypt;
pub mod model;
pub mod pake;
pub mod peerdiscovery;
pub mod tcp;
pub mod utils;
