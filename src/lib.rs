//! A minimal SOCKS5 proxy core: the handshake codec, the per-connection
//! negotiation state machine, and the full-duplex relay state machine.
//! Sockets, name resolution and logging are left to the caller.

pub mod codec;
pub mod session;
pub mod relay;
