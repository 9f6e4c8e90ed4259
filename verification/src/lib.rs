//! Verified core of a small SOCKS5 proxy that forwards each accepted
//! connection over one shared, already-authenticated secure-shell session
//! (or, as a fallback, by dialing the target directly).
//!
//! Everything that decides — handshake parsing, reply formatting, picking a
//! resolved address, and the per-connection state machine that drives the
//! relay — lives here and is verified. The surrounding async runtime, the
//! sockets, the DNS lookup and the secure-shell transport are collaborators
//! that hand this library plain bytes and take plain bytes back.

pub mod conn;
pub mod trace;
pub mod protocol;
pub mod resolver;
pub mod session;
