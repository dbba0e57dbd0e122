//! A small datagram transport core: plaintext UDP and DTLS-secured UDP behind
//! one client/server abstraction, plus the pure parsing rules of its
//! environment-style configuration collaborator.
//!
//! The library holds the decision logic: which stream a client or server ends
//! up with, how the handshake state machine moves, what each operation on a
//! stream returns, and how raw configuration text is cleaned and parsed. The
//! socket I/O itself lives in the surrounding application, which reports its
//! outcomes to these functions as plain values.

pub mod config;
pub mod secure;
pub mod transport;
