//! A connection-handling relay, verified: it classifies each inbound HTTP
//! request as a plain exchange or a protocol-upgrade attempt, echoes plain
//! requests byte for byte, performs the upgrade handshake, and echoes frames
//! on the upgraded channel until the session closes. A verbosity-tiered
//! logging layer observes both paths without altering them.
//!
//! The library holds the decision logic and its proofs; socket I/O, the
//! async runtime and the wire codecs live with the caller.

pub mod dispatch;
pub mod logging;
pub mod message;
pub mod service;
pub mod session;


