//! Synthetic USB capture core: a capture-session state machine with running
//! counters, a deterministic packet framer, and a structured-text encoder for
//! handing records across a foreign boundary.

pub mod devices;
pub mod encode;
pub mod framer;
pub mod packet;
pub mod session;
pub mod text;
