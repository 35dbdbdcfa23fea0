//! Rendezvous pairing of two peer connections and the verbatim relay that
//! follows it, as state machines with exact contracts. The asynchronous
//! runtime, the sockets and the timers live around this library.

pub mod identity;
pub mod matchmaker;
pub mod relay;
pub mod connection;
pub mod session;
