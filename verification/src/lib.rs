//! Core logic of a TCP echo service with coordinated, graceful shutdown.
//!
//! The library holds the verified decision logic: the broadcast shutdown
//! signal, the per-connection handling state machine, and the server's
//! accept/drain state machine with its set of live connection tasks.
//! The surrounding process performs the socket and timer operations and
//! feeds the observed events into these machines.

pub mod connection;
pub mod server;
pub mod shutdown;
