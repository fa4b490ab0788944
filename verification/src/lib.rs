//! Verified decision logic of a set of small networking and concurrency
//! programs: a message echo protocol, connection numbering, a
//! hand-written future's shared state, and the arithmetic and stop rules of
//! a few worker threads. Everything that touches sockets, threads, locks or
//! the clock lives outside this crate and drives these functions.

pub mod message;
pub mod echo;
pub mod server;
pub mod future_state;
pub mod workers;
pub mod consumer;
