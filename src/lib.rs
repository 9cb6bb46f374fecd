//! Correlation bridge between a synchronous caller and an asynchronous
//! worker that talk only through a message broker: each call is published
//! under a fresh correlation id, its caller waits on a single-fire slot, and
//! the response listener wakes exactly that caller when a reply with the same
//! id comes back, or the wait expires and the entry is removed.
pub mod config;
pub mod error;
pub mod gateway;
pub mod hex;
pub mod message;
pub mod slot;
pub mod table;
pub mod worker;
