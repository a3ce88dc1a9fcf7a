//! Decision logic of a local emulator of the Lambda Runtime API and of the
//! proxy function that relays cloud invocations to it over a pair of queues.
//!
//! Everything here works on plain values: the program around this library
//! performs the network and file operations and reports their outcomes.

pub mod codec;
pub mod config;
pub mod guard;
pub mod handlers;
pub mod json;
pub mod numbers;
pub mod proxy;
pub mod queue;
pub mod text;
pub mod types;
