//! Flash programming driven from the host over a debug interface.
//!
//! Instead of loading a flash algorithm into target RAM, the host sends commands to the
//! device through its debug port. This crate holds the decisions: which operations are
//! carried out and in which order, what is sent to the device, and what a reply means.
//! A driver performs each operation and hands back what came of it.

pub mod flasher;
pub mod laws;
pub mod layout;
pub mod run;
pub mod ti;
