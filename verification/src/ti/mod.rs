//! Texas Instruments CC23xx and CC27xx devices.
//!
//! Their boot ROM offers SACI, a command interface that is reached through an access port
//! of the debug port and that programs the flash.

pub mod command_laws;
pub mod crc;
pub mod debug_sequence;
pub mod error;
pub mod flash_sequence;
pub mod laws;
pub mod registers;
pub mod saci;
pub mod script;
pub mod sequence_laws;
