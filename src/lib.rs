//! Instruction decoding for an 8-bit, Game-Boy-class processor.
//!
//! The crate turns a stream of bytes into fully resolved [`commands::Command`]
//! values. Decoding is specified by pure functions over bit fields of the
//! opcode, and the executable decoder is proved to agree with them.
use vstd::prelude::*;

pub mod commands;
pub mod decoder;
pub mod table_builder;
pub mod tables;
pub mod memory;
pub mod cartridge;
pub mod processor;

verus! {

} // verus!
