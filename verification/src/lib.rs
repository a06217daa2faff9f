//! A counter held in four bytes of account data, and the instructions that
//! change it.
//!
//! One invocation takes the byte region that stores the counter and the bytes
//! of an instruction. It decodes the instruction, reads the counter, applies
//! the instruction and writes the counter back. Every step has a contract
//! over byte sequences, so the whole transition is a function of the two
//! inputs. Nothing is written unless both inputs decode.

pub mod instruction;
pub mod processor;
pub mod state;
pub mod wire;

pub use crate::instruction::{CounterInstruction, DecodeError};
pub use crate::processor::{apply, execute, process_instruction, Error};
pub use crate::state::{decode_state, encode_state, write_state, CodecError, CounterAccount};
