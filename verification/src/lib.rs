//! An interpreter for an 8-bit fantasy processor in the CHIP-8 family.
//!
//! - `machine`: the machine state, its model and its construction.
//! - `bits`, `ops`, `display`: the instructions and what each does to the
//!   state; `display` holds the XOR sprite blit.
//! - `opcodes`: the opcode table and the dispatcher.
//! - `cycle`: the fetch-decode-execute cycle.
//! - `disasm`, `text`: the disassembler and the number formats it needs.
//! - `report`: diagnostics and a dump of the state.
//! - `scaling`: the framebuffer as an enlarged image.
//! - `laws`: what holds of every cycle.
//!
//! A host builds a `Machine` around a program image, calls `cycle` once
//! per tick until it returns `true`, and reads `video_mem` in between.

pub mod bits;
pub mod machine;
pub mod ops;
pub mod display;
pub mod scaling;
pub mod text;
pub mod opcodes;
pub mod disasm;
pub mod cycle;
pub mod laws;
pub mod report;

pub use bits::{extract_bit, get_bit};
pub use machine::{Fault, Machine};
pub use opcodes::{create_opcodes, get_opcode, Opcode, Operation};
