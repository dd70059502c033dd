//! A single-pass code generator for a register-based virtual machine.
//!
//! One basic block of a graph-structured intermediate representation is
//! lowered into a linear stream of 32-bit instruction words, together with a
//! parallel stream of source-location tags, one per word.
//!
//! * [`encoding`] defines the opcode vocabulary, the typed register
//!   references and the layout of an opcode inside one 32-bit word.
//! * [`ir`] models the input graph: operations, operands, blocks.
//! * [`lowering`] selects the instruction sequence for one operation.
//! * [`assembler`] holds the [`assembler::Assembler`], which walks a block and fills the
//!   two output streams.
//! * [`error`] names the ways in which code generation can fail.

pub mod error;
pub mod encoding;
pub mod ir;
pub mod lowering;
pub mod assembler;
