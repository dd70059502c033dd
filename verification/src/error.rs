use vstd::prelude::*;
use crate::ir::ExprId;

verus! {

/// Why code generation stopped.
#[derive(Clone, Copy, Debug, PartialEq, Eq, Structural)]
pub enum ErrorKind {
    /// The operation is of a kind for which no instruction sequence is defined.
    UnsupportedOperation,
    /// The operation is of a handled kind, but one of its operands has a shape
    /// that the selected instruction sequence cannot consume, or names a
    /// result that is not at hand: one of a later operation, or of another
    /// block.
    UnsupportedOperand,
    /// A value does not fit the fixed-width field it is destined for.
    ImmediateOverflow,
    /// The operation needs a register that lies beyond the last addressable
    /// one.
    RegisterSpaceExhausted,
}

/// A failure of code generation, with the place where it happened.
#[derive(Clone, Copy, Debug, PartialEq, Eq, Structural)]
pub struct AssembleError {
    /// What went wrong.
    pub kind: ErrorKind,
    /// The position, within its block, of the operation that could not be
    /// lowered.
    pub position: u32,
    /// The source location that was current at that operation.
    pub location: ExprId,
}

} // verus!
