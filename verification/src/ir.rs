//! The input of the code generator: a graph of basic blocks over one flat
//! sequence of operations.
//!
//! An operation has no name of its own. Its result, if it has one, is known
//! by the index of the operation in the flat sequence.

use vstd::prelude::*;

verus! {

/// The raw value of the identifier that stands for "no expression".
pub const NULL_EXPR_RAW: u32 = 0xFFFF_FFFF;

/// Identifies an expression of the source program.
#[derive(Clone, Copy, Debug, PartialEq, Eq, Structural)]
pub struct ExprId {
    pub raw: u32,
}

impl ExprId {
    /// The identifier that stands for "no expression".
    pub open spec fn spec_null() -> ExprId {
        ExprId { raw: NULL_EXPR_RAW }
    }

    /// The identifier that stands for "no expression".
    #[verifier::when_used_as_spec(spec_null)]
    pub fn null() -> (id: ExprId)
        ensures
            id == ExprId::null(),
    {
        ExprId { raw: NULL_EXPR_RAW }
    }

    /// The identifier as the 32-bit word that the location stream stores.
    pub fn to_raw(self) -> (raw: u32)
        ensures
            raw == self.raw,
    {
        self.raw
    }

    /// The identifier that a word of the location stream stands for.
    pub fn from_raw(raw: u32) -> (id: ExprId)
        ensures
            id.raw == raw,
    {
        ExprId { raw }
    }
}

/// A value that an operation consumes.
#[derive(Clone, Copy, Debug, PartialEq, Eq, Structural)]
pub enum Operand {
    /// The result of the operation at index `id` of the flat sequence.
    OpResult { id: u32 },
    /// The address of stack local `id`, `offset` bytes into it.
    ReferenceToStackLocal { id: u32, offset: u32 },
    /// The address of global `id`, `offset` bytes into it.
    ReferenceToGlobal { id: u32, offset: u32 },
    /// No value.
    Null,
}

/// One operation of the intermediate representation.
#[allow(inconsistent_fields)]
#[derive(Clone, Copy, Debug, PartialEq, Eq, Structural)]
pub enum OpKind {
    /// Marks the operations that follow as belonging to expression `expr`.
    Loc { expr: ExprId },
    /// Declares a stack local of `size` bytes.
    StackVar { size: u32 },
    /// A 32-bit unsigned literal.
    ConstantU32 { value: u32 },
    /// A 64-bit unsigned literal.
    ConstantU64 { value: u64 },
    /// Stores a 32-bit value through a pointer.
    Store32 { pointer: Operand, value: Operand },
    /// Stores a 64-bit value through a pointer.
    Store64 { pointer: Operand, value: Operand },
    /// Loads a 32-bit value through a pointer.
    Load32 { pointer: Operand },
    /// Loads a 64-bit value through a pointer.
    Load64 { pointer: Operand },
    /// Adds two 32-bit values.
    Add32 { op1: Operand, op2: Operand },
    /// Adds two 64-bit values.
    Add64 { op1: Operand, op2: Operand },
}

/// A basic block: the operations `start..end` of the flat sequence.
#[derive(Clone, Copy, Debug, PartialEq, Eq, Structural)]
pub struct Block {
    pub start: u32,
    pub end: u32,
}

/// A program as a collection of basic blocks over one sequence of operations.
#[derive(Clone, Debug)]
pub struct Graph {
    pub ops: Vec<OpKind>,
    pub blocks: Vec<Block>,
}

impl Block {
    /// The block is a range of a sequence of `len` operations.
    pub open spec fn within(self, len: int) -> bool {
        self.start <= self.end <= len
    }
}

impl Graph {
    /// Every block is a range of the flat sequence.
    pub open spec fn wf(&self) -> bool {
        forall|b: int| 0 <= b < self.blocks@.len() ==> (#[trigger] self.blocks@[b]).within(self.ops@.len() as int)
    }

    /// The graph has a block of this index.
    pub open spec fn has_block(&self, block: int) -> bool {
        0 <= block < self.blocks@.len()
    }

    /// The operations of a block, in program order.
    pub open spec fn block_ops(&self, block: int) -> Seq<OpKind> {
        self.ops@.subrange(self.blocks@[block].start as int, self.blocks@[block].end as int)
    }

    /// Tells whether every block is a range of the flat sequence.
    pub fn is_well_formed(&self) -> (ok: bool)
        ensures
            ok == self.wf(),
    {
        let len: usize = self.ops.len();
        let mut b: usize = 0;
        while b < self.blocks.len()
            invariant
                len == self.ops@.len(),
                b <= self.blocks@.len(),
                forall|k: int| 0 <= k < b ==> (#[trigger] self.blocks@[k]).within(len as int),
            decreases self.blocks@.len() - b,
        {
            let block: Block = self.blocks[b];
            if block.start > block.end || block.end as usize > len {
                return false;
            }
            b += 1;
        }
        true
    }

    /// Tells whether the graph has a block of this index.
    pub fn contains_block(&self, block: u32) -> (ok: bool)
        ensures
            ok == self.has_block(block as int),
    {
        (block as usize) < self.blocks.len()
    }
}

} // verus!
