//! The assembler: one pass over a basic block that fills the instruction
//! stream and, word for word, the location stream.

use vstd::prelude::*;
use crate::error::{AssembleError, ErrorKind};
use crate::ir::{Block, ExprId, Graph, OpKind};
use crate::encoding::{
    decoding, high_half, join_halves, lemma_decode_encode, lemma_join_split, low_half, Opcode,
    Out64Reg, StackSlot, NO_STACK_SLOT,
};
use crate::lowering::{lower, op_code, Word};

verus! {

/// The words of a sequence of code, encoded.
pub open spec fn words_of(code: Seq<Word>) -> Seq<u32> {
    code.map_values(|word: Word| word.bits())
}

/// The location tag repeated once per word of `code`.
pub open spec fn tags_of(code: Seq<Word>, location: ExprId) -> Seq<u32> {
    Seq::new(code.len(), |i: int| location.raw)
}

/// The source location that is current after the first `n` operations of
/// `ops`, when it was `initial` before the first: the expression of the last
/// marker among them.
pub open spec fn location_at(ops: Seq<OpKind>, initial: ExprId, n: int) -> ExprId
    decreases n,
{
    if n <= 0 {
        initial
    } else {
        match ops[n - 1] {
            OpKind::Loc { expr } => expr,
            _ => location_at(ops, initial, n - 1),
        }
    }
}

/// The code of the operation at position `i` of a block; none if the
/// operation cannot be lowered.
pub open spec fn code_at(ops: Seq<OpKind>, block_start: int, i: int) -> Seq<Word> {
    match op_code(ops[i], i, block_start) {
        Ok(code) => code,
        Err(_) => Seq::empty(),
    }
}

/// Each of the first `n` operations of a block can be lowered.
pub open spec fn lowers(ops: Seq<OpKind>, block_start: int, n: int) -> bool {
    forall|i: int| 0 <= i < n ==> (#[trigger] op_code(ops[i], i, block_start)) is Ok
}

/// The instruction words of the first `n` operations of a block.
pub open spec fn block_words(ops: Seq<OpKind>, block_start: int, n: int) -> Seq<u32>
    decreases n,
{
    if n <= 0 {
        Seq::empty()
    } else {
        block_words(ops, block_start, n - 1) + words_of(code_at(ops, block_start, n - 1))
    }
}

/// The location tags of the first `n` operations of a block, one per
/// instruction word: each word carries the location that was current when
/// its operation was reached.
pub open spec fn block_tags(ops: Seq<OpKind>, block_start: int, initial: ExprId, n: int) -> Seq<u32>
    decreases n,
{
    if n <= 0 {
        Seq::empty()
    } else {
        block_tags(ops, block_start, initial, n - 1) + tags_of(
            code_at(ops, block_start, n - 1),
            location_at(ops, initial, n - 1),
        )
    }
}

/// The two streams grow in step: a block emits as many tags as words.
pub proof fn lemma_one_tag_per_word(ops: Seq<OpKind>, block_start: int, initial: ExprId, n: int)
    ensures
        block_tags(ops, block_start, initial, n).len() == block_words(ops, block_start, n).len(),
    decreases n,
{
    if n > 0 {
        lemma_one_tag_per_word(ops, block_start, initial, n - 1);
    }
}

/// After a marker, and until the next one, the current source location is
/// the expression of the marker.
pub proof fn lemma_location_after_marker(ops: Seq<OpKind>, initial: ExprId, expr: ExprId, m: int, n: int)
    requires
        0 <= m < n,
        ops[m] == (OpKind::Loc { expr }),
        forall|i: int| m < i < n ==> !(#[trigger] ops[i] is Loc),
    ensures
        location_at(ops, initial, n) == expr,
    decreases n,
{
    if n > m + 1 {
        lemma_location_after_marker(ops, initial, expr, m, n - 1);
    }
}

/// Before the first marker, the current source location is the initial one.
pub proof fn lemma_location_before_marker(ops: Seq<OpKind>, initial: ExprId, n: int)
    requires
        forall|i: int| 0 <= i < n ==> !(#[trigger] ops[i] is Loc),
    ensures
        location_at(ops, initial, n) == initial,
    decreases n,
{
    if n > 0 {
        lemma_location_before_marker(ops, initial, n - 1);
    }
}

/// Every word emitted after the marker at position `m`, and before the next
/// marker, is tagged with the expression of that marker.
pub proof fn lemma_tags_after_marker(
    ops: Seq<OpKind>,
    block_start: int,
    initial: ExprId,
    expr: ExprId,
    m: int,
    n: int,
)
    requires
        0 <= m < n,
        ops[m] == (OpKind::Loc { expr }),
        forall|i: int| m < i < n ==> !(#[trigger] ops[i] is Loc),
    ensures
        block_words(ops, block_start, m).len() <= block_words(ops, block_start, n).len(),
        block_tags(ops, block_start, initial, n).len() == block_words(ops, block_start, n).len(),
        forall|w: int|
            block_words(ops, block_start, m).len() <= w < block_words(ops, block_start, n).len()
                ==> #[trigger] block_tags(ops, block_start, initial, n)[w] == expr.raw,
    decreases n,
{
    lemma_one_tag_per_word(ops, block_start, initial, n);
    lemma_one_tag_per_word(ops, block_start, initial, n - 1);
    lemma_one_tag_per_word(ops, block_start, initial, m);
    if n > m + 1 {
        lemma_tags_after_marker(ops, block_start, initial, expr, m, n - 1);
        lemma_location_after_marker(ops, initial, expr, m, n - 1);
    } else {
        assert(code_at(ops, block_start, m) =~= Seq::<Word>::empty());
    }
}

/// Every word emitted before the first marker is tagged with the initial
/// source location.
pub proof fn lemma_tags_before_marker(ops: Seq<OpKind>, block_start: int, initial: ExprId, n: int)
    requires
        forall|i: int| 0 <= i < n ==> !(#[trigger] ops[i] is Loc),
    ensures
        block_tags(ops, block_start, initial, n).len() == block_words(ops, block_start, n).len(),
        forall|w: int|
            0 <= w < block_words(ops, block_start, n).len() ==> #[trigger] block_tags(
                ops,
                block_start,
                initial,
                n,
            )[w] == initial.raw,
    decreases n,
{
    lemma_one_tag_per_word(ops, block_start, initial, n);
    if n > 0 {
        lemma_tags_before_marker(ops, block_start, initial, n - 1);
        lemma_location_before_marker(ops, initial, n - 1);
    }
}

/// A block of one 64-bit constant emits three words: `Make64` into register
/// 1, then the high half and the low half of the constant, from which the
/// constant can be read back.
pub proof fn lemma_constant_round_trip(value: u64, block_start: int)
    ensures
        ({
            let ops = seq![OpKind::ConstantU64 { value }];
            let words = block_words(ops, block_start, 1);
            &&& lowers(ops, block_start, 1)
            &&& words.len() == 3
            &&& decoding(words[0]) == Some(
                Opcode::Make64 {
                    register_out: Out64Reg { id: 1 },
                    stack_slot: StackSlot { raw: NO_STACK_SLOT },
                },
            )
            &&& words[1] == high_half(value)
            &&& words[2] == low_half(value)
            &&& join_halves(words[1], words[2]) == value
        }),
{
    let ops = seq![OpKind::ConstantU64 { value }];
    let make = Opcode::Make64 {
        register_out: Out64Reg { id: 1 },
        stack_slot: StackSlot { raw: NO_STACK_SLOT },
    };
    let code = seq![
        Word::Instruction(make),
        Word::Immediate(high_half(value)),
        Word::Immediate(low_half(value)),
    ];
    assert(op_code(ops[0], 0, block_start) == Ok::<Seq<Word>, ErrorKind>(code));
    assert(code_at(ops, block_start, 0) == code);
    assert(block_words(ops, block_start, 0) =~= Seq::<u32>::empty());
    assert(block_words(ops, block_start, 1) =~= words_of(code));
    lemma_decode_encode(make);
    lemma_join_split(value);
}

/// Accumulates the instruction stream and the location stream.
#[derive(Clone, Debug)]
pub struct Assembler {
    /// The instruction stream: opcodes and their immediate words.
    pub exe_bytes: Vec<u32>,
    /// The location stream: for each word of the instruction stream, the raw
    /// identifier of the expression it was emitted for.
    pub loc_bytes: Vec<u32>,
    /// The source location that the next word is emitted for.
    pub current_expr: ExprId,
}

impl Assembler {
    /// The two streams have one entry per word.
    pub open spec fn wf(&self) -> bool {
        self.exe_bytes@.len() == self.loc_bytes@.len()
    }

    /// `self` is `before` after the first `n` operations of a block were
    /// lowered into it.
    pub open spec fn extends(&self, before: &Assembler, ops: Seq<OpKind>, block_start: int, n: int) -> bool {
        &&& self.exe_bytes@ == before.exe_bytes@ + block_words(ops, block_start, n)
        &&& self.loc_bytes@ == before.loc_bytes@ + block_tags(
            ops,
            block_start,
            before.current_expr,
            n,
        )
        &&& self.current_expr == location_at(ops, before.current_expr, n)
    }

    /// An assembler with empty streams and no current source location.
    pub fn new() -> (assembler: Self)
        ensures
            assembler.exe_bytes@ == Seq::<u32>::empty(),
            assembler.loc_bytes@ == Seq::<u32>::empty(),
            assembler.current_expr == ExprId::null(),
            assembler.wf(),
    {
        Assembler {
            exe_bytes: Vec::with_capacity(256),
            loc_bytes: Vec::with_capacity(256),
            current_expr: ExprId::null(),
        }
    }

    /// Appends one word to the instruction stream, and the current source
    /// location to the location stream.
    pub fn push(&mut self, word: u32)
        ensures
            final(self).exe_bytes@ == old(self).exe_bytes@.push(word),
            final(self).loc_bytes@ == old(self).loc_bytes@.push(old(self).current_expr.raw),
            final(self).current_expr == old(self).current_expr,
            old(self).wf() ==> final(self).wf(),
    {
        self.exe_bytes.push(word);
        self.loc_bytes.push(self.current_expr.to_raw());
    }

    /// Appends the words of `code`, each with the current source location.
    pub fn push_code(&mut self, code: &Vec<Word>)
        ensures
            final(self).exe_bytes@ == old(self).exe_bytes@ + words_of(code@),
            final(self).loc_bytes@ == old(self).loc_bytes@ + tags_of(code@, old(self).current_expr),
            final(self).current_expr == old(self).current_expr,
            old(self).wf() ==> final(self).wf(),
    {
        let mut i: usize = 0;
        while i < code.len()
            invariant
                i <= code@.len(),
                self.exe_bytes@ == old(self).exe_bytes@ + words_of(code@.subrange(0, i as int)),
                self.loc_bytes@ == old(self).loc_bytes@ + tags_of(
                    code@.subrange(0, i as int),
                    old(self).current_expr,
                ),
                self.current_expr == old(self).current_expr,
            decreases code@.len() - i,
        {
            let bits: u32 = code[i].encode();
            self.push(bits);
            i += 1;
        }
        proof {
            assert(code@.subrange(0, i as int) =~= code@);
        }
    }

    /// Lowers the operations of block `entry_block`, in order, into the two
    /// streams.
    ///
    /// The pass stops at the first operation that cannot be lowered. The
    /// streams then hold what the operations before it emitted and nothing of
    /// the failing one, and the error names its position and the source
    /// location that was current there.
    pub fn assemble(&mut self, graph: &Graph, entry_block: u32) -> (outcome: Result<(), AssembleError>)
        requires
            graph.wf(),
            graph.has_block(entry_block as int),
        ensures
            old(self).wf() ==> final(self).wf(),
            ({
                let ops = graph.block_ops(entry_block as int);
                let block_start = graph.blocks@[entry_block as int].start as int;
                match outcome {
                    Ok(_) => {
                        &&& lowers(ops, block_start, ops.len() as int)
                        &&& final(self).extends(old(self), ops, block_start, ops.len() as int)
                    },
                    Err(error) => {
                        &&& error.position < ops.len()
                        &&& lowers(ops, block_start, error.position as int)
                        &&& op_code(ops[error.position as int], error.position as int, block_start)
                            == Err::<Seq<Word>, ErrorKind>(error.kind)
                        &&& error.location == location_at(
                            ops,
                            old(self).current_expr,
                            error.position as int,
                        )
                        &&& final(self).extends(old(self), ops, block_start, error.position as int)
                    },
                }
            }),
    {
        let block: Block = graph.blocks[entry_block as usize];
        let block_start: u32 = block.start;
        let count: u32 = block.end - block.start;
        let ghost ops = graph.block_ops(entry_block as int);
        let mut position: u32 = 0;
        while position < count
            invariant
                graph.wf(),
                graph.has_block(entry_block as int),
                block == graph.blocks@[entry_block as int],
                block_start == block.start,
                count == block.end - block.start,
                ops == graph.block_ops(entry_block as int),
                position <= count,
                lowers(ops, block_start as int, position as int),
                self.extends(old(self), ops, block_start as int, position as int),
                old(self).wf() ==> self.wf(),
            decreases count - position,
        {
            let op: OpKind = graph.ops[(block_start + position) as usize];
            assert(op == ops[position as int]);
            match lower(op, position, block_start) {
                Ok(code) => {
                    if let OpKind::Loc { expr } = op {
                        self.current_expr = expr;
                    }
                    self.push_code(&code);
                    proof {
                        // Appending is associative: what was there, then the
                        // block so far, then the code of this operation.
                        let next = position as int + 1;
                        assert(self.exe_bytes@ =~= old(self).exe_bytes@ + block_words(
                            ops,
                            block_start as int,
                            next,
                        ));
                        assert(self.loc_bytes@ =~= old(self).loc_bytes@ + block_tags(
                            ops,
                            block_start as int,
                            old(self).current_expr,
                            next,
                        ));
                    }
                },
                Err(kind) => {
                    return Err(AssembleError { kind, position, location: self.current_expr });
                },
            }
            position += 1;
        }
        Ok(())
    }
}

} // verus!
