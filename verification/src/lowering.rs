//! Instruction selection for one operation.
//!
//! Registers are assigned by position: the operation at position `p` of its
//! block owns register `p + 1` for as long as the block runs. An operation
//! writes its own register and at most the one after it, so it never
//! overwrites what an earlier operation left.
//!
//! An operation is looked at in a fixed order: its kind, then the shapes of
//! its operands and the results they name, then the registers it needs, then
//! the values that go into 16-bit fields. The first of these that is wrong
//! decides the error, whatever else is wrong with the operation.

use vstd::prelude::*;
use crate::encoding::{
    high_half, low_half, split_u64, AllocLen, In64Reg, InReg, Opcode, Out64Reg, OutReg, RegSign,
    RegSize, StackSlot, LAST_REGISTER, MAX_IMMEDIATE, NO_STACK_SLOT,
};
use crate::error::ErrorKind;
use crate::ir::{OpKind, Operand};

verus! {

/// One word of the instruction stream, before it is encoded.
#[derive(Clone, Copy, Debug, PartialEq, Eq, Structural)]
pub enum Word {
    /// An opcode.
    Instruction(Opcode),
    /// A raw word that belongs to the opcode before it.
    Immediate(u32),
}

impl Word {
    /// The 32 bits that the word puts into the stream.
    pub open spec fn bits(self) -> u32 {
        match self {
            Word::Instruction(op) => op.word(),
            Word::Immediate(raw) => raw,
        }
    }

    /// Encodes the word.
    pub fn encode(&self) -> (bits: u32)
        ensures
            bits == self.bits(),
    {
        match self {
            Word::Instruction(op) => op.encode(),
            Word::Immediate(raw) => *raw,
        }
    }
}

/// The number of the register that belongs to a position.
pub open spec fn register_number(position: int) -> u8 {
    (position + 1) as u8
}

/// The register of the operation at `position` of its block, if the register
/// space reaches that far.
pub open spec fn register_at(position: int) -> Result<u8, ErrorKind> {
    if 0 <= position < LAST_REGISTER {
        Ok(register_number(position))
    } else {
        Err(ErrorKind::RegisterSpaceExhausted)
    }
}

/// The operation is of a kind that instruction selection handles.
pub open spec fn supported(op: OpKind) -> bool {
    op is Loc || op is StackVar || op is ConstantU64 || op is Store64 || op is Load64 || op is Add64
}

/// The operand is of a shape that can stand for an input of an addition.
pub open spec fn readable(operand: Operand) -> bool {
    operand is OpResult || operand is ReferenceToStackLocal
}

/// The operands of `op` have the shapes that its instructions can consume:
/// the value of a store is the result of an operation, the pointer of a store
/// or a load is the address of a stack local, and an operand of an addition
/// is one of the two.
pub open spec fn well_shaped(op: OpKind) -> bool {
    match op {
        OpKind::Store64 { pointer, value } => value is OpResult && pointer is ReferenceToStackLocal,
        OpKind::Load64 { pointer } => pointer is ReferenceToStackLocal,
        OpKind::Add64 { op1, op2 } => readable(op1) && readable(op2),
        _ => true,
    }
}

/// An operand that names a result names one that the operation at `position`
/// of the block that starts at `block_start` can read: that of an operation
/// of the same block, before it.
pub open spec fn at_hand(operand: Operand, position: int, block_start: int) -> bool {
    match operand {
        Operand::OpResult { id } => block_start <= id < block_start + position,
        _ => true,
    }
}

/// The operands of `op` are well shaped, and the results they name at hand.
pub open spec fn operands_fit(op: OpKind, position: int, block_start: int) -> bool {
    &&& well_shaped(op)
    &&& match op {
        OpKind::Store64 { value, .. } => at_hand(value, position, block_start),
        OpKind::Add64 { op1, op2 } => at_hand(op1, position, block_start) && at_hand(
            op2,
            position,
            block_start,
        ),
        _ => true,
    }
}

/// The register space holds the registers that `op` writes at `position`:
/// none for a marker or a stack variable, else its own, and for an addition
/// whose second operand is the address of a stack local the one after it.
pub open spec fn registers_fit(op: OpKind, position: int) -> bool {
    match op {
        OpKind::ConstantU64 { .. } => register_at(position) is Ok,
        OpKind::Store64 { .. } => register_at(position) is Ok,
        OpKind::Load64 { .. } => register_at(position) is Ok,
        OpKind::Add64 { op2, .. } => {
            &&& register_at(position) is Ok
            &&& op2 is ReferenceToStackLocal ==> register_at(position + 1) is Ok
        },
        _ => true,
    }
}

/// An operand that is the address of a stack local has an id and an offset
/// that fit 16 bits.
pub open spec fn address_fits(operand: Operand) -> bool {
    match operand {
        Operand::ReferenceToStackLocal { id, offset } => id <= MAX_IMMEDIATE && offset
            <= MAX_IMMEDIATE,
        _ => true,
    }
}

/// Every value of `op` that goes into a 16-bit field fits it.
pub open spec fn immediates_fit(op: OpKind) -> bool {
    match op {
        OpKind::StackVar { size } => size <= MAX_IMMEDIATE,
        OpKind::Store64 { pointer, .. } => address_fits(pointer),
        OpKind::Load64 { pointer } => address_fits(pointer),
        OpKind::Add64 { op1, op2 } => address_fits(op1) && address_fits(op2),
        _ => true,
    }
}

/// Why `op` cannot be lowered at `position` of the block that starts at
/// `block_start`; `None` if it can.
pub open spec fn failure(op: OpKind, position: int, block_start: int) -> Option<ErrorKind> {
    if !supported(op) {
        Some(ErrorKind::UnsupportedOperation)
    } else if !operands_fit(op, position, block_start) {
        Some(ErrorKind::UnsupportedOperand)
    } else if !registers_fit(op, position) {
        Some(ErrorKind::RegisterSpaceExhausted)
    } else if !immediates_fit(op) {
        Some(ErrorKind::ImmediateOverflow)
    } else {
        None
    }
}

/// The instructions that put the address of stack local `id`, plus `offset`,
/// into `register`.
pub open spec fn address_code(register: u8, id: u32, offset: u32) -> Seq<Word> {
    let make = Word::Instruction(
        Opcode::MakeFp { register_out: Out64Reg { id: register }, stack_id: id as u16 },
    );
    if offset == 0 {
        seq![make]
    } else {
        seq![
            make,
            Word::Instruction(
                Opcode::Add16 { register_out: Out64Reg { id: register }, value: offset as u16 },
            ),
        ]
    }
}

/// The instructions that make an operand readable from a register: none for
/// a result, which is read where it lies; for the address of a stack local,
/// those that build it in register `scratch`.
pub open spec fn operand_code(operand: Operand, scratch: u8) -> Seq<Word> {
    match operand {
        Operand::ReferenceToStackLocal { id, offset } => address_code(scratch, id, offset),
        _ => Seq::empty(),
    }
}

/// The register that an operand is read from: for a result, the register of
/// the position of its producer; for an address, the register `scratch` that
/// it was built in.
pub open spec fn operand_register(operand: Operand, scratch: u8, block_start: int) -> u8 {
    match operand {
        Operand::OpResult { id } => register_number(id - block_start),
        _ => scratch,
    }
}

/// The words that implement an operation that can be lowered.
pub open spec fn code_of(op: OpKind, position: int, block_start: int) -> Seq<Word> {
    let own = register_number(position);
    let next = register_number(position + 1);
    match op {
        OpKind::StackVar { size } => seq![
            Word::Instruction(
                Opcode::StackAlloc {
                    len: AllocLen { len: size as u16 },
                    save_address: Out64Reg { id: 0 },
                },
            ),
        ],
        OpKind::ConstantU64 { value } => seq![
            Word::Instruction(
                Opcode::Make64 {
                    register_out: Out64Reg { id: own },
                    stack_slot: StackSlot { raw: NO_STACK_SLOT },
                },
            ),
            Word::Immediate(high_half(value)),
            Word::Immediate(low_half(value)),
        ],
        OpKind::Store64 { pointer, value } => operand_code(pointer, own).push(
            Word::Instruction(
                Opcode::Put {
                    pointer: In64Reg { id: own },
                    value: InReg {
                        size: RegSize::Size64,
                        id: operand_register(value, own, block_start),
                    },
                },
            ),
        ),
        OpKind::Load64 { pointer } => operand_code(pointer, own).push(
            Word::Instruction(
                Opcode::Get {
                    register_out: OutReg { sign: RegSign::Unsigned, size: RegSize::Size64, id: own },
                    pointer: In64Reg { id: own },
                },
            ),
        ),
        OpKind::Add64 { op1, op2 } => (operand_code(op1, own) + operand_code(op2, next)).push(
            Word::Instruction(
                Opcode::Add {
                    register_out: OutReg { sign: RegSign::Unsigned, size: RegSize::Size64, id: own },
                    left: InReg {
                        size: RegSize::Size64,
                        id: operand_register(op1, own, block_start),
                    },
                    right: InReg {
                        size: RegSize::Size64,
                        id: operand_register(op2, next, block_start),
                    },
                },
            ),
        ),
        _ => Seq::empty(),
    }
}

/// The words that implement `op` at `position` of the block that starts at
/// index `block_start` of the flat sequence, or the reason why there are none.
pub open spec fn op_code(op: OpKind, position: int, block_start: int) -> Result<Seq<Word>, ErrorKind> {
    match failure(op, position, block_start) {
        Some(kind) => Err(kind),
        None => Ok(code_of(op, position, block_start)),
    }
}

/// The operation is of a kind that leaves a result in its register.
pub open spec fn has_result(op: OpKind) -> bool {
    op is ConstantU64 || op is Load64 || op is Add64
}

/// The word of `code` that writes the result of `op`: the first for a
/// constant, whose immediate words follow it, else the last.
pub open spec fn result_word(op: OpKind, code: Seq<Word>) -> Word {
    if op is ConstantU64 {
        code[0]
    } else {
        code.last()
    }
}

/// An operation is refused as unsupported exactly if its kind is not among
/// the handled ones, whatever its position.
pub proof fn lemma_unsupported_operation(op: OpKind, position: int, block_start: int)
    ensures
        op_code(op, position, block_start) == Err::<Seq<Word>, ErrorKind>(
            ErrorKind::UnsupportedOperation,
        ) <==> !supported(op),
{
}

/// An operand of a shape that the operation cannot consume is refused as
/// such, at every position and whatever else is wrong with the operation:
/// the value of a store must be the result of an operation, the pointer of a
/// store or a load the address of a stack local, and each operand of an
/// addition one of the two.
pub proof fn lemma_unsupported_operand(op: OpKind, position: int, block_start: int)
    requires
        match op {
            OpKind::Store64 { pointer, value } => !(value is OpResult) || !(pointer is ReferenceToStackLocal),
            OpKind::Load64 { pointer } => !(pointer is ReferenceToStackLocal),
            OpKind::Add64 { op1, op2 } => !readable(op1) || !readable(op2),
            _ => false,
        },
    ensures
        op_code(op, position, block_start) == Err::<Seq<Word>, ErrorKind>(
            ErrorKind::UnsupportedOperand,
        ),
{
}

/// A result can only be read after it was produced, in the block that
/// produced it: a store or an addition that reads any other is refused, at
/// every position.
pub proof fn lemma_result_must_precede(op: OpKind, id: u32, position: int, block_start: int)
    requires
        id < block_start || id >= block_start + position,
        match op {
            OpKind::Store64 { value, .. } => value == (Operand::OpResult { id }),
            OpKind::Add64 { op1, op2 } => op1 == (Operand::OpResult { id }) || op2 == (
                Operand::OpResult { id }
            ),
            _ => false,
        },
    ensures
        op_code(op, position, block_start) == Err::<Seq<Word>, ErrorKind>(
            ErrorKind::UnsupportedOperand,
        ),
{
}

/// The register of a result depends on the position of its operation alone:
/// whatever the operands, the operation at position `p` leaves its result in
/// register `p + 1`.
pub proof fn lemma_result_register(op: OpKind, position: int, block_start: int)
    requires
        has_result(op),
        op_code(op, position, block_start) is Ok,
    ensures
        0 <= position < LAST_REGISTER,
        ({
            let code = op_code(op, position, block_start)->Ok_0;
            &&& code.len() > 0
            &&& result_word(op, code) matches Word::Instruction(instruction)
            &&& instruction.written() == Some((position + 1) as u8)
        }),
{
}

/// An operation leaves the results of the operations before it alone: each
/// of its instructions writes the register of the operation, or the one
/// after it, or none.
pub proof fn lemma_earlier_results_survive(op: OpKind, position: int, block_start: int, i: int)
    requires
        op_code(op, position, block_start) is Ok,
        0 <= i < op_code(op, position, block_start)->Ok_0.len(),
    ensures
        op_code(op, position, block_start)->Ok_0[i] matches Word::Instruction(instruction) ==> {
            ||| instruction.written() is None
            ||| instruction.written() == Some((position + 1) as u8) && position + 1 <= LAST_REGISTER
            ||| instruction.written() == Some((position + 2) as u8) && position + 2 <= LAST_REGISTER
        },
{
}

/// Two stack locals as the operands of one addition get a register each: the
/// address of the first is built in the register of the operation, that of
/// the second in the register after it, and the addition reads both.
pub proof fn lemma_stack_operands_apart(
    id1: u32,
    offset1: u32,
    id2: u32,
    offset2: u32,
    position: int,
    block_start: int,
)
    requires
        0 <= position < LAST_REGISTER - 1,
        id1 <= MAX_IMMEDIATE,
        offset1 <= MAX_IMMEDIATE,
        id2 <= MAX_IMMEDIATE,
        offset2 <= MAX_IMMEDIATE,
    ensures
        ({
            let op = OpKind::Add64 {
                op1: Operand::ReferenceToStackLocal { id: id1, offset: offset1 },
                op2: Operand::ReferenceToStackLocal { id: id2, offset: offset2 },
            };
            let own = (position + 1) as u8;
            let next = (position + 2) as u8;
            &&& own != next
            &&& op_code(op, position, block_start) == Ok::<Seq<Word>, ErrorKind>(
                (address_code(own, id1, offset1) + address_code(next, id2, offset2)).push(
                    Word::Instruction(
                        Opcode::Add {
                            register_out: OutReg {
                                sign: RegSign::Unsigned,
                                size: RegSize::Size64,
                                id: own,
                            },
                            left: InReg { size: RegSize::Size64, id: own },
                            right: InReg { size: RegSize::Size64, id: next },
                        },
                    ),
                ),
            )
        }),
{
}

/// An outcome of instruction selection is the one that `expected` names.
pub open spec fn selects(outcome: Result<Vec<Word>, ErrorKind>, expected: Result<Seq<Word>, ErrorKind>) -> bool {
    match outcome {
        Ok(code) => expected == Ok::<Seq<Word>, ErrorKind>(code@),
        Err(kind) => expected == Err::<Seq<Word>, ErrorKind>(kind),
    }
}

fn register_of(position: u32) -> (register: u8)
    requires
        position < LAST_REGISTER,
    ensures
        register == register_number(position as int),
{
    (position + 1) as u8
}

/// The register of the operation at `position` of its block.
pub fn register_for(position: u32) -> (register: Result<u8, ErrorKind>)
    ensures
        register == register_at(position as int),
{
    if position < LAST_REGISTER as u32 {
        Ok(register_of(position))
    } else {
        Err(ErrorKind::RegisterSpaceExhausted)
    }
}

fn is_supported(op: OpKind) -> (yes: bool)
    ensures
        yes == supported(op),
{
    match op {
        OpKind::Loc { .. } => true,
        OpKind::StackVar { .. } => true,
        OpKind::ConstantU64 { .. } => true,
        OpKind::Store64 { .. } => true,
        OpKind::Load64 { .. } => true,
        OpKind::Add64 { .. } => true,
        _ => false,
    }
}

fn is_result(operand: Operand) -> (yes: bool)
    ensures
        yes == (operand is OpResult),
{
    match operand {
        Operand::OpResult { .. } => true,
        _ => false,
    }
}

fn is_stack_local(operand: Operand) -> (yes: bool)
    ensures
        yes == (operand is ReferenceToStackLocal),
{
    match operand {
        Operand::ReferenceToStackLocal { .. } => true,
        _ => false,
    }
}

fn is_at_hand(operand: Operand, position: u32, block_start: u32) -> (yes: bool)
    ensures
        yes == at_hand(operand, position as int, block_start as int),
{
    match operand {
        Operand::OpResult { id } => id >= block_start && id - block_start < position,
        _ => true,
    }
}

fn operands_are_fit(op: OpKind, position: u32, block_start: u32) -> (yes: bool)
    ensures
        yes == operands_fit(op, position as int, block_start as int),
{
    match op {
        OpKind::Store64 { pointer, value } => is_result(value) && is_stack_local(pointer)
            && is_at_hand(value, position, block_start),
        OpKind::Load64 { pointer } => is_stack_local(pointer),
        OpKind::Add64 { op1, op2 } => (is_result(op1) || is_stack_local(op1)) && (is_result(op2)
            || is_stack_local(op2)) && is_at_hand(op1, position, block_start) && is_at_hand(
            op2,
            position,
            block_start,
        ),
        _ => true,
    }
}

fn registers_are_fit(op: OpKind, position: u32) -> (yes: bool)
    ensures
        yes == registers_fit(op, position as int),
{
    match op {
        OpKind::ConstantU64 { .. } => register_for(position).is_ok(),
        OpKind::Store64 { .. } => register_for(position).is_ok(),
        OpKind::Load64 { .. } => register_for(position).is_ok(),
        OpKind::Add64 { op2, .. } => register_for(position).is_ok() && (!is_stack_local(op2)
            || register_for(position + 1).is_ok()),
        _ => true,
    }
}

fn address_is_fit(operand: Operand) -> (yes: bool)
    ensures
        yes == address_fits(operand),
{
    match operand {
        Operand::ReferenceToStackLocal { id, offset } => id <= MAX_IMMEDIATE && offset
            <= MAX_IMMEDIATE,
        _ => true,
    }
}

fn immediates_are_fit(op: OpKind) -> (yes: bool)
    ensures
        yes == immediates_fit(op),
{
    match op {
        OpKind::StackVar { size } => AllocLen::new(size).is_ok(),
        OpKind::Store64 { pointer, .. } => address_is_fit(pointer),
        OpKind::Load64 { pointer } => address_is_fit(pointer),
        OpKind::Add64 { op1, op2 } => address_is_fit(op1) && address_is_fit(op2),
        _ => true,
    }
}

/// Finds why `op` cannot be lowered at `position` of the block that starts
/// at `block_start`; `None` if it can.
pub fn find_failure(op: OpKind, position: u32, block_start: u32) -> (found: Option<ErrorKind>)
    ensures
        found == failure(op, position as int, block_start as int),
{
    if !is_supported(op) {
        Some(ErrorKind::UnsupportedOperation)
    } else if !operands_are_fit(op, position, block_start) {
        Some(ErrorKind::UnsupportedOperand)
    } else if !registers_are_fit(op, position) {
        Some(ErrorKind::RegisterSpaceExhausted)
    } else if !immediates_are_fit(op) {
        Some(ErrorKind::ImmediateOverflow)
    } else {
        None
    }
}

fn push_operand_code(code: &mut Vec<Word>, operand: Operand, scratch: u8)
    requires
        address_fits(operand),
    ensures
        final(code)@ == old(code)@ + operand_code(operand, scratch),
{
    match operand {
        Operand::ReferenceToStackLocal { id, offset } => {
            code.push(
                Word::Instruction(
                    Opcode::MakeFp { register_out: Out64Reg::new(scratch), stack_id: id as u16 },
                ),
            );
            if offset != 0 {
                code.push(
                    Word::Instruction(
                        Opcode::Add16 { register_out: Out64Reg::new(scratch), value: offset as u16 },
                    ),
                );
            }
            assert(code@ =~= old(code)@ + operand_code(operand, scratch));
        },
        _ => {
            assert(code@ =~= old(code)@ + operand_code(operand, scratch));
        },
    }
}

fn register_of_operand(operand: Operand, scratch: u8, position: u32, block_start: u32) -> (register: u8)
    requires
        position < LAST_REGISTER,
        at_hand(operand, position as int, block_start as int),
    ensures
        register == operand_register(operand, scratch, block_start as int),
{
    match operand {
        Operand::OpResult { id } => register_of(id - block_start),
        _ => scratch,
    }
}

/// Selects the words that implement `op` at `position` of the block that
/// starts at index `block_start` of the flat sequence.
///
/// Nothing is selected for an operation that cannot be lowered in full: the
/// outcome is either the whole sequence or the reason why there is none.
pub fn lower(op: OpKind, position: u32, block_start: u32) -> (outcome: Result<Vec<Word>, ErrorKind>)
    ensures
        selects(outcome, op_code(op, position as int, block_start as int)),
{
    if let Some(kind) = find_failure(op, position, block_start) {
        return Err(kind);
    }
    let ghost expected = code_of(op, position as int, block_start as int);
    let mut code: Vec<Word> = Vec::new();
    match op {
        OpKind::StackVar { size } => {
            code.push(
                Word::Instruction(
                    Opcode::StackAlloc {
                        len: AllocLen { len: size as u16 },
                        save_address: Out64Reg::null(),
                    },
                ),
            );
        },
        OpKind::ConstantU64 { value } => {
            let own: u8 = register_of(position);
            let (high, low) = split_u64(value);
            code.push(
                Word::Instruction(
                    Opcode::Make64 { register_out: Out64Reg::new(own), stack_slot: StackSlot::none() },
                ),
            );
            code.push(Word::Immediate(high));
            code.push(Word::Immediate(low));
        },
        OpKind::Store64 { pointer, value } => {
            let own: u8 = register_of(position);
            let source: u8 = register_of_operand(value, own, position, block_start);
            push_operand_code(&mut code, pointer, own);
            code.push(
                Word::Instruction(
                    Opcode::Put {
                        pointer: In64Reg::new(own),
                        value: InReg::new(RegSize::Size64, source),
                    },
                ),
            );
        },
        OpKind::Load64 { pointer } => {
            let own: u8 = register_of(position);
            push_operand_code(&mut code, pointer, own);
            code.push(
                Word::Instruction(
                    Opcode::Get {
                        register_out: OutReg::new(RegSign::Unsigned, RegSize::Size64, own),
                        pointer: In64Reg::new(own),
                    },
                ),
            );
        },
        OpKind::Add64 { op1, op2 } => {
            let own: u8 = register_of(position);
            // The first address is built in the register of the operation.
            // A second one must not overwrite it: it gets the register after.
            let next: u8 = if is_stack_local(op2) {
                register_of(position + 1)
            } else {
                own
            };
            let left: u8 = register_of_operand(op1, own, position, block_start);
            let right: u8 = register_of_operand(op2, next, position, block_start);
            push_operand_code(&mut code, op1, own);
            push_operand_code(&mut code, op2, next);
            code.push(
                Word::Instruction(
                    Opcode::Add {
                        register_out: OutReg::new(RegSign::Unsigned, RegSize::Size64, own),
                        left: InReg::new(RegSize::Size64, left),
                        right: InReg::new(RegSize::Size64, right),
                    },
                ),
            );
        },
        _ => {},
    }
    assert(code@ =~= expected);
    Ok(code)
}

} // verus!
