use vm_codegen::encoding::{
    AllocLen, In64Reg, InReg, Opcode, Out64Reg, OutReg, RegSign, RegSize, StackSlot,
};
use vm_codegen::error::ErrorKind;
use vm_codegen::ir::{ExprId, OpKind, Operand};
use vm_codegen::lowering::{find_failure, lower, register_for, Word};

fn make_fp(register: u8, stack_id: u16) -> Word {
    Word::Instruction(Opcode::MakeFp { register_out: Out64Reg { id: register }, stack_id })
}

fn add16(register: u8, value: u16) -> Word {
    Word::Instruction(Opcode::Add16 { register_out: Out64Reg { id: register }, value })
}

fn add(out: u8, left: u8, right: u8) -> Word {
    Word::Instruction(Opcode::Add {
        register_out: OutReg { sign: RegSign::Unsigned, size: RegSize::Size64, id: out },
        left: InReg { size: RegSize::Size64, id: left },
        right: InReg { size: RegSize::Size64, id: right },
    })
}

fn local(id: u32, offset: u32) -> Operand {
    Operand::ReferenceToStackLocal { id, offset }
}

fn result(id: u32) -> Operand {
    Operand::OpResult { id }
}

#[test]
fn word_encodes_instruction_or_passes_immediate() {
    assert_eq!(make_fp(2, 0x0304).encode(), 0x0304_0203);
    assert_eq!(Word::Immediate(0xDEAD_BEEF).encode(), 0xDEAD_BEEF);
    assert_eq!(Word::Immediate(0).encode(), 0);
}

#[test]
fn register_is_position_plus_one() {
    assert_eq!(register_for(0), Ok(1));
    assert_eq!(register_for(1), Ok(2));
    assert_eq!(register_for(100), Ok(101));
    assert_eq!(register_for(254), Ok(255));
}

#[test]
fn register_space_ends_at_255() {
    assert_eq!(register_for(255), Err(ErrorKind::RegisterSpaceExhausted));
    assert_eq!(register_for(256), Err(ErrorKind::RegisterSpaceExhausted));
    assert_eq!(register_for(u32::MAX), Err(ErrorKind::RegisterSpaceExhausted));
}

#[test]
fn failure_names_the_first_thing_that_is_wrong() {
    let store = OpKind::Store64 { pointer: local(0, 0), value: result(0) };
    assert_eq!(find_failure(store, 1, 0), None);
    assert_eq!(find_failure(OpKind::Loc { expr: ExprId { raw: 1 } }, 9999, 0), None);
    assert_eq!(
        find_failure(OpKind::Add32 { op1: Operand::Null, op2: Operand::Null }, 300, 0),
        Some(ErrorKind::UnsupportedOperation)
    );
    // A mismatched operand, no register and an offset that does not fit.
    let all_wrong = OpKind::Add64 { op1: local(0, 70000), op2: Operand::Null };
    assert_eq!(find_failure(all_wrong, 300, 0), Some(ErrorKind::UnsupportedOperand));
    // No register and an offset that does not fit.
    let two_wrong = OpKind::Load64 { pointer: local(0, 70000) };
    assert_eq!(find_failure(two_wrong, 255, 0), Some(ErrorKind::RegisterSpaceExhausted));
    assert_eq!(find_failure(two_wrong, 254, 0), Some(ErrorKind::ImmediateOverflow));
    assert_eq!(find_failure(OpKind::Load64 { pointer: local(0, 65535) }, 254, 0), None);
}

#[test]
fn result_must_come_from_an_earlier_operation_of_the_block() {
    let store = |id: u32| OpKind::Store64 { pointer: local(0, 0), value: result(id) };
    // Position 5 of a block that starts at 10 can read 10 to 14.
    assert_eq!(find_failure(store(10), 5, 10), None);
    assert_eq!(find_failure(store(14), 5, 10), None);
    assert_eq!(find_failure(store(15), 5, 10), Some(ErrorKind::UnsupportedOperand));
    assert_eq!(find_failure(store(16), 5, 10), Some(ErrorKind::UnsupportedOperand));
    assert_eq!(find_failure(store(9), 5, 10), Some(ErrorKind::UnsupportedOperand));
    assert_eq!(find_failure(store(0), 5, 10), Some(ErrorKind::UnsupportedOperand));
    // Nothing precedes the first operation.
    assert_eq!(find_failure(store(0), 0, 0), Some(ErrorKind::UnsupportedOperand));
    let add = OpKind::Add64 { op1: result(0), op2: result(3) };
    assert_eq!(find_failure(add, 3, 0), Some(ErrorKind::UnsupportedOperand));
    assert_eq!(find_failure(add, 4, 0), None);
}

#[test]
fn address_fields_must_fit_sixteen_bits() {
    assert_eq!(lower(OpKind::Load64 { pointer: local(65536, 0) }, 0, 0), Err(ErrorKind::ImmediateOverflow));
    assert_eq!(lower(OpKind::Load64 { pointer: local(0, 65536) }, 0, 0), Err(ErrorKind::ImmediateOverflow));
    assert_eq!(
        lower(OpKind::Load64 { pointer: local(u32::MAX, u32::MAX) }, 0, 0),
        Err(ErrorKind::ImmediateOverflow)
    );
    let op = OpKind::Add64 { op1: result(0), op2: local(1, 65536) };
    assert_eq!(lower(op, 1, 0), Err(ErrorKind::ImmediateOverflow));
    let op = OpKind::Add64 { op1: local(65536, 0), op2: local(1, 0) };
    assert_eq!(lower(op, 1, 0), Err(ErrorKind::ImmediateOverflow));
}

#[test]
fn largest_address_fields() {
    assert_eq!(
        lower(OpKind::Load64 { pointer: local(65535, 65535) }, 254, 0),
        Ok(vec![
            make_fp(255, 65535),
            add16(255, 65535),
            Word::Instruction(Opcode::Get {
                register_out: OutReg { sign: RegSign::Unsigned, size: RegSize::Size64, id: 255 },
                pointer: In64Reg { id: 255 },
            }),
        ])
    );
}

#[test]
fn marker_emits_nothing() {
    assert_eq!(lower(OpKind::Loc { expr: ExprId { raw: 42 } }, 0, 0), Ok(vec![]));
    assert_eq!(lower(OpKind::Loc { expr: ExprId { raw: 42 } }, 1000, 0), Ok(vec![]));
}

#[test]
fn stack_var_allocates_its_size() {
    assert_eq!(
        lower(OpKind::StackVar { size: 8 }, 0, 0),
        Ok(vec![Word::Instruction(Opcode::StackAlloc {
            len: AllocLen { len: 8 },
            save_address: Out64Reg { id: 0 },
        })])
    );
    // A stack variable takes no register, so its position does not matter.
    assert_eq!(
        lower(OpKind::StackVar { size: 65535 }, 400, 0),
        Ok(vec![Word::Instruction(Opcode::StackAlloc {
            len: AllocLen { len: 65535 },
            save_address: Out64Reg { id: 0 },
        })])
    );
}

#[test]
fn stack_var_too_large_overflows() {
    assert_eq!(lower(OpKind::StackVar { size: 65536 }, 0, 0), Err(ErrorKind::ImmediateOverflow));
}

#[test]
fn constant_is_make64_and_two_halves() {
    assert_eq!(
        lower(OpKind::ConstantU64 { value: 0x0123_4567_89AB_CDEF }, 4, 0),
        Ok(vec![
            Word::Instruction(Opcode::Make64 {
                register_out: Out64Reg { id: 5 },
                stack_slot: StackSlot::none(),
            }),
            Word::Immediate(0x0123_4567),
            Word::Immediate(0x89AB_CDEF),
        ])
    );
}

#[test]
fn store_without_offset_is_make_fp_then_put() {
    let op = OpKind::Store64 { pointer: local(0, 0), value: result(0) };
    assert_eq!(
        lower(op, 2, 0),
        Ok(vec![
            make_fp(3, 0),
            Word::Instruction(Opcode::Put {
                pointer: In64Reg { id: 3 },
                value: InReg { size: RegSize::Size64, id: 1 },
            }),
        ])
    );
}

#[test]
fn store_with_offset_inserts_one_add16() {
    let op = OpKind::Store64 { pointer: local(0, 16), value: result(0) };
    assert_eq!(
        lower(op, 2, 0),
        Ok(vec![
            make_fp(3, 0),
            add16(3, 16),
            Word::Instruction(Opcode::Put {
                pointer: In64Reg { id: 3 },
                value: InReg { size: RegSize::Size64, id: 1 },
            }),
        ])
    );
}

#[test]
fn store_value_register_is_relative_to_block_start() {
    let op = OpKind::Store64 { pointer: local(3, 0), value: result(21) };
    assert_eq!(
        lower(op, 4, 20),
        Ok(vec![
            make_fp(5, 3),
            Word::Instruction(Opcode::Put {
                pointer: In64Reg { id: 5 },
                value: InReg { size: RegSize::Size64, id: 2 },
            }),
        ])
    );
}

#[test]
fn store_operand_mismatches() {
    let bad_value = OpKind::Store64 { pointer: local(0, 0), value: local(1, 0) };
    assert_eq!(lower(bad_value, 2, 0), Err(ErrorKind::UnsupportedOperand));
    let null_value = OpKind::Store64 { pointer: local(0, 0), value: Operand::Null };
    assert_eq!(lower(null_value, 2, 0), Err(ErrorKind::UnsupportedOperand));
    let bad_pointer = OpKind::Store64 { pointer: result(0), value: result(1) };
    assert_eq!(lower(bad_pointer, 2, 0), Err(ErrorKind::UnsupportedOperand));
    let forward = OpKind::Store64 { pointer: local(0, 0), value: result(2) };
    assert_eq!(lower(forward, 2, 0), Err(ErrorKind::UnsupportedOperand));
    let foreign = OpKind::Store64 { pointer: local(0, 0), value: result(4) };
    assert_eq!(lower(foreign, 2, 5), Err(ErrorKind::UnsupportedOperand));
}

#[test]
fn store_offset_too_large_overflows() {
    let op = OpKind::Store64 { pointer: local(0, 65536), value: result(0) };
    assert_eq!(lower(op, 2, 0), Err(ErrorKind::ImmediateOverflow));
    let op = OpKind::Store64 { pointer: local(65536, 0), value: result(0) };
    assert_eq!(lower(op, 2, 0), Err(ErrorKind::ImmediateOverflow));
}

#[test]
fn load_without_offset_is_make_fp_then_get() {
    let op = OpKind::Load64 { pointer: local(0, 0) };
    assert_eq!(
        lower(op, 3, 0),
        Ok(vec![
            make_fp(4, 0),
            Word::Instruction(Opcode::Get {
                register_out: OutReg { sign: RegSign::Unsigned, size: RegSize::Size64, id: 4 },
                pointer: In64Reg { id: 4 },
            }),
        ])
    );
}

#[test]
fn load_with_offset_inserts_one_add16() {
    let op = OpKind::Load64 { pointer: local(2, 24) };
    assert_eq!(
        lower(op, 0, 0),
        Ok(vec![
            make_fp(1, 2),
            add16(1, 24),
            Word::Instruction(Opcode::Get {
                register_out: OutReg { sign: RegSign::Unsigned, size: RegSize::Size64, id: 1 },
                pointer: In64Reg { id: 1 },
            }),
        ])
    );
}

#[test]
fn load_pointer_mismatch() {
    assert_eq!(lower(OpKind::Load64 { pointer: result(0) }, 1, 0), Err(ErrorKind::UnsupportedOperand));
    assert_eq!(lower(OpKind::Load64 { pointer: Operand::Null }, 1, 0), Err(ErrorKind::UnsupportedOperand));
}

#[test]
fn add_of_two_results_reads_their_registers() {
    let op = OpKind::Add64 { op1: result(0), op2: result(1) };
    assert_eq!(lower(op, 2, 0), Ok(vec![add(3, 1, 2)]));
    let op = OpKind::Add64 { op1: result(31), op2: result(30) };
    assert_eq!(lower(op, 2, 30), Ok(vec![add(3, 2, 1)]));
}

#[test]
fn add_of_two_stack_locals_uses_two_registers() {
    let op = OpKind::Add64 { op1: local(0, 0), op2: local(1, 0) };
    assert_eq!(lower(op, 4, 0), Ok(vec![make_fp(5, 0), make_fp(6, 1), add(5, 5, 6)]));
}

#[test]
fn add_of_two_stack_locals_with_offsets() {
    let op = OpKind::Add64 { op1: local(0, 8), op2: local(1, 16) };
    assert_eq!(
        lower(op, 0, 0),
        Ok(vec![make_fp(1, 0), add16(1, 8), make_fp(2, 1), add16(2, 16), add(1, 1, 2)])
    );
}

#[test]
fn add_of_result_and_stack_local() {
    let op = OpKind::Add64 { op1: result(0), op2: local(3, 0) };
    assert_eq!(lower(op, 1, 0), Ok(vec![make_fp(3, 3), add(2, 1, 3)]));
    let op = OpKind::Add64 { op1: local(3, 0), op2: result(0) };
    assert_eq!(lower(op, 1, 0), Ok(vec![make_fp(2, 3), add(2, 2, 1)]));
}

#[test]
fn add_operand_mismatches() {
    let op = OpKind::Add64 { op1: Operand::Null, op2: result(0) };
    assert_eq!(lower(op, 1, 0), Err(ErrorKind::UnsupportedOperand));
    let op = OpKind::Add64 { op1: result(0), op2: Operand::ReferenceToGlobal { id: 0, offset: 0 } };
    assert_eq!(lower(op, 1, 0), Err(ErrorKind::UnsupportedOperand));
    let op = OpKind::Add64 { op1: local(0, 0), op2: Operand::Null };
    assert_eq!(lower(op, 1, 0), Err(ErrorKind::UnsupportedOperand));
    let op = OpKind::Add64 { op1: result(1), op2: result(0) };
    assert_eq!(lower(op, 1, 0), Err(ErrorKind::UnsupportedOperand));
}

#[test]
fn mismatched_operand_wins_over_what_else_is_wrong() {
    // The first operand has an offset that does not fit, the second no shape.
    let op = OpKind::Add64 { op1: local(0, 0x10000), op2: Operand::Null };
    assert_eq!(lower(op, 0, 0), Err(ErrorKind::UnsupportedOperand));
    let op = OpKind::Add64 { op1: Operand::Null, op2: local(0, 70000) };
    assert_eq!(lower(op, 1, 0), Err(ErrorKind::UnsupportedOperand));
    let op = OpKind::Store64 { pointer: local(0, 70000), value: Operand::Null };
    assert_eq!(lower(op, 1, 0), Err(ErrorKind::UnsupportedOperand));
    // No register is left at these positions.
    for position in [255u32, 256, 1000, u32::MAX] {
        let op = OpKind::Store64 { pointer: Operand::Null, value: Operand::Null };
        assert_eq!(lower(op, position, 0), Err(ErrorKind::UnsupportedOperand));
        let op = OpKind::Store64 { pointer: result(0), value: result(1) };
        assert_eq!(lower(op, position, 0), Err(ErrorKind::UnsupportedOperand));
        let op = OpKind::Store64 { pointer: local(0, 0), value: local(1, 0) };
        assert_eq!(lower(op, position, 0), Err(ErrorKind::UnsupportedOperand));
        let op = OpKind::Load64 { pointer: Operand::Null };
        assert_eq!(lower(op, position, 0), Err(ErrorKind::UnsupportedOperand));
        let op = OpKind::Load64 { pointer: result(0) };
        assert_eq!(lower(op, position, 0), Err(ErrorKind::UnsupportedOperand));
        let op = OpKind::Add64 { op1: Operand::Null, op2: result(0) };
        assert_eq!(lower(op, position, 0), Err(ErrorKind::UnsupportedOperand));
        let op = OpKind::Add64 { op1: local(0, 0), op2: Operand::ReferenceToGlobal { id: 0, offset: 0 } };
        assert_eq!(lower(op, position, 0), Err(ErrorKind::UnsupportedOperand));
    }
}

#[test]
fn missing_register_wins_over_an_immediate_that_does_not_fit() {
    let op = OpKind::Add64 { op1: local(0, 70000), op2: local(1, 0) };
    assert_eq!(lower(op, 253, 0), Err(ErrorKind::ImmediateOverflow));
    assert_eq!(lower(op, 254, 0), Err(ErrorKind::RegisterSpaceExhausted));
    assert_eq!(lower(op, 255, 0), Err(ErrorKind::RegisterSpaceExhausted));
    let op = OpKind::Store64 { pointer: local(70000, 0), value: result(0) };
    assert_eq!(lower(op, 254, 0), Err(ErrorKind::ImmediateOverflow));
    assert_eq!(lower(op, 255, 0), Err(ErrorKind::RegisterSpaceExhausted));
}

#[test]
fn unsupported_kinds_are_refused_at_any_position() {
    let kinds = [
        OpKind::ConstantU32 { value: 1 },
        OpKind::Store32 { pointer: local(0, 0), value: result(0) },
        OpKind::Load32 { pointer: local(0, 0) },
        OpKind::Add32 { op1: result(0), op2: result(1) },
    ];
    for op in kinds {
        assert_eq!(lower(op, 2, 0), Err(ErrorKind::UnsupportedOperation));
        assert_eq!(lower(op, 300, 0), Err(ErrorKind::UnsupportedOperation));
    }
}

#[test]
fn last_position_with_a_register() {
    assert_eq!(
        lower(OpKind::ConstantU64 { value: 1 }, 254, 0),
        Ok(vec![
            Word::Instruction(Opcode::Make64 {
                register_out: Out64Reg { id: 255 },
                stack_slot: StackSlot::none(),
            }),
            Word::Immediate(0),
            Word::Immediate(1),
        ])
    );
    assert_eq!(lower(OpKind::Add64 { op1: local(0, 0), op2: result(0) }, 254, 0), Ok(vec![make_fp(255, 0), add(255, 255, 1)]));
}

#[test]
fn positions_beyond_the_register_space_are_refused() {
    assert_eq!(lower(OpKind::ConstantU64 { value: 1 }, 255, 0), Err(ErrorKind::RegisterSpaceExhausted));
    assert_eq!(
        lower(OpKind::Load64 { pointer: local(0, 0) }, 255, 0),
        Err(ErrorKind::RegisterSpaceExhausted)
    );
    assert_eq!(
        lower(OpKind::Store64 { pointer: local(0, 0), value: result(0) }, 255, 0),
        Err(ErrorKind::RegisterSpaceExhausted)
    );
    assert_eq!(
        lower(OpKind::Add64 { op1: result(0), op2: result(1) }, 255, 0),
        Err(ErrorKind::RegisterSpaceExhausted)
    );
    // The operands come before the register.
    assert_eq!(
        lower(OpKind::Load64 { pointer: Operand::Null }, 255, 0),
        Err(ErrorKind::UnsupportedOperand)
    );
}

#[test]
fn second_scratch_register_must_exist() {
    let op = OpKind::Add64 { op1: local(0, 0), op2: local(1, 0) };
    assert_eq!(lower(op, 253, 0), Ok(vec![make_fp(254, 0), make_fp(255, 1), add(254, 254, 255)]));
    assert_eq!(lower(op, 254, 0), Err(ErrorKind::RegisterSpaceExhausted));
    let op = OpKind::Add64 { op1: result(0), op2: local(1, 0) };
    assert_eq!(lower(op, 254, 0), Err(ErrorKind::RegisterSpaceExhausted));
}

#[test]
fn result_register_ignores_operands() {
    for position in [0u32, 1, 17, 254] {
        let register = (position + 1) as u8;
        let constant = lower(OpKind::ConstantU64 { value: position as u64 * 77 }, position, 0).unwrap();
        match constant[0] {
            Word::Instruction(Opcode::Make64 { register_out, .. }) => assert_eq!(register_out.id, register),
            _ => panic!("a constant starts with Make64"),
        }
        for pointer in [local(0, 0), local(9, 40), local(65535, 65535)] {
            let load = lower(OpKind::Load64 { pointer }, position, 0).unwrap();
            match load[load.len() - 1] {
                Word::Instruction(Opcode::Get { register_out, .. }) => assert_eq!(register_out.id, register),
                _ => panic!("a load ends with Get"),
            }
        }
    }
}
