use chip8::cpu::Chip8;
use chip8::instruction::{decode, Fault, Instruction};

fn machine_with_program(base: usize, opcodes: &[u16]) -> Chip8 {
    let mut m = Chip8::new();
    for (i, op) in opcodes.iter().enumerate() {
        m.memory[base + 2 * i] = (op >> 8) as u8;
        m.memory[base + 2 * i + 1] = (op & 0xFF) as u8;
    }
    m
}

#[test]
fn reference_program_sums_to_45() {
    let mut m = machine_with_program(0x000, &[0x2100, 0x2100, 0x0000]);
    m.memory[0x100] = 0x80;
    m.memory[0x101] = 0x14;
    m.memory[0x102] = 0x80;
    m.memory[0x103] = 0x14;
    m.memory[0x104] = 0x00;
    m.memory[0x105] = 0xEE;
    m.registers[0] = 5;
    m.registers[1] = 10;
    assert_eq!(m.run(), Ok(()));
    assert_eq!(m.registers[0], 45);
    assert_eq!(m.registers[0xF], 0);
    assert_eq!(m.stack_pointer, 0);
    assert_eq!(m.program_counter, 6);
}

#[test]
fn new_machine_is_zeroed() {
    let m = Chip8::new();
    assert!(m.memory.iter().all(|b| *b == 0));
    assert!(m.registers.iter().all(|r| *r == 0));
    assert!(m.stack.iter().all(|a| *a == 0));
    assert_eq!(m.program_counter, 0);
    assert_eq!(m.stack_pointer, 0);
}

#[test]
fn read_opcode_is_big_endian() {
    let mut m = Chip8::new();
    m.program_counter = 0x200;
    m.memory[0x200] = 0xA2;
    m.memory[0x201] = 0xF0;
    assert_eq!(m.read_opcode(), 0xA2F0);
}

#[test]
fn decode_supported_opcodes() {
    assert_eq!(decode(0x0000), Ok(Instruction::Halt));
    assert_eq!(decode(0x00E0), Ok(Instruction::Clear));
    assert_eq!(decode(0x00EE), Ok(Instruction::Return));
    assert_eq!(decode(0x1ABC), Ok(Instruction::Jump { nnn: 0xABC }));
    assert_eq!(decode(0x2100), Ok(Instruction::Call { nnn: 0x100 }));
    assert_eq!(decode(0x3A42), Ok(Instruction::SkipEqImm { x: 0xA, kk: 0x42 }));
    assert_eq!(decode(0x4B07), Ok(Instruction::SkipNeImm { x: 0xB, kk: 0x07 }));
    assert_eq!(decode(0x5120), Ok(Instruction::SkipEqReg { x: 1, y: 2 }));
    assert_eq!(decode(0x6CFF), Ok(Instruction::LoadImm { x: 0xC, kk: 0xFF }));
    assert_eq!(decode(0x7D01), Ok(Instruction::AddImm { x: 0xD, kk: 0x01 }));
    assert_eq!(decode(0x8340), Ok(Instruction::LoadReg { x: 3, y: 4 }));
    assert_eq!(decode(0x8341), Ok(Instruction::Or { x: 3, y: 4 }));
    assert_eq!(decode(0x8342), Ok(Instruction::And { x: 3, y: 4 }));
    assert_eq!(decode(0x8343), Ok(Instruction::Xor { x: 3, y: 4 }));
    assert_eq!(decode(0x8014), Ok(Instruction::AddCarry { x: 0, y: 1 }));
}

#[test]
fn decode_rejects_unsupported_opcodes() {
    for op in [0x0123u16, 0x00E1, 0x5121, 0x8005, 0x800E, 0x9120, 0xA000, 0xFFFF] {
        assert_eq!(decode(op), Err(Fault::UnimplementedOpcode(op)));
    }
}

#[test]
fn run_stops_on_unimplemented_opcode() {
    let mut m = machine_with_program(0, &[0x6005, 0xF00A]);
    assert_eq!(m.run(), Err(Fault::UnimplementedOpcode(0xF00A)));
    assert_eq!(m.registers[0], 5);
    assert_eq!(m.program_counter, 4);
}

#[test]
fn fetch_past_end_of_memory_is_out_of_bounds() {
    let mut m = Chip8::new();
    m.program_counter = 4095;
    assert_eq!(m.step(), Err(Fault::OutOfBounds(4095)));
    assert_eq!(m.program_counter, 4095);
    let mut j = machine_with_program(0, &[0x1FFF]);
    assert_eq!(j.run(), Err(Fault::OutOfBounds(0xFFF)));
}

#[test]
fn fetch_at_last_word_succeeds() {
    let mut m = machine_with_program(4094, &[0x6307]);
    m.program_counter = 4094;
    assert_eq!(m.step(), Ok(false));
    assert_eq!(m.registers[3], 7);
    assert_eq!(m.program_counter, 4096);
}

#[test]
fn skip_eq_imm_advances_four_when_equal() {
    let mut m = machine_with_program(0x10, &[0x3A42]);
    m.program_counter = 0x10;
    m.registers[0xA] = 0x42;
    assert_eq!(m.step(), Ok(false));
    assert_eq!(m.program_counter, 0x14);
}

#[test]
fn skip_eq_imm_advances_two_when_different() {
    let mut m = machine_with_program(0x10, &[0x3A42]);
    m.program_counter = 0x10;
    m.registers[0xA] = 0x41;
    assert_eq!(m.step(), Ok(false));
    assert_eq!(m.program_counter, 0x12);
}

#[test]
fn skip_ne_imm_and_skip_eq_reg() {
    let mut m = Chip8::new();
    m.registers[2] = 9;
    m.registers[3] = 9;
    m.program_counter = 100;
    m.skip_next_if_not_equal(2, 9);
    assert_eq!(m.program_counter, 100);
    m.skip_next_if_not_equal(2, 8);
    assert_eq!(m.program_counter, 102);
    assert_eq!(m.execute(Instruction::SkipEqReg { x: 2, y: 3 }), Ok(()));
    assert_eq!(m.program_counter, 104);
    m.registers[3] = 1;
    assert_eq!(m.execute(Instruction::SkipEqReg { x: 2, y: 3 }), Ok(()));
    assert_eq!(m.program_counter, 104);
}

#[test]
fn skipped_instruction_is_not_executed() {
    let mut m = machine_with_program(0, &[0x3005, 0x6101, 0x6202, 0x0000]);
    m.registers[0] = 5;
    assert_eq!(m.run(), Ok(()));
    assert_eq!(m.registers[1], 0);
    assert_eq!(m.registers[2], 2);
}

#[test]
fn call_then_return_resumes_after_call_site() {
    let mut m = machine_with_program(0x200, &[0x2300]);
    m.memory[0x300] = 0x00;
    m.memory[0x301] = 0xEE;
    m.program_counter = 0x200;
    assert_eq!(m.step(), Ok(false));
    assert_eq!(m.program_counter, 0x300);
    assert_eq!(m.stack_pointer, 1);
    assert_eq!(m.stack[0], 0x202);
    assert_eq!(m.step(), Ok(false));
    assert_eq!(m.program_counter, 0x202);
    assert_eq!(m.stack_pointer, 0);
}

#[test]
fn jump_sets_program_counter() {
    let mut m = Chip8::new();
    m.jump(0x0ABC);
    assert_eq!(m.program_counter, 0xABC);
    let mut j = machine_with_program(0, &[0x1006, 0x6109, 0x0000, 0x6203, 0x0000]);
    assert_eq!(j.run(), Ok(()));
    assert_eq!(j.registers[1], 0);
    assert_eq!(j.registers[2], 3);
}

#[test]
fn seventeenth_nested_call_overflows() {
    let mut m = Chip8::new();
    for i in 0..16u16 {
        assert_eq!(m.call(0x100 + 2 * i), Ok(()));
    }
    assert_eq!(m.stack_pointer, 16);
    assert_eq!(m.call(0x200), Err(Fault::StackOverflow));
    assert_eq!(m.stack_pointer, 16);
    assert_eq!(m.program_counter, 0x11E);
}

#[test]
fn recursive_program_overflows_stack() {
    let mut m = machine_with_program(0, &[0x2000]);
    assert_eq!(m.run(), Err(Fault::StackOverflow));
    assert_eq!(m.stack_pointer, 16);
}

#[test]
fn return_on_empty_stack_underflows() {
    let mut m = Chip8::new();
    m.program_counter = 0x40;
    assert_eq!(m.ret(), Err(Fault::StackUnderflow));
    assert_eq!(m.program_counter, 0x40);
    let mut r = machine_with_program(0, &[0x00EE]);
    assert_eq!(r.run(), Err(Fault::StackUnderflow));
}

#[test]
fn add_carry_without_overflow_clears_flag() {
    let mut m = Chip8::new();
    m.registers[0] = 100;
    m.registers[1] = 155;
    m.registers[0xF] = 1;
    m.add_xy(0, 1);
    assert_eq!(m.registers[0], 255);
    assert_eq!(m.registers[0xF], 0);
}

#[test]
fn add_carry_with_overflow_sets_flag() {
    let mut m = Chip8::new();
    m.registers[0] = 200;
    m.registers[1] = 100;
    m.add_xy(0, 1);
    assert_eq!(m.registers[0], 44);
    assert_eq!(m.registers[0xF], 1);
    m.registers[2] = 255;
    m.registers[3] = 1;
    m.add_xy(2, 3);
    assert_eq!(m.registers[2], 0);
    assert_eq!(m.registers[0xF], 1);
}

#[test]
fn add_carry_into_flag_register_keeps_flag() {
    let mut m = Chip8::new();
    m.registers[0xF] = 200;
    m.registers[1] = 100;
    m.add_xy(0xF, 1);
    assert_eq!(m.registers[0xF], 1);
}

#[test]
fn add_immediate_wraps_without_touching_flag() {
    let mut m = Chip8::new();
    m.registers[4] = 250;
    m.registers[0xF] = 7;
    m.add(4, 10);
    assert_eq!(m.registers[4], 4);
    assert_eq!(m.registers[0xF], 7);
}

#[test]
fn load_immediate_and_register() {
    let mut m = machine_with_program(0, &[0x6A2B, 0x85A0, 0x0000]);
    assert_eq!(m.run(), Ok(()));
    assert_eq!(m.registers[0xA], 0x2B);
    assert_eq!(m.registers[5], 0x2B);
}

#[test]
fn bitwise_operations() {
    let mut m = Chip8::new();
    m.registers[0] = 0b1100_1010;
    m.registers[1] = 0b1010_0110;
    m.or_xy(0, 1);
    assert_eq!(m.registers[0], 0b1110_1110);
    m.registers[0] = 0b1100_1010;
    m.and_xy(0, 1);
    assert_eq!(m.registers[0], 0b1000_0010);
    m.registers[0] = 0b1100_1010;
    m.xor_xy(0, 1);
    assert_eq!(m.registers[0], 0b0110_1100);
    assert_eq!(m.registers[1], 0b1010_0110);
}

#[test]
fn bitwise_with_itself() {
    let mut m = Chip8::new();
    m.registers[6] = 0x5A;
    m.and_xy(6, 6);
    assert_eq!(m.registers[6], 0x5A);
    m.or_xy(6, 6);
    assert_eq!(m.registers[6], 0x5A);
    m.xor_xy(6, 6);
    assert_eq!(m.registers[6], 0);
}

#[test]
fn clear_changes_nothing() {
    let mut m = machine_with_program(0, &[0x00E0, 0x0000]);
    m.registers[2] = 3;
    assert_eq!(m.run(), Ok(()));
    assert_eq!(m.registers[2], 3);
    assert_eq!(m.program_counter, 4);
}
