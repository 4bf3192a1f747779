//! Properties of the instruction semantics that relate several steps or hold of
//! every state.

use vstd::prelude::*;
use crate::cpu::{carry, execute_spec, step_spec, wrap_add, State, FLAG_REGISTER, STACK_SIZE};
use crate::instruction::{Fault, Instruction};

verus! {

/// The state after executing a call to each address of `addrs` in turn, or the
/// first fault.
pub open spec fn call_chain(s: State, addrs: Seq<u16>) -> Result<State, Fault>
    decreases addrs.len(),
{
    if addrs.len() == 0 {
        Ok(s)
    } else {
        match execute_spec(s, Instruction::Call { nnn: addrs[0] }) {
            Ok(next) => call_chain(next, addrs.drop_first()),
            Err(e) => Err(e),
        }
    }
}

/// A skip-if-equal opcode `3xkk` at the program counter moves it four bytes on
/// when register `x` holds `kk`, and two bytes on otherwise.
pub proof fn law_skip_eq_imm_advance(s: State, x: u8, kk: u8)
    requires
        s.wf(),
        s.can_fetch(),
        x < 16,
        s.opcode_at_pc() == 0x3000 + x as int * 256 + kk as int,
    ensures
        step_spec(s).1 == Ok::<bool, Fault>(false),
        step_spec(s).0.pc == if s.registers[x as int] == kk {
            s.pc + 4
        } else {
            s.pc + 2
        },
{
    let op = s.opcode_at_pc();
    assert(op / 4096 == 3 && (op / 256) % 16 == x && op % 256 == kk);
}

/// A call followed by a return restores the program counter and the stack pointer
/// to what they were before the call; only the stack slot that held the return
/// address differs.
pub proof fn law_call_then_return(s: State, nnn: u16)
    requires
        s.wf(),
        s.sp < STACK_SIZE,
        s.pc <= u16::MAX,
    ensures
        execute_spec(s, Instruction::Call { nnn }) is Ok,
        execute_spec(execute_spec(s, Instruction::Call { nnn })->Ok_0, Instruction::Return) == Ok::<
            State,
            Fault,
        >(State { stack: s.stack.update(s.sp, s.pc as u16), ..s }),
{
    let pc = s.pc as u16;
    assert(pc as int == s.pc);
}

/// Add-with-carry leaves `(a + b) mod 256` in register `x` and sets the flag
/// register to 1 exactly when `a + b > 255`, where `a` and `b` are the registers'
/// values before it.
pub proof fn law_add_carry_flag(s: State, x: u8, y: u8)
    requires
        s.wf(),
        x < 16,
        y < 16,
        x != FLAG_REGISTER,
    ensures
        ({
            let (a, b) = (s.registers[x as int], s.registers[y as int]);
            &&& execute_spec(s, Instruction::AddCarry { x, y }) matches Ok(t)
            &&& t.registers[x as int] as int == (a as int + b as int) % 256
            &&& t.registers[FLAG_REGISTER as int] == if a as int + b as int > 255 {
                1u8
            } else {
                0u8
            }
        }),
{
}

/// AND and OR of a register with itself change nothing; XOR of a register with
/// itself clears it.
pub proof fn law_bitwise_self(s: State, x: u8)
    requires
        s.wf(),
        x < 16,
    ensures
        execute_spec(s, Instruction::And { x, y: x }) == Ok::<State, Fault>(s),
        execute_spec(s, Instruction::Or { x, y: x }) == Ok::<State, Fault>(s),
        execute_spec(s, Instruction::Xor { x, y: x }) == Ok::<State, Fault>(
            s.with_register(x as int, 0),
        ),
{
    let v = s.registers[x as int];
    assert(v & v == v && v | v == v && v ^ v == 0) by (bit_vector);
    assert(s.registers.update(x as int, v) =~= s.registers);
    assert(s.with_register(x as int, v) == s);
}

/// Calls made while the stack has room all succeed, each pushing one address;
/// the first call made on a full stack fails with `StackOverflow`.
pub proof fn law_call_chain(s: State, addrs: Seq<u16>)
    requires
        s.wf(),
    ensures
        s.sp + addrs.len() <= STACK_SIZE ==> (call_chain(s, addrs) matches Ok(t) && t.wf() && t.sp
            == s.sp + addrs.len()),
        s.sp + addrs.len() > STACK_SIZE ==> call_chain(s, addrs) == Err::<State, Fault>(
            Fault::StackOverflow,
        ),
    decreases addrs.len(),
{
    if addrs.len() > 0 && s.sp < STACK_SIZE {
        let next = execute_spec(s, Instruction::Call { nnn: addrs[0] })->Ok_0;
        law_call_chain(next, addrs.drop_first());
    }
}

/// From an empty stack, sixteen nested calls succeed and a seventeenth fails with
/// `StackOverflow`.
pub proof fn law_seventeenth_call_overflows(s: State, addrs: Seq<u16>)
    requires
        s.wf(),
        s.sp == 0,
        addrs.len() == 17,
    ensures
        call_chain(s, addrs.take(16)) is Ok,
        call_chain(s, addrs) == Err::<State, Fault>(Fault::StackOverflow),
{
    law_call_chain(s, addrs.take(16));
    law_call_chain(s, addrs);
}

/// A return on an empty stack fails with `StackUnderflow` and changes nothing.
pub proof fn law_return_on_empty_stack(s: State)
    requires
        s.wf(),
        s.sp == 0,
    ensures
        execute_spec(s, Instruction::Return) == Err::<State, Fault>(Fault::StackUnderflow),
{
}

} // verus!
