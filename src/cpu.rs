//! The machine: its state, the semantics of each instruction, and the run loop.

use vstd::prelude::*;
use crate::instruction::{decode, decode_spec, Fault, Instruction};

verus! {

/// Number of bytes of addressable memory.
pub const MEMORY_SIZE: usize = 4096;

/// Number of general-purpose registers.
pub const REGISTER_COUNT: usize = 16;

/// Number of return-address slots on the call stack.
pub const STACK_SIZE: usize = 16;

/// Index of the register that arithmetic instructions use as a carry flag.
pub const FLAG_REGISTER: usize = 0xF;

/// The mathematical state of a machine.
pub struct State {
    pub memory: Seq<u8>,
    pub pc: int,
    pub registers: Seq<u8>,
    pub stack: Seq<u16>,
    pub sp: int,
}

impl State {
    /// Memory, registers and stack have their fixed sizes, and the stack pointer
    /// stays within the stack.
    pub open spec fn wf(self) -> bool {
        &&& self.memory.len() == MEMORY_SIZE
        &&& self.registers.len() == REGISTER_COUNT
        &&& self.stack.len() == STACK_SIZE
        &&& 0 <= self.sp <= STACK_SIZE
        &&& 0 <= self.pc
    }

    /// The same state with the program counter set to `pc`.
    pub open spec fn with_pc(self, pc: int) -> State {
        State { pc, ..self }
    }

    /// The same state with register `x` set to `v`.
    pub open spec fn with_register(self, x: int, v: u8) -> State {
        State { registers: self.registers.update(x, v), ..self }
    }

    /// Advances the program counter past the next instruction when `cond` holds.
    pub open spec fn skip_if(self, cond: bool) -> State {
        if cond {
            self.with_pc(self.pc + 2)
        } else {
            self
        }
    }

    /// The big-endian opcode stored at the program counter.
    pub open spec fn opcode_at_pc(self) -> u16 {
        (self.memory[self.pc] as int * 256 + self.memory[self.pc + 1] as int) as u16
    }

    /// A fetch at the program counter reads two bytes inside memory.
    pub open spec fn can_fetch(self) -> bool {
        self.pc + 1 < MEMORY_SIZE
    }
}

/// `(a + b) mod 256`.
pub open spec fn wrap_add(a: u8, b: u8) -> u8 {
    ((a as int + b as int) % 256) as u8
}

/// 1 when `a + b` does not fit in eight bits, else 0.
pub open spec fn carry(a: u8, b: u8) -> u8 {
    if a as int + b as int > 255 {
        1
    } else {
        0
    }
}

/// The effect of executing one instruction, its fetch already done.
///
/// A failing instruction changes nothing.
pub open spec fn execute_spec(s: State, ins: Instruction) -> Result<State, Fault> {
    let r = s.registers;
    match ins {
        Instruction::Halt => Ok(s),
        Instruction::Clear => Ok(s),
        Instruction::Return => if s.sp == 0 {
            Err(Fault::StackUnderflow)
        } else {
            Ok(State { pc: s.stack[s.sp - 1] as int, sp: s.sp - 1, ..s })
        },
        Instruction::Jump { nnn } => Ok(s.with_pc(nnn as int)),
        Instruction::Call { nnn } => if s.sp >= STACK_SIZE {
            Err(Fault::StackOverflow)
        } else {
            Ok(State { stack: s.stack.update(s.sp, s.pc as u16), sp: s.sp + 1, pc: nnn as int, ..s })
        },
        Instruction::SkipEqImm { x, kk } => Ok(s.skip_if(r[x as int] == kk)),
        Instruction::SkipNeImm { x, kk } => Ok(s.skip_if(r[x as int] != kk)),
        Instruction::SkipEqReg { x, y } => Ok(s.skip_if(r[x as int] == r[y as int])),
        Instruction::LoadImm { x, kk } => Ok(s.with_register(x as int, kk)),
        Instruction::AddImm { x, kk } => Ok(s.with_register(x as int, wrap_add(r[x as int], kk))),
        Instruction::LoadReg { x, y } => Ok(s.with_register(x as int, r[y as int])),
        Instruction::Or { x, y } => Ok(s.with_register(x as int, r[x as int] | r[y as int])),
        Instruction::And { x, y } => Ok(s.with_register(x as int, r[x as int] & r[y as int])),
        Instruction::Xor { x, y } => Ok(s.with_register(x as int, r[x as int] ^ r[y as int])),
        Instruction::AddCarry { x, y } => Ok(
            s.with_register(x as int, wrap_add(r[x as int], r[y as int])).with_register(
                FLAG_REGISTER as int,
                carry(r[x as int], r[y as int]),
            ),
        ),
    }
}

/// What one fetch-decode-execute step does: the state after it, and whether it
/// halted the machine or the fault that stopped it.
///
/// The program counter advances past the opcode before the instruction runs; a
/// fetch outside memory changes nothing.
pub open spec fn step_spec(s: State) -> (State, Result<bool, Fault>) {
    if !s.can_fetch() {
        (s, Err(Fault::OutOfBounds(s.pc as usize)))
    } else {
        let fetched = s.with_pc(s.pc + 2);
        match decode_spec(s.opcode_at_pc()) {
            Err(e) => (fetched, Err(e)),
            Ok(Instruction::Halt) => (fetched, Ok(true)),
            Ok(ins) => match execute_spec(fetched, ins) {
                Ok(next) => (next, Ok(false)),
                Err(e) => (fetched, Err(e)),
            },
        }
    }
}

/// What running for at most `fuel` steps does: the final state, and `Ok` when a
/// halt was reached.
pub open spec fn run_spec(s: State, fuel: nat) -> (State, Result<(), Fault>)
    decreases fuel,
{
    if fuel == 0 {
        (s, Err(Fault::StepLimit))
    } else {
        let (next, outcome) = step_spec(s);
        match outcome {
            Ok(true) => (next, Ok(())),
            Ok(false) => run_spec(next, (fuel - 1) as nat),
            Err(e) => (next, Err(e)),
        }
    }
}

/// A CHIP-8 machine: memory, program counter, registers and call stack.
pub struct Chip8 {
    pub memory: [u8; 4096],
    pub program_counter: usize,
    pub registers: [u8; 16],
    pub stack: [u16; 16],
    pub stack_pointer: usize,
}

impl View for Chip8 {
    type V = State;

    open spec fn view(&self) -> State {
        State {
            memory: self.memory@,
            pc: self.program_counter as int,
            registers: self.registers@,
            stack: self.stack@,
            sp: self.stack_pointer as int,
        }
    }
}

impl Chip8 {
    /// The stack pointer stays within the stack.
    pub open spec fn wf(&self) -> bool {
        self.stack_pointer <= STACK_SIZE
    }

    /// A machine with every byte, register, stack slot and pointer zero.
    pub fn new() -> (m: Chip8)
        ensures
            m.wf(),
            forall|i: int| 0 <= i < MEMORY_SIZE ==> m.memory[i] == 0,
            forall|i: int| 0 <= i < REGISTER_COUNT ==> m.registers[i] == 0,
            forall|i: int| 0 <= i < STACK_SIZE ==> m.stack[i] == 0,
            m.program_counter == 0,
            m.stack_pointer == 0,
    {
        Chip8 {
            memory: [0u8; 4096],
            program_counter: 0,
            registers: [0u8; 16],
            stack: [0u16; 16],
            stack_pointer: 0,
        }
    }

    /// (00EE) Returns from a subroutine: pops the top return address into the
    /// program counter, or fails with `StackUnderflow` on an empty stack.
    pub fn ret(&mut self) -> (r: Result<(), Fault>)
        requires
            old(self).wf(),
        ensures
            final(self).wf(),
            match execute_spec(old(self)@, Instruction::Return) {
                Ok(s) => r is Ok && final(self)@ == s,
                Err(e) => r == Err::<(), Fault>(e) && final(self)@ == old(self)@,
            },
    {
        if self.stack_pointer == 0 {
            return Err(Fault::StackUnderflow);
        }
        self.stack_pointer -= 1;
        self.program_counter = self.stack[self.stack_pointer] as usize;
        Ok(())
    }

    /// (1nnn) Jumps to `addr`.
    pub fn jump(&mut self, addr: u16)
        ensures
            final(self)@ == old(self)@.with_pc(addr as int),
    {
        self.program_counter = addr as usize;
    }

    /// (2nnn) Calls the subroutine at `addr`: pushes the program counter and jumps,
    /// or fails with `StackOverflow` when all sixteen slots are in use.
    pub fn call(&mut self, addr: u16) -> (r: Result<(), Fault>)
        requires
            old(self).wf(),
        ensures
            final(self).wf(),
            match execute_spec(old(self)@, Instruction::Call { nnn: addr }) {
                Ok(s) => r is Ok && final(self)@ == s,
                Err(e) => r == Err::<(), Fault>(e) && final(self)@ == old(self)@,
            },
    {
        let sp = self.stack_pointer;
        if sp >= STACK_SIZE {
            return Err(Fault::StackOverflow);
        }
        self.stack[sp] = self.program_counter as u16;
        self.stack_pointer = sp + 1;
        self.program_counter = addr as usize;
        Ok(())
    }

    /// (3xkk, 5xy0) Skips the next instruction when register `x` holds `value`.
    pub fn skip_next_if_equal(&mut self, x: u8, value: u8)
        requires
            x < REGISTER_COUNT,
            old(self).program_counter + 2 <= usize::MAX,
        ensures
            final(self)@ == old(self)@.skip_if(old(self).registers[x as int] == value),
    {
        if self.registers[x as usize] == value {
            self.program_counter += 2;
        }
    }

    /// (4xkk) Skips the next instruction when register `x` does not hold `value`.
    pub fn skip_next_if_not_equal(&mut self, x: u8, value: u8)
        requires
            x < REGISTER_COUNT,
            old(self).program_counter + 2 <= usize::MAX,
        ensures
            final(self)@ == old(self)@.skip_if(old(self).registers[x as int] != value),
    {
        if self.registers[x as usize] != value {
            self.program_counter += 2;
        }
    }

    /// (6xkk, 8xy0) Stores `value` in register `x`.
    pub fn load(&mut self, x: u8, value: u8)
        requires
            x < REGISTER_COUNT,
        ensures
            final(self)@ == old(self)@.with_register(x as int, value),
    {
        self.registers[x as usize] = value;
    }

    /// (7xkk) Adds `kk` to register `x`, wrapping at 256; the flag register is untouched.
    pub fn add(&mut self, x: u8, kk: u8)
        requires
            x < REGISTER_COUNT,
        ensures
            final(self)@ == old(self)@.with_register(
                x as int,
                wrap_add(old(self).registers[x as int], kk),
            ),
    {
        let v = self.registers[x as usize].wrapping_add(kk);
        self.registers[x as usize] = v;
    }

    /// (8xy1) Stores `Vx | Vy` in register `x`.
    pub fn or_xy(&mut self, x: u8, y: u8)
        requires
            x < REGISTER_COUNT,
            y < REGISTER_COUNT,
        ensures
            final(self)@ == old(self)@.with_register(
                x as int,
                old(self).registers[x as int] | old(self).registers[y as int],
            ),
    {
        let vx = self.registers[x as usize];
        let vy = self.registers[y as usize];
        self.registers[x as usize] = vx | vy;
    }

    /// (8xy2) Stores `Vx & Vy` in register `x`.
    pub fn and_xy(&mut self, x: u8, y: u8)
        requires
            x < REGISTER_COUNT,
            y < REGISTER_COUNT,
        ensures
            final(self)@ == old(self)@.with_register(
                x as int,
                old(self).registers[x as int] & old(self).registers[y as int],
            ),
    {
        let vx = self.registers[x as usize];
        let vy = self.registers[y as usize];
        self.registers[x as usize] = vx & vy;
    }

    /// (8xy3) Stores `Vx ^ Vy` in register `x`.
    pub fn xor_xy(&mut self, x: u8, y: u8)
        requires
            x < REGISTER_COUNT,
            y < REGISTER_COUNT,
        ensures
            final(self)@ == old(self)@.with_register(
                x as int,
                old(self).registers[x as int] ^ old(self).registers[y as int],
            ),
    {
        let vx = self.registers[x as usize];
        let vy = self.registers[y as usize];
        self.registers[x as usize] = vx ^ vy;
    }

    /// (8xy4) Stores `Vx + Vy` in register `x`, wrapping at 256, then sets the flag
    /// register to 1 when the sum carried out of eight bits and to 0 otherwise.
    pub fn add_xy(&mut self, x: u8, y: u8)
        requires
            x < REGISTER_COUNT,
            y < REGISTER_COUNT,
        ensures
            final(self)@ == old(self)@.with_register(
                x as int,
                wrap_add(old(self).registers[x as int], old(self).registers[y as int]),
            ).with_register(
                FLAG_REGISTER as int,
                carry(old(self).registers[x as int], old(self).registers[y as int]),
            ),
    {
        let vx = self.registers[x as usize];
        let vy = self.registers[y as usize];
        let overflow = vx as u16 + vy as u16 > 255;
        self.registers[x as usize] = vx.wrapping_add(vy);
        if overflow {
            self.registers[FLAG_REGISTER] = 1;
        } else {
            self.registers[FLAG_REGISTER] = 0;
        }
    }

    /// Executes one decoded instruction, its fetch already done.
    ///
    /// `Halt` and `Clear` change nothing here; a failing instruction changes nothing.
    pub fn execute(&mut self, ins: Instruction) -> (r: Result<(), Fault>)
        requires
            old(self).wf(),
            ins.wf(),
            old(self).program_counter + 2 <= usize::MAX,
        ensures
            final(self).wf(),
            match execute_spec(old(self)@, ins) {
                Ok(s) => r is Ok && final(self)@ == s,
                Err(e) => r == Err::<(), Fault>(e) && final(self)@ == old(self)@,
            },
    {
        match ins {
            Instruction::Halt => Ok(()),
            Instruction::Clear => Ok(()),
            Instruction::Return => self.ret(),
            Instruction::Jump { nnn } => {
                self.jump(nnn);
                Ok(())
            },
            Instruction::Call { nnn } => self.call(nnn),
            Instruction::SkipEqImm { x, kk } => {
                self.skip_next_if_equal(x, kk);
                Ok(())
            },
            Instruction::SkipNeImm { x, kk } => {
                self.skip_next_if_not_equal(x, kk);
                Ok(())
            },
            Instruction::SkipEqReg { x, y } => {
                let vy = self.registers[y as usize];
                self.skip_next_if_equal(x, vy);
                Ok(())
            },
            Instruction::LoadImm { x, kk } => {
                self.load(x, kk);
                Ok(())
            },
            Instruction::AddImm { x, kk } => {
                self.add(x, kk);
                Ok(())
            },
            Instruction::LoadReg { x, y } => {
                let vy = self.registers[y as usize];
                self.load(x, vy);
                Ok(())
            },
            Instruction::Or { x, y } => {
                self.or_xy(x, y);
                Ok(())
            },
            Instruction::And { x, y } => {
                self.and_xy(x, y);
                Ok(())
            },
            Instruction::Xor { x, y } => {
                self.xor_xy(x, y);
                Ok(())
            },
            Instruction::AddCarry { x, y } => {
                self.add_xy(x, y);
                Ok(())
            },
        }
    }

    /// Reads the opcode at the program counter: the byte there is the high byte,
    /// the next one the low byte.
    pub fn read_opcode(&self) -> (op: u16)
        requires
            self@.can_fetch(),
        ensures
            op == self@.opcode_at_pc(),
    {
        let p = self.program_counter;
        let hi = self.memory[p] as u16;
        let lo = self.memory[p + 1] as u16;
        assert(hi << 8 | lo == hi * 256 + lo) by (bit_vector)
            requires
                hi < 256,
                lo < 256,
        ;
        hi << 8 | lo
    }

    /// Runs one fetch-decode-execute step.
    ///
    /// Returns `Ok(true)` when the fetched instruction was a halt, `Ok(false)` when
    /// another step may follow, and the fault when the fetch, the decode or the
    /// instruction failed.
    pub fn step(&mut self) -> (r: Result<bool, Fault>)
        requires
            old(self).wf(),
        ensures
            final(self).wf(),
            (final(self)@, r) == step_spec(old(self)@),
    {
        if self.program_counter >= MEMORY_SIZE - 1 {
            return Err(Fault::OutOfBounds(self.program_counter));
        }
        let opcode = self.read_opcode();
        self.program_counter += 2;
        match decode(opcode) {
            Err(e) => Err(e),
            Ok(Instruction::Halt) => Ok(true),
            Ok(ins) => match self.execute(ins) {
                Ok(()) => Ok(false),
                Err(e) => Err(e),
            },
        }
    }

    /// Runs the machine until it halts or a fault stops it.
    ///
    /// A program that has not halted after `u64::MAX` steps is stopped with
    /// `StepLimit`. The machine's final state is left for the caller to inspect.
    pub fn run(&mut self) -> (r: Result<(), Fault>)
        requires
            old(self).wf(),
        ensures
            final(self).wf(),
            (final(self)@, r) == run_spec(old(self)@, u64::MAX as nat),
    {
        let mut fuel: u64 = u64::MAX;
        loop
            invariant
                self.wf(),
                run_spec(self@, fuel as nat) == run_spec(old(self)@, u64::MAX as nat),
            decreases fuel,
        {
            if fuel == 0 {
                return Err(Fault::StepLimit);
            }
            match self.step() {
                Ok(true) => return Ok(()),
                Ok(false) => {},
                Err(e) => return Err(e),
            }
            fuel -= 1;
        }
    }
}

} // verus!
