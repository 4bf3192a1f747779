//! Opcodes, the instructions they decode to, and the faults that stop a machine.

use vstd::prelude::*;

verus! {

/// Why a machine stopped without reaching a halt instruction.
#[derive(Clone, Copy, Debug, PartialEq, Eq, Structural)]
pub enum Fault {
    /// The opcode matches no supported instruction.
    UnimplementedOpcode(u16),
    /// A call was made while all sixteen return slots were in use.
    StackOverflow,
    /// A return was made while the stack held no return address.
    StackUnderflow,
    /// A fetch at this program counter would read past the end of memory.
    OutOfBounds(usize),
    /// The run loop executed its maximum number of instructions without halting.
    StepLimit,
}

/// A decoded instruction with its operand fields.
///
/// `x` and `y` name registers, `kk` is an 8-bit immediate and `nnn` a 12-bit address.
#[derive(Clone, Copy, Debug, PartialEq, Eq, Structural)]
pub enum Instruction {
    /// `0000`: stop the run loop.
    Halt,
    /// `00E0`: clear the display; nothing to do in this core.
    Clear,
    /// `00EE`: pop the return address into the program counter.
    Return,
    /// `1nnn`: continue at `nnn`.
    Jump { nnn: u16 },
    /// `2nnn`: push the program counter and continue at `nnn`.
    Call { nnn: u16 },
    /// `3xkk`: skip the next instruction if `Vx == kk`.
    SkipEqImm { x: u8, kk: u8 },
    /// `4xkk`: skip the next instruction if `Vx != kk`.
    SkipNeImm { x: u8, kk: u8 },
    /// `5xy0`: skip the next instruction if `Vx == Vy`.
    SkipEqReg { x: u8, y: u8 },
    /// `6xkk`: `Vx = kk`.
    LoadImm { x: u8, kk: u8 },
    /// `7xkk`: `Vx = Vx + kk`, wrapping, `VF` untouched.
    AddImm { x: u8, kk: u8 },
    /// `8xy0`: `Vx = Vy`.
    LoadReg { x: u8, y: u8 },
    /// `8xy1`: `Vx = Vx | Vy`.
    Or { x: u8, y: u8 },
    /// `8xy2`: `Vx = Vx & Vy`.
    And { x: u8, y: u8 },
    /// `8xy3`: `Vx = Vx ^ Vy`.
    Xor { x: u8, y: u8 },
    /// `8xy4`: `Vx = Vx + Vy`, wrapping, then `VF` = 1 on a carry and 0 otherwise.
    AddCarry { x: u8, y: u8 },
}

/// The highest nibble of an opcode: its instruction group.
pub open spec fn group_of(op: u16) -> u16 {
    op / 4096
}

/// The second nibble of an opcode: the first register operand.
pub open spec fn x_of(op: u16) -> u8 {
    ((op / 256) % 16) as u8
}

/// The third nibble of an opcode: the second register operand.
pub open spec fn y_of(op: u16) -> u8 {
    ((op / 16) % 16) as u8
}

/// The lowest nibble of an opcode: the selector within group 8.
pub open spec fn n_of(op: u16) -> u16 {
    op % 16
}

/// The low byte of an opcode: an 8-bit immediate.
pub open spec fn kk_of(op: u16) -> u8 {
    (op % 256) as u8
}

/// The low twelve bits of an opcode: an address.
pub open spec fn nnn_of(op: u16) -> u16 {
    op % 4096
}

/// The instruction an opcode stands for, or the fault of an unsupported one.
pub open spec fn decode_spec(op: u16) -> Result<Instruction, Fault> {
    let (x, y, kk, nnn) = (x_of(op), y_of(op), kk_of(op), nnn_of(op));
    if op == 0x0000 {
        Ok(Instruction::Halt)
    } else if op == 0x00E0 {
        Ok(Instruction::Clear)
    } else if op == 0x00EE {
        Ok(Instruction::Return)
    } else if group_of(op) == 1 {
        Ok(Instruction::Jump { nnn })
    } else if group_of(op) == 2 {
        Ok(Instruction::Call { nnn })
    } else if group_of(op) == 3 {
        Ok(Instruction::SkipEqImm { x, kk })
    } else if group_of(op) == 4 {
        Ok(Instruction::SkipNeImm { x, kk })
    } else if group_of(op) == 5 && n_of(op) == 0 {
        Ok(Instruction::SkipEqReg { x, y })
    } else if group_of(op) == 6 {
        Ok(Instruction::LoadImm { x, kk })
    } else if group_of(op) == 7 {
        Ok(Instruction::AddImm { x, kk })
    } else if group_of(op) == 8 && n_of(op) == 0 {
        Ok(Instruction::LoadReg { x, y })
    } else if group_of(op) == 8 && n_of(op) == 1 {
        Ok(Instruction::Or { x, y })
    } else if group_of(op) == 8 && n_of(op) == 2 {
        Ok(Instruction::And { x, y })
    } else if group_of(op) == 8 && n_of(op) == 3 {
        Ok(Instruction::Xor { x, y })
    } else if group_of(op) == 8 && n_of(op) == 4 {
        Ok(Instruction::AddCarry { x, y })
    } else {
        Err(Fault::UnimplementedOpcode(op))
    }
}

impl Instruction {
    /// Every register operand names one of the sixteen registers.
    pub open spec fn wf(self) -> bool {
        match self {
            Instruction::SkipEqImm { x, .. } => x < 16,
            Instruction::SkipNeImm { x, .. } => x < 16,
            Instruction::SkipEqReg { x, y } => x < 16 && y < 16,
            Instruction::LoadImm { x, .. } => x < 16,
            Instruction::AddImm { x, .. } => x < 16,
            Instruction::LoadReg { x, y } => x < 16 && y < 16,
            Instruction::Or { x, y } => x < 16 && y < 16,
            Instruction::And { x, y } => x < 16 && y < 16,
            Instruction::Xor { x, y } => x < 16 && y < 16,
            Instruction::AddCarry { x, y } => x < 16 && y < 16,
            _ => true,
        }
    }
}

/// Decodes an opcode into the instruction it stands for.
///
/// Fails with `UnimplementedOpcode` on every opcode outside the supported set.
pub fn decode(opcode: u16) -> (r: Result<Instruction, Fault>)
    ensures
        r == decode_spec(opcode),
        r matches Ok(ins) ==> ins.wf(),
{
    let group: u16 = opcode >> 12;
    let x: u8 = ((opcode & 0x0F00) >> 8) as u8;
    let y: u8 = ((opcode & 0x00F0) >> 4) as u8;
    let kk: u8 = (opcode & 0x00FF) as u8;
    let nnn: u16 = opcode & 0x0FFF;
    let n: u16 = opcode & 0x000F;
    assert(group == opcode / 4096 && n == opcode % 16 && nnn == opcode % 4096) by (bit_vector)
        requires
            group == opcode >> 12,
            n == opcode & 0x000F,
            nnn == opcode & 0x0FFF,
    ;
    assert((opcode & 0x0F00) >> 8 == (opcode / 256) % 16 && (opcode & 0x00F0) >> 4 == (opcode
        / 16) % 16 && opcode & 0x00FF == opcode % 256) by (bit_vector);
    if opcode == 0x0000 {
        Ok(Instruction::Halt)
    } else if opcode == 0x00E0 {
        Ok(Instruction::Clear)
    } else if opcode == 0x00EE {
        Ok(Instruction::Return)
    } else if group == 1 {
        Ok(Instruction::Jump { nnn })
    } else if group == 2 {
        Ok(Instruction::Call { nnn })
    } else if group == 3 {
        Ok(Instruction::SkipEqImm { x, kk })
    } else if group == 4 {
        Ok(Instruction::SkipNeImm { x, kk })
    } else if group == 5 && n == 0 {
        Ok(Instruction::SkipEqReg { x, y })
    } else if group == 6 {
        Ok(Instruction::LoadImm { x, kk })
    } else if group == 7 {
        Ok(Instruction::AddImm { x, kk })
    } else if group == 8 {
        if n == 0 {
            Ok(Instruction::LoadReg { x, y })
        } else if n == 1 {
            Ok(Instruction::Or { x, y })
        } else if n == 2 {
            Ok(Instruction::And { x, y })
        } else if n == 3 {
            Ok(Instruction::Xor { x, y })
        } else if n == 4 {
            Ok(Instruction::AddCarry { x, y })
        } else {
            Err(Fault::UnimplementedOpcode(opcode))
        }
    } else {
        Err(Fault::UnimplementedOpcode(opcode))
    }
}

} // verus!
