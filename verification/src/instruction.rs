//! The instruction set: one variant per instruction, carrying the operand
//! fields already taken out of the 16-bit instruction word.

use vstd::prelude::*;

verus! {

/// A decoded instruction. `x` and `y` select registers, `kk` is an immediate
/// byte, `nnn` a 12-bit address and `n` a 4-bit count.
#[derive(Clone, Copy, Debug, PartialEq, Eq, Structural)]
pub enum Instruction {
    /// `00E0`: zero the frame buffer.
    ClearDisplay,
    /// `00EE`: return from a subroutine.
    Return,
    /// `1nnn`: jump to `nnn`.
    Jump { nnn: u16 },
    /// `2nnn`: call the subroutine at `nnn`.
    Call { nnn: u16 },
    /// `3xkk`: skip the next instruction if `Vx == kk`.
    SkipEqImm { x: u8, kk: u8 },
    /// `4xkk`: skip the next instruction if `Vx != kk`.
    SkipNeImm { x: u8, kk: u8 },
    /// `5xy0`: skip the next instruction if `Vx == Vy`.
    SkipEqReg { x: u8, y: u8 },
    /// `6xkk`: `Vx = kk`.
    LoadImm { x: u8, kk: u8 },
    /// `7xkk`: `Vx = Vx + kk`, wrapping, no flag.
    AddImm { x: u8, kk: u8 },
    /// `8xy0`: `Vx = Vy`.
    Copy { x: u8, y: u8 },
    /// `8xy1`: `Vx = Vx | Vy`.
    Or { x: u8, y: u8 },
    /// `8xy2`: `Vx = Vx & Vy`.
    And { x: u8, y: u8 },
    /// `8xy3`: `Vx = Vx ^ Vy`.
    Xor { x: u8, y: u8 },
    /// `8xy4`: `Vx = Vx + Vy`, `VF` = carry.
    AddReg { x: u8, y: u8 },
    /// `8xy5`: `Vx = Vx - Vy`, `VF` = no borrow.
    SubReg { x: u8, y: u8 },
    /// `8xy6`: `Vx = Vx >> 1`, `VF` = the bit shifted out.
    ShiftRight { x: u8 },
    /// `8xy7`: `Vx = Vy - Vx`, `VF` = no borrow.
    SubFrom { x: u8, y: u8 },
    /// `8xyE`: `Vx = Vx << 1`, `VF` = the bit shifted out.
    ShiftLeft { x: u8 },
    /// `9xy0`: skip the next instruction if `Vx != Vy`.
    SkipNeReg { x: u8, y: u8 },
    /// `Annn`: `I = nnn`.
    LoadIndex { nnn: u16 },
    /// `Bnnn`: jump to `nnn + V0`.
    JumpOffset { nnn: u16 },
    /// `Cxkk`: `Vx = random byte & kk`.
    Random { x: u8, kk: u8 },
    /// `Dxyn`: draw the `n`-row sprite at `I` at (`Vx`, `Vy`), `VF` = collision.
    Draw { x: u8, y: u8, n: u8 },
    /// `Ex9E`: skip the next instruction if key `Vx` is pressed.
    SkipKey { x: u8 },
    /// `ExA1`: skip the next instruction if key `Vx` is not pressed.
    SkipNotKey { x: u8 },
    /// `Fx07`: `Vx = delay timer`.
    LoadDelay { x: u8 },
    /// `Fx0A`: wait for a key press and store the key in `Vx`.
    WaitKey { x: u8 },
    /// `Fx15`: `delay timer = Vx`.
    SetDelay { x: u8 },
    /// `Fx18`: `sound timer = Vx`.
    SetSound { x: u8 },
    /// `Fx1E`: `I = I + Vx`.
    AddIndex { x: u8 },
    /// `Fx29`: `I` = address of the glyph for digit `Vx`.
    FontAddr { x: u8 },
    /// `Fx33`: store the decimal digits of `Vx` at `I`, `I+1`, `I+2`.
    StoreBcd { x: u8 },
    /// `Fx55`: store `V0..=Vx` at `I`.
    StoreRegs { x: u8 },
    /// `Fx65`: load `V0..=Vx` from `I`.
    LoadRegs { x: u8 },
    /// A word that matches no instruction.
    Unknown { opcode: u16 },
}

/// Bits 8..12 of the word: the first register operand.
pub open spec fn field_x(opcode: u16) -> u8 {
    ((opcode / 256) % 16) as u8
}

/// Bits 4..8 of the word: the second register operand.
pub open spec fn field_y(opcode: u16) -> u8 {
    ((opcode / 16) % 16) as u8
}

/// The low nibble.
pub open spec fn field_n(opcode: u16) -> u8 {
    (opcode % 16) as u8
}

/// The low byte.
pub open spec fn field_kk(opcode: u16) -> u8 {
    (opcode % 256) as u8
}

/// The low 12 bits.
pub open spec fn field_nnn(opcode: u16) -> u16 {
    opcode % 4096
}

/// The instruction that a word encodes.
pub open spec fn decode_spec(opcode: u16) -> Instruction {
    let x = field_x(opcode);
    let y = field_y(opcode);
    let n = field_n(opcode);
    let kk = field_kk(opcode);
    let nnn = field_nnn(opcode);
    let family = opcode / 4096;
    let unknown = Instruction::Unknown { opcode };
    if family == 0x0 {
        if opcode == 0x00E0 {
            Instruction::ClearDisplay
        } else if opcode == 0x00EE {
            Instruction::Return
        } else {
            unknown
        }
    } else if family == 0x1 {
        Instruction::Jump { nnn }
    } else if family == 0x2 {
        Instruction::Call { nnn }
    } else if family == 0x3 {
        Instruction::SkipEqImm { x, kk }
    } else if family == 0x4 {
        Instruction::SkipNeImm { x, kk }
    } else if family == 0x5 {
        if n == 0 {
            Instruction::SkipEqReg { x, y }
        } else {
            unknown
        }
    } else if family == 0x6 {
        Instruction::LoadImm { x, kk }
    } else if family == 0x7 {
        Instruction::AddImm { x, kk }
    } else if family == 0x8 {
        if n == 0x0 {
            Instruction::Copy { x, y }
        } else if n == 0x1 {
            Instruction::Or { x, y }
        } else if n == 0x2 {
            Instruction::And { x, y }
        } else if n == 0x3 {
            Instruction::Xor { x, y }
        } else if n == 0x4 {
            Instruction::AddReg { x, y }
        } else if n == 0x5 {
            Instruction::SubReg { x, y }
        } else if n == 0x6 {
            Instruction::ShiftRight { x }
        } else if n == 0x7 {
            Instruction::SubFrom { x, y }
        } else if n == 0xE {
            Instruction::ShiftLeft { x }
        } else {
            unknown
        }
    } else if family == 0x9 {
        if n == 0 {
            Instruction::SkipNeReg { x, y }
        } else {
            unknown
        }
    } else if family == 0xA {
        Instruction::LoadIndex { nnn }
    } else if family == 0xB {
        Instruction::JumpOffset { nnn }
    } else if family == 0xC {
        Instruction::Random { x, kk }
    } else if family == 0xD {
        Instruction::Draw { x, y, n }
    } else if family == 0xE {
        if kk == 0x9E {
            Instruction::SkipKey { x }
        } else if kk == 0xA1 {
            Instruction::SkipNotKey { x }
        } else {
            unknown
        }
    } else {
        if kk == 0x07 {
            Instruction::LoadDelay { x }
        } else if kk == 0x0A {
            Instruction::WaitKey { x }
        } else if kk == 0x15 {
            Instruction::SetDelay { x }
        } else if kk == 0x18 {
            Instruction::SetSound { x }
        } else if kk == 0x1E {
            Instruction::AddIndex { x }
        } else if kk == 0x29 {
            Instruction::FontAddr { x }
        } else if kk == 0x33 {
            Instruction::StoreBcd { x }
        } else if kk == 0x55 {
            Instruction::StoreRegs { x }
        } else if kk == 0x65 {
            Instruction::LoadRegs { x }
        } else {
            unknown
        }
    }
}

impl Instruction {
    /// Every operand lies in the range of its bit field: register selectors
    /// and the row count below 16, addresses below 4096.
    pub open spec fn wf(self) -> bool {
        match self {
            Instruction::ClearDisplay | Instruction::Return => true,
            Instruction::Jump { nnn }
            | Instruction::Call { nnn }
            | Instruction::LoadIndex { nnn }
            | Instruction::JumpOffset { nnn } => nnn < 4096,
            Instruction::SkipEqImm { x, .. }
            | Instruction::SkipNeImm { x, .. }
            | Instruction::LoadImm { x, .. }
            | Instruction::AddImm { x, .. }
            | Instruction::Random { x, .. } => x < 16,
            Instruction::SkipEqReg { x, y }
            | Instruction::Copy { x, y }
            | Instruction::Or { x, y }
            | Instruction::And { x, y }
            | Instruction::Xor { x, y }
            | Instruction::AddReg { x, y }
            | Instruction::SubReg { x, y }
            | Instruction::SubFrom { x, y }
            | Instruction::SkipNeReg { x, y } => x < 16 && y < 16,
            Instruction::Draw { x, y, n } => x < 16 && y < 16 && n < 16,
            Instruction::ShiftRight { x }
            | Instruction::ShiftLeft { x }
            | Instruction::SkipKey { x }
            | Instruction::SkipNotKey { x }
            | Instruction::LoadDelay { x }
            | Instruction::WaitKey { x }
            | Instruction::SetDelay { x }
            | Instruction::SetSound { x }
            | Instruction::AddIndex { x }
            | Instruction::FontAddr { x }
            | Instruction::StoreBcd { x }
            | Instruction::StoreRegs { x }
            | Instruction::LoadRegs { x } => x < 16,
            Instruction::Unknown { .. } => true,
        }
    }
}

/// The masks and shifts that take the fields out of a word agree with the
/// arithmetic definition of the fields.
pub proof fn lemma_fields_by_mask(opcode: u16)
    by (bit_vector)
    ensures
        (opcode & 0x0F00) >> 8 == (opcode / 256) % 16,
        (opcode & 0x00F0) >> 4 == (opcode / 16) % 16,
        opcode & 0x000F == opcode % 16,
        opcode & 0x00FF == opcode % 256,
        opcode & 0x0FFF == opcode % 4096,
        opcode >> 12 == opcode / 4096,
        (opcode & 0x0F00) >> 8 < 16,
        (opcode & 0x00F0) >> 4 < 16,
        opcode & 0x000F < 16,
        opcode & 0x00FF < 256,
        opcode & 0x0FFF < 4096,
        opcode >> 12 < 16,
{
}

/// Decodes one instruction word.
pub fn decode(opcode: u16) -> (inst: Instruction)
    ensures
        inst == decode_spec(opcode),
        inst.wf(),
{
    proof {
        lemma_fields_by_mask(opcode);
    }
    let x: u8 = ((opcode & 0x0F00) >> 8) as u8;
    let y: u8 = ((opcode & 0x00F0) >> 4) as u8;
    let n: u8 = (opcode & 0x000F) as u8;
    let kk: u8 = (opcode & 0x00FF) as u8;
    let nnn: u16 = opcode & 0x0FFF;
    let family: u16 = opcode >> 12;
    let unknown = Instruction::Unknown { opcode };
    match family {
        0x0 => match opcode {
            0x00E0 => Instruction::ClearDisplay,
            0x00EE => Instruction::Return,
            _ => unknown,
        },
        0x1 => Instruction::Jump { nnn },
        0x2 => Instruction::Call { nnn },
        0x3 => Instruction::SkipEqImm { x, kk },
        0x4 => Instruction::SkipNeImm { x, kk },
        0x5 => match n {
            0x0 => Instruction::SkipEqReg { x, y },
            _ => unknown,
        },
        0x6 => Instruction::LoadImm { x, kk },
        0x7 => Instruction::AddImm { x, kk },
        0x8 => match n {
            0x0 => Instruction::Copy { x, y },
            0x1 => Instruction::Or { x, y },
            0x2 => Instruction::And { x, y },
            0x3 => Instruction::Xor { x, y },
            0x4 => Instruction::AddReg { x, y },
            0x5 => Instruction::SubReg { x, y },
            0x6 => Instruction::ShiftRight { x },
            0x7 => Instruction::SubFrom { x, y },
            0xE => Instruction::ShiftLeft { x },
            _ => unknown,
        },
        0x9 => match n {
            0x0 => Instruction::SkipNeReg { x, y },
            _ => unknown,
        },
        0xA => Instruction::LoadIndex { nnn },
        0xB => Instruction::JumpOffset { nnn },
        0xC => Instruction::Random { x, kk },
        0xD => Instruction::Draw { x, y, n },
        0xE => match kk {
            0x9E => Instruction::SkipKey { x },
            0xA1 => Instruction::SkipNotKey { x },
            _ => unknown,
        },
        _ => match kk {
            0x07 => Instruction::LoadDelay { x },
            0x0A => Instruction::WaitKey { x },
            0x15 => Instruction::SetDelay { x },
            0x18 => Instruction::SetSound { x },
            0x1E => Instruction::AddIndex { x },
            0x29 => Instruction::FontAddr { x },
            0x33 => Instruction::StoreBcd { x },
            0x55 => Instruction::StoreRegs { x },
            0x65 => Instruction::LoadRegs { x },
            _ => unknown,
        },
    }
}

} // verus!
