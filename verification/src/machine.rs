//! The mathematical model of the virtual machine: its state as sequences and
//! integers, and the effect of every instruction as a function on that state.
//! The executable interpreter is specified against these functions.

use vstd::prelude::*;
use crate::instruction::{decode_spec, Instruction};
use crate::sprite::{blit, collides};

verus! {

/// Address at which a program image is loaded and execution starts.
pub const START_ADDRESS: u16 = 0x200;

/// The longest program image: what lies between the load address and the
/// end of memory.
pub const MAX_ROM_LEN: usize = 3584;

/// Address of the first font glyph.
pub const FONT_SET_START_ADDRESS: u16 = 0x050;

/// Display width in pixels.
pub const SCREEN_WIDTH: usize = 64;

/// Display height in pixels.
pub const SCREEN_HEIGHT: usize = 32;

/// Index of the flag register `VF`.
pub const FLAG: u8 = 0xF;

/// The built-in glyphs for the hexadecimal digits 0 to F: five rows of four
/// pixels each, in the high nibble of every byte.
pub const FONT_SET: [u8; 80] = [
    0xF0, 0x90, 0x90, 0x90, 0xF0,
    0x20, 0x60, 0x20, 0x20, 0x70,
    0xF0, 0x10, 0xF0, 0x80, 0xF0,
    0xF0, 0x10, 0xF0, 0x10, 0xF0,
    0x90, 0x90, 0xF0, 0x10, 0x10,
    0xF0, 0x80, 0xF0, 0x10, 0xF0,
    0xF0, 0x80, 0xF0, 0x90, 0xF0,
    0xF0, 0x10, 0x20, 0x40, 0x40,
    0xF0, 0x90, 0xF0, 0x90, 0xF0,
    0xF0, 0x90, 0xF0, 0x10, 0xF0,
    0xF0, 0x90, 0xF0, 0x90, 0x90,
    0xE0, 0x90, 0xE0, 0x90, 0xE0,
    0xF0, 0x80, 0x80, 0x80, 0xF0,
    0xE0, 0x90, 0x90, 0x90, 0xE0,
    0xF0, 0x80, 0xF0, 0x80, 0xF0,
    0xF0, 0x80, 0xF0, 0x80, 0x80,
];

/// `v` reduced to eight bits.
pub open spec fn wrap8(v: int) -> u8 {
    (v % 256) as u8
}

/// `v` reduced to sixteen bits.
pub open spec fn wrap16(v: int) -> u16 {
    (v % 65536) as u16
}

/// Whether `k` is the lowest pressed line of the keypad.
pub open spec fn is_first_pressed(keypad: Seq<bool>, k: int) -> bool {
    &&& 0 <= k < keypad.len()
    &&& keypad[k]
    &&& forall|j: int| 0 <= j < k ==> !keypad[j]
}

/// Whether any line of the keypad is pressed.
pub open spec fn any_pressed(keypad: Seq<bool>) -> bool {
    exists|k: int| 0 <= k < keypad.len() && keypad[k]
}

/// The lowest pressed line, where one is pressed.
pub open spec fn first_pressed(keypad: Seq<bool>) -> int {
    choose|k: int| is_first_pressed(keypad, k)
}

/// The whole state of the virtual machine.
#[verifier::ext_equal]
pub struct Machine {
    /// `V0..VF`.
    pub registers: Seq<u8>,
    pub memory: Seq<u8>,
    /// The index register `I`.
    pub index: u16,
    pub pc: u16,
    /// Return addresses; the slots below `sp` are live.
    pub stack: Seq<u16>,
    pub sp: u8,
    pub delay_timer: u8,
    pub sound_timer: u8,
    /// `true` where a line is pressed.
    pub keypad: Seq<bool>,
    /// One cell per pixel, row by row; 1 is lit.
    pub frame: Seq<u8>,
}

impl Machine {
    /// The collections have their fixed sizes, at most 16 return addresses
    /// are live, and every frame-buffer cell is 0 or 1.
    pub open spec fn wf(self) -> bool {
        &&& self.registers.len() == 16
        &&& self.memory.len() == 4096
        &&& self.stack.len() == 16
        &&& self.keypad.len() == 16
        &&& self.frame.len() == 2048
        &&& self.sp <= 16
        &&& forall|p: int| 0 <= p < 2048 ==> self.frame[p] <= 1
    }

    /// The state after power-on: everything zero but the font table at its
    /// fixed address and the program counter at the load address.
    pub open spec fn initial() -> Machine {
        Machine {
            registers: Seq::new(16, |i: int| 0u8),
            memory: Seq::new(
                4096,
                |a: int|
                    if 0x50 <= a < 0xA0 {
                        FONT_SET@[a - 0x50]
                    } else {
                        0u8
                    },
            ),
            index: 0,
            pc: START_ADDRESS,
            stack: Seq::new(16, |i: int| 0u16),
            sp: 0,
            delay_timer: 0,
            sound_timer: 0,
            keypad: Seq::new(16, |i: int| false),
            frame: Seq::new(2048, |p: int| 0u8),
        }
    }

    /// Register `Vx`.
    pub open spec fn v(self, x: u8) -> u8 {
        self.registers[x as int]
    }

    /// The state with `Vx` replaced.
    pub open spec fn set_v(self, x: u8, value: u8) -> Machine {
        Machine { registers: self.registers.update(x as int, value), ..self }
    }

    /// The state with `image` copied into memory from the load address on.
    pub open spec fn load(self, image: Seq<u8>) -> Machine {
        Machine {
            memory: Seq::new(
                self.memory.len(),
                |a: int|
                    if 0x200 <= a < 0x200 + image.len() {
                        image[a - 0x200]
                    } else {
                        self.memory[a]
                    },
            ),
            ..self
        }
    }

    /// One timer step: each timer goes down by one unless it is zero.
    pub open spec fn tick_timers(self) -> Machine {
        Machine {
            delay_timer: if self.delay_timer > 0 {
                (self.delay_timer - 1) as u8
            } else {
                0
            },
            sound_timer: if self.sound_timer > 0 {
                (self.sound_timer - 1) as u8
            } else {
                0
            },
            ..self
        }
    }

    /// The program counter moved past one more instruction where `taken`.
    pub open spec fn skip_if(self, taken: bool) -> Machine {
        if taken {
            Machine { pc: wrap16(self.pc + 2), ..self }
        } else {
            self
        }
    }

    pub open spec fn clear_display(self) -> Machine {
        Machine { frame: Seq::new(2048, |p: int| 0u8), ..self }
    }

    /// Pops the return address into the program counter.
    pub open spec fn ret(self) -> Machine {
        Machine { sp: (self.sp - 1) as u8, pc: self.stack[self.sp - 1], ..self }
    }

    pub open spec fn jump(self, nnn: u16) -> Machine {
        Machine { pc: nnn, ..self }
    }

    /// Pushes the program counter and jumps.
    pub open spec fn call(self, nnn: u16) -> Machine {
        Machine {
            stack: self.stack.update(self.sp as int, self.pc),
            sp: (self.sp + 1) as u8,
            pc: nnn,
            ..self
        }
    }

    pub open spec fn add_imm(self, x: u8, kk: u8) -> Machine {
        self.set_v(x, wrap8(self.v(x) + kk))
    }

    pub open spec fn or_reg(self, x: u8, y: u8) -> Machine {
        self.set_v(x, self.v(x) | self.v(y))
    }

    pub open spec fn and_reg(self, x: u8, y: u8) -> Machine {
        self.set_v(x, self.v(x) & self.v(y))
    }

    pub open spec fn xor_reg(self, x: u8, y: u8) -> Machine {
        self.set_v(x, self.v(x) ^ self.v(y))
    }

    /// `Vx + Vy`: the flag is written first, then the low eight bits of the
    /// sum, so with `x == 0xF` the sum is what stays in `VF`.
    pub open spec fn add_reg(self, x: u8, y: u8) -> Machine {
        let sum = self.v(x) + self.v(y);
        let carry = if sum > 255 {
            1u8
        } else {
            0u8
        };
        self.set_v(FLAG, carry).set_v(x, wrap8(sum))
    }

    /// `minuend - subtrahend` into `Vx`, the flag set where no borrow occurs.
    pub open spec fn subtract(self, x: u8, minuend: u8, subtrahend: u8) -> Machine {
        let no_borrow = if minuend >= subtrahend {
            1u8
        } else {
            0u8
        };
        self.set_v(FLAG, no_borrow).set_v(x, wrap8(minuend - subtrahend))
    }

    /// `Vx = Vx - Vy`.
    pub open spec fn sub_reg(self, x: u8, y: u8) -> Machine {
        self.subtract(x, self.v(x), self.v(y))
    }

    /// `Vx = Vy - Vx`.
    pub open spec fn sub_from(self, x: u8, y: u8) -> Machine {
        self.subtract(x, self.v(y), self.v(x))
    }

    /// The flag takes the lowest bit of `Vx`, then `Vx` is halved.
    pub open spec fn shift_right(self, x: u8) -> Machine {
        let flagged = self.set_v(FLAG, self.v(x) % 2);
        flagged.set_v(x, flagged.v(x) / 2)
    }

    /// The flag takes the highest bit of `Vx`, then `Vx` is doubled, wrapping.
    pub open spec fn shift_left(self, x: u8) -> Machine {
        let flagged = self.set_v(FLAG, self.v(x) / 128);
        flagged.set_v(x, wrap8(flagged.v(x) * 2))
    }

    pub open spec fn load_index(self, nnn: u16) -> Machine {
        Machine { index: nnn, ..self }
    }

    pub open spec fn jump_offset(self, nnn: u16) -> Machine {
        Machine { pc: wrap16(self.v(0) + nnn), ..self }
    }

    /// `Vx` takes the random byte masked by `kk`.
    pub open spec fn random(self, x: u8, kk: u8, random: u8) -> Machine {
        self.set_v(x, random & kk)
    }

    /// The `n` sprite rows that start at the index register.
    pub open spec fn sprite(self, n: u8) -> Seq<u8> {
        Seq::new(n as nat, |row: int| self.memory[self.index + row])
    }

    /// The screen column of a sprite's corner: `Vx mod 64`.
    pub open spec fn origin_x(self, x: u8) -> int {
        (self.v(x) % 64) as int
    }

    /// The screen row of a sprite's corner: `Vy mod 32`.
    pub open spec fn origin_y(self, y: u8) -> int {
        (self.v(y) % 32) as int
    }

    /// Draws the sprite with its corner at (`Vx mod 64`, `Vy mod 32`); the
    /// flag reports whether a lit pixel was turned off.
    pub open spec fn draw(self, x: u8, y: u8, n: u8) -> Machine {
        let ox = self.origin_x(x);
        let oy = self.origin_y(y);
        let hit = if collides(self.frame, self.sprite(n), ox, oy) {
            1u8
        } else {
            0u8
        };
        Machine {
            frame: blit(self.frame, self.sprite(n), ox, oy),
            registers: self.registers.update(FLAG as int, hit),
            ..self
        }
    }

    /// Whether the keypad line that `Vx` names is pressed.
    pub open spec fn key_down(self, x: u8) -> bool {
        self.keypad[self.v(x) as int]
    }

    /// With a key pressed, `Vx` takes the lowest pressed line. With none,
    /// the program counter steps back onto this instruction.
    pub open spec fn wait_key(self, x: u8) -> Machine {
        if any_pressed(self.keypad) {
            self.set_v(x, first_pressed(self.keypad) as u8)
        } else {
            Machine { pc: wrap16(self.pc - 2), ..self }
        }
    }

    pub open spec fn add_index(self, x: u8) -> Machine {
        Machine { index: wrap16(self.index + self.v(x)), ..self }
    }

    pub open spec fn font_addr(self, x: u8) -> Machine {
        Machine { index: (FONT_SET_START_ADDRESS + 5 * self.v(x)) as u16, ..self }
    }

    /// Hundreds, tens and units of `Vx` at `I`, `I + 1` and `I + 2`.
    pub open spec fn store_bcd(self, x: u8) -> Machine {
        let value = self.v(x);
        let i = self.index as int;
        Machine {
            memory: self.memory.update(i, value / 100).update(i + 1, (value / 10) % 10).update(
                i + 2,
                value % 10,
            ),
            ..self
        }
    }

    /// `V0..=Vx` written to memory from the index register on.
    pub open spec fn store_regs(self, x: u8) -> Machine {
        let i = self.index as int;
        Machine {
            memory: Seq::new(
                self.memory.len(),
                |a: int|
                    if i <= a <= i + x {
                        self.registers[a - i]
                    } else {
                        self.memory[a]
                    },
            ),
            ..self
        }
    }

    /// `V0..=Vx` read from memory from the index register on.
    pub open spec fn load_regs(self, x: u8) -> Machine {
        let i = self.index as int;
        Machine {
            registers: Seq::new(
                self.registers.len(),
                |r: int|
                    if r <= x {
                        self.memory[i + r]
                    } else {
                        self.registers[r]
                    },
            ),
            ..self
        }
    }

    /// Whether `inst` can run in this state: the call stack has room for a
    /// call and an address for a return, a key test names one of the 16
    /// lines, and every memory cell that the instruction touches exists.
    pub open spec fn can_execute(self, inst: Instruction) -> bool {
        match inst {
            Instruction::Return => 1 <= self.sp <= 16,
            Instruction::Call { .. } => self.sp < 16,
            Instruction::Draw { n, .. } => n > 0 ==> self.index + n <= 4096,
            Instruction::SkipKey { x } | Instruction::SkipNotKey { x } => self.v(x) < 16,
            Instruction::StoreBcd { .. } => self.index + 2 < 4096,
            Instruction::StoreRegs { x } | Instruction::LoadRegs { x } => self.index + x < 4096,
            _ => true,
        }
    }

    /// The state after `inst`; `random` is the byte that the random
    /// instruction draws, and no other instruction reads it. An unknown word
    /// changes nothing.
    pub open spec fn execute(self, inst: Instruction, random: u8) -> Machine {
        match inst {
            Instruction::ClearDisplay => self.clear_display(),
            Instruction::Return => self.ret(),
            Instruction::Jump { nnn } => self.jump(nnn),
            Instruction::Call { nnn } => self.call(nnn),
            Instruction::SkipEqImm { x, kk } => self.skip_if(self.v(x) == kk),
            Instruction::SkipNeImm { x, kk } => self.skip_if(self.v(x) != kk),
            Instruction::SkipEqReg { x, y } => self.skip_if(self.v(x) == self.v(y)),
            Instruction::LoadImm { x, kk } => self.set_v(x, kk),
            Instruction::AddImm { x, kk } => self.add_imm(x, kk),
            Instruction::Copy { x, y } => self.set_v(x, self.v(y)),
            Instruction::Or { x, y } => self.or_reg(x, y),
            Instruction::And { x, y } => self.and_reg(x, y),
            Instruction::Xor { x, y } => self.xor_reg(x, y),
            Instruction::AddReg { x, y } => self.add_reg(x, y),
            Instruction::SubReg { x, y } => self.sub_reg(x, y),
            Instruction::ShiftRight { x } => self.shift_right(x),
            Instruction::SubFrom { x, y } => self.sub_from(x, y),
            Instruction::ShiftLeft { x } => self.shift_left(x),
            Instruction::SkipNeReg { x, y } => self.skip_if(self.v(x) != self.v(y)),
            Instruction::LoadIndex { nnn } => self.load_index(nnn),
            Instruction::JumpOffset { nnn } => self.jump_offset(nnn),
            Instruction::Random { x, kk } => self.random(x, kk, random),
            Instruction::Draw { x, y, n } => self.draw(x, y, n),
            Instruction::SkipKey { x } => self.skip_if(self.key_down(x)),
            Instruction::SkipNotKey { x } => self.skip_if(!self.key_down(x)),
            Instruction::LoadDelay { x } => self.set_v(x, self.delay_timer),
            Instruction::WaitKey { x } => self.wait_key(x),
            Instruction::SetDelay { x } => Machine { delay_timer: self.v(x), ..self },
            Instruction::SetSound { x } => Machine { sound_timer: self.v(x), ..self },
            Instruction::AddIndex { x } => self.add_index(x),
            Instruction::FontAddr { x } => self.font_addr(x),
            Instruction::StoreBcd { x } => self.store_bcd(x),
            Instruction::StoreRegs { x } => self.store_regs(x),
            Instruction::LoadRegs { x } => self.load_regs(x),
            Instruction::Unknown { .. } => self,
        }
    }

    /// Whether both bytes of the next instruction word lie in memory.
    pub open spec fn can_fetch(self) -> bool {
        self.pc + 1 < 4096
    }

    /// The instruction word at the program counter, high byte first.
    pub open spec fn fetch(self) -> u16 {
        (self.memory[self.pc as int] * 256 + self.memory[self.pc + 1]) as u16
    }

    /// The state with the program counter past the fetched word.
    pub open spec fn advance(self) -> Machine {
        Machine { pc: (self.pc + 2) as u16, ..self }
    }

    /// Whether one whole cycle can run: the word can be fetched and the
    /// instruction it encodes can execute.
    pub open spec fn can_step(self) -> bool {
        self.can_fetch() && self.can_execute(decode_spec(self.fetch()))
    }

    /// One fetch-decode-execute cycle. The program counter moves past the
    /// word before the instruction runs.
    pub open spec fn step(self, random: u8) -> Machine {
        self.advance().execute(decode_spec(self.fetch()), random)
    }

    /// The state after as many cycles as `randoms` has bytes, the cycles
    /// drawing their random bytes from it in order.
    pub open spec fn run(self, randoms: Seq<u8>) -> Machine
        decreases randoms.len(),
    {
        if randoms.len() == 0 {
            self
        } else {
            self.run(randoms.drop_last()).step(randoms.last())
        }
    }

    /// Whether each of those cycles can run in the state that the ones
    /// before it leave.
    pub open spec fn can_run(self, randoms: Seq<u8>) -> bool
        decreases randoms.len(),
    {
        randoms.len() == 0 || (self.can_run(randoms.drop_last()) && self.run(
            randoms.drop_last(),
        ).can_step())
    }

    /// The words fetched in those cycles that match no instruction, in the
    /// order in which they were fetched.
    pub open spec fn unknown_words(self, randoms: Seq<u8>) -> Seq<u16>
        decreases randoms.len(),
    {
        if randoms.len() == 0 {
            Seq::empty()
        } else {
            let before = self.run(randoms.drop_last());
            let earlier = self.unknown_words(randoms.drop_last());
            if decode_spec(before.fetch()) is Unknown {
                earlier.push(before.fetch())
            } else {
                earlier
            }
        }
    }

    /// `count` timer steps: each timer goes down by `count`, stopping at
    /// zero.
    pub open spec fn tick_timers_n(self, count: nat) -> Machine {
        Machine {
            delay_timer: if self.delay_timer >= count {
                (self.delay_timer - count) as u8
            } else {
                0
            },
            sound_timer: if self.sound_timer >= count {
                (self.sound_timer - count) as u8
            } else {
                0
            },
            ..self
        }
    }
}

/// A pressed line with none pressed below it is the one that
/// `first_pressed` names.
pub proof fn lemma_first_pressed(keypad: Seq<bool>, k: int)
    requires
        is_first_pressed(keypad, k),
    ensures
        any_pressed(keypad),
        first_pressed(keypad) == k,
{
    let chosen = first_pressed(keypad);
    assert(is_first_pressed(keypad, chosen));
    if chosen < k {
        assert(!keypad[chosen]);
    }
    if k < chosen {
        assert(!keypad[k]);
    }
}

/// Two bytes joined by shift and or are the high byte times 256 plus the
/// low byte.
pub proof fn lemma_word(high: u8, low: u8)
    by (bit_vector)
    ensures
        ((high as u16) << 8u16) | (low as u16) == (high as u16 * 256 + low as u16) as u16,
        (high as u16 * 256 + low as u16) < 65536,
{
}

/// Shifts and masks of a byte by one bit, as arithmetic.
pub proof fn lemma_shift_by_one(v: u8)
    by (bit_vector)
    ensures
        v & 1 == v % 2,
        v >> 1 == v / 2,
        (v & 0x80) >> 7 == v / 128,
        v << 1u8 == ((v as u16 * 2) % 256) as u8,
{
}

} // verus!
