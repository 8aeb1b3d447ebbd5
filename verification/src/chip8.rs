//! The executable virtual machine.

use vstd::prelude::*;
use rand::Rng;
use crate::instruction::{decode, decode_spec, Instruction};
use crate::machine::{
    any_pressed, is_first_pressed, lemma_first_pressed, lemma_shift_by_one, lemma_word, Machine,
    FLAG, FONT_SET, FONT_SET_START_ADDRESS, MAX_ROM_LEN, SCREEN_HEIGHT, SCREEN_WIDTH,
    START_ADDRESS,
};
use crate::sprite::{
    collides, drawn_up_to, lemma_draw_cell, lemma_draw_done, lemma_draw_row_done,
    lemma_draw_start,
};

verus! {

/// The virtual machine: registers, memory, call stack, timers, keypad and
/// frame buffer.
pub struct Chip8 {
    registers: [u8; 16],
    memory: [u8; 4096],
    index: u16,
    pc: u16,
    stack: [u16; 16],
    sp: u8,
    delay_timer: u8,
    sound_timer: u8,
    keypad: [bool; 16],
    video_frame_buffer: [u8; 2048],
}

impl View for Chip8 {
    type V = Machine;

    closed spec fn view(&self) -> Machine {
        Machine {
            registers: self.registers@,
            memory: self.memory@,
            index: self.index,
            pc: self.pc,
            stack: self.stack@,
            sp: self.sp,
            delay_timer: self.delay_timer,
            sound_timer: self.sound_timer,
            keypad: self.keypad@,
            frame: self.video_frame_buffer@,
        }
    }
}

/// A byte from the thread-local generator of the `rand` crate:
/// `rand::rng().random_range(0..=255)`. The range is the whole of `u8`, so
/// the call cannot fail on an empty range, and nothing is claimed of the
/// byte that comes back.
#[verifier::external_body]
fn rand_gen() -> (byte: u8) {
    rand::rng().random_range(0..=255u8)
}

impl Chip8 {
    /// A machine at power-on.
    pub fn new() -> (vm: Self)
        ensures
            vm@ == Machine::initial(),
            vm@.wf(),
    {
        let mut memory = [0u8; 4096];
        let mut i: usize = 0;
        while i < 80
            invariant
                i <= 80,
                forall|a: int| 0 <= a < 4096 ==> memory@[a] == if 0x50 <= a < 0x50 + i {
                    FONT_SET@[a - 0x50]
                } else {
                    0u8
                },
            decreases 80 - i,
        {
            memory[FONT_SET_START_ADDRESS as usize + i] = FONT_SET[i];
            i += 1;
        }
        let vm = Chip8 {
            registers: [0u8; 16],
            memory,
            index: 0,
            pc: START_ADDRESS,
            stack: [0u16; 16],
            sp: 0,
            delay_timer: 0,
            sound_timer: 0,
            keypad: [false; 16],
            video_frame_buffer: [0u8; 2048],
        };
        assert(vm@ =~= Machine::initial());
        vm
    }

    /// Copies a program image into memory from the load address on. The
    /// image must fit between the load address and the end of memory.
    pub fn load_rom(&mut self, image: &[u8])
        requires
            old(self)@.wf(),
            image@.len() <= MAX_ROM_LEN,
        ensures
            final(self)@ == old(self)@.load(image@),
            final(self)@.wf(),
    {
        let mut i: usize = 0;
        while i < image.len()
            invariant
                i <= image@.len() <= MAX_ROM_LEN,
                self@ == (Machine { memory: self@.memory, ..old(self)@ }),
                forall|a: int|
                    0 <= a < 4096 ==> self.memory@[a] == if 0x200 <= a < 0x200 + i {
                        image@[a - 0x200]
                    } else {
                        old(self).memory@[a]
                    },
            decreases image@.len() - i,
        {
            self.memory[START_ADDRESS as usize + i] = image[i];
            i += 1;
        }
        assert(self@ =~= old(self)@.load(image@));
    }

    /// One timer step: the delay timer and the sound timer each go down by
    /// one unless already zero.
    pub fn update_timers(&mut self)
        requires
            old(self)@.wf(),
        ensures
            final(self)@ == old(self)@.tick_timers(),
            final(self)@.wf(),
    {
        if self.delay_timer > 0 {
            self.delay_timer -= 1;
        }
        if self.sound_timer > 0 {
            self.sound_timer -= 1;
        }
    }

    /// Whether a whole cycle can run in the present state: what
    /// `execute_cycle` asks of its caller.
    pub fn can_execute_cycle(&self) -> (ok: bool)
        requires
            self@.wf(),
        ensures
            ok == self@.can_step(),
    {
        if self.pc >= 4095 {
            return false;
        }
        let opcode = self.fetch();
        self.can_execute_opcode(decode(opcode))
    }

    /// One fetch-decode-execute cycle: reads the word at the program
    /// counter, moves the program counter past it, and runs the instruction.
    /// Returns the instruction that ran; for a word that matches none this
    /// is `Unknown` with the word, and only the program counter has moved.
    pub fn execute_cycle(&mut self) -> (inst: Instruction)
        requires
            old(self)@.wf(),
            old(self)@.can_step(),
        ensures
            inst == decode_spec(old(self)@.fetch()),
            exists|random: u8| final(self)@ == #[trigger] old(self)@.step(random),
            inst !is Random ==> final(self)@ == old(self)@.step(0),
            final(self)@.wf(),
    {
        let opcode = self.fetch();
        self.pc += 2;
        let inst = decode(opcode);
        assert(self@ == old(self)@.advance());
        self.execute_opcode(inst);
        proof {
            let random = choose|random: u8|
                self@ == #[trigger] old(self)@.advance().execute(inst, random);
            assert(self@ == old(self)@.step(random));
        }
        inst
    }

    /// The instruction word at the program counter, high byte first.
    fn fetch(&self) -> (opcode: u16)
        requires
            self@.can_fetch(),
        ensures
            opcode == self@.fetch(),
    {
        let high = self.memory[self.pc as usize];
        let low = self.memory[self.pc as usize + 1];
        proof {
            lemma_word(high, low);
        }
        ((high as u16) << 8) | (low as u16)
    }

    /// Whether `inst` can run in the present state.
    pub fn can_execute_opcode(&self, inst: Instruction) -> (ok: bool)
        requires
            self@.wf(),
            inst.wf(),
        ensures
            ok == self@.can_execute(inst),
    {
        let index = self.index as usize;
        match inst {
            Instruction::Return => self.sp >= 1,
            Instruction::Call { .. } => self.sp < 16,
            Instruction::Draw { n, .. } => n == 0 || index + (n as usize) <= 4096,
            Instruction::SkipKey { x } | Instruction::SkipNotKey { x } => {
                self.registers[x as usize] < 16
            },
            Instruction::StoreBcd { .. } => index + 2 < 4096,
            Instruction::StoreRegs { x } | Instruction::LoadRegs { x } => {
                index + (x as usize) < 4096
            },
            _ => true,
        }
    }

    /// Runs one decoded instruction. An unknown word changes nothing. The
    /// random instruction draws its byte here, so for it the result is known
    /// only up to that byte; every other instruction is determined.
    pub fn execute_opcode(&mut self, inst: Instruction)
        requires
            old(self)@.wf(),
            inst.wf(),
            old(self)@.can_execute(inst),
        ensures
            exists|random: u8| final(self)@ == #[trigger] old(self)@.execute(inst, random),
            inst !is Random ==> final(self)@ == old(self)@.execute(inst, 0),
            final(self)@.wf(),
    {
        match inst {
            Instruction::ClearDisplay => self.op_00e0(),
            Instruction::Return => self.op_00ee(),
            Instruction::Jump { nnn } => self.op_1nnn(nnn),
            Instruction::Call { nnn } => self.op_2nnn(nnn),
            Instruction::SkipEqImm { x, kk } => self.op_3xkk(x, kk),
            Instruction::SkipNeImm { x, kk } => self.op_4xkk(x, kk),
            Instruction::SkipEqReg { x, y } => self.op_5xy0(x, y),
            Instruction::LoadImm { x, kk } => self.op_6xkk(x, kk),
            Instruction::AddImm { x, kk } => self.op_7xkk(x, kk),
            Instruction::Copy { x, y } => self.op_8xy0(x, y),
            Instruction::Or { x, y } => self.op_8xy1(x, y),
            Instruction::And { x, y } => self.op_8xy2(x, y),
            Instruction::Xor { x, y } => self.op_8xy3(x, y),
            Instruction::AddReg { x, y } => self.op_8xy4(x, y),
            Instruction::SubReg { x, y } => self.op_8xy5(x, y),
            Instruction::ShiftRight { x } => self.op_8xy6(x),
            Instruction::SubFrom { x, y } => self.op_8xy7(x, y),
            Instruction::ShiftLeft { x } => self.op_8xye(x),
            Instruction::SkipNeReg { x, y } => self.op_9xy0(x, y),
            Instruction::LoadIndex { nnn } => self.op_annn(nnn),
            Instruction::JumpOffset { nnn } => self.op_bnnn(nnn),
            Instruction::Random { x, kk } => {
                self.op_cxkk(x, kk);
                proof {
                    let random = choose|random: u8|
                        self@ == #[trigger] old(self)@.random(x, kk, random);
                    assert(self@ == old(self)@.execute(inst, random));
                }
            },
            Instruction::Draw { x, y, n } => self.op_dxyn(x, y, n),
            Instruction::SkipKey { x } => self.op_ex9e(x),
            Instruction::SkipNotKey { x } => self.op_exa1(x),
            Instruction::LoadDelay { x } => self.op_fx07(x),
            Instruction::WaitKey { x } => self.op_fx0a(x),
            Instruction::SetDelay { x } => self.op_fx15(x),
            Instruction::SetSound { x } => self.op_fx18(x),
            Instruction::AddIndex { x } => self.op_fx1e(x),
            Instruction::FontAddr { x } => self.op_fx29(x),
            Instruction::StoreBcd { x } => self.op_fx33(x),
            Instruction::StoreRegs { x } => self.op_fx55(x),
            Instruction::LoadRegs { x } => self.op_fx65(x),
            Instruction::Unknown { .. } => {},
        }
        proof {
            if inst !is Random {
                assert(self@ == old(self)@.execute(inst, 0));
            }
        }
    }
}

/// One handler for each instruction. The operands are the fields that
/// decoding took out of the instruction word.
impl Chip8 {
    /// `00E0`: clears the display.
    pub fn op_00e0(&mut self)
        requires
            old(self)@.wf(),
        ensures
            final(self)@ == old(self)@.clear_display(),
            final(self)@.wf(),
    {
        self.video_frame_buffer = [0u8; 2048];
        assert(self@ =~= old(self)@.clear_display());
    }

    /// `00EE`: returns from a subroutine.
    pub fn op_00ee(&mut self)
        requires
            old(self)@.wf(),
            old(self)@.sp >= 1,
        ensures
            final(self)@ == old(self)@.ret(),
            final(self)@.wf(),
    {
        self.sp -= 1;
        self.pc = self.stack[self.sp as usize];
        assert(self@ =~= old(self)@.ret());
    }

    /// `1nnn`: jumps to `nnn`.
    pub fn op_1nnn(&mut self, nnn: u16)
        requires
            old(self)@.wf(),
        ensures
            final(self)@ == old(self)@.jump(nnn),
            final(self)@.wf(),
    {
        self.pc = nnn;
    }

    /// `2nnn`: pushes the program counter and jumps to `nnn`.
    pub fn op_2nnn(&mut self, nnn: u16)
        requires
            old(self)@.wf(),
            old(self)@.sp < 16,
        ensures
            final(self)@ == old(self)@.call(nnn),
            final(self)@.wf(),
    {
        self.stack[self.sp as usize] = self.pc;
        self.sp += 1;
        self.pc = nnn;
        assert(self@ =~= old(self)@.call(nnn));
    }

    /// Moves the program counter past the next instruction.
    fn skip(&mut self)
        requires
            old(self)@.wf(),
        ensures
            final(self)@ == old(self)@.skip_if(true),
            final(self)@.wf(),
    {
        self.pc = self.pc.wrapping_add(2);
    }

    /// `3xkk`: skips the next instruction if `Vx == kk`.
    pub fn op_3xkk(&mut self, x: u8, kk: u8)
        requires
            old(self)@.wf(),
            x < 16,
        ensures
            final(self)@ == old(self)@.skip_if(old(self)@.v(x) == kk),
            final(self)@.wf(),
    {
        if self.registers[x as usize] == kk {
            self.skip();
        }
    }

    /// `4xkk`: skips the next instruction if `Vx != kk`.
    pub fn op_4xkk(&mut self, x: u8, kk: u8)
        requires
            old(self)@.wf(),
            x < 16,
        ensures
            final(self)@ == old(self)@.skip_if(old(self)@.v(x) != kk),
            final(self)@.wf(),
    {
        if self.registers[x as usize] != kk {
            self.skip();
        }
    }

    /// `5xy0`: skips the next instruction if `Vx == Vy`.
    pub fn op_5xy0(&mut self, x: u8, y: u8)
        requires
            old(self)@.wf(),
            x < 16,
            y < 16,
        ensures
            final(self)@ == old(self)@.skip_if(old(self)@.v(x) == old(self)@.v(y)),
            final(self)@.wf(),
    {
        if self.registers[x as usize] == self.registers[y as usize] {
            self.skip();
        }
    }

    /// `6xkk`: `Vx = kk`.
    pub fn op_6xkk(&mut self, x: u8, kk: u8)
        requires
            old(self)@.wf(),
            x < 16,
        ensures
            final(self)@ == old(self)@.set_v(x, kk),
            final(self)@.wf(),
    {
        self.registers[x as usize] = kk;
        assert(self@ =~= old(self)@.set_v(x, kk));
    }

    /// `7xkk`: `Vx = Vx + kk` modulo 256; the flag is left alone.
    pub fn op_7xkk(&mut self, x: u8, kk: u8)
        requires
            old(self)@.wf(),
            x < 16,
        ensures
            final(self)@ == old(self)@.add_imm(x, kk),
            final(self)@.wf(),
    {
        self.registers[x as usize] = self.registers[x as usize].wrapping_add(kk);
        assert(self@ =~= old(self)@.add_imm(x, kk));
    }

    /// `8xy0`: `Vx = Vy`.
    pub fn op_8xy0(&mut self, x: u8, y: u8)
        requires
            old(self)@.wf(),
            x < 16,
            y < 16,
        ensures
            final(self)@ == old(self)@.set_v(x, old(self)@.v(y)),
            final(self)@.wf(),
    {
        self.registers[x as usize] = self.registers[y as usize];
        assert(self@ =~= old(self)@.set_v(x, old(self)@.v(y)));
    }

    /// `8xy1`: `Vx = Vx | Vy`; the flag is left alone.
    pub fn op_8xy1(&mut self, x: u8, y: u8)
        requires
            old(self)@.wf(),
            x < 16,
            y < 16,
        ensures
            final(self)@ == old(self)@.or_reg(x, y),
            final(self)@.wf(),
    {
        self.registers[x as usize] = self.registers[x as usize] | self.registers[y as usize];
        assert(self@ =~= old(self)@.or_reg(x, y));
    }

    /// `8xy2`: `Vx = Vx & Vy`; the flag is left alone.
    pub fn op_8xy2(&mut self, x: u8, y: u8)
        requires
            old(self)@.wf(),
            x < 16,
            y < 16,
        ensures
            final(self)@ == old(self)@.and_reg(x, y),
            final(self)@.wf(),
    {
        self.registers[x as usize] = self.registers[x as usize] & self.registers[y as usize];
        assert(self@ =~= old(self)@.and_reg(x, y));
    }

    /// `8xy3`: `Vx = Vx ^ Vy`; the flag is left alone.
    pub fn op_8xy3(&mut self, x: u8, y: u8)
        requires
            old(self)@.wf(),
            x < 16,
            y < 16,
        ensures
            final(self)@ == old(self)@.xor_reg(x, y),
            final(self)@.wf(),
    {
        self.registers[x as usize] = self.registers[x as usize] ^ self.registers[y as usize];
        assert(self@ =~= old(self)@.xor_reg(x, y));
    }

    /// `8xy4`: `Vx = Vx + Vy` modulo 256. The flag is 1 exactly if the sum
    /// exceeds 255.
    pub fn op_8xy4(&mut self, x: u8, y: u8)
        requires
            old(self)@.wf(),
            x < 16,
            y < 16,
        ensures
            final(self)@ == old(self)@.add_reg(x, y),
            final(self)@.wf(),
            x != FLAG ==> final(self)@.v(x) == (old(self)@.v(x) + old(self)@.v(y)) % 256,
            x != FLAG ==> final(self)@.v(FLAG) == if old(self)@.v(x) + old(self)@.v(y) > 255 {
                1int
            } else {
                0int
            },
    {
        let vx = self.registers[x as usize];
        let vy = self.registers[y as usize];
        let sum: u16 = vx as u16 + vy as u16;
        if sum > 255 {
            self.registers[0xF] = 1;
        } else {
            self.registers[0xF] = 0;
        }
        self.registers[x as usize] = (sum % 256) as u8;
        assert(self@ =~= old(self)@.add_reg(x, y));
    }

    /// `8xy5`: `Vx = Vx - Vy` modulo 256. The flag is 1 exactly if
    /// `Vx >= Vy`, that is if the subtraction does not borrow.
    pub fn op_8xy5(&mut self, x: u8, y: u8)
        requires
            old(self)@.wf(),
            x < 16,
            y < 16,
        ensures
            final(self)@ == old(self)@.sub_reg(x, y),
            final(self)@.wf(),
            x != FLAG ==> final(self)@.v(x) == (old(self)@.v(x) - old(self)@.v(y)) % 256,
            x != FLAG ==> final(self)@.v(FLAG) == if old(self)@.v(x) >= old(self)@.v(y) {
                1int
            } else {
                0int
            },
    {
        let vx = self.registers[x as usize];
        let vy = self.registers[y as usize];
        if vx >= vy {
            self.registers[0xF] = 1;
        } else {
            self.registers[0xF] = 0;
        }
        self.registers[x as usize] = vx.wrapping_sub(vy);
        assert(self@ =~= old(self)@.sub_reg(x, y));
    }

    /// `8xy6`: the flag takes the lowest bit of `Vx`, then `Vx` is shifted
    /// right by one. `Vy` is not read.
    pub fn op_8xy6(&mut self, x: u8)
        requires
            old(self)@.wf(),
            x < 16,
        ensures
            final(self)@ == old(self)@.shift_right(x),
            final(self)@.wf(),
            x != FLAG ==> final(self)@.v(x) == old(self)@.v(x) >> 1,
            x != FLAG ==> final(self)@.v(FLAG) == old(self)@.v(x) & 1,
    {
        proof {
            lemma_shift_by_one(self.registers@[x as int]);
            lemma_shift_by_one(self.registers@[x as int] & 1);
        }
        self.registers[0xF] = self.registers[x as usize] & 0x1;
        self.registers[x as usize] = self.registers[x as usize] >> 1;
        assert(self@ =~= old(self)@.shift_right(x));
    }

    /// `8xy7`: `Vx = Vy - Vx` modulo 256. The flag is 1 exactly if
    /// `Vy >= Vx`.
    pub fn op_8xy7(&mut self, x: u8, y: u8)
        requires
            old(self)@.wf(),
            x < 16,
            y < 16,
        ensures
            final(self)@ == old(self)@.sub_from(x, y),
            final(self)@.wf(),
            x != FLAG ==> final(self)@.v(x) == (old(self)@.v(y) - old(self)@.v(x)) % 256,
            x != FLAG ==> final(self)@.v(FLAG) == if old(self)@.v(y) >= old(self)@.v(x) {
                1int
            } else {
                0int
            },
    {
        let vx = self.registers[x as usize];
        let vy = self.registers[y as usize];
        if vy >= vx {
            self.registers[0xF] = 1;
        } else {
            self.registers[0xF] = 0;
        }
        self.registers[x as usize] = vy.wrapping_sub(vx);
        assert(self@ =~= old(self)@.sub_from(x, y));
    }

    /// `8xyE`: the flag takes the highest bit of `Vx`, then `Vx` is shifted
    /// left by one. `Vy` is not read.
    pub fn op_8xye(&mut self, x: u8)
        requires
            old(self)@.wf(),
            x < 16,
        ensures
            final(self)@ == old(self)@.shift_left(x),
            final(self)@.wf(),
            x != FLAG ==> final(self)@.v(x) == old(self)@.v(x) << 1,
            x != FLAG ==> final(self)@.v(x) == (old(self)@.v(x) * 2) % 256,
            x != FLAG ==> final(self)@.v(FLAG) == (old(self)@.v(x) & 0x80) >> 7,
    {
        proof {
            lemma_shift_by_one(self.registers@[x as int]);
            lemma_shift_by_one((self.registers@[x as int] & 0x80) >> 7);
        }
        self.registers[0xF] = (self.registers[x as usize] & 0x80) >> 7;
        self.registers[x as usize] = self.registers[x as usize] << 1;
        assert(self@ =~= old(self)@.shift_left(x));
    }

    /// `9xy0`: skips the next instruction if `Vx != Vy`.
    pub fn op_9xy0(&mut self, x: u8, y: u8)
        requires
            old(self)@.wf(),
            x < 16,
            y < 16,
        ensures
            final(self)@ == old(self)@.skip_if(old(self)@.v(x) != old(self)@.v(y)),
            final(self)@.wf(),
    {
        if self.registers[x as usize] != self.registers[y as usize] {
            self.skip();
        }
    }

    /// `Annn`: `I = nnn`.
    pub fn op_annn(&mut self, nnn: u16)
        requires
            old(self)@.wf(),
        ensures
            final(self)@ == old(self)@.load_index(nnn),
            final(self)@.wf(),
    {
        self.index = nnn;
    }

    /// `Bnnn`: jumps to `nnn + V0`.
    pub fn op_bnnn(&mut self, nnn: u16)
        requires
            old(self)@.wf(),
        ensures
            final(self)@ == old(self)@.jump_offset(nnn),
            final(self)@.wf(),
    {
        self.pc = (self.registers[0] as u16).wrapping_add(nnn);
    }

    /// `Cxkk`: `Vx` takes a random byte, drawn from all of 0 to 255, masked
    /// by `kk`.
    pub fn op_cxkk(&mut self, x: u8, kk: u8)
        requires
            old(self)@.wf(),
            x < 16,
        ensures
            exists|random: u8| final(self)@ == #[trigger] old(self)@.random(x, kk, random),
            final(self)@.wf(),
    {
        let random = rand_gen();
        self.op_cxkk_with(x, kk, random);
        assert(self@ == old(self)@.random(x, kk, random));
    }

    /// `Cxkk` with the random byte given: `Vx = random & kk`.
    pub fn op_cxkk_with(&mut self, x: u8, kk: u8, random: u8)
        requires
            old(self)@.wf(),
            x < 16,
        ensures
            final(self)@ == old(self)@.random(x, kk, random),
            final(self)@.wf(),
    {
        self.registers[x as usize] = random & kk;
        assert(self@ =~= old(self)@.random(x, kk, random));
    }

    /// `Dxyn`: draws the `n`-row sprite at the index register with its
    /// corner at (`Vx mod 64`, `Vy mod 32`), each pixel wrapping at the
    /// screen edges on its own. The flag ends as 1 exactly if a lit pixel
    /// was under a set sprite bit.
    pub fn op_dxyn(&mut self, x: u8, y: u8, n: u8)
        requires
            old(self)@.wf(),
            x < 16,
            y < 16,
            n < 16,
            n > 0 ==> old(self)@.index + n <= 4096,
        ensures
            final(self)@ == old(self)@.draw(x, y, n),
            final(self)@.wf(),
            final(self)@.v(FLAG) == 1 <==> collides(
                old(self)@.frame,
                old(self)@.sprite(n),
                old(self)@.origin_x(x),
                old(self)@.origin_y(y),
            ),
    {
        let x_pos: usize = self.registers[x as usize] as usize % SCREEN_WIDTH;
        let y_pos: usize = self.registers[y as usize] as usize % SCREEN_HEIGHT;
        let ghost ox = x_pos as int;
        let ghost oy = y_pos as int;
        let ghost sprite = old(self)@.sprite(n);
        let ghost before = old(self)@.frame;

        self.registers[0xF] = 0;
        proof {
            lemma_draw_start(before, sprite, ox, oy);
        }

        let mut row: u8 = 0;
        while row < n
            invariant
                row <= n < 16,
                ox == x_pos < 64,
                oy == y_pos < 32,
                n > 0 ==> old(self)@.index + n <= 4096,
                sprite == old(self)@.sprite(n),
                self@ == (Machine {
                    frame: self@.frame,
                    registers: old(self)@.registers.update(0xF, self@.v(FLAG)),
                    ..old(self)@
                }),
                drawn_up_to(self@.frame, self@.v(FLAG), before, sprite, ox, oy, row as int, 0),
            decreases n - row,
        {
            let sprite_row = self.memory[self.index as usize + row as usize];
            let mut col: u8 = 0;
            while col < 8
                invariant
                    row < n < 16,
                    col <= 8,
                    ox == x_pos < 64,
                    oy == y_pos < 32,
                    sprite.len() == n,
                    sprite_row == sprite[row as int],
                    self@ == (Machine {
                        frame: self@.frame,
                        registers: old(self)@.registers.update(0xF, self@.v(FLAG)),
                        ..old(self)@
                    }),
                    drawn_up_to(
                        self@.frame,
                        self@.v(FLAG),
                        before,
                        sprite,
                        ox,
                        oy,
                        row as int,
                        col as int,
                    ),
                decreases 8 - col,
            {
                proof {
                    lemma_draw_cell(
                        self@.frame,
                        self@.v(FLAG),
                        before,
                        sprite,
                        ox,
                        oy,
                        row as int,
                        col as int,
                    );
                }
                let sprite_pixel = sprite_row & (0x80u8 >> col);
                if sprite_pixel != 0 {
                    let px: usize = (x_pos + col as usize) % SCREEN_WIDTH;
                    let py: usize = (y_pos + row as usize) % SCREEN_HEIGHT;
                    let screen_pixel = self.video_frame_buffer[py * SCREEN_WIDTH + px];
                    if screen_pixel == 1 {
                        self.registers[0xF] = 1;
                    }
                    self.video_frame_buffer[py * SCREEN_WIDTH + px] = screen_pixel ^ 1;
                }
                col += 1;
            }
            proof {
                lemma_draw_row_done(self@.frame, self@.v(FLAG), before, sprite, ox, oy, row as int);
            }
            row += 1;
        }
        proof {
            lemma_draw_done(self@.frame, self@.v(FLAG), before, sprite, ox, oy);
            assert(self@ =~= old(self)@.draw(x, y, n));
        }
    }

    /// `Ex9E`: skips the next instruction if the key that `Vx` names is
    /// pressed.
    pub fn op_ex9e(&mut self, x: u8)
        requires
            old(self)@.wf(),
            x < 16,
            old(self)@.v(x) < 16,
        ensures
            final(self)@ == old(self)@.skip_if(old(self)@.key_down(x)),
            final(self)@.wf(),
    {
        if self.keypad[self.registers[x as usize] as usize] {
            self.skip();
        }
    }

    /// `ExA1`: skips the next instruction if the key that `Vx` names is not
    /// pressed.
    pub fn op_exa1(&mut self, x: u8)
        requires
            old(self)@.wf(),
            x < 16,
            old(self)@.v(x) < 16,
        ensures
            final(self)@ == old(self)@.skip_if(!old(self)@.key_down(x)),
            final(self)@.wf(),
    {
        if !self.keypad[self.registers[x as usize] as usize] {
            self.skip();
        }
    }

    /// `Fx07`: `Vx = delay timer`.
    pub fn op_fx07(&mut self, x: u8)
        requires
            old(self)@.wf(),
            x < 16,
        ensures
            final(self)@ == old(self)@.set_v(x, old(self)@.delay_timer),
            final(self)@.wf(),
    {
        self.registers[x as usize] = self.delay_timer;
        assert(self@ =~= old(self)@.set_v(x, old(self)@.delay_timer));
    }

    /// `Fx0A`: with a key pressed, `Vx` takes the lowest pressed line and
    /// execution goes on. With none, the program counter steps back by 2,
    /// so that the next cycle runs this instruction again.
    pub fn op_fx0a(&mut self, x: u8)
        requires
            old(self)@.wf(),
            x < 16,
        ensures
            final(self)@ == old(self)@.wait_key(x),
            final(self)@.wf(),
            any_pressed(old(self)@.keypad) ==> is_first_pressed(
                old(self)@.keypad,
                final(self)@.v(x) as int,
            ),
    {
        let mut key: u8 = 0;
        while key < 16
            invariant
                key <= 16,
                x < 16,
                old(self)@.wf(),
                *self == *old(self),
                forall|j: int| 0 <= j < key ==> !self.keypad@[j],
            decreases 16 - key,
        {
            if self.keypad[key as usize] {
                proof {
                    lemma_first_pressed(self.keypad@, key as int);
                }
                self.registers[x as usize] = key;
                assert(self@ =~= old(self)@.wait_key(x));
                return ;
            }
            key += 1;
        }
        self.pc = self.pc.wrapping_sub(2);
        assert(!any_pressed(old(self)@.keypad));
    }

    /// `Fx15`: `delay timer = Vx`.
    pub fn op_fx15(&mut self, x: u8)
        requires
            old(self)@.wf(),
            x < 16,
        ensures
            final(self)@ == (Machine { delay_timer: old(self)@.v(x), ..old(self)@ }),
            final(self)@.wf(),
    {
        self.delay_timer = self.registers[x as usize];
    }

    /// `Fx18`: `sound timer = Vx`.
    pub fn op_fx18(&mut self, x: u8)
        requires
            old(self)@.wf(),
            x < 16,
        ensures
            final(self)@ == (Machine { sound_timer: old(self)@.v(x), ..old(self)@ }),
            final(self)@.wf(),
    {
        self.sound_timer = self.registers[x as usize];
    }

    /// `Fx1E`: `I = I + Vx` modulo 65536; the flag is left alone.
    pub fn op_fx1e(&mut self, x: u8)
        requires
            old(self)@.wf(),
            x < 16,
        ensures
            final(self)@ == old(self)@.add_index(x),
            final(self)@.wf(),
    {
        self.index = self.index.wrapping_add(self.registers[x as usize] as u16);
    }

    /// `Fx29`: `I` = font base + 5 × `Vx`, the address of the glyph for the
    /// digit in `Vx`.
    pub fn op_fx29(&mut self, x: u8)
        requires
            old(self)@.wf(),
            x < 16,
        ensures
            final(self)@ == old(self)@.font_addr(x),
            final(self)@.wf(),
            final(self)@.index == 0x50 + 5 * old(self)@.v(x),
    {
        self.index = FONT_SET_START_ADDRESS + 5 * (self.registers[x as usize] as u16);
    }

    /// `Fx33`: writes the hundreds, tens and units digit of `Vx` to memory
    /// at `I`, `I + 1` and `I + 2`.
    pub fn op_fx33(&mut self, x: u8)
        requires
            old(self)@.wf(),
            x < 16,
            old(self)@.index + 2 < 4096,
        ensures
            final(self)@ == old(self)@.store_bcd(x),
            final(self)@.wf(),
            final(self)@.memory[old(self)@.index as int] < 10,
            final(self)@.memory[old(self)@.index + 1] < 10,
            final(self)@.memory[old(self)@.index + 2] < 10,
            100 * final(self)@.memory[old(self)@.index as int] + 10 * final(self)@.memory[old(
                self,
            )@.index + 1] + final(self)@.memory[old(self)@.index + 2] == old(self)@.v(x),
    {
        let mut value = self.registers[x as usize];
        let i = self.index as usize;
        self.memory[i + 2] = value % 10;
        value = value / 10;
        self.memory[i + 1] = value % 10;
        value = value / 10;
        self.memory[i] = value % 10;
        assert(self@ =~= old(self)@.store_bcd(x));
    }

    /// `Fx55`: writes `V0..=Vx` to memory from `I` on. `I` itself stays.
    pub fn op_fx55(&mut self, x: u8)
        requires
            old(self)@.wf(),
            x < 16,
            old(self)@.index + x < 4096,
        ensures
            final(self)@ == old(self)@.store_regs(x),
            final(self)@.wf(),
    {
        let base = self.index as usize;
        let mut i: usize = 0;
        while i <= x as usize
            invariant
                i <= x + 1,
                x < 16,
                base == old(self).index,
                base + x < 4096,
                self@ == (Machine { memory: self@.memory, ..old(self)@ }),
                forall|a: int|
                    0 <= a < 4096 ==> self.memory@[a] == if base <= a < base + i {
                        old(self).registers@[a - base]
                    } else {
                        old(self).memory@[a]
                    },
            decreases x + 1 - i,
        {
            self.memory[base + i] = self.registers[i];
            i += 1;
        }
        assert(self@ =~= old(self)@.store_regs(x));
    }

    /// `Fx65`: reads `V0..=Vx` from memory from `I` on. `I` itself stays.
    pub fn op_fx65(&mut self, x: u8)
        requires
            old(self)@.wf(),
            x < 16,
            old(self)@.index + x < 4096,
        ensures
            final(self)@ == old(self)@.load_regs(x),
            final(self)@.wf(),
    {
        let base = self.index as usize;
        let mut i: usize = 0;
        while i <= x as usize
            invariant
                i <= x + 1,
                x < 16,
                base == old(self).index,
                base + x < 4096,
                self@ == (Machine { registers: self@.registers, ..old(self)@ }),
                forall|r: int|
                    0 <= r < 16 ==> self.registers@[r] == if r < i {
                        old(self).memory@[base + r]
                    } else {
                        old(self).registers@[r]
                    },
            decreases x + 1 - i,
        {
            self.registers[i] = self.memory[base + i];
            i += 1;
        }
        assert(self@ =~= old(self)@.load_regs(x));
    }
}

/// Reading the state, and the keypad's input.
impl Chip8 {
    /// Register `Vx`.
    pub fn register(&self, x: u8) -> (value: u8)
        requires
            x < 16,
        ensures
            value == self@.v(x),
    {
        self.registers[x as usize]
    }

    /// The byte of memory at `address`.
    pub fn memory_at(&self, address: u16) -> (value: u8)
        requires
            address < 4096,
        ensures
            value == self@.memory[address as int],
    {
        self.memory[address as usize]
    }

    /// The index register `I`.
    pub fn index(&self) -> (index: u16)
        ensures
            index == self@.index,
    {
        self.index
    }

    /// The program counter.
    pub fn pc(&self) -> (pc: u16)
        ensures
            pc == self@.pc,
    {
        self.pc
    }

    /// The number of live return addresses.
    pub fn sp(&self) -> (sp: u8)
        ensures
            sp == self@.sp,
    {
        self.sp
    }

    /// The return address in stack slot `slot`.
    pub fn stack_at(&self, slot: u8) -> (address: u16)
        requires
            slot < 16,
        ensures
            address == self@.stack[slot as int],
    {
        self.stack[slot as usize]
    }

    /// The delay timer.
    pub fn delay_timer(&self) -> (value: u8)
        ensures
            value == self@.delay_timer,
    {
        self.delay_timer
    }

    /// The sound timer; the tone sounds while it is not zero.
    pub fn sound_timer(&self) -> (value: u8)
        ensures
            value == self@.sound_timer,
    {
        self.sound_timer
    }

    /// Whether keypad line `key` is pressed.
    pub fn key(&self, key: usize) -> (pressed: bool)
        requires
            key < 16,
        ensures
            pressed == self@.keypad[key as int],
    {
        self.keypad[key]
    }

    /// Presses or releases keypad line `key`.
    pub fn set_key(&mut self, key: usize, pressed: bool)
        requires
            old(self)@.wf(),
            key < 16,
        ensures
            final(self)@ == (Machine {
                keypad: old(self)@.keypad.update(key as int, pressed),
                ..old(self)@
            }),
            final(self)@.wf(),
    {
        self.keypad[key] = pressed;
        assert(self@.keypad =~= old(self)@.keypad.update(key as int, pressed));
    }

    /// The frame buffer: 64 by 32 cells, row by row, 1 where a pixel is lit
    /// and 0 where it is not.
    pub fn video_frame_buffer(&self) -> (frame: &[u8; 2048])
        ensures
            frame@ == self@.frame,
    {
        &self.video_frame_buffer
    }
}

} // verus!
