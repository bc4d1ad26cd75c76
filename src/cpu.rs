use vstd::prelude::*;
use crate::error::Chip8Error;
use crate::instruction::{decode_op, operands_in_range, Instruction, Op};
use crate::machine::{bcd_digits, Chip8};
use crate::memory::{
    blank_screen, drawn_screen, glyph_address, initial_memory, max_program_len, sprite_collides,
    with_program, Memory, MEMORY_SIZE, PROGRAM_START,
};
use crate::stack::{pop_result, push_result, Stack, STACK_DEPTH};

verus! {

/// Number of general registers; the last one doubles as the flag register.
pub const REGISTER_COUNT: usize = 16;
/// The flag register.
pub const FLAG: usize = 15;
/// Number of keys on the keypad.
pub const KEY_COUNT: usize = 16;
/// Seed of the random byte generator in a fresh machine.
pub const INITIAL_SEED: u32 = 0x2545_F491;

/// The whole state of the processor, as a mathematical value.
pub struct CpuState {
    pub mem: Seq<u8>,
    pub screen: Seq<bool>,
    pub regs: Seq<u8>,
    pub index: u16,
    pub pc: u16,
    pub stack: Seq<u16>,
    pub delay: u8,
    pub sound: u8,
    pub keys: Seq<bool>,
    /// The register awaiting a key press, while an `Fx0A` waits.
    pub waiting: Option<u8>,
    pub seed: u32,
}

/// What a step asks of the display and the driver loop.
#[derive(PartialEq, Eq, Structural, Clone, Copy, Debug)]
pub enum StepEffect {
    /// An instruction ran; the screen is unchanged.
    Executed,
    /// The screen was cleared.
    Cleared,
    /// A sprite was drawn.
    Drawn,
    /// The processor waits for a key press and ran nothing.
    Waiting,
}

/// Sizes and ranges that every reachable state keeps.
pub open spec fn valid_state(s: CpuState) -> bool {
    &&& s.mem.len() == MEMORY_SIZE
    &&& s.screen.len() == 2048
    &&& s.regs.len() == REGISTER_COUNT
    &&& s.stack.len() <= STACK_DEPTH
    &&& s.keys.len() == KEY_COUNT
    &&& (s.waiting matches Some(x) ==> x < REGISTER_COUNT)
}

/// The state of a freshly built processor.
pub open spec fn initial_state() -> CpuState {
    CpuState {
        mem: initial_memory(),
        screen: blank_screen(),
        regs: Seq::new(REGISTER_COUNT as nat, |i: int| 0u8),
        index: 0,
        pc: PROGRAM_START as u16,
        stack: Seq::empty(),
        delay: 0,
        sound: 0,
        keys: Seq::new(KEY_COUNT as nat, |i: int| false),
        waiting: None,
        seed: INITIAL_SEED,
    }
}

/// The instruction stored big-endian at `pc`.
pub open spec fn fetch(mem: Seq<u8>, pc: int) -> u16 {
    (mem[pc] * 256 + mem[pc + 1]) as u16
}

/// The next state of the seed: a linear congruential step modulo 2^32.
pub open spec fn next_seed(seed: u32) -> u32 {
    (((seed as int * 1103515245) % 0x1_0000_0000 + 12345) % 0x1_0000_0000) as u32
}

/// The random byte drawn from `seed`: bits 16 to 23 of the next seed.
pub open spec fn random_byte(seed: u32) -> u8 {
    ((next_seed(seed) as int / 0x1_0000) % 256) as u8
}

/// `s` with the program counter moved past the current instruction.
pub open spec fn advance(s: CpuState) -> CpuState {
    CpuState { pc: (s.pc + 2) as u16, ..s }
}

/// `s` with the program counter moved past the next instruction when
/// `cond` holds, and past the current one otherwise.
pub open spec fn skip_if(s: CpuState, cond: bool) -> CpuState {
    CpuState { pc: (if cond { s.pc + 4 } else { s.pc + 2 }) as u16, ..s }
}

/// `s` with register `x` set to `v`, moved to the next instruction.
pub open spec fn set_reg(s: CpuState, x: u8, v: u8) -> CpuState {
    advance(CpuState { regs: s.regs.update(x as int, v), ..s })
}

/// `s` with register `x` set to `v` and then the flag register set to
/// `flag`, moved to the next instruction. When `x` is the flag register the
/// flag is what remains.
pub open spec fn set_reg_flag(s: CpuState, x: u8, v: u8, flag: u8) -> CpuState {
    advance(CpuState { regs: s.regs.update(x as int, v).update(FLAG as int, flag), ..s })
}

/// Whether key `k` is held down; values past the keypad never are.
pub open spec fn key_down(s: CpuState, k: u8) -> bool {
    k < KEY_COUNT && s.keys[k as int]
}

/// Memory with `regs[0..=x]` written from `index` on.
pub open spec fn stored_regs(mem: Seq<u8>, regs: Seq<u8>, index: int, x: int) -> Seq<u8> {
    Seq::new(mem.len(), |i: int| if index <= i <= index + x { regs[i - index] } else { mem[i] })
}

/// Registers with `regs[0..=x]` read from memory at `index` on.
pub open spec fn loaded_regs(mem: Seq<u8>, regs: Seq<u8>, index: int, x: int) -> Seq<u8> {
    Seq::new(regs.len(), |i: int| if i <= x { mem[index + i] } else { regs[i] })
}

/// The result of the arithmetic and logic operations `8xy0` to `8xyE` on
/// register values `a` (of `V[x]`) and `b` (of `V[y]`), with the flag
/// they set, if any.
pub open spec fn alu(op: Op, a: u8, b: u8) -> (u8, Option<u8>) {
    match op {
        Op::Assign(..) => (b, None),
        Op::Or(..) => (a | b, None),
        Op::And(..) => (a & b, None),
        Op::Xor(..) => (a ^ b, None),
        Op::AddReg(..) => (((a + b) % 256) as u8, Some(if a + b > 255 { 1u8 } else { 0u8 })),
        Op::SubReg(..) => (((a - b + 256) % 256) as u8, Some(if a >= b { 1u8 } else { 0u8 })),
        Op::ShiftRight(..) => ((a / 2) as u8, Some((a % 2) as u8)),
        Op::SubFrom(..) => (((b - a + 256) % 256) as u8, Some(if b >= a { 1u8 } else { 0u8 })),
        Op::ShiftLeft(..) => (((a * 2) % 256) as u8, Some((a / 128) as u8)),
        _ => (a, None),
    }
}

/// The registers `x` and `y` of an arithmetic or logic operation; the
/// shifts read no `y` and give 0 for it.
pub open spec fn alu_operands(op: Op) -> Option<(u8, u8)> {
    match op {
        Op::Assign(x, y) | Op::Or(x, y) | Op::And(x, y) | Op::Xor(x, y) | Op::AddReg(x, y)
        | Op::SubReg(x, y) | Op::SubFrom(x, y) => Some((x, y)),
        Op::ShiftRight(x) | Op::ShiftLeft(x) => Some((x, 0u8)),
        _ => None,
    }
}

/// The effect of running `op` in state `s`: the next state and what it
/// asks of the display, or the fatal condition it meets, in which case
/// nothing changes.
pub open spec fn execute(s: CpuState, op: Op) -> Result<(CpuState, StepEffect), Chip8Error> {
    match op {
        Op::ClearScreen => Ok((advance(CpuState { screen: blank_screen(), ..s }), StepEffect::Cleared)),
        Op::Return => match pop_result(s.stack) {
            Ok((st, a)) => Ok((CpuState { stack: st, pc: a, ..s }, StepEffect::Executed)),
            Err(e) => Err(e),
        },
        Op::Jump(nnn) => Ok((CpuState { pc: nnn, ..s }, StepEffect::Executed)),
        Op::Call(nnn) => match push_result(s.stack, (s.pc + 2) as u16) {
            Ok(st) => Ok((CpuState { stack: st, pc: nnn, ..s }, StepEffect::Executed)),
            Err(e) => Err(e),
        },
        Op::SkipEqImm(x, nn) => Ok((skip_if(s, s.regs[x as int] == nn), StepEffect::Executed)),
        Op::SkipNeImm(x, nn) => Ok((skip_if(s, s.regs[x as int] != nn), StepEffect::Executed)),
        Op::SkipEqReg(x, y) => Ok(
            (skip_if(s, s.regs[x as int] == s.regs[y as int]), StepEffect::Executed),
        ),
        Op::SkipNeReg(x, y) => Ok(
            (skip_if(s, s.regs[x as int] != s.regs[y as int]), StepEffect::Executed),
        ),
        Op::SetImm(x, nn) => Ok((set_reg(s, x, nn), StepEffect::Executed)),
        Op::AddImm(x, nn) => Ok(
            (set_reg(s, x, ((s.regs[x as int] + nn) % 256) as u8), StepEffect::Executed),
        ),
        Op::Assign(x, y) | Op::Or(x, y) | Op::And(x, y) | Op::Xor(x, y) | Op::AddReg(x, y)
        | Op::SubReg(x, y) | Op::SubFrom(x, y) => {
            let (v, flag) = alu(op, s.regs[x as int], s.regs[y as int]);
            match flag {
                Some(f) => Ok((set_reg_flag(s, x, v, f), StepEffect::Executed)),
                None => Ok((set_reg(s, x, v), StepEffect::Executed)),
            }
        },
        Op::ShiftRight(x) | Op::ShiftLeft(x) => {
            let (v, flag) = alu(op, s.regs[x as int], 0);
            Ok((set_reg_flag(s, x, v, flag.unwrap()), StepEffect::Executed))
        },
        Op::SetIndex(nnn) => Ok((advance(CpuState { index: nnn, ..s }), StepEffect::Executed)),
        Op::JumpOffset(nnn) => Ok(
            (CpuState { pc: (s.regs[0] + nnn) as u16, ..s }, StepEffect::Executed),
        ),
        Op::Random(x, nn) => Ok(
            (
                set_reg(CpuState { seed: next_seed(s.seed), ..s }, x, random_byte(s.seed) & nn),
                StepEffect::Executed,
            ),
        ),
        Op::Draw(x, y, n) => if s.index + n > MEMORY_SIZE {
            Err(Chip8Error::AddressOutOfRange(s.index as usize))
        } else {
            let sprite = s.mem.subrange(s.index as int, s.index + n);
            let x0 = s.regs[x as int] as int % 64;
            let y0 = s.regs[y as int] as int % 32;
            let hit = sprite_collides(s.screen, sprite, x0, y0);
            Ok(
                (
                    set_reg(
                        CpuState { screen: drawn_screen(s.screen, sprite, x0, y0), ..s },
                        FLAG as u8,
                        if hit { 1u8 } else { 0u8 },
                    ),
                    StepEffect::Drawn,
                ),
            )
        },
        Op::SkipKeyDown(x) => Ok((skip_if(s, key_down(s, s.regs[x as int])), StepEffect::Executed)),
        Op::SkipKeyUp(x) => Ok((skip_if(s, !key_down(s, s.regs[x as int])), StepEffect::Executed)),
        Op::ReadDelay(x) => Ok((set_reg(s, x, s.delay), StepEffect::Executed)),
        Op::WaitKey(x) => Ok((advance(CpuState { waiting: Some(x), ..s }), StepEffect::Waiting)),
        Op::SetDelay(x) => Ok(
            (advance(CpuState { delay: s.regs[x as int], ..s }), StepEffect::Executed),
        ),
        Op::SetSound(x) => Ok(
            (advance(CpuState { sound: s.regs[x as int], ..s }), StepEffect::Executed),
        ),
        Op::AddIndex(x) => Ok(
            (
                advance(CpuState { index: ((s.index + s.regs[x as int]) % 0x1_0000) as u16, ..s }),
                StepEffect::Executed,
            ),
        ),
        Op::FontChar(x) => Ok(
            (
                advance(CpuState { index: glyph_address(s.regs[x as int] as int % 16) as u16, ..s }),
                StepEffect::Executed,
            ),
        ),
        Op::StoreBcd(x) => if s.index + 3 > MEMORY_SIZE {
            Err(Chip8Error::AddressOutOfRange(s.index as usize))
        } else {
            let d = bcd_digits(s.regs[x as int]);
            Ok(
                (
                    advance(
                        CpuState {
                            mem: s.mem.update(s.index as int, d[0]).update(s.index + 1, d[1]).update(
                                s.index + 2,
                                d[2],
                            ),
                            ..s
                        },
                    ),
                    StepEffect::Executed,
                ),
            )
        },
        Op::StoreRegs(x) => if s.index + x + 1 > MEMORY_SIZE {
            Err(Chip8Error::AddressOutOfRange(s.index as usize))
        } else {
            Ok(
                (
                    advance(CpuState { mem: stored_regs(s.mem, s.regs, s.index as int, x as int), ..s }),
                    StepEffect::Executed,
                ),
            )
        },
        Op::LoadRegs(x) => if s.index + x + 1 > MEMORY_SIZE {
            Err(Chip8Error::AddressOutOfRange(s.index as usize))
        } else {
            Ok(
                (
                    advance(CpuState { regs: loaded_regs(s.mem, s.regs, s.index as int, x as int), ..s }),
                    StepEffect::Executed,
                ),
            )
        },
    }
}


/// The state after the timer driver's tick: each timer counts down by one
/// and stops at zero.
pub open spec fn ticked(s: CpuState) -> CpuState {
    CpuState {
        delay: (if s.delay > 0 { s.delay - 1 } else { 0 }) as u8,
        sound: (if s.sound > 0 { s.sound - 1 } else { 0 }) as u8,
        ..s
    }
}

/// The state after key `key` goes down (`pressed`) or up. A press ends a
/// pending key wait, storing the key in the waiting register.
pub open spec fn key_event(s: CpuState, key: u8, pressed: bool) -> CpuState {
    let t = CpuState { keys: s.keys.update(key as int, pressed), ..s };
    match s.waiting {
        Some(x) if pressed => CpuState { regs: t.regs.update(x as int, key), waiting: None, ..t },
        _ => t,
    }
}

/// One step of the processor from state `s`: nothing while it waits for a
/// key, otherwise fetch the instruction at the program counter, decode it
/// and run it.
pub open spec fn step(s: CpuState) -> Result<(CpuState, StepEffect), Chip8Error> {
    if s.waiting is Some {
        Ok((s, StepEffect::Waiting))
    } else if s.pc + 1 >= MEMORY_SIZE {
        Err(Chip8Error::AddressOutOfRange(s.pc as usize))
    } else {
        match decode_op(fetch(s.mem, s.pc as int)) {
            Some(op) => execute(s, op),
            None => Err(Chip8Error::UnknownOpcode(fetch(s.mem, s.pc as int))),
        }
    }
}

/// The processor: memory and screen, return stack, registers, timers,
/// keypad and the state of a pending key wait.
pub struct Cpu {
    mem: Memory,
    stack: Stack,
    index_register: u16,
    program_counter: u16,
    cpu_register: Vec<u8>,
    delay_timer: u8,
    sound_timer: u8,
    keys: Vec<bool>,
    waiting_key: Option<u8>,
    seed: u32,
}

impl View for Cpu {
    type V = CpuState;

    closed spec fn view(&self) -> CpuState {
        CpuState {
            mem: self.mem@,
            screen: self.mem.screen(),
            regs: self.cpu_register@,
            index: self.index_register,
            pc: self.program_counter,
            stack: self.stack@,
            delay: self.delay_timer,
            sound: self.sound_timer,
            keys: self.keys@,
            waiting: self.waiting_key,
            seed: self.seed,
        }
    }
}

impl Cpu {
    /// The parts agree with their own invariants.
    pub closed spec fn inv(&self) -> bool {
        &&& self.mem.wf()
        &&& self.stack.wf()
        &&& valid_state(self@)
    }

    pub open spec fn wf(&self) -> bool {
        &&& self.inv()
        &&& valid_state(self@)
    }

    /// A processor with the font in memory, zeroed registers, an empty
    /// stack and the program counter at `PROGRAM_START`.
    pub fn new() -> (r: Cpu)
        ensures
            r.wf(),
            r@ == initial_state(),
    {
        let r = Cpu {
            mem: Memory::new(),
            stack: Stack::new(),
            index_register: 0,
            program_counter: PROGRAM_START as u16,
            cpu_register: vec![0u8; REGISTER_COUNT],
            delay_timer: 0,
            sound_timer: 0,
            keys: vec![false; KEY_COUNT],
            waiting_key: None,
            seed: INITIAL_SEED,
        };
        assert(r.cpu_register@ =~= Seq::new(REGISTER_COUNT as nat, |i: int| 0u8));
        assert(r.keys@ =~= Seq::new(KEY_COUNT as nat, |i: int| false));
        r
    }

    /// Copies a program image to `PROGRAM_START`; an image larger than the
    /// work space is refused before anything is written.
    pub fn load_game(&mut self, game_rom: Vec<u8>) -> (r: Result<(), Chip8Error>)
        requires
            old(self).wf(),
        ensures
            final(self).wf(),
            game_rom@.len() > max_program_len() ==> r == Err::<(), Chip8Error>(
                Chip8Error::RomTooLarge(game_rom@.len() as usize),
            ) && final(self)@ == old(self)@,
            game_rom@.len() <= max_program_len() ==> r == Ok::<(), Chip8Error>(()) && final(self)@
                == (CpuState { mem: with_program(old(self)@.mem, game_rom@), ..old(self)@ }),
    {
        let r = self.mem.load_game(game_rom);
        proof {
            if r.is_ok() {
                assert(self.mem@.len() == MEMORY_SIZE);
            }
        }
        r
    }

    /// Runs one step: nothing while a key wait is pending, otherwise the
    /// instruction at the program counter. A step that meets a fatal
    /// condition changes nothing.
    pub fn emulate_cycle(&mut self) -> (r: Result<StepEffect, Chip8Error>)
        requires
            old(self).wf(),
        ensures
            final(self).wf(),
            match step(old(self)@) {
                Ok((s, e)) => r == Ok::<StepEffect, Chip8Error>(e) && final(self)@ == s,
                Err(e) => r == Err::<StepEffect, Chip8Error>(e) && final(self)@ == old(self)@,
            },
    {
        if self.waiting_key.is_some() {
            return Ok(StepEffect::Waiting);
        }
        let opcode = match self.read_opcode() {
            Ok(opcode) => opcode,
            Err(e) => return Err(e),
        };
        let instruction = Instruction::decode(opcode);
        match instruction.to_op() {
            Some(op) => self.execute_opcode(op),
            None => Err(Chip8Error::UnknownOpcode(opcode)),
        }
    }

    /// The instruction at the program counter: the byte there is the high
    /// half, the byte after it the low half.
    pub fn read_opcode(&self) -> (r: Result<u16, Chip8Error>)
        requires
            self.wf(),
        ensures
            self@.pc + 1 < MEMORY_SIZE ==> r == Ok::<u16, Chip8Error>(
                fetch(self@.mem, self@.pc as int),
            ),
            self@.pc + 1 >= MEMORY_SIZE ==> r == Err::<u16, Chip8Error>(
                Chip8Error::AddressOutOfRange(self@.pc as usize),
            ),
    {
        if self.program_counter as usize + 1 >= MEMORY_SIZE {
            return Err(Chip8Error::AddressOutOfRange(self.program_counter as usize));
        }
        let high = self.mem.get(self.program_counter);
        let low = self.mem.get(self.program_counter + 1);
        let opcode = (high as u16) << 8 | (low as u16);
        assert(((high as u16) << 8 | (low as u16)) == high * 256 + low) by (bit_vector);
        Ok(opcode)
    }

    /// The address of the instruction after the current one.
    fn next_opcode(&self) -> (r: u16)
        requires
            self.program_counter + 2 <= u16::MAX,
        ensures
            r == self.program_counter + 2,
    {
        self.program_counter + 2
    }

    /// The address of the instruction after the next one.
    fn skip_next_opcode(&self) -> (r: u16)
        requires
            self.program_counter + 4 <= u16::MAX,
        ensures
            r == self.program_counter + 4,
    {
        self.program_counter + 4
    }

    /// Moves past the current instruction, or past the next one too when
    /// `cond` holds.
    fn skip_when(&mut self, cond: bool)
        requires
            old(self).program_counter + 4 <= u16::MAX,
        ensures
            final(self).program_counter == (if cond {
                old(self).program_counter + 4
            } else {
                old(self).program_counter + 2
            }),
            *final(self) == (Cpu { program_counter: final(self).program_counter, ..*old(self) }),
    {
        self.program_counter = if cond {
            self.skip_next_opcode()
        } else {
            self.next_opcode()
        };
    }

    /// The result and flag of an arithmetic or logic operation.
    fn alu_result(op: Op, a: u8, b: u8) -> (r: (u8, Option<u8>))
        ensures
            r == alu(op, a, b),
    {
        match op {
            Op::Assign(..) => (b, None),
            Op::Or(..) => (a | b, None),
            Op::And(..) => (a & b, None),
            Op::Xor(..) => (a ^ b, None),
            Op::AddReg(..) => (a.wrapping_add(b), Some(if a as u16 + b as u16 > 255 { 1 } else { 0 })),
            Op::SubReg(..) => (a.wrapping_sub(b), Some(if a >= b { 1 } else { 0 })),
            Op::ShiftRight(..) => (a / 2, Some(a % 2)),
            Op::SubFrom(..) => (b.wrapping_sub(a), Some(if b >= a { 1 } else { 0 })),
            Op::ShiftLeft(..) => (((a as u16 * 2) % 256) as u8, Some(a / 128)),
            _ => (a, None),
        }
    }

    /// Runs one arithmetic or logic operation `8xy_`.
    fn execute_alu(&mut self, op: Op, x: u8, y: u8) -> (r: Result<StepEffect, Chip8Error>)
        requires
            old(self).wf(),
            old(self)@.pc + 1 < MEMORY_SIZE,
            operands_in_range(op),
            x < 16 && y < 16,
            alu_operands(op) == Some((x, y)),
        ensures
            final(self).wf(),
            r == Ok::<StepEffect, Chip8Error>(StepEffect::Executed),
            execute(old(self)@, op) == Ok::<(CpuState, StepEffect), Chip8Error>((final(self)@, StepEffect::Executed)),
    {
        let a = self.cpu_register[x as usize];
        let b = self.cpu_register[y as usize];
        let (v, flag) = Cpu::alu_result(op, a, b);
        self.cpu_register.set(x as usize, v);
        match flag {
            Some(f) => self.cpu_register.set(FLAG, f),
            None => {},
        }
        self.program_counter = self.next_opcode();
        Ok(StepEffect::Executed)
    }

    /// Draws the sprite at the index register, setting the flag register to
    /// the collision flag.
    fn execute_draw(&mut self, x: u8, y: u8, n: u8) -> (r: Result<StepEffect, Chip8Error>)
        requires
            old(self).wf(),
            old(self)@.pc + 1 < MEMORY_SIZE,
            x < 16 && y < 16 && n < 16,
        ensures
            final(self).wf(),
            match execute(old(self)@, Op::Draw(x, y, n)) {
                Ok((s, e)) => r == Ok::<StepEffect, Chip8Error>(e) && final(self)@ == s,
                Err(e) => r == Err::<StepEffect, Chip8Error>(e) && final(self)@ == old(self)@,
            },
    {
        if self.index_register as usize + n as usize > MEMORY_SIZE {
            return Err(Chip8Error::AddressOutOfRange(self.index_register as usize));
        }
        let x0 = self.cpu_register[x as usize] % 64;
        let y0 = self.cpu_register[y as usize] % 32;
        let hit = self.mem.draw_sprite(x0, y0, self.index_register, n);
        self.cpu_register.set(FLAG, if hit { 1 } else { 0 });
        self.program_counter = self.next_opcode();
        Ok(StepEffect::Drawn)
    }

    /// Stores the decimal digits of register `x` at the index register.
    fn execute_store_bcd(&mut self, x: u8) -> (r: Result<StepEffect, Chip8Error>)
        requires
            old(self).wf(),
            old(self)@.pc + 1 < MEMORY_SIZE,
            x < 16,
        ensures
            final(self).wf(),
            match execute(old(self)@, Op::StoreBcd(x)) {
                Ok((s, e)) => r == Ok::<StepEffect, Chip8Error>(e) && final(self)@ == s,
                Err(e) => r == Err::<StepEffect, Chip8Error>(e) && final(self)@ == old(self)@,
            },
    {
        let i = self.index_register;
        if i as usize + 3 > MEMORY_SIZE {
            return Err(Chip8Error::AddressOutOfRange(i as usize));
        }
        let bcd = Chip8::get_bcd(self.cpu_register[x as usize]);
        self.mem.put(i, bcd[0]);
        self.mem.put(i + 1, bcd[1]);
        self.mem.put(i + 2, bcd[2]);
        self.program_counter = self.next_opcode();
        Ok(StepEffect::Executed)
    }

    /// Stores registers 0 to `x` from the index register on.
    fn execute_store_regs(&mut self, x: u8) -> (r: Result<StepEffect, Chip8Error>)
        requires
            old(self).wf(),
            old(self)@.pc + 1 < MEMORY_SIZE,
            x < 16,
        ensures
            final(self).wf(),
            match execute(old(self)@, Op::StoreRegs(x)) {
                Ok((s, e)) => r == Ok::<StepEffect, Chip8Error>(e) && final(self)@ == s,
                Err(e) => r == Err::<StepEffect, Chip8Error>(e) && final(self)@ == old(self)@,
            },
    {
        let mem_pos = self.index_register;
        if mem_pos as usize + x as usize + 1 > MEMORY_SIZE {
            return Err(Chip8Error::AddressOutOfRange(mem_pos as usize));
        }
        let ghost before = self.mem@;
        let mut i: u16 = 0;
        while i <= x as u16
            invariant
                self.inv(),
                self.mem.wf(),
                i <= x + 1,
                x < 16,
                mem_pos + x + 1 <= MEMORY_SIZE,
                mem_pos == self.index_register,
                self.mem.screen() == old(self).mem.screen(),
                before == old(self).mem@,
                self.cpu_register@ == old(self).cpu_register@,
                self.index_register == old(self).index_register,
                self.program_counter == old(self).program_counter,
                self.stack == old(self).stack,
                self.delay_timer == old(self).delay_timer,
                self.sound_timer == old(self).sound_timer,
                self.keys == old(self).keys,
                self.waiting_key == old(self).waiting_key,
                self.seed == old(self).seed,
                forall|j: int|
                    0 <= j < MEMORY_SIZE ==> #[trigger] self.mem@[j] == (if mem_pos <= j < mem_pos + i {
                        self.cpu_register@[j - mem_pos]
                    } else {
                        before[j]
                    }),
            decreases x + 1 - i,
        {
            let v = self.cpu_register[i as usize];
            self.mem.put(mem_pos + i, v);
            i = i + 1;
        }
        assert(self.mem@ =~= stored_regs(before, self.cpu_register@, mem_pos as int, x as int));
        self.program_counter = self.next_opcode();
        Ok(StepEffect::Executed)
    }

    /// Loads registers 0 to `x` from the index register on.
    fn execute_load_regs(&mut self, x: u8) -> (r: Result<StepEffect, Chip8Error>)
        requires
            old(self).wf(),
            old(self)@.pc + 1 < MEMORY_SIZE,
            x < 16,
        ensures
            final(self).wf(),
            match execute(old(self)@, Op::LoadRegs(x)) {
                Ok((s, e)) => r == Ok::<StepEffect, Chip8Error>(e) && final(self)@ == s,
                Err(e) => r == Err::<StepEffect, Chip8Error>(e) && final(self)@ == old(self)@,
            },
    {
        let mem_pos = self.index_register;
        if mem_pos as usize + x as usize + 1 > MEMORY_SIZE {
            return Err(Chip8Error::AddressOutOfRange(mem_pos as usize));
        }
        let ghost before = self.cpu_register@;
        let mut i: u16 = 0;
        while i <= x as u16
            invariant
                self.inv(),
                self.mem.wf(),
                i <= x + 1,
                x < 16,
                mem_pos + x + 1 <= MEMORY_SIZE,
                mem_pos == self.index_register,
                self.mem == old(self).mem,
                before == old(self).cpu_register@,
                self.index_register == old(self).index_register,
                self.program_counter == old(self).program_counter,
                self.stack == old(self).stack,
                self.delay_timer == old(self).delay_timer,
                self.sound_timer == old(self).sound_timer,
                self.keys == old(self).keys,
                self.waiting_key == old(self).waiting_key,
                self.seed == old(self).seed,
                self.cpu_register@.len() == REGISTER_COUNT,
                forall|j: int|
                    0 <= j < REGISTER_COUNT ==> #[trigger] self.cpu_register@[j] == (if j < i {
                        self.mem@[mem_pos + j]
                    } else {
                        before[j]
                    }),
            decreases x + 1 - i,
        {
            let v = self.mem.get(mem_pos + i);
            self.cpu_register.set(i as usize, v);
            i = i + 1;
        }
        assert(self.cpu_register@ =~= loaded_regs(self.mem@, before, mem_pos as int, x as int));
        self.program_counter = self.next_opcode();
        Ok(StepEffect::Executed)
    }

    /// Runs one decoded operation.
    #[verifier::rlimit(60)]
    fn execute_opcode(&mut self, op: Op) -> (r: Result<StepEffect, Chip8Error>)
        requires
            old(self).wf(),
            old(self)@.waiting is None,
            old(self)@.pc + 1 < MEMORY_SIZE,
            operands_in_range(op),
        ensures
            final(self).wf(),
            match execute(old(self)@, op) {
                Ok((s, e)) => r == Ok::<StepEffect, Chip8Error>(e) && final(self)@ == s,
                Err(e) => r == Err::<StepEffect, Chip8Error>(e) && final(self)@ == old(self)@,
            },
    {
        match op {
            Op::ClearScreen => {
                self.mem.clear_display();
                self.program_counter = self.next_opcode();
                Ok(StepEffect::Cleared)
            },
            Op::Return => match self.stack.pop() {
                Ok(address) => {
                    self.program_counter = address;
                    Ok(StepEffect::Executed)
                },
                Err(e) => Err(e),
            },
            Op::Jump(nnn) => {
                self.program_counter = nnn;
                Ok(StepEffect::Executed)
            },
            Op::Call(nnn) => {
                let ret = self.next_opcode();
                match self.stack.push(ret) {
                    Ok(()) => {
                        self.program_counter = nnn;
                        Ok(StepEffect::Executed)
                    },
                    Err(e) => Err(e),
                }
            },
            Op::SkipEqImm(x, nn) => {
                let c = self.cpu_register[x as usize] == nn;
                self.skip_when(c);
                Ok(StepEffect::Executed)
            },
            Op::SkipNeImm(x, nn) => {
                let c = self.cpu_register[x as usize] != nn;
                self.skip_when(c);
                Ok(StepEffect::Executed)
            },
            Op::SkipEqReg(x, y) => {
                let c = self.cpu_register[x as usize] == self.cpu_register[y as usize];
                self.skip_when(c);
                Ok(StepEffect::Executed)
            },
            Op::SkipNeReg(x, y) => {
                let c = self.cpu_register[x as usize] != self.cpu_register[y as usize];
                self.skip_when(c);
                Ok(StepEffect::Executed)
            },
            Op::SetImm(x, nn) => {
                self.cpu_register.set(x as usize, nn);
                self.program_counter = self.next_opcode();
                Ok(StepEffect::Executed)
            },
            Op::AddImm(x, nn) => {
                let v = self.cpu_register[x as usize].wrapping_add(nn);
                self.cpu_register.set(x as usize, v);
                self.program_counter = self.next_opcode();
                Ok(StepEffect::Executed)
            },
            Op::Assign(x, y) | Op::Or(x, y) | Op::And(x, y) | Op::Xor(x, y) | Op::AddReg(x, y)
            | Op::SubReg(x, y) | Op::SubFrom(x, y) => self.execute_alu(op, x, y),
            Op::ShiftRight(x) | Op::ShiftLeft(x) => self.execute_alu(op, x, 0),
            Op::SetIndex(nnn) => {
                self.index_register = nnn;
                self.program_counter = self.next_opcode();
                Ok(StepEffect::Executed)
            },
            Op::JumpOffset(nnn) => {
                self.program_counter = self.cpu_register[0] as u16 + nnn;
                Ok(StepEffect::Executed)
            },
            Op::Random(x, nn) => {
                let byte = Cpu::random_from(self.seed);
                self.seed = self.seed.wrapping_mul(1103515245).wrapping_add(12345);
                self.cpu_register.set(x as usize, byte & nn);
                self.program_counter = self.next_opcode();
                Ok(StepEffect::Executed)
            },
            Op::Draw(x, y, n) => self.execute_draw(x, y, n),
            Op::SkipKeyDown(x) => {
                let k = self.cpu_register[x as usize];
                let down = (k as usize) < KEY_COUNT && self.keys[k as usize];
                self.skip_when(down);
                Ok(StepEffect::Executed)
            },
            Op::SkipKeyUp(x) => {
                let k = self.cpu_register[x as usize];
                let down = (k as usize) < KEY_COUNT && self.keys[k as usize];
                self.skip_when(!down);
                Ok(StepEffect::Executed)
            },
            Op::ReadDelay(x) => {
                self.cpu_register.set(x as usize, self.delay_timer);
                self.program_counter = self.next_opcode();
                Ok(StepEffect::Executed)
            },
            Op::WaitKey(x) => {
                self.waiting_key = Some(x);
                self.program_counter = self.next_opcode();
                Ok(StepEffect::Waiting)
            },
            Op::SetDelay(x) => {
                self.delay_timer = self.cpu_register[x as usize];
                self.program_counter = self.next_opcode();
                Ok(StepEffect::Executed)
            },
            Op::SetSound(x) => {
                self.sound_timer = self.cpu_register[x as usize];
                self.program_counter = self.next_opcode();
                Ok(StepEffect::Executed)
            },
            Op::AddIndex(x) => {
                self.index_register = self.index_register.wrapping_add(self.cpu_register[x as usize] as u16);
                self.program_counter = self.next_opcode();
                Ok(StepEffect::Executed)
            },
            Op::FontChar(x) => {
                self.index_register = Memory::get_char_position(self.cpu_register[x as usize] % 16);
                self.program_counter = self.next_opcode();
                Ok(StepEffect::Executed)
            },
            Op::StoreBcd(x) => self.execute_store_bcd(x),
            Op::StoreRegs(x) => self.execute_store_regs(x),
            Op::LoadRegs(x) => self.execute_load_regs(x),
        }
    }

    /// The random byte drawn from `seed`.
    fn random_from(seed: u32) -> (r: u8)
        ensures
            r == random_byte(seed),
    {
        let next = seed.wrapping_mul(1103515245).wrapping_add(12345);
        ((next / 0x1_0000) % 256) as u8
    }

    /// The timer driver's tick: both timers count down by one, stopping at
    /// zero.
    pub fn tick_timers(&mut self)
        requires
            old(self).wf(),
        ensures
            final(self).wf(),
            final(self)@ == ticked(old(self)@),
    {
        if self.delay_timer > 0 {
            self.delay_timer = self.delay_timer - 1;
        }
        if self.sound_timer > 0 {
            self.sound_timer = self.sound_timer - 1;
        }
    }

    /// Records that key `key` went down (`pressed`) or up. A press while an
    /// `Fx0A` waits stores the key in its register and ends the wait.
    pub fn set_key(&mut self, key: u8, pressed: bool)
        requires
            old(self).wf(),
            key < KEY_COUNT,
        ensures
            final(self).wf(),
            final(self)@ == key_event(old(self)@, key, pressed),
    {
        self.keys.set(key as usize, pressed);
        if pressed {
            match self.waiting_key {
                Some(x) => {
                    self.cpu_register.set(x as usize, key);
                    self.waiting_key = None;
                },
                None => {},
            }
        }
    }

    /// Replaces the seed of the random byte generator.
    pub fn seed_random(&mut self, seed: u32)
        requires
            old(self).wf(),
        ensures
            final(self).wf(),
            final(self)@ == (CpuState { seed, ..old(self)@ }),
    {
        self.seed = seed;
    }

    /// The program counter.
    pub fn program_counter(&self) -> (r: u16)
        ensures
            r == self@.pc,
    {
        self.program_counter
    }

    /// The index register.
    pub fn index_register(&self) -> (r: u16)
        ensures
            r == self@.index,
    {
        self.index_register
    }

    /// General register `x`.
    pub fn register(&self, x: u8) -> (r: u8)
        requires
            self.wf(),
            x < REGISTER_COUNT,
        ensures
            r == self@.regs[x as int],
    {
        self.cpu_register[x as usize]
    }

    /// The delay timer.
    pub fn delay_timer(&self) -> (r: u8)
        ensures
            r == self@.delay,
    {
        self.delay_timer
    }

    /// The sound timer.
    pub fn sound_timer(&self) -> (r: u8)
        ensures
            r == self@.sound,
    {
        self.sound_timer
    }

    /// The byte of memory at `address`, or the out-of-range condition.
    pub fn read_memory(&self, address: u16) -> (r: Result<u8, Chip8Error>)
        requires
            self.wf(),
        ensures
            address < MEMORY_SIZE ==> r == Ok::<u8, Chip8Error>(self@.mem[address as int]),
            address >= MEMORY_SIZE ==> r == Err::<u8, Chip8Error>(
                Chip8Error::AddressOutOfRange(address as usize),
            ),
    {
        if address as usize >= MEMORY_SIZE {
            Err(Chip8Error::AddressOutOfRange(address as usize))
        } else {
            Ok(self.mem.get(address))
        }
    }

    /// A snapshot of the screen, one byte per pixel row after row: 1 where
    /// lit, 0 where not.
    pub fn display_memory(&self) -> (r: Vec<u8>)
        requires
            self.wf(),
        ensures
            r@.len() == 2048,
            forall|p: int|
                0 <= p < 2048 ==> #[trigger] r@[p] == (if self@.screen[p] {
                    1u8
                } else {
                    0u8
                }),
    {
        self.mem.get_display_memory()
    }

    /// Whether an `Fx0A` waits for a key press.
    pub fn is_waiting_for_key(&self) -> (r: bool)
        ensures
            r == self@.waiting is Some,
    {
        self.waiting_key.is_some()
    }

}

} // verus!
