use vstd::prelude::*;
use crate::cpu::{execute, fetch, step, valid_state, CpuState, StepEffect, FLAG};
use crate::error::Chip8Error;
use crate::instruction::{decode_op, fields, Op};
use crate::memory::{font_table, glyph_address, initial_memory, with_program, FONT_START, MEMORY_SIZE, PROGRAM_START};

verus! {

/// Whether `op` may write general register `r` when it runs.
pub open spec fn writes_register(op: Op, r: int) -> bool {
    match op {
        Op::SetImm(x, _) | Op::AddImm(x, _) | Op::Random(x, _) | Op::ReadDelay(x)
        | Op::WaitKey(x) | Op::Assign(x, _) | Op::Or(x, _) | Op::And(x, _) | Op::Xor(x, _) => x == r,
        Op::AddReg(x, _) | Op::SubReg(x, _) | Op::SubFrom(x, _) | Op::ShiftRight(x)
        | Op::ShiftLeft(x) => x == r || r == FLAG,
        Op::Draw(..) => r == FLAG,
        Op::LoadRegs(x) => r <= x,
        _ => false,
    }
}

/// A step that runs an instruction not writing register `r` leaves `r` as
/// it was; so does a step that only waits.
pub proof fn lemma_untouched_register_kept(s: CpuState, r: int)
    requires
        valid_state(s),
        0 <= r < FLAG,
        s.waiting is None && s.pc + 1 < MEMORY_SIZE ==> match decode_op(fetch(s.mem, s.pc as int)) {
            Some(op) => !writes_register(op, r),
            None => true,
        },
    ensures
        match step(s) {
            Ok((t, _)) => t.regs[r] == s.regs[r],
            Err(_) => true,
        },
{
    if s.waiting is None && s.pc + 1 < MEMORY_SIZE {
        let opcode = fetch(s.mem, s.pc as int);
        let f = fields(opcode);
        assert(f.x < 16 && f.y < 16 && f.n < 16);
    }
}

/// A step that succeeds keeps the sizes and ranges of a valid state.
pub proof fn lemma_step_keeps_valid(s: CpuState)
    requires
        valid_state(s),
    ensures
        step(s) matches Ok((t, _)) ==> valid_state(t),
{
    if s.waiting is None && s.pc + 1 < MEMORY_SIZE {
        let opcode = fetch(s.mem, s.pc as int);
        let f = fields(opcode);
        assert(f.x < 16 && f.y < 16 && f.n < 16);
    }
}

/// The state after `count` steps from `s`, or the first fatal condition.
pub open spec fn run(s: CpuState, count: nat) -> Result<CpuState, Chip8Error>
    decreases count,
{
    if count == 0 {
        Ok(s)
    } else {
        match step(s) {
            Ok((t, _)) => run(t, (count - 1) as nat),
            Err(e) => Err(e),
        }
    }
}

/// Whether none of the next `count` steps from `s` runs an instruction that
/// writes register `r`.
pub open spec fn leaves_register(s: CpuState, count: nat, r: int) -> bool
    decreases count,
{
    if count == 0 {
        true
    } else {
        &&& (s.waiting is None && s.pc + 1 < MEMORY_SIZE ==> match decode_op(fetch(s.mem, s.pc as int)) {
            Some(op) => !writes_register(op, r),
            None => true,
        })
        &&& match step(s) {
            Ok((t, _)) => leaves_register(t, (count - 1) as nat, r),
            Err(_) => true,
        }
    }
}

/// A run of instructions none of which writes register `r` (not the flag
/// register) ends with `r` as it began.
pub proof fn lemma_untouched_register_kept_by_run(s: CpuState, count: nat, r: int)
    requires
        valid_state(s),
        0 <= r < FLAG,
        leaves_register(s, count, r),
    ensures
        run(s, count) matches Ok(t) ==> t.regs[r] == s.regs[r],
    decreases count,
{
    if count > 0 {
        lemma_untouched_register_kept(s, r);
        lemma_step_keeps_valid(s);
        if let Ok((t, _)) = step(s) {
            lemma_untouched_register_kept_by_run(t, (count - 1) as nat, r);
        }
    }
}

/// `7xnn` leaves `(a + nn) mod 256` in register `x` and the flag register
/// as it was, `a` being the old value of register `x`.
pub proof fn lemma_add_immediate(s: CpuState, x: u8, nn: u8)
    requires
        valid_state(s),
        x < 16,
    ensures
        execute(s, Op::AddImm(x, nn)) matches Ok((t, _)) && t.regs[x as int] == (s.regs[x as int]
            + nn) % 256 && (x != FLAG ==> t.regs[FLAG as int] == s.regs[FLAG as int]),
{
}

/// `8xy4` with `x` not the flag register leaves `(a + b) mod 256` in
/// register `x` and sets the flag register to 1 exactly when `a + b > 255`.
pub proof fn lemma_add_registers(s: CpuState, x: u8, y: u8)
    requires
        valid_state(s),
        x < FLAG,
        y < 16,
    ensures
        execute(s, Op::AddReg(x, y)) matches Ok((t, _)) && t.regs[x as int] == (s.regs[x as int]
            + s.regs[y as int]) % 256 && t.regs[FLAG as int] == (if s.regs[x as int] + s.regs[y as int]
            > 255 {
            1u8
        } else {
            0u8
        }),
{
}

/// `8xy5` with `x` not the flag register leaves `(a - b) mod 256` in
/// register `x` and sets the flag register to 1 exactly when `a >= b`.
pub proof fn lemma_subtract_registers(s: CpuState, x: u8, y: u8)
    requires
        valid_state(s),
        x < FLAG,
        y < 16,
    ensures
        execute(s, Op::SubReg(x, y)) matches Ok((t, _)) && t.regs[x as int] == (s.regs[x as int]
            - s.regs[y as int]) % 256 && t.regs[FLAG as int] == (if s.regs[x as int] >= s.regs[y as int] {
            1u8
        } else {
            0u8
        }),
{
}

/// Any instruction `1nnn` moves the program counter to exactly its low
/// twelve bits and changes nothing else.
pub proof fn lemma_jump_sets_pc(s: CpuState)
    requires
        valid_state(s),
        s.waiting is None,
        s.pc + 1 < MEMORY_SIZE,
        fetch(s.mem, s.pc as int) / 4096 == 1,
    ensures
        step(s) == Ok::<(CpuState, StepEffect), Chip8Error>(
            (CpuState { pc: fetch(s.mem, s.pc as int) % 4096, ..s }, StepEffect::Executed),
        ),
{
}

/// `3xnn` moves the program counter by 4 when register `x` holds `nn`
/// and by 2 otherwise.
pub proof fn lemma_skip_if_equal(s: CpuState)
    requires
        valid_state(s),
        s.waiting is None,
        s.pc + 1 < MEMORY_SIZE,
        fetch(s.mem, s.pc as int) / 4096 == 3,
    ensures
        ({
            let f = fields(fetch(s.mem, s.pc as int));
            step(s) matches Ok((t, _)) && t.pc == (if s.regs[f.x as int] == f.nn {
                s.pc + 4
            } else {
                s.pc + 2
            })
        }),
{
    let f = fields(fetch(s.mem, s.pc as int));
    assert(f.x < 16);
}

/// Each glyph starts five bytes after the one before, from `FONT_START`,
/// and holds its five rows of the font.
pub proof fn lemma_font_placement(digit: int, row: int)
    requires
        0 <= digit < 16,
        0 <= row < 5,
    ensures
        glyph_address(digit) == FONT_START + 5 * digit,
        glyph_address(digit) + row < 0xA0,
        initial_memory()[glyph_address(digit) + row] == font_table()[5 * digit + row],
{
}

/// After a program is loaded, the first fetch at `PROGRAM_START` reads its
/// first two bytes, high byte first.
pub proof fn lemma_load_then_fetch(mem: Seq<u8>, rom: Seq<u8>)
    requires
        mem.len() == MEMORY_SIZE,
        2 <= rom.len() <= MEMORY_SIZE - PROGRAM_START,
    ensures
        with_program(mem, rom)[PROGRAM_START as int] == rom[0],
        with_program(mem, rom)[PROGRAM_START + 1] == rom[1],
        fetch(with_program(mem, rom), PROGRAM_START as int) == rom[0] * 256 + rom[1],
{
}

} // verus!
