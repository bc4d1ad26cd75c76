use vstd::prelude::*;

verus! {

/// The fields of a 16-bit instruction: its four nibbles `kind x y n`, the
/// low byte `nn` and the low twelve bits `nnn`.
#[derive(PartialEq, Eq, Structural, Clone, Copy, Debug)]
pub struct Instruction {
    pub opcode: u16,
    pub kind: u8,
    pub x: u8,
    pub y: u8,
    pub n: u8,
    pub nn: u8,
    pub nnn: u16,
}

/// The fields of `opcode`.
pub open spec fn fields(opcode: u16) -> Instruction {
    Instruction {
        opcode,
        kind: (opcode / 4096) as u8,
        x: ((opcode / 256) % 16) as u8,
        y: ((opcode / 16) % 16) as u8,
        n: (opcode % 16) as u8,
        nn: (opcode % 256) as u8,
        nnn: (opcode % 4096) as u16,
    }
}

/// The operations of the instruction set. Register operands are register
/// numbers 0 to 15; `V[x]` below is register `x`, `VF` register 15 and `I`
/// the index register.
#[derive(PartialEq, Eq, Structural, Clone, Copy, Debug)]
pub enum Op {
    /// `00E0`: turn every pixel off.
    ClearScreen,
    /// `00EE`: continue at the address popped from the stack.
    Return,
    /// `1nnn`: continue at `nnn`.
    Jump(u16),
    /// `2nnn`: push the return address (that of the next instruction),
    /// continue at `nnn`.
    Call(u16),
    /// `3xnn`: skip the next instruction if `V[x] == nn`.
    SkipEqImm(u8, u8),
    /// `4xnn`: skip the next instruction if `V[x] != nn`.
    SkipNeImm(u8, u8),
    /// `5xy0`: skip the next instruction if `V[x] == V[y]`.
    SkipEqReg(u8, u8),
    /// `6xnn`: `V[x] = nn`.
    SetImm(u8, u8),
    /// `7xnn`: `V[x] += nn`, wrapping, flag untouched.
    AddImm(u8, u8),
    /// `8xy0`: `V[x] = V[y]`.
    Assign(u8, u8),
    /// `8xy1`: `V[x] |= V[y]`.
    Or(u8, u8),
    /// `8xy2`: `V[x] &= V[y]`.
    And(u8, u8),
    /// `8xy3`: `V[x] ^= V[y]`.
    Xor(u8, u8),
    /// `8xy4`: `V[x] += V[y]`, wrapping; `VF` = carry.
    AddReg(u8, u8),
    /// `8xy5`: `V[x] -= V[y]`, wrapping; `VF` = no borrow.
    SubReg(u8, u8),
    /// `8xy6`: `VF` = low bit of `V[x]`; `V[x] >>= 1`.
    ShiftRight(u8),
    /// `8xy7`: `V[x] = V[y] - V[x]`, wrapping; `VF` = no borrow.
    SubFrom(u8, u8),
    /// `8xyE`: `VF` = high bit of `V[x]`; `V[x] <<= 1`, wrapping.
    ShiftLeft(u8),
    /// `9xy0`: skip the next instruction if `V[x] != V[y]`.
    SkipNeReg(u8, u8),
    /// `Annn`: `I = nnn`.
    SetIndex(u16),
    /// `Bnnn`: continue at `V[0] + nnn`.
    JumpOffset(u16),
    /// `Cxnn`: `V[x]` = a random byte masked with `nn`.
    Random(u8, u8),
    /// `Dxyn`: draw the `n`-row sprite at `I` at (`V[x]`, `V[y]`); `VF` =
    /// collision.
    Draw(u8, u8, u8),
    /// `Ex9E`: skip the next instruction if key `V[x]` is down.
    SkipKeyDown(u8),
    /// `ExA1`: skip the next instruction if key `V[x]` is up.
    SkipKeyUp(u8),
    /// `Fx07`: `V[x]` = delay timer.
    ReadDelay(u8),
    /// `Fx0A`: wait for a key press and store the key in `V[x]`.
    WaitKey(u8),
    /// `Fx15`: delay timer = `V[x]`.
    SetDelay(u8),
    /// `Fx18`: sound timer = `V[x]`.
    SetSound(u8),
    /// `Fx1E`: `I += V[x]`, wrapping at 16 bits.
    AddIndex(u8),
    /// `Fx29`: `I` = address of the glyph for the low nibble of `V[x]`.
    FontChar(u8),
    /// `Fx33`: store the decimal digits of `V[x]` at `I`, `I+1`, `I+2`.
    StoreBcd(u8),
    /// `Fx55`: store `V[0]` to `V[x]` at `I` onwards.
    StoreRegs(u8),
    /// `Fx65`: load `V[0]` to `V[x]` from `I` onwards.
    LoadRegs(u8),
}

/// The operation an instruction names, if any.
pub open spec fn decode_op(opcode: u16) -> Option<Op> {
    let f = fields(opcode);
    if opcode == 0x00E0 {
        Some(Op::ClearScreen)
    } else if opcode == 0x00EE {
        Some(Op::Return)
    } else if f.kind == 0x1 {
        Some(Op::Jump(f.nnn))
    } else if f.kind == 0x2 {
        Some(Op::Call(f.nnn))
    } else if f.kind == 0x3 {
        Some(Op::SkipEqImm(f.x, f.nn))
    } else if f.kind == 0x4 {
        Some(Op::SkipNeImm(f.x, f.nn))
    } else if f.kind == 0x5 && f.n == 0x0 {
        Some(Op::SkipEqReg(f.x, f.y))
    } else if f.kind == 0x6 {
        Some(Op::SetImm(f.x, f.nn))
    } else if f.kind == 0x7 {
        Some(Op::AddImm(f.x, f.nn))
    } else if f.kind == 0x8 && f.n == 0x0 {
        Some(Op::Assign(f.x, f.y))
    } else if f.kind == 0x8 && f.n == 0x1 {
        Some(Op::Or(f.x, f.y))
    } else if f.kind == 0x8 && f.n == 0x2 {
        Some(Op::And(f.x, f.y))
    } else if f.kind == 0x8 && f.n == 0x3 {
        Some(Op::Xor(f.x, f.y))
    } else if f.kind == 0x8 && f.n == 0x4 {
        Some(Op::AddReg(f.x, f.y))
    } else if f.kind == 0x8 && f.n == 0x5 {
        Some(Op::SubReg(f.x, f.y))
    } else if f.kind == 0x8 && f.n == 0x6 {
        Some(Op::ShiftRight(f.x))
    } else if f.kind == 0x8 && f.n == 0x7 {
        Some(Op::SubFrom(f.x, f.y))
    } else if f.kind == 0x8 && f.n == 0xE {
        Some(Op::ShiftLeft(f.x))
    } else if f.kind == 0x9 && f.n == 0x0 {
        Some(Op::SkipNeReg(f.x, f.y))
    } else if f.kind == 0xA {
        Some(Op::SetIndex(f.nnn))
    } else if f.kind == 0xB {
        Some(Op::JumpOffset(f.nnn))
    } else if f.kind == 0xC {
        Some(Op::Random(f.x, f.nn))
    } else if f.kind == 0xD {
        Some(Op::Draw(f.x, f.y, f.n))
    } else if f.kind == 0xE && f.nn == 0x9E {
        Some(Op::SkipKeyDown(f.x))
    } else if f.kind == 0xE && f.nn == 0xA1 {
        Some(Op::SkipKeyUp(f.x))
    } else if f.kind == 0xF && f.nn == 0x07 {
        Some(Op::ReadDelay(f.x))
    } else if f.kind == 0xF && f.nn == 0x0A {
        Some(Op::WaitKey(f.x))
    } else if f.kind == 0xF && f.nn == 0x15 {
        Some(Op::SetDelay(f.x))
    } else if f.kind == 0xF && f.nn == 0x18 {
        Some(Op::SetSound(f.x))
    } else if f.kind == 0xF && f.nn == 0x1E {
        Some(Op::AddIndex(f.x))
    } else if f.kind == 0xF && f.nn == 0x29 {
        Some(Op::FontChar(f.x))
    } else if f.kind == 0xF && f.nn == 0x33 {
        Some(Op::StoreBcd(f.x))
    } else if f.kind == 0xF && f.nn == 0x55 {
        Some(Op::StoreRegs(f.x))
    } else if f.kind == 0xF && f.nn == 0x65 {
        Some(Op::LoadRegs(f.x))
    } else {
        None
    }
}

/// Whether every register operand of `op` names one of the 16 registers
/// and every nibble operand is below 16, every address below 4096.
pub open spec fn operands_in_range(op: Op) -> bool {
    match op {
        Op::SkipEqImm(x, _) | Op::SkipNeImm(x, _) | Op::SetImm(x, _) | Op::AddImm(x, _)
        | Op::Random(x, _) => x < 16,
        Op::SkipEqReg(x, y) | Op::Assign(x, y) | Op::Or(x, y) | Op::And(x, y) | Op::Xor(x, y)
        | Op::AddReg(x, y) | Op::SubReg(x, y) | Op::SubFrom(x, y) | Op::SkipNeReg(x, y) => x < 16
            && y < 16,
        Op::Draw(x, y, n) => x < 16 && y < 16 && n < 16,
        Op::ShiftRight(x) | Op::ShiftLeft(x) | Op::SkipKeyDown(x) | Op::SkipKeyUp(x)
        | Op::ReadDelay(x) | Op::WaitKey(x) | Op::SetDelay(x) | Op::SetSound(x)
        | Op::AddIndex(x) | Op::FontChar(x) | Op::StoreBcd(x) | Op::StoreRegs(x)
        | Op::LoadRegs(x) => x < 16,
        Op::Jump(nnn) | Op::Call(nnn) | Op::SetIndex(nnn) | Op::JumpOffset(nnn) => nnn < 4096,
        _ => true,
    }
}

impl Instruction {
    /// Splits `opcode` into its fields. Decoding reads nothing but its
    /// argument, so the same instruction always gives the same fields.
    pub fn decode(opcode: u16) -> (r: Instruction)
        ensures
            r == fields(opcode),
            r.kind < 16 && r.x < 16 && r.y < 16 && r.n < 16,
            r.nnn < 4096,
            r.kind * 4096 + r.x * 256 + r.y * 16 + r.n == opcode,
            r.nnn == r.x * 256 + r.nn,
            r.nn == r.y * 16 + r.n,
    {
        proof {
            assert(opcode / 4096 < 16 && opcode % 4096 < 4096) by (bit_vector);
            assert((opcode / 4096) * 4096 + ((opcode / 256) % 16) * 256 + ((opcode / 16) % 16) * 16
                + opcode % 16 == opcode) by (bit_vector);
            assert(opcode % 4096 == ((opcode / 256) % 16) * 256 + opcode % 256) by (bit_vector);
            assert(opcode % 256 == ((opcode / 16) % 16) * 16 + opcode % 16) by (bit_vector);
        }
        Instruction {
            opcode,
            kind: (opcode / 4096) as u8,
            x: ((opcode / 256) % 16) as u8,
            y: ((opcode / 16) % 16) as u8,
            n: (opcode % 16) as u8,
            nn: (opcode % 256) as u8,
            nnn: opcode % 4096,
        }
    }

    /// The operation this instruction names, if any.
    pub fn to_op(&self) -> (r: Option<Op>)
        requires
            *self == fields(self.opcode),
        ensures
            r == decode_op(self.opcode),
            r matches Some(op) ==> operands_in_range(op),
    {
        let f = *self;
        let opcode = f.opcode;
        if opcode == 0x00E0 {
            Some(Op::ClearScreen)
        } else if opcode == 0x00EE {
            Some(Op::Return)
        } else if f.kind == 0x1 {
            Some(Op::Jump(f.nnn))
        } else if f.kind == 0x2 {
            Some(Op::Call(f.nnn))
        } else if f.kind == 0x3 {
            Some(Op::SkipEqImm(f.x, f.nn))
        } else if f.kind == 0x4 {
            Some(Op::SkipNeImm(f.x, f.nn))
        } else if f.kind == 0x5 && f.n == 0x0 {
            Some(Op::SkipEqReg(f.x, f.y))
        } else if f.kind == 0x6 {
            Some(Op::SetImm(f.x, f.nn))
        } else if f.kind == 0x7 {
            Some(Op::AddImm(f.x, f.nn))
        } else if f.kind == 0x8 && f.n == 0x0 {
            Some(Op::Assign(f.x, f.y))
        } else if f.kind == 0x8 && f.n == 0x1 {
            Some(Op::Or(f.x, f.y))
        } else if f.kind == 0x8 && f.n == 0x2 {
            Some(Op::And(f.x, f.y))
        } else if f.kind == 0x8 && f.n == 0x3 {
            Some(Op::Xor(f.x, f.y))
        } else if f.kind == 0x8 && f.n == 0x4 {
            Some(Op::AddReg(f.x, f.y))
        } else if f.kind == 0x8 && f.n == 0x5 {
            Some(Op::SubReg(f.x, f.y))
        } else if f.kind == 0x8 && f.n == 0x6 {
            Some(Op::ShiftRight(f.x))
        } else if f.kind == 0x8 && f.n == 0x7 {
            Some(Op::SubFrom(f.x, f.y))
        } else if f.kind == 0x8 && f.n == 0xE {
            Some(Op::ShiftLeft(f.x))
        } else if f.kind == 0x9 && f.n == 0x0 {
            Some(Op::SkipNeReg(f.x, f.y))
        } else if f.kind == 0xA {
            Some(Op::SetIndex(f.nnn))
        } else if f.kind == 0xB {
            Some(Op::JumpOffset(f.nnn))
        } else if f.kind == 0xC {
            Some(Op::Random(f.x, f.nn))
        } else if f.kind == 0xD {
            Some(Op::Draw(f.x, f.y, f.n))
        } else if f.kind == 0xE && f.nn == 0x9E {
            Some(Op::SkipKeyDown(f.x))
        } else if f.kind == 0xE && f.nn == 0xA1 {
            Some(Op::SkipKeyUp(f.x))
        } else if f.kind == 0xF && f.nn == 0x07 {
            Some(Op::ReadDelay(f.x))
        } else if f.kind == 0xF && f.nn == 0x0A {
            Some(Op::WaitKey(f.x))
        } else if f.kind == 0xF && f.nn == 0x15 {
            Some(Op::SetDelay(f.x))
        } else if f.kind == 0xF && f.nn == 0x18 {
            Some(Op::SetSound(f.x))
        } else if f.kind == 0xF && f.nn == 0x1E {
            Some(Op::AddIndex(f.x))
        } else if f.kind == 0xF && f.nn == 0x29 {
            Some(Op::FontChar(f.x))
        } else if f.kind == 0xF && f.nn == 0x33 {
            Some(Op::StoreBcd(f.x))
        } else if f.kind == 0xF && f.nn == 0x55 {
            Some(Op::StoreRegs(f.x))
        } else if f.kind == 0xF && f.nn == 0x65 {
            Some(Op::LoadRegs(f.x))
        } else {
            None
        }
    }
}

} // verus!
