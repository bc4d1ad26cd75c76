use vstd::prelude::*;

verus! {

/// The fatal conditions of the interpreter. None of them is recoverable in
/// the middle of an instruction: the step that meets one changes nothing.
#[derive(PartialEq, Eq, Structural, Clone, Copy, Debug)]
pub enum Chip8Error {
    /// A read or write at an address outside the 4096 bytes of memory.
    AddressOutOfRange(usize),
    /// A call while the return stack already holds its 16 entries.
    StackOverflow,
    /// A return while the return stack is empty.
    StackUnderflow,
    /// An instruction whose nibble pattern names no operation.
    UnknownOpcode(u16),
    /// A program image larger than the work space from 0x200 to 0xFFF.
    RomTooLarge(usize),
}

} // verus!
