use vstd::prelude::*;
use crate::cpu::{initial_state, key_event, step, ticked, valid_state, Cpu, CpuState, StepEffect, KEY_COUNT};
use crate::error::Chip8Error;
use crate::memory::{max_program_len, with_program};

verus! {

/// The three decimal digits of `v`, hundreds first.
pub open spec fn bcd_digits(v: u8) -> Seq<u8> {
    seq![(v / 100) as u8, ((v % 100) / 10) as u8, (v % 10) as u8]
}

/// The machine a driver runs: the processor and the bookkeeping of what the
/// screen needs.
pub struct Chip8 {
    cpu: Cpu,
    redraw: bool,
}

/// The model of a machine: the processor's state and whether the screen
/// changed since the driver last took a frame.
pub struct MachineState {
    pub cpu: CpuState,
    pub redraw: bool,
}

/// Whether a step's effect changes what is on the screen.
pub open spec fn changes_screen(e: StepEffect) -> bool {
    e == StepEffect::Cleared || e == StepEffect::Drawn
}

impl View for Chip8 {
    type V = MachineState;

    closed spec fn view(&self) -> MachineState {
        MachineState { cpu: self.cpu@, redraw: self.redraw }
    }
}

impl Chip8 {
    /// The processor keeps its own invariant.
    pub closed spec fn inv(&self) -> bool {
        self.cpu.wf()
    }

    pub open spec fn wf(&self) -> bool {
        &&& self.inv()
        &&& valid_state(self@.cpu)
    }

    /// A fresh machine with nothing to draw yet.
    pub fn new() -> (r: Chip8)
        ensures
            r.wf(),
            r@.cpu == initial_state(),
            !r@.redraw,
    {
        Chip8 { cpu: Cpu::new(), redraw: false }
    }

    /// Loads a program image at the start of the work space; an image
    /// larger than the work space is refused and nothing changes.
    pub fn load_game(&mut self, game_rom: Vec<u8>) -> (r: Result<(), Chip8Error>)
        requires
            old(self).wf(),
        ensures
            final(self).wf(),
            final(self)@.redraw == old(self)@.redraw,
            game_rom@.len() > max_program_len() ==> r == Err::<(), Chip8Error>(
                Chip8Error::RomTooLarge(game_rom@.len() as usize),
            ) && final(self)@.cpu == old(self)@.cpu,
            game_rom@.len() <= max_program_len() ==> r == Ok::<(), Chip8Error>(())
                && final(self)@.cpu == (CpuState {
                mem: with_program(old(self)@.cpu.mem, game_rom@),
                ..old(self)@.cpu
            }),
    {
        self.cpu.load_game(game_rom)
    }

    /// Runs one processor step and notes whether the screen changed.
    pub fn emulate_cycle(&mut self) -> (r: Result<StepEffect, Chip8Error>)
        requires
            old(self).wf(),
        ensures
            final(self).wf(),
            match step(old(self)@.cpu) {
                Ok((s, e)) => r == Ok::<StepEffect, Chip8Error>(e) && final(self)@.cpu == s
                    && final(self)@.redraw == (old(self)@.redraw || changes_screen(e)),
                Err(e) => r == Err::<StepEffect, Chip8Error>(e) && final(self)@ == old(self)@,
            },
    {
        let r = self.cpu.emulate_cycle();
        match r {
            Ok(StepEffect::Cleared) | Ok(StepEffect::Drawn) => {
                self.redraw = true;
            },
            _ => {},
        }
        r
    }

    /// The timer driver's tick, due 60 times a second.
    pub fn tick_timers(&mut self)
        requires
            old(self).wf(),
        ensures
            final(self).wf(),
            final(self)@ == (MachineState { cpu: ticked(old(self)@.cpu), ..old(self)@ }),
    {
        self.cpu.tick_timers();
    }

    /// Records a key going down or up; see `Cpu::set_key`.
    pub fn set_key(&mut self, key: u8, pressed: bool)
        requires
            old(self).wf(),
            key < KEY_COUNT,
        ensures
            final(self).wf(),
            final(self)@ == (MachineState { cpu: key_event(old(self)@.cpu, key, pressed), ..old(self)@ }),
    {
        self.cpu.set_key(key, pressed);
    }

    /// Replaces the seed of the random byte generator.
    pub fn seed_random(&mut self, seed: u32)
        requires
            old(self).wf(),
        ensures
            final(self).wf(),
            final(self)@ == (MachineState { cpu: CpuState { seed, ..old(self)@.cpu }, ..old(self)@ }),
    {
        self.cpu.seed_random(seed);
    }

    /// The screen, one byte per pixel, if it changed since the last frame
    /// was taken; taking it clears the mark.
    pub fn take_frame(&mut self) -> (r: Option<Vec<u8>>)
        requires
            old(self).wf(),
        ensures
            final(self).wf(),
            final(self)@.cpu == old(self)@.cpu,
            !final(self)@.redraw,
            old(self)@.redraw <==> r is Some,
            r matches Some(frame) ==> frame@.len() == 2048 && forall|p: int|
                0 <= p < 2048 ==> #[trigger] frame@[p] == (if old(self)@.cpu.screen[p] {
                    1u8
                } else {
                    0u8
                }),
    {
        if self.redraw {
            self.redraw = false;
            Some(self.cpu.display_memory())
        } else {
            None
        }
    }

    /// The processor, to read its registers and memory.
    pub fn cpu(&self) -> (r: &Cpu)
        requires
            self.wf(),
        ensures
            r.wf(),
            r@ == self@.cpu,
    {
        &self.cpu
    }

    /// Binary-coded decimal: the decimal digits of `number`, hundreds
    /// first (128 gives 1, 2, 8).
    pub fn get_bcd(number: u8) -> (r: [u8; 3])
        ensures
            r@ == bcd_digits(number),
    {
        let hundreds = number / 100;
        let stripped_hundreds = number % 100;
        let tens = stripped_hundreds / 10;
        let ones = stripped_hundreds % 10;
        let r = [hundreds, tens, ones];
        assert(r@ =~= bcd_digits(number));
        r
    }
}

} // verus!
