use vstd::prelude::*;
use crate::error::Chip8Error;

verus! {

/// Bytes of addressable memory.
pub const MEMORY_SIZE: usize = 4096;
/// Where a program is loaded and execution starts.
pub const PROGRAM_START: usize = 0x200;
/// Where the built-in font begins.
pub const FONT_START: usize = 0x050;
/// Bytes in one font glyph.
pub const GLYPH_SIZE: usize = 5;
/// Screen width and height in pixels.
pub const SCREEN_WIDTH: usize = 64;
pub const SCREEN_HEIGHT: usize = 32;
pub const SCREEN_PIXELS: usize = 2048;

/// The canonical 4x5 font: five rows for each hex digit 0 to F.
pub open spec fn font_table() -> Seq<u8> {
    seq![
        0xF0u8, 0x90, 0x90, 0x90, 0xF0, 0x20, 0x60, 0x20, 0x20, 0x70,
        0xF0, 0x10, 0xF0, 0x80, 0xF0, 0xF0, 0x10, 0xF0, 0x10, 0xF0,
        0x90, 0x90, 0xF0, 0x10, 0x10, 0xF0, 0x80, 0xF0, 0x10, 0xF0,
        0xF0, 0x80, 0xF0, 0x90, 0xF0, 0xF0, 0x10, 0x20, 0x40, 0x40,
        0xF0, 0x90, 0xF0, 0x90, 0xF0, 0xF0, 0x90, 0xF0, 0x10, 0xF0,
        0xF0, 0x90, 0xF0, 0x90, 0x90, 0xE0, 0x90, 0xE0, 0x90, 0xE0,
        0xF0, 0x80, 0x80, 0x80, 0xF0, 0xE0, 0x90, 0x90, 0x90, 0xE0,
        0xF0, 0x80, 0xF0, 0x80, 0xF0, 0xF0, 0x80, 0xF0, 0x80, 0x80,
    ]
}

/// Memory at start-up: the font at `FONT_START`, zero everywhere else.
pub open spec fn initial_memory() -> Seq<u8> {
    Seq::new(
        MEMORY_SIZE as nat,
        |i: int|
            if FONT_START <= i < FONT_START + font_table().len() {
                font_table()[i - FONT_START]
            } else {
                0u8
            },
    )
}

/// A screen with every pixel off.
pub open spec fn blank_screen() -> Seq<bool> {
    Seq::new(SCREEN_PIXELS as nat, |i: int| false)
}

/// The base address of the glyph for hex digit `digit`.
pub open spec fn glyph_address(digit: int) -> int {
    FONT_START + digit * GLYPH_SIZE
}

/// Memory after `rom` is copied to `PROGRAM_START`.
pub open spec fn with_program(mem: Seq<u8>, rom: Seq<u8>) -> Seq<u8> {
    mem.subrange(0, PROGRAM_START as int) + rom + mem.subrange(
        PROGRAM_START + rom.len(),
        mem.len() as int,
    )
}

/// The largest program that fits.
pub open spec fn max_program_len() -> int {
    MEMORY_SIZE - PROGRAM_START
}

/// Whether column `col` (0 is the leftmost) of a sprite row is set.
pub open spec fn sprite_bit(row: u8, col: int) -> bool {
    (row >> ((7 - col) as u8)) & 1u8 == 1u8
}

/// Whether the sprite `sprite`, drawn with its top left corner at
/// (`x0`, `y0`) and wrapping round the screen edges, sets pixel `p`.
pub open spec fn sprite_covers(sprite: Seq<u8>, x0: int, y0: int, p: int) -> bool {
    let col = (p % SCREEN_WIDTH as int + SCREEN_WIDTH - x0) % SCREEN_WIDTH as int;
    let row = (p / SCREEN_WIDTH as int + SCREEN_HEIGHT - y0) % SCREEN_HEIGHT as int;
    row < sprite.len() && col < 8 && sprite_bit(sprite[row], col)
}

/// The screen after the sprite is drawn: each pixel it covers flips.
pub open spec fn drawn_screen(screen: Seq<bool>, sprite: Seq<u8>, x0: int, y0: int) -> Seq<bool> {
    Seq::new(screen.len(), |p: int| screen[p] != sprite_covers(sprite, x0, y0, p))
}

/// Whether drawing the sprite turns off a pixel that was on.
pub open spec fn sprite_collides(screen: Seq<bool>, sprite: Seq<u8>, x0: int, y0: int) -> bool {
    exists|p: int| 0 <= p < screen.len() && screen[p] && sprite_covers(sprite, x0, y0, p)
}

/// The 4096 bytes of memory and the 64x32 screen. The model of a `Memory`
/// is its byte sequence; `screen` gives the pixels, row by row.
pub struct Memory {
    mem: Vec<u8>,
    display: Vec<bool>,
}

impl View for Memory {
    type V = Seq<u8>;

    closed spec fn view(&self) -> Seq<u8> {
        self.mem@
    }
}

impl Memory {
    /// The pixels, row after row, `true` where lit.
    pub closed spec fn screen(&self) -> Seq<bool> {
        self.display@
    }

    pub open spec fn wf(&self) -> bool {
        &&& self@.len() == MEMORY_SIZE
        &&& self.screen().len() == SCREEN_PIXELS
    }

    /// Memory holding the font and nothing else, with a blank screen.
    pub fn new() -> (r: Memory)
        ensures
            r.wf(),
            r@ == initial_memory(),
            r.screen() == blank_screen(),
    {
        let display = vec![false; SCREEN_PIXELS];
        assert(display@ =~= blank_screen());
        Memory { mem: Memory::init_mem_with_fonts(), display }
    }

    fn init_mem_with_fonts() -> (r: Vec<u8>)
        ensures
            r@ == initial_memory(),
    {
        let glyphs: [u8; 80] = [
            0xF0, 0x90, 0x90, 0x90, 0xF0, // 0
            0x20, 0x60, 0x20, 0x20, 0x70, // 1
            0xF0, 0x10, 0xF0, 0x80, 0xF0, // 2
            0xF0, 0x10, 0xF0, 0x10, 0xF0, // 3
            0x90, 0x90, 0xF0, 0x10, 0x10, // 4
            0xF0, 0x80, 0xF0, 0x10, 0xF0, // 5
            0xF0, 0x80, 0xF0, 0x90, 0xF0, // 6
            0xF0, 0x10, 0x20, 0x40, 0x40, // 7
            0xF0, 0x90, 0xF0, 0x90, 0xF0, // 8
            0xF0, 0x90, 0xF0, 0x10, 0xF0, // 9
            0xF0, 0x90, 0xF0, 0x90, 0x90, // A
            0xE0, 0x90, 0xE0, 0x90, 0xE0, // B
            0xF0, 0x80, 0x80, 0x80, 0xF0, // C
            0xE0, 0x90, 0x90, 0x90, 0xE0, // D
            0xF0, 0x80, 0xF0, 0x80, 0xF0, // E
            0xF0, 0x80, 0xF0, 0x80, 0x80, // F
        ];
        assert(glyphs@ =~= font_table());
        let mut mem = vec![0u8; MEMORY_SIZE];
        let mut i: usize = 0;
        while i < 80
            invariant
                i <= 80,
                glyphs@ == font_table(),
                mem@.len() == MEMORY_SIZE,
                forall|j: int|
                    0 <= j < MEMORY_SIZE ==> #[trigger] mem@[j] == (if FONT_START <= j < FONT_START + i {
                        font_table()[j - FONT_START]
                    } else {
                        0u8
                    }),
            decreases 80 - i,
        {
            mem.set(FONT_START + i, glyphs[i]);
            i = i + 1;
        }
        assert(mem@ =~= initial_memory());
        mem
    }

    /// Stores `byte` at `position`.
    pub fn put(&mut self, position: u16, byte: u8)
        requires
            old(self).wf(),
            position < MEMORY_SIZE,
        ensures
            final(self).wf(),
            final(self)@ == old(self)@.update(position as int, byte),
            final(self).screen() == old(self).screen(),
    {
        self.mem.set(position as usize, byte);
    }

    /// The byte at `position`.
    pub fn get(&self, position: u16) -> (r: u8)
        requires
            self.wf(),
            position < MEMORY_SIZE,
        ensures
            r == self@[position as int],
    {
        self.mem[position as usize]
    }

    /// Copies `game_rom` to `PROGRAM_START`. A program longer than the work
    /// space is refused and memory is left as it was.
    pub fn load_game(&mut self, game_rom: Vec<u8>) -> (r: Result<(), Chip8Error>)
        requires
            old(self).wf(),
        ensures
            final(self).wf(),
            final(self).screen() == old(self).screen(),
            game_rom@.len() > max_program_len() ==> r == Err::<(), Chip8Error>(
                Chip8Error::RomTooLarge(game_rom@.len() as usize),
            ) && final(self)@ == old(self)@,
            game_rom@.len() <= max_program_len() ==> r == Ok::<(), Chip8Error>(())
                && final(self)@ == with_program(old(self)@, game_rom@),
    {
        let len = game_rom.len();
        if len > MEMORY_SIZE - PROGRAM_START {
            return Err(Chip8Error::RomTooLarge(len));
        }
        let ghost before = self@;
        let mut i: usize = 0;
        while i < len
            invariant
                len == game_rom@.len(),
                len <= max_program_len(),
                i <= len,
                self.wf(),
                self.screen() == old(self).screen(),
                before == old(self)@,
                forall|j: int|
                    0 <= j < MEMORY_SIZE ==> #[trigger] self@[j] == (if PROGRAM_START <= j
                        < PROGRAM_START + i {
                        game_rom@[j - PROGRAM_START]
                    } else {
                        before[j]
                    }),
            decreases len - i,
        {
            self.mem.set(PROGRAM_START + i, game_rom[i]);
            i = i + 1;
        }
        assert(self@ =~= with_program(before, game_rom@));
        Ok(())
    }

    /// A snapshot of the screen, one byte per pixel row after row: 1 where
    /// the pixel is lit, 0 where it is not.
    pub fn get_display_memory(&self) -> (r: Vec<u8>)
        requires
            self.wf(),
        ensures
            r@.len() == SCREEN_PIXELS,
            forall|p: int|
                0 <= p < SCREEN_PIXELS ==> #[trigger] r@[p] == (if self.screen()[p] {
                    1u8
                } else {
                    0u8
                }),
    {
        let mut r: Vec<u8> = Vec::with_capacity(SCREEN_PIXELS);
        let mut p: usize = 0;
        while p < SCREEN_PIXELS
            invariant
                p <= SCREEN_PIXELS,
                self.wf(),
                r@.len() == p,
                forall|q: int|
                    0 <= q < p ==> #[trigger] r@[q] == (if self.screen()[q] {
                        1u8
                    } else {
                        0u8
                    }),
            decreases SCREEN_PIXELS - p,
        {
            if self.display[p] {
                r.push(1);
            } else {
                r.push(0);
            }
            p = p + 1;
        }
        r
    }

    /// The base address of the font glyph for hex digit `digit`.
    pub fn get_char_position(digit: u8) -> (r: u16)
        requires
            digit < 16,
        ensures
            r == glyph_address(digit as int),
    {
        assert(digit * 5 <= 75) by (nonlinear_arith)
            requires
                digit < 16,
        ;
        (FONT_START as u16) + (digit as u16) * (GLYPH_SIZE as u16)
    }

    /// Turns every pixel off.
    pub fn clear_display(&mut self)
        requires
            old(self).wf(),
        ensures
            final(self).wf(),
            final(self)@ == old(self)@,
            final(self).screen() == blank_screen(),
    {
        let mut p: usize = 0;
        while p < SCREEN_PIXELS
            invariant
                p <= SCREEN_PIXELS,
                self.wf(),
                self@ == old(self)@,
                forall|q: int| 0 <= q < p ==> !#[trigger] self.screen()[q],
            decreases SCREEN_PIXELS - p,
        {
            self.display.set(p, false);
            p = p + 1;
        }
        assert(self.screen() =~= blank_screen());
    }

    /// Draws the `n`-row sprite stored at `index` with its top left corner
    /// at (`x0`, `y0`), flipping the pixels it covers, and tells whether a
    /// lit pixel was turned off.
    pub fn draw_sprite(&mut self, x0: u8, y0: u8, index: u16, n: u8) -> (collision: bool)
        requires
            old(self).wf(),
            x0 < SCREEN_WIDTH,
            y0 < SCREEN_HEIGHT,
            n <= 16,
            index + n <= MEMORY_SIZE,
        ensures
            final(self).wf(),
            final(self)@ == old(self)@,
            final(self).screen() == drawn_screen(
                old(self).screen(),
                old(self)@.subrange(index as int, index + n),
                x0 as int,
                y0 as int,
            ),
            collision == sprite_collides(
                old(self).screen(),
                old(self)@.subrange(index as int, index + n),
                x0 as int,
                y0 as int,
            ),
    {
        let ghost sprite = self@.subrange(index as int, index + n);
        let ghost before = self.screen();
        let mut collision = false;
        let mut p: usize = 0;
        while p < SCREEN_PIXELS
            invariant
                p <= SCREEN_PIXELS,
                self.wf(),
                self@ == old(self)@,
                before == old(self).screen(),
                sprite == self@.subrange(index as int, index + n),
                x0 < SCREEN_WIDTH,
                y0 < SCREEN_HEIGHT,
                index + n <= MEMORY_SIZE,
                forall|q: int|
                    0 <= q < p ==> #[trigger] self.screen()[q] == (before[q] != sprite_covers(
                        sprite,
                        x0 as int,
                        y0 as int,
                        q,
                    )),
                forall|q: int| p <= q < SCREEN_PIXELS ==> #[trigger] self.screen()[q] == before[q],
                collision == exists|q: int|
                    0 <= q < p && before[q] && #[trigger] sprite_covers(
                        sprite,
                        x0 as int,
                        y0 as int,
                        q,
                    ),
            decreases SCREEN_PIXELS - p,
        {
            let col = (p % SCREEN_WIDTH + SCREEN_WIDTH - x0 as usize) % SCREEN_WIDTH;
            let row = (p / SCREEN_WIDTH + SCREEN_HEIGHT - y0 as usize) % SCREEN_HEIGHT;
            let covered = if row < n as usize && col < 8 {
                let bits = self.mem[index as usize + row];
                let c = col as u8;
                (bits >> (7 - c)) & 1 == 1
            } else {
                false
            };
            assert(covered == sprite_covers(sprite, x0 as int, y0 as int, p as int));
            let was_lit = self.display[p];
            if was_lit && covered {
                collision = true;
            }
            self.display.set(p, was_lit != covered);
            p = p + 1;
        }
        assert(self.screen() =~= drawn_screen(before, sprite, x0 as int, y0 as int));
        collision
    }
}

} // verus!
