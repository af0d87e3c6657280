use crate::error::EmuError;
use crate::instruction::{decode_spec, Instruction};
use vstd::prelude::*;

verus! {

/// Width of the display in pixels.
pub const SCREEN_WIDTH: usize = 64;

/// Height of the display in pixels.
pub const SCREEN_HEIGHT: usize = 32;

/// Number of pixels of the display.
pub const SCREEN_SIZE: usize = 2048;

/// Number of bytes of memory.
pub const RAM_SIZE: usize = 4096;

/// Number of registers `V0..=VF`.
pub const NUM_REGS: usize = 16;

/// Number of return addresses that the call stack holds.
pub const STACK_SIZE: usize = 16;

/// Number of keys of the pad.
pub const NUM_KEYS: usize = 16;

/// Where programs are loaded and where execution starts.
pub const START_ADDR: u16 = 0x200;

/// Number of bytes that a program may have: what lies between `START_ADDR` and the end of
/// memory.
pub const MAX_PROGRAM_SIZE: usize = 3584;

/// Number of bytes of the glyph table.
pub const FONTSET_SIZE: usize = 80;

/// The glyphs of the hexadecimal digits `0..=F`, five bytes each, one byte per row.
pub const FONTSET: [u8; 80] = [
    0xF0, 0x90, 0x90, 0x90, 0xF0,
    0x20, 0x60, 0x20, 0x20, 0x70,
    0xF0, 0x10, 0xF0, 0x80, 0xF0,
    0xF0, 0x10, 0xF0, 0x10, 0xF0,
    0x90, 0x90, 0xF0, 0x10, 0x10,
    0xF0, 0x80, 0xF0, 0x10, 0xF0,
    0xF0, 0x80, 0xF0, 0x90, 0xF0,
    0xF0, 0x10, 0x20, 0x40, 0x40,
    0xF0, 0x90, 0xF0, 0x90, 0xF0,
    0xF0, 0x90, 0xF0, 0x10, 0xF0,
    0xF0, 0x90, 0xF0, 0x90, 0x90,
    0xE0, 0x90, 0xE0, 0x90, 0xE0,
    0xF0, 0x80, 0x80, 0x80, 0xF0,
    0xE0, 0x90, 0x90, 0x90, 0xE0,
    0xF0, 0x80, 0xF0, 0x80, 0xF0,
    0xF0, 0x80, 0xF0, 0x80, 0x80,
];

/// The machine as a mathematical value: what every contract of this crate speaks of.
#[verifier::ext_equal]
pub struct MachineState {
    /// Program counter: the address of the next instruction.
    pub pc: u16,
    /// Memory, one byte per address.
    pub ram: Seq<u8>,
    /// The display, row by row: the pixel at column `x` of row `y` is `screen[x + 64 * y]`.
    pub screen: Seq<bool>,
    /// The registers `V0..=VF`.
    pub v: Seq<u8>,
    /// The address register `I`.
    pub i: u16,
    /// The return addresses of the calls that have not returned yet, oldest first.
    pub stack: Seq<u16>,
    /// The key latches: `keys[k]` holds while key `k` is down.
    pub keys: Seq<bool>,
    /// Delay timer.
    pub dt: u8,
    /// Sound timer.
    pub st: u8,
}

/// The first address at or after `start` that lies past the end of memory.
pub open spec fn first_outside(start: int) -> usize {
    if start >= RAM_SIZE {
        start as usize
    } else {
        RAM_SIZE
    }
}

/// Key `k` is down and no key below it is.
pub open spec fn is_lowest_pressed(keys: Seq<bool>, k: int) -> bool {
    &&& 0 <= k < keys.len()
    &&& keys[k]
    &&& forall|j: int| 0 <= j < k ==> !keys[j]
}

/// Some key is down.
pub open spec fn any_pressed(keys: Seq<bool>) -> bool {
    exists|k: int| 0 <= k < keys.len() && keys[k]
}

/// The lowest key that is down; meaningful only while some key is.
pub open spec fn lowest_pressed(keys: Seq<bool>) -> int {
    choose|k: int| is_lowest_pressed(keys, k)
}

/// Whether the sprite row `row_byte` has a pixel in column `col`, counted from the left: the
/// highest bit is column 0.
pub open spec fn sprite_bit(row_byte: u8, col: int) -> bool {
    row_byte & (0x80u8 >> col) != 0
}

/// The column of a sprite drawn at column `x0` that falls on display position `p`: how far
/// right of `x0` the column of `p` lies, going round the right edge.
pub open spec fn sprite_col(x0: int, p: int) -> int {
    (p % 64 - x0) % 64
}

/// The row of a sprite drawn at row `y0` that falls on display position `p`: how far below
/// `y0` the row of `p` lies, going round the bottom edge.
pub open spec fn sprite_row(y0: int, p: int) -> int {
    (p / 64 - y0) % 32
}

/// Whether `sprite`, drawn with its top left corner at `(x0, y0)`, has a pixel at display
/// position `p`. Columns wrap at the right edge and rows at the bottom edge.
pub open spec fn sprite_covers(sprite: Seq<u8>, x0: int, y0: int, p: int) -> bool {
    &&& sprite_col(x0, p) < 8
    &&& sprite_row(y0, p) < sprite.len()
    &&& sprite_bit(sprite[sprite_row(y0, p)], sprite_col(x0, p))
}

/// The display after `sprite` was drawn at `(x0, y0)`: every pixel of the sprite is flipped.
pub open spec fn blit(screen: Seq<bool>, sprite: Seq<u8>, x0: int, y0: int) -> Seq<bool> {
    Seq::new(SCREEN_SIZE as nat, |p: int| screen[p] != sprite_covers(sprite, x0, y0, p))
}

/// Whether drawing `sprite` at `(x0, y0)` switches a lit pixel off.
pub open spec fn erases(screen: Seq<bool>, sprite: Seq<u8>, x0: int, y0: int) -> bool {
    exists|p: int| 0 <= p < SCREEN_SIZE && screen[p] && sprite_covers(sprite, x0, y0, p)
}

/// `cells` lists, as `(column, row)` and in the order of their positions, exactly the lit
/// pixels of `screen` among its first `upto` positions.
pub open spec fn lists_lit(screen: Seq<bool>, cells: Seq<(usize, usize)>, upto: int) -> bool {
    &&& forall|k: int|
        0 <= k < cells.len() ==> {
            let (x, y) = #[trigger] cells[k];
            x < 64 && x + 64 * y < upto && screen[x + 64 * y]
        }
    &&& forall|j: int, k: int|
        0 <= j < k < cells.len() ==> (#[trigger] cells[j]).0 + 64 * cells[j].1 < (
        #[trigger] cells[k]).0 + 64 * cells[k].1
    &&& forall|p: int|
        0 <= p < upto && screen[p] ==> exists|k: int|
            0 <= k < cells.len() && #[trigger] cells[k] == ((p % 64) as usize, (p / 64) as usize)
}

/// 1 for `true`, 0 for `false`.
pub open spec fn flag(b: bool) -> u8 {
    if b {
        1
    } else {
        0
    }
}

/// Whether an operation that reported `result` and took the machine from `before` to `after`
/// did what `expected` says: on success the machine is the expected one, on failure the error
/// is the expected one and the machine did not move.
pub open spec fn agrees(
    expected: Result<MachineState, EmuError>,
    before: MachineState,
    result: Result<(), EmuError>,
    after: MachineState,
) -> bool {
    match result {
        Ok(()) => expected == Ok::<MachineState, EmuError>(after),
        Err(e) => expected == Err::<MachineState, EmuError>(e) && after == before,
    }
}

impl MachineState {
    /// Every part has the size that the machine gives it.
    pub open spec fn wf(self) -> bool {
        &&& self.ram.len() == RAM_SIZE
        &&& self.screen.len() == SCREEN_SIZE
        &&& self.v.len() == NUM_REGS
        &&& self.stack.len() <= STACK_SIZE
        &&& self.keys.len() == NUM_KEYS
    }

    /// The machine at power-on: everything zero, the glyph table at the bottom of memory and
    /// the program counter at `START_ADDR`.
    pub open spec fn initial() -> MachineState {
        MachineState {
            pc: START_ADDR,
            ram: Seq::new(
                RAM_SIZE as nat,
                |a: int|
                    if a < FONTSET_SIZE {
                        FONTSET@[a]
                    } else {
                        0u8
                    },
            ),
            screen: Seq::new(SCREEN_SIZE as nat, |p: int| false),
            v: Seq::new(NUM_REGS as nat, |r: int| 0u8),
            i: 0,
            stack: Seq::empty(),
            keys: Seq::new(NUM_KEYS as nat, |k: int| false),
            dt: 0,
            st: 0,
        }
    }

    /// The same machine with `value` in register `x`.
    pub open spec fn set_v(self, x: int, value: u8) -> MachineState {
        MachineState { v: self.v.update(x, value), ..self }
    }

    /// The same machine with `flag` in `VF`.
    pub open spec fn set_vf(self, flag: u8) -> MachineState {
        self.set_v(0xF, flag)
    }

    /// The same machine with the program counter moved by `delta`.
    pub open spec fn move_pc(self, delta: int) -> MachineState {
        MachineState { pc: (self.pc + delta) as u16, ..self }
    }

    /// The same machine, with the next instruction skipped if `condition` holds.
    pub open spec fn skip_if(self, condition: bool) -> MachineState {
        if condition {
            self.move_pc(2)
        } else {
            self
        }
    }

    /// The same machine with `bytes` written to memory from `start` on.
    pub open spec fn write(self, start: int, bytes: Seq<u8>) -> MachineState {
        MachineState {
            ram: Seq::new(
                self.ram.len(),
                |a: int|
                    if start <= a < start + bytes.len() {
                        bytes[a - start]
                    } else {
                        self.ram[a]
                    },
            ),
            ..self
        }
    }

    /// The `len` bytes of memory from `start` on.
    pub open spec fn read(self, start: int, len: int) -> Seq<u8> {
        Seq::new(len as nat, |k: int| self.ram[start + k])
    }

    /// The word at the program counter can be read: both of its bytes lie in memory.
    pub open spec fn can_fetch(self) -> bool {
        self.pc + 1 < RAM_SIZE
    }

    /// The word at the program counter, high byte first.
    pub open spec fn opcode(self) -> u16 {
        (self.ram[self.pc as int] * 256 + self.ram[self.pc + 1]) as u16
    }

    /// What `ins` does to a machine whose program counter already points behind it.
    ///
    /// `random` is the byte that the entropy source gave; only `Random` reads it.
    /// An instruction that writes both its result and a flag writes the flag last, so that
    /// `VF` holds the flag also where `x` is 15. An instruction that reaches past the end of
    /// memory, names a key above 15, calls with a full stack or returns with an empty one is
    /// an error, and changes nothing.
    pub open spec fn execute(self, ins: Instruction, random: u8) -> Result<MachineState, EmuError> {
        match ins {
            Instruction::Nop => Ok(self),
            Instruction::ClearScreen => Ok(
                MachineState { screen: Seq::new(SCREEN_SIZE as nat, |p: int| false), ..self },
            ),
            Instruction::Return => if self.stack.len() == 0 {
                Err(EmuError::StackUnderflow)
            } else {
                Ok(MachineState { pc: self.stack.last(), stack: self.stack.drop_last(), ..self })
            },
            Instruction::Jump { addr } => Ok(MachineState { pc: addr, ..self }),
            Instruction::Call { addr } => if self.stack.len() >= STACK_SIZE {
                Err(EmuError::StackOverflow)
            } else {
                Ok(MachineState { pc: addr, stack: self.stack.push(self.pc), ..self })
            },
            Instruction::SkipEqImm { x, nn } => Ok(self.skip_if(self.v[x as int] == nn)),
            Instruction::SkipNeImm { x, nn } => Ok(self.skip_if(self.v[x as int] != nn)),
            Instruction::SkipEqReg { x, y } => Ok(self.skip_if(self.v[x as int] == self.v[y as int])),
            Instruction::LoadImm { x, nn } => Ok(self.set_v(x as int, nn)),
            Instruction::AddImm { x, nn } => Ok(
                self.set_v(x as int, ((self.v[x as int] + nn) % 256) as u8),
            ),
            Instruction::Move { x, y } => Ok(self.set_v(x as int, self.v[y as int])),
            Instruction::Or { x, y } => Ok(self.set_v(x as int, self.v[x as int] | self.v[y as int])),
            Instruction::And { x, y } => Ok(self.set_v(x as int, self.v[x as int] & self.v[y as int])),
            Instruction::Xor { x, y } => Ok(self.set_v(x as int, self.v[x as int] ^ self.v[y as int])),
            Instruction::AddReg { x, y } => {
                let sum = self.v[x as int] + self.v[y as int];
                Ok(self.set_v(x as int, (sum % 256) as u8).set_vf(flag(sum > 255)))
            },
            Instruction::SubReg { x, y } => {
                let difference = self.v[x as int] - self.v[y as int];
                Ok(self.set_v(x as int, (difference % 256) as u8).set_vf(flag(difference >= 0)))
            },
            Instruction::ShiftRight { x } => {
                let vx = self.v[x as int];
                Ok(self.set_v(x as int, vx / 2).set_vf(vx % 2))
            },
            Instruction::SubFrom { x, y } => {
                let difference = self.v[y as int] - self.v[x as int];
                Ok(self.set_v(x as int, (difference % 256) as u8).set_vf(flag(difference >= 0)))
            },
            Instruction::ShiftLeft { x } => {
                let vx = self.v[x as int];
                Ok(self.set_v(x as int, ((vx * 2) % 256) as u8).set_vf(vx / 128))
            },
            Instruction::SkipNeReg { x, y } => Ok(self.skip_if(self.v[x as int] != self.v[y as int])),
            Instruction::LoadIndex { addr } => Ok(MachineState { i: addr, ..self }),
            Instruction::JumpOffset { addr } => Ok(
                MachineState { pc: (self.v[0] + addr) as u16, ..self },
            ),
            Instruction::Random { x, nn } => Ok(self.set_v(x as int, random & nn)),
            Instruction::Draw { x, y, n } => if n > 0 && self.i + n > RAM_SIZE {
                Err(EmuError::MemoryOutOfBounds { addr: first_outside(self.i as int) })
            } else {
                let sprite = self.read(self.i as int, n as int);
                let x0 = self.v[x as int] as int;
                let y0 = self.v[y as int] as int;
                Ok(
                    MachineState {
                        screen: blit(self.screen, sprite, x0, y0),
                        v: self.v.update(0xF, flag(erases(self.screen, sprite, x0, y0))),
                        ..self
                    },
                )
            },
            Instruction::SkipKeyDown { x } => if self.v[x as int] >= NUM_KEYS {
                Err(EmuError::KeyOutOfRange { index: self.v[x as int] as usize })
            } else {
                Ok(self.skip_if(self.keys[self.v[x as int] as int]))
            },
            Instruction::SkipKeyUp { x } => if self.v[x as int] >= NUM_KEYS {
                Err(EmuError::KeyOutOfRange { index: self.v[x as int] as usize })
            } else {
                Ok(self.skip_if(!self.keys[self.v[x as int] as int]))
            },
            Instruction::ReadDelay { x } => Ok(self.set_v(x as int, self.dt)),
            Instruction::WaitKey { x } => if any_pressed(self.keys) {
                Ok(self.set_v(x as int, lowest_pressed(self.keys) as u8))
            } else {
                Ok(self.move_pc(-2))
            },
            Instruction::SetDelay { x } => Ok(MachineState { dt: self.v[x as int], ..self }),
            Instruction::SetSound { x } => Ok(MachineState { st: self.v[x as int], ..self }),
            Instruction::AddIndex { x } => Ok(
                MachineState { i: ((self.i + self.v[x as int]) % 65536) as u16, ..self },
            ),
            Instruction::FontAddr { x } => Ok(MachineState { i: (self.v[x as int] * 5) as u16, ..self }),
            Instruction::StoreBcd { x } => if self.i + 2 >= RAM_SIZE {
                Err(EmuError::MemoryOutOfBounds { addr: first_outside(self.i as int) })
            } else {
                let vx = self.v[x as int];
                Ok(self.write(self.i as int, seq![vx / 100, (vx / 10) % 10, vx % 10]))
            },
            Instruction::StoreRegs { x } => if self.i + x >= RAM_SIZE {
                Err(EmuError::MemoryOutOfBounds { addr: first_outside(self.i as int) })
            } else {
                Ok(self.write(self.i as int, self.v.subrange(0, x + 1)))
            },
            Instruction::LoadRegs { x } => if self.i + x >= RAM_SIZE {
                Err(EmuError::MemoryOutOfBounds { addr: first_outside(self.i as int) })
            } else {
                Ok(
                    MachineState {
                        v: self.read(self.i as int, x + 1) + self.v.subrange(x + 1, NUM_REGS as int),
                        ..self
                    },
                )
            },
        }
    }

    /// The next tick asks the entropy source for a byte: the word at the program counter can
    /// be read and is a `Random` instruction.
    pub open spec fn reads_entropy(self) -> bool {
        self.can_fetch() && decode_spec(self.opcode()) matches Some(Instruction::Random { .. })
    }

    /// One tick of the instruction engine: fetch the word at the program counter, move the
    /// program counter behind it, decode the word and execute the instruction.
    ///
    /// Whatever the error, it stands for a machine that did not move.
    pub open spec fn step(self, random: u8) -> Result<MachineState, EmuError> {
        if !self.can_fetch() {
            Err(EmuError::MemoryOutOfBounds { addr: first_outside(self.pc as int) })
        } else {
            match decode_spec(self.opcode()) {
                None => Err(EmuError::UnimplementedOpcode { opcode: self.opcode(), pc: self.pc }),
                Some(ins) => self.move_pc(2).execute(ins, random),
            }
        }
    }

    /// One tick of the timer driver: each timer that is not zero goes down by one.
    pub open spec fn tick_timers(self) -> MachineState {
        MachineState {
            dt: if self.dt > 0 {
                (self.dt - 1) as u8
            } else {
                0
            },
            st: if self.st > 0 {
                (self.st - 1) as u8
            } else {
                0
            },
            ..self
        }
    }
}

} // verus!
