use crate::error::EmuError;
use crate::model::{lists_lit, MachineState, FONTSET, MAX_PROGRAM_SIZE, SCREEN_SIZE};
use vstd::prelude::*;

verus! {

/// A CHIP-8 machine. It owns all of its state; the only ways to change it are the
/// operations below.
pub struct Emu {
    pub(crate) pc: u16,
    pub(crate) ram: [u8; 4096],
    pub(crate) screen: [bool; 2048],
    pub(crate) v_reg: [u8; 16],
    pub(crate) i_reg: u16,
    pub(crate) sp: u16,
    pub(crate) stack: [u16; 16],
    pub(crate) keys: [bool; 16],
    pub(crate) dt: u8,
    pub(crate) st: u8,
}

impl View for Emu {
    type V = MachineState;

    /// The call stack of the model holds the slots below the stack pointer; what lies in the
    /// slots above it is of no account.
    open(crate) spec fn view(&self) -> MachineState {
        MachineState {
            pc: self.pc,
            ram: self.ram@,
            screen: self.screen@,
            v: self.v_reg@,
            i: self.i_reg,
            stack: self.stack@.take(self.sp as int),
            keys: self.keys@,
            dt: self.dt,
            st: self.st,
        }
    }
}

/// Memory at power-on: the glyph table, then zeros.
fn blank_ram() -> (ram: [u8; 4096])
    ensures
        ram@ == MachineState::initial().ram,
{
    let mut ram = [0u8; 4096];
    let mut a: usize = 0;
    while a < 80
        invariant
            a <= 80,
            forall|j: int| 0 <= j < a ==> ram@[j] == FONTSET@[j],
            forall|j: int| a <= j < 4096 ==> ram@[j] == 0,
        decreases 80 - a,
    {
        ram[a] = FONTSET[a];
        a += 1;
    }
    ram
}

impl Emu {
    /// The stack pointer never passes the end of the stack.
    #[verifier::type_invariant]
    pub(crate) open spec fn inv(&self) -> bool {
        self.sp <= 16
    }

    /// A machine at power-on.
    pub fn new() -> (emu: Self)
        ensures
            emu@ == MachineState::initial(),
            emu@.wf(),
    {
        Emu {
            pc: 0x200,
            ram: blank_ram(),
            screen: [false; 2048],
            v_reg: [0; 16],
            i_reg: 0,
            sp: 0,
            stack: [0; 16],
            keys: [false; 16],
            dt: 0,
            st: 0,
        }
    }

    /// Puts the machine back to power-on, whatever state it was in: a loaded program is gone
    /// and the glyph table is installed again.
    pub fn reset(&mut self)
        ensures
            final(self)@ == MachineState::initial(),
            final(self)@.wf(),
    {
        proof {
            use_type_invariant(&*self);
        }
        self.pc = 0x200;
        self.ram = blank_ram();
        self.screen = [false; 2048];
        self.v_reg = [0; 16];
        self.i_reg = 0;
        self.sp = 0;
        self.stack = [0; 16];
        self.keys = [false; 16];
        self.dt = 0;
        self.st = 0;
    }

    /// Copies `bytes` into memory from `0x200` on. Registers, program counter and the rest of
    /// memory stay as they are.
    ///
    /// A program of more than 3584 bytes is refused, and nothing is written.
    pub fn load_program(&mut self, bytes: &[u8]) -> (r: Result<(), EmuError>)
        ensures
            r is Ok <==> bytes@.len() <= MAX_PROGRAM_SIZE,
            r is Ok ==> final(self)@ == old(self)@.write(0x200, bytes@),
            r is Err ==> final(self)@ == old(self)@,
            r is Err ==> r == Err::<(), EmuError>(EmuError::ProgramTooLarge { len: bytes@.len() as usize }),
            final(self)@.wf(),
    {
        proof {
            use_type_invariant(&*self);
        }
        let len = bytes.len();
        if len > MAX_PROGRAM_SIZE {
            return Err(EmuError::ProgramTooLarge { len });
        }
        let ghost before = self@;
        let mut k: usize = 0;
        while k < len
            invariant
                k <= len,
                len == bytes@.len(),
                len <= MAX_PROGRAM_SIZE,
                self.sp <= 16,
                self@ == before.write(0x200, bytes@.take(k as int)),
                before.wf(),
            decreases len - k,
        {
            self.ram[0x200 + k] = bytes[k];
            k += 1;
        }
        Ok(())
    }

    /// Latches key `index` as down (`pressed`) or up.
    ///
    /// An index of 16 or more is refused, and no latch changes.
    pub fn set_key(&mut self, index: usize, pressed: bool) -> (r: Result<(), EmuError>)
        ensures
            r is Ok <==> index < 16,
            r is Ok ==> final(self)@ == (MachineState {
                keys: old(self)@.keys.update(index as int, pressed),
                ..old(self)@
            }),
            r is Err ==> final(self)@ == old(self)@,
            r is Err ==> r == Err::<(), EmuError>(EmuError::KeyOutOfRange { index }),
            final(self)@.wf(),
    {
        proof {
            use_type_invariant(&*self);
        }
        if index >= 16 {
            return Err(EmuError::KeyOutOfRange { index });
        }
        self.keys[index] = pressed;
        Ok(())
    }

    /// The program counter.
    pub fn pc(&self) -> (pc: u16)
        ensures
            pc == self@.pc,
    {
        self.pc
    }

    /// The address register `I`.
    pub fn index(&self) -> (i: u16)
        ensures
            i == self@.i,
    {
        self.i_reg
    }

    /// Register `Vx`, for `x` below 16.
    pub fn register(&self, x: usize) -> (value: Option<u8>)
        ensures
            value == (if x < 16 {
                Some(self@.v[x as int])
            } else {
                None
            }),
    {
        if x < 16 {
            Some(self.v_reg[x])
        } else {
            None
        }
    }

    /// The byte of memory at `addr`, for `addr` below 4096.
    pub fn memory(&self, addr: usize) -> (value: Option<u8>)
        ensures
            value == (if addr < 4096 {
                Some(self@.ram[addr as int])
            } else {
                None
            }),
    {
        if addr < 4096 {
            Some(self.ram[addr])
        } else {
            None
        }
    }

    /// Whether key `index` is latched as down, for `index` below 16.
    pub fn key(&self, index: usize) -> (down: Option<bool>)
        ensures
            down == (if index < 16 {
                Some(self@.keys[index as int])
            } else {
                None
            }),
    {
        if index < 16 {
            Some(self.keys[index])
        } else {
            None
        }
    }

    /// The delay timer.
    pub fn delay_timer(&self) -> (dt: u8)
        ensures
            dt == self@.dt,
    {
        self.dt
    }

    /// The sound timer.
    pub fn sound_timer(&self) -> (st: u8)
        ensures
            st == self@.st,
    {
        self.st
    }

    /// The number of calls that have not returned yet.
    pub fn stack_depth(&self) -> (depth: usize)
        ensures
            depth == self@.stack.len(),
    {
        proof {
            use_type_invariant(self);
        }
        self.sp as usize
    }

    /// The pixels that are lit, as `(column, row)`, row by row from the top and from left to
    /// right within a row: what a renderer has to paint.
    pub fn lit_pixels(&self) -> (cells: Vec<(usize, usize)>)
        ensures
            lists_lit(self@.screen, cells@, SCREEN_SIZE as int),
    {
        let mut cells: Vec<(usize, usize)> = Vec::new();
        let mut p: usize = 0;
        while p < 2048
            invariant
                p <= 2048,
                lists_lit(self.screen@, cells@, p as int),
            decreases 2048 - p,
        {
            if self.screen[p] {
                let ghost before = cells@;
                cells.push((p % 64, p / 64));
                assert forall|q: int| 0 <= q < p + 1 && self.screen@[q] implies exists|k: int|
                    0 <= k < cells@.len() && #[trigger] cells@[k] == (
                        (q % 64) as usize,
                        (q / 64) as usize,
                    ) by {
                    if q < p {
                        let k = choose|k: int|
                            0 <= k < before.len() && #[trigger] before[k] == (
                                (q % 64) as usize,
                                (q / 64) as usize,
                            );
                        assert(cells@[k] == before[k]);
                    } else {
                        assert(cells@[cells@.len() - 1] == ((q % 64) as usize, (q / 64) as usize));
                    }
                }
            }
            p += 1;
        }
        cells
    }

    /// The display as it is now, row by row, for rendering.
    pub fn framebuffer_snapshot(&self) -> (grid: &[bool; 2048])
        ensures
            grid@ == self@.screen,
    {
        &self.screen
    }

    /// One tick of the timer driver: each timer that is not zero goes down by one.
    ///
    /// Returns whether the buzzer should sound, which is on the tick that takes the sound
    /// timer from 1 to 0.
    pub fn tick_timers(&mut self) -> (buzz: bool)
        ensures
            final(self)@ == old(self)@.tick_timers(),
            buzz == (old(self)@.st == 1),
            final(self)@.wf(),
    {
        proof {
            use_type_invariant(&*self);
        }
        if self.dt > 0 {
            self.dt -= 1;
        }
        let mut buzz = false;
        if self.st > 0 {
            if self.st == 1 {
                buzz = true;
            }
            self.st -= 1;
        }
        buzz
    }
}

} // verus!
