use crate::emu::Emu;
use crate::entropy::random_byte;
use crate::error::EmuError;
use crate::instruction::{decode, Instruction};
use crate::laws::{lemma_only_random_reads_entropy, lemma_sprite_lands};
use crate::model::{
    agrees, any_pressed, flag, erases, blit, first_outside, is_lowest_pressed,
    lowest_pressed, sprite_bit, sprite_col, sprite_covers, sprite_row, MachineState,
};
use vstd::prelude::*;

verus! {

/// Whether `sprite`, drawn at `(x0, y0)`, has a pixel at `p` that lies in a sprite row above
/// `row`, or in row `row` left of column `col`: the part of the sprite that a draw has gone
/// over when it stands at that row and column.
spec fn covers_before(sprite: Seq<u8>, x0: int, y0: int, p: int, row: int, col: int) -> bool {
    let c = sprite_col(x0, p);
    let r = sprite_row(y0, p);
    sprite_covers(sprite, x0, y0, p) && (r < row || (r == row && c < col))
}

/// `a + b` in eight bits, and 1 if the sum did not fit, else 0.
fn add_with_carry(a: u8, b: u8) -> (r: (u8, u8))
    ensures
        r.0 == (a + b) % 256,
        r.1 == flag(a + b > 255),
{
    let carry: u8 = if a as u16 + b as u16 > 255 {
        1
    } else {
        0
    };
    (a.wrapping_add(b), carry)
}

/// `a - b` in eight bits, and 1 if nothing had to be borrowed, else 0.
fn sub_with_borrow(a: u8, b: u8) -> (r: (u8, u8))
    ensures
        r.0 == (a - b) % 256,
        r.1 == flag(a - b >= 0),
{
    let no_borrow: u8 = if a < b {
        0
    } else {
        1
    };
    (a.wrapping_sub(b), no_borrow)
}

/// `a` shifted right by one bit, and the bit that fell out.
fn shift_right(a: u8) -> (r: (u8, u8))
    ensures
        r.0 == a / 2,
        r.1 == a % 2,
{
    let lsb = a & 1;
    let shifted = a >> 1;
    assert(lsb == a % 2 && shifted == a / 2) by (bit_vector)
        requires
            lsb == a & 1,
            shifted == a >> 1,
    ;
    (shifted, lsb)
}

/// `a` shifted left by one bit, and the bit that fell out.
fn shift_left(a: u8) -> (r: (u8, u8))
    ensures
        r.0 == (a * 2) % 256,
        r.1 == a / 128,
{
    let msb = (a >> 7) & 1;
    let shifted = a << 1;
    assert(msb == a / 128 && shifted == (a * 2) % 256) by (bit_vector)
        requires
            msb == (a >> 7) & 1,
            shifted == a << 1,
    ;
    (shifted, msb)
}

/// `i + vx` in sixteen bits.
fn add_to_index(i: u16, vx: u8) -> (r: u16)
    ensures
        r == (i + vx) % 65536,
{
    i.wrapping_add(vx as u16)
}

impl Emu {
    /// Reads the word at the program counter, high byte first, and moves the program counter
    /// behind it.
    pub(crate) fn fetch(&mut self) -> (r: Result<u16, EmuError>)
        ensures
            r is Ok <==> old(self)@.can_fetch(),
            r matches Ok(op) ==> op == old(self)@.opcode() && final(self)@ == old(self)@.move_pc(
                2,
            ),
            r matches Err(e) ==> e == (EmuError::MemoryOutOfBounds {
                addr: first_outside(old(self)@.pc as int),
            }) && final(self)@ == old(self)@,
    {
        proof {
            use_type_invariant(&*self);
        }
        let pc = self.pc as usize;
        if pc >= 4095 {
            return Err(
                EmuError::MemoryOutOfBounds {
                    addr: if pc >= 4096 {
                        pc
                    } else {
                        4096
                    },
                },
            );
        }
        let higher_byte = self.ram[pc] as u16;
        let lower_byte = self.ram[pc + 1] as u16;
        let op = (higher_byte << 8) | lower_byte;
        assert(op == higher_byte * 256 + lower_byte) by (bit_vector)
            requires
                higher_byte < 256,
                lower_byte < 256,
                op == (higher_byte << 8) | lower_byte,
        ;
        self.pc += 2;
        Ok(op)
    }

    /// Puts `val` on top of the call stack.
    pub(crate) fn push(&mut self, val: u16) -> (r: Result<(), EmuError>)
        ensures
            r is Ok <==> old(self)@.stack.len() < 16,
            r is Ok ==> final(self)@ == (MachineState {
                stack: old(self)@.stack.push(val),
                ..old(self)@
            }),
            r matches Err(e) ==> e == EmuError::StackOverflow && final(self)@ == old(self)@,
    {
        proof {
            use_type_invariant(&*self);
        }
        if self.sp >= 16 {
            return Err(EmuError::StackOverflow);
        }
        self.stack[self.sp as usize] = val;
        self.sp += 1;
        Ok(())
    }

    /// Takes the top of the call stack off it.
    pub(crate) fn pop(&mut self) -> (r: Result<u16, EmuError>)
        ensures
            r is Ok <==> old(self)@.stack.len() > 0,
            r matches Ok(val) ==> val == old(self)@.stack.last() && final(self)@ == (MachineState {
                stack: old(self)@.stack.drop_last(),
                ..old(self)@
            }),
            r matches Err(e) ==> e == EmuError::StackUnderflow && final(self)@ == old(self)@,
    {
        proof {
            use_type_invariant(&*self);
        }
        if self.sp == 0 {
            return Err(EmuError::StackUnderflow);
        }
        self.sp -= 1;
        Ok(self.stack[self.sp as usize])
    }

    /// The lowest key that is down, if any is.
    pub(crate) fn lowest_pressed_key(&self) -> (r: Option<u8>)
        ensures
            r is Some <==> any_pressed(self@.keys),
            r matches Some(k) ==> k == lowest_pressed(self@.keys) && is_lowest_pressed(
                self@.keys,
                k as int,
            ),
    {
        let mut k: u8 = 0;
        while k < 16
            invariant
                k <= 16,
                forall|j: int| 0 <= j < k ==> !self.keys@[j],
            decreases 16 - k,
        {
            if self.keys[k as usize] {
                assert(is_lowest_pressed(self@.keys, k as int));
                return Some(k);
            }
            k += 1;
        }
        None
    }

    /// Draws the `n`-row sprite that memory holds at `I`, with its top left corner at
    /// `(Vx, Vy)`: each of its pixels flips the display pixel under it, past the right edge
    /// on the left and past the bottom edge at the top. `VF` tells whether a lit pixel went
    /// off.
    pub(crate) fn draw(&mut self, x: u8, y: u8, n: u8) -> (r: Result<(), EmuError>)
        requires
            x < 16,
            y < 16,
            n < 16,
        ensures
            agrees(
                old(self)@.execute(Instruction::Draw { x, y, n }, 0),
                old(self)@,
                r,
                final(self)@,
            ),
    {
        proof {
            use_type_invariant(&*self);
        }
        let i = self.i_reg as usize;
        let height = n as usize;
        if height > 0 && i + height > 4096 {
            return Err(
                EmuError::MemoryOutOfBounds {
                    addr: if i >= 4096 {
                        i
                    } else {
                        4096
                    },
                },
            );
        }
        let x_coord = self.v_reg[x as usize] as usize;
        let y_coord = self.v_reg[y as usize] as usize;
        let ghost s = self@;
        let ghost sprite = s.read(i as int, n as int);
        let ghost x0 = x_coord as int;
        let ghost y0 = y_coord as int;
        let mut flipped = false;
        let mut y_line: usize = 0;
        while y_line < height
            invariant
                y_line <= height < 16,
                height == 0 || i + height <= 4096,
                self.sp <= 16,
                s.wf(),
                sprite == s.read(i as int, height as int),
                x0 == x_coord < 256,
                y0 == y_coord < 256,
                self@ == (MachineState { screen: self.screen@, ..s }),
                forall|p: int|
                    0 <= p < 2048 ==> self.screen@[p] == (s.screen[p] != covers_before(
                        sprite,
                        x0,
                        y0,
                        p,
                        y_line as int,
                        0,
                    )),
                flipped <==> exists|p: int|
                    0 <= p < 2048 && s.screen[p] && covers_before(sprite, x0, y0, p, y_line as int, 0),
            decreases height - y_line,
        {
            let pixels = self.ram[i + y_line];
            let mut x_line: usize = 0;
            while x_line < 8
                invariant
                    x_line <= 8,
                    y_line < height < 16,
                    self.sp <= 16,
                    s.wf(),
                    sprite.len() == height,
                    pixels == sprite[y_line as int],
                    x0 == x_coord < 256,
                    y0 == y_coord < 256,
                    self@ == (MachineState { screen: self.screen@, ..s }),
                    forall|p: int|
                        0 <= p < 2048 ==> self.screen@[p] == (s.screen[p] != covers_before(
                            sprite,
                            x0,
                            y0,
                            p,
                            y_line as int,
                            x_line as int,
                        )),
                    flipped <==> exists|p: int|
                        0 <= p < 2048 && s.screen[p] && covers_before(
                            sprite,
                            x0,
                            y0,
                            p,
                            y_line as int,
                            x_line as int,
                        ),
                decreases 8 - x_line,
            {
                let ghost was_flipped = flipped;
                let ghost row = y_line as int;
                let ghost col = x_line as int;
                proof {
                    lemma_sprite_lands(sprite, x0, y0, row, col);
                }
                let px = (x_coord + x_line) % 64;
                let py = (y_coord + y_line) % 32;
                let idx = px + 64 * py;
                if pixels & (0x80u8 >> x_line) != 0 {
                    let lit = self.screen[idx];
                    flipped = flipped || lit;
                    self.screen[idx] = !lit;
                }
                x_line += 1;
                assert forall|p: int| 0 <= p < 2048 && p != idx implies covers_before(
                    sprite,
                    x0,
                    y0,
                    p,
                    row,
                    col + 1,
                ) == covers_before(sprite, x0, y0, p, row, col) by {}
                assert(flipped <==> exists|p: int|
                    0 <= p < 2048 && s.screen[p] && covers_before(sprite, x0, y0, p, row, col + 1))
                    by {
                    if was_flipped {
                        let w = choose|p: int|
                            0 <= p < 2048 && s.screen[p] && covers_before(
                                sprite,
                                x0,
                                y0,
                                p,
                                row,
                                col,
                            );
                        assert(s.screen[w] && covers_before(sprite, x0, y0, w, row, col + 1));
                    } else if flipped {
                        assert(s.screen[idx as int] && covers_before(
                            sprite,
                            x0,
                            y0,
                            idx as int,
                            row,
                            col + 1,
                        ));
                    }
                }
            }
            y_line += 1;
            assert forall|p: int| 0 <= p < 2048 implies covers_before(
                sprite,
                x0,
                y0,
                p,
                y_line as int,
                0,
            ) == covers_before(sprite, x0, y0, p, y_line - 1, 8) by {}
        }
        assert forall|p: int| 0 <= p < 2048 implies covers_before(
            sprite,
            x0,
            y0,
            p,
            height as int,
            0,
        ) == sprite_covers(sprite, x0, y0, p) by {}
        self.v_reg[0xF] = if flipped {
            1
        } else {
            0
        };
        assert(self@ =~= s.execute(Instruction::Draw { x, y, n }, 0)->Ok_0);
        Ok(())
    }

    /// Moves the program counter over the next instruction if `condition` holds.
    fn skip_if(&mut self, condition: bool)
        requires
            old(self)@.pc <= 4096,
        ensures
            final(self)@ == old(self)@.skip_if(condition),
    {
        proof {
            use_type_invariant(&*self);
        }
        if condition {
            self.pc += 2;
        }
    }

    /// Puts `value` in register `x`.
    fn set_v(&mut self, x: u8, value: u8)
        requires
            x < 16,
        ensures
            final(self)@ == old(self)@.set_v(x as int, value),
    {
        proof {
            use_type_invariant(&*self);
        }
        self.v_reg[x as usize] = value;
    }

    /// The first address past the end of memory that an access starting at `I` reaches.
    fn index_outside(&self) -> (e: EmuError)
        ensures
            e == (EmuError::MemoryOutOfBounds { addr: first_outside(self@.i as int) }),
    {
        let i = self.i_reg as usize;
        EmuError::MemoryOutOfBounds {
            addr: if i >= 4096 {
                i
            } else {
                4096
            },
        }
    }

    /// Stores the three decimal digits of `Vx` at `I`, `I + 1` and `I + 2`.
    fn store_bcd(&mut self, x: u8) -> (r: Result<(), EmuError>)
        requires
            x < 16,
        ensures
            agrees(
                old(self)@.execute(Instruction::StoreBcd { x }, 0),
                old(self)@,
                r,
                final(self)@,
            ),
    {
        proof {
            use_type_invariant(&*self);
        }
        let i = self.i_reg as usize;
        if i + 2 >= 4096 {
            return Err(self.index_outside());
        }
        let ghost s = self@;
        let vx = self.v_reg[x as usize];
        let hundreds = vx / 100;
        let tens = (vx / 10) % 10;
        let ones = vx % 10;
        self.ram[i] = hundreds;
        self.ram[i + 1] = tens;
        self.ram[i + 2] = ones;
        assert(self@ =~= s.write(i as int, seq![hundreds, tens, ones]));
        Ok(())
    }

    /// Copies `V0..=Vx` into memory from `I` on.
    fn store_regs(&mut self, x: u8) -> (r: Result<(), EmuError>)
        requires
            x < 16,
        ensures
            agrees(
                old(self)@.execute(Instruction::StoreRegs { x }, 0),
                old(self)@,
                r,
                final(self)@,
            ),
    {
        proof {
            use_type_invariant(&*self);
        }
        let i = self.i_reg as usize;
        let last = x as usize;
        if i + last >= 4096 {
            return Err(self.index_outside());
        }
        let ghost s = self@;
        let mut idx: usize = 0;
        while idx <= last
            invariant
                idx <= last + 1,
                last < 16,
                i + last < 4096,
                self.sp <= 16,
                s.wf(),
                self@ == s.write(i as int, s.v.subrange(0, idx as int)),
            decreases last + 1 - idx,
        {
            self.ram[i + idx] = self.v_reg[idx];
            idx += 1;
        }
        Ok(())
    }

    /// Copies memory from `I` on into `V0..=Vx`.
    fn load_regs(&mut self, x: u8) -> (r: Result<(), EmuError>)
        requires
            x < 16,
        ensures
            agrees(
                old(self)@.execute(Instruction::LoadRegs { x }, 0),
                old(self)@,
                r,
                final(self)@,
            ),
    {
        proof {
            use_type_invariant(&*self);
        }
        let i = self.i_reg as usize;
        let last = x as usize;
        if i + last >= 4096 {
            return Err(self.index_outside());
        }
        let ghost s = self@;
        let mut idx: usize = 0;
        while idx <= last
            invariant
                idx <= last + 1,
                last < 16,
                i + last < 4096,
                self.sp <= 16,
                s.wf(),
                self@ == (MachineState {
                    v: s.read(i as int, idx as int) + s.v.subrange(idx as int, 16),
                    ..s
                }),
            decreases last + 1 - idx,
        {
            self.v_reg[idx] = self.ram[i + idx];
            idx += 1;
        }
        Ok(())
    }

    /// Carries out `ins` on a machine whose program counter already points behind it.
    /// `random` is read by `Random` alone.
    pub(crate) fn execute(&mut self, ins: Instruction, random: u8) -> (r: Result<(), EmuError>)
        requires
            ins.wf(),
            2 <= old(self)@.pc <= 4096,
        ensures
            agrees(old(self)@.execute(ins, random), old(self)@, r, final(self)@),
    {
        proof {
            use_type_invariant(&*self);
        }
        let ghost s = self@;
        match ins {
            Instruction::Nop => {},
            Instruction::ClearScreen => {
                self.screen = [false;2048];
                assert(self@ =~= s.execute(ins, random)->Ok_0);
            },
            Instruction::Return => {
                let addr = self.pop()?;
                proof {
                    use_type_invariant(&*self);
                }
                self.pc = addr;
            },
            Instruction::Jump { addr } => {
                self.pc = addr;
            },
            Instruction::Call { addr } => {
                self.push(self.pc)?;
                proof {
                    use_type_invariant(&*self);
                }
                self.pc = addr;
            },
            Instruction::SkipEqImm { x, nn } => {
                self.skip_if(self.v_reg[x as usize] == nn);
            },
            Instruction::SkipNeImm { x, nn } => {
                self.skip_if(self.v_reg[x as usize] != nn);
            },
            Instruction::SkipEqReg { x, y } => {
                self.skip_if(self.v_reg[x as usize] == self.v_reg[y as usize]);
            },
            Instruction::LoadImm { x, nn } => {
                self.set_v(x, nn);
            },
            Instruction::AddImm { x, nn } => {
                let (sum, _) = add_with_carry(self.v_reg[x as usize], nn);
                self.set_v(x, sum);
            },
            Instruction::Move { x, y } => {
                self.set_v(x, self.v_reg[y as usize]);
            },
            Instruction::Or { x, y } => {
                self.set_v(x, self.v_reg[x as usize] | self.v_reg[y as usize]);
            },
            Instruction::And { x, y } => {
                self.set_v(x, self.v_reg[x as usize] & self.v_reg[y as usize]);
            },
            Instruction::Xor { x, y } => {
                self.set_v(x, self.v_reg[x as usize] ^ self.v_reg[y as usize]);
            },
            Instruction::AddReg { x, y } => {
                let (sum, carry) = add_with_carry(self.v_reg[x as usize], self.v_reg[y as usize]);
                self.set_v(x, sum);
                self.set_v(0xF, carry);
            },
            Instruction::SubReg { x, y } => {
                let (difference, no_borrow) = sub_with_borrow(
                    self.v_reg[x as usize],
                    self.v_reg[y as usize],
                );
                self.set_v(x, difference);
                self.set_v(0xF, no_borrow);
            },
            Instruction::ShiftRight { x } => {
                let (shifted, lsb) = shift_right(self.v_reg[x as usize]);
                self.set_v(x, shifted);
                self.set_v(0xF, lsb);
            },
            Instruction::SubFrom { x, y } => {
                let (difference, no_borrow) = sub_with_borrow(
                    self.v_reg[y as usize],
                    self.v_reg[x as usize],
                );
                self.set_v(x, difference);
                self.set_v(0xF, no_borrow);
            },
            Instruction::ShiftLeft { x } => {
                let (shifted, msb) = shift_left(self.v_reg[x as usize]);
                self.set_v(x, shifted);
                self.set_v(0xF, msb);
            },
            Instruction::SkipNeReg { x, y } => {
                self.skip_if(self.v_reg[x as usize] != self.v_reg[y as usize]);
            },
            Instruction::LoadIndex { addr } => {
                self.i_reg = addr;
            },
            Instruction::JumpOffset { addr } => {
                self.pc = (self.v_reg[0] as u16) + addr;
            },
            Instruction::Random { x, nn } => {
                self.set_v(x, random & nn);
            },
            Instruction::Draw { x, y, n } => {
                return self.draw(x, y, n);
            },
            Instruction::SkipKeyDown { x } => {
                let vx = self.v_reg[x as usize];
                if vx >= 16 {
                    return Err(EmuError::KeyOutOfRange { index: vx as usize });
                }
                self.skip_if(self.keys[vx as usize]);
            },
            Instruction::SkipKeyUp { x } => {
                let vx = self.v_reg[x as usize];
                if vx >= 16 {
                    return Err(EmuError::KeyOutOfRange { index: vx as usize });
                }
                self.skip_if(!self.keys[vx as usize]);
            },
            Instruction::ReadDelay { x } => {
                self.set_v(x, self.dt);
            },
            Instruction::WaitKey { x } => {
                match self.lowest_pressed_key() {
                    Some(key) => {
                        self.set_v(x, key);
                    },
                    None => {
                        self.pc -= 2;
                    },
                }
            },
            Instruction::SetDelay { x } => {
                self.dt = self.v_reg[x as usize];
            },
            Instruction::SetSound { x } => {
                self.st = self.v_reg[x as usize];
            },
            Instruction::AddIndex { x } => {
                self.i_reg = add_to_index(self.i_reg, self.v_reg[x as usize]);
            },
            Instruction::FontAddr { x } => {
                let c = self.v_reg[x as usize] as u16;
                self.i_reg = c * 5;
            },
            Instruction::StoreBcd { x } => {
                return self.store_bcd(x);
            },
            Instruction::StoreRegs { x } => {
                return self.store_regs(x);
            },
            Instruction::LoadRegs { x } => {
                return self.load_regs(x);
            },
        }
        Ok(())
    }

    /// Fetches, decodes and executes one instruction. With `injected` the byte for `Random`
    /// is the one given; without it, it is drawn from the entropy source, and only when the
    /// instruction is `Random`.
    fn cycle(&mut self, injected: Option<u8>) -> (r: Result<(), EmuError>)
        ensures
            exists|random: u8|
                (injected matches Some(byte) ==> random == byte) && #[trigger] agrees(
                    old(self)@.step(random),
                    old(self)@,
                    r,
                    final(self)@,
                ),
    {
        proof {
            use_type_invariant(&*self);
        }
        let ghost s = self@;
        let pc = self.pc;
        let op = match self.fetch() {
            Ok(op) => op,
            Err(e) => {
                let ghost random = match injected {
                    Some(byte) => byte,
                    None => 0u8,
                };
                assert(agrees(s.step(random), s, Err(e), self@));
                return Err(e);
            },
        };
        let ins = match decode(op) {
            Some(ins) => ins,
            None => {
                proof {
                    use_type_invariant(&*self);
                }
                self.pc = pc;
                let ghost random = match injected {
                    Some(byte) => byte,
                    None => 0u8,
                };
                let e = EmuError::UnimplementedOpcode { opcode: op, pc };
                assert(agrees(s.step(random), s, Err(e), self@));
                return Err(e);
            },
        };
        let random = match injected {
            Some(byte) => byte,
            None => match ins {
                Instruction::Random { .. } => random_byte(),
                _ => 0,
            },
        };
        let r = self.execute(ins, random);
        if r.is_err() {
            proof {
                use_type_invariant(&*self);
            }
            self.pc = pc;
        }
        assert(agrees(s.step(random), s, r, self@));
        r
    }

    /// Executes exactly one instruction, giving `random` to `Random` as its byte: the tick
    /// with the entropy source in the caller's hand.
    ///
    /// On an error nothing has happened: the machine stands where it stood, with the
    /// program counter on the instruction that failed.
    pub fn tick_with(&mut self, random: u8) -> (r: Result<(), EmuError>)
        ensures
            agrees(old(self)@.step(random), old(self)@, r, final(self)@),
            final(self)@.wf(),
    {
        let r = self.cycle(Some(random));
        proof {
            use_type_invariant(&*self);
        }
        r
    }

    /// Executes exactly one instruction. `Random` takes its byte from the generator of the
    /// `rand` crate, so that for some byte the tick is the step of the model with that byte.
    ///
    /// On an error nothing has happened: the machine stands where it stood, with the
    /// program counter on the instruction that failed.
    pub fn tick(&mut self) -> (r: Result<(), EmuError>)
        ensures
            exists|random: u8| #[trigger] agrees(old(self)@.step(random), old(self)@, r, final(self)@),
            !old(self)@.reads_entropy() ==> forall|random: u8|
                #[trigger] agrees(old(self)@.step(random), old(self)@, r, final(self)@),
            final(self)@.wf(),
    {
        let r = self.cycle(None);
        proof {
            use_type_invariant(&*self);
            let ghost s = old(self)@;
            if !s.reads_entropy() {
                let witness = choose|random: u8| #[trigger] agrees(s.step(random), s, r, self@);
                assert forall|random: u8| #[trigger] agrees(s.step(random), s, r, self@) by {
                    lemma_only_random_reads_entropy(s, witness, random);
                }
            }
        }
        r
    }
}

} // verus!
