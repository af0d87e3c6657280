//! What holds of the machine whatever its state: statements over the model that the
//! contracts of `Emu` speak of, each proved.

use crate::error::EmuError;
use crate::instruction::{decode_spec, Instruction};
use crate::model::{
    any_pressed, blit, erases, flag, is_lowest_pressed, lowest_pressed, sprite_bit, sprite_col,
    sprite_covers, sprite_row, MachineState, FONTSET, SCREEN_SIZE,
};
use vstd::prelude::*;

verus! {

/// The machine after one tick for each byte of `randoms`, in turn, each tick taking its byte
/// as what the entropy source gave. The first tick that fails ends the run with its error.
pub open spec fn run(s: MachineState, randoms: Seq<u8>) -> Result<MachineState, EmuError>
    decreases randoms.len(),
{
    if randoms.len() == 0 {
        Ok(s)
    } else {
        match s.step(randoms[0]) {
            Ok(next) => run(next, randoms.drop_first()),
            Err(e) => Err(e),
        }
    }
}

/// An instruction leaves every part of the machine at its size: in particular the call stack
/// never holds more than sixteen addresses.
pub proof fn lemma_execute_preserves_wf(s: MachineState, ins: Instruction, random: u8)
    requires
        s.wf(),
        ins.wf(),
    ensures
        s.execute(ins, random) matches Ok(t) ==> t.wf(),
{
}

/// A tick leaves every part of the machine at its size.
pub proof fn lemma_step_preserves_wf(s: MachineState, random: u8)
    requires
        s.wf(),
    ensures
        s.step(random) matches Ok(t) ==> t.wf(),
{
    if s.can_fetch() {
        match decode_spec(s.opcode()) {
            Some(ins) => {
                lemma_decode_wf(s.opcode());
                lemma_execute_preserves_wf(s.move_pc(2), ins, random);
            },
            None => {},
        }
    }
}

/// Whatever a word decodes to has its operands in range.
pub proof fn lemma_decode_wf(op: u16)
    ensures
        decode_spec(op) matches Some(ins) ==> ins.wf(),
{
}

/// The byte of the entropy source matters to `Random` and to nothing else: a tick on any
/// other instruction, or one that fails, comes out the same for every byte.
pub proof fn lemma_only_random_reads_entropy(s: MachineState, r1: u8, r2: u8)
    requires
        !s.reads_entropy(),
    ensures
        s.step(r1) == s.step(r2),
{
}

/// After an arithmetic instruction `VF` holds the flag of that instruction, also where `VF`
/// is itself the register that took the result:
/// `8xy4` sets it to 1 exactly when `Vx + Vy` is more than 255;
/// `8xy5` to 1 exactly when `Vx >= Vy`, `8xy7` to 1 exactly when `Vy >= Vx`;
/// `8xy6` to the lowest bit that `Vx` had and `8xyE` to the highest.
pub proof fn lemma_flag_conventions(s: MachineState, x: u8, y: u8, random: u8)
    requires
        s.wf(),
        x < 16,
        y < 16,
    ensures
        s.execute(Instruction::AddReg { x, y }, random) matches Ok(t) && t.v[0xF] == flag(
            s.v[x as int] + s.v[y as int] > 255,
        ),
        s.execute(Instruction::SubReg { x, y }, random) matches Ok(t) && t.v[0xF] == flag(
            s.v[x as int] >= s.v[y as int],
        ),
        s.execute(Instruction::SubFrom { x, y }, random) matches Ok(t) && t.v[0xF] == flag(
            s.v[y as int] >= s.v[x as int],
        ),
        s.execute(Instruction::ShiftRight { x }, random) matches Ok(t) && t.v[0xF] == s.v[x as int]
            & 1,
        s.execute(Instruction::ShiftLeft { x }, random) matches Ok(t) && t.v[0xF] == (s.v[x as int]
            >> 7) & 1,
{
    let vx = s.v[x as int];
    assert(vx & 1 == vx % 2) by (bit_vector);
    assert((vx >> 7) & 1 == vx / 128) by (bit_vector);
}

/// Where the flag is not the register that took the result, that register holds the result
/// in eight bits: the sum or the difference modulo 256, or `Vx` shifted by one bit.
pub proof fn lemma_arithmetic_results(s: MachineState, x: u8, y: u8, random: u8)
    requires
        s.wf(),
        x < 15,
        y < 16,
    ensures
        s.execute(Instruction::AddReg { x, y }, random) matches Ok(t) && t.v[x as int] == (s.v[x as int]
            + s.v[y as int]) % 256,
        s.execute(Instruction::SubReg { x, y }, random) matches Ok(t) && t.v[x as int] == (s.v[x as int]
            - s.v[y as int]) % 256,
        s.execute(Instruction::SubFrom { x, y }, random) matches Ok(t) && t.v[x as int] == (s.v[y as int]
            - s.v[x as int]) % 256,
        s.execute(Instruction::ShiftRight { x }, random) matches Ok(t) && t.v[x as int] == s.v[x as int]
            >> 1,
        s.execute(Instruction::ShiftLeft { x }, random) matches Ok(t) && t.v[x as int] == s.v[x as int]
            << 1,
{
    let vx = s.v[x as int];
    assert(vx >> 1 == vx / 2) by (bit_vector);
    assert(vx << 1 == (vx * 2) % 256) by (bit_vector);
}

/// Going `col` columns to the right of `x0`, round the right edge, and then asking how far
/// right of `x0` one stands gives `col` again; no other column of the display does.
proof fn lemma_col(x0: int, col: int, a: int)
    requires
        0 <= col < 64,
        0 <= a < 64,
    ensures
        (((x0 + col) % 64) - x0) % 64 == col,
        (a - x0) % 64 == col ==> a == (x0 + col) % 64,
{
}

/// The same for rows, which wrap at the bottom edge.
proof fn lemma_row(y0: int, row: int, b: int)
    requires
        0 <= row < 32,
        0 <= b < 32,
    ensures
        (((y0 + row) % 32) - y0) % 32 == row,
        (b - y0) % 32 == row ==> b == (y0 + row) % 32,
{
}

/// The pixel in row `row` and column `col` of a sprite drawn at `(x0, y0)` lands in column
/// `(x0 + col) mod 64` of row `(y0 + row) mod 32` of the display: past the right edge it
/// comes back on the left, past the bottom edge at the top, and nothing is clipped. No other
/// pixel of the sprite lands there.
pub proof fn lemma_sprite_lands(sprite: Seq<u8>, x0: int, y0: int, row: int, col: int)
    requires
        0 <= row < sprite.len() <= 32,
        0 <= col < 8,
    ensures
        ({
            let p = (x0 + col) % 64 + 64 * ((y0 + row) % 32);
            &&& 0 <= p < SCREEN_SIZE
            &&& sprite_col(x0, p) == col
            &&& sprite_row(y0, p) == row
            &&& sprite_covers(sprite, x0, y0, p) == sprite_bit(sprite[row], col)
            &&& forall|q: int|
                0 <= q < SCREEN_SIZE && #[trigger] sprite_col(x0, q) == col && #[trigger] sprite_row(
                    y0,
                    q,
                ) == row ==> q == p
        }),
{
    let a = (x0 + col) % 64;
    let b = (y0 + row) % 32;
    let p = a + 64 * b;
    assert(p % 64 == a && p / 64 == b);
    lemma_col(x0, col, a);
    lemma_row(y0, row, b);
    assert forall|q: int|
        0 <= q < SCREEN_SIZE && #[trigger] sprite_col(x0, q) == col && #[trigger] sprite_row(y0, q)
            == row implies q == p by {
        lemma_col(x0, col, q % 64);
        lemma_row(y0, row, q / 64);
    }
}

/// Every position that a sprite drawn at `(x0, y0)` covers is where one of its set bits
/// lands: the bit in row `sprite_row` and column `sprite_col` of that position.
pub proof fn lemma_covered_position(sprite: Seq<u8>, x0: int, y0: int, p: int)
    requires
        0 <= p < SCREEN_SIZE,
        sprite_covers(sprite, x0, y0, p),
    ensures
        ({
            let row = sprite_row(y0, p);
            let col = sprite_col(x0, p);
            &&& 0 <= row < sprite.len()
            &&& 0 <= col < 8
            &&& sprite_bit(sprite[row], col)
            &&& p == (x0 + col) % 64 + 64 * ((y0 + row) % 32)
        }),
{
    lemma_col(x0, sprite_col(x0, p), p % 64);
    lemma_row(y0, sprite_row(y0, p), p / 64);
}

/// Drawing a sprite twice at one place gives back the display that was there before the
/// first draw. The second draw switches a lit pixel off, and so reports a collision,
/// exactly when the sprite has a pixel where the display was dark before the first draw.
pub proof fn lemma_blit_twice(screen: Seq<bool>, sprite: Seq<u8>, x0: int, y0: int)
    requires
        screen.len() == SCREEN_SIZE,
    ensures
        blit(blit(screen, sprite, x0, y0), sprite, x0, y0) == screen,
        erases(blit(screen, sprite, x0, y0), sprite, x0, y0) <==> exists|p: int|
            0 <= p < SCREEN_SIZE && !screen[p] && sprite_covers(sprite, x0, y0, p),
{
    let once = blit(screen, sprite, x0, y0);
    assert(blit(once, sprite, x0, y0) =~= screen);
    if erases(once, sprite, x0, y0) {
        let p = choose|p: int| 0 <= p < SCREEN_SIZE && once[p] && sprite_covers(sprite, x0, y0, p);
        assert(!screen[p] && sprite_covers(sprite, x0, y0, p));
    }
    if exists|p: int| 0 <= p < SCREEN_SIZE && !screen[p] && sprite_covers(sprite, x0, y0, p) {
        let p = choose|p: int|
            0 <= p < SCREEN_SIZE && !screen[p] && sprite_covers(sprite, x0, y0, p);
        assert(once[p] && sprite_covers(sprite, x0, y0, p));
    }
}

/// The same of the machine: when a draw instruction has run and is run again with `Vx` and
/// `Vy` as they were (the first draw writes `VF`, so this leaves out `x` or `y` being 15
/// where the flag changed), the display is the one from before the first draw, and `VF` is 1
/// exactly when the sprite has a pixel where that display was dark.
pub proof fn lemma_draw_twice(s: MachineState, x: u8, y: u8, n: u8, r1: u8, r2: u8)
    requires
        s.wf(),
        x < 16,
        y < 16,
        n < 16,
        s.execute(Instruction::Draw { x, y, n }, r1) matches Ok(once) && once.v[x as int]
            == s.v[x as int] && once.v[y as int] == s.v[y as int],
    ensures
        s.execute(Instruction::Draw { x, y, n }, r1) matches Ok(once) && once.execute(
            Instruction::Draw { x, y, n },
            r2,
        ) matches Ok(twice) && twice.screen == s.screen && twice.v[0xF] == flag(
            exists|p: int|
                0 <= p < SCREEN_SIZE && !s.screen[p] && sprite_covers(
                    s.read(s.i as int, n as int),
                    s.v[x as int] as int,
                    s.v[y as int] as int,
                    p,
                ),
        ),
{
    let sprite = s.read(s.i as int, n as int);
    let once = s.execute(Instruction::Draw { x, y, n }, r1)->Ok_0;
    assert(once.read(once.i as int, n as int) =~= sprite);
    lemma_blit_twice(s.screen, sprite, s.v[x as int] as int, s.v[y as int] as int);
}

/// The machine at power-on, which is the machine after `reset` whatever it was before: the
/// display is dark, the first eighty bytes of memory are the glyph table and the rest of
/// memory is zero, the call stack is empty and no key is down.
pub proof fn lemma_initial_state()
    ensures
        MachineState::initial().wf(),
        MachineState::initial().pc == 0x200,
        forall|p: int| 0 <= p < SCREEN_SIZE ==> !(#[trigger] MachineState::initial().screen[p]),
        MachineState::initial().ram.subrange(0, 80) == FONTSET@,
        forall|a: int| 80 <= a < 4096 ==> #[trigger] MachineState::initial().ram[a] == 0,
        MachineState::initial().stack.len() == 0,
        !any_pressed(MachineState::initial().keys),
{
}

/// The key that `Fx0A` stores is the one that `is_lowest_pressed` picks: there is one such
/// key whenever any key is down, and no other.
pub proof fn lemma_lowest_pressed(keys: Seq<bool>, k: int)
    requires
        is_lowest_pressed(keys, k),
    ensures
        any_pressed(keys),
        lowest_pressed(keys) == k,
{
    let c = lowest_pressed(keys);
    assert(is_lowest_pressed(keys, c));
    if c < k {
        assert(!keys[c]);
    } else if k < c {
        assert(!keys[k]);
    }
}

/// Whenever a key is down, one of them is the lowest.
pub proof fn lemma_some_key_is_lowest(keys: Seq<bool>)
    requires
        any_pressed(keys),
    ensures
        is_lowest_pressed(keys, lowest_pressed(keys)),
{
    let w = choose|k: int| 0 <= k < keys.len() && keys[k];
    lemma_lowest_below(keys, w);
}

/// Below a key that is down there is a lowest one.
proof fn lemma_lowest_below(keys: Seq<bool>, w: int)
    requires
        0 <= w < keys.len(),
        keys[w],
    ensures
        exists|k: int| is_lowest_pressed(keys, k),
    decreases w,
{
    if exists|j: int| 0 <= j < w && keys[j] {
        let j = choose|j: int| 0 <= j < w && keys[j];
        lemma_lowest_below(keys, j);
    } else {
        assert(is_lowest_pressed(keys, w));
    }
}

/// While no key is down, a machine that stands on `Fx0A` stays where it is, tick after
/// tick: each tick moves the program counter behind the instruction and back onto it, and
/// changes nothing else, `Vx` included.
pub proof fn lemma_key_wait_holds(s: MachineState, x: u8, randoms: Seq<u8>)
    requires
        s.wf(),
        s.can_fetch(),
        decode_spec(s.opcode()) == Some(Instruction::WaitKey { x }),
        !any_pressed(s.keys),
    ensures
        run(s, randoms) == Ok::<MachineState, EmuError>(s),
    decreases randoms.len(),
{
    if randoms.len() > 0 {
        assert(s.step(randoms[0]) == Ok::<MachineState, EmuError>(s));
        lemma_key_wait_holds(s, x, randoms.drop_first());
    }
}

/// Once a key is down, one tick takes the machine over `Fx0A`: the program counter stands
/// behind the instruction, `Vx` holds the lowest key that is down, and nothing else changed.
pub proof fn lemma_key_wait_captures(s: MachineState, x: u8, random: u8)
    requires
        s.wf(),
        s.can_fetch(),
        decode_spec(s.opcode()) == Some(Instruction::WaitKey { x }),
        any_pressed(s.keys),
    ensures
        is_lowest_pressed(s.keys, lowest_pressed(s.keys)),
        s.step(random) == Ok::<MachineState, EmuError>(
            MachineState {
                pc: (s.pc + 2) as u16,
                v: s.v.update(x as int, lowest_pressed(s.keys) as u8),
                ..s
            },
        ),
{
    lemma_some_key_is_lowest(s.keys);
}

} // verus!
