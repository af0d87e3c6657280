use vstd::prelude::*;

verus! {

/// One decoded instruction.
///
/// `x` and `y` name registers, `nn` is the low byte of the opcode, `addr` its low twelve bits
/// and `n` its low nibble.
#[derive(Clone, Copy, Debug, PartialEq, Eq, Structural)]
pub enum Instruction {
    /// `0000`: do nothing.
    Nop,
    /// `00E0`: switch every pixel off.
    ClearScreen,
    /// `00EE`: return from a subroutine.
    Return,
    /// `1nnn`: jump to `addr`.
    Jump { addr: u16 },
    /// `2nnn`: call the subroutine at `addr`.
    Call { addr: u16 },
    /// `3xnn`: skip the next instruction if `Vx == nn`.
    SkipEqImm { x: u8, nn: u8 },
    /// `4xnn`: skip the next instruction if `Vx != nn`.
    SkipNeImm { x: u8, nn: u8 },
    /// `5xy0`: skip the next instruction if `Vx == Vy`.
    SkipEqReg { x: u8, y: u8 },
    /// `6xnn`: `Vx = nn`.
    LoadImm { x: u8, nn: u8 },
    /// `7xnn`: `Vx = Vx + nn`, wrapping, flag untouched.
    AddImm { x: u8, nn: u8 },
    /// `8xy0`: `Vx = Vy`.
    Move { x: u8, y: u8 },
    /// `8xy1`: `Vx = Vx | Vy`.
    Or { x: u8, y: u8 },
    /// `8xy2`: `Vx = Vx & Vy`.
    And { x: u8, y: u8 },
    /// `8xy3`: `Vx = Vx ^ Vy`.
    Xor { x: u8, y: u8 },
    /// `8xy4`: `Vx = Vx + Vy`, wrapping; `VF` is the carry.
    AddReg { x: u8, y: u8 },
    /// `8xy5`: `Vx = Vx - Vy`, wrapping; `VF` is 1 when nothing was borrowed, that is when
    /// `Vx >= Vy`. The flag goes to `VF`, never to `Vy`.
    SubReg { x: u8, y: u8 },
    /// `8xy6`: `Vx = Vx >> 1`; `VF` is the bit shifted out. `y` plays no part.
    ShiftRight { x: u8 },
    /// `8xy7`: `Vx = Vy - Vx`, wrapping; `VF` is 1 when nothing was borrowed, that is when
    /// `Vy >= Vx`.
    SubFrom { x: u8, y: u8 },
    /// `8xyE`: `Vx = Vx << 1`; `VF` is the bit shifted out. `y` plays no part.
    ShiftLeft { x: u8 },
    /// `9xy0`: skip the next instruction if `Vx != Vy`.
    SkipNeReg { x: u8, y: u8 },
    /// `Annn`: `I = addr`.
    LoadIndex { addr: u16 },
    /// `Bnnn`: jump to `V0 + addr`.
    JumpOffset { addr: u16 },
    /// `Cxnn`: `Vx = random byte & nn`.
    Random { x: u8, nn: u8 },
    /// `Dxyn`: draw the `n`-row sprite at `I` at `(Vx, Vy)`; `VF` is 1 when a lit pixel went
    /// off, else 0.
    Draw { x: u8, y: u8, n: u8 },
    /// `Ex9E`: skip the next instruction if key `Vx` is down.
    SkipKeyDown { x: u8 },
    /// `ExA1`: skip the next instruction if key `Vx` is up.
    SkipKeyUp { x: u8 },
    /// `Fx07`: `Vx = DT`.
    ReadDelay { x: u8 },
    /// `Fx0A`: wait for a key, then `Vx =` the lowest key that is down. While no key is
    /// down the machine steps back onto this instruction, so that the next tick meets it
    /// again, and `Vx` keeps the value it had.
    WaitKey { x: u8 },
    /// `Fx15`: `DT = Vx`.
    SetDelay { x: u8 },
    /// `Fx18`: `ST = Vx`.
    SetSound { x: u8 },
    /// `Fx1E`: `I = I + Vx`, wrapping.
    AddIndex { x: u8 },
    /// `Fx29`: `I =` the address of the glyph for `Vx`.
    FontAddr { x: u8 },
    /// `Fx33`: store the three decimal digits of `Vx` at `I`, `I + 1`, `I + 2`.
    StoreBcd { x: u8 },
    /// `Fx55`: store `V0..=Vx` at `I..`.
    StoreRegs { x: u8 },
    /// `Fx65`: load `V0..=Vx` from `I..`.
    LoadRegs { x: u8 },
}

impl Instruction {
    /// The operands are in the ranges that an opcode can hold: register numbers and the row
    /// count below 16, addresses below 4096.
    pub open spec fn wf(self) -> bool {
        match self {
            Instruction::Nop | Instruction::ClearScreen | Instruction::Return => true,
            Instruction::Jump { addr }
            | Instruction::Call { addr }
            | Instruction::LoadIndex { addr }
            | Instruction::JumpOffset { addr } => addr < 4096,
            Instruction::SkipEqImm { x, nn }
            | Instruction::SkipNeImm { x, nn }
            | Instruction::LoadImm { x, nn }
            | Instruction::AddImm { x, nn }
            | Instruction::Random { x, nn } => x < 16,
            Instruction::SkipEqReg { x, y }
            | Instruction::Move { x, y }
            | Instruction::Or { x, y }
            | Instruction::And { x, y }
            | Instruction::Xor { x, y }
            | Instruction::AddReg { x, y }
            | Instruction::SubReg { x, y }
            | Instruction::SubFrom { x, y }
            | Instruction::SkipNeReg { x, y } => x < 16 && y < 16,
            Instruction::ShiftRight { x }
            | Instruction::ShiftLeft { x }
            | Instruction::SkipKeyDown { x }
            | Instruction::SkipKeyUp { x }
            | Instruction::ReadDelay { x }
            | Instruction::WaitKey { x }
            | Instruction::SetDelay { x }
            | Instruction::SetSound { x }
            | Instruction::AddIndex { x }
            | Instruction::FontAddr { x }
            | Instruction::StoreBcd { x }
            | Instruction::StoreRegs { x }
            | Instruction::LoadRegs { x } => x < 16,
            Instruction::Draw { x, y, n } => x < 16 && y < 16 && n < 16,
        }
    }
}

/// The nibble of `op` at `place`, counted from the lowest (place 0) to the highest (place 3).
pub open spec fn nibble(op: u16, place: int) -> u8 {
    if place == 0 {
        (op % 16) as u8
    } else if place == 1 {
        ((op / 16) % 16) as u8
    } else if place == 2 {
        ((op / 256) % 16) as u8
    } else {
        (op / 4096) as u8
    }
}

/// The low byte of `op`.
pub open spec fn low_byte(op: u16) -> u8 {
    (op % 256) as u8
}

/// The low twelve bits of `op`.
pub open spec fn low_addr(op: u16) -> u16 {
    (op % 4096) as u16
}

/// What the word `op` means: the instruction whose pattern it matches, or `None` when it
/// matches none. The highest nibble picks the family; the families `0`, `5`, `8`, `9`, `E`
/// and `F` look at the lower nibbles too.
pub open spec fn decode_spec(op: u16) -> Option<Instruction> {
    let x = nibble(op, 2);
    let y = nibble(op, 1);
    let n = nibble(op, 0);
    let nn = low_byte(op);
    let addr = low_addr(op);
    match nibble(op, 3) {
        0 => if op == 0x0000 {
            Some(Instruction::Nop)
        } else if op == 0x00E0 {
            Some(Instruction::ClearScreen)
        } else if op == 0x00EE {
            Some(Instruction::Return)
        } else {
            None
        },
        1 => Some(Instruction::Jump { addr }),
        2 => Some(Instruction::Call { addr }),
        3 => Some(Instruction::SkipEqImm { x, nn }),
        4 => Some(Instruction::SkipNeImm { x, nn }),
        5 => if n == 0 {
            Some(Instruction::SkipEqReg { x, y })
        } else {
            None
        },
        6 => Some(Instruction::LoadImm { x, nn }),
        7 => Some(Instruction::AddImm { x, nn }),
        8 => match n {
            0 => Some(Instruction::Move { x, y }),
            1 => Some(Instruction::Or { x, y }),
            2 => Some(Instruction::And { x, y }),
            3 => Some(Instruction::Xor { x, y }),
            4 => Some(Instruction::AddReg { x, y }),
            5 => Some(Instruction::SubReg { x, y }),
            6 => Some(Instruction::ShiftRight { x }),
            7 => Some(Instruction::SubFrom { x, y }),
            0xE => Some(Instruction::ShiftLeft { x }),
            _ => None,
        },
        9 => if n == 0 {
            Some(Instruction::SkipNeReg { x, y })
        } else {
            None
        },
        0xA => Some(Instruction::LoadIndex { addr }),
        0xB => Some(Instruction::JumpOffset { addr }),
        0xC => Some(Instruction::Random { x, nn }),
        0xD => Some(Instruction::Draw { x, y, n }),
        0xE => match nn {
            0x9E => Some(Instruction::SkipKeyDown { x }),
            0xA1 => Some(Instruction::SkipKeyUp { x }),
            _ => None,
        },
        _ => match nn {
            0x07 => Some(Instruction::ReadDelay { x }),
            0x0A => Some(Instruction::WaitKey { x }),
            0x15 => Some(Instruction::SetDelay { x }),
            0x18 => Some(Instruction::SetSound { x }),
            0x1E => Some(Instruction::AddIndex { x }),
            0x29 => Some(Instruction::FontAddr { x }),
            0x33 => Some(Instruction::StoreBcd { x }),
            0x55 => Some(Instruction::StoreRegs { x }),
            0x65 => Some(Instruction::LoadRegs { x }),
            _ => None,
        },
    }
}

/// Splits `op` into its four nibbles and matches them against the instruction patterns.
#[verifier::when_used_as_spec(decode_spec)]
pub fn decode(op: u16) -> (ins: Option<Instruction>)
    ensures
        ins == decode_spec(op),
        ins matches Some(i) ==> i.wf(),
{
    let digit1 = (op & 0xF000) >> 12;
    let digit2 = (op & 0x0F00) >> 8;
    let digit3 = (op & 0x00F0) >> 4;
    let digit4 = op & 0x000F;
    assert(digit1 == op / 4096 && digit1 < 16) by (bit_vector)
        requires
            digit1 == (op & 0xF000) >> 12,
    ;
    assert(digit2 == (op / 256) % 16 && digit2 < 16) by (bit_vector)
        requires
            digit2 == (op & 0x0F00) >> 8,
    ;
    assert(digit3 == (op / 16) % 16 && digit3 < 16) by (bit_vector)
        requires
            digit3 == (op & 0x00F0) >> 4,
    ;
    assert(digit4 == op % 16 && digit4 < 16) by (bit_vector)
        requires
            digit4 == op & 0x000F,
    ;
    assert(op & 0xFF == op % 256) by (bit_vector);
    assert(op & 0xFFF == op % 4096) by (bit_vector);
    assert(digit3 * 16 + digit4 == op % 256) by (bit_vector)
        requires
            digit3 == (op & 0x00F0) >> 4,
            digit4 == op & 0x000F,
    ;
    let x = digit2 as u8;
    let y = digit3 as u8;
    let n = digit4 as u8;
    let nn = (op & 0xFF) as u8;
    let addr = op & 0xFFF;
    match (digit1, digit2, digit3, digit4) {
        (0, 0, 0, 0) => Some(Instruction::Nop),
        (0, 0, 0xE, 0) => Some(Instruction::ClearScreen),
        (0, 0, 0xE, 0xE) => Some(Instruction::Return),
        (1, _, _, _) => Some(Instruction::Jump { addr }),
        (2, _, _, _) => Some(Instruction::Call { addr }),
        (3, _, _, _) => Some(Instruction::SkipEqImm { x, nn }),
        (4, _, _, _) => Some(Instruction::SkipNeImm { x, nn }),
        (5, _, _, 0) => Some(Instruction::SkipEqReg { x, y }),
        (6, _, _, _) => Some(Instruction::LoadImm { x, nn }),
        (7, _, _, _) => Some(Instruction::AddImm { x, nn }),
        (8, _, _, 0) => Some(Instruction::Move { x, y }),
        (8, _, _, 1) => Some(Instruction::Or { x, y }),
        (8, _, _, 2) => Some(Instruction::And { x, y }),
        (8, _, _, 3) => Some(Instruction::Xor { x, y }),
        (8, _, _, 4) => Some(Instruction::AddReg { x, y }),
        (8, _, _, 5) => Some(Instruction::SubReg { x, y }),
        (8, _, _, 6) => Some(Instruction::ShiftRight { x }),
        (8, _, _, 7) => Some(Instruction::SubFrom { x, y }),
        (8, _, _, 0xE) => Some(Instruction::ShiftLeft { x }),
        (9, _, _, 0) => Some(Instruction::SkipNeReg { x, y }),
        (0xA, _, _, _) => Some(Instruction::LoadIndex { addr }),
        (0xB, _, _, _) => Some(Instruction::JumpOffset { addr }),
        (0xC, _, _, _) => Some(Instruction::Random { x, nn }),
        (0xD, _, _, _) => Some(Instruction::Draw { x, y, n }),
        (0xE, _, 9, 0xE) => Some(Instruction::SkipKeyDown { x }),
        (0xE, _, 0xA, 1) => Some(Instruction::SkipKeyUp { x }),
        (0xF, _, 0, 7) => Some(Instruction::ReadDelay { x }),
        (0xF, _, 0, 0xA) => Some(Instruction::WaitKey { x }),
        (0xF, _, 1, 5) => Some(Instruction::SetDelay { x }),
        (0xF, _, 1, 8) => Some(Instruction::SetSound { x }),
        (0xF, _, 1, 0xE) => Some(Instruction::AddIndex { x }),
        (0xF, _, 2, 9) => Some(Instruction::FontAddr { x }),
        (0xF, _, 3, 3) => Some(Instruction::StoreBcd { x }),
        (0xF, _, 5, 5) => Some(Instruction::StoreRegs { x }),
        (0xF, _, 6, 5) => Some(Instruction::LoadRegs { x }),
        (_, _, _, _) => None,
    }
}

} // verus!
