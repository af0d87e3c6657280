use chip8_core::{decode, Instruction};

#[test]
fn decode_system_family() {
    assert_eq!(decode(0x0000), Some(Instruction::Nop));
    assert_eq!(decode(0x00E0), Some(Instruction::ClearScreen));
    assert_eq!(decode(0x00EE), Some(Instruction::Return));
    assert_eq!(decode(0x00E1), None);
    assert_eq!(decode(0x0123), None);
    assert_eq!(decode(0x0001), None);
}

#[test]
fn decode_flow_families() {
    assert_eq!(decode(0x1ABC), Some(Instruction::Jump { addr: 0xABC }));
    assert_eq!(decode(0x2FFF), Some(Instruction::Call { addr: 0xFFF }));
    assert_eq!(decode(0xA23A), Some(Instruction::LoadIndex { addr: 0x23A }));
    assert_eq!(decode(0xB000), Some(Instruction::JumpOffset { addr: 0 }));
}

#[test]
fn decode_immediate_families() {
    assert_eq!(decode(0x3A12), Some(Instruction::SkipEqImm { x: 0xA, nn: 0x12 }));
    assert_eq!(decode(0x4BFF), Some(Instruction::SkipNeImm { x: 0xB, nn: 0xFF }));
    assert_eq!(decode(0x600A), Some(Instruction::LoadImm { x: 0, nn: 0x0A }));
    assert_eq!(decode(0x7F01), Some(Instruction::AddImm { x: 0xF, nn: 1 }));
    assert_eq!(decode(0xC7F0), Some(Instruction::Random { x: 7, nn: 0xF0 }));
}

#[test]
fn decode_register_families() {
    assert_eq!(decode(0x5120), Some(Instruction::SkipEqReg { x: 1, y: 2 }));
    assert_eq!(decode(0x5121), None);
    assert_eq!(decode(0x9120), Some(Instruction::SkipNeReg { x: 1, y: 2 }));
    assert_eq!(decode(0x912F), None);
    assert_eq!(decode(0x8AB0), Some(Instruction::Move { x: 0xA, y: 0xB }));
    assert_eq!(decode(0x8AB1), Some(Instruction::Or { x: 0xA, y: 0xB }));
    assert_eq!(decode(0x8AB2), Some(Instruction::And { x: 0xA, y: 0xB }));
    assert_eq!(decode(0x8AB3), Some(Instruction::Xor { x: 0xA, y: 0xB }));
    assert_eq!(decode(0x8014), Some(Instruction::AddReg { x: 0, y: 1 }));
    assert_eq!(decode(0x8AB5), Some(Instruction::SubReg { x: 0xA, y: 0xB }));
    assert_eq!(decode(0x8AB6), Some(Instruction::ShiftRight { x: 0xA }));
    assert_eq!(decode(0x8AB7), Some(Instruction::SubFrom { x: 0xA, y: 0xB }));
    assert_eq!(decode(0x8ABE), Some(Instruction::ShiftLeft { x: 0xA }));
    assert_eq!(decode(0x8AB8), None);
    assert_eq!(decode(0x8ABD), None);
    assert_eq!(decode(0x8ABF), None);
}

#[test]
fn decode_draw() {
    assert_eq!(decode(0xD125), Some(Instruction::Draw { x: 1, y: 2, n: 5 }));
    assert_eq!(decode(0xDFF0), Some(Instruction::Draw { x: 0xF, y: 0xF, n: 0 }));
}

#[test]
fn decode_key_family() {
    assert_eq!(decode(0xE39E), Some(Instruction::SkipKeyDown { x: 3 }));
    assert_eq!(decode(0xE3A1), Some(Instruction::SkipKeyUp { x: 3 }));
    assert_eq!(decode(0xE39F), None);
    assert_eq!(decode(0xE3A0), None);
    assert_eq!(decode(0xE000), None);
}

#[test]
fn decode_f_family() {
    assert_eq!(decode(0xF207), Some(Instruction::ReadDelay { x: 2 }));
    assert_eq!(decode(0xF20A), Some(Instruction::WaitKey { x: 2 }));
    assert_eq!(decode(0xF215), Some(Instruction::SetDelay { x: 2 }));
    assert_eq!(decode(0xF218), Some(Instruction::SetSound { x: 2 }));
    assert_eq!(decode(0xF21E), Some(Instruction::AddIndex { x: 2 }));
    assert_eq!(decode(0xF229), Some(Instruction::FontAddr { x: 2 }));
    assert_eq!(decode(0xF033), Some(Instruction::StoreBcd { x: 0 }));
    assert_eq!(decode(0xF255), Some(Instruction::StoreRegs { x: 2 }));
    assert_eq!(decode(0xF265), Some(Instruction::LoadRegs { x: 2 }));
    assert_eq!(decode(0xF200), None);
    assert_eq!(decode(0xF2FF), None);
    assert_eq!(decode(0xFFFF), None);
}

#[test]
fn decode_finds_thirty_five_instructions_in_every_family_sample() {
    let mut known: u32 = 0;
    let mut unknown: u32 = 0;
    for op in 0..=0xFFFFu16 {
        match decode(op) {
            Some(_) => known += 1,
            None => unknown += 1,
        }
    }
    // 0nnn: 3; 1, 2, 3, 4, 6, 7, A, B, C, D: 4096 each; 5 and 9: 256 each; 8: 9 * 256;
    // E: 2 * 16; F: 9 * 16.
    assert_eq!(known, 3 + 10 * 4096 + 2 * 256 + 9 * 256 + 2 * 16 + 9 * 16);
    assert_eq!(known + unknown, 65536);
}
