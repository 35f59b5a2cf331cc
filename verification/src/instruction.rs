//! The instruction set and the decoding of instruction words.

use vstd::prelude::*;

verus! {

/// One decoded instruction. `x` and `y` name registers, `kk` is an immediate
/// byte, `addr` a twelve-bit address and `n` a sprite height.
#[derive(Debug, Clone, Copy, PartialEq, Eq, Structural)]
pub enum Instruction {
    /// `00E0`: clear the framebuffer.
    Cls,
    /// `00EE`: return from a subroutine.
    Ret,
    /// `1nnn`: jump to `addr`.
    Jp { addr: u16 },
    /// `2nnn`: call the subroutine at `addr`.
    Call { addr: u16 },
    /// `3xkk`: skip the next instruction if `Vx == kk`.
    SeByte { x: u8, kk: u8 },
    /// `4xkk`: skip the next instruction if `Vx != kk`.
    SneByte { x: u8, kk: u8 },
    /// `5xy0`: skip the next instruction if `Vx == Vy`.
    SeReg { x: u8, y: u8 },
    /// `6xkk`: `Vx = kk`.
    LdByte { x: u8, kk: u8 },
    /// `7xkk`: `Vx = Vx + kk`, wrapping, no flag.
    AddByte { x: u8, kk: u8 },
    /// `8xy0`: `Vx = Vy`.
    LdReg { x: u8, y: u8 },
    /// `8xy1`: `Vx = Vx | Vy`.
    Or { x: u8, y: u8 },
    /// `8xy2`: `Vx = Vx & Vy`.
    And { x: u8, y: u8 },
    /// `8xy3`: `Vx = Vx ^ Vy`.
    Xor { x: u8, y: u8 },
    /// `8xy4`: `Vx = Vx + Vy`, wrapping; `VF` is the carry.
    AddReg { x: u8, y: u8 },
    /// `8xy5`: `Vx = Vx - Vy`, wrapping; `VF` is 1 unless a borrow occurred.
    Sub { x: u8, y: u8 },
    /// `8x.6`: `Vx = Vx >> 1`; `VF` is the bit shifted out.
    Shr { x: u8 },
    /// `8xy7`: `Vx = Vy - Vx`, wrapping; `VF` is 1 unless a borrow occurred.
    Subn { x: u8, y: u8 },
    /// `8x.E`: `Vx = Vx << 1`; `VF` is the bit shifted out.
    Shl { x: u8 },
    /// `9xy0`: skip the next instruction if `Vx != Vy`.
    SneReg { x: u8, y: u8 },
    /// `Annn`: `I = addr`.
    LdI { addr: u16 },
    /// `Bnnn`: jump to `addr + V0`.
    JpV0 { addr: u16 },
    /// `Cxkk`: `Vx = random byte & kk`.
    Rnd { x: u8, kk: u8 },
    /// `Dxyn`: draw the `n`-row sprite at `I` at `(Vx, Vy)`; `VF` is the
    /// collision flag.
    Drw { x: u8, y: u8, n: u8 },
    /// `Ex9E`: skip the next instruction if key `Vx` is held down.
    Skp { x: u8 },
    /// `ExA1`: skip the next instruction if key `Vx` is not held down.
    Sknp { x: u8 },
    /// `Fx07`: `Vx = DT`.
    LdVxDt { x: u8 },
    /// `Fx0A`: wait for a key and store its index in `Vx`.
    LdVxKey { x: u8 },
    /// `Fx15`: `DT = Vx`.
    LdDtVx { x: u8 },
    /// `Fx18`: `ST = Vx`.
    LdStVx { x: u8 },
    /// `Fx1E`: `I = I + Vx`, kept within twelve bits.
    AddI { x: u8 },
    /// `Fx29`: `I` = address of the font glyph for the digit in `Vx`.
    LdFont { x: u8 },
    /// `Fx33`: store the three decimal digits of `Vx` at `I`, `I+1`, `I+2`.
    LdBcd { x: u8 },
    /// `Fx55`: store `V0..=Vx` in memory from `I` on.
    StoreRegs { x: u8 },
    /// `Fx65`: load `V0..=Vx` from memory from `I` on.
    LoadRegs { x: u8 },
}

impl Instruction {
    /// The operands are in range: register indices and sprite heights below
    /// 16, addresses below 4096.
    pub open spec fn wf(self) -> bool {
        match self {
            Instruction::Cls | Instruction::Ret => true,
            Instruction::Jp { addr }
            | Instruction::Call { addr }
            | Instruction::LdI { addr }
            | Instruction::JpV0 { addr } => addr < 0x1000,
            Instruction::SeByte { x, kk }
            | Instruction::SneByte { x, kk }
            | Instruction::LdByte { x, kk }
            | Instruction::AddByte { x, kk }
            | Instruction::Rnd { x, kk } => x < 16,
            Instruction::SeReg { x, y }
            | Instruction::LdReg { x, y }
            | Instruction::Or { x, y }
            | Instruction::And { x, y }
            | Instruction::Xor { x, y }
            | Instruction::AddReg { x, y }
            | Instruction::Sub { x, y }
            | Instruction::Subn { x, y }
            | Instruction::SneReg { x, y } => x < 16 && y < 16,
            Instruction::Drw { x, y, n } => x < 16 && y < 16 && n < 16,
            Instruction::Shr { x }
            | Instruction::Shl { x }
            | Instruction::Skp { x }
            | Instruction::Sknp { x }
            | Instruction::LdVxDt { x }
            | Instruction::LdVxKey { x }
            | Instruction::LdDtVx { x }
            | Instruction::LdStVx { x }
            | Instruction::AddI { x }
            | Instruction::LdFont { x }
            | Instruction::LdBcd { x }
            | Instruction::StoreRegs { x }
            | Instruction::LoadRegs { x } => x < 16,
        }
    }
}

/// The instruction that a sixteen-bit word stands for, if any. The word is
/// read as four nibbles, high to low: the first selects the class, the
/// second and third are `x` and `y`, the low byte is `kk`, the low twelve
/// bits are `addr`, the last nibble is `n`.
pub open spec fn decode_spec(opcode: u16) -> Option<Instruction> {
    let class = opcode / 0x1000;
    let x = ((opcode / 0x100) % 0x10) as u8;
    let y = ((opcode / 0x10) % 0x10) as u8;
    let n = (opcode % 0x10) as u8;
    let kk = (opcode % 0x100) as u8;
    let addr = (opcode % 0x1000) as u16;
    if opcode == 0x00E0 {
        Some(Instruction::Cls)
    } else if opcode == 0x00EE {
        Some(Instruction::Ret)
    } else if class == 0x1 {
        Some(Instruction::Jp { addr })
    } else if class == 0x2 {
        Some(Instruction::Call { addr })
    } else if class == 0x3 {
        Some(Instruction::SeByte { x, kk })
    } else if class == 0x4 {
        Some(Instruction::SneByte { x, kk })
    } else if class == 0x5 && n == 0x0 {
        Some(Instruction::SeReg { x, y })
    } else if class == 0x6 {
        Some(Instruction::LdByte { x, kk })
    } else if class == 0x7 {
        Some(Instruction::AddByte { x, kk })
    } else if class == 0x8 && n == 0x0 {
        Some(Instruction::LdReg { x, y })
    } else if class == 0x8 && n == 0x1 {
        Some(Instruction::Or { x, y })
    } else if class == 0x8 && n == 0x2 {
        Some(Instruction::And { x, y })
    } else if class == 0x8 && n == 0x3 {
        Some(Instruction::Xor { x, y })
    } else if class == 0x8 && n == 0x4 {
        Some(Instruction::AddReg { x, y })
    } else if class == 0x8 && n == 0x5 {
        Some(Instruction::Sub { x, y })
    } else if class == 0x8 && n == 0x6 {
        Some(Instruction::Shr { x })
    } else if class == 0x8 && n == 0x7 {
        Some(Instruction::Subn { x, y })
    } else if class == 0x8 && n == 0xE {
        Some(Instruction::Shl { x })
    } else if class == 0x9 && n == 0x0 {
        Some(Instruction::SneReg { x, y })
    } else if class == 0xA {
        Some(Instruction::LdI { addr })
    } else if class == 0xB {
        Some(Instruction::JpV0 { addr })
    } else if class == 0xC {
        Some(Instruction::Rnd { x, kk })
    } else if class == 0xD {
        Some(Instruction::Drw { x, y, n })
    } else if class == 0xE && kk == 0x9E {
        Some(Instruction::Skp { x })
    } else if class == 0xE && kk == 0xA1 {
        Some(Instruction::Sknp { x })
    } else if class == 0xF && kk == 0x07 {
        Some(Instruction::LdVxDt { x })
    } else if class == 0xF && kk == 0x0A {
        Some(Instruction::LdVxKey { x })
    } else if class == 0xF && kk == 0x15 {
        Some(Instruction::LdDtVx { x })
    } else if class == 0xF && kk == 0x18 {
        Some(Instruction::LdStVx { x })
    } else if class == 0xF && kk == 0x1E {
        Some(Instruction::AddI { x })
    } else if class == 0xF && kk == 0x29 {
        Some(Instruction::LdFont { x })
    } else if class == 0xF && kk == 0x33 {
        Some(Instruction::LdBcd { x })
    } else if class == 0xF && kk == 0x55 {
        Some(Instruction::StoreRegs { x })
    } else if class == 0xF && kk == 0x65 {
        Some(Instruction::LoadRegs { x })
    } else {
        None
    }
}

/// Whatever a word decodes to has its operands in range.
pub proof fn lemma_decode_wf(opcode: u16)
    ensures
        decode_spec(opcode) matches Some(instruction) ==> instruction.wf(),
{
}

/// Splits a word into its four nibbles, high to low.
fn nibbles(opcode: u16) -> (parts: (u8, u8, u8, u8))
    ensures
        parts.0 == opcode / 0x1000,
        parts.1 == (opcode / 0x100) % 0x10,
        parts.2 == (opcode / 0x10) % 0x10,
        parts.3 == opcode % 0x10,
{
    let first = (opcode & 0xF000) >> 12;
    let second = (opcode & 0x0F00) >> 8;
    let third = (opcode & 0x00F0) >> 4;
    let fourth = opcode & 0x000F;
    assert((opcode & 0xF000) >> 12 == opcode / 0x1000) by (bit_vector);
    assert((opcode & 0x0F00) >> 8 == (opcode / 0x100) % 0x10) by (bit_vector);
    assert((opcode & 0x00F0) >> 4 == (opcode / 0x10) % 0x10) by (bit_vector);
    assert(opcode & 0x000F == opcode % 0x10) by (bit_vector);
    (first as u8, second as u8, third as u8, fourth as u8)
}

/// Decodes one instruction word.
pub fn decode(opcode: u16) -> (instruction: Option<Instruction>)
    ensures
        instruction == decode_spec(opcode),
        instruction matches Some(decoded) ==> decoded.wf(),
{
    let (class, x, y, n) = nibbles(opcode);
    let kk = (opcode & 0x00FF) as u8;
    let addr = opcode & 0x0FFF;
    assert(opcode & 0x00FF == opcode % 0x100) by (bit_vector);
    assert(opcode & 0x0FFF == opcode % 0x1000) by (bit_vector);
    match (class, x, y, n) {
        (0x0, 0x0, 0xE, 0x0) => Some(Instruction::Cls),
        (0x0, 0x0, 0xE, 0xE) => Some(Instruction::Ret),
        (0x1, _, _, _) => Some(Instruction::Jp { addr }),
        (0x2, _, _, _) => Some(Instruction::Call { addr }),
        (0x3, _, _, _) => Some(Instruction::SeByte { x, kk }),
        (0x4, _, _, _) => Some(Instruction::SneByte { x, kk }),
        (0x5, _, _, 0x0) => Some(Instruction::SeReg { x, y }),
        (0x6, _, _, _) => Some(Instruction::LdByte { x, kk }),
        (0x7, _, _, _) => Some(Instruction::AddByte { x, kk }),
        (0x8, _, _, 0x0) => Some(Instruction::LdReg { x, y }),
        (0x8, _, _, 0x1) => Some(Instruction::Or { x, y }),
        (0x8, _, _, 0x2) => Some(Instruction::And { x, y }),
        (0x8, _, _, 0x3) => Some(Instruction::Xor { x, y }),
        (0x8, _, _, 0x4) => Some(Instruction::AddReg { x, y }),
        (0x8, _, _, 0x5) => Some(Instruction::Sub { x, y }),
        (0x8, _, _, 0x6) => Some(Instruction::Shr { x }),
        (0x8, _, _, 0x7) => Some(Instruction::Subn { x, y }),
        (0x8, _, _, 0xE) => Some(Instruction::Shl { x }),
        (0x9, _, _, 0x0) => Some(Instruction::SneReg { x, y }),
        (0xA, _, _, _) => Some(Instruction::LdI { addr }),
        (0xB, _, _, _) => Some(Instruction::JpV0 { addr }),
        (0xC, _, _, _) => Some(Instruction::Rnd { x, kk }),
        (0xD, _, _, _) => Some(Instruction::Drw { x, y, n }),
        (0xE, _, 0x9, 0xE) => Some(Instruction::Skp { x }),
        (0xE, _, 0xA, 0x1) => Some(Instruction::Sknp { x }),
        (0xF, _, 0x0, 0x7) => Some(Instruction::LdVxDt { x }),
        (0xF, _, 0x0, 0xA) => Some(Instruction::LdVxKey { x }),
        (0xF, _, 0x1, 0x5) => Some(Instruction::LdDtVx { x }),
        (0xF, _, 0x1, 0x8) => Some(Instruction::LdStVx { x }),
        (0xF, _, 0x1, 0xE) => Some(Instruction::AddI { x }),
        (0xF, _, 0x2, 0x9) => Some(Instruction::LdFont { x }),
        (0xF, _, 0x3, 0x3) => Some(Instruction::LdBcd { x }),
        (0xF, _, 0x5, 0x5) => Some(Instruction::StoreRegs { x }),
        (0xF, _, 0x6, 0x5) => Some(Instruction::LoadRegs { x }),
        _ => None,
    }
}

} // verus!
