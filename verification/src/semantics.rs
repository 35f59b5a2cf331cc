//! What each operation of the machine does, as functions on the abstract
//! state.

use vstd::prelude::*;
use crate::fault::Fault;
use crate::instruction::{decode_spec, Instruction};
use crate::state::{MachineState, DISPLAY_SIZE, RAM_SIZE, RAM_START_ADDR};

verus! {

/// The word at the program counter, high byte first; a fault if the two
/// bytes do not both lie in memory.
pub open spec fn fetch_spec(m: MachineState) -> Result<u16, Fault> {
    if m.pc + 1 < RAM_SIZE {
        Ok((m.memory[m.pc as int] * 256 + m.memory[m.pc + 1]) as u16)
    } else {
        Err(Fault::MemoryOutOfBounds { address: m.pc })
    }
}

/// Address of the instruction after the current one.
pub open spec fn next_pc(m: MachineState) -> u16 {
    (m.pc + 2) as u16
}

/// Address of the instruction after the next one.
pub open spec fn skip_pc(m: MachineState) -> u16 {
    (m.pc + 4) as u16
}

/// Moves on, over the next instruction if `taken`.
pub open spec fn branch(m: MachineState, taken: bool) -> MachineState {
    MachineState { pc: if taken { skip_pc(m) } else { next_pc(m) }, ..m }
}

/// Writes `Vx` and moves on.
pub open spec fn write_reg(m: MachineState, x: u8, value: u8) -> MachineState {
    MachineState { v: m.v.update(x as int, value), pc: next_pc(m), ..m }
}

/// Writes `Vx`, then the flag into `VF`, and moves on. Where `x` is `0xF`
/// the flag is what remains.
pub open spec fn write_reg_flag(m: MachineState, x: u8, value: u8, flag: bool) -> MachineState {
    MachineState {
        v: m.v.update(x as int, value).update(0xF, if flag { 1u8 } else { 0u8 }),
        pc: next_pc(m),
        ..m
    }
}

/// The framebuffer with every cell off.
pub open spec fn blank_display() -> Seq<bool> {
    Seq::new(DISPLAY_SIZE as nat, |cell: int| false)
}

/// Whether column `col` of a sprite row is set; column 0 is the most
/// significant bit and the leftmost pixel.
pub open spec fn sprite_bit(row: u8, col: u8) -> bool {
    row & (0x80u8 >> col) != 0
}

/// The cell on which column `col` of row `row` of a sprite lands when the
/// sprite is drawn at `(vx, vy)`. Each coordinate wraps on its own axis.
pub open spec fn target_cell(vx: u8, vy: u8, row: int, col: int) -> int {
    (vx + col) % 64 + 64 * ((vy + row) % 32)
}

/// Whether drawing `sprite` at `(vx, vy)` toggles `cell`: one of its set bits
/// lands there.
pub open spec fn sprite_toggles(sprite: Seq<u8>, vx: u8, vy: u8, cell: int) -> bool {
    exists|row: int, col: u8|
        0 <= row < sprite.len() && col < 8 && sprite_bit(sprite[row], col)
            && #[trigger] target_cell(vx, vy, row, col as int) == cell
}

/// The framebuffer after `sprite` is drawn at `(vx, vy)`: every cell that the
/// sprite toggles is inverted, the others stay. A sprite has fewer rows than
/// the screen and fewer columns, so no two of its bits land on one cell.
pub open spec fn draw_spec(display: Seq<bool>, sprite: Seq<u8>, vx: u8, vy: u8) -> Seq<bool> {
    Seq::new(display.len(), |cell: int| display[cell] != sprite_toggles(sprite, vx, vy, cell))
}

/// Whether drawing `sprite` at `(vx, vy)` turns some lit cell off.
pub open spec fn collision_spec(display: Seq<bool>, sprite: Seq<u8>, vx: u8, vy: u8) -> bool {
    exists|cell: int|
        0 <= cell < display.len() && display[cell] && #[trigger] sprite_toggles(
            sprite,
            vx,
            vy,
            cell,
        )
}

/// Whether any key is held down.
pub open spec fn any_pressed(keys: Seq<bool>) -> bool {
    exists|k: int| 0 <= k < keys.len() && #[trigger] keys[k]
}

/// Whether `k` is the lowest key that is held down.
pub open spec fn is_lowest_pressed(keys: Seq<bool>, k: int) -> bool {
    &&& 0 <= k < keys.len()
    &&& keys[k]
    &&& forall|j: int| 0 <= j < k ==> !#[trigger] keys[j]
}

/// The lowest key that is held down, where there is one.
pub open spec fn lowest_pressed(keys: Seq<bool>) -> int {
    choose|k: int| is_lowest_pressed(keys, k)
}

/// Memory after `V0..=Vx` are stored from `I` on.
pub open spec fn store_regs_spec(m: MachineState, x: u8) -> Seq<u8> {
    Seq::new(
        m.memory.len(),
        |a: int| if m.i <= a <= m.i + x { m.v[a - m.i] } else { m.memory[a] },
    )
}

/// The registers after `V0..=Vx` are loaded from memory at `I` on.
pub open spec fn load_regs_spec(m: MachineState, x: u8) -> Seq<u8> {
    Seq::new(m.v.len(), |r: int| if r <= x { m.memory[m.i + r] } else { m.v[r] })
}

/// Memory after the hundreds, tens and units of `value` are stored at `I`,
/// `I+1` and `I+2`.
pub open spec fn store_bcd_spec(m: MachineState, value: u8) -> Seq<u8> {
    m.memory.update(m.i as int, value / 100).update(m.i + 1, (value / 10) % 10).update(
        m.i + 2,
        value % 10,
    )
}

/// The effect of one instruction on the machine, the program counter being at
/// that instruction. `random` is the byte that `Rnd` draws. A fault leaves the
/// machine as it was.
pub open spec fn execute_spec(m: MachineState, instruction: Instruction, random: u8) -> Result<
    MachineState,
    Fault,
> {
    match instruction {
        Instruction::Cls => Ok(MachineState { display: blank_display(), pc: next_pc(m), ..m }),
        Instruction::Ret => if m.sp == 0 {
            Err(Fault::StackUnderflow)
        } else {
            Ok(MachineState { pc: m.stack[m.sp - 1], sp: (m.sp - 1) as u8, ..m })
        },
        Instruction::Jp { addr } => Ok(MachineState { pc: addr, ..m }),
        Instruction::Call { addr } => if m.sp >= m.stack.len() {
            Err(Fault::StackOverflow)
        } else {
            Ok(
                MachineState {
                    stack: m.stack.update(m.sp as int, next_pc(m)),
                    sp: (m.sp + 1) as u8,
                    pc: addr,
                    ..m
                },
            )
        },
        Instruction::SeByte { x, kk } => Ok(branch(m, m.v[x as int] == kk)),
        Instruction::SneByte { x, kk } => Ok(branch(m, m.v[x as int] != kk)),
        Instruction::SeReg { x, y } => Ok(branch(m, m.v[x as int] == m.v[y as int])),
        Instruction::SneReg { x, y } => Ok(branch(m, m.v[x as int] != m.v[y as int])),
        Instruction::LdByte { x, kk } => Ok(write_reg(m, x, kk)),
        Instruction::AddByte { x, kk } => Ok(write_reg(m, x, ((m.v[x as int] + kk) % 256) as u8)),
        Instruction::LdReg { x, y } => Ok(write_reg(m, x, m.v[y as int])),
        Instruction::Or { x, y } => Ok(write_reg(m, x, m.v[x as int] | m.v[y as int])),
        Instruction::And { x, y } => Ok(write_reg(m, x, m.v[x as int] & m.v[y as int])),
        Instruction::Xor { x, y } => Ok(write_reg(m, x, m.v[x as int] ^ m.v[y as int])),
        Instruction::AddReg { x, y } => {
            let sum = m.v[x as int] + m.v[y as int];
            Ok(write_reg_flag(m, x, (sum % 256) as u8, sum > 255))
        },
        Instruction::Sub { x, y } => {
            let difference = m.v[x as int] - m.v[y as int];
            Ok(write_reg_flag(m, x, (difference % 256) as u8, difference >= 0))
        },
        Instruction::Subn { x, y } => {
            let difference = m.v[y as int] - m.v[x as int];
            Ok(write_reg_flag(m, x, (difference % 256) as u8, difference >= 0))
        },
        Instruction::Shr { x } => Ok(
            write_reg_flag(m, x, m.v[x as int] / 2, m.v[x as int] % 2 == 1),
        ),
        Instruction::Shl { x } => Ok(
            write_reg_flag(m, x, ((m.v[x as int] * 2) % 256) as u8, m.v[x as int] >= 128),
        ),
        Instruction::LdI { addr } => Ok(MachineState { i: addr, pc: next_pc(m), ..m }),
        Instruction::JpV0 { addr } => Ok(MachineState { pc: (addr + m.v[0]) as u16, ..m }),
        Instruction::Rnd { x, kk } => Ok(write_reg(m, x, random & kk)),
        Instruction::Drw { x, y, n } => if m.i + n > m.memory.len() {
            Err(Fault::MemoryOutOfBounds { address: m.i })
        } else {
            let sprite = m.memory.subrange(m.i as int, m.i + n);
            let vx = m.v[x as int];
            let vy = m.v[y as int];
            Ok(
                MachineState {
                    display: draw_spec(m.display, sprite, vx, vy),
                    v: m.v.update(
                        0xF,
                        if collision_spec(m.display, sprite, vx, vy) {
                            1u8
                        } else {
                            0u8
                        },
                    ),
                    pc: next_pc(m),
                    ..m
                },
            )
        },
        Instruction::Skp { x } => if m.v[x as int] >= m.keys.len() {
            Err(Fault::InvalidKey { key: m.v[x as int] })
        } else {
            Ok(branch(m, m.keys[m.v[x as int] as int]))
        },
        Instruction::Sknp { x } => if m.v[x as int] >= m.keys.len() {
            Err(Fault::InvalidKey { key: m.v[x as int] })
        } else {
            Ok(branch(m, !m.keys[m.v[x as int] as int]))
        },
        Instruction::LdVxDt { x } => Ok(write_reg(m, x, m.dt)),
        Instruction::LdVxKey { x } => if any_pressed(m.keys) {
            Ok(write_reg(m, x, lowest_pressed(m.keys) as u8))
        } else {
            Ok(m)
        },
        Instruction::LdDtVx { x } => Ok(MachineState { dt: m.v[x as int], pc: next_pc(m), ..m }),
        Instruction::LdStVx { x } => Ok(MachineState { st: m.v[x as int], pc: next_pc(m), ..m }),
        // The sum is taken modulo 0x1000, so that `I` never leaves the address
        // space.
        Instruction::AddI { x } => Ok(
            MachineState { i: ((m.i + m.v[x as int]) % 0x1000) as u16, pc: next_pc(m), ..m },
        ),
        // Only the sixteen digits have a glyph.
        Instruction::LdFont { x } => if m.v[x as int] > 0xF {
            Err(Fault::InvalidDigit { value: m.v[x as int] })
        } else {
            Ok(MachineState { i: (5 * m.v[x as int]) as u16, pc: next_pc(m), ..m })
        },
        Instruction::LdBcd { x } => if m.i + 2 >= m.memory.len() {
            Err(Fault::MemoryOutOfBounds { address: m.i })
        } else {
            Ok(MachineState { memory: store_bcd_spec(m, m.v[x as int]), pc: next_pc(m), ..m })
        },
        Instruction::StoreRegs { x } => if m.i + x >= m.memory.len() {
            Err(Fault::MemoryOutOfBounds { address: m.i })
        } else {
            Ok(MachineState { memory: store_regs_spec(m, x), pc: next_pc(m), ..m })
        },
        Instruction::LoadRegs { x } => if m.i + x >= m.memory.len() {
            Err(Fault::MemoryOutOfBounds { address: m.i })
        } else {
            Ok(MachineState { v: load_regs_spec(m, x), pc: next_pc(m), ..m })
        },
    }
}

/// The instruction at the program counter. A word that is no instruction is
/// a fault.
pub open spec fn fetch_decode_spec(m: MachineState) -> Result<Instruction, Fault> {
    match fetch_spec(m) {
        Err(fault) => Err(fault),
        Ok(opcode) => match decode_spec(opcode) {
            None => Err(Fault::UnknownOpcode { opcode }),
            Some(instruction) => Ok(instruction),
        },
    }
}

/// One step of the machine: fetch the word at the program counter, decode it
/// and execute the instruction.
pub open spec fn step_spec(m: MachineState, random: u8) -> Result<MachineState, Fault> {
    match fetch_decode_spec(m) {
        Err(fault) => Err(fault),
        Ok(instruction) => execute_spec(m, instruction, random),
    }
}

/// Whether a step from `before` in which `random` is the byte drawn ends in
/// `after` with `result`: the next state where the step succeeds, the fault
/// and the state as it was where it does not.
pub open spec fn step_outcome(
    before: MachineState,
    random: u8,
    after: MachineState,
    result: Result<(), Fault>,
) -> bool {
    match step_spec(before, random) {
        Ok(next) => result is Ok && after == next,
        Err(fault) => result == Err::<(), Fault>(fault) && after == before,
    }
}

/// Whether the machine is waiting for a key: the instruction at the program
/// counter is the wait and no key is held down, so that a step changes
/// nothing.
pub open spec fn awaits_key(m: MachineState) -> bool {
    fetch_decode_spec(m) matches Ok(Instruction::LdVxKey { .. }) && !any_pressed(m.keys)
}

/// Whether the instruction at the program counter draws a random byte.
pub open spec fn draws_random(m: MachineState) -> bool {
    fetch_decode_spec(m) matches Ok(Instruction::Rnd { .. })
}

/// The machine after a program is copied to the load address.
pub open spec fn load_spec(m: MachineState, rom: Seq<u8>) -> MachineState {
    MachineState {
        memory: Seq::new(
            m.memory.len(),
            |a: int|
                if RAM_START_ADDR <= a < RAM_START_ADDR + rom.len() {
                    rom[a - RAM_START_ADDR]
                } else {
                    m.memory[a]
                },
        ),
        ..m
    }
}

/// The machine after the delay timer has counted down once.
pub open spec fn tick_delay_spec(m: MachineState) -> MachineState {
    MachineState { dt: if m.dt > 0 { (m.dt - 1) as u8 } else { 0u8 }, ..m }
}

/// The machine after the sound timer has counted down once.
pub open spec fn tick_sound_spec(m: MachineState) -> MachineState {
    MachineState { st: if m.st > 0 { (m.st - 1) as u8 } else { 0u8 }, ..m }
}

} // verus!
