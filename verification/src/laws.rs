//! Properties of the machine that hold of every state.

use vstd::prelude::*;
use crate::fault::Fault;
use crate::instruction::{decode_spec, Instruction};
use crate::semantics::{
    awaits_key, collision_spec, draw_spec, draws_random, execute_spec, fetch_decode_spec,
    fetch_spec, is_lowest_pressed, load_spec, lowest_pressed, sprite_toggles, step_outcome,
    step_spec, target_cell, tick_delay_spec, tick_sound_spec,
};
use crate::state::{MachineState, RAM_SIZE, RAM_START_ADDR};

verus! {

/// Whether the two bytes at the program counter are `high` and `low`.
pub open spec fn word_at_pc(m: MachineState, high: int, low: int) -> bool {
    &&& m.pc + 1 < RAM_SIZE
    &&& m.memory[m.pc as int] == high
    &&& m.memory[m.pc + 1] == low
}

/// The condition on which a skip instruction skips; `None` for every other
/// instruction.
pub open spec fn skip_condition(m: MachineState, instruction: Instruction) -> Option<bool> {
    match instruction {
        Instruction::SeByte { x, kk } => Some(m.v[x as int] == kk),
        Instruction::SneByte { x, kk } => Some(m.v[x as int] != kk),
        Instruction::SeReg { x, y } => Some(m.v[x as int] == m.v[y as int]),
        Instruction::SneReg { x, y } => Some(m.v[x as int] != m.v[y as int]),
        Instruction::Skp { x } => Some(m.keys[m.v[x as int] as int]),
        Instruction::Sknp { x } => Some(!m.keys[m.v[x as int] as int]),
        _ => None,
    }
}

/// A step keeps the machine well formed: the stack pointer stays inside the
/// stack and the address register inside the twelve-bit address space.
pub proof fn law_step_preserves_wf(m: MachineState, random: u8)
    requires
        m.wf(),
    ensures
        step_spec(m, random) matches Ok(next) ==> next.wf(),
{
}

/// Loading a program and counting the timers down keep the machine well
/// formed.
pub proof fn law_host_operations_preserve_wf(m: MachineState, rom: Seq<u8>)
    requires
        m.wf(),
    ensures
        load_spec(m, rom).wf(),
        tick_delay_spec(m).wf(),
        tick_sound_spec(m).wf(),
{
}

/// Loading a program changes nothing below the load address: the font stays
/// where it is, whatever is loaded.
pub proof fn law_load_keeps_low_memory(m: MachineState, rom: Seq<u8>, address: int)
    requires
        m.wf(),
        0 <= address < RAM_START_ADDR,
    ensures
        load_spec(m, rom).memory[address] == m.memory[address],
{
}

/// Only the random instruction looks at the random byte: a step from a state
/// whose next instruction is another one ends the same way for every byte.
pub proof fn law_random_byte_only_in_rnd(m: MachineState, first: u8, second: u8)
    requires
        !draws_random(m),
    ensures
        step_spec(m, first) == step_spec(m, second),
{
}

/// A fault changes nothing, so a machine that has faulted faults again in
/// the same way: it has halted.
pub proof fn law_fault_halts(
    m: MachineState,
    after: MachineState,
    result: Result<(), Fault>,
    first: u8,
    second: u8,
)
    requires
        step_outcome(m, first, after, result),
        result is Err,
    ensures
        after == m,
        step_spec(after, second) == Err::<MachineState, Fault>(result->Err_0),
{
}

/// A machine that waits for a key stays exactly as it is, step after step,
/// until a key is held down; with a key down the wait ends in one step, with
/// the lowest such key in `Vx`.
pub proof fn law_wait_for_key(m: MachineState, x: u8, random: u8)
    requires
        m.wf(),
        x < 16,
        fetch_decode_spec(m) == Ok::<Instruction, Fault>(Instruction::LdVxKey { x }),
    ensures
        awaits_key(m) ==> step_spec(m, random) == Ok::<MachineState, Fault>(m),
        !awaits_key(m) ==> (step_spec(m, random) matches Ok(next) && next.pc == m.pc + 2
            && is_lowest_pressed(m.keys, next.v[x as int] as int)),
{
    if !awaits_key(m) {
        let k = choose|k: int| 0 <= k < m.keys.len() && #[trigger] m.keys[k];
        lemma_lowest_pressed_exists(m.keys, k);
    }
}

/// Where some key is held down, the lowest such key exists.
proof fn lemma_lowest_pressed_exists(keys: Seq<bool>, k: int)
    requires
        0 <= k < keys.len(),
        keys[k],
    ensures
        is_lowest_pressed(keys, lowest_pressed(keys)),
    decreases k,
{
    if exists|j: int| 0 <= j < k && #[trigger] keys[j] {
        let j = choose|j: int| 0 <= j < k && #[trigger] keys[j];
        lemma_lowest_pressed_exists(keys, j);
    } else {
        assert(is_lowest_pressed(keys, k));
    }
}

/// The framebuffer persists: a step changes it only if the instruction is a
/// clear or a draw.
pub proof fn law_display_persists(m: MachineState, instruction: Instruction, random: u8)
    requires
        !(instruction is Cls),
        !(instruction is Drw),
    ensures
        execute_spec(m, instruction, random) matches Ok(next) ==> next.display == m.display,
{
}

/// A step never counts a timer down, whatever the instruction, a wait for a
/// key included: the timers change only where `Fx15` or `Fx18` sets one.
pub proof fn law_step_leaves_timers(m: MachineState, instruction: Instruction, random: u8)
    ensures
        execute_spec(m, instruction, random) matches Ok(next) ==> {
            &&& !(instruction is LdDtVx) ==> next.dt == m.dt
            &&& !(instruction is LdStVx) ==> next.st == m.st
        },
{
}

/// A sprite is never clipped and never leaves the screen: each of its bits
/// lands on a cell of the 64 by 32 grid, in the column and the row that the
/// position gives modulo the width and the height.
pub proof fn law_sprite_wraps(vx: u8, vy: u8, row: int, col: int)
    requires
        0 <= row,
        0 <= col,
    ensures
        0 <= target_cell(vx, vy, row, col) < 2048,
        target_cell(vx, vy, row, col) % 64 == (vx + col) % 64,
        target_cell(vx, vy, row, col) / 64 == (vy + row) % 32,
{
}

/// Loading a byte into `Vx` (`6xkk`) and then adding zero to it (`7x00`)
/// leaves `kk` in `Vx`, and the program counter four bytes on.
pub proof fn law_load_then_add_zero(m: MachineState, x: u8, kk: u8, first: u8, second: u8)
    requires
        m.wf(),
        x < 16,
        word_at_pc(m, 0x60 + x, kk as int),
        word_at_pc(MachineState { pc: (m.pc + 2) as u16, ..m }, 0x70 + x, 0x00),
    ensures
        step_spec(m, first) matches Ok(loaded) && step_spec(loaded, second) matches Ok(added)
            && added.v[x as int] == kk && added.pc == m.pc + 4,
{
    let load = (0x6000 + 0x100 * x + kk) as u16;
    let add = (0x7000 + 0x100 * x) as u16;
    assert(fetch_spec(m) == Ok::<u16, Fault>(load));
    assert(decode_spec(load) == Some(Instruction::LdByte { x, kk }));
    let loaded = step_spec(m, first)->Ok_0;
    assert(fetch_spec(loaded) == Ok::<u16, Fault>(add));
    assert(decode_spec(add) == Some(Instruction::AddByte { x, kk: 0 }));
}

/// A skip instruction that executes moves the program counter on by four
/// where its condition holds and by two where it does not, and changes
/// nothing else.
pub proof fn law_skip_advances(m: MachineState, random: u8)
    requires
        m.wf(),
        fetch_decode_spec(m) matches Ok(instruction) && skip_condition(m, instruction) is Some,
    ensures
        step_spec(m, random) matches Ok(next) ==> {
            let taken = skip_condition(m, fetch_decode_spec(m)->Ok_0)->Some_0;
            &&& next.pc == m.pc + if taken { 4int } else { 2int }
            &&& next == MachineState { pc: next.pc, ..m }
        },
{
}

/// Clearing the screen (`00E0`) leaves a framebuffer of 2048 cells, all off.
pub proof fn law_cls_clears(m: MachineState, random: u8)
    requires
        m.wf(),
        word_at_pc(m, 0x00, 0xE0),
    ensures
        step_spec(m, random) matches Ok(next) && next.display.len() == 2048 && forall|cell: int|
            0 <= cell < 2048 ==> !next.display[cell],
{
    assert(fetch_spec(m) == Ok::<u16, Fault>(0x00E0u16));
    assert(decode_spec(0x00E0u16) == Some(Instruction::Cls));
}

/// A word that is no instruction is a fault, and nothing else: the step does
/// not go on to another instruction.
pub proof fn law_unknown_opcode_faults(m: MachineState, random: u8)
    requires
        fetch_spec(m) matches Ok(opcode) && decode_spec(opcode) is None,
    ensures
        step_spec(m, random) == Err::<MachineState, Fault>(
            Fault::UnknownOpcode { opcode: fetch_spec(m)->Ok_0 },
        ),
{
}

/// Drawing a sprite twice at one place gives back the framebuffer as it
/// was.
pub proof fn law_draw_twice_restores(display: Seq<bool>, sprite: Seq<u8>, vx: u8, vy: u8)
    ensures
        draw_spec(draw_spec(display, sprite, vx, vy), sprite, vx, vy) == display,
{
    assert(draw_spec(draw_spec(display, sprite, vx, vy), sprite, vx, vy) =~= display);
}

/// The second of two draws of one sprite at one place reports a collision
/// exactly if the sprite covers a cell that was off before the first draw.
pub proof fn law_second_draw_collides(display: Seq<bool>, sprite: Seq<u8>, vx: u8, vy: u8)
    ensures
        collision_spec(draw_spec(display, sprite, vx, vy), sprite, vx, vy) <==> exists|cell: int|
            0 <= cell < display.len() && !display[cell] && #[trigger] sprite_toggles(
                sprite,
                vx,
                vy,
                cell,
            ),
{
    let drawn = draw_spec(display, sprite, vx, vy);
    if collision_spec(drawn, sprite, vx, vy) {
        let cell = choose|cell: int|
            0 <= cell < drawn.len() && drawn[cell] && #[trigger] sprite_toggles(
                sprite,
                vx,
                vy,
                cell,
            );
        assert(!display[cell]);
    }
    if exists|cell: int|
        0 <= cell < display.len() && !display[cell] && #[trigger] sprite_toggles(
            sprite,
            vx,
            vy,
            cell,
        ) {
        let cell = choose|cell: int|
            0 <= cell < display.len() && !display[cell] && #[trigger] sprite_toggles(
                sprite,
                vx,
                vy,
                cell,
            );
        assert(drawn[cell]);
    }
}

/// Two draw instructions in a row with the same operands, neither of them
/// `VF`, on a screen whose cells under the sprite are off and with a sprite
/// that covers at least one cell: the second draw turns every cell that the
/// first one lit off again and sets `VF` to 1.
pub proof fn law_draw_instruction_twice(
    m: MachineState,
    x: u8,
    y: u8,
    n: u8,
    first: u8,
    second: u8,
)
    requires
        m.wf(),
        x < 0xF,
        y < 0xF,
        n < 16,
        forall|cell: int|
            0 <= cell < 2048 && #[trigger] sprite_toggles(
                m.memory.subrange(m.i as int, m.i + n),
                m.v[x as int],
                m.v[y as int],
                cell,
            ) ==> !m.display[cell],
        exists|cell: int|
            0 <= cell < 2048 && #[trigger] sprite_toggles(
                m.memory.subrange(m.i as int, m.i + n),
                m.v[x as int],
                m.v[y as int],
                cell,
            ),
    ensures
        execute_spec(m, Instruction::Drw { x, y, n }, first) matches Ok(once) ==> once.v[0xF] == 0
            && (execute_spec(once, Instruction::Drw { x, y, n }, second) matches Ok(twice)
            && twice.display == m.display && twice.v[0xF] == 1),
{
    let sprite = m.memory.subrange(m.i as int, m.i + n);
    let vx = m.v[x as int];
    let vy = m.v[y as int];
    law_draw_twice_restores(m.display, sprite, vx, vy);
    law_second_draw_collides(m.display, sprite, vx, vy);
    let cell = choose|cell: int| 0 <= cell < 2048 && #[trigger] sprite_toggles(sprite, vx, vy, cell);
    assert(!m.display[cell]);
    if collision_spec(m.display, sprite, vx, vy) {
        let lit = choose|lit: int|
            0 <= lit < m.display.len() && m.display[lit] && #[trigger] sprite_toggles(
                sprite,
                vx,
                vy,
                lit,
            );
        assert(!m.display[lit]);
    }
}

/// Storing `V0..=Vx` (`Fx55`) and loading them back (`Fx65`) with the same
/// `x` and `I` restores them: whatever happens in between, as long as the
/// stored bytes and `I` are as the store left them, the load puts the values
/// of the time of the store back into `V0..=Vx` and leaves the registers
/// above `Vx` alone.
pub proof fn law_store_then_load_restores(
    m: MachineState,
    later: MachineState,
    x: u8,
    first: u8,
    second: u8,
)
    requires
        m.wf(),
        later.wf(),
        x < 16,
        execute_spec(m, Instruction::StoreRegs { x }, first) matches Ok(stored) && later.i
            == stored.i && later.memory.subrange(stored.i as int, stored.i + x + 1)
            == stored.memory.subrange(stored.i as int, stored.i + x + 1),
    ensures
        execute_spec(later, Instruction::LoadRegs { x }, second) matches Ok(loaded) && (forall|
            r: int,
        |
            0 <= r <= x ==> loaded.v[r] == m.v[r]) && (forall|r: int|
            x < r < 16 ==> loaded.v[r] == later.v[r]),
{
    let stored = execute_spec(m, Instruction::StoreRegs { x }, first)->Ok_0;
    let loaded = execute_spec(later, Instruction::LoadRegs { x }, second)->Ok_0;
    assert forall|r: int| 0 <= r <= x implies loaded.v[r] == m.v[r] by {
        assert(later.memory.subrange(stored.i as int, stored.i + x + 1)[r]
            == stored.memory.subrange(stored.i as int, stored.i + x + 1)[r]);
    }
}

/// A store followed at once by the load gives back every register, the
/// address register and the memory that the store wrote.
pub proof fn law_store_load_round_trip(m: MachineState, x: u8, first: u8, second: u8)
    requires
        m.wf(),
        x < 16,
    ensures
        execute_spec(m, Instruction::StoreRegs { x }, first) matches Ok(stored) ==> execute_spec(
            stored,
            Instruction::LoadRegs { x },
            second,
        ) matches Ok(loaded) && loaded.v == m.v && loaded.i == m.i && loaded.memory
            == stored.memory,
{
    if execute_spec(m, Instruction::StoreRegs { x }, first) is Ok {
        let stored = execute_spec(m, Instruction::StoreRegs { x }, first)->Ok_0;
        let loaded = execute_spec(stored, Instruction::LoadRegs { x }, second)->Ok_0;
        assert(loaded.v =~= m.v);
    }
}

} // verus!
