//! The executable machine.

use vstd::prelude::*;
use crate::display::draw_sprite;
use crate::fault::Fault;
use crate::instruction::{decode, Instruction};
use crate::random::random_byte;
use crate::semantics::{
    any_pressed, awaits_key, blank_display, branch, collision_spec, draw_spec, draws_random, execute_spec,
    fetch_decode_spec, fetch_spec, is_lowest_pressed, load_regs_spec, load_spec, lowest_pressed,
    next_pc, step_outcome, store_bcd_spec, store_regs_spec, tick_delay_spec, tick_sound_spec,
    write_reg, write_reg_flag,
};
use crate::state::{
    font, MachineState, DISPLAY_SIZE, FONTSET_SIZE, KEYS_SIZE, MAX_ROM_SIZE, RAM_SIZE,
    RAM_START_ADDR, REGISTER_COUNT, STACK_SIZE,
};

verus! {

/// The built-in font as bytes.
fn fontset() -> (bytes: [u8; FONTSET_SIZE])
    ensures
        bytes@ == font(),
{
    let bytes: [u8; FONTSET_SIZE] = [
        0xF0, 0x90, 0x90, 0x90, 0xF0,
        0x20, 0x60, 0x20, 0x20, 0x70,
        0xF0, 0x10, 0xF0, 0x80, 0xF0,
        0xF0, 0x10, 0xF0, 0x10, 0xF0,
        0x90, 0x90, 0xF0, 0x10, 0x10,
        0xF0, 0x80, 0xF0, 0x10, 0xF0,
        0xF0, 0x80, 0xF0, 0x90, 0xF0,
        0xF0, 0x10, 0x20, 0x40, 0x40,
        0xF0, 0x90, 0xF0, 0x90, 0xF0,
        0xF0, 0x90, 0xF0, 0x10, 0xF0,
        0xF0, 0x90, 0xF0, 0x90, 0x90,
        0xE0, 0x90, 0xE0, 0x90, 0xE0,
        0xF0, 0x80, 0x80, 0x80, 0xF0,
        0xE0, 0x90, 0x90, 0x90, 0xE0,
        0xF0, 0x80, 0xF0, 0x80, 0xF0,
        0xF0, 0x80, 0xF0, 0x80, 0x80,
    ];
    assert(bytes@ =~= font());
    bytes
}

/// A CHIP-8 machine. Its abstract state is its view.
pub struct Emulator {
    ram: [u8; RAM_SIZE],
    v_reg: [u8; REGISTER_COUNT],
    i_reg: u16,
    dt: u8,
    st: u8,
    pc: u16,
    sp: u8,
    stack: [u16; STACK_SIZE],
    keys: [bool; KEYS_SIZE],
    display: [bool; DISPLAY_SIZE],
}

impl View for Emulator {
    type V = MachineState;

    closed spec fn view(&self) -> MachineState {
        MachineState {
            memory: self.ram@,
            v: self.v_reg@,
            i: self.i_reg,
            pc: self.pc,
            sp: self.sp,
            stack: self.stack@,
            dt: self.dt,
            st: self.st,
            keys: self.keys@,
            display: self.display@,
        }
    }
}

impl Emulator {
    /// What the fixed sizes of the fields do not say of a well-formed
    /// machine.
    #[verifier::type_invariant]
    spec fn inv(&self) -> bool {
        self.sp <= STACK_SIZE && self.i_reg <= 0xFFF
    }

    /// A machine in its initial state.
    pub fn new() -> (emulator: Emulator)
        ensures
            emulator@ == MachineState::initial(),
            emulator@.wf(),
    {
        let glyphs = fontset();
        let mut ram = [0u8; RAM_SIZE];
        let mut a: usize = 0;
        while a < FONTSET_SIZE
            invariant
                a <= FONTSET_SIZE,
                glyphs@ == font(),
                forall|b: int| 0 <= b < a ==> ram@[b] == font()[b],
                forall|b: int| a <= b < RAM_SIZE ==> ram@[b] == 0,
            decreases FONTSET_SIZE - a,
        {
            ram[a] = glyphs[a];
            a += 1;
        }
        let emulator = Emulator {
            ram,
            v_reg: [0u8; REGISTER_COUNT],
            i_reg: 0,
            dt: 0,
            st: 0,
            pc: RAM_START_ADDR as u16,
            sp: 0,
            stack: [0u16; STACK_SIZE],
            keys: [false; KEYS_SIZE],
            display: [false; DISPLAY_SIZE],
        };
        assert(emulator@ =~= MachineState::initial());
        emulator
    }

    /// Puts the machine back into its initial state.
    pub fn reset(&mut self)
        ensures
            final(self)@ == MachineState::initial(),
            final(self)@.wf(),
    {
        *self = Emulator::new();
    }

    /// Copies a program to the load address. A program that does not fit is
    /// refused.
    pub fn load_rom(&mut self, rom: &[u8]) -> (result: Result<(), Fault>)
        ensures
            rom@.len() <= MAX_ROM_SIZE ==> result is Ok && final(self)@ == load_spec(
                old(self)@,
                rom@,
            ),
            rom@.len() > MAX_ROM_SIZE ==> result == Err::<(), Fault>(
                Fault::RomTooLarge { len: rom@.len() as usize },
            ) && final(self)@ == old(self)@,
            final(self)@.wf(),
    {
        proof {
            use_type_invariant(&*self);
        }
        let len = rom.len();
        if len > MAX_ROM_SIZE {
            return Err(Fault::RomTooLarge { len });
        }
        let mut k: usize = 0;
        while k < len
            invariant
                k <= len,
                len == rom@.len(),
                len <= MAX_ROM_SIZE,
                forall|a: int|
                    0 <= a < RAM_SIZE ==> self.ram@[a] == if RAM_START_ADDR <= a < RAM_START_ADDR
                        + k {
                        rom@[a - RAM_START_ADDR]
                    } else {
                        old(self).ram@[a]
                    },
                self.v_reg == old(self).v_reg,
                self.i_reg == old(self).i_reg,
                self.dt == old(self).dt,
                self.st == old(self).st,
                self.pc == old(self).pc,
                self.sp == old(self).sp,
                self.stack == old(self).stack,
                self.keys == old(self).keys,
                self.display == old(self).display,
            decreases len - k,
        {
            proof {
                use_type_invariant(&*self);
            }
            self.ram[RAM_START_ADDR + k] = rom[k];
            k += 1;
        }
        assert(self@ =~= load_spec(old(self)@, rom@));
        Ok(())
    }

    /// Records that key `code` is held down or not. A key outside the pad is
    /// refused.
    pub fn set_key_press(&mut self, code: u8, pressed: bool) -> (result: Result<(), Fault>)
        ensures
            code < KEYS_SIZE ==> result is Ok && final(self)@ == (MachineState {
                keys: old(self)@.keys.update(code as int, pressed),
                ..old(self)@
            }),
            code >= KEYS_SIZE ==> result == Err::<(), Fault>(Fault::InvalidKey { key: code })
                && final(self)@ == old(self)@,
            final(self)@.wf(),
    {
        proof {
            use_type_invariant(&*self);
        }
        if code as usize >= KEYS_SIZE {
            return Err(Fault::InvalidKey { key: code });
        }
        self.keys[code as usize] = pressed;
        assert(self@ =~= (MachineState {
            keys: old(self)@.keys.update(code as int, pressed),
            ..old(self)@
        }));
        Ok(())
    }

    /// Counts the delay timer down by one, unless it is zero.
    pub fn tick_delay_timer(&mut self)
        ensures
            final(self)@ == tick_delay_spec(old(self)@),
            final(self)@.wf(),
    {
        proof {
            use_type_invariant(&*self);
        }
        if self.dt > 0 {
            self.dt -= 1;
        }
    }

    /// Counts the sound timer down by one, unless it is zero, and says whether
    /// it was running before: whether a tone is due for this tick.
    pub fn tick_sound_timer(&mut self) -> (sounding: bool)
        ensures
            final(self)@ == tick_sound_spec(old(self)@),
            sounding == (old(self)@.st > 0),
            final(self)@.wf(),
    {
        proof {
            use_type_invariant(&*self);
        }
        if self.st > 0 {
            self.st -= 1;
            true
        } else {
            false
        }
    }

    /// Counts both timers down by one, each unless it is zero.
    pub fn tick_timers(&mut self)
        ensures
            final(self)@ == tick_sound_spec(tick_delay_spec(old(self)@)),
            final(self)@.wf(),
    {
        self.tick_delay_timer();
        self.tick_sound_timer();
    }

    /// Puts `value` on the call stack.
    fn push(&mut self, value: u16) -> (result: Result<(), Fault>)
        ensures
            old(self)@.sp < STACK_SIZE ==> result is Ok && final(self)@ == (MachineState {
                stack: old(self)@.stack.update(old(self)@.sp as int, value),
                sp: (old(self)@.sp + 1) as u8,
                ..old(self)@
            }),
            old(self)@.sp >= STACK_SIZE ==> result == Err::<(), Fault>(Fault::StackOverflow)
                && final(self)@ == old(self)@,
    {
        proof {
            use_type_invariant(&*self);
        }
        if self.sp as usize >= STACK_SIZE {
            return Err(Fault::StackOverflow);
        }
        self.stack[self.sp as usize] = value;
        self.sp += 1;
        assert(self@ =~= (MachineState {
            stack: old(self)@.stack.update(old(self)@.sp as int, value),
            sp: (old(self)@.sp + 1) as u8,
            ..old(self)@
        }));
        Ok(())
    }

    /// Takes the top value off the call stack.
    fn pop(&mut self) -> (result: Result<u16, Fault>)
        ensures
            old(self)@.sp > 0 ==> result == Ok::<u16, Fault>(
                old(self)@.stack[old(self)@.sp - 1],
            ) && final(self)@ == (MachineState {
                sp: (old(self)@.sp - 1) as u8,
                ..old(self)@
            }),
            old(self)@.sp == 0 ==> result == Err::<u16, Fault>(Fault::StackUnderflow)
                && final(self)@ == old(self)@,
    {
        proof {
            use_type_invariant(&*self);
        }
        if self.sp == 0 {
            return Err(Fault::StackUnderflow);
        }
        self.sp -= 1;
        Ok(self.stack[self.sp as usize])
    }

    /// Reads the instruction word at the program counter, high byte first.
    fn get_next_instruction(&self) -> (word: Result<u16, Fault>)
        ensures
            word == fetch_spec(self@),
    {
        let pc = self.pc as usize;
        if pc + 1 >= RAM_SIZE {
            return Err(Fault::MemoryOutOfBounds { address: self.pc });
        }
        let higher_byte = self.ram[pc] as u16;
        let lower_byte = self.ram[pc + 1] as u16;
        let instruction: u16 = (higher_byte << 8) | lower_byte;
        assert((higher_byte << 8) | lower_byte == higher_byte * 256 + lower_byte) by (bit_vector)
            requires
                higher_byte < 256,
                lower_byte < 256,
        ;
        Ok(instruction)
    }

    /// The lowest key that is held down, if any is.
    fn pressed_key(&self) -> (key: Option<u8>)
        ensures
            any_pressed(self@.keys) ==> key == Some(lowest_pressed(self@.keys) as u8),
            !any_pressed(self@.keys) ==> key is None,
            key matches Some(k) ==> k < KEYS_SIZE,
    {
        let mut idx: u8 = 0;
        while (idx as usize) < KEYS_SIZE
            invariant
                idx <= KEYS_SIZE,
                forall|j: int| 0 <= j < idx ==> !#[trigger] self.keys@[j],
            decreases KEYS_SIZE - idx,
        {
            if self.keys[idx as usize] {
                proof {
                    assert(is_lowest_pressed(self@.keys, idx as int));
                    let lowest = lowest_pressed(self@.keys);
                    assert(is_lowest_pressed(self@.keys, lowest));
                    assert(lowest == idx);
                }
                return Some(idx);
            }
            idx += 1;
        }
        None
    }

    /// Stores `V0..=Vx` in memory from `I` on.
    fn store_registers(&mut self, x: u8)
        requires
            x < REGISTER_COUNT,
            old(self)@.i + x < RAM_SIZE,
        ensures
            final(self)@ == (MachineState {
                memory: store_regs_spec(old(self)@, x),
                ..old(self)@
            }),
    {
        let i = self.i_reg as usize;
        let mut idx: usize = 0;
        while idx <= x as usize
            invariant
                idx <= x + 1,
                x < REGISTER_COUNT,
                i == old(self)@.i,
                i + x < RAM_SIZE,
                forall|a: int|
                    0 <= a < RAM_SIZE ==> self.ram@[a] == if i <= a < i + idx {
                        old(self).v_reg@[a - i]
                    } else {
                        old(self).ram@[a]
                    },
                (MachineState { memory: old(self)@.memory, ..self@ }) == old(self)@,
            decreases x + 1 - idx,
        {
            proof {
                use_type_invariant(&*self);
            }
            self.ram[i + idx] = self.v_reg[idx];
            idx += 1;
        }
        assert(self@.memory =~= store_regs_spec(old(self)@, x));
    }

    /// Loads `V0..=Vx` from memory at `I` on.
    fn load_registers(&mut self, x: u8)
        requires
            x < REGISTER_COUNT,
            old(self)@.i + x < RAM_SIZE,
        ensures
            final(self)@ == (MachineState { v: load_regs_spec(old(self)@, x), ..old(self)@ }),
    {
        let i = self.i_reg as usize;
        let mut idx: usize = 0;
        while idx <= x as usize
            invariant
                idx <= x + 1,
                x < REGISTER_COUNT,
                i == old(self)@.i,
                i + x < RAM_SIZE,
                forall|r: int|
                    0 <= r < REGISTER_COUNT ==> self.v_reg@[r] == if r < idx {
                        old(self).ram@[i + r]
                    } else {
                        old(self).v_reg@[r]
                    },
                (MachineState { v: old(self)@.v, ..self@ }) == old(self)@,
            decreases x + 1 - idx,
        {
            proof {
                use_type_invariant(&*self);
            }
            self.v_reg[idx] = self.ram[i + idx];
            idx += 1;
        }
        assert(self@.v =~= load_regs_spec(old(self)@, x));
    }

    /// Moves the program counter to the next instruction, or over it if
    /// `taken`.
    fn skip_if(&mut self, taken: bool)
        requires
            old(self)@.pc + 1 < RAM_SIZE,
        ensures
            final(self)@ == branch(old(self)@, taken),
    {
        proof {
            use_type_invariant(&*self);
        }
        self.pc += 2;
        if taken {
            self.pc += 2;
        }
    }

    /// Writes `Vx` and moves on to the next instruction.
    fn write_register(&mut self, x: u8, value: u8)
        requires
            x < REGISTER_COUNT,
            old(self)@.pc + 1 < RAM_SIZE,
        ensures
            final(self)@ == write_reg(old(self)@, x, value),
    {
        proof {
            use_type_invariant(&*self);
        }
        self.v_reg[x as usize] = value;
        self.pc += 2;
        assert(self@ =~= write_reg(old(self)@, x, value));
    }

    /// Writes `Vx`, then `flag` into `VF`, and moves on to the next
    /// instruction.
    fn write_register_flag(&mut self, x: u8, value: u8, flag: bool)
        requires
            x < REGISTER_COUNT,
            old(self)@.pc + 1 < RAM_SIZE,
        ensures
            final(self)@ == write_reg_flag(old(self)@, x, value, flag),
    {
        proof {
            use_type_invariant(&*self);
        }
        self.v_reg[x as usize] = value;
        self.v_reg[0xF] = if flag { 1 } else { 0 };
        self.pc += 2;
        assert(self@ =~= write_reg_flag(old(self)@, x, value, flag));
    }

    /// Draws the `n`-row sprite at `I` at `(vx, vy)` and records in `VF`
    /// whether a lit cell was turned off.
    fn draw(&mut self, vx: u8, vy: u8, n: u8)
        requires
            n < 16,
            old(self)@.i + n <= RAM_SIZE,
            old(self)@.pc + 1 < RAM_SIZE,
        ensures
            final(self)@ == (MachineState {
                display: draw_spec(
                    old(self)@.display,
                    old(self)@.memory.subrange(old(self)@.i as int, old(self)@.i + n),
                    vx,
                    vy,
                ),
                v: old(self)@.v.update(
                    0xF,
                    if collision_spec(
                        old(self)@.display,
                        old(self)@.memory.subrange(old(self)@.i as int, old(self)@.i + n),
                        vx,
                        vy,
                    ) {
                        1u8
                    } else {
                        0u8
                    },
                ),
                pc: next_pc(old(self)@),
                ..old(self)@
            }),
    {
        proof {
            use_type_invariant(&*self);
        }
        let start = self.i_reg as usize;
        let collision = draw_sprite(&mut self.display, &self.ram, start, n, vx, vy);
        self.v_reg[0xF] = if collision { 1 } else { 0 };
        self.pc += 2;
        assert(self@.v =~= old(self)@.v.update(0xF, if collision { 1u8 } else { 0u8 }));
    }

    /// Stores the hundreds, tens and units of `value` at `I`, `I+1`, `I+2`.
    fn store_bcd(&mut self, value: u8)
        requires
            old(self)@.i + 2 < RAM_SIZE,
            old(self)@.pc + 1 < RAM_SIZE,
        ensures
            final(self)@ == (MachineState {
                memory: store_bcd_spec(old(self)@, value),
                pc: next_pc(old(self)@),
                ..old(self)@
            }),
    {
        proof {
            use_type_invariant(&*self);
        }
        let i = self.i_reg as usize;
        self.ram[i] = value / 100;
        self.ram[i + 1] = (value / 10) % 10;
        self.ram[i + 2] = value % 10;
        self.pc += 2;
        assert(self@.memory =~= store_bcd_spec(old(self)@, value));
    }

    /// Executes `instruction` as the instruction at the program counter;
    /// `random` is the byte that `Rnd` uses.
    fn execute(&mut self, instruction: Instruction, random: u8) -> (result: Result<(), Fault>)
        requires
            instruction.wf(),
            old(self)@.pc + 1 < RAM_SIZE,
        ensures
            execute_spec(old(self)@, instruction, random) matches Ok(next) ==> result is Ok
                && final(self)@ == next,
            execute_spec(old(self)@, instruction, random) matches Err(fault) ==> result == Err::<
                (),
                Fault,
            >(fault) && final(self)@ == old(self)@,
    {
        proof {
            use_type_invariant(&*self);
        }
        let next = self.pc + 2;
        match instruction {
            Instruction::Cls => {
                self.display = [false; DISPLAY_SIZE];
                self.pc = next;
                assert(self@.display =~= blank_display());
            },
            Instruction::Ret => {
                match self.pop() {
                    Ok(target) => {
                        self.pc = target;
                    },
                    Err(fault) => {
                        return Err(fault);
                    },
                }
            },
            Instruction::Jp { addr } => {
                self.pc = addr;
            },
            Instruction::Call { addr } => {
                match self.push(next) {
                    Ok(()) => {
                        self.pc = addr;
                    },
                    Err(fault) => {
                        return Err(fault);
                    },
                }
            },
            Instruction::SeByte { x, kk } => {
                self.skip_if(self.v_reg[x as usize] == kk);
            },
            Instruction::SneByte { x, kk } => {
                self.skip_if(self.v_reg[x as usize] != kk);
            },
            Instruction::SeReg { x, y } => {
                self.skip_if(self.v_reg[x as usize] == self.v_reg[y as usize]);
            },
            Instruction::SneReg { x, y } => {
                self.skip_if(self.v_reg[x as usize] != self.v_reg[y as usize]);
            },
            Instruction::LdByte { x, kk } => {
                self.write_register(x, kk);
            },
            Instruction::AddByte { x, kk } => {
                self.write_register(x, self.v_reg[x as usize].wrapping_add(kk));
            },
            Instruction::LdReg { x, y } => {
                self.write_register(x, self.v_reg[y as usize]);
            },
            Instruction::Or { x, y } => {
                self.write_register(x, self.v_reg[x as usize] | self.v_reg[y as usize]);
            },
            Instruction::And { x, y } => {
                self.write_register(x, self.v_reg[x as usize] & self.v_reg[y as usize]);
            },
            Instruction::Xor { x, y } => {
                self.write_register(x, self.v_reg[x as usize] ^ self.v_reg[y as usize]);
            },
            Instruction::AddReg { x, y } => {
                let (vx, vy) = (self.v_reg[x as usize], self.v_reg[y as usize]);
                let carry = vx as u16 + vy as u16 > 0xFF;
                self.write_register_flag(x, vx.wrapping_add(vy), carry);
            },
            Instruction::Sub { x, y } => {
                let (vx, vy) = (self.v_reg[x as usize], self.v_reg[y as usize]);
                self.write_register_flag(x, vx.wrapping_sub(vy), vx >= vy);
            },
            Instruction::Subn { x, y } => {
                let (vx, vy) = (self.v_reg[x as usize], self.v_reg[y as usize]);
                self.write_register_flag(x, vy.wrapping_sub(vx), vy >= vx);
            },
            Instruction::Shr { x } => {
                let vx = self.v_reg[x as usize];
                assert(vx & 1 == vx % 2 && vx >> 1 == vx / 2) by (bit_vector);
                self.write_register_flag(x, vx >> 1, vx & 1 == 1);
            },
            Instruction::Shl { x } => {
                let vx = self.v_reg[x as usize];
                assert((vx >> 7) & 1 == vx / 128 && vx << 1 == (vx * 2) % 256) by (bit_vector);
                self.write_register_flag(x, vx << 1, (vx >> 7) & 1 == 1);
            },
            Instruction::LdI { addr } => {
                self.i_reg = addr;
                self.pc = next;
            },
            Instruction::JpV0 { addr } => {
                self.pc = addr + self.v_reg[0] as u16;
            },
            Instruction::Rnd { x, kk } => {
                self.write_register(x, random & kk);
            },
            Instruction::Drw { x, y, n } => {
                if self.i_reg as usize + n as usize > RAM_SIZE {
                    return Err(Fault::MemoryOutOfBounds { address: self.i_reg });
                }
                self.draw(self.v_reg[x as usize], self.v_reg[y as usize], n);
            },
            Instruction::Skp { x } => {
                let key = self.v_reg[x as usize];
                if key as usize >= KEYS_SIZE {
                    return Err(Fault::InvalidKey { key });
                }
                self.skip_if(self.keys[key as usize]);
            },
            Instruction::Sknp { x } => {
                let key = self.v_reg[x as usize];
                if key as usize >= KEYS_SIZE {
                    return Err(Fault::InvalidKey { key });
                }
                self.skip_if(!self.keys[key as usize]);
            },
            Instruction::LdVxDt { x } => {
                self.write_register(x, self.dt);
            },
            Instruction::LdVxKey { x } => {
                match self.pressed_key() {
                    Some(key) => {
                        self.write_register(x, key);
                    },
                    None => {},
                }
            },
            Instruction::LdDtVx { x } => {
                self.dt = self.v_reg[x as usize];
                self.pc = next;
            },
            Instruction::LdStVx { x } => {
                self.st = self.v_reg[x as usize];
                self.pc = next;
            },
            Instruction::AddI { x } => {
                let sum = self.i_reg + self.v_reg[x as usize] as u16;
                assert(sum & 0x0FFF == sum % 0x1000 && sum & 0x0FFF <= 0x0FFF) by (bit_vector);
                self.i_reg = sum & 0x0FFF;
                self.pc = next;
            },
            Instruction::LdFont { x } => {
                let value = self.v_reg[x as usize];
                if value > 0xF {
                    return Err(Fault::InvalidDigit { value });
                }
                self.i_reg = value as u16 * 5;
                self.pc = next;
            },
            Instruction::LdBcd { x } => {
                if self.i_reg as usize + 2 >= RAM_SIZE {
                    return Err(Fault::MemoryOutOfBounds { address: self.i_reg });
                }
                self.store_bcd(self.v_reg[x as usize]);
            },
            Instruction::StoreRegs { x } => {
                if self.i_reg as usize + x as usize >= RAM_SIZE {
                    return Err(Fault::MemoryOutOfBounds { address: self.i_reg });
                }
                self.store_registers(x);
                self.pc = next;
            },
            Instruction::LoadRegs { x } => {
                if self.i_reg as usize + x as usize >= RAM_SIZE {
                    return Err(Fault::MemoryOutOfBounds { address: self.i_reg });
                }
                self.load_registers(x);
                self.pc = next;
            },
        }
        Ok(())
    }

    /// Fetches and decodes the instruction at the program counter.
    fn fetch_decode(&self) -> (decoded: Result<Instruction, Fault>)
        ensures
            decoded == fetch_decode_spec(self@),
            decoded matches Ok(instruction) ==> instruction.wf() && self@.pc + 1 < RAM_SIZE,
    {
        let opcode = match self.get_next_instruction() {
            Ok(opcode) => opcode,
            Err(fault) => {
                return Err(fault);
            },
        };
        match decode(opcode) {
            Some(instruction) => Ok(instruction),
            None => Err(Fault::UnknownOpcode { opcode }),
        }
    }

    /// Executes the instruction at the program counter, with `random` as the
    /// byte that a random instruction draws. On a fault the machine stays as
    /// it was, so that the same call faults again.
    pub fn step(&mut self, random: u8) -> (result: Result<(), Fault>)
        ensures
            step_outcome(old(self)@, random, final(self)@, result),
            final(self)@.wf(),
    {
        proof {
            use_type_invariant(&*self);
        }
        let instruction = match self.fetch_decode() {
            Ok(instruction) => instruction,
            Err(fault) => {
                return Err(fault);
            },
        };
        let result = self.execute(instruction, random);
        proof {
            use_type_invariant(&*self);
        }
        result
    }

    /// Executes the instruction at the program counter. A random instruction
    /// draws its byte from the `rand` crate; every other instruction does
    /// what `step` does with any byte.
    pub fn tick(&mut self) -> (result: Result<(), Fault>)
        ensures
            exists|random: u8| step_outcome(old(self)@, random, final(self)@, result),
            !draws_random(old(self)@) ==> forall|random: u8|
                step_outcome(old(self)@, random, final(self)@, result),
            final(self)@.wf(),
    {
        proof {
            use_type_invariant(&*self);
        }
        let instruction = match self.fetch_decode() {
            Ok(instruction) => instruction,
            Err(fault) => {
                assert(step_outcome(old(self)@, 0, self@, Err::<(), Fault>(fault)));
                return Err(fault);
            },
        };
        let random = match instruction {
            Instruction::Rnd { .. } => random_byte(),
            _ => 0,
        };
        let result = self.execute(instruction, random);
        proof {
            use_type_invariant(&*self);
            assert(step_outcome(old(self)@, random, self@, result));
        }
        result
    }

    /// Whether the machine is waiting for a key, so that the next step makes
    /// no progress.
    pub fn awaiting_key(&self) -> (waiting: bool)
        ensures
            waiting == awaits_key(self@),
    {
        match self.fetch_decode() {
            Ok(Instruction::LdVxKey { .. }) => self.pressed_key().is_none(),
            _ => false,
        }
    }

    /// The framebuffer, row by row: cell `(x, y)` is at `x + 64 * y`.
    pub fn display(&self) -> (cells: &[bool; DISPLAY_SIZE])
        ensures
            cells@ == self@.display,
    {
        &self.display
    }

    /// The registers `V0..VF`.
    pub fn registers(&self) -> (values: &[u8; REGISTER_COUNT])
        ensures
            values@ == self@.v,
    {
        &self.v_reg
    }

    /// The memory.
    pub fn memory(&self) -> (bytes: &[u8; RAM_SIZE])
        ensures
            bytes@ == self@.memory,
    {
        &self.ram
    }

    /// The call stack; the frames in use are those below the stack pointer.
    pub fn stack(&self) -> (frames: &[u16; STACK_SIZE])
        ensures
            frames@ == self@.stack,
    {
        &self.stack
    }

    /// Whether each key of the pad is held down.
    pub fn keys(&self) -> (held: &[bool; KEYS_SIZE])
        ensures
            held@ == self@.keys,
    {
        &self.keys
    }

    /// The program counter.
    pub fn program_counter(&self) -> (pc: u16)
        ensures
            pc == self@.pc,
    {
        self.pc
    }

    /// The address register `I`, which stays within twelve bits.
    pub fn index_register(&self) -> (i: u16)
        ensures
            i == self@.i,
            i <= 0xFFF,
    {
        proof {
            use_type_invariant(self);
        }
        self.i_reg
    }

    /// Number of frames on the call stack, sixteen at most.
    pub fn stack_pointer(&self) -> (sp: u8)
        ensures
            sp == self@.sp,
            sp <= STACK_SIZE,
    {
        proof {
            use_type_invariant(self);
        }
        self.sp
    }

    /// The delay timer.
    pub fn delay_timer(&self) -> (dt: u8)
        ensures
            dt == self@.dt,
    {
        self.dt
    }

    /// The sound timer.
    pub fn sound_timer(&self) -> (st: u8)
        ensures
            st == self@.st,
    {
        self.st
    }
}

} // verus!
