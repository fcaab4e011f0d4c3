//! The executable interpreter: the machine state, the fetch/decode/execute
//! cycle and every instruction, each proved against the model in `isa`.

use vstd::prelude::*;

use rand::Rng;

use crate::isa::bit_weight;
use crate::isa::cell_flips;
use crate::isa::draw_collision;
use crate::isa::draw_in_bounds;
use crate::isa::draw_rows;
use crate::isa::draw_x0;
use crate::isa::draw_y0;
use crate::isa::fetch_pc_advance;
use crate::isa::font;
use crate::isa::init_state;
use crate::isa::key_not_pressed;
use crate::isa::key_pressed;
use crate::isa::load_rom;
use crate::isa::op_family;
use crate::isa::op_n;
use crate::isa::op_nn;
use crate::isa::op_nnn;
use crate::isa::op_x;
use crate::isa::op_y;
use crate::isa::opcode_at;
use crate::isa::row_prefix_collision;
use crate::isa::row_prefix_flips;
use crate::isa::spec_add_carry;
use crate::isa::spec_add_reg;
use crate::isa::spec_call;
use crate::isa::spec_clear;
use crate::isa::spec_draw;
use crate::isa::spec_jump;
use crate::isa::spec_jump_offset;
use crate::isa::spec_ret;
use crate::isa::spec_set_index;
use crate::isa::spec_set_reg;
use crate::isa::spec_shl;
use crate::isa::spec_shr;
use crate::isa::spec_skip;
use crate::isa::spec_sub_borrow;
use crate::isa::spec_sub_rev;
use crate::isa::sprite_bit;
use crate::isa::tick_down;
use crate::isa::wrap_add;
use crate::isa::MachineState;

verus! {

/// The four fatal conditions an emulation session can report.
#[derive(Clone, Copy, Debug, PartialEq, Eq)]
pub enum EmulationError {
    /// The emulated call stack would exceed its 16-entry bound.
    StackOverflow,
    /// The program image does not fit in memory above the load address.
    LoadingError,
    /// A 0x0000 opcode was executed: the program ran into vacant memory.
    VacantMemory,
    /// An opcode that matches no recognized pattern in its family.
    UnknownInstruction,
}

/// What one decoded instruction does: relates the state after the fetch
/// (program counter already advanced past the opcode) to the state after
/// execution, together with the reported outcome.
pub open spec fn dispatch_rel(
    m: MachineState,
    post: MachineState,
    op: u16,
    r: Result<(), EmulationError>,
) -> bool {
    let x = op_x(op);
    let y = op_y(op);
    let n = op_n(op);
    let nn = op_nn(op);
    let nnn = op_nnn(op);
    if op_family(op) == 0x0 {
        if nnn == 0x0E0 {
            r is Ok && post == spec_clear(m)
        } else if nnn == 0x0EE {
            r is Ok && post == spec_ret(m)
        } else if nnn == 0x000 {
            r == Err::<(), EmulationError>(EmulationError::VacantMemory) && post == m
        } else {
            r == Err::<(), EmulationError>(EmulationError::UnknownInstruction) && post == m
        }
    } else if op_family(op) == 0x1 {
        r is Ok && post == spec_jump(m, nnn)
    } else if op_family(op) == 0x2 {
        if m.stack.len() < 16 {
            r is Ok && post == spec_call(m, nnn)
        } else {
            r == Err::<(), EmulationError>(EmulationError::StackOverflow) && post == m
        }
    } else if op_family(op) == 0x3 {
        r is Ok && post == spec_skip(m, m.regs[x as int] == nn as u8)
    } else if op_family(op) == 0x4 {
        r is Ok && post == spec_skip(m, m.regs[x as int] != nn as u8)
    } else if op_family(op) == 0x5 {
        r is Ok && post == spec_skip(m, m.regs[x as int] == m.regs[y as int])
    } else if op_family(op) == 0x6 {
        r is Ok && post == spec_set_reg(m, x, nn as u8)
    } else if op_family(op) == 0x7 {
        r is Ok && post == spec_add_reg(m, x, nn as u8)
    } else if op_family(op) == 0x8 {
        if n == 0x0 {
            r is Ok && post == spec_set_reg(m, x, m.regs[y as int])
        } else if n == 0x1 {
            r is Ok && post == spec_set_reg(m, x, m.regs[x as int] | m.regs[y as int])
        } else if n == 0x2 {
            r is Ok && post == spec_set_reg(m, x, m.regs[x as int] & m.regs[y as int])
        } else if n == 0x3 {
            r is Ok && post == spec_set_reg(m, x, m.regs[x as int] ^ m.regs[y as int])
        } else if n == 0x4 {
            r is Ok && post == spec_add_carry(m, x, y)
        } else if n == 0x5 {
            r is Ok && post == spec_sub_borrow(m, x, y)
        } else if n == 0x7 {
            r is Ok && post == spec_sub_rev(m, x, y)
        } else if n == 0x6 {
            r is Ok && post == spec_shr(m, x)
        } else if n == 0xE {
            r is Ok && post == spec_shl(m, x)
        } else {
            r == Err::<(), EmulationError>(EmulationError::UnknownInstruction) && post == m
        }
    } else if op_family(op) == 0x9 {
        r is Ok && post == spec_skip(m, m.regs[x as int] != m.regs[y as int])
    } else if op_family(op) == 0xA {
        r is Ok && post == spec_set_index(m, nnn)
    } else if op_family(op) == 0xB {
        r is Ok && post == spec_jump_offset(m, nnn)
    } else if op_family(op) == 0xC {
        r is Ok && (exists|g: u8| post == #[trigger] spec_set_reg(m, x, g & (nn as u8)))
    } else if op_family(op) == 0xD {
        r is Ok && post == spec_draw(m, x, y, n)
    } else if op_family(op) == 0xE {
        if nn == 0x9E {
            r is Ok && post == spec_skip(m, key_pressed(m, x))
        } else if nn == 0xA1 {
            r is Ok && post == spec_skip(m, key_not_pressed(m, x))
        } else {
            r == Err::<(), EmulationError>(EmulationError::UnknownInstruction) && post == m
        }
    } else {
        // family 0xF holds no recognized pattern: an opcode there matches
        // no defined pattern and is reported as unknown.
        r == Err::<(), EmulationError>(EmulationError::UnknownInstruction) && post == m
    }
}

/// One full fetch/decode/execute cycle, from the state before the fetch.
pub open spec fn machine_step(
    pre: MachineState,
    post: MachineState,
    r: Result<(), EmulationError>,
) -> bool {
    dispatch_rel(fetch_pc_advance(pre), post, opcode_at(pre), r)
}

/// The machine limits a step leans on: both opcode bytes lie in memory,
/// and a draw reads sprite rows from within memory.
pub open spec fn step_ok(s: MachineState) -> bool {
    &&& s.pc + 1 < 4096
    &&& (op_family(opcode_at(s)) == 0xD ==> draw_in_bounds(
        s,
        op_y(opcode_at(s)),
        op_n(opcode_at(s)),
    ))
}

/// The emulated CHIP-8 machine.
///
/// Fields are public so that a host driver (and tests) can read the
/// framebuffer and inspect or stage state; every operation states in its
/// contract exactly which fields it touches.
pub struct Emu {
    /// The 64x32 framebuffer, row-major: cell `x + y * 64` is on when true.
    pub pixels: Vec<bool>,
    /// The call stack of 16-bit return addresses, at most 16 deep.
    pub the_stack: Vec<u16>,
    /// 4096 bytes of addressable memory.
    pub memory: Vec<u8>,
    /// The program counter: address of the next instruction to fetch.
    pub pc: u16,
    /// The index register, a memory pointer (sprite source addresses).
    pub i: u16,
    /// Countdown timer, decremented by the host at a fixed rate.
    pub delay_timer: u8,
    /// Like `delay_timer`, but sounds a tone while it is not zero.
    pub sound_timer: u8,
    /// The sixteen 8-bit variable registers; register 0xF doubles as the
    /// flag output of arithmetic and drawing instructions.
    pub variables: Vec<u8>,
    /// One flag per key of the 16-key pad: true while held down.
    pub keys: Vec<bool>,
}

impl View for Emu {
    type V = MachineState;

    open spec fn view(&self) -> MachineState {
        MachineState {
            memory: self.memory@,
            pc: self.pc,
            index: self.i,
            regs: self.variables@,
            stack: self.the_stack@,
            delay: self.delay_timer,
            sound: self.sound_timer,
            fb: self.pixels@,
            keys: self.keys@,
        }
    }
}

impl Emu {
    /// The machine has the right shape: see `MachineState::wf`.
    pub open spec fn wf(self) -> bool {
        self@.wf()
    }

    /// A fresh machine: memory zeroed but for the font table, program
    /// counter at 0x200, everything else cleared.
    pub fn new() -> (e: Emu)
        ensures
            e.wf(),
            e@ == init_state(),
    {
        let mut memory: Vec<u8> = zero_bytes(4096);

        let fonts: Vec<u8> = font_sprites();
        let mut k: usize = 0;
        while k < 0x4F
            invariant
                k <= 0x4F,
                fonts@ == font(),
                memory@.len() == 4096,
                forall|a: int| 0x50 <= a < 0x50 + k ==> memory@[a] == font()[a - 0x50],
                forall|a: int| (0 <= a < 0x50 || 0x50 + k <= a < 4096) ==> memory@[a] == 0u8,
            decreases 0x4F - k,
        {
            memory[0x50 + k] = fonts[k];
            k += 1;
        }

        let e = Emu {
            pixels: false_cells(2048),
            the_stack: Vec::new(),
            memory,
            pc: 0x200,
            i: 0,
            delay_timer: 0,
            sound_timer: 0,
            variables: zero_bytes(16),
            keys: false_cells(16),
        };
        proof {
            assert(e@.memory =~= init_state().memory);
            assert(e@.regs =~= init_state().regs);
            assert(e@.fb =~= init_state().fb);
            assert(e@.keys =~= init_state().keys);
            assert(e@.stack =~= init_state().stack);
            assert(e@ =~= init_state());
        }
        e
    }

    /// Copy a program image into memory starting at 0x200, one byte per
    /// increasing address. An image larger than the 3584 bytes of room
    /// is rejected whole: memory is left exactly as it was.
    pub fn read_rom(&mut self, rom: Vec<u8>) -> (r: Result<(), EmulationError>)
        requires
            old(self).wf(),
        ensures
            final(self).wf(),
            rom@.len() <= 3584 ==> r is Ok && final(self)@ == load_rom(old(self)@, rom@),
            rom@.len() > 3584 ==> r == Err::<(), EmulationError>(EmulationError::LoadingError)
                && final(self)@ == old(self)@,
    {
        if rom.len() > 3584 {
            return Err(EmulationError::LoadingError);
        }
        let mut k: usize = 0;
        while k < rom.len()
            invariant
                self.wf(),
                k <= rom@.len() <= 3584,
                self@ == (MachineState { memory: self@.memory, ..old(self)@ }),
                forall|j: int| 0 <= j < k ==> self@.memory[0x200 + j] == rom@[j],
                forall|a: int|
                    (0 <= a < 0x200 || 0x200 + k <= a < 4096) ==> self@.memory[a]
                        == old(self)@.memory[a],
            decreases rom@.len() - k,
        {
            self.memory[0x200 + k] = rom[k];
            k += 1;
        }
        proof {
            assert(self@.memory =~= load_rom(old(self)@, rom@).memory);
            assert(self@ =~= load_rom(old(self)@, rom@));
        }
        Ok(())
    }

    /// One tick of the delay timer: count down, stopping at zero.
    pub fn decrement_delay(&mut self)
        requires
            old(self).wf(),
        ensures
            final(self).wf(),
            final(self)@ == (MachineState { delay: tick_down(old(self)@.delay), ..old(self)@ }),
    {
        if self.delay_timer > 0 {
            self.delay_timer = self.delay_timer - 1;
        }
    }

    /// One tick of the sound timer: count down, stopping at zero.
    pub fn decrement_sound(&mut self)
        requires
            old(self).wf(),
        ensures
            final(self).wf(),
            final(self)@ == (MachineState { sound: tick_down(old(self)@.sound), ..old(self)@ }),
    {
        if self.sound_timer > 0 {
            self.sound_timer = self.sound_timer - 1;
        }
    }

    /// The host reports a key of the 16-key pad held down.
    pub fn keypress(&mut self, key_index: usize)
        requires
            old(self).wf(),
            key_index < 16,
        ensures
            final(self).wf(),
            final(self)@ == (MachineState {
                keys: old(self)@.keys.update(key_index as int, true),
                ..old(self)@
            }),
    {
        self.keys[key_index] = true;
    }

    /// The host reports a key of the 16-key pad released.
    pub fn keyrelease(&mut self, key_index: usize)
        requires
            old(self).wf(),
            key_index < 16,
        ensures
            final(self).wf(),
            final(self)@ == (MachineState {
                keys: old(self)@.keys.update(key_index as int, false),
                ..old(self)@
            }),
    {
        self.keys[key_index] = false;
    }

    /// Fetch: read the two bytes at the program counter, combine them
    /// big-endian into an opcode, and advance the counter past them.
    pub fn fetch_instruction(&mut self) -> (op: u16)
        requires
            old(self).wf(),
            old(self)@.pc + 1 < 4096,
        ensures
            final(self).wf(),
            op == opcode_at(old(self)@),
            final(self)@ == fetch_pc_advance(old(self)@),
    {
        let upper_half = self.memory[self.pc as usize] as u16;
        self.pc = self.pc + 1;
        let lower_half = self.memory[self.pc as usize] as u16;
        self.pc = self.pc + 1;
        upper_half * 256 + lower_half
    }

    /// Decode: the six fields of an opcode — instruction family, register
    /// indices X and Y, and the immediates N, NN and NNN.
    pub fn extract_from_opcode(opcode: u16) -> (fields: (u16, u16, u16, u16, u16, u16))
        ensures
            fields.0 == op_family(opcode),
            fields.1 == op_x(opcode),
            fields.2 == op_y(opcode),
            fields.3 == op_n(opcode),
            fields.4 == op_nn(opcode),
            fields.5 == op_nnn(opcode),
            fields.0 < 16,
            fields.1 < 16,
            fields.2 < 16,
            fields.3 < 16,
            fields.4 < 256,
            fields.5 < 4096,
    {
        let instr_type = opcode / 0x1000;
        let x = (opcode / 0x100) % 0x10;
        let y = (opcode / 0x10) % 0x10;
        let n = opcode % 0x10;
        let nn = opcode % 0x100;
        let nnn = opcode % 0x1000;

        (instr_type, x, y, n, nn, nnn)
    }

    /// Execute exactly one instruction: fetch the opcode at the program
    /// counter, advance the counter past it, and carry out the decoded
    /// operation. The first failure is reported with no further side
    /// effects.
    pub fn fetch_decode_execute_instr(&mut self) -> (r: Result<(), EmulationError>)
        requires
            old(self).wf(),
            step_ok(old(self)@),
        ensures
            final(self).wf(),
            machine_step(old(self)@, final(self)@, r),
    {
        let opcode = self.fetch_instruction();
        self.decode_and_execute(opcode)
    }

    /// Decode an opcode and carry it out: route by instruction family,
    /// then by N or NN where a family has sub-opcodes.
    pub fn decode_and_execute(&mut self, opcode: u16) -> (r: Result<(), EmulationError>)
        requires
            old(self).wf(),
            old(self)@.pc + 2 < 0x10000,
            op_family(opcode) == 0xD ==> draw_in_bounds(old(self)@, op_y(opcode), op_n(opcode)),
        ensures
            final(self).wf(),
            dispatch_rel(old(self)@, final(self)@, opcode, r),
    {
        let (instr_type, x, y, n, nn, nnn) = Self::extract_from_opcode(opcode);
        match instr_type {
            0x0 => match nnn {
                0x0E0 => self.clear_screen(),
                0x0EE => self.return_from_subroutine(),
                0x000 => Err(EmulationError::VacantMemory),
                _ => Err(EmulationError::UnknownInstruction),
            },
            0x1 => self.jump(nnn),
            0x6 => self.set_register(x, nn),
            0x7 => self.add_val_to_register(x, nn),
            0xA => self.set_index_register(nnn),
            0xD => self.display(x, y, n),
            0x2 => self.call_subroutine(nnn),
            0x3 => self.skip_if_vx_eq_nn(x, nn),
            0x4 => self.skip_if_vx_neq_nn(x, nn),
            0x5 => self.skip_if_vx_eq_vy(x, y),
            0x9 => self.skip_if_vx_neq_vy(x, y),
            0x8 => match n {
                0x0 => self.set_vx_to_vy(x, y),
                0x1 => self.vx_oreq_vy(x, y),
                0x2 => self.vx_andeq_vy(x, y),
                0x3 => self.vx_xoreq_vy(x, y),
                0x4 => self.vx_pluseq_vy(x, y),
                0x5 => self.vx_minuseq_vy(x, y),
                0x7 => self.vx_equals_vy_minus_vx(x, y),
                0x6 => self.shift_right_1bit(x, y),
                0xE => self.shift_left_1bit(x, y),
                _ => Err(EmulationError::UnknownInstruction),
            },
            0xB => self.jump_with_offset(nnn),
            0xC => self.random_gen(x, nn),
            0xE => match nn {
                0x9E => self.skip_if_key(x),
                0xA1 => self.skip_if_not_key(x),
                _ => Err(EmulationError::UnknownInstruction),
            },
            _ => Err(EmulationError::UnknownInstruction),
        }
    }

    /// Push a return address, refusing a 17th entry. The push is rejected
    /// before storing, so the stack never exceeds its 16-entry bound.
    fn stack_push(&mut self, entry: u16) -> (r: Result<(), EmulationError>)
        requires
            old(self).wf(),
        ensures
            final(self).wf(),
            old(self)@.stack.len() < 16 ==> r is Ok && final(self)@ == (MachineState {
                stack: old(self)@.stack.push(entry),
                ..old(self)@
            }),
            old(self)@.stack.len() >= 16 ==> r == Err::<(), EmulationError>(
                EmulationError::StackOverflow,
            ) && final(self)@ == old(self)@,
    {
        if self.the_stack.len() >= 16 {
            return Err(EmulationError::StackOverflow);
        }
        self.the_stack.push(entry);
        Ok(())
    }

    /// Pop a return address; an empty stack yields the fallback value 0,
    /// the mark of an unbalanced call/return.
    fn stack_pop(&mut self) -> (val: u16)
        requires
            old(self).wf(),
        ensures
            final(self).wf(),
            old(self)@.stack.len() > 0 ==> val == old(self)@.stack.last() && final(self)@
                == (MachineState { stack: old(self)@.stack.drop_last(), ..old(self)@ }),
            old(self)@.stack.len() == 0 ==> val == 0 && final(self)@ == old(self)@,
    {
        if let Some(val) = self.the_stack.pop() {
            val
        } else {
            0
        }
    }

    // -------------
    // INSTRUCTIONS
    // -------------

    /// `00E0`: turn the entire screen off.
    pub fn clear_screen(&mut self) -> (r: Result<(), EmulationError>)
        requires
            old(self).wf(),
        ensures
            final(self).wf(),
            r is Ok,
            final(self)@ == spec_clear(old(self)@),
    {
        self.pixels = false_cells(2048);
        proof {
            assert(self@.fb =~= spec_clear(old(self)@).fb);
        }
        Ok(())
    }

    /// `1NNN`: set the program counter to NNN.
    pub fn jump(&mut self, nnn: u16) -> (r: Result<(), EmulationError>)
        requires
            old(self).wf(),
        ensures
            final(self).wf(),
            r is Ok,
            final(self)@ == spec_jump(old(self)@, nnn),
    {
        self.pc = nnn;
        Ok(())
    }

    /// `6XNN`: set register X to NN.
    pub fn set_register(&mut self, x: u16, nn: u16) -> (r: Result<(), EmulationError>)
        requires
            old(self).wf(),
            x < 16,
        ensures
            final(self).wf(),
            r is Ok,
            final(self)@ == spec_set_reg(old(self)@, x, nn as u8),
    {
        self.variables[x as usize] = nn as u8;
        Ok(())
    }

    /// `7XNN`: add NN to register X, wrapping modulo 256.
    pub fn add_val_to_register(&mut self, x: u16, nn: u16) -> (r: Result<(), EmulationError>)
        requires
            old(self).wf(),
            x < 16,
            nn < 256,
        ensures
            final(self).wf(),
            r is Ok,
            final(self)@ == spec_add_reg(old(self)@, x, nn as u8),
    {
        let mut temp = self.variables[x as usize] as u16;
        temp = temp + nn;
        if temp > 255 {
            temp = temp - 256;
        }
        assert(temp == wrap_add(old(self)@.regs[x as int], nn as u8));
        self.variables[x as usize] = temp as u8;
        Ok(())
    }

    /// `ANNN`: set the index register to NNN.
    pub fn set_index_register(&mut self, nnn: u16) -> (r: Result<(), EmulationError>)
        requires
            old(self).wf(),
        ensures
            final(self).wf(),
            r is Ok,
            final(self)@ == spec_set_index(old(self)@, nnn),
    {
        self.i = nnn;
        Ok(())
    }

    /// `2NNN`: push the advanced program counter, then jump to NNN. Fails
    /// with `StackOverflow`, leaving the state alone, when the stack
    /// already holds 16 return addresses.
    pub fn call_subroutine(&mut self, nnn: u16) -> (r: Result<(), EmulationError>)
        requires
            old(self).wf(),
        ensures
            final(self).wf(),
            old(self)@.stack.len() < 16 ==> r is Ok && final(self)@ == spec_call(
                old(self)@,
                nnn,
            ),
            old(self)@.stack.len() >= 16 ==> r == Err::<(), EmulationError>(
                EmulationError::StackOverflow,
            ) && final(self)@ == old(self)@,
    {
        match self.stack_push(self.pc) {
            Ok(()) => {
                self.pc = nnn;
                Ok(())
            },
            Err(e) => Err(e),
        }
    }

    /// `00EE`: return from a subroutine by popping the program counter.
    pub fn return_from_subroutine(&mut self) -> (r: Result<(), EmulationError>)
        requires
            old(self).wf(),
        ensures
            final(self).wf(),
            r is Ok,
            final(self)@ == spec_ret(old(self)@),
    {
        let val = self.stack_pop();
        self.pc = val;
        Ok(())
    }

    /// `3XNN`: skip one instruction if register X equals NN.
    pub fn skip_if_vx_eq_nn(&mut self, x: u16, nn: u16) -> (r: Result<(), EmulationError>)
        requires
            old(self).wf(),
            x < 16,
            old(self)@.pc + 2 < 0x10000,
        ensures
            final(self).wf(),
            r is Ok,
            final(self)@ == spec_skip(old(self)@, old(self)@.regs[x as int] == nn as u8),
    {
        if self.variables[x as usize] == nn as u8 {
            self.pc = self.pc + 2;
        }
        Ok(())
    }

    /// `4XNN`: skip one instruction if register X does not equal NN.
    pub fn skip_if_vx_neq_nn(&mut self, x: u16, nn: u16) -> (r: Result<(), EmulationError>)
        requires
            old(self).wf(),
            x < 16,
            old(self)@.pc + 2 < 0x10000,
        ensures
            final(self).wf(),
            r is Ok,
            final(self)@ == spec_skip(old(self)@, old(self)@.regs[x as int] != nn as u8),
    {
        if self.variables[x as usize] != nn as u8 {
            self.pc = self.pc + 2;
        }
        Ok(())
    }

    /// `5XY0`: skip one instruction if register X equals register Y.
    pub fn skip_if_vx_eq_vy(&mut self, x: u16, y: u16) -> (r: Result<(), EmulationError>)
        requires
            old(self).wf(),
            x < 16,
            y < 16,
            old(self)@.pc + 2 < 0x10000,
        ensures
            final(self).wf(),
            r is Ok,
            final(self)@ == spec_skip(
                old(self)@,
                old(self)@.regs[x as int] == old(self)@.regs[y as int],
            ),
    {
        if self.variables[x as usize] == self.variables[y as usize] {
            self.pc = self.pc + 2;
        }
        Ok(())
    }

    /// `9XY0`: skip one instruction if register X does not equal register Y.
    pub fn skip_if_vx_neq_vy(&mut self, x: u16, y: u16) -> (r: Result<(), EmulationError>)
        requires
            old(self).wf(),
            x < 16,
            y < 16,
            old(self)@.pc + 2 < 0x10000,
        ensures
            final(self).wf(),
            r is Ok,
            final(self)@ == spec_skip(
                old(self)@,
                old(self)@.regs[x as int] != old(self)@.regs[y as int],
            ),
    {
        if self.variables[x as usize] != self.variables[y as usize] {
            self.pc = self.pc + 2;
        }
        Ok(())
    }

    /// `8XY0`: set register X to register Y.
    pub fn set_vx_to_vy(&mut self, x: u16, y: u16) -> (r: Result<(), EmulationError>)
        requires
            old(self).wf(),
            x < 16,
            y < 16,
        ensures
            final(self).wf(),
            r is Ok,
            final(self)@ == spec_set_reg(old(self)@, x, old(self)@.regs[y as int]),
    {
        self.variables[x as usize] = self.variables[y as usize];
        Ok(())
    }

    /// `8XY1`: register X |= register Y.
    pub fn vx_oreq_vy(&mut self, x: u16, y: u16) -> (r: Result<(), EmulationError>)
        requires
            old(self).wf(),
            x < 16,
            y < 16,
        ensures
            final(self).wf(),
            r is Ok,
            final(self)@ == spec_set_reg(
                old(self)@,
                x,
                old(self)@.regs[x as int] | old(self)@.regs[y as int],
            ),
    {
        let v = self.variables[x as usize] | self.variables[y as usize];
        self.variables[x as usize] = v;
        Ok(())
    }

    /// `8XY2`: register X &= register Y.
    pub fn vx_andeq_vy(&mut self, x: u16, y: u16) -> (r: Result<(), EmulationError>)
        requires
            old(self).wf(),
            x < 16,
            y < 16,
        ensures
            final(self).wf(),
            r is Ok,
            final(self)@ == spec_set_reg(
                old(self)@,
                x,
                old(self)@.regs[x as int] & old(self)@.regs[y as int],
            ),
    {
        let v = self.variables[x as usize] & self.variables[y as usize];
        self.variables[x as usize] = v;
        Ok(())
    }

    /// `8XY3`: register X ^= register Y.
    pub fn vx_xoreq_vy(&mut self, x: u16, y: u16) -> (r: Result<(), EmulationError>)
        requires
            old(self).wf(),
            x < 16,
            y < 16,
        ensures
            final(self).wf(),
            r is Ok,
            final(self)@ == spec_set_reg(
                old(self)@,
                x,
                old(self)@.regs[x as int] ^ old(self)@.regs[y as int],
            ),
    {
        let v = self.variables[x as usize] ^ self.variables[y as usize];
        self.variables[x as usize] = v;
        Ok(())
    }

    /// `8XY4`: register X += register Y; the flag register is assigned
    /// last, 1 exactly when the unwrapped sum exceeds 255, else 0.
    pub fn vx_pluseq_vy(&mut self, x: u16, y: u16) -> (r: Result<(), EmulationError>)
        requires
            old(self).wf(),
            x < 16,
            y < 16,
        ensures
            final(self).wf(),
            r is Ok,
            final(self)@ == spec_add_carry(old(self)@, x, y),
    {
        let vx = self.variables[x as usize];
        let vy = self.variables[y as usize];
        let sum: u16 = vx as u16 + vy as u16;
        let flag: u8 = if sum > 255 {
            1
        } else {
            0
        };
        let wrapped: u8 = (sum % 256) as u8;
        self.variables[x as usize] = wrapped;
        self.variables[15] = flag;
        Ok(())
    }

    /// `8XY5`: register X -= register Y, wrapping; the flag register is
    /// assigned last, 0 exactly when the subtraction underflows, else 1.
    pub fn vx_minuseq_vy(&mut self, x: u16, y: u16) -> (r: Result<(), EmulationError>)
        requires
            old(self).wf(),
            x < 16,
            y < 16,
        ensures
            final(self).wf(),
            r is Ok,
            final(self)@ == spec_sub_borrow(old(self)@, x, y),
    {
        let vx = self.variables[x as usize];
        let vy = self.variables[y as usize];
        let flag: u8 = if vy > vx {
            0
        } else {
            1
        };
        let wrapped: u8 = ((vx as u16 + 256 - vy as u16) % 256) as u8;
        self.variables[x as usize] = wrapped;
        self.variables[15] = flag;
        Ok(())
    }

    /// `8XY7`: register X = register Y - register X, wrapping; same
    /// underflow flag convention as `8XY5`.
    pub fn vx_equals_vy_minus_vx(&mut self, x: u16, y: u16) -> (r: Result<(), EmulationError>)
        requires
            old(self).wf(),
            x < 16,
            y < 16,
        ensures
            final(self).wf(),
            r is Ok,
            final(self)@ == spec_sub_rev(old(self)@, x, y),
    {
        let vx = self.variables[x as usize];
        let vy = self.variables[y as usize];
        let flag: u8 = if vx > vy {
            0
        } else {
            1
        };
        let wrapped: u8 = ((vy as u16 + 256 - vx as u16) % 256) as u8;
        self.variables[x as usize] = wrapped;
        self.variables[15] = flag;
        Ok(())
    }

    /// `8XY6`: shift register X right one bit; the flag register receives
    /// the bit shifted out. Register Y is deliberately left out of the
    /// operation: a fixed policy for this documented ISA ambiguity.
    pub fn shift_right_1bit(&mut self, x: u16, _y: u16) -> (r: Result<(), EmulationError>)
        requires
            old(self).wf(),
            x < 16,
        ensures
            final(self).wf(),
            r is Ok,
            final(self)@ == spec_shr(old(self)@, x),
    {
        let to_shift = self.variables[x as usize];
        self.variables[x as usize] = to_shift / 2;
        self.variables[15] = to_shift % 2;
        Ok(())
    }

    /// `8XYE`: shift register X left one bit; the flag register receives
    /// the bit shifted out. Same fixed policy about register Y as `8XY6`.
    pub fn shift_left_1bit(&mut self, x: u16, _y: u16) -> (r: Result<(), EmulationError>)
        requires
            old(self).wf(),
            x < 16,
        ensures
            final(self).wf(),
            r is Ok,
            final(self)@ == spec_shl(old(self)@, x),
    {
        let to_shift = self.variables[x as usize];
        self.variables[x as usize] = ((to_shift as u16 * 2) % 256) as u8;
        self.variables[15] = to_shift / 128;
        Ok(())
    }

    /// `BNNN`: jump to NNN plus register 0. Register 0 is the fixed
    /// offset source: a fixed policy for this documented ISA ambiguity.
    pub fn jump_with_offset(&mut self, nnn: u16) -> (r: Result<(), EmulationError>)
        requires
            old(self).wf(),
            nnn < 0x1000,
        ensures
            final(self).wf(),
            r is Ok,
            final(self)@ == spec_jump_offset(old(self)@, nnn),
    {
        self.pc = nnn + (self.variables[0] as u16);
        Ok(())
    }

    /// `CXNN`: draw a random byte, AND it with NN, store it in register X.
    /// Every outcome stores some byte masked by NN; which byte is up to
    /// the generator.
    pub fn random_gen(&mut self, x: u16, nn: u16) -> (r: Result<(), EmulationError>)
        requires
            old(self).wf(),
            x < 16,
        ensures
            final(self).wf(),
            r is Ok,
            exists|g: u8| final(self)@ == #[trigger] spec_set_reg(old(self)@, x, g & (nn as u8)),
    {
        let generated: u8 = random_byte();
        self.store_masked(x, nn, generated);
        Ok(())
    }

    /// Store `generated & NN` into register X: the verified tail of the
    /// random instruction, exact for every generated byte.
    pub fn store_masked(&mut self, x: u16, nn: u16, generated: u8)
        requires
            old(self).wf(),
            x < 16,
        ensures
            final(self).wf(),
            final(self)@ == spec_set_reg(old(self)@, x, generated & (nn as u8)),
    {
        self.variables[x as usize] = generated & (nn as u8);
    }

    /// `EX9E`: skip one instruction if the key named by register X is
    /// pressed. A register value outside the 16-key range never skips.
    pub fn skip_if_key(&mut self, x: u16) -> (r: Result<(), EmulationError>)
        requires
            old(self).wf(),
            x < 16,
            old(self)@.pc + 2 < 0x10000,
        ensures
            final(self).wf(),
            r is Ok,
            final(self)@ == spec_skip(old(self)@, key_pressed(old(self)@, x)),
    {
        let key_pos = self.variables[x as usize] as usize;
        if key_pos < 16 && self.keys[key_pos] {
            self.pc = self.pc + 2;
        }
        Ok(())
    }

    /// `EXA1`: skip one instruction if the key named by register X is not
    /// pressed. A register value outside the 16-key range never skips.
    pub fn skip_if_not_key(&mut self, x: u16) -> (r: Result<(), EmulationError>)
        requires
            old(self).wf(),
            x < 16,
            old(self)@.pc + 2 < 0x10000,
        ensures
            final(self).wf(),
            r is Ok,
            final(self)@ == spec_skip(old(self)@, key_not_pressed(old(self)@, x)),
    {
        let key_pos = self.variables[x as usize] as usize;
        if key_pos < 16 && !self.keys[key_pos] {
            self.pc = self.pc + 2;
        }
        Ok(())
    }
}

impl Emu {
    /// `DXYN`: draw the N-row sprite at the index register, at the column
    /// in register X and row in register Y (each wrapped onto the grid),
    /// XOR-ing set sprite bits into the framebuffer, clipped at the right
    /// and bottom edges. The flag register is assigned last: 1 exactly
    /// when some cell was turned off.
    #[verifier::loop_isolation(false)]
    pub fn display(&mut self, x: u16, y: u16, n: u16) -> (r: Result<(), EmulationError>)
        requires
            old(self).wf(),
            x < 16,
            y < 16,
            n < 16,
            draw_in_bounds(old(self)@, y, n),
        ensures
            final(self).wf(),
            r is Ok,
            final(self)@ == spec_draw(old(self)@, x, y, n),
    {
        let x0 = (self.variables[x as usize] % 64) as usize;
        let y0 = (self.variables[y as usize] % 32) as usize;
        let rows: usize = if (n as usize) <= 32 - y0 {
            n as usize
        } else {
            32 - y0
        };
        assert(rows as int == draw_rows(old(self)@, y, n));

        let mut flag: u8 = 0;
        let mut row: usize = 0;
        proof {
            lemma_draw_empty(old(self)@, x, y);
        }
        while row < rows
            invariant
                row <= rows,
                flag == 0 || flag == 1,
                self.wf(),
                self@ == (MachineState { fb: self@.fb, ..old(self)@ }),
                forall|idx: int|
                    0 <= idx < 2048 ==> self@.fb[idx] == (old(self)@.fb[idx] != cell_flips(
                        old(self)@,
                        x,
                        y,
                        row as int,
                        idx,
                    )),
                flag == 1 <==> draw_collision(old(self)@, x, y, row as int),
            decreases rows - row,
        {
            let sprite_byte = self.memory[self.i as usize + row];
            proof {
                lemma_prefix_empty(old(self)@, x, y, row as int);
            }
            let mut b: usize = 0;
            while b < 8
                invariant
                    b <= 8,
                    flag == 0 || flag == 1,
                    self.wf(),
                    self@ == (MachineState { fb: self@.fb, ..old(self)@ }),
                    forall|idx: int|
                        0 <= idx < 2048 ==> self@.fb[idx] == (old(self)@.fb[idx] != (cell_flips(
                            old(self)@,
                            x,
                            y,
                            row as int,
                            idx,
                        ) || row_prefix_flips(old(self)@, x, y, row as int, b as int, idx))),
                    flag == 1 <==> (draw_collision(old(self)@, x, y, row as int)
                        || row_prefix_collision(old(self)@, x, y, row as int, b as int)),
                decreases 8 - b,
            {
                let ghost s0 = old(self)@;
                let c = x0 + b;
                proof {
                    lemma_prefix_extend(s0, x, y, row as int, b as int);
                }
                if c < 64 && bit_at(sprite_byte, b) {
                    let idx = c + 64 * (y0 + row);
                    proof {
                        lemma_cell_index(c as int, (y0 + row) as int);
                    }
                    if self.pixels[idx] {
                        self.pixels[idx] = false;
                        flag = 1;
                    } else {
                        self.pixels[idx] = true;
                    }
                }
                b += 1;
            }
            proof {
                lemma_row_extend(old(self)@, x, y, row as int);
            }
            row += 1;
        }
        self.variables[15] = flag;
        proof {
            assert(self@.fb =~= spec_draw(old(self)@, x, y, n).fb);
            assert(self@ =~= spec_draw(old(self)@, x, y, n));
        }
        Ok(())
    }
}

/// Bit `j` of a sprite byte, most-significant first.
fn bit_at(byte: u8, j: usize) -> (r: bool)
    requires
        j < 8,
    ensures
        r == sprite_bit(byte, j as int),
{
    let weight: u8 = if j == 0 {
        128
    } else if j == 1 {
        64
    } else if j == 2 {
        32
    } else if j == 3 {
        16
    } else if j == 4 {
        8
    } else if j == 5 {
        4
    } else if j == 6 {
        2
    } else {
        1
    };
    assert(weight as int == bit_weight(j as int));
    (byte / weight) % 2 == 1
}

/// A framebuffer cell index decomposes uniquely into column and row.
proof fn lemma_cell_index(c: int, r: int)
    requires
        0 <= c < 64,
        0 <= r < 32,
    ensures
        0 <= c + 64 * r < 2048,
        (c + 64 * r) % 64 == c,
        (c + 64 * r) / 64 == r,
{
    assert((c + 64 * r) % 64 == c && (c + 64 * r) / 64 == r) by (nonlinear_arith)
        requires
            0 <= c < 64,
            0 <= r < 32,
    ;
}

/// A draw of zero rows flips nothing and collides with nothing.
proof fn lemma_draw_empty(s: MachineState, x: u16, y: u16)
    ensures
        !draw_collision(s, x, y, 0),
        forall|idx: int| !cell_flips(s, x, y, 0, idx),
{
    assert forall|idx: int| !cell_flips(s, x, y, 0, idx) by {}
    if draw_collision(s, x, y, 0) {
        let idx = choose|idx: int| 0 <= idx < 2048 && cell_flips(s, x, y, 0, idx) && s.fb[idx];
        assert(false);
    }
}

/// A row prefix of zero bits flips nothing and collides with nothing.
proof fn lemma_prefix_empty(s: MachineState, x: u16, y: u16, k: int)
    ensures
        !row_prefix_collision(s, x, y, k, 0),
        forall|idx: int| !row_prefix_flips(s, x, y, k, 0, idx),
{
    assert forall|idx: int| !row_prefix_flips(s, x, y, k, 0, idx) by {}
    if row_prefix_collision(s, x, y, k, 0) {
        let idx = choose|idx: int|
            0 <= idx < 2048 && row_prefix_flips(s, x, y, k, 0, idx) && s.fb[idx];
        assert(false);
    }
}

/// Extending a row prefix by one bit adds at most the one cell under that
/// bit, both to the flipped set and to the collision condition.
proof fn lemma_prefix_extend(s: MachineState, x: u16, y: u16, k: int, b: int)
    requires
        0 <= b < 8,
        0 <= k,
        draw_y0(s, y) + k < 32,
    ensures
        forall|idx: int|
            0 <= idx < 2048 ==> #[trigger] row_prefix_flips(s, x, y, k, b + 1, idx) == (
            row_prefix_flips(s, x, y, k, b, idx) || (draw_x0(s, x) + b < 64 && idx == draw_x0(s, x)
                + b + 64 * (draw_y0(s, y) + k) && sprite_bit(s.memory[s.index + k], b))),
        row_prefix_collision(s, x, y, k, b + 1) == (row_prefix_collision(s, x, y, k, b) || (
        draw_x0(s, x) + b < 64 && sprite_bit(s.memory[s.index + k], b) && s.fb[draw_x0(s, x) + b
            + 64 * (draw_y0(s, y) + k)])),
{
    let x0 = draw_x0(s, x);
    let y0 = draw_y0(s, y);
    assert forall|idx: int|
        0 <= idx < 2048 implies #[trigger] row_prefix_flips(s, x, y, k, b + 1, idx) == (
    row_prefix_flips(s, x, y, k, b, idx) || (x0 + b < 64 && idx == x0 + b + 64 * (y0 + k)
        && sprite_bit(s.memory[s.index + k], b))) by {
        if x0 + b < 64 {
            lemma_cell_index(x0 + b, y0 + k);
        }
        assert(idx == 64 * (idx / 64) + idx % 64);
    }
    if row_prefix_collision(s, x, y, k, b + 1) {
        let idx = choose|idx: int|
            0 <= idx < 2048 && row_prefix_flips(s, x, y, k, b + 1, idx) && s.fb[idx];
        if row_prefix_flips(s, x, y, k, b, idx) {
            assert(row_prefix_collision(s, x, y, k, b));
        } else {
            assert(x0 + b < 64 && sprite_bit(s.memory[s.index + k], b) && s.fb[x0 + b + 64 * (y0
                + k)]);
        }
    }
    if row_prefix_collision(s, x, y, k, b) {
        let idx = choose|idx: int|
            0 <= idx < 2048 && row_prefix_flips(s, x, y, k, b, idx) && s.fb[idx];
        assert(row_prefix_flips(s, x, y, k, b + 1, idx));
        assert(row_prefix_collision(s, x, y, k, b + 1));
    }
    if x0 + b < 64 && sprite_bit(s.memory[s.index + k], b) && s.fb[x0 + b + 64 * (y0 + k)] {
        lemma_cell_index(x0 + b, y0 + k);
        let idx = x0 + b + 64 * (y0 + k);
        assert(row_prefix_flips(s, x, y, k, b + 1, idx));
        assert(row_prefix_collision(s, x, y, k, b + 1));
    }
}

/// A fully drawn row extends the flipped set and the collision condition
/// of the rows before it by exactly that row's cells.
proof fn lemma_row_extend(s: MachineState, x: u16, y: u16, k: int)
    requires
        0 <= k,
    ensures
        forall|idx: int|
            0 <= idx < 2048 ==> #[trigger] cell_flips(s, x, y, k + 1, idx) == (cell_flips(
                s,
                x,
                y,
                k,
                idx,
            ) || row_prefix_flips(s, x, y, k, 8, idx)),
        draw_collision(s, x, y, k + 1) == (draw_collision(s, x, y, k) || row_prefix_collision(
            s,
            x,
            y,
            k,
            8,
        )),
{
    assert forall|idx: int|
        0 <= idx < 2048 implies #[trigger] cell_flips(s, x, y, k + 1, idx) == (cell_flips(
        s,
        x,
        y,
        k,
        idx,
    ) || row_prefix_flips(s, x, y, k, 8, idx)) by {
        assert(idx == 64 * (idx / 64) + idx % 64);
        assert(0 <= idx % 64 < 64);
    }
    if draw_collision(s, x, y, k + 1) {
        let idx = choose|idx: int| 0 <= idx < 2048 && cell_flips(s, x, y, k + 1, idx) && s.fb[idx];
        if cell_flips(s, x, y, k, idx) {
            assert(draw_collision(s, x, y, k));
        } else {
            assert(row_prefix_flips(s, x, y, k, 8, idx));
            assert(row_prefix_collision(s, x, y, k, 8));
        }
    }
    if draw_collision(s, x, y, k) {
        let idx = choose|idx: int| 0 <= idx < 2048 && cell_flips(s, x, y, k, idx) && s.fb[idx];
        assert(cell_flips(s, x, y, k + 1, idx));
        assert(draw_collision(s, x, y, k + 1));
    }
    if row_prefix_collision(s, x, y, k, 8) {
        let idx = choose|idx: int|
            0 <= idx < 2048 && row_prefix_flips(s, x, y, k, 8, idx) && s.fb[idx];
        assert(cell_flips(s, x, y, k + 1, idx));
        assert(draw_collision(s, x, y, k + 1));
    }
}

/// Relies on `rand::thread_rng` and `rand::Rng::gen`: one byte from the
/// thread-local generator. Nothing is promised of the value.
#[verifier::external_body]
fn random_byte() -> u8 {
    rand::thread_rng().gen()
}

/// A vector of `n` zero bytes.
fn zero_bytes(n: usize) -> (v: Vec<u8>)
    ensures
        v@.len() == n,
        forall|j: int| 0 <= j < n ==> v@[j] == 0u8,
{
    let mut v: Vec<u8> = Vec::new();
    let mut k: usize = 0;
    while k < n
        invariant
            k <= n,
            v@.len() == k,
            forall|j: int| 0 <= j < k ==> v@[j] == 0u8,
        decreases n - k,
    {
        v.push(0);
        k += 1;
    }
    v
}

/// A vector of `n` cleared cells.
fn false_cells(n: usize) -> (v: Vec<bool>)
    ensures
        v@.len() == n,
        forall|j: int| 0 <= j < n ==> !v@[j],
{
    let mut v: Vec<bool> = Vec::new();
    let mut k: usize = 0;
    while k < n
        invariant
            k <= n,
            v@.len() == k,
            forall|j: int| 0 <= j < k ==> !v@[j],
        decreases n - k,
    {
        v.push(false);
        k += 1;
    }
    v
}

/// The font sprites as bytes, in glyph order: the runtime copy of `font`.
fn font_sprites() -> (v: Vec<u8>)
    ensures
        v@ == font(),
{
    let v: Vec<u8> = vec![
        0xF0, 0x90, 0x90, 0x90, 0xF0, // 0
        0x20, 0x60, 0x20, 0x20, 0x70, // 1
        0xF0, 0x10, 0xF0, 0x80, 0xF0, // 2
        0xF0, 0x10, 0xF0, 0x10, 0xF0, // 3
        0x90, 0x90, 0xF0, 0x10, 0x10, // 4
        0xF0, 0x80, 0xF0, 0x10, 0xF0, // 5
        0xF0, 0x80, 0xF0, 0x90, 0xF0, // 6
        0xF0, 0x10, 0x20, 0x40, 0x40, // 7
        0xF0, 0x90, 0xF0, 0x90, 0xF0, // 8
        0xF0, 0x90, 0xF0, 0x10, 0xF0, // 9
        0xF0, 0x90, 0xF0, 0x90, 0x90, // A
        0xE0, 0x90, 0xE0, 0x90, 0xE0, // B
        0xF0, 0x80, 0x80, 0x80, 0xF0, // C
        0xE0, 0x90, 0x90, 0x90, 0xE0, // D
        0xF0, 0x80, 0xF0, 0x80, 0xF0, // E
        0xF0, 0x80, 0xF0, 0x80, 0x80, // F
    ];
    proof {
        assert(v@ =~= font());
    }
    v
}

} // verus!
