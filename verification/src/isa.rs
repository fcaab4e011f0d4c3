//! The mathematical model of the machine and of its instruction set.
//!
//! `MachineState` is the ghost image of the interpreter's state. Every
//! executable operation of the interpreter is specified as a function (or,
//! for the one random instruction, a relation) over this model; the
//! executable code in `emu` is proved to follow it.

use vstd::prelude::*;

verus! {

/// Ghost image of the whole machine: memory, program counter, index
/// register, the sixteen variable registers, the call stack, the two
/// timers, the framebuffer (row-major, cell `col + row * 64`) and the
/// sixteen key flags.
#[verifier::ext_equal]
pub ghost struct MachineState {
    pub memory: Seq<u8>,
    pub pc: u16,
    pub index: u16,
    pub regs: Seq<u8>,
    pub stack: Seq<u16>,
    pub delay: u8,
    pub sound: u8,
    pub fb: Seq<bool>,
    pub keys: Seq<bool>,
}

impl MachineState {
    /// Shape of a well-formed machine: 4096 bytes of memory, 16 registers,
    /// a 64x32 framebuffer, 16 keys, and never more than 16 return
    /// addresses on the call stack.
    pub open spec fn wf(self) -> bool {
        &&& self.memory.len() == 4096
        &&& self.regs.len() == 16
        &&& self.fb.len() == 2048
        &&& self.keys.len() == 16
        &&& self.stack.len() <= 16
    }
}

// ---------------------------------------------------------------------
// Opcode fields
// ---------------------------------------------------------------------

/// Top nibble: the instruction family.
pub open spec fn op_family(op: u16) -> u16 {
    (op as int / 0x1000) as u16
}

/// Second nibble: register index X.
pub open spec fn op_x(op: u16) -> u16 {
    ((op as int / 0x100) % 0x10) as u16
}

/// Third nibble: register index Y.
pub open spec fn op_y(op: u16) -> u16 {
    ((op as int / 0x10) % 0x10) as u16
}

/// Bottom nibble N.
pub open spec fn op_n(op: u16) -> u16 {
    (op as int % 0x10) as u16
}

/// Low byte NN.
pub open spec fn op_nn(op: u16) -> u16 {
    (op as int % 0x100) as u16
}

/// Low 12 bits NNN, used as a memory address.
pub open spec fn op_nnn(op: u16) -> u16 {
    (op as int % 0x1000) as u16
}

/// The opcode fetched at the program counter: two consecutive bytes
/// combined big-endian.
pub open spec fn opcode_at(s: MachineState) -> u16 {
    (s.memory[s.pc as int] * 256 + s.memory[s.pc as int + 1]) as u16
}

// ---------------------------------------------------------------------
// Byte arithmetic
// ---------------------------------------------------------------------

/// Addition of register values, wrapping modulo 256.
pub open spec fn wrap_add(a: u8, b: u8) -> u8 {
    ((a + b) % 256) as u8
}

/// Subtraction of register values, wrapping modulo 256.
pub open spec fn wrap_sub(a: u8, b: u8) -> u8 {
    ((a - b + 256) % 256) as u8
}

/// Two's-complement negation of a byte: the value that, added wrapping,
/// undoes adding `b`.
pub open spec fn wrap_neg(b: u8) -> u8 {
    ((256 - b) % 256) as u8
}

// ---------------------------------------------------------------------
// The initial machine
// ---------------------------------------------------------------------

/// The built-in font: one 5-byte sprite for each hexadecimal digit 0-F.
pub open spec fn font() -> Seq<u8> {
    seq![
        0xF0u8, 0x90, 0x90, 0x90, 0xF0, // 0
        0x20, 0x60, 0x20, 0x20, 0x70, // 1
        0xF0, 0x10, 0xF0, 0x80, 0xF0, // 2
        0xF0, 0x10, 0xF0, 0x10, 0xF0, // 3
        0x90, 0x90, 0xF0, 0x10, 0x10, // 4
        0xF0, 0x80, 0xF0, 0x10, 0xF0, // 5
        0xF0, 0x80, 0xF0, 0x90, 0xF0, // 6
        0xF0, 0x10, 0x20, 0x40, 0x40, // 7
        0xF0, 0x90, 0xF0, 0x90, 0xF0, // 8
        0xF0, 0x90, 0xF0, 0x10, 0xF0, // 9
        0xF0, 0x90, 0xF0, 0x90, 0x90, // A
        0xE0, 0x90, 0xE0, 0x90, 0xE0, // B
        0xF0, 0x80, 0x80, 0x80, 0xF0, // C
        0xE0, 0x90, 0x90, 0x90, 0xE0, // D
        0xF0, 0x80, 0xF0, 0x80, 0xF0, // E
        0xF0, 0x80, 0xF0, 0x80, 0x80, // F
    ]
}

/// Memory of a fresh machine: zero everywhere, with the font bytes written
/// to 0x050..=0x09E (the 79 addresses of the reserved font window).
pub open spec fn init_memory() -> Seq<u8> {
    Seq::new(4096, |a: int| if 0x50 <= a < 0x9F { font()[a - 0x50] } else { 0u8 })
}

/// A fresh machine: cleared state, font in place, program counter at the
/// program load address 0x200.
pub open spec fn init_state() -> MachineState {
    MachineState {
        memory: init_memory(),
        pc: 0x200,
        index: 0,
        regs: Seq::new(16, |j: int| 0u8),
        stack: Seq::empty(),
        delay: 0,
        sound: 0,
        fb: Seq::new(2048, |j: int| false),
        keys: Seq::new(16, |j: int| false),
    }
}

/// The machine after a program image is copied in, one byte per address
/// from 0x200 upward. Defined for images that fit (at most 3584 bytes).
pub open spec fn load_rom(s: MachineState, rom: Seq<u8>) -> MachineState {
    MachineState {
        memory: Seq::new(
            4096,
            |a: int|
                if 0x200 <= a < 0x200 + rom.len() {
                    rom[a - 0x200]
                } else {
                    s.memory[a]
                },
        ),
        ..s
    }
}

// ---------------------------------------------------------------------
// Instruction semantics
// ---------------------------------------------------------------------
//
// Each instruction's effect is a function from the machine state after the
// fetch (program counter already advanced by 2) to the next state.

/// The fetch step's effect on the state: the program counter moves past
/// the two opcode bytes before the instruction executes, so control-flow
/// instructions overwrite this advanced value.
pub open spec fn fetch_pc_advance(s: MachineState) -> MachineState {
    MachineState { pc: (s.pc + 2) as u16, ..s }
}

/// `00E0`: clear the framebuffer to all-off.
pub open spec fn spec_clear(s: MachineState) -> MachineState {
    MachineState { fb: Seq::new(2048, |j: int| false), ..s }
}

/// `1NNN`: set the program counter to NNN.
pub open spec fn spec_jump(s: MachineState, nnn: u16) -> MachineState {
    MachineState { pc: nnn, ..s }
}

/// Write `v` to register X, leaving everything else alone. The common
/// shape of `6XNN` and of the register-arithmetic family.
pub open spec fn spec_set_reg(s: MachineState, x: u16, v: u8) -> MachineState {
    MachineState { regs: s.regs.update(x as int, v), ..s }
}

/// `7XNN`: add NN to register X, wrapping modulo 256. The flag register is
/// not touched.
pub open spec fn spec_add_reg(s: MachineState, x: u16, nn: u8) -> MachineState {
    spec_set_reg(s, x, wrap_add(s.regs[x as int], nn))
}

/// `ANNN`: set the index register to NNN.
pub open spec fn spec_set_index(s: MachineState, nnn: u16) -> MachineState {
    MachineState { index: nnn, ..s }
}

/// `2NNN` when the stack has room: push the (already advanced) program
/// counter and jump to NNN.
pub open spec fn spec_call(s: MachineState, nnn: u16) -> MachineState {
    MachineState { stack: s.stack.push(s.pc), pc: nnn, ..s }
}

/// `00EE`: pop the return address into the program counter. Popping an
/// empty stack yields the defined fallback address 0.
pub open spec fn spec_ret(s: MachineState) -> MachineState {
    if s.stack.len() > 0 {
        MachineState { pc: s.stack.last(), stack: s.stack.drop_last(), ..s }
    } else {
        MachineState { pc: 0, ..s }
    }
}

/// The skip family: advance the program counter by one more instruction
/// when `cond` holds.
pub open spec fn spec_skip(s: MachineState, cond: bool) -> MachineState {
    if cond {
        MachineState { pc: (s.pc + 2) as u16, ..s }
    } else {
        s
    }
}

/// `8XY4`: register X += register Y; the flag register is set last, to 1
/// exactly when the unwrapped sum exceeds 255.
pub open spec fn spec_add_carry(s: MachineState, x: u16, y: u16) -> MachineState {
    let sum = s.regs[x as int] + s.regs[y as int];
    let flag: u8 = if sum > 255 {
        1
    } else {
        0
    };
    MachineState { regs: s.regs.update(x as int, (sum % 256) as u8).update(15, flag), ..s }
}

/// `8XY5`: register X -= register Y, wrapping; the flag register is set
/// last, to 0 exactly when the subtraction underflows.
pub open spec fn spec_sub_borrow(s: MachineState, x: u16, y: u16) -> MachineState {
    let diff = s.regs[x as int] - s.regs[y as int];
    let flag: u8 = if diff < 0 {
        0
    } else {
        1
    };
    MachineState { regs: s.regs.update(x as int, ((diff + 256) % 256) as u8).update(15, flag), ..s }
}

/// `8XY7`: register X = register Y - register X, wrapping; same underflow
/// flag convention as `8XY5`.
pub open spec fn spec_sub_rev(s: MachineState, x: u16, y: u16) -> MachineState {
    let diff = s.regs[y as int] - s.regs[x as int];
    let flag: u8 = if diff < 0 {
        0
    } else {
        1
    };
    MachineState { regs: s.regs.update(x as int, ((diff + 256) % 256) as u8).update(15, flag), ..s }
}

/// `8XY6`: shift register X right one bit; the flag register receives the
/// bit shifted out. Register Y is deliberately not copied first: this
/// interpreter fixes that documented ambiguity this way.
pub open spec fn spec_shr(s: MachineState, x: u16) -> MachineState {
    let v = s.regs[x as int];
    MachineState { regs: s.regs.update(x as int, (v / 2) as u8).update(15, (v % 2) as u8), ..s }
}

/// `8XYE`: shift register X left one bit; the flag register receives the
/// bit shifted out. Same fixed policy about register Y as `8XY6`.
pub open spec fn spec_shl(s: MachineState, x: u16) -> MachineState {
    let v = s.regs[x as int];
    MachineState {
        regs: s.regs.update(x as int, ((v * 2) % 256) as u8).update(15, (v / 128) as u8),
        ..s
    }
}

/// `BNNN`: jump to NNN plus register 0. This interpreter fixes register 0
/// as the offset source (the documented ambiguity with `BXNN` variants).
pub open spec fn spec_jump_offset(s: MachineState, nnn: u16) -> MachineState {
    MachineState { pc: (nnn + s.regs[0]) as u16, ..s }
}

/// `EX9E`'s condition: register X names a key in range and it is pressed.
/// An out-of-range key value never skips.
pub open spec fn key_pressed(s: MachineState, x: u16) -> bool {
    s.regs[x as int] < 16 && s.keys[s.regs[x as int] as int]
}

/// `EXA1`'s condition: register X names a key in range and it is not
/// pressed. An out-of-range key value never skips.
pub open spec fn key_not_pressed(s: MachineState, x: u16) -> bool {
    s.regs[x as int] < 16 && !s.keys[s.regs[x as int] as int]
}

/// A timer tick: an 8-bit countdown that stops at zero.
pub open spec fn tick_down(t: u8) -> u8 {
    if t > 0 {
        (t - 1) as u8
    } else {
        0
    }
}

// ---------------------------------------------------------------------
// The display instruction
// ---------------------------------------------------------------------

/// Starting column of a draw: register X's value, wrapped onto the grid.
pub open spec fn draw_x0(s: MachineState, x: u16) -> int {
    s.regs[x as int] as int % 64
}

/// Starting row of a draw: register Y's value, wrapped onto the grid.
pub open spec fn draw_y0(s: MachineState, y: u16) -> int {
    s.regs[y as int] as int % 32
}

/// How many sprite rows the draw touches: N, cut short where the sprite
/// would run past the bottom row (clipping, not wraparound).
pub open spec fn draw_rows(s: MachineState, y: u16, n: u16) -> int {
    if n <= 32 - draw_y0(s, y) {
        n as int
    } else {
        32 - draw_y0(s, y)
    }
}

/// The place value of bit `j` of a sprite byte, most-significant first.
pub open spec fn bit_weight(j: int) -> int {
    if j == 0 {
        128
    } else if j == 1 {
        64
    } else if j == 2 {
        32
    } else if j == 3 {
        16
    } else if j == 4 {
        8
    } else if j == 5 {
        4
    } else if j == 6 {
        2
    } else {
        1
    }
}

/// Bit `j` of a sprite byte, most-significant first.
pub open spec fn sprite_bit(b: u8, j: int) -> bool {
    (b as int / bit_weight(j)) % 2 == 1
}

/// Whether a draw of `rows` sprite rows flips the cell at column `c`,
/// row `r`: the cell lies in the sprite's footprint and its bit is set.
/// Columns past the right edge fall outside `0 <= c < 64` and are never
/// asked about, which is the right-edge clipping.
pub open spec fn draw_flips(s: MachineState, x: u16, y: u16, rows: int, c: int, r: int) -> bool {
    let x0 = draw_x0(s, x);
    let y0 = draw_y0(s, y);
    &&& x0 <= c < x0 + 8
    &&& y0 <= r < y0 + rows
    &&& sprite_bit(s.memory[s.index + (r - y0)], c - x0)
}

/// `draw_flips` over a linear framebuffer cell index.
pub open spec fn cell_flips(s: MachineState, x: u16, y: u16, rows: int, idx: int) -> bool {
    draw_flips(s, x, y, rows, idx % 64, idx / 64)
}

/// Whether the draw turns any previously-on cell off.
pub open spec fn draw_collision(s: MachineState, x: u16, y: u16, rows: int) -> bool {
    exists|idx: int| 0 <= idx < 2048 && cell_flips(s, x, y, rows, idx) && s.fb[idx]
}

/// Whether the first `b` bits of sprite row `k` flip the cell `idx`: the
/// footprint of a partially drawn row.
pub open spec fn row_prefix_flips(
    s: MachineState,
    x: u16,
    y: u16,
    k: int,
    b: int,
    idx: int,
) -> bool {
    let x0 = draw_x0(s, x);
    let y0 = draw_y0(s, y);
    &&& idx / 64 == y0 + k
    &&& x0 <= idx % 64 < x0 + b
    &&& sprite_bit(s.memory[s.index + k], idx % 64 - x0)
}

/// Whether the first `b` bits of sprite row `k` turn some previously-on
/// cell off.
pub open spec fn row_prefix_collision(s: MachineState, x: u16, y: u16, k: int, b: int) -> bool {
    exists|idx: int| 0 <= idx < 2048 && row_prefix_flips(s, x, y, k, b, idx) && s.fb[idx]
}

/// `DXYN`: XOR the sprite into the framebuffer, clipped at the right and
/// bottom edges, and set the flag register last: 1 exactly when a cell
/// was turned off.
pub open spec fn spec_draw(s: MachineState, x: u16, y: u16, n: u16) -> MachineState {
    let rows = draw_rows(s, y, n);
    let flag: u8 = if draw_collision(s, x, y, rows) {
        1
    } else {
        0
    };
    MachineState {
        fb: Seq::new(2048, |idx: int| s.fb[idx] != cell_flips(s, x, y, rows, idx)),
        regs: s.regs.update(15, flag),
        ..s
    }
}

/// The bytes a draw may read: one per drawn row, starting at the index
/// register. The machine-limit precondition of the display instruction.
pub open spec fn draw_in_bounds(s: MachineState, y: u16, n: u16) -> bool {
    s.index + draw_rows(s, y, n) <= 4096
}

} // verus!
