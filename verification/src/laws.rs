//! Proofs of the properties the instruction set promises, stated over the
//! transition functions that the interpreter's contracts use.

use vstd::prelude::*;

verus! {

use crate::isa::spec_add_carry;
use crate::isa::spec_add_reg;
use crate::isa::spec_call;
use crate::isa::spec_clear;
use crate::isa::spec_ret;
use crate::isa::spec_sub_borrow;
use crate::isa::wrap_add;
use crate::isa::wrap_neg;
use crate::isa::MachineState;

/// Adding a byte to a register value and then adding its two's-complement
/// negation returns the original value: the wrapping addition of the
/// add-immediate instruction round-trips.
pub proof fn lemma_wrap_add_round_trip(v: u8, nn: u8)
    ensures
        wrap_add(wrap_add(v, nn), wrap_neg(nn)) == v,
{
}

/// The add-immediate instruction applied twice, the second time with the
/// negated immediate, leaves the whole machine exactly as it was, for
/// every register index and byte value.
pub proof fn lemma_add_instruction_round_trip(s: MachineState, x: u16, nn: u8)
    requires
        s.wf(),
        x < 16,
    ensures
        spec_add_reg(spec_add_reg(s, x, nn), x, wrap_neg(nn)) == s,
{
    lemma_wrap_add_round_trip(s.regs[x as int], nn);
    assert(spec_add_reg(spec_add_reg(s, x, nn), x, wrap_neg(nn)).regs =~= s.regs);
    assert(spec_add_reg(spec_add_reg(s, x, nn), x, wrap_neg(nn)) =~= s);
}

/// The add-with-carry instruction sets the flag register to exactly 1
/// when the unwrapped sum of the two operand values exceeds 255, and to
/// exactly 0 otherwise.
pub proof fn lemma_add_carry_flag(s: MachineState, x: u16, y: u16)
    requires
        s.wf(),
        x < 16,
        y < 16,
    ensures
        spec_add_carry(s, x, y).regs[15] == 1 <==> s.regs[x as int] + s.regs[y as int] > 255,
        spec_add_carry(s, x, y).regs[15] == 0 <==> s.regs[x as int] + s.regs[y as int] <= 255,
{
}

/// The subtract instruction sets the flag register to exactly 0 when
/// register Y's value exceeds register X's at call time, and to exactly 1
/// otherwise; equal operands yield flag 1 and difference 0.
pub proof fn lemma_sub_borrow_flag(s: MachineState, x: u16, y: u16)
    requires
        s.wf(),
        x < 16,
        y < 16,
    ensures
        spec_sub_borrow(s, x, y).regs[15] == 0 <==> s.regs[y as int] > s.regs[x as int],
        spec_sub_borrow(s, x, y).regs[15] == 1 <==> s.regs[y as int] <= s.regs[x as int],
        x != 15 && s.regs[x as int] == s.regs[y as int] ==> spec_sub_borrow(s, x, y).regs[x as int]
            == 0,
{
}

/// The random instruction's mask bounds its result: whatever byte the
/// generator hands back, ANDing it with NN yields at most NN.
pub proof fn lemma_mask_bounds(g: u8, nn: u8)
    ensures
        (g & nn) <= nn,
{
    assert((g & nn) <= nn) by (bit_vector);
}

/// After the clear instruction, every one of the 2048 framebuffer cells
/// reads off.
pub proof fn lemma_clear_all_off(s: MachineState)
    ensures
        spec_clear(s).fb.len() == 2048,
        forall|idx: int| 0 <= idx < 2048 ==> !spec_clear(s).fb[idx],
{
}

/// A call followed by a return restores the machine exactly: in
/// particular the program counter again holds the address of the
/// instruction after the call, and the stack is as it was.
pub proof fn lemma_call_then_return(s: MachineState, nnn: u16)
    requires
        s.wf(),
        s.stack.len() < 16,
    ensures
        spec_ret(spec_call(s, nnn)) == s,
{
    let s1 = spec_call(s, nnn);
    assert(s1.stack.last() == s.pc);
    assert(s1.stack.drop_last() =~= s.stack);
    assert(spec_ret(s1) =~= s);
}

} // verus!
