//! Per-instruction tests: arithmetic and flag conventions, skips, the
//! display instruction, and the random instruction's mask.

use rite::emu::{Emu, EmulationError};

#[test]
fn add_immediate_wraps_modulo_256() {
    let mut e = Emu::new();
    assert_eq!(e.set_register(0, 250), Ok(()));
    assert_eq!(e.add_val_to_register(0, 10), Ok(()));
    assert_eq!(e.variables[0], 4);
    // the flag register is not an output of 7XNN
    assert_eq!(e.variables[15], 0);
}

#[test]
fn add_immediate_then_negated_value_round_trips() {
    let mut e = Emu::new();
    assert_eq!(e.set_register(7, 123), Ok(()));
    assert_eq!(e.add_val_to_register(7, 0x2A), Ok(()));
    assert_eq!(e.variables[7], 123 + 0x2A);
    assert_eq!(e.add_val_to_register(7, 0x100 - 0x2A), Ok(()));
    assert_eq!(e.variables[7], 123);
    // once more across the wraparound
    assert_eq!(e.set_register(7, 200), Ok(()));
    assert_eq!(e.add_val_to_register(7, 100), Ok(()));
    assert_eq!(e.add_val_to_register(7, 0x100 - 100), Ok(()));
    assert_eq!(e.variables[7], 200);
}

#[test]
fn add_with_carry_sets_the_flag_exactly_when_the_sum_exceeds_255() {
    let mut e = Emu::new();
    assert_eq!(e.set_register(1, 200), Ok(()));
    assert_eq!(e.set_register(2, 100), Ok(()));
    assert_eq!(e.vx_pluseq_vy(1, 2), Ok(()));
    assert_eq!(e.variables[1], 44);
    assert_eq!(e.variables[15], 1);

    assert_eq!(e.set_register(3, 155), Ok(()));
    assert_eq!(e.set_register(4, 100), Ok(()));
    assert_eq!(e.vx_pluseq_vy(3, 4), Ok(()));
    assert_eq!(e.variables[3], 255);
    assert_eq!(e.variables[15], 0);
}

#[test]
fn subtract_clears_the_flag_exactly_on_underflow() {
    let mut e = Emu::new();
    assert_eq!(e.set_register(1, 10), Ok(()));
    assert_eq!(e.set_register(2, 20), Ok(()));
    assert_eq!(e.vx_minuseq_vy(1, 2), Ok(()));
    assert_eq!(e.variables[1], 246);
    assert_eq!(e.variables[15], 0);

    assert_eq!(e.set_register(3, 20), Ok(()));
    assert_eq!(e.set_register(4, 10), Ok(()));
    assert_eq!(e.vx_minuseq_vy(3, 4), Ok(()));
    assert_eq!(e.variables[3], 10);
    assert_eq!(e.variables[15], 1);

    // equal values yield flag 1 and result 0
    assert_eq!(e.set_register(5, 42), Ok(()));
    assert_eq!(e.set_register(6, 42), Ok(()));
    assert_eq!(e.vx_minuseq_vy(5, 6), Ok(()));
    assert_eq!(e.variables[5], 0);
    assert_eq!(e.variables[15], 1);
}

#[test]
fn reversed_subtract_follows_the_same_flag_convention() {
    let mut e = Emu::new();
    assert_eq!(e.set_register(1, 30), Ok(()));
    assert_eq!(e.set_register(2, 20), Ok(()));
    assert_eq!(e.vx_equals_vy_minus_vx(1, 2), Ok(()));
    assert_eq!(e.variables[1], 246);
    assert_eq!(e.variables[15], 0);

    assert_eq!(e.set_register(3, 20), Ok(()));
    assert_eq!(e.set_register(4, 30), Ok(()));
    assert_eq!(e.vx_equals_vy_minus_vx(3, 4), Ok(()));
    assert_eq!(e.variables[3], 10);
    assert_eq!(e.variables[15], 1);
}

#[test]
fn register_copy_and_bitwise_family() {
    let mut e = Emu::new();
    assert_eq!(e.set_register(1, 0b1100), Ok(()));
    assert_eq!(e.set_register(2, 0b1010), Ok(()));
    assert_eq!(e.vx_oreq_vy(1, 2), Ok(()));
    assert_eq!(e.variables[1], 0b1110);

    assert_eq!(e.set_register(1, 0b1100), Ok(()));
    assert_eq!(e.vx_andeq_vy(1, 2), Ok(()));
    assert_eq!(e.variables[1], 0b1000);

    assert_eq!(e.set_register(1, 0b1100), Ok(()));
    assert_eq!(e.vx_xoreq_vy(1, 2), Ok(()));
    assert_eq!(e.variables[1], 0b0110);

    assert_eq!(e.set_vx_to_vy(5, 2), Ok(()));
    assert_eq!(e.variables[5], 0b1010);
    assert_eq!(e.variables[2], 0b1010);
}

#[test]
fn shifts_put_the_shifted_out_bit_in_the_flag() {
    let mut e = Emu::new();
    assert_eq!(e.set_register(3, 0x81), Ok(()));
    assert_eq!(e.shift_right_1bit(3, 0), Ok(()));
    assert_eq!(e.variables[3], 0x40);
    assert_eq!(e.variables[15], 1);
    assert_eq!(e.shift_right_1bit(3, 0), Ok(()));
    assert_eq!(e.variables[3], 0x20);
    assert_eq!(e.variables[15], 0);

    assert_eq!(e.set_register(3, 0x81), Ok(()));
    assert_eq!(e.shift_left_1bit(3, 0), Ok(()));
    assert_eq!(e.variables[3], 0x02);
    assert_eq!(e.variables[15], 1);
    assert_eq!(e.shift_left_1bit(3, 0), Ok(()));
    assert_eq!(e.variables[3], 0x04);
    assert_eq!(e.variables[15], 0);
}

#[test]
fn skips_on_immediate_and_register_comparisons() {
    let mut e = Emu::new();
    assert_eq!(e.set_register(1, 7), Ok(()));
    assert_eq!(e.set_register(2, 7), Ok(()));
    assert_eq!(e.set_register(3, 9), Ok(()));

    let pc = e.pc;
    assert_eq!(e.skip_if_vx_eq_nn(1, 7), Ok(()));
    assert_eq!(e.pc, pc + 2);
    assert_eq!(e.skip_if_vx_eq_nn(1, 8), Ok(()));
    assert_eq!(e.pc, pc + 2);

    assert_eq!(e.skip_if_vx_neq_nn(1, 8), Ok(()));
    assert_eq!(e.pc, pc + 4);
    assert_eq!(e.skip_if_vx_neq_nn(1, 7), Ok(()));
    assert_eq!(e.pc, pc + 4);

    assert_eq!(e.skip_if_vx_eq_vy(1, 2), Ok(()));
    assert_eq!(e.pc, pc + 6);
    assert_eq!(e.skip_if_vx_eq_vy(1, 3), Ok(()));
    assert_eq!(e.pc, pc + 6);

    assert_eq!(e.skip_if_vx_neq_vy(1, 3), Ok(()));
    assert_eq!(e.pc, pc + 8);
    assert_eq!(e.skip_if_vx_neq_vy(1, 2), Ok(()));
    assert_eq!(e.pc, pc + 8);
}

#[test]
fn jump_with_offset_adds_register_zero() {
    let mut e = Emu::new();
    assert_eq!(e.set_register(0, 5), Ok(()));
    assert_eq!(e.jump_with_offset(0x300), Ok(()));
    assert_eq!(e.pc, 0x305);
}

#[test]
fn set_index_register_points_into_memory() {
    let mut e = Emu::new();
    assert_eq!(e.set_index_register(0x123), Ok(()));
    assert_eq!(e.i, 0x123);
}

#[test]
fn key_skips_test_the_key_named_by_the_register() {
    let mut e = Emu::new();
    assert_eq!(e.set_register(0, 5), Ok(()));
    e.keypress(5);
    let pc = e.pc;
    assert_eq!(e.skip_if_key(0), Ok(()));
    assert_eq!(e.pc, pc + 2);
    assert_eq!(e.skip_if_not_key(0), Ok(()));
    assert_eq!(e.pc, pc + 2);
    e.keyrelease(5);
    assert_eq!(e.skip_if_key(0), Ok(()));
    assert_eq!(e.pc, pc + 2);
    assert_eq!(e.skip_if_not_key(0), Ok(()));
    assert_eq!(e.pc, pc + 4);
}

#[test]
fn out_of_range_key_values_never_skip() {
    let mut e = Emu::new();
    assert_eq!(e.set_register(0, 200), Ok(()));
    let pc = e.pc;
    assert_eq!(e.skip_if_key(0), Ok(()));
    assert_eq!(e.pc, pc);
    assert_eq!(e.skip_if_not_key(0), Ok(()));
    assert_eq!(e.pc, pc);
}

#[test]
fn the_random_instruction_masks_with_nn() {
    let mut e = Emu::new();
    for _ in 0..64 {
        assert_eq!(e.random_gen(0, 0x0F), Ok(()));
        assert!(e.variables[0] <= 0x0F);
    }
    assert_eq!(e.random_gen(1, 0), Ok(()));
    assert_eq!(e.variables[1], 0);
}

#[test]
fn the_masked_store_keeps_exactly_the_bits_of_nn() {
    let mut e = Emu::new();
    e.store_masked(3, 0x0F, 0xAB);
    assert_eq!(e.variables[3], 0x0B);
    e.store_masked(3, 0xF0, 0xAB);
    assert_eq!(e.variables[3], 0xA0);
}

#[test]
fn drawing_the_zero_glyph_on_a_blank_screen_has_no_collision() {
    // index register at the digit-0 font glyph, X=0, Y=0, N=5
    let mut e = Emu::new();
    assert_eq!(e.set_index_register(0x050), Ok(()));
    assert_eq!(e.display(0, 0, 5), Ok(()));
    assert_eq!(e.variables[15], 0);
    let glyph: [u8; 5] = [0xF0, 0x90, 0x90, 0x90, 0xF0];
    for row in 0..32 {
        for col in 0..64 {
            let expected = row < 5 && col < 8 && (glyph[row] >> (7 - col)) & 1 == 1;
            assert_eq!(e.pixels[col + row * 64], expected, "cell ({col}, {row})");
        }
    }
}

#[test]
fn redrawing_a_sprite_erases_it_and_reports_the_collision() {
    let mut e = Emu::new();
    assert_eq!(e.set_index_register(0x050), Ok(()));
    assert_eq!(e.display(0, 0, 5), Ok(()));
    assert_eq!(e.display(0, 0, 5), Ok(()));
    assert_eq!(e.variables[15], 1);
    assert!(e.pixels.iter().all(|&p| !p));
}

#[test]
fn drawing_clips_at_the_right_and_bottom_edges() {
    let mut e = Emu::new();
    assert_eq!(e.set_index_register(0x050), Ok(()));
    // start at column 60, row 30: only a 4-wide, 2-tall corner is drawn
    assert_eq!(e.set_register(1, 60), Ok(()));
    assert_eq!(e.set_register(2, 30), Ok(()));
    assert_eq!(e.display(1, 2, 5), Ok(()));
    assert_eq!(e.variables[15], 0);
    let glyph: [u8; 5] = [0xF0, 0x90, 0x90, 0x90, 0xF0];
    for row in 0..32 {
        for col in 0..64 {
            let expected = (30..32).contains(&row) && (60..64).contains(&col)
                && (glyph[row - 30] >> (7 - (col - 60))) & 1 == 1;
            assert_eq!(e.pixels[col + row * 64], expected, "cell ({col}, {row})");
        }
    }
}

#[test]
fn drawing_wraps_the_starting_position_onto_the_grid() {
    let mut e = Emu::new();
    assert_eq!(e.set_index_register(0x050), Ok(()));
    // 64 wraps to column 0, 32 wraps to row 0
    assert_eq!(e.set_register(1, 64), Ok(()));
    assert_eq!(e.set_register(2, 32), Ok(()));
    assert_eq!(e.display(1, 2, 1), Ok(()));
    assert!(e.pixels[0] && e.pixels[1] && e.pixels[2] && e.pixels[3]);
    assert!(!e.pixels[4]);
}

#[test]
fn clearing_the_screen_turns_every_cell_off() {
    let mut e = Emu::new();
    assert_eq!(e.set_index_register(0x050), Ok(()));
    assert_eq!(e.display(0, 0, 5), Ok(()));
    assert!(e.pixels.iter().any(|&p| p));
    assert_eq!(e.clear_screen(), Ok(()));
    assert_eq!(e.pixels.len(), 2048);
    assert!(e.pixels.iter().all(|&p| !p));
}

#[test]
fn set_register_stores_the_low_byte() {
    let mut e = Emu::new();
    assert_eq!(e.set_register(9, 0xFE), Ok(()));
    assert_eq!(e.variables[9], 0xFE);
    let untouched: Vec<usize> = (0..16).filter(|&j| j != 9).collect();
    for j in untouched {
        assert_eq!(e.variables[j], 0);
    }
}
