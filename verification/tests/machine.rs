//! Machine-level tests: construction, loading, fetch/decode, scenarios.

use rite::emu::{Emu, EmulationError};

#[test]
fn test_instruction_fetch() {
    // tests on the first two bytes of font data
    // that the return is correct
    let mut emulator = Emu::new();
    emulator.pc = 0x050;
    assert_eq!(emulator.fetch_instruction(), 0xF090);
}

#[test]
fn test_opcode_extraction() {
    // just getting a lot of arbitrary hex
    // and seeing if it all works
    let first_nibble = 0x1;
    let second_nibble = 0xa;
    let third_nibble = 0xc;
    let fourth_nibble = 0x9;
    let nibbles_34 = 0xc9;
    let nibbles_234 = 0xac9;

    let (instr_type, x, y, n, nn, nnn) = Emu::extract_from_opcode(0x1ac9);

    assert_eq!(first_nibble, instr_type);
    assert_eq!(second_nibble, x);
    assert_eq!(third_nibble, y);
    assert_eq!(fourth_nibble, n);
    assert_eq!(nibbles_34, nn);
    assert_eq!(nibbles_234, nnn);
}

#[test]
fn fresh_machine_state() {
    let e = Emu::new();
    assert_eq!(e.pc, 0x200);
    assert_eq!(e.i, 0);
    assert_eq!(e.delay_timer, 0);
    assert_eq!(e.sound_timer, 0);
    assert_eq!(e.memory.len(), 4096);
    assert_eq!(e.variables, vec![0u8; 16]);
    assert_eq!(e.keys, vec![false; 16]);
    assert_eq!(e.pixels, vec![false; 2048]);
    assert!(e.the_stack.is_empty());
    // the font table: glyph 0 starts at 0x050, glyph F ends before 0x09F
    assert_eq!(&e.memory[0x050..0x055], &[0xF0, 0x90, 0x90, 0x90, 0xF0]);
    assert_eq!(&e.memory[0x096..0x09E], &[0xF0, 0x80, 0xF0, 0x80, 0xF0, 0xF0, 0x80, 0xF0]);
    // the font window is 0x050..=0x09E: its last address holds the next
    // byte of glyph F, and 0x09F is already outside it
    assert_eq!(e.memory[0x09E], 0x80);
    // everything outside the font window is zero
    assert!(e.memory[..0x050].iter().all(|&b| b == 0));
    assert!(e.memory[0x09F..].iter().all(|&b| b == 0));
}

#[test]
fn rom_of_3584_bytes_fills_memory_to_the_end() {
    let mut e = Emu::new();
    let rom = vec![0xAB; 3584];
    assert_eq!(e.read_rom(rom), Ok(()));
    assert_eq!(e.memory[0x200], 0xAB);
    assert_eq!(e.memory[4095], 0xAB);
}

#[test]
fn rom_of_3585_bytes_is_rejected_whole() {
    let mut e = Emu::new();
    let rom = vec![0xAB; 3585];
    assert_eq!(e.read_rom(rom), Err(EmulationError::LoadingError));
    // memory is exactly as construction left it
    assert!(e.memory[0x200..].iter().all(|&b| b == 0));
}

#[test]
fn rom_bytes_land_at_the_load_address() {
    let mut e = Emu::new();
    assert_eq!(e.read_rom(vec![1, 2, 3]), Ok(()));
    assert_eq!(&e.memory[0x200..0x203], &[1, 2, 3]);
    assert_eq!(e.memory[0x203], 0);
}

#[test]
fn set_then_add_leaves_fifteen_in_register_zero() {
    // fresh machine, program [0x60, 0x0A, 0x70, 0x05]:
    // 6XNN sets register 0 to 10, 7XNN adds 5
    let mut e = Emu::new();
    assert_eq!(e.read_rom(vec![0x60, 0x0A, 0x70, 0x05]), Ok(()));
    assert_eq!(e.fetch_decode_execute_instr(), Ok(()));
    assert_eq!(e.fetch_decode_execute_instr(), Ok(()));
    assert_eq!(e.variables[0], 15);
    assert_eq!(e.pc, 0x204);
}

#[test]
fn call_then_return_restores_the_program_counter() {
    // 2NNN at 0x200 calls 0x208; 00EE there returns to the address of
    // the instruction after the call
    let mut rom = vec![0x22, 0x08, 0, 0, 0, 0, 0, 0];
    rom.extend_from_slice(&[0x00, 0xEE]);
    let mut e = Emu::new();
    assert_eq!(e.read_rom(rom), Ok(()));
    assert_eq!(e.fetch_decode_execute_instr(), Ok(()));
    assert_eq!(e.pc, 0x208);
    assert_eq!(e.the_stack, vec![0x202]);
    assert_eq!(e.fetch_decode_execute_instr(), Ok(()));
    assert_eq!(e.pc, 0x202);
    assert!(e.the_stack.is_empty());
}

#[test]
fn executing_a_null_opcode_reports_vacant_memory() {
    let mut e = Emu::new();
    assert_eq!(e.fetch_decode_execute_instr(), Err(EmulationError::VacantMemory));
    assert_eq!(e.pc, 0x202);
}

#[test]
fn unrecognized_patterns_report_unknown_instruction() {
    let mut e = Emu::new();
    assert_eq!(e.read_rom(vec![0x00, 0x01]), Ok(()));
    assert_eq!(e.fetch_decode_execute_instr(), Err(EmulationError::UnknownInstruction));
    // family 8 with an undefined low nibble
    let mut e = Emu::new();
    assert_eq!(e.decode_and_execute(0x8128), Err(EmulationError::UnknownInstruction));
    // family E with an undefined low byte
    assert_eq!(e.decode_and_execute(0xE155), Err(EmulationError::UnknownInstruction));
}

#[test]
fn a_seventeenth_call_overflows_the_stack() {
    let mut e = Emu::new();
    for _ in 0..16 {
        assert_eq!(e.call_subroutine(0x300), Ok(()));
    }
    assert_eq!(e.the_stack.len(), 16);
    assert_eq!(e.call_subroutine(0x300), Err(EmulationError::StackOverflow));
    assert_eq!(e.the_stack.len(), 16);
    assert_eq!(e.pc, 0x300);
}

#[test]
fn returning_on_an_empty_stack_falls_back_to_address_zero() {
    let mut e = Emu::new();
    assert_eq!(e.return_from_subroutine(), Ok(()));
    assert_eq!(e.pc, 0);
}

#[test]
fn a_jump_moves_the_program_counter() {
    let mut e = Emu::new();
    assert_eq!(e.read_rom(vec![0x12, 0x34]), Ok(()));
    assert_eq!(e.fetch_decode_execute_instr(), Ok(()));
    assert_eq!(e.pc, 0x234);
}

#[test]
fn family_f_opcodes_report_unknown_instruction() {
    // no pattern of the 0xF family is defined, so every opcode there is
    // unknown; only the fetch's side effect remains
    let mut e = Emu::new();
    assert_eq!(e.read_rom(vec![0xF0, 0x0A]), Ok(()));
    assert_eq!(e.fetch_decode_execute_instr(), Err(EmulationError::UnknownInstruction));
    assert_eq!(e.pc, 0x202);
    assert_eq!(e.variables, vec![0u8; 16]);
}

#[test]
fn timers_count_down_and_stop_at_zero() {
    let mut e = Emu::new();
    e.delay_timer = 2;
    e.sound_timer = 1;
    e.decrement_delay();
    e.decrement_sound();
    assert_eq!(e.delay_timer, 1);
    assert_eq!(e.sound_timer, 0);
    e.decrement_sound();
    assert_eq!(e.sound_timer, 0);
    e.decrement_delay();
    e.decrement_delay();
    assert_eq!(e.delay_timer, 0);
}

#[test]
fn a_key_skip_executes_through_the_fetch_cycle() {
    // 6XNN puts 5 in register 1, then EX9E skips because key 5 is down
    let mut e = Emu::new();
    assert_eq!(e.read_rom(vec![0x61, 0x05, 0xE1, 0x9E]), Ok(()));
    e.keypress(5);
    assert_eq!(e.fetch_decode_execute_instr(), Ok(()));
    assert_eq!(e.fetch_decode_execute_instr(), Ok(()));
    assert_eq!(e.pc, 0x206);
}

#[test]
fn the_random_instruction_executes_through_the_fetch_cycle() {
    let mut e = Emu::new();
    assert_eq!(e.read_rom(vec![0xC1, 0x0F]), Ok(()));
    assert_eq!(e.fetch_decode_execute_instr(), Ok(()));
    assert!(e.variables[1] <= 0x0F);
    assert_eq!(e.pc, 0x202);
}

#[test]
fn keys_are_set_and_cleared_by_the_host() {
    let mut e = Emu::new();
    e.keypress(0xC);
    assert!(e.keys[0xC]);
    assert_eq!(e.keys.iter().filter(|&&k| k).count(), 1);
    e.keyrelease(0xC);
    assert!(!e.keys[0xC]);
}
