use chip8::machine::{Chip8, Chip8Error, Memory, Registers};

fn machine_with_program(program: &[u8]) -> Chip8 {
    let mut chip8 = Chip8::initialize();
    chip8.memory.load_rom(program).unwrap();
    chip8
}

#[test]
fn initialize_loads_font_and_zeroes_state() {
    let chip8 = Chip8::initialize();
    assert_eq!(chip8.memory.ram[0], 0xF0);
    assert_eq!(chip8.memory.ram[5], 0x20);
    assert_eq!(chip8.memory.ram[79], 0x80);
    assert_eq!(chip8.memory.ram[80], 0);
    assert_eq!(chip8.registers.program_counter, 0x200);
    assert_eq!(chip8.registers.i, 0);
    assert_eq!(chip8.stack.stack_pointer, 0);
    assert!(chip8.registers.v.iter().all(|&r| r == 0));
    assert!(chip8.graphics.gfx.iter().all(|&p| !p));
    assert!(!chip8.graphics.redraw);
    assert!(chip8.keypad.keys.iter().all(|&k| !k));
}

#[test]
fn load_rom_copies_program_at_start() {
    let chip8 = machine_with_program(&[0x12, 0x34, 0x56]);
    assert_eq!(chip8.memory.ram[0x200], 0x12);
    assert_eq!(chip8.memory.ram[0x201], 0x34);
    assert_eq!(chip8.memory.ram[0x202], 0x56);
    assert_eq!(chip8.memory.ram[0x203], 0);
}

#[test]
fn load_rom_takes_the_largest_program() {
    let program: Vec<u8> = vec![0xAB; 4096 - 0x200];
    let chip8 = machine_with_program(&program);
    assert_eq!(chip8.memory.ram[0x200], 0xAB);
    assert_eq!(chip8.memory.ram[4095], 0xAB);
    assert_eq!(chip8.memory.ram[0x1FF], 0);
}

#[test]
fn load_rom_refuses_oversized_program() {
    let mut chip8 = Chip8::initialize();
    let program: Vec<u8> = vec![0xAB; 4096 - 0x200 + 1];
    assert_eq!(chip8.memory.load_rom(&program), Err(Chip8Error::ProgramTooLarge));
    assert_eq!(chip8.memory.ram[0x200], 0);
}

#[test]
fn load_font_set_writes_only_the_font() {
    let mut memory = Memory { ram: [7; 4096] };
    memory.load_font_set();
    assert_eq!(memory.ram[0], 0xF0);
    assert_eq!(memory.ram[10], 0xF0);
    assert_eq!(memory.ram[11], 0x10);
    assert_eq!(memory.ram[80], 7);
}

#[test]
fn fetch_combines_high_and_low_byte() {
    let chip8 = machine_with_program(&[0xA2, 0xF0]);
    assert_eq!(chip8.fetch_op_code(), 0xA2F0);
}

#[test]
fn emulate_cycle_runs_program() {
    let mut chip8 = machine_with_program(&[0x62, 0x05, 0x72, 0x10, 0xA2, 0xF0]);
    chip8.emulate_cycle().unwrap();
    chip8.emulate_cycle().unwrap();
    chip8.emulate_cycle().unwrap();
    assert_eq!(chip8.registers.v[2], 0x15);
    assert_eq!(chip8.registers.i, 0x02F0);
    assert_eq!(chip8.registers.program_counter, 0x206);
}

#[test]
fn emulate_cycle_refuses_fetch_past_memory_end() {
    let mut chip8 = Chip8::initialize();
    chip8.registers.program_counter = 0x0FFF;
    assert_eq!(chip8.emulate_cycle(), Err(Chip8Error::MemoryOutOfBounds));
    assert_eq!(chip8.registers.program_counter, 0x0FFF);
}

#[test]
fn load_then_add_immediate_scenario() {
    let mut chip8 = Chip8::initialize();
    chip8.execute_op_code(0x6205).unwrap();
    chip8.execute_op_code(0x7210).unwrap();
    assert_eq!(chip8.registers.v[2], 0x15);
}

#[test]
fn add_immediate_wraps_and_keeps_flag() {
    let mut chip8 = Chip8::initialize();
    chip8.registers.v[3] = 0xF0;
    chip8.registers.v[0xF] = 0x7;
    chip8.execute_op_code(0x7320).unwrap();
    assert_eq!(chip8.registers.v[3], 0x10);
    assert_eq!(chip8.registers.v[0xF], 0x7);
}

#[test]
fn set_index_sets_exact_address_and_advances() {
    let mut chip8 = Chip8::initialize();
    chip8.execute_op_code(0xA2F0).unwrap();
    assert_eq!(chip8.registers.i, 0x02F0);
    assert_eq!(chip8.registers.program_counter, 0x202);
}

#[test]
fn add_sets_carry_for_each_boundary() {
    for (a, b, sum, flag) in [(0xFFu8, 0x01u8, 0x00u8, 1u8), (0xFE, 0x01, 0xFF, 0), (0x80, 0x80, 0x00, 1), (0, 0, 0, 0)] {
        let mut chip8 = Chip8::initialize();
        chip8.registers.v[1] = a;
        chip8.registers.v[2] = b;
        chip8.execute_op_code(0x8124).unwrap();
        assert_eq!(chip8.registers.v[1], sum);
        assert_eq!(chip8.registers.v[0xF], flag);
    }
}

#[test]
fn sub_sets_flag_when_no_borrow() {
    for (a, b, diff, flag) in [(5u8, 5u8, 0u8, 1u8), (5, 6, 0xFF, 0), (0xFF, 0, 0xFF, 1), (0, 0xFF, 1, 0)] {
        let mut chip8 = Chip8::initialize();
        chip8.registers.v[1] = a;
        chip8.registers.v[2] = b;
        chip8.execute_op_code(0x8125).unwrap();
        assert_eq!(chip8.registers.v[1], diff);
        assert_eq!(chip8.registers.v[0xF], flag);
    }
}

#[test]
fn shift_right_sets_low_bit_flag() {
    let mut chip8 = Chip8::initialize();
    chip8.registers.v[4] = 0x03;
    chip8.execute_op_code(0x8406).unwrap();
    assert_eq!(chip8.registers.v[4], 0x01);
    assert_eq!(chip8.registers.v[0xF], 1);
    assert_eq!(chip8.registers.program_counter, 0x202);
}

#[test]
fn call_then_return_restores_counter_and_pointer() {
    let mut chip8 = Chip8::initialize();
    chip8.registers.program_counter = 0x0300;
    chip8.execute_op_code(0x2ABC).unwrap();
    assert_eq!(chip8.registers.program_counter, 0x0ABC);
    assert_eq!(chip8.stack.stack_pointer, 1);
    chip8.execute_op_code(0x00EE).unwrap();
    assert_eq!(chip8.registers.program_counter, 0x0300);
    assert_eq!(chip8.stack.stack_pointer, 0);
}

#[test]
fn call_with_full_stack_overflows() {
    let mut chip8 = Chip8::initialize();
    chip8.stack.stack_pointer = 16;
    assert_eq!(chip8.execute_op_code(0x2111), Err(Chip8Error::StackOverflow));
    assert_eq!(chip8.registers.program_counter, 0x200);
    assert_eq!(chip8.stack.stack_pointer, 16);
}

#[test]
fn return_with_empty_stack_underflows() {
    let mut chip8 = Chip8::initialize();
    assert_eq!(chip8.execute_op_code(0x00EE), Err(Chip8Error::StackUnderflow));
    assert_eq!(chip8.registers.program_counter, 0x200);
}

#[test]
fn return_with_pointer_past_stack_overflows() {
    let mut chip8 = Chip8::initialize();
    chip8.stack.stack_pointer = 17;
    assert_eq!(chip8.execute_op_code(0x00EE), Err(Chip8Error::StackOverflow));
}

#[test]
fn unknown_opcodes_are_reported_without_change() {
    let mut chip8 = Chip8::initialize();
    for op in [0x5121u16, 0x812F, 0x9121, 0xE1FF, 0xF165] {
        assert_eq!(chip8.execute_op_code(op), Err(Chip8Error::UnknownOpcode { op }));
    }
    assert_eq!(chip8.registers.program_counter, 0x200);
}

#[test]
fn system_call_family_is_a_null_action() {
    let mut chip8 = Chip8::initialize();
    chip8.execute_op_code(0x0123).unwrap();
    assert_eq!(chip8.registers.program_counter, 0x202);
}

#[test]
fn jump_with_offset_adds_v0() {
    let mut chip8 = Chip8::initialize();
    chip8.registers.v[0] = 0xFF;
    chip8.execute_op_code(0xBFFF).unwrap();
    assert_eq!(chip8.registers.program_counter, 0x10FE);
}

#[test]
fn random_and_with_zero_mask_gives_zero() {
    let mut chip8 = Chip8::initialize();
    chip8.registers.v[6] = 0xAA;
    chip8.execute_op_code(0xC600).unwrap();
    assert_eq!(chip8.registers.v[6], 0);
    assert_eq!(chip8.registers.program_counter, 0x202);
}

#[test]
fn random_and_keeps_only_mask_bits() {
    let mut chip8 = Chip8::initialize();
    chip8.execute_op_code(0xC60F).unwrap();
    assert_eq!(chip8.registers.v[6] & 0xF0, 0);
}

#[test]
fn wait_key_holds_counter_until_a_key_is_down() {
    let mut chip8 = Chip8::initialize();
    chip8.execute_op_code(0xF30A).unwrap();
    assert_eq!(chip8.registers.program_counter, 0x200);
    assert_eq!(chip8.registers.v[3], 0);
    chip8.keypad.keys[0xC] = true;
    chip8.execute_op_code(0xF30A).unwrap();
    assert_eq!(chip8.registers.program_counter, 0x202);
    assert_eq!(chip8.registers.v[3], 1);
}

#[test]
fn add_to_index_wraps_at_sixteen_bits() {
    let mut chip8 = Chip8::initialize();
    chip8.registers.i = 0xFFFF;
    chip8.registers.v[1] = 2;
    chip8.execute_op_code(0xF11E).unwrap();
    assert_eq!(chip8.registers.i, 1);
}

#[test]
fn drawing_full_row_twice_clears_it_and_flags_collision() {
    let mut chip8 = Chip8::initialize();
    chip8.memory.ram[0x300] = 0xFF;
    chip8.registers.i = 0x300;
    chip8.registers.v[0] = 10;
    chip8.registers.v[1] = 5;
    chip8.execute_op_code(0xD011).unwrap();
    assert_eq!(chip8.registers.v[0xF], 0);
    assert!(chip8.graphics.redraw);
    for col in 0..64usize {
        assert_eq!(chip8.graphics.gfx[5 * 64 + col], (10..18).contains(&col));
    }
    chip8.graphics.redraw = false;
    chip8.execute_op_code(0xD011).unwrap();
    assert_eq!(chip8.registers.v[0xF], 1);
    assert!(chip8.graphics.redraw);
    assert!(chip8.graphics.gfx.iter().all(|&p| !p));
}

#[test]
fn drawing_wraps_around_both_edges() {
    let mut chip8 = Chip8::initialize();
    chip8.memory.ram[0x300] = 0x81;
    chip8.memory.ram[0x301] = 0x80;
    chip8.registers.i = 0x300;
    chip8.registers.v[2] = 60;
    chip8.registers.v[3] = 31;
    chip8.execute_op_code(0xD232).unwrap();
    assert!(chip8.graphics.gfx[31 * 64 + 60]);
    assert!(chip8.graphics.gfx[31 * 64 + 3]);
    assert!(chip8.graphics.gfx[60]);
    assert!(!chip8.graphics.gfx[61]);
    assert_eq!(chip8.graphics.gfx.iter().filter(|&&p| p).count(), 3);
    assert_eq!(chip8.registers.v[0xF], 0);
}

#[test]
fn drawing_font_glyph_matches_its_rows() {
    let mut chip8 = Chip8::initialize();
    chip8.execute_op_code(0xD005).unwrap();
    let row0: Vec<bool> = (0..8).map(|c| chip8.graphics.gfx[c]).collect();
    assert_eq!(row0, vec![true, true, true, true, false, false, false, false]);
    let row1: Vec<bool> = (0..8).map(|c| chip8.graphics.gfx[64 + c]).collect();
    assert_eq!(row1, vec![true, false, false, true, false, false, false, false]);
}

#[test]
fn drawing_past_memory_end_is_refused() {
    let mut chip8 = Chip8::initialize();
    chip8.registers.i = 0x0FFF;
    assert_eq!(chip8.execute_op_code(0xD002), Err(Chip8Error::MemoryOutOfBounds));
    assert!(!chip8.graphics.redraw);
    assert_eq!(chip8.registers.program_counter, 0x200);
}

#[test]
fn clear_screen_then_export_gives_blank_dirty_frame() {
    let mut chip8 = Chip8::initialize();
    chip8.execute_op_code(0xD005).unwrap();
    chip8.graphics.redraw = false;
    chip8.execute_op_code(0x00E0).unwrap();
    let (pixels, redraw) = chip8.graphics.export();
    assert_eq!(pixels.len(), 64 * 32);
    assert!(pixels.iter().all(|&p| !p));
    assert!(redraw);
    assert_eq!(chip8.registers.program_counter, 0x204);
}

#[test]
fn export_copies_pixels() {
    let mut chip8 = Chip8::initialize();
    chip8.graphics.gfx[70] = true;
    let (pixels, redraw) = chip8.graphics.export();
    assert!(pixels[70]);
    assert!(!pixels[69]);
    assert!(!redraw);
}

#[test]
fn pixel_helpers_wrap_coordinates() {
    let mut chip8 = Chip8::initialize();
    chip8.graphics.change_pixel_value(63, 2, 31, 1);
    assert!(chip8.graphics.gfx[1]);
    assert!(chip8.graphics.redraw);
    assert!(chip8.graphics.current_pixel_is_on(0, 1, 0, 0));
    chip8.graphics.change_pixel_value(0, 1, 32, 0);
    assert!(!chip8.graphics.gfx[1]);
}

#[test]
fn memory_sprite_bit_reads_columns_left_to_right() {
    let chip8 = Chip8::initialize();
    assert!(chip8.memory.current_pixel_is_on(0, 0, 0));
    assert!(chip8.memory.current_pixel_is_on(0, 3, 0));
    assert!(!chip8.memory.current_pixel_is_on(0, 4, 0));
    assert!(chip8.memory.current_pixel_is_on(0, 3, 1));
    assert!(!chip8.memory.current_pixel_is_on(0, 1, 1));
}

#[test]
fn flag_register_accessors() {
    let mut registers = Registers { v: [0; 16], i: 0, program_counter: 0x200 };
    registers.set_register_v_f_value(9);
    assert_eq!(registers.get_register_v_f_value(), 9);
    assert_eq!(registers.v[15], 9);
}
