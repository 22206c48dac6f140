use chip8::decode::decode;
use chip8::decode::Instruction;
use chip8::state::Chip8;
use chip8::state::Chip8Error;
use chip8::state::LoadError;

fn fresh() -> Chip8 {
    let mut vm = Chip8::default();
    vm.init_keymap();
    vm
}

fn loaded(program: &[u8]) -> Chip8 {
    let mut vm = fresh();
    let rom: Vec<u8> = program.to_vec();
    vm.load_rom(&rom).expect("program fits");
    vm
}

#[test]
fn set_imm_stores_the_immediate() {
    let mut vm = loaded(&[0x65, 0xAB, 0x60, 0x00, 0x6F, 0xFF]);
    vm.step().unwrap();
    assert_eq!(vm.registers[5], 0xAB);
    vm.step().unwrap();
    assert_eq!(vm.registers[0], 0x00);
    vm.step().unwrap();
    assert_eq!(vm.registers[15], 0xFF);
}

#[test]
fn set_reg_direct() {
    let mut vm = fresh();
    vm.set_reg(3, 0x42);
    assert_eq!(vm.registers[3], 0x42);
}

#[test]
fn add_with_carry_wraps_and_flags() {
    let mut vm = loaded(&[0x80, 0x14]);
    vm.registers[0] = 250;
    vm.registers[1] = 10;
    vm.step().unwrap();
    assert_eq!(vm.registers[0], 4);
    assert_eq!(vm.registers[0xF], 1);
}

#[test]
fn add_without_carry_clears_the_flag() {
    let mut vm = loaded(&[0x80, 0x14]);
    vm.registers[0] = 10;
    vm.registers[1] = 10;
    vm.registers[0xF] = 1;
    vm.step().unwrap();
    assert_eq!(vm.registers[0], 20);
    assert_eq!(vm.registers[0xF], 0);
}

#[test]
fn sub_with_borrow_wraps_and_clears_the_flag() {
    let mut vm = loaded(&[0x80, 0x15]);
    vm.registers[0] = 5;
    vm.registers[1] = 10;
    vm.registers[0xF] = 1;
    vm.step().unwrap();
    assert_eq!(vm.registers[0], 251);
    assert_eq!(vm.registers[0xF], 0);
}

#[test]
fn sub_without_borrow_sets_the_flag() {
    let mut vm = loaded(&[0x80, 0x15]);
    vm.registers[0] = 10;
    vm.registers[1] = 5;
    vm.step().unwrap();
    assert_eq!(vm.registers[0], 5);
    assert_eq!(vm.registers[0xF], 1);
}

#[test]
fn sub_inv_uses_the_other_direction() {
    let mut vm = loaded(&[0x80, 0x17, 0x82, 0x37]);
    vm.registers[0] = 10;
    vm.registers[1] = 25;
    vm.step().unwrap();
    assert_eq!(vm.registers[0], 15);
    assert_eq!(vm.registers[0xF], 1);
    vm.registers[2] = 25;
    vm.registers[3] = 10;
    vm.step().unwrap();
    assert_eq!(vm.registers[2], 241);
    assert_eq!(vm.registers[0xF], 0);
}

#[test]
fn add_imm_wraps_without_flag() {
    let mut vm = loaded(&[0x70, 0x10]);
    vm.registers[0] = 0xF8;
    vm.registers[0xF] = 0;
    vm.step().unwrap();
    assert_eq!(vm.registers[0], 0x08);
    assert_eq!(vm.registers[0xF], 0);
}

#[test]
fn shifts_report_the_moved_out_bit() {
    let mut vm = fresh();
    vm.registers[2] = 0b1011_0101;
    vm.reg_shr(2, 0);
    assert_eq!(vm.registers[2], 0b0101_1010);
    assert_eq!(vm.registers[0xF], 1);
    vm.registers[3] = 0b1011_0101;
    vm.reg_shl(3, 0);
    assert_eq!(vm.registers[3], 0b0110_1010);
    assert_eq!(vm.registers[0xF], 1);
    vm.registers[4] = 0b0100_0010;
    vm.reg_shl(4, 0);
    assert_eq!(vm.registers[4], 0b1000_0100);
    assert_eq!(vm.registers[0xF], 0);
}

#[test]
fn bitwise_ops() {
    let mut vm = loaded(&[0x80, 0x11, 0x82, 0x32, 0x84, 0x53]);
    vm.registers[0] = 0xF0;
    vm.registers[1] = 0x0F;
    vm.registers[2] = 0xF0;
    vm.registers[3] = 0x3C;
    vm.registers[4] = 0xFF;
    vm.registers[5] = 0x0F;
    vm.step().unwrap();
    assert_eq!(vm.registers[0], 0xFF);
    vm.step().unwrap();
    assert_eq!(vm.registers[2], 0x30);
    vm.step().unwrap();
    assert_eq!(vm.registers[4], 0xF0);
}

#[test]
fn copy_reg() {
    let mut vm = loaded(&[0x8A, 0xB0]);
    vm.registers[0xB] = 0x77;
    vm.step().unwrap();
    assert_eq!(vm.registers[0xA], 0x77);
}

#[test]
fn draw_zero_sprite_changes_nothing() {
    let mut vm = fresh();
    vm.set_index(0x300);
    vm.registers[0] = 12;
    vm.registers[1] = 7;
    vm.draw(0, 1, 5);
    assert_eq!(vm.registers[0xF], 0);
    for x in 0..64 {
        for y in 0..32 {
            assert!(!vm.pixel(x, y));
        }
    }
}

#[test]
fn draw_twice_restores_and_collides() {
    let mut vm = fresh();
    vm.set_index(0x50);
    vm.registers[0] = 10;
    vm.registers[1] = 4;
    vm.draw(0, 1, 5);
    assert_eq!(vm.registers[0xF], 0);
    assert!(vm.pixel(10, 4));
    vm.draw(0, 1, 5);
    assert_eq!(vm.registers[0xF], 1);
    for x in 0..64 {
        for y in 0..32 {
            assert!(!vm.pixel(x, y));
        }
    }
}

#[test]
fn draw_glyph_zero_matches_its_bitmap() {
    let mut vm = fresh();
    vm.registers[6] = 0;
    vm.set_sprite(6);
    assert_eq!(vm.index_register, 0x50);
    vm.registers[0] = 0;
    vm.registers[1] = 0;
    vm.draw(0, 1, 5);
    let glyph = [0xF0u8, 0x90, 0x90, 0x90, 0xF0];
    for (r, bits) in glyph.iter().enumerate() {
        for c in 0..8 {
            let expected = (bits >> (7 - c)) & 1 == 1;
            assert_eq!(vm.pixel(c, r), expected);
        }
    }
}

#[test]
fn draw_wraps_at_the_right_edge() {
    let mut vm = fresh();
    vm.memory[0x300] = 0xFF;
    vm.set_index(0x300);
    vm.registers[0] = 60;
    vm.registers[1] = 0;
    vm.draw(0, 1, 1);
    for sc in [60usize, 61, 62, 63, 0, 1, 2, 3] {
        assert!(vm.pixel(sc, 0));
    }
    for sc in 4..60 {
        assert!(!vm.pixel(sc, 0));
    }
    assert_eq!(vm.registers[0xF], 0);
}

#[test]
fn draw_wraps_at_the_bottom_edge() {
    let mut vm = fresh();
    vm.memory[0x300] = 0x80;
    vm.memory[0x301] = 0x80;
    vm.set_index(0x300);
    vm.registers[0] = 0;
    vm.registers[1] = 31;
    vm.draw(0, 1, 2);
    assert!(vm.pixel(0, 31));
    assert!(vm.pixel(0, 0));
    assert!(!vm.pixel(0, 1));
}

#[test]
fn cls_clears_every_pixel() {
    let mut vm = fresh();
    vm.memory[0x300] = 0xFF;
    vm.set_index(0x300);
    vm.draw(0, 1, 1);
    assert!(vm.pixel(0, 0));
    vm.cls();
    for x in 0..64 {
        for y in 0..32 {
            assert!(!vm.pixel(x, y));
        }
    }
}

#[test]
fn call_then_ret_returns_past_the_call() {
    // call 0x300; the return instruction sits at 0x300 (offset 0x100).
    let mut program = vec![0x23, 0x00];
    program.resize(0x100, 0);
    program.push(0x00);
    program.push(0xEE);
    let mut vm = loaded(&program);
    assert_eq!(vm.sp, 0);
    vm.step().unwrap();
    assert_eq!(vm.pc, 0x300);
    assert_eq!(vm.sp, 1);
    vm.step().unwrap();
    assert_eq!(vm.pc, 0x202);
    assert_eq!(vm.sp, 0);
}

#[test]
fn ret_on_empty_stack_underflows() {
    let mut vm = loaded(&[0x00, 0xEE]);
    assert_eq!(vm.step(), Err(Chip8Error::StackUnderflow));
}

#[test]
fn call_on_full_stack_overflows() {
    let mut vm = loaded(&[0x23, 0x00]);
    vm.sp = 16;
    assert_eq!(vm.step(), Err(Chip8Error::StackOverflow));
}

#[test]
fn unknown_opcodes_are_fatal() {
    let mut vm = loaded(&[0x80, 0x08]);
    assert_eq!(vm.step(), Err(Chip8Error::UnknownOpcode(0x8008)));
    let mut vm = loaded(&[0xE1, 0x00]);
    assert_eq!(vm.step(), Err(Chip8Error::UnknownOpcode(0xE100)));
    let mut vm = loaded(&[0xF0, 0xFF]);
    assert_eq!(vm.step(), Err(Chip8Error::UnknownOpcode(0xF0FF)));
}

#[test]
fn fetch_past_the_end_of_memory_is_out_of_bounds() {
    let mut vm = fresh();
    vm.pc = 4095;
    assert_eq!(vm.step(), Err(Chip8Error::OutOfBounds));
}

#[test]
fn store_regs_past_the_end_of_memory_is_out_of_bounds() {
    let mut vm = loaded(&[0xFF, 0x55]);
    vm.set_index(4090);
    assert_eq!(vm.step(), Err(Chip8Error::OutOfBounds));
}

#[test]
fn key_index_past_the_keypad_is_out_of_bounds() {
    let mut vm = loaded(&[0xE0, 0x9E]);
    vm.registers[0] = 16;
    assert_eq!(vm.step(), Err(Chip8Error::OutOfBounds));
}

#[test]
fn load_rom_accepts_the_largest_image() {
    let mut vm = fresh();
    let rom = vec![0xAAu8; 3584];
    assert_eq!(vm.load_rom(&rom), Ok(()));
    assert_eq!(vm.memory[0x200], 0xAA);
    assert_eq!(vm.memory[0xFFF], 0xAA);
}

#[test]
fn load_rom_rejects_one_byte_more() {
    let mut vm = fresh();
    let before = vm.memory.clone();
    let rom = vec![0xAAu8; 3585];
    assert_eq!(vm.load_rom(&rom), Err(LoadError));
    assert_eq!(vm.memory, before);
}

#[test]
fn load_rom_copies_bytes_in_order() {
    let mut vm = fresh();
    let rom = vec![1u8, 2, 3, 4];
    vm.load_rom(&rom).unwrap();
    assert_eq!(vm.memory[0x200..0x204], [1, 2, 3, 4]);
    assert_eq!(vm.memory[0x204], 0);
}

#[test]
fn clear_set_add_jump_scenario() {
    let mut vm = loaded(&[0x00, 0xE0, 0x60, 0x0A, 0x70, 0x05, 0x12, 0x00]);
    vm.step().unwrap();
    vm.step().unwrap();
    vm.step().unwrap();
    assert_eq!(vm.registers[0], 0x0F);
    assert_eq!(vm.pc, 0x206);
    for _ in 0..4 {
        vm.step().unwrap();
    }
    assert_eq!(vm.registers[0], 0x0F);
    assert_eq!(vm.pc, 0x206);
}

#[test]
fn skips_on_immediates() {
    let mut vm = loaded(&[0x30, 0x05, 0x30, 0x05, 0x40, 0x05, 0x40, 0x06]);
    vm.registers[0] = 6;
    vm.step().unwrap();
    assert_eq!(vm.pc, 0x202);
    vm.registers[0] = 5;
    vm.step().unwrap();
    assert_eq!(vm.pc, 0x206);
    vm.pc = 0x204;
    vm.step().unwrap();
    assert_eq!(vm.pc, 0x206);
    vm.registers[0] = 5;
    vm.step().unwrap();
    assert_eq!(vm.pc, 0x20A);
}

#[test]
fn skips_on_register_pairs() {
    // the first skip lands on the legacy no-op at 0x204, not on the 9xy0
    let mut vm = loaded(&[0x50, 0x10, 0x00, 0x00, 0x90, 0x10]);
    vm.registers[0] = 3;
    vm.registers[1] = 3;
    vm.step().unwrap();
    assert_eq!(vm.pc, 0x204);
    vm.registers[1] = 4;
    vm.step().unwrap();
    assert_eq!(vm.pc, 0x208);
}

#[test]
fn jump_and_jump_v0() {
    let mut vm = loaded(&[0x1A, 0xBC]);
    vm.step().unwrap();
    assert_eq!(vm.pc, 0xABC);
    let mut vm = loaded(&[0xB3, 0x00]);
    vm.registers[0] = 8;
    vm.step().unwrap();
    assert_eq!(vm.pc, 0x308);
}

#[test]
fn legacy_sys_is_a_no_op() {
    let mut vm = loaded(&[0x03, 0x00]);
    let regs_before = vm.registers.clone();
    vm.step().unwrap();
    assert_eq!(vm.pc, 0x202);
    assert_eq!(vm.registers, regs_before);
    assert_eq!(vm.sp, 0);
}

#[test]
fn keypad_skips() {
    let mut vm = loaded(&[0xE0, 0x9E, 0xE0, 0x9E, 0xE0, 0xA1]);
    vm.registers[0] = 4;
    vm.keypad[4] = false;
    vm.step().unwrap();
    assert_eq!(vm.pc, 0x202);
    vm.keypad[4] = true;
    vm.step().unwrap();
    assert_eq!(vm.pc, 0x206);
    vm.step().unwrap();
    assert_eq!(vm.pc, 0x208);
}

#[test]
fn timers_move_through_registers() {
    let mut vm = loaded(&[0x60, 0x09, 0xF0, 0x15, 0xF0, 0x18, 0xF1, 0x07]);
    vm.step().unwrap();
    vm.step().unwrap();
    assert_eq!(vm.delay_timer, 9);
    vm.step().unwrap();
    assert_eq!(vm.sound_timer, 9);
    vm.step().unwrap();
    assert_eq!(vm.registers[1], 9);
}

#[test]
fn tick_timers_counts_down_to_zero_and_stays() {
    let mut vm = fresh();
    vm.delay_timer = 2;
    vm.sound_timer = 1;
    vm.tick_timers();
    assert_eq!(vm.delay_timer, 1);
    assert_eq!(vm.sound_timer, 0);
    vm.tick_timers();
    assert_eq!(vm.delay_timer, 0);
    assert_eq!(vm.sound_timer, 0);
    vm.tick_timers();
    assert_eq!(vm.delay_timer, 0);
}

#[test]
fn add_to_i_wraps_at_16_bits() {
    let mut vm = fresh();
    vm.index_register = 0xFFFF;
    vm.registers[3] = 1;
    vm.add_to_i(3);
    assert_eq!(vm.index_register, 0);
    assert_eq!(vm.registers[0xF], 0);
}

#[test]
fn font_address_is_five_bytes_per_digit() {
    let mut vm = fresh();
    vm.registers[7] = 0xA;
    vm.set_sprite(7);
    assert_eq!(vm.index_register, 0x50 + 5 * 0xA);
}

#[test]
fn font_table_is_loaded_at_its_offset() {
    let vm = fresh();
    assert_eq!(vm.memory[0x4F], 0);
    assert_eq!(vm.memory[0x50], 0xF0);
    assert_eq!(vm.memory[0x51], 0x90);
    assert_eq!(vm.memory[0x55], 0x20);
    assert_eq!(vm.memory[0x9F], 0x80);
    assert_eq!(vm.memory[0xA0], 0);
}

#[test]
fn store_and_load_registers_roundtrip() {
    let mut vm = loaded(&[0xF3, 0x55, 0x00, 0x00, 0xF3, 0x65]);
    vm.set_index(0x400);
    for i in 0..4u8 {
        vm.registers[i as usize] = 10 + i;
    }
    vm.step().unwrap();
    assert_eq!(vm.memory[0x400..0x404], [10, 11, 12, 13]);
    assert_eq!(vm.memory[0x404], 0);
    for i in 0..8 {
        vm.registers[i] = 0;
    }
    vm.pc = 0x204;
    vm.step().unwrap();
    assert_eq!(vm.registers[0], 10);
    assert_eq!(vm.registers[3], 13);
    assert_eq!(vm.registers[4], 0);
}

#[test]
fn rand_with_zero_mask_stores_zero() {
    let mut vm = fresh();
    vm.registers[2] = 0xFF;
    vm.vx_rand(2, 0x00);
    assert_eq!(vm.registers[2], 0);
}

#[test]
fn rand_respects_the_mask() {
    let mut vm = loaded(&[0xC2, 0x0F]);
    vm.step().unwrap();
    assert_eq!(vm.registers[2] & 0xF0, 0);
}

#[test]
fn decode_covers_every_family() {
    assert_eq!(decode(0x00E0), Some(Instruction::Cls));
    assert_eq!(decode(0x00EE), Some(Instruction::Ret));
    assert_eq!(decode(0x0123), Some(Instruction::Sys(0x123)));
    assert_eq!(decode(0x1ABC), Some(Instruction::Jump(0xABC)));
    assert_eq!(decode(0x2ABC), Some(Instruction::Call(0xABC)));
    assert_eq!(decode(0x31FF), Some(Instruction::SkipEqImm(1, 0xFF)));
    assert_eq!(decode(0x42AB), Some(Instruction::SkipNeImm(2, 0xAB)));
    assert_eq!(decode(0x5120), Some(Instruction::SkipEqReg(1, 2)));
    assert_eq!(decode(0x6377), Some(Instruction::SetImm(3, 0x77)));
    assert_eq!(decode(0x7401), Some(Instruction::AddImm(4, 1)));
    assert_eq!(decode(0x8120), Some(Instruction::CopyReg(1, 2)));
    assert_eq!(decode(0x8121), Some(Instruction::OrReg(1, 2)));
    assert_eq!(decode(0x8122), Some(Instruction::AndReg(1, 2)));
    assert_eq!(decode(0x8123), Some(Instruction::XorReg(1, 2)));
    assert_eq!(decode(0x8124), Some(Instruction::AddReg(1, 2)));
    assert_eq!(decode(0x8125), Some(Instruction::SubReg(1, 2)));
    assert_eq!(decode(0x8126), Some(Instruction::ShrReg(1, 2)));
    assert_eq!(decode(0x8127), Some(Instruction::SubInvReg(1, 2)));
    assert_eq!(decode(0x812E), Some(Instruction::ShlReg(1, 2)));
    assert_eq!(decode(0x9120), Some(Instruction::SkipNeReg(1, 2)));
    assert_eq!(decode(0xA123), Some(Instruction::SetIndex(0x123)));
    assert_eq!(decode(0xB123), Some(Instruction::JumpV0(0x123)));
    assert_eq!(decode(0xC1FE), Some(Instruction::Rand(1, 0xFE)));
    assert_eq!(decode(0xD125), Some(Instruction::Draw(1, 2, 5)));
    assert_eq!(decode(0xE19E), Some(Instruction::SkipKey(1)));
    assert_eq!(decode(0xE1A1), Some(Instruction::SkipNoKey(1)));
    assert_eq!(decode(0xF107), Some(Instruction::GetDelay(1)));
    assert_eq!(decode(0xF115), Some(Instruction::SetDelay(1)));
    assert_eq!(decode(0xF118), Some(Instruction::SetSound(1)));
    assert_eq!(decode(0xF11E), Some(Instruction::AddIndex(1)));
    assert_eq!(decode(0xF129), Some(Instruction::FontAddr(1)));
    assert_eq!(decode(0xF155), Some(Instruction::StoreRegs(1)));
    assert_eq!(decode(0xF165), Some(Instruction::LoadRegs(1)));
    assert_eq!(decode(0x8008), None);
    assert_eq!(decode(0xE100), None);
    assert_eq!(decode(0xF1FF), None);
}

#[test]
fn default_state_is_zeroed_with_pc_at_the_program_base() {
    let vm = Chip8::default();
    assert_eq!(vm.pc, 0x200);
    assert_eq!(vm.sp, 0);
    assert_eq!(vm.index_register, 0);
    assert_eq!(vm.delay_timer, 0);
    assert_eq!(vm.sound_timer, 0);
    assert!(vm.memory.iter().all(|&b| b == 0));
    assert!(vm.registers.iter().all(|&b| b == 0));
    assert!(vm.stack.iter().all(|&w| w == 0));
    assert!(vm.display.iter().all(|&p| !p));
    assert!(vm.keypad.iter().all(|&k| !k));
}
