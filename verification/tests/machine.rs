use chip8::cpu::Chip8;
use chip8::errors::{DecodeError, ExecStatus, Fault, StackError};
use chip8::framebuffer::Framebuffer;
use chip8::instructions::Instruction;
use chip8::keypad::Keypad;
use chip8::stack::Stack;

fn machine() -> (Chip8, Framebuffer, Keypad) {
    (Chip8::new(), Framebuffer::new(), Keypad::new())
}

#[test]
fn add_wraps_and_sets_carry() {
    let (mut c, mut fb, keys) = machine();
    c.registers[0] = 0xFF;
    c.registers[1] = 0x01;
    let r = c.execute_instruction(Instruction::MathVxVyAdd(0, 1), &mut fb, &keys);
    assert_eq!(r, Ok(ExecStatus::Ready));
    assert_eq!(c.registers[0], 0x00);
    assert_eq!(c.registers[0xF], 1);
    assert_eq!(c.memory.program_counter, 0x202);
}

#[test]
fn add_without_carry() {
    let (mut c, mut fb, keys) = machine();
    c.registers[0] = 0x01;
    c.registers[1] = 0x01;
    let r = c.execute_instruction(Instruction::MathVxVyAdd(0, 1), &mut fb, &keys);
    assert_eq!(r, Ok(ExecStatus::Ready));
    assert_eq!(c.registers[0], 0x02);
    assert_eq!(c.registers[0xF], 0);
}

#[test]
fn sub_borrows_and_clears_flag() {
    let (mut c, mut fb, keys) = machine();
    c.registers[2] = 0x01;
    c.registers[3] = 0x02;
    let r = c.execute_instruction(Instruction::MathVxVySub(2, 3), &mut fb, &keys);
    assert_eq!(r, Ok(ExecStatus::Ready));
    assert_eq!(c.registers[2], 0xFF);
    assert_eq!(c.registers[0xF], 0);
}

#[test]
fn sub_without_borrow_sets_flag() {
    let (mut c, mut fb, keys) = machine();
    c.registers[2] = 0x05;
    c.registers[3] = 0x02;
    let r = c.execute_instruction(Instruction::MathVxVySub(2, 3), &mut fb, &keys);
    assert_eq!(r, Ok(ExecStatus::Ready));
    assert_eq!(c.registers[2], 0x03);
    assert_eq!(c.registers[0xF], 1);
}

#[test]
fn reverse_sub_uses_mirrored_operands() {
    let (mut c, mut fb, keys) = machine();
    c.registers[4] = 0x02;
    c.registers[5] = 0x07;
    let r = c.execute_instruction(Instruction::MathVyVxSub(4, 5), &mut fb, &keys);
    assert_eq!(r, Ok(ExecStatus::Ready));
    assert_eq!(c.registers[4], 0x05);
    assert_eq!(c.registers[0xF], 1);
}

#[test]
fn call_then_return_restores_program_counter() {
    let (mut c, mut fb, keys) = machine();
    // convention fixed here: Call pushes the address of the call
    // instruction itself, before any advance, and Return lands on it
    let pre_call = c.memory.program_counter;
    assert_eq!(pre_call, 0x200);
    let r = c.execute_instruction(Instruction::FlowCall(0x300), &mut fb, &keys);
    assert_eq!(r, Ok(ExecStatus::Ready));
    assert_eq!(c.memory.program_counter, 0x300);
    let r = c.execute_instruction(Instruction::FlowReturn, &mut fb, &keys);
    assert_eq!(r, Ok(ExecStatus::Ready));
    assert_eq!(c.memory.program_counter, pre_call);
}

#[test]
fn bcd_store_writes_three_digits() {
    let (mut c, mut fb, keys) = machine();
    c.registers[0] = 123;
    c.i = 0x400;
    let r = c.execute_instruction(Instruction::BCDSave(0), &mut fb, &keys);
    assert_eq!(r, Ok(ExecStatus::Ready));
    assert_eq!(c.memory.get_mem(0x400), 1);
    assert_eq!(c.memory.get_mem(0x401), 2);
    assert_eq!(c.memory.get_mem(0x402), 3);
}

#[test]
fn draw_twice_toggles_back_and_collides() {
    let (mut c, mut fb, keys) = machine();
    // a two-row sprite: 0b1100_0000 over 0b1000_0000
    c.i = 0x500;
    c.memory.set_mem(0x500, 0xC0);
    c.memory.set_mem(0x501, 0x80);
    c.registers[0] = 60; // wraps horizontally at 64
    c.registers[1] = 31; // wraps vertically at 32
    let r = c.execute_instruction(Instruction::DrawSprite(0, 1, 2), &mut fb, &keys);
    assert_eq!(r, Ok(ExecStatus::Ready));
    assert_eq!(c.registers[0xF], 0);
    assert!(fb.get_pixel(60, 31));
    assert!(fb.get_pixel(61, 31));
    assert!(fb.get_pixel(60, 0)); // second row wrapped to the top
    assert!(!fb.get_pixel(61, 0));
    let r = c.execute_instruction(Instruction::DrawSprite(0, 1, 2), &mut fb, &keys);
    assert_eq!(r, Ok(ExecStatus::Ready));
    assert_eq!(c.registers[0xF], 1);
    for x in 0..64 {
        for y in 0..32 {
            assert!(!fb.get_pixel(x, y));
        }
    }
}

#[test]
fn register_dump_then_load_restores_registers() {
    let (mut c, mut fb, keys) = machine();
    let values = [0x11u8, 0x22, 0x33, 0x44, 0x55, 0x66];
    for (k, v) in values.iter().enumerate() {
        c.registers[k] = *v;
    }
    c.i = 0x350;
    let r = c.execute_instruction(Instruction::MemRegisterDump(5), &mut fb, &keys);
    assert_eq!(r, Ok(ExecStatus::Ready));
    for k in 0..6 {
        assert_eq!(c.memory.get_mem(0x350 + k), values[k]);
        c.registers[k] = 0;
    }
    let r = c.execute_instruction(Instruction::MemRegisterLoad(5), &mut fb, &keys);
    assert_eq!(r, Ok(ExecStatus::Ready));
    for k in 0..6 {
        assert_eq!(c.registers[k], values[k]);
    }
}

#[test]
fn timer_tick_never_goes_below_zero() {
    let mut c = Chip8::new();
    c.delay_timer = 0;
    c.sound_timer = 1;
    c.update_timers();
    assert_eq!(c.delay_timer, 0);
    assert_eq!(c.sound_timer, 0);
    c.update_timers();
    assert_eq!(c.delay_timer, 0);
    assert_eq!(c.sound_timer, 0);
}

#[test]
fn stack_overflows_on_seventeenth_push_and_underflows_empty() {
    let mut s = Stack::new();
    for k in 0..16u16 {
        assert_eq!(s.push(0x200 + k), Ok(()));
    }
    assert_eq!(s.push(0x999), Err(StackError::Overflow));
    for _ in 0..16 {
        assert!(s.pop().is_ok());
    }
    assert_eq!(s.pop(), Err(StackError::Underflow));
    assert_eq!(s.peek(), Err(StackError::Underflow));
}

#[test]
fn stack_peek_reads_the_top_without_popping() {
    let mut s = Stack::new();
    s.push(0x234).unwrap();
    s.push(0x345).unwrap();
    assert_eq!(s.peek(), Ok(0x345));
    assert_eq!(s.pop(), Ok(0x345));
    assert_eq!(s.pop(), Ok(0x234));
}

#[test]
fn skips_take_four_or_two() {
    let (mut c, mut fb, keys) = machine();
    c.registers[3] = 0x10;
    c.execute_instruction(Instruction::CondVxNNEq(3, 0x10), &mut fb, &keys)
        .unwrap();
    assert_eq!(c.memory.program_counter, 0x204);
    c.memory.jump(0x200);
    c.execute_instruction(Instruction::CondVxNNEq(3, 0x11), &mut fb, &keys)
        .unwrap();
    assert_eq!(c.memory.program_counter, 0x202);
    c.memory.jump(0x200);
    c.registers[4] = 0x10;
    c.execute_instruction(Instruction::CondVxVyEq(3, 4), &mut fb, &keys)
        .unwrap();
    assert_eq!(c.memory.program_counter, 0x204);
    c.memory.jump(0x200);
    c.execute_instruction(Instruction::CondVxVyNeq(3, 4), &mut fb, &keys)
        .unwrap();
    assert_eq!(c.memory.program_counter, 0x202);
    c.memory.jump(0x200);
    c.execute_instruction(Instruction::CondVxNNNeq(3, 0x22), &mut fb, &keys)
        .unwrap();
    assert_eq!(c.memory.program_counter, 0x204);
}

#[test]
fn shifts_report_the_moved_out_bit() {
    let (mut c, mut fb, keys) = machine();
    c.registers[1] = 0b0000_0101;
    c.execute_instruction(Instruction::BitOpShiftRight(1, 6), &mut fb, &keys)
        .unwrap();
    assert_eq!(c.registers[1], 0b0000_0010);
    assert_eq!(c.registers[0xF], 1);
    c.registers[2] = 0b1100_0000;
    c.execute_instruction(Instruction::BitOpShiftLeft(2, 3), &mut fb, &keys)
        .unwrap();
    assert_eq!(c.registers[2], 0b1000_0000);
    assert_eq!(c.registers[0xF], 1);
    c.registers[2] = 0b0100_0000;
    c.execute_instruction(Instruction::BitOpShiftLeft(2, 3), &mut fb, &keys)
        .unwrap();
    assert_eq!(c.registers[2], 0b1000_0000);
    assert_eq!(c.registers[0xF], 0);
}

#[test]
fn bitwise_and_assign_ops() {
    let (mut c, mut fb, keys) = machine();
    c.registers[0] = 0b1010;
    c.registers[1] = 0b0110;
    c.execute_instruction(Instruction::BitOpOR(0, 1), &mut fb, &keys)
        .unwrap();
    assert_eq!(c.registers[0], 0b1110);
    c.registers[0] = 0b1010;
    c.execute_instruction(Instruction::BitOpAND(0, 1), &mut fb, &keys)
        .unwrap();
    assert_eq!(c.registers[0], 0b0010);
    c.registers[0] = 0b1010;
    c.execute_instruction(Instruction::BitOpXOR(0, 1), &mut fb, &keys)
        .unwrap();
    assert_eq!(c.registers[0], 0b1100);
    c.execute_instruction(Instruction::AssignVxVy(0, 1), &mut fb, &keys)
        .unwrap();
    assert_eq!(c.registers[0], 0b0110);
    c.execute_instruction(Instruction::ConstVxNN(7, 0x5D), &mut fb, &keys)
        .unwrap();
    assert_eq!(c.registers[7], 0x5D);
    c.execute_instruction(Instruction::ConstVxAddNN(7, 0xFF), &mut fb, &keys)
        .unwrap();
    assert_eq!(c.registers[7], 0x5C); // wraps, no flag side effect
    assert_eq!(c.registers[0xF], 0);
}

#[test]
fn random_and_respects_the_mask() {
    let (mut c, mut fb, keys) = machine();
    c.registers[6] = 0xAA;
    let r = c.execute_instruction(Instruction::RandomANDVxNN(6, 0x00), &mut fb, &keys);
    assert_eq!(r, Ok(ExecStatus::Ready));
    assert_eq!(c.registers[6], 0x00); // masked with zero, whatever was drawn
    assert_eq!(c.memory.program_counter, 0x202);
    c.execute_instruction(Instruction::RandomANDVxNN(6, 0x0F), &mut fb, &keys)
        .unwrap();
    assert_eq!(c.registers[6] & 0xF0, 0);
}

#[test]
fn key_skips_read_the_keypad() {
    let (mut c, mut fb, mut keys) = machine();
    keys.set_key(7, true);
    c.registers[0] = 7;
    c.execute_instruction(Instruction::KeyOpKeyPressed(0), &mut fb, &keys)
        .unwrap();
    assert_eq!(c.memory.program_counter, 0x204);
    c.memory.jump(0x200);
    c.execute_instruction(Instruction::KeyOpKeyNotPressed(0), &mut fb, &keys)
        .unwrap();
    assert_eq!(c.memory.program_counter, 0x202);
}

#[test]
fn key_wait_suspends_until_a_key_is_down() {
    let (mut c, mut fb, mut keys) = machine();
    let r = c.execute_instruction(Instruction::KeyOpGetKey(2), &mut fb, &keys);
    assert_eq!(r, Ok(ExecStatus::AwaitingKey));
    assert_eq!(c.memory.program_counter, 0x200); // not advanced
    keys.set_key(0xB, true);
    keys.set_key(0xD, true);
    let r = c.execute_instruction(Instruction::KeyOpGetKey(2), &mut fb, &keys);
    assert_eq!(r, Ok(ExecStatus::Ready));
    assert_eq!(c.registers[2], 0xB); // lowest pressed index wins
    assert_eq!(c.memory.program_counter, 0x202);
}

#[test]
fn index_register_ops() {
    let (mut c, mut fb, keys) = machine();
    c.execute_instruction(Instruction::MemSetIAddress(0x123), &mut fb, &keys)
        .unwrap();
    assert_eq!(c.i, 0x123);
    c.registers[4] = 0x20;
    c.execute_instruction(Instruction::MemAddIVx(4), &mut fb, &keys)
        .unwrap();
    assert_eq!(c.i, 0x143);
    c.i = 0xFFF0;
    c.execute_instruction(Instruction::MemAddIVx(4), &mut fb, &keys)
        .unwrap();
    assert_eq!(c.i, 0x0010); // 16-bit wraparound
    c.registers[5] = 0x0A;
    c.execute_instruction(Instruction::MemSetISprite(5), &mut fb, &keys)
        .unwrap();
    assert_eq!(c.i, 0x50 + 5 * 0x0A);
}

#[test]
fn timers_transfer_through_registers() {
    let (mut c, mut fb, keys) = machine();
    c.registers[1] = 42;
    c.execute_instruction(Instruction::DelayTimerSetVx(1), &mut fb, &keys)
        .unwrap();
    assert_eq!(c.delay_timer, 42);
    c.execute_instruction(Instruction::DelayTimerSaveVx(2), &mut fb, &keys)
        .unwrap();
    assert_eq!(c.registers[2], 42);
    c.registers[3] = 9;
    c.execute_instruction(Instruction::SoundTimerSetVx(3), &mut fb, &keys)
        .unwrap();
    assert_eq!(c.sound_timer, 9);
}

#[test]
fn jumps_set_the_program_counter_directly() {
    let (mut c, mut fb, keys) = machine();
    c.execute_instruction(Instruction::FlowJump(0xFA3), &mut fb, &keys)
        .unwrap();
    assert_eq!(c.memory.program_counter, 0xFA3);
    c.memory.jump(0x200);
    c.registers[0] = 5;
    c.execute_instruction(Instruction::FlowJumpOffsetV0(0x300), &mut fb, &keys)
        .unwrap();
    assert_eq!(c.memory.program_counter, 0x305);
}

#[test]
fn display_clear_switches_every_pixel_off() {
    let (mut c, mut fb, keys) = machine();
    fb.set_pixel(3, 4, true);
    fb.set_pixel(63, 31, true);
    let r = c.execute_instruction(Instruction::DisplayClear, &mut fb, &keys);
    assert_eq!(r, Ok(ExecStatus::Ready));
    assert!(!fb.get_pixel(3, 4));
    assert!(!fb.get_pixel(63, 31));
    assert_eq!(c.memory.program_counter, 0x202);
}

#[test]
fn return_on_empty_stack_underflows() {
    let (mut c, mut fb, keys) = machine();
    let r = c.execute_instruction(Instruction::FlowReturn, &mut fb, &keys);
    assert_eq!(r, Err(Fault::Stack(StackError::Underflow)));
    assert_eq!(c.memory.program_counter, 0x200);
}

#[test]
fn call_past_depth_overflows() {
    let (mut c, mut fb, keys) = machine();
    for _ in 0..16 {
        c.execute_instruction(Instruction::FlowCall(0x300), &mut fb, &keys)
            .unwrap();
    }
    let r = c.execute_instruction(Instruction::FlowCall(0x300), &mut fb, &keys);
    assert_eq!(r, Err(Fault::Stack(StackError::Overflow)));
}

#[test]
fn index_out_of_memory_faults() {
    let (mut c, mut fb, keys) = machine();
    c.i = 0xFFE;
    let r = c.execute_instruction(Instruction::BCDSave(0), &mut fb, &keys);
    assert_eq!(r, Err(Fault::Bounds(0x1000)));
    c.i = 0xFF8;
    let r = c.execute_instruction(Instruction::MemRegisterDump(15), &mut fb, &keys);
    assert_eq!(r, Err(Fault::Bounds(0xFF8 + 15)));
    let r = c.execute_instruction(Instruction::MemRegisterLoad(15), &mut fb, &keys);
    assert_eq!(r, Err(Fault::Bounds(0xFF8 + 15)));
    c.i = 0xFFE;
    let r = c.execute_instruction(Instruction::DrawSprite(0, 1, 4), &mut fb, &keys);
    assert_eq!(r, Err(Fault::Bounds(0xFFE + 3)));
}

#[test]
fn load_rom_places_bytes_at_the_program_start() {
    let mut c = Chip8::new();
    let rom = vec![0x60u8, 0x05, 0x12, 0x00];
    c.load_rom(&rom).unwrap();
    assert_eq!(c.memory.get_mem(0x200), 0x60);
    assert_eq!(c.memory.get_mem(0x201), 0x05);
    assert_eq!(c.memory.get_mem(0x202), 0x12);
    assert_eq!(c.memory.get_mem(0x203), 0x00);
    assert_eq!(c.memory.fetch_opcode(), 0x6005);
}

#[test]
fn load_rom_rejects_an_image_that_does_not_fit() {
    let mut c = Chip8::new();
    let rom = vec![0u8; 4096 - 0x200 + 1];
    let r = c.load_rom(&rom);
    assert!(r.is_err());
    assert_eq!(r.unwrap_err().rom_len, 4096 - 0x200 + 1);
    // nothing was written
    assert_eq!(c.memory.get_mem(0x200), 0);
    // the largest image that fits is accepted
    let rom = vec![0xABu8; 4096 - 0x200];
    assert!(c.load_rom(&rom).is_ok());
    assert_eq!(c.memory.get_mem(0xFFF), 0xAB);
}

#[test]
fn font_table_is_installed_at_construction() {
    let c = Chip8::new();
    // glyph 0 starts with 0xF0, glyph F ends with 0x80
    assert_eq!(c.memory.get_mem(0x50), 0xF0);
    assert_eq!(c.memory.get_mem(0x9F), 0x80);
    // bytes outside the table start at zero
    assert_eq!(c.memory.get_mem(0x4F), 0);
    assert_eq!(c.memory.get_mem(0xA0), 0);
}

#[test]
fn emulate_cycle_fetches_decodes_and_executes() {
    let (mut c, mut fb, keys) = machine();
    let rom = vec![0x60u8, 0x2A]; // set V0 to 0x2A
    c.load_rom(&rom).unwrap();
    let r = c.emulate_cycle(&mut fb, &keys);
    assert_eq!(r, Ok(ExecStatus::Ready));
    assert_eq!(c.registers[0], 0x2A);
    assert_eq!(c.memory.program_counter, 0x202);
}

#[test]
fn emulate_cycle_surfaces_decode_faults() {
    let (mut c, mut fb, keys) = machine();
    let rom = vec![0x00u8, 0xE1]; // matches no encoding
    c.load_rom(&rom).unwrap();
    let r = c.emulate_cycle(&mut fb, &keys);
    assert_eq!(r, Err(Fault::Decode(DecodeError { code: 0x00E1 })));
    assert_eq!(c.memory.program_counter, 0x200);
}

#[test]
fn emulate_cycle_surfaces_a_program_counter_out_of_bounds() {
    let (mut c, mut fb, keys) = machine();
    c.memory.jump(0xFFF); // no room left for a full opcode
    let r = c.emulate_cycle(&mut fb, &keys);
    assert_eq!(r, Err(Fault::Bounds(0xFFF)));
}

#[test]
fn load_rom_accepts_an_empty_image() {
    let mut c = Chip8::new();
    let rom: Vec<u8> = vec![];
    assert_eq!(c.load_rom(&rom), Ok(()));
    assert_eq!(c.memory.get_mem(0x200), 0);
    assert_eq!(c.memory.program_counter, 0x200);
}

#[test]
fn zero_height_draw_touches_nothing() {
    let (mut c, mut fb, keys) = machine();
    c.i = 0xFFFF; // never read: no rows
    let r = c.execute_instruction(Instruction::DrawSprite(0, 1, 0), &mut fb, &keys);
    assert_eq!(r, Ok(ExecStatus::Ready));
    assert_eq!(c.registers[0xF], 0);
    for x in 0..64 {
        for y in 0..32 {
            assert!(!fb.get_pixel(x, y));
        }
    }
}

#[test]
fn draw_wraps_large_coordinates_onto_the_grid() {
    let (mut c, mut fb, keys) = machine();
    c.i = 0x600;
    c.memory.set_mem(0x600, 0x80); // a single pixel
    c.registers[0] = 200; // 200 mod 64 == 8
    c.registers[1] = 70; // 70 mod 32 == 6
    let r = c.execute_instruction(Instruction::DrawSprite(0, 1, 1), &mut fb, &keys);
    assert_eq!(r, Ok(ExecStatus::Ready));
    assert!(fb.get_pixel(8, 6));
    assert_eq!(c.registers[0xF], 0);
}
