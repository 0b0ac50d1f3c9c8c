//! End-to-end scenarios through the engine: load a ROM, step, and
//! inspect the machine.

use rc201_8::cpu::{Cpu, CpuErrorVariant, EmuError, Fault};
use rc201_8::display::{Display, DisplayDummy};
use rc201_8::emu::Emu;
use rc201_8::keypad::{Key, Keypad};
use rc201_8::mem::{Mem, MemErrorVariant, MemRange};

fn fresh() -> Emu<DisplayDummy> {
    Emu::new(DisplayDummy::new())
}

fn reg(emu: &Emu<DisplayDummy>, i: usize) -> u8 {
    emu.reg_get(&i).ok().unwrap()
}

#[test]
fn load_and_run() {
    let mut emu = fresh();
    emu.load_rom(&[0x60, 0x05, 0x61, 0x03, 0x80, 0x14]).ok().unwrap();
    emu.step().ok().unwrap();
    assert_eq!(reg(&emu, 0), 0x05);
    emu.step().ok().unwrap();
    assert_eq!(reg(&emu, 1), 0x03);
    emu.step().ok().unwrap();
    assert_eq!(reg(&emu, 0), 0x08);
    assert_eq!(reg(&emu, 0xF), 0);
    assert_eq!(emu.pc_get(), 0x206);
}

#[test]
fn skip_if_equal() {
    let mut emu = fresh();
    emu.load_rom(&[0x32, 0x07, 0x00, 0x00]).ok().unwrap();
    emu.reg_put(&2, 7).ok().unwrap();
    assert_eq!(emu.pc_get(), 0x200);
    emu.step().ok().unwrap();
    assert_eq!(emu.pc_get(), 0x204);
}

#[test]
fn skip_if_equal_not_taken() {
    let mut emu = fresh();
    emu.load_rom(&[0x32, 0x07, 0x00, 0x00]).ok().unwrap();
    emu.reg_put(&2, 8).ok().unwrap();
    emu.step().ok().unwrap();
    assert_eq!(emu.pc_get(), 0x202);
}

#[test]
fn call_and_return() {
    let mut emu = fresh();
    emu.load_rom(&[0x22, 0x08, 0x00, 0x00, 0x00, 0x00, 0x00, 0x00, 0x00, 0xEE]).ok().unwrap();
    emu.step().ok().unwrap();
    assert_eq!(emu.pc_get(), 0x208);
    assert_eq!(emu.spt_get(), 1);
    assert_eq!(emu.stk_peek(0), 0x202);
    emu.step().ok().unwrap();
    assert_eq!(emu.pc_get(), 0x202);
    assert_eq!(emu.spt_get(), 0);
}

#[test]
fn bcd_of_197() {
    let mut emu = fresh();
    // set I to 0x300, then store the BCD digits of V[3]
    emu.load_rom(&[0xA3, 0x00, 0xF3, 0x33]).ok().unwrap();
    emu.reg_put(&3, 197).ok().unwrap();
    emu.step().ok().unwrap();
    assert_eq!(emu.ind_get(), 0x300);
    emu.step().ok().unwrap();
    assert_eq!(emu.mem_get(&0x300).ok().unwrap(), 1);
    assert_eq!(emu.mem_get(&0x301).ok().unwrap(), 9);
    assert_eq!(emu.mem_get(&0x302).ok().unwrap(), 7);
}

#[test]
fn bcd_of_253() {
    let mut emu = fresh();
    emu.load_rom(&[0xA4, 0x00, 0xF5, 0x33]).ok().unwrap();
    emu.reg_put(&5, 253).ok().unwrap();
    emu.step().ok().unwrap();
    emu.step().ok().unwrap();
    assert_eq!(emu.mem_get(&0x400).ok().unwrap(), 2);
    assert_eq!(emu.mem_get(&0x401).ok().unwrap(), 5);
    assert_eq!(emu.mem_get(&0x402).ok().unwrap(), 3);
}

#[test]
fn wait_for_key() {
    let mut emu = fresh();
    emu.load_rom(&[0xF0, 0x0A]).ok().unwrap();
    emu.step().ok().unwrap();
    assert_eq!(emu.pc_get(), 0x200);
    emu.key_down(Key::K5);
    emu.step().ok().unwrap();
    assert_eq!(reg(&emu, 0), 0x05);
    assert_eq!(emu.pc_get(), 0x202);
}

#[test]
fn add_with_carry() {
    let mut emu = fresh();
    emu.load_rom(&[0x80, 0x14]).ok().unwrap();
    emu.reg_put(&0, 0xFF).ok().unwrap();
    emu.reg_put(&1, 0x01).ok().unwrap();
    emu.step().ok().unwrap();
    assert_eq!(reg(&emu, 0), 0x00);
    assert_eq!(reg(&emu, 0xF), 1);
}

#[test]
fn sub_with_borrow() {
    let mut emu = fresh();
    emu.load_rom(&[0x80, 0x15]).ok().unwrap();
    emu.reg_put(&0, 0x00).ok().unwrap();
    emu.reg_put(&1, 0x01).ok().unwrap();
    emu.step().ok().unwrap();
    assert_eq!(reg(&emu, 0), 0xFF);
    assert_eq!(reg(&emu, 0xF), 0);
}

#[test]
fn subn_reversed_operands() {
    let mut emu = fresh();
    emu.load_rom(&[0x80, 0x17]).ok().unwrap();
    emu.reg_put(&0, 3).ok().unwrap();
    emu.reg_put(&1, 10).ok().unwrap();
    emu.step().ok().unwrap();
    assert_eq!(reg(&emu, 0), 7);
    assert_eq!(reg(&emu, 0xF), 1);
}

#[test]
fn shift_right_flags_low_bit() {
    let mut emu = fresh();
    emu.load_rom(&[0x80, 0x16]).ok().unwrap();
    emu.reg_put(&0, 0x05).ok().unwrap();
    emu.step().ok().unwrap();
    assert_eq!(reg(&emu, 0), 0x02);
    assert_eq!(reg(&emu, 0xF), 1);
}

#[test]
fn shift_left_flags_high_bit_as_one() {
    let mut emu = fresh();
    emu.load_rom(&[0x80, 0x1E]).ok().unwrap();
    emu.reg_put(&0, 0x81).ok().unwrap();
    emu.step().ok().unwrap();
    assert_eq!(reg(&emu, 0), 0x02);
    // the flag is the shifted-out bit as 0 or 1, not 0x80
    assert_eq!(reg(&emu, 0xF), 1);
}

#[test]
fn call_at_full_stack_overflows() {
    let mut emu = fresh();
    // a subroutine that calls itself: every step pushes one frame
    emu.load_rom(&[0x22, 0x00]).ok().unwrap();
    for _ in 0..16 {
        emu.step().ok().unwrap();
    }
    assert_eq!(emu.spt_get(), 16);
    match emu.step() {
        Err(e) => assert_eq!(e.fault(), Fault::Cpu(CpuErrorVariant::StackOverflow(16))),
        Ok(()) => panic!("seventeenth call must overflow"),
    }
}

#[test]
fn return_at_empty_stack_underflows() {
    let mut emu = fresh();
    emu.load_rom(&[0x00, 0xEE]).ok().unwrap();
    match emu.step() {
        Err(e) => assert_eq!(e.fault(), Fault::Cpu(CpuErrorVariant::StackUnderflow(0))),
        Ok(()) => panic!("return on an empty stack must underflow"),
    }
}

#[test]
fn unknown_opcode_is_fatal() {
    let mut emu = fresh();
    emu.load_rom(&[0xFF, 0xFF]).ok().unwrap();
    match emu.step() {
        Err(EmuError::Cpu(e)) => {
            assert_eq!(e.variant(), CpuErrorVariant::InvalidOperationCode(0xFFFF));
            assert_eq!(e.message(), "Illegal operation code '65535'!");
        }
        _ => panic!("0xFFFF decodes to no operation"),
    }
    // the failed cycle still advanced the counter past the fetch
    assert_eq!(emu.pc_get(), 0x202);
}

#[test]
fn bcd_near_end_of_memory_faults() {
    let mut emu = fresh();
    // I = 0xFFF, then FX33 would write 0xFFF..0x1001
    emu.load_rom(&[0xAF, 0xFF, 0xF0, 0x33]).ok().unwrap();
    emu.step().ok().unwrap();
    match emu.step() {
        Err(e) => assert_eq!(e.fault(), Fault::Mem(MemErrorVariant::AccessViolation(4096))),
        Ok(()) => panic!("BCD past the end of memory must fault"),
    }
}

#[test]
fn store_then_load_restores_registers() {
    let mut emu = fresh();
    // I = 0x500; store V0..=V3; clobber V1; load V0..=V3 back
    emu.load_rom(&[0xA5, 0x00, 0xF3, 0x55, 0x61, 0x63, 0xF3, 0x65]).ok().unwrap();
    for (i, v) in [10u8, 20, 30, 40].iter().enumerate() {
        emu.reg_put(&i, *v).ok().unwrap();
    }
    emu.step().ok().unwrap();
    emu.step().ok().unwrap();
    assert_eq!(emu.mem_get(&0x500).ok().unwrap(), 10);
    assert_eq!(emu.mem_get(&0x503).ok().unwrap(), 40);
    emu.step().ok().unwrap();
    assert_eq!(reg(&emu, 1), 0x63);
    emu.step().ok().unwrap();
    assert_eq!(reg(&emu, 0), 10);
    assert_eq!(reg(&emu, 1), 20);
    assert_eq!(reg(&emu, 2), 30);
    assert_eq!(reg(&emu, 3), 40);
    // I itself is left unmodified
    assert_eq!(emu.ind_get(), 0x500);
}

#[test]
fn load_rom_places_bytes_at_program_start() {
    let mut emu = fresh();
    emu.load_rom(&[1, 2, 3]).ok().unwrap();
    assert_eq!(emu.mem_get(&0x200).ok().unwrap(), 1);
    assert_eq!(emu.mem_get(&0x201).ok().unwrap(), 2);
    assert_eq!(emu.mem_get(&0x202).ok().unwrap(), 3);
    // outside the ROM and the font everything is zero
    assert_eq!(emu.mem_get(&0x1FF).ok().unwrap(), 0);
    assert_eq!(emu.mem_get(&0x203).ok().unwrap(), 0);
    assert_eq!(emu.mem_get(&0xFFF).ok().unwrap(), 0);
    // the font glyph for 0 starts at address 0
    assert_eq!(emu.mem_get(&0).ok().unwrap(), 0xF0);
    assert_eq!(emu.mem_get(&79).ok().unwrap(), 0x80);
}

#[test]
fn load_rom_of_maximum_length() {
    let mut emu = fresh();
    let rom = vec![0xAB_u8; 3584];
    emu.load_rom(&rom).ok().unwrap();
    assert_eq!(emu.mem_get(&0x200).ok().unwrap(), 0xAB);
    assert_eq!(emu.mem_get(&0xFFF).ok().unwrap(), 0xAB);
}

#[test]
fn load_rom_too_long_is_refused() {
    let mut emu = fresh();
    let rom = vec![7u8; 3585];
    match emu.load_rom(&rom) {
        Err(e) => {
            assert_eq!(e.variant(), MemErrorVariant::AccessRangeViolation(0x200, 4096));
        }
        Ok(()) => panic!("a 3585-byte ROM does not fit"),
    }
    // nothing was copied
    assert_eq!(emu.mem_get(&0x200).ok().unwrap(), 0);
}

#[test]
fn timers_decrement_to_zero() {
    let mut emu = fresh();
    emu.load_rom(&[0x60, 0x02, 0xF0, 0x15, 0xF0, 0x18]).ok().unwrap();
    emu.step().ok().unwrap();
    emu.step().ok().unwrap();
    emu.step().ok().unwrap();
    assert_eq!(emu.dtm_get(), 2);
    assert_eq!(emu.stm_get(), 2);
    emu.tick_timers();
    assert_eq!(emu.dtm_get(), 1);
    assert_eq!(emu.stm_get(), 1);
    emu.tick_timers();
    emu.tick_timers();
    assert_eq!(emu.dtm_get(), 0);
    assert_eq!(emu.stm_get(), 0);
}

#[test]
fn delay_timer_read_back() {
    let mut emu = fresh();
    // DT = V0 = 9; tick once; V1 = DT
    emu.load_rom(&[0x60, 0x09, 0xF0, 0x15, 0xF1, 0x07]).ok().unwrap();
    emu.step().ok().unwrap();
    emu.step().ok().unwrap();
    emu.tick_timers();
    emu.step().ok().unwrap();
    assert_eq!(reg(&emu, 1), 8);
}

#[test]
fn random_masked_with_zero_is_zero() {
    let mut emu = fresh();
    emu.load_rom(&[0xC0, 0x00]).ok().unwrap();
    emu.reg_put(&0, 0xAA).ok().unwrap();
    emu.step().ok().unwrap();
    assert_eq!(reg(&emu, 0), 0);
}

#[test]
fn jump_with_offset() {
    let mut emu = fresh();
    emu.load_rom(&[0xB3, 0x00]).ok().unwrap();
    emu.reg_put(&0, 4).ok().unwrap();
    emu.step().ok().unwrap();
    assert_eq!(emu.pc_get(), 0x304);
}

#[test]
fn font_lookup_scales_by_five() {
    let mut emu = fresh();
    emu.load_rom(&[0xF0, 0x29]).ok().unwrap();
    emu.reg_put(&0, 0xA).ok().unwrap();
    emu.step().ok().unwrap();
    assert_eq!(emu.ind_get(), 50);
}

#[test]
fn add_to_index() {
    let mut emu = fresh();
    emu.load_rom(&[0xA1, 0x00, 0xF0, 0x1E]).ok().unwrap();
    emu.reg_put(&0, 0x20).ok().unwrap();
    emu.step().ok().unwrap();
    emu.step().ok().unwrap();
    assert_eq!(emu.ind_get(), 0x120);
}

#[test]
fn skip_if_key_down() {
    let mut emu = fresh();
    emu.load_rom(&[0xE0, 0x9E, 0x00, 0x00, 0xE0, 0xA1]).ok().unwrap();
    emu.reg_put(&0, 0x7).ok().unwrap();
    emu.key_down(Key::K7);
    emu.step().ok().unwrap();
    // key 7 is down: EX9E skips
    assert_eq!(emu.pc_get(), 0x204);
    emu.step().ok().unwrap();
    // key 7 is down: EXA1 does not skip
    assert_eq!(emu.pc_get(), 0x206);
}

#[test]
fn mem_read_past_end_is_a_range_violation() {
    let emu = fresh();
    match emu.mem_read(MemRange::up_to(4097)) {
        Err(e) => {
            assert_eq!(e.variant(), MemErrorVariant::AccessRangeViolation(0, 4096));
            assert_eq!(e.message(), "Illegal range '0..4096'!");
        }
        Ok(_) => panic!("..4097 leaves the address space"),
    }
}

#[test]
fn wrapping_add_immediate_has_no_flag() {
    let mut emu = fresh();
    emu.load_rom(&[0x70, 0x05]).ok().unwrap();
    emu.reg_put(&0, 0xFE).ok().unwrap();
    emu.reg_put(&0xF, 0x77).ok().unwrap();
    emu.step().ok().unwrap();
    assert_eq!(reg(&emu, 0), 0x03);
    // 7XNN never touches the flag register
    assert_eq!(reg(&emu, 0xF), 0x77);
}

#[test]
fn counter_and_stack_invariants_hold_across_steps() {
    let mut emu = fresh();
    // a loop: call a subroutine, return, jump back, over and over
    emu.load_rom(&[0x22, 0x04, 0x12, 0x00, 0x00, 0xEE]).ok().unwrap();
    for _ in 0..12 {
        emu.step().ok().unwrap();
        let pc = emu.pc_get();
        assert!(pc % 2 == 0);
        assert!(pc < 4096);
        assert!(emu.spt_get() <= 16);
    }
}

#[test]
fn engine_works_through_the_interface_traits() {
    let mut emu = fresh();
    <Emu<DisplayDummy> as Mem>::mem_put(&mut emu, &0x400, 9).ok().unwrap();
    assert_eq!(<Emu<DisplayDummy> as Mem>::mem_get(&emu, &0x400).ok().unwrap(), 9);
    <Emu<DisplayDummy> as Cpu>::reg_put(&mut emu, &4, 0x21).ok().unwrap();
    assert_eq!(<Emu<DisplayDummy> as Cpu>::reg_get(&emu, &4).ok().unwrap(), 0x21);
    // V[4] |= V[5] through the dispatch entry point
    <Emu<DisplayDummy> as Cpu>::recv_opcode(&mut emu, &0x8451).ok().unwrap();
    assert_eq!(emu.reg_get(&4).ok().unwrap(), 0x21);
    assert_eq!(<Emu<DisplayDummy> as Keypad>::key_to_u8(&emu, &Key::K9), 9);
}
