//! Memory primitives, ranges and the error types.

use rc201_8::cpu::{CpuError, CpuErrorVariant};
use rc201_8::display::{Display, DisplayDummy};
use rc201_8::emu::Emu;
use rc201_8::mem::{MemError, MemErrorVariant, MemRange};

fn fresh() -> Emu<DisplayDummy> {
    Emu::new(DisplayDummy::new())
}

#[test]
fn memory_size_and_index_validation() {
    let emu = fresh();
    assert_eq!(emu.max_size(), 4096);
    assert!(emu.validate_index(&0));
    assert!(emu.validate_index(&4095));
    assert!(!emu.validate_index(&4096));
    assert!(!emu.validate_index(&15000));
}

#[test]
fn put_and_get_round_trip() {
    let mut emu = fresh();
    emu.mem_put(&0x100, 25).ok().unwrap();
    assert_eq!(emu.mem_get(&0x100).ok().unwrap(), 25);
    // above the font everything starts at zero
    assert_eq!(emu.mem_get(&0x101).ok().unwrap(), 0);
}

#[test]
fn get_out_of_range_reports_the_address() {
    let emu = fresh();
    match emu.mem_get(&4097) {
        Err(e) => {
            assert_eq!(e.variant(), MemErrorVariant::AccessViolation(4097));
            assert_eq!(e.message(), "Illegal address '4097'!");
        }
        Ok(_) => panic!("4097 lies outside memory"),
    }
}

#[test]
fn range_resolution() {
    let emu = fresh();
    assert_eq!(emu.range_get_start_end(MemRange::full()).ok().unwrap(), (0, 4096));
    assert_eq!(emu.range_get_start_end(MemRange::span(1, 3)).ok().unwrap(), (1, 3));
    assert_eq!(emu.range_get_start_end(MemRange::up_to(3)).ok().unwrap(), (0, 3));
    assert_eq!(emu.range_get_start_end(MemRange::starting_at(3)).ok().unwrap(), (3, 4096));
}

#[test]
fn range_validation() {
    let emu = fresh();
    assert!(emu.validate_range(MemRange::full()));
    assert!(emu.validate_range(MemRange::span(25, 37)));
    assert!(!emu.validate_range(MemRange::up_to(15000)));
    assert!(!emu.validate_range(MemRange::span(5, 5)));
    assert!(!emu.validate_range(MemRange::span(7, 3)));
}

#[test]
fn read_copies_the_span() {
    let mut emu = fresh();
    emu.mem_write(MemRange::span(4090, 4096), &[3, 4]).ok().unwrap();
    assert_eq!(emu.mem_get(&4090).ok().unwrap(), 3);
    assert_eq!(emu.mem_get(&4091).ok().unwrap(), 4);
    assert_eq!(emu.mem_read(MemRange::full()).ok().unwrap().len(), 4096);
    assert_eq!(emu.mem_read(MemRange::up_to(3)).ok().unwrap().len(), 3);
    assert_eq!(emu.mem_read(MemRange::starting_at(3)).ok().unwrap().len(), 4093);
    assert_eq!(emu.mem_read(MemRange::span(25, 37)).ok().unwrap().len(), 12);
    assert_eq!(emu.mem_read(MemRange::span(4090, 4092)).ok().unwrap(), vec![3, 4]);
}

#[test]
fn short_slice_fills_only_the_head() {
    let mut emu = fresh();
    emu.mem_put(&0x101, 9).ok().unwrap();
    emu.mem_write(MemRange::span(0x100, 0x104), &[3]).ok().unwrap();
    assert_eq!(emu.mem_get(&0x100).ok().unwrap(), 3);
    // the tail of the range is not zero-filled
    assert_eq!(emu.mem_get(&0x101).ok().unwrap(), 9);
}

#[test]
fn long_slice_is_clipped_to_the_range() {
    let mut emu = fresh();
    emu.mem_write(MemRange::span(0x100, 0x101), &[3, 4, 5]).ok().unwrap();
    assert_eq!(emu.mem_get(&0x100).ok().unwrap(), 3);
    assert_eq!(emu.mem_get(&0x101).ok().unwrap(), 0);
    assert_eq!(emu.mem_get(&0x102).ok().unwrap(), 0);
}

#[test]
fn range_violation_reports_last_index() {
    // the variant keeps the last index asked for, one below the
    // exclusive end, and the message shows the same pair
    let e = MemError::new(MemErrorVariant::AccessRangeViolation(25, 36));
    assert_eq!(e.variant(), MemErrorVariant::AccessRangeViolation(25, 35));
    assert_eq!(e.message(), "Illegal range '25..35'!");
}

#[test]
fn access_violation_message() {
    let e = MemError::new(MemErrorVariant::AccessViolation(25));
    assert_eq!(e.variant(), MemErrorVariant::AccessViolation(25));
    assert_eq!(e.message(), "Illegal address '25'!");
}

#[test]
fn cpu_error_messages() {
    let e = CpuError::new(CpuErrorVariant::InvalidRegisterIndex(28));
    assert_eq!(e.variant(), CpuErrorVariant::InvalidRegisterIndex(28));
    assert_eq!(e.message(), "Illegal register index '28'!");
    let e = CpuError::new(CpuErrorVariant::StackOverflow(16));
    assert_eq!(e.message(), "Stack overflow '16'!");
    let e = CpuError::new(CpuErrorVariant::StackUnderflow(0));
    assert_eq!(e.message(), "Stack underflow '0'!");
}

#[test]
fn register_file_bounds() {
    let mut emu = fresh();
    assert!(emu.validate_register_index(&15));
    assert!(!emu.validate_register_index(&16));
    emu.reg_put(&7, 0x42).ok().unwrap();
    assert_eq!(emu.reg_get(&7).ok().unwrap(), 0x42);
    match emu.reg_get(&28) {
        Err(e) => assert_eq!(e.variant(), CpuErrorVariant::InvalidRegisterIndex(28)),
        Ok(_) => panic!("register 28 does not exist"),
    }
    emu.reg_put_vf(0x99);
    assert_eq!(emu.reg_get(&15).ok().unwrap(), 0x99);
}

#[test]
fn stack_push_pop_discipline() {
    let mut emu = fresh();
    assert_eq!(emu.spt_get(), 0);
    emu.stk_push(0x234).ok().unwrap();
    assert_eq!(emu.spt_get(), 1);
    assert_eq!(emu.stk_peek(0), 0x234);
    assert_eq!(emu.stk_pop().ok().unwrap(), 0x234);
    assert_eq!(emu.spt_get(), 0);
    match emu.stk_pop() {
        Err(e) => assert_eq!(e.variant(), CpuErrorVariant::StackUnderflow(0)),
        Ok(_) => panic!("pop from an empty stack must fail"),
    }
    for a in 0..16u16 {
        emu.stk_push(a).ok().unwrap();
    }
    match emu.stk_push(99) {
        Err(e) => assert_eq!(e.variant(), CpuErrorVariant::StackOverflow(16)),
        Ok(_) => panic!("push onto a full stack must fail"),
    }
}

#[test]
fn stack_pointer_validation() {
    let emu = fresh();
    assert_eq!(emu.spt_validate(&0).ok().unwrap(), 0);
    assert_eq!(emu.spt_validate(&16).ok().unwrap(), 16);
    match emu.spt_validate(&17) {
        Err(e) => assert_eq!(e.variant(), CpuErrorVariant::StackOverflow(17)),
        Ok(_) => panic!("17 is no stack pointer"),
    }
}
