//! The opcode decoder, one pattern at a time.

use rc201_8::oper::{Oper, OperCode};

fn decode(code: u16) -> OperCode {
    Oper::from_code(&code, &16)
}

#[test]
fn decodes_screen_and_flow() {
    assert_eq!(decode(0x00E0), OperCode::Display00E0);
    assert_eq!(decode(0x00EE), OperCode::Flow00EE);
    assert_eq!(decode(0x1ABC), OperCode::Flow1NNN(0xABC));
    assert_eq!(decode(0x2123), OperCode::Flow2NNN(0x123));
    assert_eq!(decode(0xB777), OperCode::FlowBNNN(0x777));
}

#[test]
fn decodes_conditionals() {
    assert_eq!(decode(0x3A55), OperCode::Cond3XNN(0xA, 0x55));
    assert_eq!(decode(0x4B66), OperCode::Cond4XNN(0xB, 0x66));
    assert_eq!(decode(0x5CD0), OperCode::Cond5XY0(0xC, 0xD));
    assert_eq!(decode(0x9120), OperCode::Cond9XY0(0x1, 0x2));
}

#[test]
fn decodes_constants_and_alu() {
    assert_eq!(decode(0x6E99), OperCode::Const6XNN(0xE, 0x99));
    assert_eq!(decode(0x7001), OperCode::Const7XNN(0x0, 0x01));
    assert_eq!(decode(0x8120), OperCode::Assign8XY0(0x1, 0x2));
    assert_eq!(decode(0x8341), OperCode::BitOp8XY1(0x3, 0x4));
    assert_eq!(decode(0x8562), OperCode::BitOp8XY2(0x5, 0x6));
    assert_eq!(decode(0x8783), OperCode::BitOp8XY3(0x7, 0x8));
    assert_eq!(decode(0x89A4), OperCode::Math8XY4(0x9, 0xA));
    assert_eq!(decode(0x8BC5), OperCode::Math8XY5(0xB, 0xC));
    assert_eq!(decode(0x8DE6), OperCode::BitOp8XY6(0xD, 0xE));
    assert_eq!(decode(0x8F07), OperCode::Math8XY7(0xF, 0x0));
    assert_eq!(decode(0x812E), OperCode::BitOp8XYE(0x1, 0x2));
}

#[test]
fn decodes_memory_and_misc() {
    assert_eq!(decode(0xA210), OperCode::MemANNN(0x210));
    assert_eq!(decode(0xC2AB), OperCode::RandCXNN(0x2, 0xAB));
    assert_eq!(decode(0xD125), OperCode::DisplayDXYN(0x1, 0x2, 0x5));
    assert_eq!(decode(0xE39E), OperCode::KeyOpEX9E(0x3));
    assert_eq!(decode(0xE4A1), OperCode::KeyOpEXA1(0x4));
    assert_eq!(decode(0xF507), OperCode::TimerFX07(0x5));
    assert_eq!(decode(0xF60A), OperCode::KeyOpFX0A(0x6));
    assert_eq!(decode(0xF715), OperCode::TimerFX15(0x7));
    assert_eq!(decode(0xF818), OperCode::SoundFX18(0x8));
    assert_eq!(decode(0xF91E), OperCode::MemFX1E(0x9));
    assert_eq!(decode(0xFA29), OperCode::MemFX29(0xA));
    assert_eq!(decode(0xFB33), OperCode::BcdFX33(0xB));
    assert_eq!(decode(0xFC55), OperCode::MemFX55(0xC));
    assert_eq!(decode(0xFD65), OperCode::MemFX65(0xD));
}

#[test]
fn unrecognized_patterns_are_unknown() {
    assert_eq!(decode(0x0000), OperCode::Unknown);
    assert_eq!(decode(0x00E1), OperCode::Unknown);
    assert_eq!(decode(0x5CD1), OperCode::Unknown);
    assert_eq!(decode(0x8129), OperCode::Unknown);
    assert_eq!(decode(0xE000), OperCode::Unknown);
    assert_eq!(decode(0xF000), OperCode::Unknown);
    assert_eq!(decode(0xFFFF), OperCode::Unknown);
}
