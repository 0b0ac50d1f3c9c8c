//! The opcode decoder: a pure, total function from a 16-bit instruction
//! word to a tagged variant describing one of the 35 CHIP-8 operations,
//! or `Unknown` for anything else.

use vstd::prelude::*;

verus! {

/// A decoded CHIP-8 instruction.
///
/// Register operands are carried as indices into the register file
/// (always below 16, since they come from a single nibble); immediates
/// are carried as the 4-, 8- or 12-bit value extracted from the word.
#[derive(Clone, Copy, Debug, PartialEq, Eq, Structural)]
pub enum OperCode {
    /// 00E0: clear the screen.
    Display00E0,
    /// 00EE: return from a subroutine.
    Flow00EE,
    /// 1NNN: jump to address NNN.
    Flow1NNN(u16),
    /// 2NNN: call the subroutine at NNN.
    Flow2NNN(u16),
    /// 3XNN: skip the next instruction if V[X] equals NN.
    Cond3XNN(usize, u8),
    /// 4XNN: skip the next instruction if V[X] does not equal NN.
    Cond4XNN(usize, u8),
    /// 5XY0: skip the next instruction if V[X] equals V[Y].
    Cond5XY0(usize, usize),
    /// 6XNN: set V[X] to NN.
    Const6XNN(usize, u8),
    /// 7XNN: add NN to V[X], wrapping; the flag register is untouched.
    Const7XNN(usize, u8),
    /// 8XY0: set V[X] to V[Y].
    Assign8XY0(usize, usize),
    /// 8XY1: set V[X] to V[X] | V[Y].
    BitOp8XY1(usize, usize),
    /// 8XY2: set V[X] to V[X] & V[Y].
    BitOp8XY2(usize, usize),
    /// 8XY3: set V[X] to V[X] ^ V[Y].
    BitOp8XY3(usize, usize),
    /// 8XY4: add V[Y] to V[X]; V[F] becomes 1 on carry, else 0.
    Math8XY4(usize, usize),
    /// 8XY5: subtract V[Y] from V[X]; V[F] becomes 1 when there is no
    /// borrow, else 0.
    Math8XY5(usize, usize),
    /// 8XY6: store the least significant bit of V[X] in V[F], then shift
    /// V[X] right by one.
    BitOp8XY6(usize, usize),
    /// 8XY7: set V[X] to V[Y] - V[X]; V[F] becomes 1 when there is no
    /// borrow, else 0.
    Math8XY7(usize, usize),
    /// 8XYE: store the most significant bit of V[X] (as 0 or 1) in V[F],
    /// then shift V[X] left by one.
    BitOp8XYE(usize, usize),
    /// 9XY0: skip the next instruction if V[X] does not equal V[Y].
    Cond9XY0(usize, usize),
    /// ANNN: set the index register I to NNN.
    MemANNN(u16),
    /// BNNN: jump to NNN + V[0].
    FlowBNNN(u16),
    /// CXNN: set V[X] to a random byte masked with NN.
    RandCXNN(usize, u8),
    /// DXYN: draw the N-row sprite at memory I at coordinates
    /// (V[X], V[Y]); V[F] reports a collision.
    DisplayDXYN(usize, usize, u8),
    /// EX9E: skip the next instruction if the key named by V[X] is down.
    KeyOpEX9E(usize),
    /// EXA1: skip the next instruction if the key named by V[X] is up.
    KeyOpEXA1(usize),
    /// FX07: set V[X] to the delay timer.
    TimerFX07(usize),
    /// FX0A: wait for a key press and store it in V[X]; while no key is
    /// down the program counter is rewound so the instruction repeats.
    KeyOpFX0A(usize),
    /// FX15: set the delay timer to V[X].
    TimerFX15(usize),
    /// FX18: set the sound timer to V[X].
    SoundFX18(usize),
    /// FX1E: add V[X] to I.
    MemFX1E(usize),
    /// FX29: point I at the font glyph for the digit V[X].
    MemFX29(usize),
    /// FX33: store the three decimal digits of V[X] at I, I+1, I+2.
    BcdFX33(usize),
    /// FX55: store V[0]..=V[X] at memory I onward; I is unchanged.
    MemFX55(usize),
    /// FX65: load V[0]..=V[X] from memory I onward; I is unchanged.
    MemFX65(usize),
    /// No defined operation.
    Unknown,
}

/// The X operand: the second nibble, a register index below 16.
pub open spec fn spec_x(code: u16) -> usize {
    ((code & 0x0F00) >> 8) as usize
}

/// The Y operand: the third nibble, a register index below 16.
pub open spec fn spec_y(code: u16) -> usize {
    ((code & 0x00F0) >> 4) as usize
}

/// The N operand: the low nibble, a 4-bit immediate.
pub open spec fn spec_n(code: u16) -> u8 {
    (code & 0x000F) as u8
}

/// The NN operand: the low byte, an 8-bit immediate.
pub open spec fn spec_nn(code: u16) -> u8 {
    (code & 0x00FF) as u8
}

/// The NNN operand: the low three nibbles, a 12-bit address.
pub open spec fn spec_nnn(code: u16) -> u16 {
    code & 0x0FFF
}

/// What a 16-bit word decodes to, keyed on its four nibbles.
pub open spec fn spec_decode(code: u16) -> OperCode {
    let a = (code & 0xF000) >> 12;
    let b = (code & 0x0F00) >> 8;
    let c = (code & 0x00F0) >> 4;
    let d = code & 0x000F;
    if a == 0x0 && b == 0x0 && c == 0xE && d == 0x0 {
        OperCode::Display00E0
    } else if a == 0x0 && b == 0x0 && c == 0xE && d == 0xE {
        OperCode::Flow00EE
    } else if a == 0x1 {
        OperCode::Flow1NNN(spec_nnn(code))
    } else if a == 0x2 {
        OperCode::Flow2NNN(spec_nnn(code))
    } else if a == 0x3 {
        OperCode::Cond3XNN(spec_x(code), spec_nn(code))
    } else if a == 0x4 {
        OperCode::Cond4XNN(spec_x(code), spec_nn(code))
    } else if a == 0x5 && d == 0x0 {
        OperCode::Cond5XY0(spec_x(code), spec_y(code))
    } else if a == 0x6 {
        OperCode::Const6XNN(spec_x(code), spec_nn(code))
    } else if a == 0x7 {
        OperCode::Const7XNN(spec_x(code), spec_nn(code))
    } else if a == 0x8 && d == 0x0 {
        OperCode::Assign8XY0(spec_x(code), spec_y(code))
    } else if a == 0x8 && d == 0x1 {
        OperCode::BitOp8XY1(spec_x(code), spec_y(code))
    } else if a == 0x8 && d == 0x2 {
        OperCode::BitOp8XY2(spec_x(code), spec_y(code))
    } else if a == 0x8 && d == 0x3 {
        OperCode::BitOp8XY3(spec_x(code), spec_y(code))
    } else if a == 0x8 && d == 0x4 {
        OperCode::Math8XY4(spec_x(code), spec_y(code))
    } else if a == 0x8 && d == 0x5 {
        OperCode::Math8XY5(spec_x(code), spec_y(code))
    } else if a == 0x8 && d == 0x6 {
        OperCode::BitOp8XY6(spec_x(code), spec_y(code))
    } else if a == 0x8 && d == 0x7 {
        OperCode::Math8XY7(spec_x(code), spec_y(code))
    } else if a == 0x8 && d == 0xE {
        OperCode::BitOp8XYE(spec_x(code), spec_y(code))
    } else if a == 0x9 && d == 0x0 {
        OperCode::Cond9XY0(spec_x(code), spec_y(code))
    } else if a == 0xA {
        OperCode::MemANNN(spec_nnn(code))
    } else if a == 0xB {
        OperCode::FlowBNNN(spec_nnn(code))
    } else if a == 0xC {
        OperCode::RandCXNN(spec_x(code), spec_nn(code))
    } else if a == 0xD {
        OperCode::DisplayDXYN(spec_x(code), spec_y(code), spec_n(code))
    } else if a == 0xE && c == 0x9 && d == 0xE {
        OperCode::KeyOpEX9E(spec_x(code))
    } else if a == 0xE && c == 0xA && d == 0x1 {
        OperCode::KeyOpEXA1(spec_x(code))
    } else if a == 0xF && c == 0x0 && d == 0x7 {
        OperCode::TimerFX07(spec_x(code))
    } else if a == 0xF && c == 0x0 && d == 0xA {
        OperCode::KeyOpFX0A(spec_x(code))
    } else if a == 0xF && c == 0x1 && d == 0x5 {
        OperCode::TimerFX15(spec_x(code))
    } else if a == 0xF && c == 0x1 && d == 0x8 {
        OperCode::SoundFX18(spec_x(code))
    } else if a == 0xF && c == 0x1 && d == 0xE {
        OperCode::MemFX1E(spec_x(code))
    } else if a == 0xF && c == 0x2 && d == 0x9 {
        OperCode::MemFX29(spec_x(code))
    } else if a == 0xF && c == 0x3 && d == 0x3 {
        OperCode::BcdFX33(spec_x(code))
    } else if a == 0xF && c == 0x5 && d == 0x5 {
        OperCode::MemFX55(spec_x(code))
    } else if a == 0xF && c == 0x6 && d == 0x5 {
        OperCode::MemFX65(spec_x(code))
    } else {
        OperCode::Unknown
    }
}

/// Register operands are a single nibble, so they index the 16-slot
/// register file.
pub proof fn lemma_operands_in_range(code: u16)
    ensures
        spec_x(code) < 16,
        spec_y(code) < 16,
        spec_n(code) < 16,
        spec_nnn(code) < 4096,
{
    assert((code & 0x0F00) >> 8 < 16 && (code & 0x00F0) >> 4 < 16 && code & 0x000F < 16
        && code & 0x0FFF < 4096) by (bit_vector);
}

/// The decoder's namespace, as the engine consumes it.
pub struct Oper {}

impl Oper {
    /// Decodes a 16-bit word, given the register-file width, which is
    /// always 16. A width below 16 is excluded: register operands must
    /// index the register file.
    pub fn from_code(code: &u16, rsize: &usize) -> (r: OperCode)
        requires
            *rsize == 16,
        ensures
            r == spec_decode(*code),
    {
        proof {
            lemma_operands_in_range(*code);
        }
        let w = *code;
        let a = (w & 0xF000) >> 12;
        let b = (w & 0x0F00) >> 8;
        let c = (w & 0x00F0) >> 4;
        let d = w & 0x000F;

        match (a, b, c, d) {
            (0, 0, 0xE, 0) => OperCode::Display00E0,
            (0, 0, 0xE, 0xE) => OperCode::Flow00EE,
            (0x1, _, _, _) => OperCode::Flow1NNN(get_nnn(code)),
            (0x2, _, _, _) => OperCode::Flow2NNN(get_nnn(code)),
            (0x3, _, _, _) => OperCode::Cond3XNN(get_x(code, rsize), get_nn(code)),
            (0x4, _, _, _) => OperCode::Cond4XNN(get_x(code, rsize), get_nn(code)),
            (0x5, _, _, 0x0) => OperCode::Cond5XY0(get_x(code, rsize), get_y(code, rsize)),
            (0x6, _, _, _) => OperCode::Const6XNN(get_x(code, rsize), get_nn(code)),
            (0x7, _, _, _) => OperCode::Const7XNN(get_x(code, rsize), get_nn(code)),
            (0x8, _, _, 0x0) => OperCode::Assign8XY0(get_x(code, rsize), get_y(code, rsize)),
            (0x8, _, _, 0x1) => OperCode::BitOp8XY1(get_x(code, rsize), get_y(code, rsize)),
            (0x8, _, _, 0x2) => OperCode::BitOp8XY2(get_x(code, rsize), get_y(code, rsize)),
            (0x8, _, _, 0x3) => OperCode::BitOp8XY3(get_x(code, rsize), get_y(code, rsize)),
            (0x8, _, _, 0x4) => OperCode::Math8XY4(get_x(code, rsize), get_y(code, rsize)),
            (0x8, _, _, 0x5) => OperCode::Math8XY5(get_x(code, rsize), get_y(code, rsize)),
            (0x8, _, _, 0x6) => OperCode::BitOp8XY6(get_x(code, rsize), get_y(code, rsize)),
            (0x8, _, _, 0x7) => OperCode::Math8XY7(get_x(code, rsize), get_y(code, rsize)),
            (0x8, _, _, 0xE) => OperCode::BitOp8XYE(get_x(code, rsize), get_y(code, rsize)),
            (0x9, _, _, 0x0) => OperCode::Cond9XY0(get_x(code, rsize), get_y(code, rsize)),
            (0xA, _, _, _) => OperCode::MemANNN(get_nnn(code)),
            (0xB, _, _, _) => OperCode::FlowBNNN(get_nnn(code)),
            (0xC, _, _, _) => OperCode::RandCXNN(get_x(code, rsize), get_nn(code)),
            (0xD, _, _, _) => OperCode::DisplayDXYN(
                get_x(code, rsize),
                get_y(code, rsize),
                get_n(code),
            ),
            (0xE, _, 0x9, 0xE) => OperCode::KeyOpEX9E(get_x(code, rsize)),
            (0xE, _, 0xA, 0x1) => OperCode::KeyOpEXA1(get_x(code, rsize)),
            (0xF, _, 0x0, 0x7) => OperCode::TimerFX07(get_x(code, rsize)),
            (0xF, _, 0x0, 0xA) => OperCode::KeyOpFX0A(get_x(code, rsize)),
            (0xF, _, 0x1, 0x5) => OperCode::TimerFX15(get_x(code, rsize)),
            (0xF, _, 0x1, 0x8) => OperCode::SoundFX18(get_x(code, rsize)),
            (0xF, _, 0x1, 0xE) => OperCode::MemFX1E(get_x(code, rsize)),
            (0xF, _, 0x2, 0x9) => OperCode::MemFX29(get_x(code, rsize)),
            (0xF, _, 0x3, 0x3) => OperCode::BcdFX33(get_x(code, rsize)),
            (0xF, _, 0x5, 0x5) => OperCode::MemFX55(get_x(code, rsize)),
            (0xF, _, 0x6, 0x5) => OperCode::MemFX65(get_x(code, rsize)),
            (_, _, _, _) => OperCode::Unknown,
        }
    }
}

/// The X operand, bounds-checked against the register-file width.
fn get_x(code: &u16, rsize: &usize) -> (r: usize)
    requires
        spec_x(*code) < *rsize,
    ensures
        r == spec_x(*code),
{
    ((*code & 0x0F00) >> 8) as usize
}

/// The Y operand, bounds-checked against the register-file width.
fn get_y(code: &u16, rsize: &usize) -> (r: usize)
    requires
        spec_y(*code) < *rsize,
    ensures
        r == spec_y(*code),
{
    ((*code & 0x00F0) >> 4) as usize
}

/// The N operand.
fn get_n(code: &u16) -> (r: u8)
    ensures
        r == spec_n(*code),
{
    (*code & 0x000F) as u8
}

/// The NN operand.
fn get_nn(code: &u16) -> (r: u8)
    ensures
        r == spec_nn(*code),
{
    (*code & 0x00FF) as u8
}

/// The NNN operand.
fn get_nnn(code: &u16) -> (r: u16)
    ensures
        r == spec_nnn(*code),
{
    *code & 0x0FFF
}

} // verus!
