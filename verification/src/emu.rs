//! The emulator engine: machine state, the fetch/decode/execute cycle,
//! and every opcode's semantics.
//!
//! The whole machine (memory, registers, index register, program
//! counter, timers, call stack, keypad latches) is modelled by the
//! ghost [`CoreState`]; every mutating operation says in its contract
//! how the new state relates to the old one, and one spec-level
//! transition function, [`spec_exec`], pins down what executing an
//! instruction does.
//!
//! Address arithmetic choices, recorded here once: the program counter
//! and the index register wrap modulo the 4096-byte address space, and
//! the shift instructions report the shifted-out bit canonically as 0
//! or 1.

use vstd::prelude::*;
use rand::Rng;
use crate::cpu::{
    Cpu,
    CpuError,
    CpuErrorVariant,
    EmuError,
    Fault,
    spec_emu_error_wf,
    spec_fault_of,
};
use crate::display::{Display, DisplayDrawResult, DisplayEmu};
use crate::keypad::{
    Key,
    Keypad,
    spec_any_key,
    spec_key_from_u8,
    spec_key_pressed,
    spec_key_to_index,
    spec_key_to_u8,
};
use crate::mem::{
    MEM_SIZE,
    Mem,
    MemError,
    MemErrorVariant,
    MemRange,
    spec_range_end,
    spec_range_start,
    spec_range_valid,
};
use crate::oper::{Oper, OperCode, lemma_operands_in_range, spec_decode};

verus! {

/// The width of the register file.
pub const REG_SIZE: usize = 16;

/// The depth of the call stack.
pub const STK_SIZE: usize = 16;

/// The number of keypad latches.
pub const KEY_SIZE: usize = 16;

/// How far the program counter advances past one instruction.
pub const PRG_INCR: u16 = 2;

/// The machine state the engine's contracts speak of: everything the
/// emulator owns except the display collaborator and the random
/// generator.
#[verifier::ext_equal]
pub ghost struct CoreState {
    /// Main memory.
    pub mem: Seq<u8>,
    /// General registers V0 through VF.
    pub reg: Seq<u8>,
    /// The index register I.
    pub ind: int,
    /// The program counter.
    pub pc: int,
    /// The delay timer.
    pub dtm: u8,
    /// The sound timer.
    pub stm: u8,
    /// The return-address stack.
    pub stk: Seq<u16>,
    /// The stack pointer: the next free slot.
    pub spt: int,
    /// The keypad latches.
    pub key: Seq<bool>,
}

/// The invariant that holds of the machine between instructions.
pub open spec fn inv(s: CoreState) -> bool {
    &&& s.mem.len() == MEM_SIZE
    &&& s.reg.len() == REG_SIZE
    &&& s.stk.len() == STK_SIZE
    &&& s.key.len() == KEY_SIZE
    &&& 0 <= s.spt <= STK_SIZE
    &&& 0 <= s.ind < MEM_SIZE
    &&& 0 <= s.pc < MEM_SIZE
}

/// The state after the program counter advances by one instruction,
/// wrapping modulo the address space.
pub open spec fn spec_skip(s: CoreState) -> CoreState {
    CoreState { pc: (s.pc + 2) % (MEM_SIZE as int), ..s }
}

/// The state after the program counter rewinds by one instruction,
/// wrapping modulo the address space.
pub open spec fn spec_rewind(s: CoreState) -> CoreState {
    CoreState { pc: (s.pc - 2) % (MEM_SIZE as int), ..s }
}

/// The big-endian instruction word at the program counter.
pub open spec fn spec_fetch(s: CoreState) -> u16 {
    (s.mem[s.pc] * 256 + s.mem[s.pc + 1]) as u16
}

/// Registers V[0]..=V[count-1] written over memory at `ind`, the rest
/// of memory unchanged: what FX55 does.
pub open spec fn spec_regs_to_mem(mem: Seq<u8>, reg: Seq<u8>, ind: int, count: int) -> Seq<u8> {
    Seq::new(mem.len(), |j: int| if ind <= j < ind + count {
        reg[j - ind]
    } else {
        mem[j]
    })
}

/// Registers V[0]..=V[count-1] loaded from memory at `ind`, the rest
/// of the register file unchanged: what FX65 does.
pub open spec fn spec_mem_to_regs(reg: Seq<u8>, mem: Seq<u8>, ind: int, count: int) -> Seq<u8> {
    Seq::new(reg.len(), |j: int| if j < count {
        mem[ind + j]
    } else {
        reg[j]
    })
}

/// The machine state after executing one decoded instruction from
/// state `s`. The program counter is assumed to have advanced past the
/// instruction already, as the fetch step leaves it.
///
/// `rnd` stands for the byte the random generator produced (consulted
/// only by CXNN) and `coll` for whether the display reported a
/// collision (consulted only by DXYN). The result is meaningful only
/// when `spec_fault(s, code)` is `None`.
pub open spec fn spec_exec(s: CoreState, code: u16, rnd: u8, coll: bool) -> CoreState {
    match spec_decode(code) {
        OperCode::Display00E0 => s,
        OperCode::Flow00EE => (CoreState {
            spt: s.spt - 1,
            pc: (s.stk[s.spt - 1] as int) % (MEM_SIZE as int),
            ..s
        }),
        OperCode::Flow1NNN(n) => (CoreState { pc: n as int, ..s }),
        OperCode::Flow2NNN(n) => (CoreState {
            stk: s.stk.update(s.spt, s.pc as u16),
            spt: s.spt + 1,
            pc: n as int,
            ..s
        }),
        OperCode::Cond3XNN(x, nn) => if s.reg[x as int] == nn {
            spec_skip(s)
        } else {
            s
        },
        OperCode::Cond4XNN(x, nn) => if s.reg[x as int] != nn {
            spec_skip(s)
        } else {
            s
        },
        OperCode::Cond5XY0(x, y) => if s.reg[x as int] == s.reg[y as int] {
            spec_skip(s)
        } else {
            s
        },
        OperCode::Const6XNN(x, nn) => (CoreState { reg: s.reg.update(x as int, nn), ..s }),
        OperCode::Const7XNN(x, nn) => (CoreState {
            reg: s.reg.update(x as int, ((s.reg[x as int] + nn) % 256) as u8),
            ..s
        }),
        OperCode::Assign8XY0(x, y) => (CoreState {
            reg: s.reg.update(x as int, s.reg[y as int]),
            ..s
        }),
        OperCode::BitOp8XY1(x, y) => (CoreState {
            reg: s.reg.update(x as int, s.reg[x as int] | s.reg[y as int]),
            ..s
        }),
        OperCode::BitOp8XY2(x, y) => (CoreState {
            reg: s.reg.update(x as int, s.reg[x as int] & s.reg[y as int]),
            ..s
        }),
        OperCode::BitOp8XY3(x, y) => (CoreState {
            reg: s.reg.update(x as int, s.reg[x as int] ^ s.reg[y as int]),
            ..s
        }),
        OperCode::Math8XY4(x, y) => {
            let sum = s.reg[x as int] + s.reg[y as int];
            CoreState {
                reg: s.reg.update(x as int, (sum % 256) as u8).update(15, if sum > 255 {
                    1u8
                } else {
                    0u8
                }),
                ..s
            }
        },
        OperCode::Math8XY5(x, y) => {
            let vx = s.reg[x as int];
            let vy = s.reg[y as int];
            CoreState {
                reg: s.reg.update(x as int, ((vx - vy) % 256) as u8).update(15, if vx >= vy {
                    1u8
                } else {
                    0u8
                }),
                ..s
            }
        },
        OperCode::BitOp8XY6(x, _y) => {
            let vx = s.reg[x as int];
            CoreState { reg: s.reg.update(x as int, vx / 2).update(15, vx % 2), ..s }
        },
        OperCode::Math8XY7(x, y) => {
            let vx = s.reg[x as int];
            let vy = s.reg[y as int];
            CoreState {
                reg: s.reg.update(x as int, ((vy - vx) % 256) as u8).update(15, if vy >= vx {
                    1u8
                } else {
                    0u8
                }),
                ..s
            }
        },
        OperCode::BitOp8XYE(x, _y) => {
            let vx = s.reg[x as int];
            CoreState {
                reg: s.reg.update(x as int, ((vx * 2) % 256) as u8).update(15, vx / 128),
                ..s
            }
        },
        OperCode::Cond9XY0(x, y) => if s.reg[x as int] != s.reg[y as int] {
            spec_skip(s)
        } else {
            s
        },
        OperCode::MemANNN(n) => (CoreState { ind: n as int, ..s }),
        OperCode::FlowBNNN(n) => (CoreState {
            pc: (n + s.reg[0]) % (MEM_SIZE as int),
            ..s
        }),
        OperCode::RandCXNN(x, nn) => (CoreState { reg: s.reg.update(x as int, rnd & nn), ..s }),
        OperCode::DisplayDXYN(_x, _y, _n) => (CoreState {
            reg: s.reg.update(15, if coll {
                1u8
            } else {
                0u8
            }),
            ..s
        }),
        OperCode::KeyOpEX9E(x) => if spec_key_pressed(
            s.key,
            spec_key_from_u8(s.reg[x as int]),
        ) {
            spec_skip(s)
        } else {
            s
        },
        OperCode::KeyOpEXA1(x) => if !spec_key_pressed(
            s.key,
            spec_key_from_u8(s.reg[x as int]),
        ) {
            spec_skip(s)
        } else {
            s
        },
        OperCode::TimerFX07(x) => (CoreState { reg: s.reg.update(x as int, s.dtm), ..s }),
        OperCode::KeyOpFX0A(x) => match spec_any_key(s.key) {
            Option::Some(k) => (CoreState {
                reg: s.reg.update(x as int, spec_key_to_u8(k)),
                ..s
            }),
            Option::None => spec_rewind(s),
        },
        OperCode::TimerFX15(x) => (CoreState { dtm: s.reg[x as int], ..s }),
        OperCode::SoundFX18(x) => (CoreState { stm: s.reg[x as int], ..s }),
        OperCode::MemFX1E(x) => (CoreState {
            ind: (s.ind + s.reg[x as int]) % (MEM_SIZE as int),
            ..s
        }),
        OperCode::MemFX29(x) => (CoreState { ind: s.reg[x as int] * 5, ..s }),
        OperCode::BcdFX33(x) => {
            let v = s.reg[x as int] as int;
            CoreState {
                mem: s.mem.update(s.ind, (v / 100) as u8).update(
                    s.ind + 1,
                    ((v / 10) % 10) as u8,
                ).update(s.ind + 2, (v % 10) as u8),
                ..s
            }
        },
        OperCode::MemFX55(x) => (CoreState {
            mem: spec_regs_to_mem(s.mem, s.reg, s.ind, x + 1),
            ..s
        }),
        OperCode::MemFX65(x) => (CoreState {
            reg: spec_mem_to_regs(s.reg, s.mem, s.ind, x + 1),
            ..s
        }),
        OperCode::Unknown => s,
    }
}

/// The fault executing `code` from state `s` raises, if any: the stack
/// discipline for CALL and RET, the address space for the
/// memory-indirect instructions, and the decoder for unknown words.
/// A memory fault carries the first out-of-range index, which is
/// always the memory size, since the faulting accesses run upward from
/// an in-range start.
pub open spec fn spec_fault(s: CoreState, code: u16) -> Option<Fault> {
    match spec_decode(code) {
        OperCode::Flow00EE => if s.spt == 0 {
            Option::Some(Fault::Cpu(CpuErrorVariant::StackUnderflow(0)))
        } else {
            Option::None
        },
        OperCode::Flow2NNN(_n) => if s.spt >= STK_SIZE {
            Option::Some(Fault::Cpu(CpuErrorVariant::StackOverflow(STK_SIZE as usize)))
        } else {
            Option::None
        },
        OperCode::DisplayDXYN(_x, _y, n) => if s.ind + n > MEM_SIZE {
            Option::Some(Fault::Mem(MemErrorVariant::AccessViolation(MEM_SIZE)))
        } else {
            Option::None
        },
        OperCode::BcdFX33(_x) => if s.ind + 2 >= MEM_SIZE {
            Option::Some(Fault::Mem(MemErrorVariant::AccessViolation(MEM_SIZE)))
        } else {
            Option::None
        },
        OperCode::MemFX55(x) => if s.ind + x >= MEM_SIZE {
            Option::Some(Fault::Mem(MemErrorVariant::AccessViolation(MEM_SIZE)))
        } else {
            Option::None
        },
        OperCode::MemFX65(x) => if s.ind + x >= MEM_SIZE {
            Option::Some(Fault::Mem(MemErrorVariant::AccessViolation(MEM_SIZE)))
        } else {
            Option::None
        },
        OperCode::Unknown => Option::Some(
            Fault::Cpu(CpuErrorVariant::InvalidOperationCode(code)),
        ),
        _ => Option::None,
    }
}

/// How a successful cycle relates the state before an instruction to
/// the state after it: the transition holds for some byte the random
/// generator may have produced and some collision answer the display
/// may have given.
pub open spec fn step_rel(pre: CoreState, post: CoreState, code: u16) -> bool {
    exists|rnd: u8, coll: bool| rnd < 255 && post == spec_exec(pre, code, rnd, coll)
}

/// The 16 five-byte font glyphs for the hex digits, resident at
/// addresses 0 through 79.
pub open spec fn spec_font() -> Seq<u8> {
    seq![
        0xF0u8, 0x90, 0x90, 0x90, 0xF0,
        0x20, 0x60, 0x20, 0x20, 0x70,
        0xF0, 0x10, 0xF0, 0x80, 0xF0,
        0xF0, 0x10, 0xF0, 0x10, 0xF0,
        0x90, 0x90, 0xF0, 0x10, 0x10,
        0xF0, 0x80, 0xF0, 0x10, 0xF0,
        0xF0, 0x80, 0xF0, 0x90, 0xF0,
        0xF0, 0x10, 0x20, 0x40, 0x40,
        0xF0, 0x90, 0xF0, 0x90, 0xF0,
        0xF0, 0x90, 0xF0, 0x10, 0xF0,
        0xF0, 0x90, 0xF0, 0x90, 0x90,
        0xE0, 0x90, 0xE0, 0x90, 0xE0,
        0xF0, 0x80, 0x80, 0x80, 0xF0,
        0xE0, 0x90, 0x90, 0x90, 0xE0,
        0xF0, 0x80, 0xF0, 0x80, 0xF0,
        0xF0, 0x80, 0xF0, 0x80, 0x80,
    ]
}

/// The reset state: memory all zero but for the font, registers, stack,
/// timers and latches cleared, and the program counter at 0x200.
pub open spec fn spec_reset() -> CoreState {
    CoreState {
        mem: Seq::new(MEM_SIZE as nat, |i: int| if i < 80 { spec_font()[i] } else { 0u8 }),
        reg: Seq::new(REG_SIZE as nat, |i: int| 0u8),
        ind: 0,
        pc: 0x200,
        dtm: 0,
        stm: 0,
        stk: Seq::new(STK_SIZE as nat, |i: int| 0u16),
        spt: 0,
        key: Seq::new(KEY_SIZE as nat, |i: int| false),
    }
}

/// The thread-local random generator of the rand crate, declared so a
/// handle can sit in the emulator; the engine sees nothing inside it.
#[verifier::external_type_specification]
#[verifier::external_body]
pub struct ExThreadRng(rand::rngs::ThreadRng);

/// Relies on rand::thread_rng for a handle to the thread-local
/// generator that seeds the RAND opcode.
#[verifier::external_body]
fn fresh_rng() -> rand::rngs::ThreadRng {
    rand::thread_rng()
}

/// Relies on rand::Rng::gen_range over the half-open range 0..255: the
/// sample always lies inside the range, so it is strictly below 255.
/// Nothing more is assumed of which value comes back.
#[verifier::external_body]
fn rand_below_255(rng: &mut rand::rngs::ThreadRng) -> (r: u8)
    ensures
        r < 255,
{
    rng.gen_range(0..255)
}

/// The font glyphs as bytes, in address order.
fn font_data() -> (v: Vec<u8>)
    ensures
        v@ == spec_font(),
{
    let mut v: Vec<u8> = Vec::new();
    v.push(0xF0); v.push(0x90); v.push(0x90); v.push(0x90); v.push(0xF0);
    v.push(0x20); v.push(0x60); v.push(0x20); v.push(0x20); v.push(0x70);
    v.push(0xF0); v.push(0x10); v.push(0xF0); v.push(0x80); v.push(0xF0);
    v.push(0xF0); v.push(0x10); v.push(0xF0); v.push(0x10); v.push(0xF0);
    v.push(0x90); v.push(0x90); v.push(0xF0); v.push(0x10); v.push(0x10);
    v.push(0xF0); v.push(0x80); v.push(0xF0); v.push(0x10); v.push(0xF0);
    v.push(0xF0); v.push(0x80); v.push(0xF0); v.push(0x90); v.push(0xF0);
    v.push(0xF0); v.push(0x10); v.push(0x20); v.push(0x40); v.push(0x40);
    v.push(0xF0); v.push(0x90); v.push(0xF0); v.push(0x90); v.push(0xF0);
    v.push(0xF0); v.push(0x90); v.push(0xF0); v.push(0x10); v.push(0xF0);
    v.push(0xF0); v.push(0x90); v.push(0xF0); v.push(0x90); v.push(0x90);
    v.push(0xE0); v.push(0x90); v.push(0xE0); v.push(0x90); v.push(0xE0);
    v.push(0xF0); v.push(0x80); v.push(0x80); v.push(0x80); v.push(0xF0);
    v.push(0xE0); v.push(0x90); v.push(0x90); v.push(0x90); v.push(0xE0);
    v.push(0xF0); v.push(0x80); v.push(0xF0); v.push(0x80); v.push(0xF0);
    v.push(0xF0); v.push(0x80); v.push(0xF0); v.push(0x80); v.push(0x80);
    proof {
        assert(v@ =~= spec_font());
    }
    v
}

/// Main emulator structure: the machine state plus its display
/// collaborator and random generator.
pub struct Emu<D: Display + Sized> {
    /// Internal memory.
    mem: Vec<u8>,
    /// CPU registers.
    reg: Vec<u8>,
    /// Memory pointer.
    ind: usize,
    /// Program counter.
    cnt: u16,
    /// Random generator.
    rng: rand::rngs::ThreadRng,
    /// Delay timer.
    dtm: u8,
    /// Sound timer.
    stm: u8,
    /// Call stack.
    stk: Vec<u16>,
    /// Stack pointer.
    spt: usize,
    /// Keypad.
    key: Vec<bool>,
    /// Display.
    dsp: D,
}

impl<D: Display + Sized> View for Emu<D> {
    type V = CoreState;

    closed spec fn view(&self) -> CoreState {
        CoreState {
            mem: self.mem@,
            reg: self.reg@,
            ind: self.ind as int,
            pc: self.cnt as int,
            dtm: self.dtm,
            stm: self.stm,
            stk: self.stk@,
            spt: self.spt as int,
            key: self.key@,
        }
    }
}

impl<D: Display + Sized> Emu<D> {
    /// The machine invariant, lifted to the emulator.
    pub open spec fn wf(&self) -> bool {
        inv(self@)
    }

    /// The installed display collaborator.
    pub closed spec fn display_spec(&self) -> D {
        self.dsp
    }

    /// Returns a new Emu instance in the reset state: font loaded,
    /// everything else cleared, and the program counter at 0x200.
    pub fn new(display: D) -> (r: Emu<D>)
        ensures
            r.wf(),
            r@ == spec_reset(),
            r.display_spec() == display,
    {
        let mut mem: Vec<u8> = vec![0u8; MEM_SIZE];
        let font = font_data();
        let mut i: usize = 0;
        while i < 80
            invariant
                mem@.len() == MEM_SIZE,
                font@ == spec_font(),
                i <= 80,
                forall|j: int| 0 <= j < i ==> mem@[j] == spec_font()[j],
                forall|j: int| i <= j < MEM_SIZE ==> mem@[j] == 0u8,
            decreases 80 - i,
        {
            mem.set(i, font[i]);
            i += 1;
        }
        let r = Emu {
            mem,
            reg: vec![0u8; REG_SIZE],
            ind: 0,
            cnt: 0x200,
            rng: fresh_rng(),
            dtm: 0,
            stm: 0,
            stk: vec![0u16; STK_SIZE],
            spt: 0,
            key: vec![false; KEY_SIZE],
            dsp: display,
        };
        proof {
            assert(r@ =~= spec_reset());
        }
        r
    }

    /// Executes an operation from a given code, which the fetch step
    /// has already advanced the program counter past. On success the
    /// machine steps as [`spec_exec`] has it; on a fault, as
    /// [`spec_fault`] has it, the machine state is untouched and the
    /// fault is surfaced to the host.
    pub fn recv_opcode(&mut self, code: &u16) -> (r: Result<(), EmuError>)
        requires
            old(self).wf(),
        ensures
            final(self).wf(),
            (match r {
                Result::Ok(_) => spec_fault(old(self)@, *code) is None && step_rel(
                    old(self)@,
                    final(self)@,
                    *code,
                ),
                Result::Err(e) => Option::Some(spec_fault_of(&e)) == spec_fault(
                    old(self)@,
                    *code,
                ) && spec_emu_error_wf(&e) && final(self)@ == old(self)@,
            }),
    {
        let rs = REG_SIZE;
        match Oper::from_code(code, &rs) {
            OperCode::Flow00EE | OperCode::Flow1NNN(_) | OperCode::Flow2NNN(_) | OperCode::FlowBNNN(_) => self.exec_flow(code),
            OperCode::Cond3XNN(_, _) | OperCode::Cond4XNN(_, _) | OperCode::Cond5XY0(_, _) | OperCode::Cond9XY0(_, _) | OperCode::KeyOpEX9E(_) | OperCode::KeyOpEXA1(_) => self.exec_cond(code),
            OperCode::Assign8XY0(_, _) | OperCode::BitOp8XY1(_, _) | OperCode::BitOp8XY2(_, _) | OperCode::BitOp8XY3(_, _) | OperCode::Const6XNN(_, _) | OperCode::Const7XNN(_, _) => self.exec_alu(code),
            OperCode::Math8XY4(_, _) | OperCode::Math8XY5(_, _) | OperCode::Math8XY7(_, _) => self.exec_arith(code),
            OperCode::BitOp8XY6(_, _) | OperCode::BitOp8XYE(_, _) => self.exec_shift(code),
            OperCode::MemANNN(_) | OperCode::MemFX1E(_) | OperCode::MemFX29(_) | OperCode::BcdFX33(_) => self.exec_index(code),
            OperCode::MemFX55(_) | OperCode::MemFX65(_) => self.exec_block(code),
            OperCode::Display00E0 | OperCode::DisplayDXYN(_, _, _) | OperCode::RandCXNN(_, _) | OperCode::KeyOpFX0A(_) => self.exec_io(code),
            OperCode::TimerFX07(_) | OperCode::TimerFX15(_) | OperCode::SoundFX18(_) => self.exec_timer(code),
            OperCode::Unknown => Result::Err(
                EmuError::Cpu(CpuError::new(CpuErrorVariant::InvalidOperationCode(*code))),
            ),
        }
    }

    /// One instruction family of the dispatch: the subroutine and jump instructions.
    fn exec_flow(&mut self, code: &u16) -> (r: Result<(), EmuError>)
        requires
            old(self).wf(),
            (spec_decode(*code) matches OperCode::Flow00EE
            || spec_decode(*code) matches OperCode::Flow1NNN(_)
            || spec_decode(*code) matches OperCode::Flow2NNN(_)
            || spec_decode(*code) matches OperCode::FlowBNNN(_)),
        ensures
            final(self).wf(),
            (match r {
                Result::Ok(_) => spec_fault(old(self)@, *code) is None && step_rel(
                    old(self)@,
                    final(self)@,
                    *code,
                ),
                Result::Err(e) => Option::Some(spec_fault_of(&e)) == spec_fault(
                    old(self)@,
                    *code,
                ) && spec_emu_error_wf(&e) && final(self)@ == old(self)@,
            }),
    {
        proof {
            lemma_operands_in_range(*code);
        }
        let rs = REG_SIZE;
        match Oper::from_code(code, &rs) {
            OperCode::Flow00EE => {
                if self.spt == 0 {
                    return Result::Err(
                        EmuError::Cpu(CpuError::new(CpuErrorVariant::StackUnderflow(0))),
                    );
                }
                self.spt = self.spt - 1;
                let v = self.stk[self.spt];
                self.cnt = v % 4096;
                proof {
                    assert(self@ =~= spec_exec(old(self)@, *code, 0u8, false));
                    assert(step_rel(old(self)@, self@, *code));
                }
                Result::Ok(())
            },
            OperCode::Flow1NNN(n) => {
                self.cnt = n;
                proof {
                    assert(self@ =~= spec_exec(old(self)@, *code, 0u8, false));
                    assert(step_rel(old(self)@, self@, *code));
                }
                Result::Ok(())
            },
            OperCode::Flow2NNN(n) => {
                if self.spt >= STK_SIZE {
                    return Result::Err(
                        EmuError::Cpu(CpuError::new(CpuErrorVariant::StackOverflow(self.spt))),
                    );
                }
                self.stk.set(self.spt, self.cnt);
                self.spt = self.spt + 1;
                self.cnt = n;
                proof {
                    assert(self@ =~= spec_exec(old(self)@, *code, 0u8, false));
                    assert(step_rel(old(self)@, self@, *code));
                }
                Result::Ok(())
            },
            OperCode::FlowBNNN(n) => {
                let v0 = self.reg[0];
                let t = (n as usize + v0 as usize) % MEM_SIZE;
                self.cnt = t as u16;
                proof {
                    assert(self@ =~= spec_exec(old(self)@, *code, 0u8, false));
                    assert(step_rel(old(self)@, self@, *code));
                }
                Result::Ok(())
            },
            // unreachable: the dispatcher sends only this family here
            _ => {
                proof {
                    assert(false);
                }
                Result::Ok(())
            },
        }
    }

    /// One instruction family of the dispatch: the skip instructions, over registers and keys.
    fn exec_cond(&mut self, code: &u16) -> (r: Result<(), EmuError>)
        requires
            old(self).wf(),
            (spec_decode(*code) matches OperCode::Cond3XNN(_, _)
            || spec_decode(*code) matches OperCode::Cond4XNN(_, _)
            || spec_decode(*code) matches OperCode::Cond5XY0(_, _)
            || spec_decode(*code) matches OperCode::Cond9XY0(_, _)
            || spec_decode(*code) matches OperCode::KeyOpEX9E(_)
            || spec_decode(*code) matches OperCode::KeyOpEXA1(_)),
        ensures
            final(self).wf(),
            (match r {
                Result::Ok(_) => spec_fault(old(self)@, *code) is None && step_rel(
                    old(self)@,
                    final(self)@,
                    *code,
                ),
                Result::Err(e) => Option::Some(spec_fault_of(&e)) == spec_fault(
                    old(self)@,
                    *code,
                ) && spec_emu_error_wf(&e) && final(self)@ == old(self)@,
            }),
    {
        proof {
            lemma_operands_in_range(*code);
        }
        let rs = REG_SIZE;
        match Oper::from_code(code, &rs) {
            OperCode::Cond3XNN(x, nn) => {
                if self.reg[x] == nn {
                    self.skip_next_instruction();
                }
                proof {
                    assert(self@ =~= spec_exec(old(self)@, *code, 0u8, false));
                    assert(step_rel(old(self)@, self@, *code));
                }
                Result::Ok(())
            },
            OperCode::Cond4XNN(x, nn) => {
                if self.reg[x] != nn {
                    self.skip_next_instruction();
                }
                proof {
                    assert(self@ =~= spec_exec(old(self)@, *code, 0u8, false));
                    assert(step_rel(old(self)@, self@, *code));
                }
                Result::Ok(())
            },
            OperCode::Cond5XY0(x, y) => {
                if self.reg[x] == self.reg[y] {
                    self.skip_next_instruction();
                }
                proof {
                    assert(self@ =~= spec_exec(old(self)@, *code, 0u8, false));
                    assert(step_rel(old(self)@, self@, *code));
                }
                Result::Ok(())
            },
            OperCode::Cond9XY0(x, y) => {
                if self.reg[x] != self.reg[y] {
                    self.skip_next_instruction();
                }
                proof {
                    assert(self@ =~= spec_exec(old(self)@, *code, 0u8, false));
                    assert(step_rel(old(self)@, self@, *code));
                }
                Result::Ok(())
            },
            OperCode::KeyOpEX9E(x) => {
                let vx = self.reg[x];
                let key = self.key_from_u8(&vx);
                if self.key_pressed(&key) {
                    self.skip_next_instruction();
                }
                proof {
                    assert(self@ =~= spec_exec(old(self)@, *code, 0u8, false));
                    assert(step_rel(old(self)@, self@, *code));
                }
                Result::Ok(())
            },
            OperCode::KeyOpEXA1(x) => {
                let vx = self.reg[x];
                let key = self.key_from_u8(&vx);
                if !self.key_pressed(&key) {
                    self.skip_next_instruction();
                }
                proof {
                    assert(self@ =~= spec_exec(old(self)@, *code, 0u8, false));
                    assert(step_rel(old(self)@, self@, *code));
                }
                Result::Ok(())
            },
            // unreachable: the dispatcher sends only this family here
            _ => {
                proof {
                    assert(false);
                }
                Result::Ok(())
            },
        }
    }

    /// One instruction family of the dispatch: the register moves and bitwise instructions.
    fn exec_alu(&mut self, code: &u16) -> (r: Result<(), EmuError>)
        requires
            old(self).wf(),
            (spec_decode(*code) matches OperCode::Assign8XY0(_, _)
            || spec_decode(*code) matches OperCode::BitOp8XY1(_, _)
            || spec_decode(*code) matches OperCode::BitOp8XY2(_, _)
            || spec_decode(*code) matches OperCode::BitOp8XY3(_, _)
            || spec_decode(*code) matches OperCode::Const6XNN(_, _)
            || spec_decode(*code) matches OperCode::Const7XNN(_, _)),
        ensures
            final(self).wf(),
            (match r {
                Result::Ok(_) => spec_fault(old(self)@, *code) is None && step_rel(
                    old(self)@,
                    final(self)@,
                    *code,
                ),
                Result::Err(e) => Option::Some(spec_fault_of(&e)) == spec_fault(
                    old(self)@,
                    *code,
                ) && spec_emu_error_wf(&e) && final(self)@ == old(self)@,
            }),
    {
        proof {
            lemma_operands_in_range(*code);
        }
        let rs = REG_SIZE;
        match Oper::from_code(code, &rs) {
            OperCode::Assign8XY0(x, y) => {
                let vy = self.reg[y];
                self.reg.set(x, vy);
                proof {
                    assert(self@ =~= spec_exec(old(self)@, *code, 0u8, false));
                    assert(step_rel(old(self)@, self@, *code));
                }
                Result::Ok(())
            },
            OperCode::BitOp8XY1(x, y) => {
                let vx = self.reg[x];
                let vy = self.reg[y];
                self.reg.set(x, vx | vy);
                proof {
                    assert(self@ =~= spec_exec(old(self)@, *code, 0u8, false));
                    assert(step_rel(old(self)@, self@, *code));
                }
                Result::Ok(())
            },
            OperCode::BitOp8XY2(x, y) => {
                let vx = self.reg[x];
                let vy = self.reg[y];
                self.reg.set(x, vx & vy);
                proof {
                    assert(self@ =~= spec_exec(old(self)@, *code, 0u8, false));
                    assert(step_rel(old(self)@, self@, *code));
                }
                Result::Ok(())
            },
            OperCode::BitOp8XY3(x, y) => {
                let vx = self.reg[x];
                let vy = self.reg[y];
                self.reg.set(x, vx ^ vy);
                proof {
                    assert(self@ =~= spec_exec(old(self)@, *code, 0u8, false));
                    assert(step_rel(old(self)@, self@, *code));
                }
                Result::Ok(())
            },
            OperCode::Const6XNN(x, nn) => {
                self.reg.set(x, nn);
                proof {
                    assert(self@ =~= spec_exec(old(self)@, *code, 0u8, false));
                    assert(step_rel(old(self)@, self@, *code));
                }
                Result::Ok(())
            },
            OperCode::Const7XNN(x, nn) => {
                let vx = self.reg[x];
                let sum = vx as u16 + nn as u16;
                self.reg.set(x, (sum % 256) as u8);
                proof {
                    assert(self@ =~= spec_exec(old(self)@, *code, 0u8, false));
                    assert(step_rel(old(self)@, self@, *code));
                }
                Result::Ok(())
            },
            // unreachable: the dispatcher sends only this family here
            _ => {
                proof {
                    assert(false);
                }
                Result::Ok(())
            },
        }
    }

    /// One instruction family of the dispatch: the flag-setting arithmetic and shift instructions.
    fn exec_arith(&mut self, code: &u16) -> (r: Result<(), EmuError>)
        requires
            old(self).wf(),
            (spec_decode(*code) matches OperCode::Math8XY4(_, _)
            || spec_decode(*code) matches OperCode::Math8XY5(_, _)
            || spec_decode(*code) matches OperCode::Math8XY7(_, _)),
        ensures
            final(self).wf(),
            (match r {
                Result::Ok(_) => spec_fault(old(self)@, *code) is None && step_rel(
                    old(self)@,
                    final(self)@,
                    *code,
                ),
                Result::Err(e) => Option::Some(spec_fault_of(&e)) == spec_fault(
                    old(self)@,
                    *code,
                ) && spec_emu_error_wf(&e) && final(self)@ == old(self)@,
            }),
    {
        proof {
            lemma_operands_in_range(*code);
        }
        let rs = REG_SIZE;
        match Oper::from_code(code, &rs) {
            OperCode::Math8XY4(x, y) => {
                let vx = self.reg[x];
                let vy = self.reg[y];
                let sum = vx as u16 + vy as u16;
                self.reg.set(x, (sum % 256) as u8);
                let vf: u8 = if sum > 255 {
                    1
                } else {
                    0
                };
                self.reg.set(15, vf);
                proof {
                    assert(self@ =~= spec_exec(old(self)@, *code, 0u8, false));
                    assert(step_rel(old(self)@, self@, *code));
                }
                Result::Ok(())
            },
            OperCode::Math8XY5(x, y) => {
                let vx = self.reg[x];
                let vy = self.reg[y];
                let res = ((vx as u16 + 256) - vy as u16) % 256;
                proof {
                    vstd::arithmetic::div_mod::lemma_mod_add_multiples_vanish(
                        vx as int - vy as int,
                        256,
                    );
                }
                self.reg.set(x, res as u8);
                let vf: u8 = if vx >= vy {
                    1
                } else {
                    0
                };
                self.reg.set(15, vf);
                proof {
                    assert(self@ =~= spec_exec(old(self)@, *code, 0u8, false));
                    assert(step_rel(old(self)@, self@, *code));
                }
                Result::Ok(())
            },
            OperCode::Math8XY7(x, y) => {
                let vx = self.reg[x];
                let vy = self.reg[y];
                let res = ((vy as u16 + 256) - vx as u16) % 256;
                proof {
                    vstd::arithmetic::div_mod::lemma_mod_add_multiples_vanish(
                        vy as int - vx as int,
                        256,
                    );
                }
                self.reg.set(x, res as u8);
                let vf: u8 = if vy >= vx {
                    1
                } else {
                    0
                };
                self.reg.set(15, vf);
                proof {
                    assert(self@ =~= spec_exec(old(self)@, *code, 0u8, false));
                    assert(step_rel(old(self)@, self@, *code));
                }
                Result::Ok(())
            },
            // unreachable: the dispatcher sends only this family here
            _ => {
                proof {
                    assert(false);
                }
                Result::Ok(())
            },
        }
    }

    /// One instruction family of the dispatch: the shift instructions.
    fn exec_shift(&mut self, code: &u16) -> (r: Result<(), EmuError>)
        requires
            old(self).wf(),
            (spec_decode(*code) matches OperCode::BitOp8XY6(_, _)
            || spec_decode(*code) matches OperCode::BitOp8XYE(_, _)),
        ensures
            final(self).wf(),
            (match r {
                Result::Ok(_) => spec_fault(old(self)@, *code) is None && step_rel(
                    old(self)@,
                    final(self)@,
                    *code,
                ),
                Result::Err(e) => Option::Some(spec_fault_of(&e)) == spec_fault(
                    old(self)@,
                    *code,
                ) && spec_emu_error_wf(&e) && final(self)@ == old(self)@,
            }),
    {
        proof {
            lemma_operands_in_range(*code);
        }
        let rs = REG_SIZE;
        match Oper::from_code(code, &rs) {
            OperCode::BitOp8XY6(x, _y) => {
                let vx = self.reg[x];
                self.reg.set(x, vx / 2);
                self.reg.set(15, vx % 2);
                proof {
                    assert(self@ =~= spec_exec(old(self)@, *code, 0u8, false));
                    assert(step_rel(old(self)@, self@, *code));
                }
                Result::Ok(())
            },
            OperCode::BitOp8XYE(x, _y) => {
                let vx = self.reg[x];
                let doubled = ((vx as u16 * 2) % 256) as u8;
                self.reg.set(x, doubled);
                self.reg.set(15, vx / 128);
                proof {
                    assert(self@ =~= spec_exec(old(self)@, *code, 0u8, false));
                    assert(step_rel(old(self)@, self@, *code));
                }
                Result::Ok(())
            },
            // unreachable: the dispatcher sends only this family here
            _ => {
                proof {
                    assert(false);
                }
                Result::Ok(())
            },
        }
    }
    /// One instruction family of the dispatch: the index-register instructions and BCD.
    fn exec_index(&mut self, code: &u16) -> (r: Result<(), EmuError>)
        requires
            old(self).wf(),
            (spec_decode(*code) matches OperCode::MemANNN(_)
            || spec_decode(*code) matches OperCode::MemFX1E(_)
            || spec_decode(*code) matches OperCode::MemFX29(_)
            || spec_decode(*code) matches OperCode::BcdFX33(_)),
        ensures
            final(self).wf(),
            (match r {
                Result::Ok(_) => spec_fault(old(self)@, *code) is None && step_rel(
                    old(self)@,
                    final(self)@,
                    *code,
                ),
                Result::Err(e) => Option::Some(spec_fault_of(&e)) == spec_fault(
                    old(self)@,
                    *code,
                ) && spec_emu_error_wf(&e) && final(self)@ == old(self)@,
            }),
    {
        proof {
            lemma_operands_in_range(*code);
        }
        let rs = REG_SIZE;
        match Oper::from_code(code, &rs) {
            OperCode::MemANNN(n) => {
                self.ind = n as usize;
                proof {
                    assert(self@ =~= spec_exec(old(self)@, *code, 0u8, false));
                    assert(step_rel(old(self)@, self@, *code));
                }
                Result::Ok(())
            },
            OperCode::MemFX1E(x) => {
                let vx = self.reg[x] as usize;
                self.ind = (self.ind + vx) % MEM_SIZE;
                proof {
                    assert(self@ =~= spec_exec(old(self)@, *code, 0u8, false));
                    assert(step_rel(old(self)@, self@, *code));
                }
                Result::Ok(())
            },
            OperCode::MemFX29(x) => {
                let vx = self.reg[x] as usize;
                self.ind = vx * 5;
                proof {
                    assert(self@ =~= spec_exec(old(self)@, *code, 0u8, false));
                    assert(step_rel(old(self)@, self@, *code));
                }
                Result::Ok(())
            },
            OperCode::BcdFX33(x) => {
                if self.ind + 2 >= MEM_SIZE {
                    return Result::Err(
                        EmuError::Mem(MemError::new(MemErrorVariant::AccessViolation(MEM_SIZE))),
                    );
                }
                let v = self.reg[x];
                let base = self.ind;
                self.mem.set(base, v / 100);
                self.mem.set(base + 1, (v / 10) % 10);
                self.mem.set(base + 2, v % 10);
                proof {
                    assert(self@ =~= spec_exec(old(self)@, *code, 0u8, false));
                    assert(step_rel(old(self)@, self@, *code));
                }
                Result::Ok(())
            },
            // unreachable: the dispatcher sends only this family here
            _ => {
                proof {
                    assert(false);
                }
                Result::Ok(())
            },
        }
    }

    /// One instruction family of the dispatch: the register-file block store and load.
    fn exec_block(&mut self, code: &u16) -> (r: Result<(), EmuError>)
        requires
            old(self).wf(),
            (spec_decode(*code) matches OperCode::MemFX55(_)
            || spec_decode(*code) matches OperCode::MemFX65(_)),
        ensures
            final(self).wf(),
            (match r {
                Result::Ok(_) => spec_fault(old(self)@, *code) is None && step_rel(
                    old(self)@,
                    final(self)@,
                    *code,
                ),
                Result::Err(e) => Option::Some(spec_fault_of(&e)) == spec_fault(
                    old(self)@,
                    *code,
                ) && spec_emu_error_wf(&e) && final(self)@ == old(self)@,
            }),
    {
        proof {
            lemma_operands_in_range(*code);
        }
        let rs = REG_SIZE;
        match Oper::from_code(code, &rs) {
            OperCode::MemFX55(x) => {
                if self.ind + x >= MEM_SIZE {
                    return Result::Err(
                        EmuError::Mem(MemError::new(MemErrorVariant::AccessViolation(MEM_SIZE))),
                    );
                }
                let base = self.ind;
                let mut i: usize = 0;
                proof {
                    assert(self@.mem =~= spec_regs_to_mem(
                        old(self)@.mem,
                        old(self)@.reg,
                        base as int,
                        0,
                    ));
                    assert(self@ =~= (CoreState {
                        mem: spec_regs_to_mem(old(self)@.mem, old(self)@.reg, base as int, 0),
                        ..old(self)@
                    }));
                }
                while i <= x
                    invariant
                        old(self).wf(),
                        self.wf(),
                        i <= x + 1,
                        x < REG_SIZE,
                        base == old(self)@.ind,
                        base + x < MEM_SIZE,
                        self@ == (CoreState {
                            mem: spec_regs_to_mem(
                                old(self)@.mem,
                                old(self)@.reg,
                                base as int,
                                i as int,
                            ),
                            ..old(self)@
                        }),
                    decreases x + 1 - i,
                {
                    let vi = self.reg[i];
                    self.mem.set(base + i, vi);
                    i += 1;
                    proof {
                        assert(self@.mem =~= spec_regs_to_mem(
                            old(self)@.mem,
                            old(self)@.reg,
                            base as int,
                            i as int,
                        ));
                        assert(self@ =~= (CoreState {
                            mem: spec_regs_to_mem(
                                old(self)@.mem,
                                old(self)@.reg,
                                base as int,
                                i as int,
                            ),
                            ..old(self)@
                        }));
                    }
                }
                proof {
                    assert(self@ =~= spec_exec(old(self)@, *code, 0u8, false));
                    assert(step_rel(old(self)@, self@, *code));
                }
                Result::Ok(())
            },
            OperCode::MemFX65(x) => {
                if self.ind + x >= MEM_SIZE {
                    return Result::Err(
                        EmuError::Mem(MemError::new(MemErrorVariant::AccessViolation(MEM_SIZE))),
                    );
                }
                let base = self.ind;
                let mut i: usize = 0;
                proof {
                    assert(self@.reg =~= spec_mem_to_regs(
                        old(self)@.reg,
                        old(self)@.mem,
                        base as int,
                        0,
                    ));
                    assert(self@ =~= (CoreState {
                        reg: spec_mem_to_regs(old(self)@.reg, old(self)@.mem, base as int, 0),
                        ..old(self)@
                    }));
                }
                while i <= x
                    invariant
                        old(self).wf(),
                        self.wf(),
                        i <= x + 1,
                        x < REG_SIZE,
                        base == old(self)@.ind,
                        base + x < MEM_SIZE,
                        self@ == (CoreState {
                            reg: spec_mem_to_regs(
                                old(self)@.reg,
                                old(self)@.mem,
                                base as int,
                                i as int,
                            ),
                            ..old(self)@
                        }),
                    decreases x + 1 - i,
                {
                    let v = self.mem[base + i];
                    self.reg.set(i, v);
                    i += 1;
                    proof {
                        assert(self@.reg =~= spec_mem_to_regs(
                            old(self)@.reg,
                            old(self)@.mem,
                            base as int,
                            i as int,
                        ));
                        assert(self@ =~= (CoreState {
                            reg: spec_mem_to_regs(
                                old(self)@.reg,
                                old(self)@.mem,
                                base as int,
                                i as int,
                            ),
                            ..old(self)@
                        }));
                    }
                }
                proof {
                    assert(self@ =~= spec_exec(old(self)@, *code, 0u8, false));
                    assert(step_rel(old(self)@, self@, *code));
                }
                Result::Ok(())
            },
            // unreachable: the dispatcher sends only this family here
            _ => {
                proof {
                    assert(false);
                }
                Result::Ok(())
            },
        }
    }

    /// One instruction family of the dispatch: the display, random and wait-for-key instructions.
    fn exec_io(&mut self, code: &u16) -> (r: Result<(), EmuError>)
        requires
            old(self).wf(),
            (spec_decode(*code) matches OperCode::Display00E0
            || spec_decode(*code) matches OperCode::DisplayDXYN(_, _, _)
            || spec_decode(*code) matches OperCode::RandCXNN(_, _)
            || spec_decode(*code) matches OperCode::KeyOpFX0A(_)),
        ensures
            final(self).wf(),
            (match r {
                Result::Ok(_) => spec_fault(old(self)@, *code) is None && step_rel(
                    old(self)@,
                    final(self)@,
                    *code,
                ),
                Result::Err(e) => Option::Some(spec_fault_of(&e)) == spec_fault(
                    old(self)@,
                    *code,
                ) && spec_emu_error_wf(&e) && final(self)@ == old(self)@,
            }),
    {
        proof {
            lemma_operands_in_range(*code);
        }
        let rs = REG_SIZE;
        match Oper::from_code(code, &rs) {
            OperCode::Display00E0 => {
                self.dsp.clear();
                proof {
                    assert(self@ =~= spec_exec(old(self)@, *code, 0u8, false));
                    assert(step_rel(old(self)@, self@, *code));
                }
                Result::Ok(())
            },
            OperCode::DisplayDXYN(x, y, n) => {
                let nn = n as usize;
                if self.ind + nn > MEM_SIZE {
                    return Result::Err(
                        EmuError::Mem(MemError::new(MemErrorVariant::AccessViolation(MEM_SIZE))),
                    );
                }
                let vx = self.reg[x];
                let vy = self.reg[y];
                let base = self.ind;
                let mut sprite: Vec<u8> = Vec::new();
                let mut i: usize = 0;
                while i < nn
                    invariant
                        self.wf(),
                        self@ == old(self)@,
                        i <= nn,
                        self@.ind == base,
                        base + nn <= MEM_SIZE,
                    decreases nn - i,
                {
                    let b = self.mem[base + i];
                    sprite.push(b);
                    i += 1;
                }
                let res = self.dsp.draw(&vx, &vy, &sprite);
                let vf: u8 = match res {
                    DisplayDrawResult::Collision => 1,
                    DisplayDrawResult::Free => 0,
                };
                self.reg.set(15, vf);
                proof {
                    let coll = (res == DisplayDrawResult::Collision);
                    assert(self@ =~= spec_exec(old(self)@, *code, 0u8, coll));
                    assert(step_rel(old(self)@, self@, *code));
                }
                Result::Ok(())
            },
            OperCode::RandCXNN(x, nn) => {
                let r8 = rand_below_255(&mut self.rng);
                self.reg.set(x, r8 & nn);
                proof {
                    assert(self@ =~= spec_exec(old(self)@, *code, r8, false));
                    assert(step_rel(old(self)@, self@, *code));
                }
                Result::Ok(())
            },
            OperCode::KeyOpFX0A(x) => {
                match self.any_key_pressed() {
                    Option::Some(k) => {
                        let kv = self.key_to_u8(&k);
                        self.reg.set(x, kv);
                    },
                    Option::None => {
                        self.cnt = if self.cnt >= PRG_INCR {
                            self.cnt - PRG_INCR
                        } else {
                            self.cnt + (4096 - PRG_INCR)
                        };
                    },
                }
                proof {
                    assert(self@ =~= spec_exec(old(self)@, *code, 0u8, false));
                    assert(step_rel(old(self)@, self@, *code));
                }
                Result::Ok(())
            },
            // unreachable: the dispatcher sends only this family here
            _ => {
                proof {
                    assert(false);
                }
                Result::Ok(())
            },
        }
    }

    /// One instruction family of the dispatch: the timer instructions.
    fn exec_timer(&mut self, code: &u16) -> (r: Result<(), EmuError>)
        requires
            old(self).wf(),
            (spec_decode(*code) matches OperCode::TimerFX07(_)
            || spec_decode(*code) matches OperCode::TimerFX15(_)
            || spec_decode(*code) matches OperCode::SoundFX18(_)),
        ensures
            final(self).wf(),
            (match r {
                Result::Ok(_) => spec_fault(old(self)@, *code) is None && step_rel(
                    old(self)@,
                    final(self)@,
                    *code,
                ),
                Result::Err(e) => Option::Some(spec_fault_of(&e)) == spec_fault(
                    old(self)@,
                    *code,
                ) && spec_emu_error_wf(&e) && final(self)@ == old(self)@,
            }),
    {
        proof {
            lemma_operands_in_range(*code);
        }
        let rs = REG_SIZE;
        match Oper::from_code(code, &rs) {
            OperCode::TimerFX07(x) => {
                let d = self.dtm;
                self.reg.set(x, d);
                proof {
                    assert(self@ =~= spec_exec(old(self)@, *code, 0u8, false));
                    assert(step_rel(old(self)@, self@, *code));
                }
                Result::Ok(())
            },
            OperCode::TimerFX15(x) => {
                self.dtm = self.reg[x];
                proof {
                    assert(self@ =~= spec_exec(old(self)@, *code, 0u8, false));
                    assert(step_rel(old(self)@, self@, *code));
                }
                Result::Ok(())
            },
            OperCode::SoundFX18(x) => {
                self.stm = self.reg[x];
                proof {
                    assert(self@ =~= spec_exec(old(self)@, *code, 0u8, false));
                    assert(step_rel(old(self)@, self@, *code));
                }
                Result::Ok(())
            },
            // unreachable: the dispatcher sends only this family here
            _ => {
                proof {
                    assert(false);
                }
                Result::Ok(())
            },
        }
    }

    /// Advance the program counter past one instruction, wrapping
    /// modulo the address space; used by the skip opcodes and by the
    /// fetch step.
    pub fn skip_next_instruction(&mut self)
        requires
            old(self).wf(),
        ensures
            final(self).wf(),
            final(self)@ == spec_skip(old(self)@),
    {
        self.cnt = if self.cnt + PRG_INCR >= 4096 {
            (self.cnt + PRG_INCR) - 4096
        } else {
            self.cnt + PRG_INCR
        };
    }

    /// Validate register index.
    pub fn validate_register_index(&self, index: &usize) -> (r: bool)
        ensures
            r == (*index < REG_SIZE),
    {
        *index < REG_SIZE
    }

    /// Return the value for a register. Fails if and only if the index
    /// is at or above the register-file width.
    pub fn reg_get(&self, index: &usize) -> (r: Result<u8, CpuError>)
        requires
            self.wf(),
        ensures
            (match r {
                Result::Ok(v) => *index < REG_SIZE && v == self@.reg[*index as int],
                Result::Err(e) => *index >= REG_SIZE && e.variant_spec()
                    == CpuErrorVariant::InvalidRegisterIndex(*index) && e.wf(),
            }),
    {
        if *index < REG_SIZE {
            Result::Ok(self.reg[*index])
        } else {
            Result::Err(CpuError::new(CpuErrorVariant::InvalidRegisterIndex(*index)))
        }
    }

    /// Put the value on a register. Fails if and only if the index is
    /// at or above the register-file width; the state is then
    /// untouched.
    pub fn reg_put(&mut self, index: &usize, value: u8) -> (r: Result<(), CpuError>)
        requires
            old(self).wf(),
        ensures
            final(self).wf(),
            (match r {
                Result::Ok(_) => *index < REG_SIZE && final(self)@ == (CoreState {
                    reg: old(self)@.reg.update(*index as int, value),
                    ..old(self)@
                }),
                Result::Err(e) => *index >= REG_SIZE && final(self)@ == old(self)@
                    && e.variant_spec() == CpuErrorVariant::InvalidRegisterIndex(*index)
                    && e.wf(),
            }),
    {
        if *index < REG_SIZE {
            self.reg.set(*index, value);
            Result::Ok(())
        } else {
            Result::Err(CpuError::new(CpuErrorVariant::InvalidRegisterIndex(*index)))
        }
    }

    /// Put the value on the last register, V[F].
    pub fn reg_put_vf(&mut self, value: u8)
        requires
            old(self).wf(),
        ensures
            final(self).wf(),
            final(self)@ == (CoreState {
                reg: old(self)@.reg.update(15, value),
                ..old(self)@
            }),
    {
        self.reg.set(REG_SIZE - 1, value);
    }

    /// Return the stack pointer: the next free slot, in [0, 16].
    pub fn spt_get(&self) -> (r: usize)
        ensures
            r == self@.spt,
    {
        self.spt
    }

    /// Validate a stack pointer candidate: it may be anywhere in
    /// [0, 16].
    pub fn spt_validate(&self, spt: &usize) -> (r: Result<usize, CpuError>)
        ensures
            (match r {
                Result::Ok(v) => *spt <= STK_SIZE && v == *spt,
                Result::Err(e) => *spt > STK_SIZE && e.variant_spec()
                    == CpuErrorVariant::StackOverflow(*spt) && e.wf(),
            }),
    {
        if *spt <= STK_SIZE {
            Result::Ok(*spt)
        } else {
            Result::Err(CpuError::new(CpuErrorVariant::StackOverflow(*spt)))
        }
    }

    /// Increment the stack pointer. Fails if and only if the pointer is
    /// already at the stack depth; the state is then untouched.
    pub fn spt_inc(&mut self) -> (r: Result<usize, CpuError>)
        requires
            old(self).wf(),
        ensures
            final(self).wf(),
            (match r {
                Result::Ok(v) => old(self)@.spt < STK_SIZE && v == old(self)@.spt + 1
                    && final(self)@ == (CoreState { spt: old(self)@.spt + 1, ..old(self)@ }),
                Result::Err(e) => old(self)@.spt == STK_SIZE && final(self)@ == old(self)@
                    && e.variant_spec() == CpuErrorVariant::StackOverflow(STK_SIZE as usize)
                    && e.wf(),
            }),
    {
        if self.spt < STK_SIZE {
            self.spt = self.spt + 1;
            Result::Ok(self.spt)
        } else {
            Result::Err(CpuError::new(CpuErrorVariant::StackOverflow(self.spt)))
        }
    }

    /// Decrement the stack pointer. Fails if and only if the pointer is
    /// already at 0; the state is then untouched.
    pub fn spt_dec(&mut self) -> (r: Result<usize, CpuError>)
        requires
            old(self).wf(),
        ensures
            final(self).wf(),
            (match r {
                Result::Ok(v) => old(self)@.spt > 0 && v == old(self)@.spt - 1 && final(self)@
                    == (CoreState { spt: old(self)@.spt - 1, ..old(self)@ }),
                Result::Err(e) => old(self)@.spt == 0 && final(self)@ == old(self)@
                    && e.variant_spec() == CpuErrorVariant::StackUnderflow(0) && e.wf(),
            }),
    {
        if self.spt > 0 {
            self.spt = self.spt - 1;
            Result::Ok(self.spt)
        } else {
            Result::Err(CpuError::new(CpuErrorVariant::StackUnderflow(0)))
        }
    }

    /// Return the stack slot at the stack pointer: the next free slot.
    /// Fails if and only if the pointer is at the stack depth, where no
    /// free slot exists.
    pub fn stk_get(&self) -> (r: Result<u16, CpuError>)
        requires
            self.wf(),
        ensures
            (match r {
                Result::Ok(v) => self@.spt < STK_SIZE && v == self@.stk[self@.spt],
                Result::Err(e) => self@.spt == STK_SIZE && e.variant_spec()
                    == CpuErrorVariant::StackOverflow(STK_SIZE as usize) && e.wf(),
            }),
    {
        if self.spt < STK_SIZE {
            Result::Ok(self.stk[self.spt])
        } else {
            Result::Err(CpuError::new(CpuErrorVariant::StackOverflow(self.spt)))
        }
    }

    /// Pop the address from the stack: decrement the pointer, then read
    /// the slot it lands on. Fails if and only if the stack is empty;
    /// the state is then untouched.
    pub fn stk_pop(&mut self) -> (r: Result<u16, CpuError>)
        requires
            old(self).wf(),
        ensures
            final(self).wf(),
            (match r {
                Result::Ok(v) => old(self)@.spt > 0 && v == old(self)@.stk[old(self)@.spt - 1]
                    && final(self)@ == (CoreState { spt: old(self)@.spt - 1, ..old(self)@ }),
                Result::Err(e) => old(self)@.spt == 0 && final(self)@ == old(self)@
                    && e.variant_spec() == CpuErrorVariant::StackUnderflow(0) && e.wf(),
            }),
    {
        if self.spt > 0 {
            self.spt = self.spt - 1;
            Result::Ok(self.stk[self.spt])
        } else {
            Result::Err(CpuError::new(CpuErrorVariant::StackUnderflow(0)))
        }
    }

    /// Push the address on the stack: write the slot at the pointer,
    /// then increment it. Fails if and only if the stack is full; the
    /// state is then untouched.
    pub fn stk_push(&mut self, address: u16) -> (r: Result<(), CpuError>)
        requires
            old(self).wf(),
        ensures
            final(self).wf(),
            (match r {
                Result::Ok(_) => old(self)@.spt < STK_SIZE && final(self)@ == (CoreState {
                    stk: old(self)@.stk.update(old(self)@.spt, address),
                    spt: old(self)@.spt + 1,
                    ..old(self)@
                }),
                Result::Err(e) => old(self)@.spt == STK_SIZE && final(self)@ == old(self)@
                    && e.variant_spec() == CpuErrorVariant::StackOverflow(STK_SIZE as usize)
                    && e.wf(),
            }),
    {
        if self.spt < STK_SIZE {
            self.stk.set(self.spt, address);
            self.spt = self.spt + 1;
            Result::Ok(())
        } else {
            Result::Err(CpuError::new(CpuErrorVariant::StackOverflow(self.spt)))
        }
    }

    /// Returns the maximum memory size.
    pub fn max_size(&self) -> (r: usize)
        ensures
            r == MEM_SIZE,
    {
        MEM_SIZE
    }

    /// Validates if a given index belongs to the memory range.
    pub fn validate_index(&self, index: &usize) -> (r: bool)
        ensures
            r == (*index < MEM_SIZE),
    {
        *index < MEM_SIZE
    }

    /// Returns the resolved (start, end) of a range, end exclusive.
    /// Fails if and only if the range is empty, inverted or beyond the
    /// address space; a range violation reports the last index asked
    /// for.
    pub fn range_get_start_end(&self, range: MemRange) -> (r: Result<(usize, usize), MemError>)
        ensures
            (match r {
                Result::Ok(p) => spec_range_valid(range) && p.0 == spec_range_start(range) && p.1
                    == spec_range_end(range),
                Result::Err(e) => !spec_range_valid(range) && e.variant_spec()
                    == MemErrorVariant::AccessRangeViolation(
                    spec_range_start(range) as usize,
                    spec_last_asked(spec_range_end(range)) as usize,
                ) && e.wf(),
            }),
    {
        let start = match range.start {
            Option::Some(s) => s,
            Option::None => 0,
        };
        let end = match range.end {
            Option::Some(e) => e,
            Option::None => MEM_SIZE,
        };
        if start < end && end <= MEM_SIZE {
            Result::Ok((start, end))
        } else {
            let capped = if end == 0 {
                1
            } else {
                end
            };
            Result::Err(MemError::new(MemErrorVariant::AccessRangeViolation(start, capped)))
        }
    }

    /// Validates if a given range belongs to the memory range.
    pub fn validate_range(&self, range: MemRange) -> (r: bool)
        ensures
            r == spec_range_valid(range),
    {
        match self.range_get_start_end(range) {
            Result::Ok(_) => true,
            Result::Err(_) => false,
        }
    }

    /// Get the memory content of a given index. Fails if and only if
    /// the index is outside the address space.
    pub fn mem_get(&self, index: &usize) -> (r: Result<u8, MemError>)
        requires
            self.wf(),
        ensures
            (match r {
                Result::Ok(v) => *index < MEM_SIZE && v == self@.mem[*index as int],
                Result::Err(e) => *index >= MEM_SIZE && e.variant_spec()
                    == MemErrorVariant::AccessViolation(*index) && e.wf(),
            }),
    {
        if *index < MEM_SIZE {
            Result::Ok(self.mem[*index])
        } else {
            Result::Err(MemError::new(MemErrorVariant::AccessViolation(*index)))
        }
    }

    /// Put a given value in a given index of the memory range. Fails if
    /// and only if the index is outside the address space; the state is
    /// then untouched.
    pub fn mem_put(&mut self, index: &usize, value: u8) -> (r: Result<(), MemError>)
        requires
            old(self).wf(),
        ensures
            final(self).wf(),
            (match r {
                Result::Ok(_) => *index < MEM_SIZE && final(self)@ == (CoreState {
                    mem: old(self)@.mem.update(*index as int, value),
                    ..old(self)@
                }),
                Result::Err(e) => *index >= MEM_SIZE && final(self)@ == old(self)@
                    && e.variant_spec() == MemErrorVariant::AccessViolation(*index) && e.wf(),
            }),
    {
        if *index < MEM_SIZE {
            self.mem.set(*index, value);
            Result::Ok(())
        } else {
            Result::Err(MemError::new(MemErrorVariant::AccessViolation(*index)))
        }
    }

    /// Return a copy of the memory content of a given range. Fails if
    /// and only if the range is invalid, as `range_get_start_end` has
    /// it.
    pub fn mem_read(&self, range: MemRange) -> (r: Result<Vec<u8>, MemError>)
        requires
            self.wf(),
        ensures
            (match r {
                Result::Ok(v) => spec_range_valid(range) && v@ == self@.mem.subrange(
                    spec_range_start(range),
                    spec_range_end(range),
                ),
                Result::Err(e) => !spec_range_valid(range) && e.variant_spec()
                    == MemErrorVariant::AccessRangeViolation(
                    spec_range_start(range) as usize,
                    spec_last_asked(spec_range_end(range)) as usize,
                ) && e.wf(),
            }),
    {
        match self.range_get_start_end(range) {
            Result::Ok((start, end)) => {
                let mut out: Vec<u8> = Vec::new();
                let mut i: usize = start;
                while i < end
                    invariant
                        self.wf(),
                        start <= i <= end,
                        end <= MEM_SIZE,
                        out@ == self@.mem.subrange(start as int, i as int),
                    decreases end - i,
                {
                    out.push(self.mem[i]);
                    i += 1;
                    proof {
                        assert(out@ =~= self@.mem.subrange(start as int, i as int));
                    }
                }
                Result::Ok(out)
            },
            Result::Err(e) => Result::Err(e),
        }
    }

    /// Replace the head of the given range with a given slice: copies
    /// min(slice length, range length) bytes starting at the range's
    /// start; a short slice leaves the tail unchanged. Fails if and
    /// only if the range is invalid; the state is then untouched.
    pub fn mem_write(&mut self, range: MemRange, slice: &[u8]) -> (r: Result<(), MemError>)
        requires
            old(self).wf(),
        ensures
            final(self).wf(),
            (match r {
                Result::Ok(_) => spec_range_valid(range) && final(self)@ == (CoreState {
                    mem: spec_overlay(
                        old(self)@.mem,
                        spec_range_start(range),
                        slice@,
                        spec_min(slice@.len() as int, spec_range_end(range) - spec_range_start(range)),
                    ),
                    ..old(self)@
                }),
                Result::Err(e) => !spec_range_valid(range) && final(self)@ == old(self)@
                    && e.variant_spec() == MemErrorVariant::AccessRangeViolation(
                    spec_range_start(range) as usize,
                    spec_last_asked(spec_range_end(range)) as usize,
                ) && e.wf(),
            }),
    {
        match self.range_get_start_end(range) {
            Result::Ok((start, end)) => {
                let span = end - start;
                let count = if slice.len() < span {
                    slice.len()
                } else {
                    span
                };
                let mut i: usize = 0;
                while i < count
                    invariant
                        old(self).wf(),
                        self.wf(),
                        i <= count,
                        count <= slice@.len(),
                        start + count <= MEM_SIZE,
                        self@ == (CoreState {
                            mem: spec_overlay(old(self)@.mem, start as int, slice@, i as int),
                            ..old(self)@
                        }),
                    decreases count - i,
                {
                    self.mem.set(start + i, slice[i]);
                    i += 1;
                    proof {
                        assert(self@.mem =~= spec_overlay(
                            old(self)@.mem,
                            start as int,
                            slice@,
                            i as int,
                        ));
                        assert(self@ =~= (CoreState {
                            mem: spec_overlay(old(self)@.mem, start as int, slice@, i as int),
                            ..old(self)@
                        }));
                    }
                }
                Result::Ok(())
            },
            Result::Err(e) => Result::Err(e),
        }
    }

    /// Copy a ROM into memory at 0x200, the start of program space.
    /// Fails if and only if the ROM is longer than the 3584 bytes of
    /// program space; the state is then untouched, and the error
    /// reports the span the ROM asked for, capped at the memory size.
    pub fn load_rom(&mut self, bytes: &[u8]) -> (r: Result<(), MemError>)
        requires
            old(self).wf(),
        ensures
            final(self).wf(),
            (match r {
                Result::Ok(_) => bytes@.len() <= 3584 && final(self)@ == (CoreState {
                    mem: spec_overlay(old(self)@.mem, 0x200, bytes@, bytes@.len() as int),
                    ..old(self)@
                }),
                Result::Err(e) => bytes@.len() > 3584 && final(self)@ == old(self)@
                    && e.variant_spec() == MemErrorVariant::AccessRangeViolation(
                    0x200,
                    (0x200 + spec_min(bytes@.len() as int, MEM_SIZE as int) - 1) as usize,
                ) && e.wf(),
            }),
    {
        if bytes.len() > MEM_SIZE - 0x200 {
            let len = if bytes.len() < MEM_SIZE {
                bytes.len()
            } else {
                MEM_SIZE
            };
            return Result::Err(
                MemError::new(MemErrorVariant::AccessRangeViolation(0x200, 0x200 + len)),
            );
        }
        let mut i: usize = 0;
        proof {
            assert(self@ =~= (CoreState {
                mem: spec_overlay(old(self)@.mem, 0x200, bytes@, 0),
                ..old(self)@
            }));
        }
        while i < bytes.len()
            invariant
                old(self).wf(),
                self.wf(),
                i <= bytes@.len(),
                bytes@.len() <= 3584,
                self@ == (CoreState {
                    mem: spec_overlay(old(self)@.mem, 0x200, bytes@, i as int),
                    ..old(self)@
                }),
            decreases bytes@.len() - i,
        {
            self.mem.set(0x200 + i, bytes[i]);
            i += 1;
            proof {
                assert(self@.mem =~= spec_overlay(old(self)@.mem, 0x200, bytes@, i as int));
                assert(self@ =~= (CoreState {
                    mem: spec_overlay(old(self)@.mem, 0x200, bytes@, i as int),
                    ..old(self)@
                }));
            }
        }
        Result::Ok(())
    }

    /// One fetch/decode/execute cycle: read the big-endian word at the
    /// program counter, advance the counter past it, and execute.
    /// Fetch fails only when the counter sits on the last byte of
    /// memory, so its second byte is out of range; the state is then
    /// untouched. An execution fault leaves the machine as the fetch
    /// step left it: counter advanced, everything else untouched.
    pub fn step(&mut self) -> (r: Result<(), EmuError>)
        requires
            old(self).wf(),
        ensures
            final(self).wf(),
            (match r {
                Result::Ok(_) => old(self)@.pc + 1 < MEM_SIZE && spec_fault(
                    spec_skip(old(self)@),
                    spec_fetch(old(self)@),
                ) is None && step_rel(
                    spec_skip(old(self)@),
                    final(self)@,
                    spec_fetch(old(self)@),
                ),
                Result::Err(e) => spec_emu_error_wf(&e) && (if old(self)@.pc + 1 >= MEM_SIZE {
                    final(self)@ == old(self)@ && spec_fault_of(&e) == Fault::Mem(
                        MemErrorVariant::AccessViolation((old(self)@.pc + 1) as usize),
                    )
                } else {
                    Option::Some(spec_fault_of(&e)) == spec_fault(
                        spec_skip(old(self)@),
                        spec_fetch(old(self)@),
                    ) && final(self)@ == spec_skip(old(self)@)
                }),
            }),
    {
        let pc = self.cnt as usize;
        if pc + 1 >= MEM_SIZE {
            return Result::Err(
                EmuError::Mem(MemError::new(MemErrorVariant::AccessViolation(pc + 1))),
            );
        }
        let hi = self.mem[pc];
        let lo = self.mem[pc + 1];
        let code = (hi as u16) * 256 + (lo as u16);
        self.skip_next_instruction();
        self.recv_opcode(&code)
    }

    /// One 60 Hz tick: each timer decrements if it is nonzero.
    pub fn tick_timers(&mut self)
        requires
            old(self).wf(),
        ensures
            final(self).wf(),
            final(self)@ == (CoreState {
                dtm: if old(self)@.dtm > 0 {
                    (old(self)@.dtm - 1) as u8
                } else {
                    0u8
                },
                stm: if old(self)@.stm > 0 {
                    (old(self)@.stm - 1) as u8
                } else {
                    0u8
                },
                ..old(self)@
            }),
    {
        if self.dtm > 0 {
            self.dtm = self.dtm - 1;
        }
        if self.stm > 0 {
            self.stm = self.stm - 1;
        }
    }

    /// Latch a key as pressed; `Unknown` has no latch and is ignored.
    pub fn key_down(&mut self, k: Key)
        requires
            old(self).wf(),
        ensures
            final(self).wf(),
            final(self)@ == (CoreState {
                key: (match spec_key_to_index(k) {
                    Option::Some(i) => old(self)@.key.update(i as int, true),
                    Option::None => old(self)@.key,
                }),
                ..old(self)@
            }),
    {
        match self.key_to_index(&k) {
            Option::Some(i) => {
                self.key.set(i, true);
            },
            Option::None => {
            },
        }
    }

    /// Latch a key as released; `Unknown` has no latch and is ignored.
    pub fn key_up(&mut self, k: Key)
        requires
            old(self).wf(),
        ensures
            final(self).wf(),
            final(self)@ == (CoreState {
                key: (match spec_key_to_index(k) {
                    Option::Some(i) => old(self)@.key.update(i as int, false),
                    Option::None => old(self)@.key,
                }),
                ..old(self)@
            }),
    {
        match self.key_to_index(&k) {
            Option::Some(i) => {
                self.key.set(i, false);
            },
            Option::None => {
            },
        }
    }

    /// Present the display collaborator's surface.
    pub fn refresh(&mut self)
        requires
            old(self).wf(),
        ensures
            final(self).wf(),
            final(self)@ == old(self)@,
    {
        self.dsp.refresh();
    }

    /// The program counter.
    pub fn pc_get(&self) -> (r: u16)
        ensures
            r == self@.pc,
    {
        self.cnt
    }

    /// The index register I.
    pub fn ind_get(&self) -> (r: usize)
        ensures
            r == self@.ind,
    {
        self.ind
    }

    /// The delay timer.
    pub fn dtm_get(&self) -> (r: u8)
        ensures
            r == self@.dtm,
    {
        self.dtm
    }

    /// The sound timer.
    pub fn stm_get(&self) -> (r: u8)
        ensures
            r == self@.stm,
    {
        self.stm
    }

    /// The stack slot at a given index.
    pub fn stk_peek(&self, index: usize) -> (r: u16)
        requires
            self.wf(),
            index < STK_SIZE,
        ensures
            r == self@.stk[index as int],
    {
        self.stk[index]
    }

    /// A borrow of the display collaborator, for hosts that read the
    /// surface back.
    pub fn display_ref(&self) -> (r: &D)
        ensures
            *r == self.display_spec(),
    {
        &self.dsp
    }

    /// The length of the memory vector.
    fn mem_len(&self) -> (r: usize)
        ensures
            r == self@.mem.len(),
    {
        self.mem.len()
    }

    /// The length of the register file.
    fn reg_len(&self) -> (r: usize)
        ensures
            r == self@.reg.len(),
    {
        self.reg.len()
    }

    /// The length of the call stack.
    fn stk_len(&self) -> (r: usize)
        ensures
            r == self@.stk.len(),
    {
        self.stk.len()
    }

    /// The length of the keypad latch array.
    fn key_len(&self) -> (r: usize)
        ensures
            r == self@.key.len(),
    {
        self.key.len()
    }

    /// The key a byte names.
    pub fn key_from_u8(&self, k: &u8) -> (r: Key)
        ensures
            r == spec_key_from_u8(*k),
    {
        match *k {
            0x1 => Key::K1,
            0x2 => Key::K2,
            0x3 => Key::K3,
            0x4 => Key::K4,
            0x5 => Key::K5,
            0x6 => Key::K6,
            0x7 => Key::K7,
            0x8 => Key::K8,
            0x9 => Key::K9,
            0xA => Key::KA,
            0xB => Key::KB,
            0xC => Key::KC,
            0xD => Key::KD,
            0xE => Key::KE,
            0xF => Key::KF,
            _ => Key::Unknown,
        }
    }

    /// The byte a key stands for.
    pub fn key_to_u8(&self, k: &Key) -> (r: u8)
        ensures
            r == spec_key_to_u8(*k),
    {
        match *k {
            Key::K1 => 0x1,
            Key::K2 => 0x2,
            Key::K3 => 0x3,
            Key::K4 => 0x4,
            Key::K5 => 0x5,
            Key::K6 => 0x6,
            Key::K7 => 0x7,
            Key::K8 => 0x8,
            Key::K9 => 0x9,
            Key::KA => 0xA,
            Key::KB => 0xB,
            Key::KC => 0xC,
            Key::KD => 0xD,
            Key::KE => 0xE,
            Key::KF => 0xF,
            Key::Unknown => 0x0,
        }
    }

    /// The dense latch index of a key, if it has one.
    pub fn key_to_index(&self, k: &Key) -> (r: Option<usize>)
        ensures
            r == spec_key_to_index(*k),
    {
        match *k {
            Key::K1 => Option::Some(0),
            Key::K2 => Option::Some(1),
            Key::K3 => Option::Some(2),
            Key::K4 => Option::Some(3),
            Key::K5 => Option::Some(4),
            Key::K6 => Option::Some(5),
            Key::K7 => Option::Some(6),
            Key::K8 => Option::Some(7),
            Key::K9 => Option::Some(8),
            Key::KA => Option::Some(9),
            Key::KB => Option::Some(10),
            Key::KC => Option::Some(11),
            Key::KD => Option::Some(12),
            Key::KE => Option::Some(13),
            Key::KF => Option::Some(14),
            Key::Unknown => Option::None,
        }
    }

    /// Whether a key is latched as pressed; `Unknown` reads as up.
    pub fn key_pressed(&self, key: &Key) -> (r: bool)
        requires
            self.wf(),
        ensures
            r == spec_key_pressed(self@.key, *key),
    {
        match self.key_to_index(key) {
            Option::Some(i) => self.key[i],
            Option::None => false,
        }
    }

    /// The first pressed key, scanning K1 through KF in order, if any.
    pub fn any_key_pressed(&self) -> (r: Option<Key>)
        requires
            self.wf(),
        ensures
            r == spec_any_key(self@.key),
    {
        if self.key_pressed(&Key::K1) {
            Option::Some(Key::K1)
        } else if self.key_pressed(&Key::K2) {
            Option::Some(Key::K2)
        } else if self.key_pressed(&Key::K3) {
            Option::Some(Key::K3)
        } else if self.key_pressed(&Key::K4) {
            Option::Some(Key::K4)
        } else if self.key_pressed(&Key::K5) {
            Option::Some(Key::K5)
        } else if self.key_pressed(&Key::K6) {
            Option::Some(Key::K6)
        } else if self.key_pressed(&Key::K7) {
            Option::Some(Key::K7)
        } else if self.key_pressed(&Key::K8) {
            Option::Some(Key::K8)
        } else if self.key_pressed(&Key::K9) {
            Option::Some(Key::K9)
        } else if self.key_pressed(&Key::KA) {
            Option::Some(Key::KA)
        } else if self.key_pressed(&Key::KB) {
            Option::Some(Key::KB)
        } else if self.key_pressed(&Key::KC) {
            Option::Some(Key::KC)
        } else if self.key_pressed(&Key::KD) {
            Option::Some(Key::KD)
        } else if self.key_pressed(&Key::KE) {
            Option::Some(Key::KE)
        } else if self.key_pressed(&Key::KF) {
            Option::Some(Key::KF)
        } else {
            Option::None
        }
    }
}

/// The smaller of two mathematical integers.
pub open spec fn spec_min(a: int, b: int) -> int {
    if a < b {
        a
    } else {
        b
    }
}

/// The last index an exclusive range end asks for: one below it,
/// clamped at 0 for the degenerate empty end.
pub open spec fn spec_last_asked(end: int) -> int {
    if end <= 0 {
        0
    } else {
        end - 1
    }
}

/// `mem` with its span `[start, start + count)` replaced by the head
/// of `data`.
pub open spec fn spec_overlay(mem: Seq<u8>, start: int, data: Seq<u8>, count: int) -> Seq<u8> {
    Seq::new(mem.len(), |i: int| if start <= i < start + count {
        data[i - start]
    } else {
        mem[i]
    })
}

impl<D: Display + Sized> Cpu for Emu<D> {
    fn recv_opcode(&mut self, code: &u16) -> Result<(), EmuError> {
        if !inv_check(self) {
            return Result::Err(
                EmuError::Cpu(CpuError::new(CpuErrorVariant::InvalidOperationCode(*code))),
            );
        }
        self.recv_opcode(code)
    }

    fn skip_next_instruction(&mut self) {
        if inv_check(self) {
            self.skip_next_instruction();
        }
    }

    fn validate_register_index(&self, index: &usize) -> bool {
        self.validate_register_index(index)
    }

    fn reg_get(&self, index: &usize) -> Result<u8, CpuError> {
        if !inv_check(self) {
            return Result::Err(CpuError::new(CpuErrorVariant::InvalidRegisterIndex(*index)));
        }
        self.reg_get(index)
    }

    fn reg_put(&mut self, index: &usize, value: u8) -> Result<(), CpuError> {
        if !inv_check(self) {
            return Result::Err(CpuError::new(CpuErrorVariant::InvalidRegisterIndex(*index)));
        }
        self.reg_put(index, value)
    }

    fn reg_put_vf(&mut self, value: u8) {
        if inv_check(self) {
            self.reg_put_vf(value);
        }
    }

    fn spt_validate(&self, spt: &usize) -> Result<usize, CpuError> {
        self.spt_validate(spt)
    }

    fn spt_get(&self) -> usize {
        self.spt_get()
    }

    fn spt_inc(&mut self) -> Result<usize, CpuError> {
        if !inv_check(self) {
            return Result::Err(CpuError::new(CpuErrorVariant::StackOverflow(self.spt_get())));
        }
        self.spt_inc()
    }

    fn spt_dec(&mut self) -> Result<usize, CpuError> {
        if !inv_check(self) {
            return Result::Err(CpuError::new(CpuErrorVariant::StackUnderflow(self.spt_get())));
        }
        self.spt_dec()
    }

    fn stk_get(&self) -> Result<u16, CpuError> {
        if !inv_check(self) {
            return Result::Err(CpuError::new(CpuErrorVariant::StackOverflow(self.spt_get())));
        }
        self.stk_get()
    }

    fn stk_pop(&mut self) -> Result<u16, CpuError> {
        if !inv_check(self) {
            return Result::Err(CpuError::new(CpuErrorVariant::StackUnderflow(self.spt_get())));
        }
        self.stk_pop()
    }

    fn stk_push(&mut self, address: u16) -> Result<(), CpuError> {
        if !inv_check(self) {
            return Result::Err(CpuError::new(CpuErrorVariant::StackOverflow(self.spt_get())));
        }
        self.stk_push(address)
    }
}

impl<D: Display + Sized> Mem for Emu<D> {
    fn max_size(&self) -> usize {
        self.max_size()
    }

    fn validate_index(&self, index: &usize) -> bool {
        self.validate_index(index)
    }

    fn range_get_start_end(&self, range: MemRange) -> Result<(usize, usize), MemError> {
        self.range_get_start_end(range)
    }

    fn validate_range(&self, range: MemRange) -> bool {
        self.validate_range(range)
    }

    fn mem_get(&self, index: &usize) -> Result<u8, MemError> {
        if !inv_check(self) {
            return Result::Err(MemError::new(MemErrorVariant::AccessViolation(*index)));
        }
        self.mem_get(index)
    }

    fn mem_put(&mut self, index: &usize, value: u8) -> Result<(), MemError> {
        if !inv_check(self) {
            return Result::Err(MemError::new(MemErrorVariant::AccessViolation(*index)));
        }
        self.mem_put(index, value)
    }

    fn mem_read(&self, range: MemRange) -> Result<Vec<u8>, MemError> {
        if !inv_check(self) {
            return Result::Err(MemError::new(MemErrorVariant::AccessRangeViolation(0, 1)));
        }
        self.mem_read(range)
    }

    fn mem_write(&mut self, range: MemRange, slice: &[u8]) -> Result<(), MemError> {
        if !inv_check(self) {
            return Result::Err(MemError::new(MemErrorVariant::AccessRangeViolation(0, 1)));
        }
        self.mem_write(range, slice)
    }
}

impl<D: Display + Sized> Keypad for Emu<D> {
    fn key_to_u8(&self, k: &Key) -> u8 {
        self.key_to_u8(k)
    }

    fn key_to_index(&self, k: &Key) -> Option<usize> {
        self.key_to_index(k)
    }

    fn key_from_u8(&self, k: &u8) -> Key {
        self.key_from_u8(k)
    }

    fn key_pressed(&self, key: &Key) -> bool {
        if !inv_check(self) {
            return false;
        }
        self.key_pressed(key)
    }

    fn any_key_pressed(&self) -> Option<Key> {
        if !inv_check(self) {
            return Option::None;
        }
        self.any_key_pressed()
    }
}

/// The machine invariant, checked at run time: the contract-free trait
/// methods test it before they hand off to the specified inherent
/// methods, whose contracts assume it. Every constructed emulator
/// satisfies it, so the test never fails in practice.
fn inv_check<D: Display + Sized>(e: &Emu<D>) -> (r: bool)
    ensures
        r == e.wf(),
{
    let wf = e.mem_len() == MEM_SIZE && e.reg_len() == REG_SIZE && e.stk_len() == STK_SIZE
        && e.key_len() == KEY_SIZE && e.spt_get() <= STK_SIZE && e.ind_get() < MEM_SIZE;
    wf && (e.pc_get() as usize) < MEM_SIZE
}

impl<D: Display + Sized> DisplayEmu<D> for Emu<D> {
    /// Replace the display collaborator; the machine state is untouched.
    fn set_display(&mut self, display: D) {
        self.dsp = display;
    }
}

/// Every instruction but CXNN and DXYN ignores the random byte and
/// the collision answer, so for those a `step_rel` witness pins the
/// state after the cycle exactly.
pub proof fn lemma_step_rel_deterministic(pre: CoreState, post: CoreState, code: u16)
    requires
        step_rel(pre, post, code),
        !(spec_decode(code) matches OperCode::RandCXNN(_, _)),
        !(spec_decode(code) matches OperCode::DisplayDXYN(_, _, _)),
    ensures
        post == spec_exec(pre, code, 0u8, false),
{
    let (rnd, coll) = choose|rnd: u8, coll: bool|
        rnd < 255 && post == spec_exec(pre, code, rnd, coll);
    assert(spec_exec(pre, code, rnd, coll) == spec_exec(pre, code, 0u8, false));
}

/// Which instructions write the flag register V[F]: the flag-setting
/// arithmetic and shifts, the draw, and any plain register write whose
/// target happens to be V[F] itself.
pub open spec fn spec_writes_vf(s: CoreState, code: u16) -> bool {
    match spec_decode(code) {
        OperCode::Const6XNN(x, _) => x == 15,
        OperCode::Const7XNN(x, _) => x == 15,
        OperCode::Assign8XY0(x, _) => x == 15,
        OperCode::BitOp8XY1(x, _) => x == 15,
        OperCode::BitOp8XY2(x, _) => x == 15,
        OperCode::BitOp8XY3(x, _) => x == 15,
        OperCode::Math8XY4(_, _) => true,
        OperCode::Math8XY5(_, _) => true,
        OperCode::BitOp8XY6(_, _) => true,
        OperCode::Math8XY7(_, _) => true,
        OperCode::BitOp8XYE(_, _) => true,
        OperCode::RandCXNN(x, _) => x == 15,
        OperCode::DisplayDXYN(_, _, _) => true,
        OperCode::TimerFX07(x) => x == 15,
        OperCode::KeyOpFX0A(x) => x == 15 && spec_any_key(s.key) is Some,
        OperCode::MemFX65(x) => x == 15,
        _ => false,
    }
}

/// Every fault-free instruction preserves the machine invariant: in
/// particular the stack pointer stays in [0, 16] and the program
/// counter stays inside memory.
pub proof fn lemma_exec_preserves_inv(s: CoreState, code: u16, rnd: u8, coll: bool)
    requires
        inv(s),
        spec_fault(s, code) is None,
    ensures
        inv(spec_exec(s, code, rnd, coll)),
{
    lemma_operands_in_range(code);
}

/// Whether the instruction at hand lands the program counter on an
/// even address, given it started on one: a jump must name an even
/// target; every other instruction moves the counter by even amounts
/// or not at all.
pub open spec fn spec_even_targets(s: CoreState, code: u16) -> bool {
    match spec_decode(code) {
        OperCode::Flow1NNN(n) => n % 2 == 0,
        OperCode::Flow2NNN(n) => n % 2 == 0,
        OperCode::FlowBNNN(n) => (n + s.reg[0]) % 2 == 0,
        OperCode::Flow00EE => s.stk[s.spt - 1] % 2 == 0,
        _ => true,
    }
}

/// Reducing an even non-negative number modulo the memory size leaves
/// it even.
proof fn lemma_mod_4096_even(a: int)
    requires
        a >= 0,
        a % 2 == 0,
    ensures
        (a % 4096) % 2 == 0,
{
    vstd::arithmetic::div_mod::lemma_fundamental_div_mod(a, 4096);
    let q = a / 4096;
    assert(a % 4096 == a - 4096 * q);
    assert((a - 4096 * q) % 2 == 0) by (nonlinear_arith)
        requires
            a % 2 == 0,
    ;
}

/// After a fault-free instruction from an even program counter, the
/// counter is even again, provided the instruction's jump target, if
/// it names one, is even. A jump to an odd address is the one way a
/// program leaves the even grid.
pub proof fn lemma_pc_aligned(s: CoreState, code: u16, rnd: u8, coll: bool)
    requires
        inv(s),
        s.pc % 2 == 0,
        spec_fault(s, code) is None,
        spec_even_targets(s, code),
    ensures
        spec_exec(s, code, rnd, coll).pc % 2 == 0,
{
    lemma_operands_in_range(code);
    lemma_mod_4096_even(s.pc + 2);
    if s.pc >= 2 {
        lemma_mod_4096_even(s.pc - 2);
    } else {
        assert((s.pc - 2) % 4096 == s.pc + 4094);
    }
    match spec_decode(code) {
        OperCode::Flow00EE => {
            lemma_mod_4096_even(s.stk[s.spt - 1] as int);
        },
        OperCode::FlowBNNN(n) => {
            lemma_mod_4096_even(n + s.reg[0]);
        },
        _ => {
        },
    }
}

/// V[F] is written only by the instructions that define it: any other
/// fault-free instruction leaves the flag register unchanged.
pub proof fn lemma_vf_untouched(s: CoreState, code: u16, rnd: u8, coll: bool)
    requires
        inv(s),
        spec_fault(s, code) is None,
        !spec_writes_vf(s, code),
    ensures
        spec_exec(s, code, rnd, coll).reg[15] == s.reg[15],
{
    lemma_operands_in_range(code);
}

/// The flag-setting add and subtracts leave only 0 or 1 in V[F], even
/// when V[F] itself is the destination register: the flag write wins.
pub proof fn lemma_arith_flag(s: CoreState, code: u16, rnd: u8, coll: bool)
    requires
        inv(s),
        (spec_decode(code) matches OperCode::Math8XY4(_, _) || spec_decode(code)
            matches OperCode::Math8XY5(_, _) || spec_decode(code)
            matches OperCode::Math8XY7(_, _)),
    ensures
        spec_exec(s, code, rnd, coll).reg[15] == 0 || spec_exec(s, code, rnd, coll).reg[15]
            == 1,
{
    lemma_operands_in_range(code);
}

/// Storing V[0]..=V[X] with FX55 and then loading with FX65, with the
/// same X and I untouched in between, restores the register file
/// exactly: the store touches no register, and the load writes back
/// the bytes the store put down.
pub proof fn lemma_store_load_round_trip(
    s: CoreState,
    c1: u16,
    c2: u16,
    x: usize,
    rnd: u8,
    coll: bool,
    rnd2: u8,
    coll2: bool,
)
    requires
        inv(s),
        spec_decode(c1) == OperCode::MemFX55(x),
        spec_decode(c2) == OperCode::MemFX65(x),
        spec_fault(s, c1) is None,
    ensures
        spec_fault(spec_exec(s, c1, rnd, coll), c2) is None,
        spec_exec(spec_exec(s, c1, rnd, coll), c2, rnd2, coll2).reg == s.reg,
        spec_exec(spec_exec(s, c1, rnd, coll), c2, rnd2, coll2).ind == s.ind,
{
    lemma_operands_in_range(c1);
    let s1 = spec_exec(s, c1, rnd, coll);
    let s2 = spec_exec(s1, c2, rnd2, coll2);
    assert(s2.reg =~= s.reg);
}

/// CALL followed immediately by RET restores the program counter and
/// the stack pointer.
pub proof fn lemma_call_ret_round_trip(
    s: CoreState,
    c1: u16,
    c2: u16,
    rnd: u8,
    coll: bool,
    rnd2: u8,
    coll2: bool,
)
    requires
        inv(s),
        spec_decode(c1) matches OperCode::Flow2NNN(_),
        spec_decode(c2) == OperCode::Flow00EE,
        spec_fault(s, c1) is None,
    ensures
        spec_fault(spec_exec(s, c1, rnd, coll), c2) is None,
        spec_exec(spec_exec(s, c1, rnd, coll), c2, rnd2, coll2).pc == s.pc,
        spec_exec(spec_exec(s, c1, rnd, coll), c2, rnd2, coll2).spt == s.spt,
{
    lemma_operands_in_range(c1);
}

/// A fresh machine loaded with a ROM holds the ROM at 0x200, the font
/// below 0x50, and zero everywhere else, and the rest of the machine
/// is still in its reset values.
pub proof fn lemma_load_rom_fresh(rom: Seq<u8>)
    requires
        rom.len() <= 3584,
    ensures
        ({
            let s = CoreState {
                mem: spec_overlay(spec_reset().mem, 0x200, rom, rom.len() as int),
                ..spec_reset()
            };
            &&& forall|i: int|
                0x200 <= i < 0x200 + rom.len() ==> s.mem[i] == rom[i - 0x200]
            &&& forall|i: int| 0 <= i < 80 ==> s.mem[i] == spec_font()[i]
            &&& forall|i: int| 80 <= i < 0x200 ==> s.mem[i] == 0
            &&& forall|i: int| 0x200 + rom.len() <= i < 4096 ==> s.mem[i] == 0
            &&& s.reg == spec_reset().reg
            &&& s.pc == 0x200
            &&& s.spt == 0
            &&& s.ind == 0
        }),
{
}

} // verus!

