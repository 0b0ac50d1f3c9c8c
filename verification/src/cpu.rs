//! CPU interface: the register file, the bounded call stack, opcode
//! dispatch, and the CPU error type.

use vstd::prelude::*;
use vstd::string::StringExecFns;
use crate::mem::{MemError, MemErrorVariant};
use crate::text::{dec_seq, dec_string};

verus! {

/// Possible variants for a CPU operation error.
#[derive(Clone, Copy, Debug, PartialEq, Eq, Structural)]
pub enum CpuErrorVariant {
    /// A register index at or above the register-file width.
    InvalidRegisterIndex(usize),
    /// An instruction word that decodes to no operation.
    InvalidOperationCode(u16),
    /// A push or increment that would take the stack pointer above 16.
    StackOverflow(usize),
    /// A pop or decrement that would take the stack pointer below 0.
    StackUnderflow(usize),
}

/// The message that a CPU error carries, over its variant.
pub open spec fn spec_cpu_error_message(v: CpuErrorVariant) -> Seq<char> {
    match v {
        CpuErrorVariant::InvalidRegisterIndex(a) => "Illegal register index '"@ + dec_seq(
            a as nat,
        ) + "'!"@,
        CpuErrorVariant::InvalidOperationCode(a) => "Illegal operation code '"@ + dec_seq(
            a as nat,
        ) + "'!"@,
        CpuErrorVariant::StackOverflow(a) => "Stack overflow '"@ + dec_seq(a as nat) + "'!"@,
        CpuErrorVariant::StackUnderflow(a) => "Stack underflow '"@ + dec_seq(a as nat) + "'!"@,
    }
}

/// A CPU error: a tagged variant and a human-readable message.
#[derive(Debug)]
pub struct CpuError {
    variant: CpuErrorVariant,
    message: String,
}

impl CpuError {
    /// The stored variant.
    pub closed spec fn variant_spec(&self) -> CpuErrorVariant {
        self.variant
    }

    /// The stored message.
    pub closed spec fn message_spec(&self) -> Seq<char> {
        self.message@
    }

    /// Every constructed error carries the message that belongs to its
    /// variant.
    pub open spec fn wf(&self) -> bool {
        self.message_spec() == spec_cpu_error_message(self.variant_spec())
    }

    /// Returns a new CpuError instance.
    pub fn new(param: CpuErrorVariant) -> (r: CpuError)
        ensures
            r.variant_spec() == param,
            r.wf(),
    {
        proof {
            reveal_strlit("Illegal register index '");
            reveal_strlit("Illegal operation code '");
            reveal_strlit("Stack overflow '");
            reveal_strlit("Stack underflow '");
            reveal_strlit("'!");
        }
        let message = match param {
            CpuErrorVariant::InvalidRegisterIndex(a) => {
                let mut m = String::from_str("Illegal register index '");
                let n = dec_string(a);
                m.append(n.as_str());
                m.append("'!");
                m
            },
            CpuErrorVariant::InvalidOperationCode(a) => {
                let mut m = String::from_str("Illegal operation code '");
                let n = dec_string(a as usize);
                m.append(n.as_str());
                m.append("'!");
                m
            },
            CpuErrorVariant::StackOverflow(a) => {
                let mut m = String::from_str("Stack overflow '");
                let n = dec_string(a);
                m.append(n.as_str());
                m.append("'!");
                m
            },
            CpuErrorVariant::StackUnderflow(a) => {
                let mut m = String::from_str("Stack underflow '");
                let n = dec_string(a);
                m.append(n.as_str());
                m.append("'!");
                m
            },
        };
        CpuError { variant: param, message }
    }

    /// The variant, for callers that dispatch on the error.
    pub fn variant(&self) -> (r: CpuErrorVariant)
        ensures
            r == self.variant_spec(),
    {
        self.variant
    }

    /// The human-readable message.
    pub fn message(&self) -> (r: &str)
        ensures
            r@ == self.message_spec(),
    {
        self.message.as_str()
    }
}

/// Any fatal condition a cycle can surface: a CPU fault or a memory
/// fault raised by the executing instruction.
#[derive(Debug)]
pub enum EmuError {
    /// A fault of the register file, the call stack or the decoder.
    Cpu(CpuError),
    /// A memory access fault.
    Mem(MemError),
}

/// The fault a cycle reports, shorn of its message: what the
/// engine's contracts dispatch on.
#[derive(Clone, Copy, Debug, PartialEq, Eq, Structural)]
pub enum Fault {
    /// A CPU fault.
    Cpu(CpuErrorVariant),
    /// A memory fault.
    Mem(MemErrorVariant),
}

/// The fault that an engine error stands for.
pub open spec fn spec_fault_of(e: &EmuError) -> Fault {
    match e {
        EmuError::Cpu(c) => Fault::Cpu(c.variant_spec()),
        EmuError::Mem(m) => Fault::Mem(m.variant_spec()),
    }
}

/// An engine error whose message matches its variant.
pub open spec fn spec_emu_error_wf(e: &EmuError) -> bool {
    match e {
        EmuError::Cpu(c) => c.wf(),
        EmuError::Mem(m) => m.wf(),
    }
}

impl EmuError {
    /// The fault this error stands for, as an executable value.
    pub fn fault(&self) -> (r: Fault)
        ensures
            r == spec_fault_of(self),
    {
        match self {
            EmuError::Cpu(c) => Fault::Cpu(c.variant()),
            EmuError::Mem(m) => Fault::Mem(m.variant()),
        }
    }
}

/// Encapsulation of CPU interactions, as the engine offers them.
/// The behaviour of each operation is specified on the implementing
/// type's own methods.
pub trait Cpu {
    /// Receive an operation code and process it.
    fn recv_opcode(&mut self, code: &u16) -> Result<(), EmuError>;

    /// Skip next processing instruction.
    fn skip_next_instruction(&mut self);

    /// Validate register index.
    fn validate_register_index(&self, index: &usize) -> bool;

    /// Return the value for a register.
    fn reg_get(&self, index: &usize) -> Result<u8, CpuError>;

    /// Put the value on a register.
    fn reg_put(&mut self, index: &usize, value: u8) -> Result<(), CpuError>;

    /// Put the value on the last register.
    fn reg_put_vf(&mut self, value: u8);

    /// Validate a given stack pointer candidate.
    fn spt_validate(&self, spt: &usize) -> Result<usize, CpuError>;

    /// Return the stack pointer.
    fn spt_get(&self) -> usize;

    /// Increment the stack pointer.
    fn spt_inc(&mut self) -> Result<usize, CpuError>;

    /// Decrement the stack pointer.
    fn spt_dec(&mut self) -> Result<usize, CpuError>;

    /// Return the stack slot at the stack pointer.
    fn stk_get(&self) -> Result<u16, CpuError>;

    /// Pop the address from the stack.
    fn stk_pop(&mut self) -> Result<u16, CpuError>;

    /// Push the address on the stack.
    fn stk_push(&mut self, address: u16) -> Result<(), CpuError>;
}

} // verus!
