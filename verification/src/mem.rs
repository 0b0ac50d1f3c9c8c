//! Memory interface: the 4096-byte address space, index- and
//! range-checked access, and the memory error type.
//!
//! Ranges follow half-open semantics: the end is exclusive, and a
//! missing endpoint resolves to 0 or to the memory size.

use vstd::prelude::*;
use vstd::string::StringExecFns;
use crate::text::{dec_seq, dec_string};

verus! {

/// The size of the address space in bytes.
pub const MEM_SIZE: usize = 4096;

/// A byte range over memory, with optional endpoints. `None` stands for
/// the missing endpoint of a partially bounded range and resolves to 0
/// (start) or to `MEM_SIZE` (end); the end is exclusive.
#[derive(Clone, Copy, Debug)]
pub struct MemRange {
    /// Inclusive start, or `None` for the start of memory.
    pub start: Option<usize>,
    /// Exclusive end, or `None` for the end of memory.
    pub end: Option<usize>,
}

/// The start a range resolves to.
pub open spec fn spec_range_start(r: MemRange) -> int {
    match r.start {
        Option::Some(s) => s as int,
        Option::None => 0,
    }
}

/// The end a range resolves to.
pub open spec fn spec_range_end(r: MemRange) -> int {
    match r.end {
        Option::Some(e) => e as int,
        Option::None => MEM_SIZE as int,
    }
}

/// Whether a range resolves to a non-empty span inside memory.
pub open spec fn spec_range_valid(r: MemRange) -> bool {
    spec_range_start(r) < spec_range_end(r) <= MEM_SIZE
}

impl MemRange {
    /// The whole of memory, `[0, MEM_SIZE)`.
    pub fn full() -> (r: MemRange)
        ensures
            r.start is None,
            r.end is None,
    {
        MemRange { start: Option::None, end: Option::None }
    }

    /// The span `[start, end)`.
    pub fn span(start: usize, end: usize) -> (r: MemRange)
        ensures
            r.start == Option::Some(start),
            r.end == Option::Some(end),
    {
        MemRange { start: Option::Some(start), end: Option::Some(end) }
    }

    /// The span from `start` to the end of memory.
    pub fn starting_at(start: usize) -> (r: MemRange)
        ensures
            r.start == Option::Some(start),
            r.end is None,
    {
        MemRange { start: Option::Some(start), end: Option::None }
    }

    /// The span from the start of memory up to `end`, exclusive.
    pub fn up_to(end: usize) -> (r: MemRange)
        ensures
            r.start is None,
            r.end == Option::Some(end),
    {
        MemRange { start: Option::None, end: Option::Some(end) }
    }
}

/// Possible variants for a memory access error.
#[derive(Clone, Copy, Debug, PartialEq, Eq, Structural)]
pub enum MemErrorVariant {
    /// An index outside the address space.
    AccessViolation(usize),
    /// A range outside the address space, or inverted. The second field
    /// holds the last index the range asked for, not its exclusive end.
    AccessRangeViolation(usize, usize),
}

/// The message that a memory error carries, over its stored variant.
pub open spec fn spec_mem_error_message(v: MemErrorVariant) -> Seq<char> {
    match v {
        MemErrorVariant::AccessViolation(a) => "Illegal address '"@ + dec_seq(a as nat) + "'!"@,
        MemErrorVariant::AccessRangeViolation(a, b) => "Illegal range '"@ + dec_seq(a as nat)
            + ".."@ + dec_seq(b as nat) + "'!"@,
    }
}

/// A memory access error: a tagged variant and a human-readable message.
#[derive(Debug)]
pub struct MemError {
    variant: MemErrorVariant,
    message: String,
}

impl MemError {
    /// The stored variant.
    pub closed spec fn variant_spec(&self) -> MemErrorVariant {
        self.variant
    }

    /// The stored message.
    pub closed spec fn message_spec(&self) -> Seq<char> {
        self.message@
    }

    /// Every constructed error carries the message that belongs to its
    /// variant.
    pub open spec fn wf(&self) -> bool {
        self.message_spec() == spec_mem_error_message(self.variant_spec())
    }

    /// Returns a new MemError instance. A range violation is reported
    /// over the last index it asked for, so the exclusive end is
    /// decremented on the way in; an end of 0 never reaches this
    /// constructor.
    pub fn new(param: MemErrorVariant) -> (r: MemError)
        requires
            (param matches MemErrorVariant::AccessRangeViolation(_, b) ==> b >= 1),
        ensures
            (match param {
                MemErrorVariant::AccessViolation(a) => r.variant_spec()
                    == MemErrorVariant::AccessViolation(a),
                MemErrorVariant::AccessRangeViolation(a, b) => r.variant_spec()
                    == MemErrorVariant::AccessRangeViolation(a, (b - 1) as usize),
            }),
            r.wf(),
    {
        proof {
            reveal_strlit("Illegal address '");
            reveal_strlit("Illegal range '");
            reveal_strlit("..");
            reveal_strlit("'!");
        }
        match param {
            MemErrorVariant::AccessViolation(a) => {
                let mut message = String::from_str("Illegal address '");
                let n = dec_string(a);
                message.append(n.as_str());
                message.append("'!");
                MemError { variant: MemErrorVariant::AccessViolation(a), message }
            },
            MemErrorVariant::AccessRangeViolation(a, b) => {
                let last = b - 1;
                let mut message = String::from_str("Illegal range '");
                let n = dec_string(a);
                message.append(n.as_str());
                message.append("..");
                let m = dec_string(last);
                message.append(m.as_str());
                message.append("'!");
                MemError { variant: MemErrorVariant::AccessRangeViolation(a, last), message }
            },
        }
    }

    /// The variant, for callers that dispatch on the error.
    pub fn variant(&self) -> (r: MemErrorVariant)
        ensures
            r == self.variant_spec(),
    {
        self.variant
    }

    /// The human-readable message.
    pub fn message(&self) -> (r: &str)
        ensures
            r@ == self.message_spec(),
    {
        self.message.as_str()
    }
}

/// Encapsulation of memory interactions, as the engine offers them.
/// The behaviour of each operation is specified on the implementing
/// type's own methods.
pub trait Mem {
    /// Returns the maximum memory size.
    fn max_size(&self) -> usize;

    /// Validates if a given index belongs to the memory range.
    fn validate_index(&self, index: &usize) -> bool;

    /// Returns a tuple (start, end) for a given range; end is the last
    /// index + 1.
    fn range_get_start_end(&self, range: MemRange) -> Result<(usize, usize), MemError>;

    /// Validates if a given range belongs to the memory range.
    fn validate_range(&self, range: MemRange) -> bool;

    /// Get the memory content of a given index.
    fn mem_get(&self, index: &usize) -> Result<u8, MemError>;

    /// Put a given value in a given index of the memory range.
    fn mem_put(&mut self, index: &usize, value: u8) -> Result<(), MemError>;

    /// Return a copy of the memory content of a given range.
    fn mem_read(&self, range: MemRange) -> Result<Vec<u8>, MemError>;

    /// Replace the given range with a given slice. A slice shorter than
    /// the range fills only its head; the tail is left unchanged.
    fn mem_write(&mut self, range: MemRange, slice: &[u8]) -> Result<(), MemError>;
}

} // verus!
