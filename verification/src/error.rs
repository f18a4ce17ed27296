//! The conditions that the execution engine reports.

use vstd::prelude::*;
use crate::text::{hex_text, push_hex};

verus! {

/// A condition met while fetching or executing.
#[derive(Clone, Copy, Debug, PartialEq, Eq, Structural)]
pub enum CpuError {
    /// Fewer than four bytes remain in memory at program counter `pc`.
    /// Fatal: the run ends.
    TruncatedInstruction { pc: u64 },
    /// The opcode has no defined semantics. Not fatal: the cycle changes no
    /// register and the run goes on. No function returns this as a failure;
    /// it is the form in which a passed-over opcode is put into words.
    UnimplementedOpcode { opcode: u32 },
}

impl CpuError {
    /// Whether the condition ends the run.
    pub open spec fn fatal(self) -> bool {
        self is TruncatedInstruction
    }

    /// The condition in words, with its number in hexadecimal.
    pub open spec fn message(self) -> Seq<char> {
        match self {
            CpuError::TruncatedInstruction { pc } => "truncated instruction at program counter 0x"@
                + hex_text(pc as nat),
            CpuError::UnimplementedOpcode { opcode } => "not implemented yet: opcode 0x"@
                + hex_text(opcode as nat),
        }
    }

    /// The condition in words, for a diagnostic stream.
    pub fn describe(&self) -> (text: String)
        ensures
            text@ == self.message(),
    {
        match self {
            CpuError::TruncatedInstruction { pc } => {
                let mut text = String::from_str("truncated instruction at program counter 0x");
                push_hex(&mut text, *pc);
                text
            },
            CpuError::UnimplementedOpcode { opcode } => {
                let mut text = String::from_str("not implemented yet: opcode 0x");
                push_hex(&mut text, *opcode as u64);
                text
            },
        }
    }

    /// Whether the condition ends the run.
    pub fn is_fatal(&self) -> (b: bool)
        ensures
            b == self.fatal(),
    {
        match self {
            CpuError::TruncatedInstruction { .. } => true,
            CpuError::UnimplementedOpcode { .. } => false,
        }
    }
}

} // verus!
