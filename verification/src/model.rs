//! The mathematical model of the machine: its state as plain sequences and
//! integers, and the meaning of fetch, execute, one cycle and a whole run as
//! functions on that state.

use vstd::prelude::*;
use crate::decode::{fields_of, implemented, opcode_of, operation_of, Operation};

verus! {

/// Number of registers in the register file.
pub const REGISTER_COUNT: usize = 32;

/// Nominal memory size (128 MiB), the initial value of the stack pointer.
pub const MEMORY_SIZE: u64 = 0x800_0000;

/// Index of the stack pointer register.
pub const STACK_POINTER: usize = 2;

/// The state of the machine.
pub struct MachineState {
    /// The register file, index 0 first.
    pub regs: Seq<u64>,
    /// Byte offset of the next instruction in `memory`.
    pub pc: int,
    /// The memory image.
    pub memory: Seq<u8>,
}

/// `v + d` modulo 2^64.
pub open spec fn add_mod64(v: int, d: int) -> u64 {
    ((v + d) % 0x1_0000_0000_0000_0000) as u64
}

/// The little-endian 32-bit word made of the four bytes from offset `p`.
pub open spec fn word_at(memory: Seq<u8>, p: int) -> u32
    recommends
        0 <= p,
        p + 4 <= memory.len(),
{
    (memory[p] + memory[p + 1] * 0x100 + memory[p + 2] * 0x1_0000 + memory[p + 3] * 0x100_0000) as u32
}

/// The register file after a write of `v` to index `rd`: a write to the zero
/// register is discarded.
pub open spec fn write_reg(regs: Seq<u64>, rd: int, v: u64) -> Seq<u64> {
    if rd == 0 {
        regs
    } else {
        regs.update(rd, v)
    }
}

/// The register file after `op`: register 0 is forced to 0, then the
/// operation reads its sources and writes its destination.
pub open spec fn apply(regs: Seq<u64>, op: Operation) -> Seq<u64> {
    let base = regs.update(0, 0u64);
    match op {
        Operation::AddImmediate { rd, rs1, imm } => write_reg(
            base,
            rd as int,
            add_mod64(base[rs1 as int] as int, imm as int),
        ),
        Operation::Add { rd, rs1, rs2 } => write_reg(
            base,
            rd as int,
            add_mod64(base[rs1 as int] as int, base[rs2 as int] as int),
        ),
        Operation::Unimplemented { opcode } => base,
    }
}

/// The register file after the instruction word `inst` was executed.
pub open spec fn execute_word(regs: Seq<u64>, inst: u32) -> Seq<u64> {
    apply(regs, operation_of(fields_of(inst)))
}

/// The state a machine is constructed in: every register 0 but the stack
/// pointer, the program counter at 0, the image as memory.
pub open spec fn initial_state(image: Seq<u8>) -> MachineState {
    MachineState {
        regs: Seq::new(
            REGISTER_COUNT as nat,
            |i: int|
                if i == STACK_POINTER {
                    MEMORY_SIZE
                } else {
                    0u64
                },
        ),
        pc: 0,
        memory: image,
    }
}

impl MachineState {
    /// The invariant of the state: 32 registers, a zero register that holds
    /// 0, and an aligned program counter.
    pub open spec fn wf(self) -> bool {
        &&& self.regs.len() == REGISTER_COUNT
        &&& self.regs[0] == 0
        &&& self.pc >= 0
        &&& self.pc % 4 == 0
    }

    /// A whole instruction lies at the program counter.
    pub open spec fn running(self) -> bool {
        0 <= self.pc && self.pc + 4 <= self.memory.len()
    }

    /// Bytes remain at the program counter, but fewer than one instruction.
    pub open spec fn truncated(self) -> bool {
        0 <= self.pc < self.memory.len() && self.pc + 4 > self.memory.len()
    }

    /// The word that the fetch stage reads.
    pub open spec fn fetched(self) -> u32 {
        word_at(self.memory, self.pc)
    }

    /// The state after one cycle of a running machine: fetch, advance the
    /// program counter by 4, execute.
    pub open spec fn cycle(self) -> MachineState {
        MachineState {
            regs: execute_word(self.regs, self.fetched()),
            pc: self.pc + 4,
            memory: self.memory,
        }
    }

    /// One step of the state machine: a cycle while running, else nothing.
    pub open spec fn step(self) -> MachineState {
        if self.running() {
            self.cycle()
        } else {
            self
        }
    }

    /// The state after `n` steps.
    pub open spec fn after(self, n: nat) -> MachineState
        decreases n,
    {
        if n == 0 {
            self
        } else {
            self.after((n - 1) as nat).step()
        }
    }

    /// Number of cycles a run executes from this state.
    pub open spec fn cycles_left(self) -> nat {
        if self.running() {
            ((self.memory.len() - self.pc) / 4) as nat
        } else {
            0
        }
    }

    /// The opcodes without defined semantics that a run from this state
    /// meets, in the order of their cycles.
    pub open spec fn skipped(self) -> Seq<u32>
        decreases self.memory.len() - self.pc,
    {
        if self.running() {
            let opcode = opcode_of(self.fetched());
            if implemented(opcode) {
                self.cycle().skipped()
            } else {
                seq![opcode] + self.cycle().skipped()
            }
        } else {
            Seq::empty()
        }
    }

    /// The state in which a run from this state ends: cycles are executed as
    /// long as the machine is running.
    pub open spec fn run(self) -> MachineState
        decreases self.memory.len() - self.pc,
    {
        if self.running() {
            self.cycle().run()
        } else {
            self
        }
    }
}

} // verus!
