//! The execution engine: the machine state with its fetch and execute
//! stages, one cycle, and the run loop.

use vstd::prelude::*;
use crate::decode::{decode, implemented, opcode_of, Operation};
use crate::dump::{dump_text, render_registers};
use crate::error::CpuError;
use crate::model::{
    add_mod64, execute_word, initial_state, write_reg, MachineState, MEMORY_SIZE, REGISTER_COUNT,
    STACK_POINTER,
};

verus! {

/// The machine: 32 registers of 64 bits, a program counter, and the memory
/// that holds the instructions.
pub struct CPU {
    regs: [u64; 32],
    pc: u64,
    memory: Vec<u8>,
}

impl View for CPU {
    type V = MachineState;

    closed spec fn view(&self) -> MachineState {
        MachineState { regs: self.regs@, pc: self.pc as int, memory: self.memory@ }
    }
}

/// What one step of the machine did.
#[derive(Clone, Copy, Debug, PartialEq, Eq, Structural)]
pub enum Cycle {
    /// No bytes remain at the program counter: nothing was done.
    Halted,
    /// One instruction was fetched and executed.
    Executed,
    /// One instruction was fetched; its opcode has no defined semantics, so
    /// no register changed.
    Skipped { opcode: u32 },
}

/// How a run went.
#[derive(Clone, Debug, PartialEq, Eq)]
pub struct RunReport {
    /// Number of cycles executed.
    pub cycles: u64,
    /// The opcodes without defined semantics that were met, in the order of
    /// their cycles. Each changed no register.
    pub skipped: Vec<u32>,
    /// The fatal condition that ended the run, if one did.
    pub error: Option<CpuError>,
}

/// `x + y` with wraparound is addition modulo 2^64.
proof fn lemma_wrapping_add(x: u64, y: u64)
    ensures
        vstd::wrapping::u64_specs::wrapping_add(x, y) == add_mod64(x as int, y as int),
{
}

/// `x + y` with wraparound, for a signed `y`, is addition modulo 2^64.
proof fn lemma_wrapping_add_signed(x: u64, y: i64)
    ensures
        vstd::wrapping::u64_specs::wrapping_add_signed(x, y) == add_mod64(x as int, y as int),
{
}

/// The four bytes combined with shifts are the little-endian word.
proof fn lemma_little_endian(b0: u8, b1: u8, b2: u8, b3: u8)
    ensures
        (b0 as u32) | ((b1 as u32) << 8) | ((b2 as u32) << 16) | ((b3 as u32) << 24)
            == b0 + b1 * 0x100 + b2 * 0x1_0000 + b3 * 0x100_0000,
{
    assert((b0 as u32) | ((b1 as u32) << 8) | ((b2 as u32) << 16) | ((b3 as u32) << 24)
        == b0 + b1 * 0x100 + b2 * 0x1_0000 + b3 * 0x100_0000) by (bit_vector);
}

impl CPU {
    /// The invariant of the machine, which `new` establishes and every
    /// method keeps.
    pub open spec fn wf(&self) -> bool {
        self@.wf() && self@.pc <= u64::MAX
    }

    /// Every machine, well formed or not, has 32 registers, a program
    /// counter of 64 bits, and a memory that the address type can index.
    pub proof fn lemma_shape(&self)
        ensures
            self@.regs.len() == REGISTER_COUNT,
            0 <= self@.pc <= u64::MAX,
            self@.memory.len() <= usize::MAX,
    {
        assert(self.memory@.len() == self.memory.len());
    }

    /// Creates a machine whose memory is `binary`.
    pub fn new(binary: Vec<u8>) -> (cpu: CPU)
        ensures
            cpu@ == initial_state(binary@),
            cpu.wf(),
    {
        let mut regs: [u64; 32] = [0; 32];
        regs[STACK_POINTER] = MEMORY_SIZE;
        let cpu = CPU { regs, pc: 0, memory: binary };
        assert(cpu@.regs =~= initial_state(binary@).regs);
        cpu
    }

    /// Reads register `idx`.
    pub fn read_register(&self, idx: usize) -> (v: u64)
        requires
            idx < REGISTER_COUNT,
        ensures
            v == self@.regs[idx as int],
            self.wf() && idx == 0 ==> v == 0,
    {
        self.regs[idx]
    }

    /// Writes `value` to register `idx`. A write to register 0 is discarded.
    pub fn write_register(&mut self, idx: usize, value: u64)
        requires
            idx < REGISTER_COUNT,
        ensures
            final(self)@.regs == write_reg(old(self)@.regs, idx as int, value),
            final(self)@.pc == old(self)@.pc,
            final(self)@.memory == old(self)@.memory,
            old(self).wf() ==> final(self).wf(),
    {
        if idx != 0 {
            self.regs[idx] = value;
        }
    }

    /// Fetches the instruction word at the program counter: four bytes,
    /// least significant first.
    pub fn fetch(&self) -> (r: Result<u32, CpuError>)
        ensures
            match r {
                Ok(inst) => self@.running() && inst == self@.fetched(),
                Err(e) => !self@.running() && e == (CpuError::TruncatedInstruction {
                    pc: self@.pc as u64,
                }),
            },
    {
        let len = self.memory.len();
        if self.pc > len as u64 || len as u64 - self.pc < 4 {
            return Err(CpuError::TruncatedInstruction { pc: self.pc });
        }
        let idx: usize = self.pc as usize;
        let b0: u8 = self.memory[idx];
        let b1: u8 = self.memory[idx + 1];
        let b2: u8 = self.memory[idx + 2];
        let b3: u8 = self.memory[idx + 3];
        proof {
            lemma_little_endian(b0, b1, b2, b3);
        }
        Ok((b0 as u32) | ((b1 as u32) << 8) | ((b2 as u32) << 16) | ((b3 as u32) << 24))
    }

    /// Decodes and executes one instruction word. Register 0 is forced to 0
    /// first. An opcode without defined semantics changes no register and
    /// is handed back, so that the caller can name it in a diagnostic; this
    /// is no failure, and `None` says that the word was carried out.
    pub fn execute(&mut self, inst: u32) -> (skipped: Option<u32>)
        ensures
            final(self)@.regs == execute_word(old(self)@.regs, inst),
            final(self)@.pc == old(self)@.pc,
            final(self)@.memory == old(self)@.memory,
            final(self)@.regs[0] == 0,
            old(self).wf() ==> final(self).wf(),
            skipped == if implemented(opcode_of(inst)) {
                None::<u32>
            } else {
                Some(opcode_of(inst))
            },
    {
        let f = decode(inst);
        self.regs[0] = 0;
        match f.operation() {
            Operation::AddImmediate { rd, rs1, imm } => {
                let v: u64 = self.regs[rs1].wrapping_add_signed(imm);
                proof {
                    lemma_wrapping_add_signed(self.regs[rs1 as int], imm);
                }
                self.write_register(rd, v);
                None
            },
            Operation::Add { rd, rs1, rs2 } => {
                let v: u64 = self.regs[rs1].wrapping_add(self.regs[rs2]);
                proof {
                    lemma_wrapping_add(self.regs[rs1 as int], self.regs[rs2 as int]);
                }
                self.write_register(rd, v);
                None
            },
            Operation::Unimplemented { opcode } => Some(opcode),
        }
    }

    /// One step of the state machine. With no bytes left at the program
    /// counter the machine is halted and nothing changes. With fewer than
    /// four left the fetch fails and nothing changes. Otherwise one cycle
    /// runs: fetch, advance the program counter by 4, execute.
    pub fn step(&mut self) -> (r: Result<Cycle, CpuError>)
        ensures
            final(self)@ == old(self)@.step(),
            old(self).wf() ==> final(self).wf(),
            match r {
                Ok(Cycle::Halted) => !old(self)@.running() && !old(self)@.truncated(),
                Ok(Cycle::Executed) => {
                    &&& old(self)@.running()
                    &&& final(self)@.pc == old(self)@.pc + 4
                    &&& implemented(opcode_of(old(self)@.fetched()))
                },
                Ok(Cycle::Skipped { opcode }) => {
                    &&& old(self)@.running()
                    &&& final(self)@.pc == old(self)@.pc + 4
                    &&& opcode == opcode_of(old(self)@.fetched())
                    &&& !implemented(opcode)
                },
                Err(e) => old(self)@.truncated() && e == (CpuError::TruncatedInstruction {
                    pc: old(self)@.pc as u64,
                }),
            },
    {
        if self.pc >= self.memory.len() as u64 {
            return Ok(Cycle::Halted);
        }
        match self.fetch() {
            Err(e) => Err(e),
            Ok(inst) => {
                self.pc = self.pc + 4;
                match self.execute(inst) {
                    None => Ok(Cycle::Executed),
                    Some(opcode) => Ok(Cycle::Skipped { opcode }),
                }
            },
        }
    }

    /// Runs cycles until the machine leaves the running state. The report
    /// counts the cycles and lists the opcodes that were passed over. Where
    /// bytes remain that do not make up an instruction, the run ends with
    /// the registers as the last whole cycle left them, and the report holds
    /// the error.
    pub fn run(&mut self) -> (report: RunReport)
        ensures
            final(self)@ == old(self)@.run(),
            final(self)@.pc + 4 > final(self)@.memory.len(),
            old(self).wf() ==> final(self).wf(),
            report.cycles == old(self)@.cycles_left(),
            report.skipped@ == old(self)@.skipped(),
            report.error == if final(self)@.truncated() {
                Some(CpuError::TruncatedInstruction { pc: final(self)@.pc as u64 })
            } else {
                None
            },
    {
        let ghost start = self@;
        let ghost start_wf = self.wf();
        let mut cycles: u64 = 0;
        let mut skipped: Vec<u32> = Vec::new();
        assert(start.cycles_left() <= self.memory.len());
        loop
            invariant
                start == old(self)@,
                start_wf == old(self).wf(),
                self@.run() == start.run(),
                cycles + self@.cycles_left() == start.cycles_left(),
                skipped@ + self@.skipped() == start.skipped(),
                start_wf ==> self.wf(),
                start.cycles_left() <= usize::MAX,
            decreases self@.memory.len() - self@.pc,
        {
            let ghost before = self@;
            let ghost seen = skipped@;
            match self.step() {
                Ok(Cycle::Halted) => {
                    assert(skipped@ =~= start.skipped());
                    return RunReport { cycles, skipped, error: None };
                },
                Ok(Cycle::Executed) => {
                    cycles = cycles + 1;
                },
                Ok(Cycle::Skipped { opcode }) => {
                    cycles = cycles + 1;
                    skipped.push(opcode);
                    assert(skipped@ + self@.skipped() =~= seen + before.skipped());
                },
                Err(e) => {
                    assert(skipped@ =~= start.skipped());
                    return RunReport { cycles, skipped, error: Some(e) };
                },
            }
        }
    }

    /// The program counter.
    pub fn pc(&self) -> (pc: u64)
        ensures
            pc == self@.pc,
    {
        self.pc
    }

    /// Sets the program counter to `pc`, the offset of an instruction.
    pub fn set_pc(&mut self, pc: u64)
        requires
            pc % 4 == 0,
        ensures
            final(self)@.pc == pc,
            final(self)@.regs == old(self)@.regs,
            final(self)@.memory == old(self)@.memory,
            old(self).wf() ==> final(self).wf(),
    {
        self.pc = pc;
    }

    /// The memory image.
    pub fn memory(&self) -> (memory: &[u8])
        ensures
            memory@ == self@.memory,
    {
        self.memory.as_slice()
    }

    /// Whether a whole instruction lies at the program counter.
    pub fn is_running(&self) -> (b: bool)
        ensures
            b == self@.running(),
    {
        let len = self.memory.len();
        self.pc <= len as u64 && len as u64 - self.pc >= 4
    }

    /// The registers as text, four per line: index, name and value of each.
    /// The machine is left as it was.
    pub fn dump_registers(&self) -> (text: String)
        ensures
            text@ == dump_text(self@.regs),
    {
        render_registers(&self.regs)
    }
}

} // verus!
