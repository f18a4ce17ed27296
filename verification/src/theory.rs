//! What holds of the model in general: the zero register, the initial
//! state, the arithmetic of the two operations, unimplemented opcodes, and
//! the course of a run.

use vstd::prelude::*;
use crate::decode::{
    imm_bits_of, implemented, lemma_field_bounds, opcode_of, rd_of, rs1_of, rs2_of,
    sign_extend_12, OPCODE_ADD, OPCODE_ADD_IMMEDIATE,
};
use crate::model::{execute_word, initial_state, MachineState, MEMORY_SIZE, REGISTER_COUNT};

verus! {

/// Whatever the word, executing it leaves the register file at its length
/// and register 0 at 0.
pub proof fn lemma_execute_keeps_zero(regs: Seq<u64>, inst: u32)
    requires
        regs.len() == REGISTER_COUNT,
    ensures
        execute_word(regs, inst).len() == REGISTER_COUNT,
        execute_word(regs, inst)[0] == 0,
{
    lemma_field_bounds(inst);
}

/// A freshly constructed machine is well formed; its stack pointer holds the
/// nominal memory size of 128 MiB, and every other register holds 0.
pub proof fn lemma_initial_state(image: Seq<u8>)
    ensures
        initial_state(image).wf(),
        initial_state(image).pc == 0,
        initial_state(image).memory == image,
        initial_state(image).regs.len() == 32,
        initial_state(image).regs[2] == MEMORY_SIZE,
        MEMORY_SIZE == 128 * 1024 * 1024,
        forall|i: int| 0 <= i < 32 && i != 2 ==> initial_state(image).regs[i] == 0,
{
}

/// A step keeps the invariant of the state.
pub proof fn lemma_step_keeps_wf(s: MachineState)
    requires
        s.wf(),
    ensures
        s.step().wf(),
        s.step().memory == s.memory,
{
    lemma_execute_keeps_zero(s.regs, s.fetched());
}

/// After any number of steps from a well-formed state the state is well
/// formed: register 0 holds 0 and the program counter is a multiple of 4.
pub proof fn lemma_after_keeps_wf(s: MachineState, n: nat)
    requires
        s.wf(),
    ensures
        s.after(n).wf(),
        s.after(n).regs[0] == 0,
        s.after(n).pc % 4 == 0,
        s.after(n).memory == s.memory,
    decreases n,
{
    if n > 0 {
        lemma_after_keeps_wf(s, (n - 1) as nat);
        lemma_step_keeps_wf(s.after((n - 1) as nat));
    }
}

/// Register 0 of a machine made from any image reads 0 after any number of
/// cycles.
pub proof fn lemma_zero_register(image: Seq<u8>, n: nat)
    ensures
        initial_state(image).after(n).regs[0] == 0,
{
    lemma_initial_state(image);
    lemma_after_keeps_wf(initial_state(image), n);
}

/// Add-immediate writes `(v + i) mod 2^64` to its destination, where `v` is
/// the value of the first source register and `i` the sign-extended 12-bit
/// immediate, and changes no other register. With destination 0 it changes
/// nothing.
pub proof fn lemma_add_immediate(regs: Seq<u64>, inst: u32)
    requires
        regs.len() == REGISTER_COUNT,
        regs[0] == 0,
        opcode_of(inst) == OPCODE_ADD_IMMEDIATE,
    ensures
        rd_of(inst) != 0 ==> execute_word(regs, inst)[rd_of(inst) as int] == (regs[rs1_of(
            inst,
        ) as int] + sign_extend_12(imm_bits_of(inst) as int)) % 0x1_0000_0000_0000_0000,
        forall|j: int|
            0 <= j < 32 && j != rd_of(inst) ==> execute_word(regs, inst)[j] == regs[j],
        rd_of(inst) == 0 ==> execute_word(regs, inst) == regs,
{
    lemma_field_bounds(inst);
    assert(regs.update(0, 0u64) =~= regs);
}

/// Add writes `(v1 + v2) mod 2^64` to its destination, where `v1` and `v2`
/// are the values of the two source registers, and changes no other
/// register. With destination 0 it changes nothing.
pub proof fn lemma_add(regs: Seq<u64>, inst: u32)
    requires
        regs.len() == REGISTER_COUNT,
        regs[0] == 0,
        opcode_of(inst) == OPCODE_ADD,
    ensures
        rd_of(inst) != 0 ==> execute_word(regs, inst)[rd_of(inst) as int] == (regs[rs1_of(
            inst,
        ) as int] + regs[rs2_of(inst) as int]) % 0x1_0000_0000_0000_0000,
        forall|j: int|
            0 <= j < 32 && j != rd_of(inst) ==> execute_word(regs, inst)[j] == regs[j],
        rd_of(inst) == 0 ==> execute_word(regs, inst) == regs,
{
    lemma_field_bounds(inst);
    assert(regs.update(0, 0u64) =~= regs);
}

/// A word whose opcode has no defined semantics leaves every register as it
/// was, and the cycle that executes it still advances the program counter.
pub proof fn lemma_unimplemented(s: MachineState)
    requires
        s.wf(),
        s.running(),
        !implemented(opcode_of(s.fetched())),
    ensures
        s.step().regs == s.regs,
        s.step().pc == s.pc + 4,
        s.step().memory == s.memory,
        s.skipped().len() > 0,
        s.skipped()[0] == opcode_of(s.fetched()),
{
    assert(s.regs.update(0, 0u64) =~= s.regs);
}

/// The first `cycles_left` steps each find the machine running and advance
/// the program counter by exactly 4.
pub proof fn lemma_after_advances(s: MachineState, k: nat)
    requires
        s.pc >= 0,
        k <= s.cycles_left(),
    ensures
        s.after(k).pc == s.pc + 4 * k,
        s.after(k).memory == s.memory,
        k < s.cycles_left() ==> s.after(k).running(),
        k == s.cycles_left() ==> !s.after(k).running(),
    decreases k,
{
    if k > 0 {
        lemma_after_advances(s, (k - 1) as nat);
    }
}

/// A run executes exactly `cycles_left` cycles and ends in the first state
/// in which no whole instruction is left: `pc + 4 > length(memory)`.
pub proof fn lemma_run(s: MachineState)
    requires
        s.pc >= 0,
    ensures
        s.run() == s.after(s.cycles_left()),
        s.run().pc == s.pc + 4 * s.cycles_left(),
        s.run().pc + 4 > s.run().memory.len(),
        s.run().memory == s.memory,
        s.wf() ==> s.run().wf(),
    decreases s.memory.len() - s.pc,
{
    if s.running() {
        let t = s.cycle();
        lemma_run(t);
        lemma_after_shift(s, t.cycles_left());
        if s.wf() {
            lemma_step_keeps_wf(s);
        }
    }
}

/// `n + 1` steps are one step followed by `n` steps.
pub proof fn lemma_after_shift(s: MachineState, n: nat)
    ensures
        s.after(n + 1) == s.step().after(n),
    decreases n,
{
    assert(s.after(n + 1) == s.after(n).step());
    if n > 0 {
        lemma_after_shift(s, (n - 1) as nat);
        assert(s.after(n) == s.after((n - 1) as nat).step());
    } else {
        assert(s.after(0) == s);
    }
}

/// A run ends with an instruction cut short exactly when the image's length
/// from the program counter on is no multiple of 4.
pub proof fn lemma_run_truncated(s: MachineState)
    requires
        0 <= s.pc <= s.memory.len(),
    ensures
        s.run().truncated() <==> (s.memory.len() - s.pc) % 4 != 0,
{
    lemma_run(s);
}

} // verus!
