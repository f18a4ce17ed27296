use zv64::cpu::{Cycle, RunReport, CPU};
use zv64::decode::{decode, Fields, Operation, OPCODE_ADD, OPCODE_ADD_IMMEDIATE};
use zv64::error::CpuError;
use zv64::model::{MEMORY_SIZE, REGISTER_COUNT, STACK_POINTER};

/// Encodes an I-type word.
fn i_type(opcode: u32, rd: u32, rs1: u32, imm: u32) -> u32 {
    (imm << 20) | (rs1 << 15) | (rd << 7) | opcode
}

/// Encodes an R-type word.
fn r_type(opcode: u32, rd: u32, rs1: u32, rs2: u32) -> u32 {
    (rs2 << 20) | (rs1 << 15) | (rd << 7) | opcode
}

fn image(words: &[u32]) -> Vec<u8> {
    let mut bytes = Vec::new();
    for w in words {
        bytes.extend_from_slice(&w.to_le_bytes());
    }
    bytes
}

fn registers(cpu: &CPU) -> Vec<u64> {
    (0..32).map(|i| cpu.read_register(i)).collect()
}

#[test]
fn constants_have_their_values() {
    assert_eq!(MEMORY_SIZE, 128 * 1024 * 1024);
    assert_eq!(MEMORY_SIZE, 0x8000000);
    assert_eq!(REGISTER_COUNT, 32);
    assert_eq!(STACK_POINTER, 2);
    assert_eq!(OPCODE_ADD_IMMEDIATE, 0x13);
    assert_eq!(OPCODE_ADD, 0x33);
}

#[test]
fn new_sets_stack_pointer_only() {
    let cpu = CPU::new(vec![1, 2, 3, 4, 5]);
    for i in 0..32 {
        let expected = if i == 2 { 0x8000000 } else { 0 };
        assert_eq!(cpu.read_register(i), expected, "register {}", i);
    }
    assert_eq!(cpu.pc(), 0);
    assert_eq!(cpu.memory(), &[1, 2, 3, 4, 5]);
}

#[test]
fn stack_pointer_does_not_depend_on_image_length() {
    assert_eq!(CPU::new(Vec::new()).read_register(2), 0x8000000);
    assert_eq!(CPU::new(vec![0; 64]).read_register(2), 0x8000000);
}

#[test]
fn fetch_is_little_endian() {
    let cpu = CPU::new(vec![0x78, 0x56, 0x34, 0x12]);
    assert_eq!(cpu.fetch(), Ok(0x12345678));
    let cpu = CPU::new(vec![0x93, 0x00, 0x50, 0x00]);
    assert_eq!(cpu.fetch(), Ok(0x00500093));
    let cpu = CPU::new(vec![0xff, 0x00, 0x00, 0x80]);
    assert_eq!(cpu.fetch(), Ok(0x800000ff));
}

#[test]
fn fetch_reads_at_the_program_counter() {
    let mut cpu = CPU::new(vec![0, 0, 0, 0, 0xef, 0xbe, 0xad, 0xde]);
    cpu.set_pc(4);
    assert_eq!(cpu.pc(), 4);
    assert_eq!(cpu.fetch(), Ok(0xdeadbeef));
    cpu.set_pc(8);
    assert_eq!(cpu.fetch(), Err(CpuError::TruncatedInstruction { pc: 8 }));
}

#[test]
fn fetch_with_too_few_bytes_fails() {
    for len in 0..4usize {
        let cpu = CPU::new(vec![0x13; len]);
        assert_eq!(cpu.fetch(), Err(CpuError::TruncatedInstruction { pc: 0 }));
    }
}

#[test]
fn decode_extracts_the_fields() {
    let f = decode(0x00500093);
    assert_eq!(
        f,
        Fields { raw: 0x00500093, opcode: 0x13, rd: 1, rs1: 0, rs2: 5, imm_i: 5 }
    );
    let f = decode(0xffffffff);
    assert_eq!(
        f,
        Fields { raw: 0xffffffff, opcode: 0x7f, rd: 31, rs1: 31, rs2: 31, imm_i: -1 }
    );
    let f = decode(0);
    assert_eq!(f, Fields { raw: 0, opcode: 0, rd: 0, rs1: 0, rs2: 0, imm_i: 0 });
    // bits [11:7] = 10101, bits [19:15] = 01010, bits [24:20] = 11011
    let word = (0b11011 << 20) | (0b01010 << 15) | (0b10101 << 7) | 0x33;
    let f = decode(word);
    assert_eq!(f.opcode, 0x33);
    assert_eq!(f.rd, 0b10101);
    assert_eq!(f.rs1, 0b01010);
    assert_eq!(f.rs2, 0b11011);
    assert_eq!(f.raw, word);
}

#[test]
fn decode_sign_extends_the_immediate() {
    assert_eq!(decode(i_type(0x13, 0, 0, 0x7ff)).imm_i, 2047);
    assert_eq!(decode(i_type(0x13, 0, 0, 0x800)).imm_i, -2048);
    assert_eq!(decode(i_type(0x13, 0, 0, 0xfff)).imm_i, -1);
    assert_eq!(decode(i_type(0x13, 0, 0, 0x001)).imm_i, 1);
    assert_eq!(decode(i_type(0x13, 0, 0, 0xffe)).imm_i, -2);
}

#[test]
fn operation_follows_the_opcode() {
    assert_eq!(
        decode(i_type(0x13, 3, 4, 0xfff)).operation(),
        Operation::AddImmediate { rd: 3, rs1: 4, imm: -1 }
    );
    assert_eq!(
        decode(r_type(0x33, 3, 4, 5)).operation(),
        Operation::Add { rd: 3, rs1: 4, rs2: 5 }
    );
    assert_eq!(
        decode(r_type(0x37, 3, 4, 5)).operation(),
        Operation::Unimplemented { opcode: 0x37 }
    );
    assert_eq!(decode(0).operation(), Operation::Unimplemented { opcode: 0 });
}

#[test]
fn add_immediate_adds() {
    let mut cpu = CPU::new(Vec::new());
    cpu.write_register(1, 5);
    assert_eq!(cpu.execute(i_type(0x13, 3, 1, 7)), None);
    assert_eq!(cpu.read_register(3), 12);
    assert_eq!(cpu.read_register(1), 5);
}

#[test]
fn add_immediate_with_negative_immediate_subtracts() {
    let mut cpu = CPU::new(Vec::new());
    cpu.write_register(1, 5);
    assert_eq!(cpu.execute(i_type(0x13, 3, 1, 0xfff)), None);
    assert_eq!(cpu.read_register(3), 4);
    assert_eq!(cpu.execute(i_type(0x13, 4, 1, 0x800)), None);
    assert_eq!(cpu.read_register(4), 5u64.wrapping_sub(2048));
}

#[test]
fn add_immediate_wraps_around() {
    let mut cpu = CPU::new(Vec::new());
    cpu.write_register(1, u64::MAX);
    assert_eq!(cpu.execute(i_type(0x13, 1, 1, 1)), None);
    assert_eq!(cpu.read_register(1), 0);
    assert_eq!(cpu.execute(i_type(0x13, 1, 1, 0xfff)), None);
    assert_eq!(cpu.read_register(1), u64::MAX);
}

#[test]
fn add_adds_two_registers() {
    let mut cpu = CPU::new(Vec::new());
    cpu.write_register(5, 40);
    cpu.write_register(6, 2);
    assert_eq!(cpu.execute(r_type(0x33, 7, 5, 6)), None);
    assert_eq!(cpu.read_register(7), 42);
    assert_eq!(cpu.read_register(5), 40);
    assert_eq!(cpu.read_register(6), 2);
}

#[test]
fn add_wraps_around() {
    let mut cpu = CPU::new(Vec::new());
    cpu.write_register(5, u64::MAX);
    cpu.write_register(6, 1);
    assert_eq!(cpu.execute(r_type(0x33, 7, 5, 6)), None);
    assert_eq!(cpu.read_register(7), 0);
    cpu.write_register(6, u64::MAX);
    assert_eq!(cpu.execute(r_type(0x33, 7, 5, 6)), None);
    assert_eq!(cpu.read_register(7), u64::MAX - 1);
}

#[test]
fn add_reads_the_stack_pointer() {
    let mut cpu = CPU::new(Vec::new());
    assert_eq!(cpu.execute(r_type(0x33, 1, 2, 2)), None);
    assert_eq!(cpu.read_register(1), 0x10000000);
}

#[test]
fn execute_changes_neither_pc_nor_memory() {
    let mut cpu = CPU::new(vec![9, 8, 7, 6]);
    assert_eq!(cpu.execute(i_type(0x13, 1, 0, 5)), None);
    assert_eq!(cpu.pc(), 0);
    assert_eq!(cpu.memory(), &[9, 8, 7, 6]);
}

#[test]
fn zero_register_discards_writes() {
    let mut cpu = CPU::new(Vec::new());
    cpu.write_register(0, 99);
    assert_eq!(cpu.read_register(0), 0);
    assert_eq!(cpu.execute(i_type(0x13, 0, 0, 5)), None);
    assert_eq!(cpu.read_register(0), 0);
    assert_eq!(cpu.execute(r_type(0x33, 0, 2, 2)), None);
    assert_eq!(cpu.read_register(0), 0);
    assert_eq!(cpu.execute(i_type(0x13, 1, 0, 3)), None);
    assert_eq!(cpu.read_register(1), 3);
}

#[test]
fn zero_register_stays_zero_over_a_run() {
    let words = [
        i_type(0x13, 0, 2, 0x7ff),
        r_type(0x33, 0, 2, 2),
        i_type(0x13, 5, 0, 1),
        r_type(0x7f, 0, 0, 0),
    ];
    let mut cpu = CPU::new(image(&words));
    for n in 0..6 {
        assert_eq!(cpu.read_register(0), 0, "after {} cycles", n);
        let _ = cpu.step();
    }
    assert_eq!(cpu.read_register(5), 1);
}

#[test]
fn write_register_writes_one_register() {
    let mut cpu = CPU::new(Vec::new());
    let before = registers(&cpu);
    cpu.write_register(31, 0xabcdef);
    let after = registers(&cpu);
    for i in 0..31 {
        assert_eq!(after[i], before[i]);
    }
    assert_eq!(after[31], 0xabcdef);
}

#[test]
fn unimplemented_opcode_changes_no_register() {
    let mut cpu = CPU::new(Vec::new());
    cpu.write_register(1, 11);
    cpu.write_register(9, 99);
    let before = registers(&cpu);
    assert_eq!(cpu.execute(r_type(0x37, 1, 9, 9)), Some(0x37));
    assert_eq!(registers(&cpu), before);
    assert_eq!(cpu.execute(0), Some(0));
    assert_eq!(cpu.execute(0xffffffff), Some(0x7f));
    assert_eq!(registers(&cpu), before);
}

#[test]
fn unimplemented_opcode_does_not_halt_the_run() {
    let words = [r_type(0x63, 1, 2, 3), i_type(0x13, 1, 0, 5)];
    let mut cpu = CPU::new(image(&words));
    let before = registers(&cpu);
    assert_eq!(cpu.step(), Ok(Cycle::Skipped { opcode: 0x63 }));
    assert_eq!(cpu.pc(), 4);
    assert_eq!(registers(&cpu), before);
    assert_eq!(cpu.step(), Ok(Cycle::Executed));
    assert_eq!(cpu.pc(), 8);
    assert_eq!(cpu.read_register(1), 5);
    assert_eq!(cpu.step(), Ok(Cycle::Halted));

    let mut cpu = CPU::new(image(&words));
    assert_eq!(cpu.run(), RunReport { cycles: 2, skipped: vec![0x63], error: None });
    assert_eq!(cpu.read_register(1), 5);
    assert_eq!(cpu.pc(), 8);
}

#[test]
fn error_kinds() {
    assert!(CpuError::TruncatedInstruction { pc: 0 }.is_fatal());
    assert!(!CpuError::UnimplementedOpcode { opcode: 0 }.is_fatal());
}

#[test]
fn pc_advances_by_four_each_cycle() {
    let words = [i_type(0x13, 1, 1, 1); 5];
    let mut cpu = CPU::new(image(&words));
    for n in 0..5u64 {
        assert_eq!(cpu.pc(), 4 * n);
        assert!(cpu.is_running());
        assert_eq!(cpu.step(), Ok(Cycle::Executed));
        assert_eq!(cpu.pc(), 4 * n + 4);
        assert_eq!(cpu.read_register(1), n + 1);
    }
    assert!(!cpu.is_running());
    assert_eq!(cpu.step(), Ok(Cycle::Halted));
    assert_eq!(cpu.pc(), 20);
    assert_eq!(cpu.read_register(1), 5);
}

#[test]
fn run_ends_when_no_instruction_is_left() {
    for count in 0..9usize {
        let words = vec![i_type(0x13, 1, 1, 2); count];
        let mut cpu = CPU::new(image(&words));
        let report = cpu.run();
        assert_eq!(report.cycles, count as u64);
        assert_eq!(report.skipped, Vec::<u32>::new());
        assert_eq!(report.error, None);
        assert_eq!(cpu.pc(), 4 * count as u64);
        assert!(cpu.pc() + 4 > cpu.memory().len() as u64);
        assert_eq!(cpu.read_register(1), 2 * count as u64);
    }
}

#[test]
fn single_add_immediate_image() {
    let mut cpu = CPU::new(vec![0x93, 0x00, 0x50, 0x00]);
    assert_eq!(cpu.step(), Ok(Cycle::Executed));
    assert_eq!(cpu.read_register(1), 5);
    assert_eq!(cpu.read_register(0), 0);
    assert_eq!(cpu.pc(), 4);
    assert!(!cpu.is_running());
    assert_eq!(cpu.step(), Ok(Cycle::Halted));

    let mut cpu = CPU::new(vec![0x93, 0x00, 0x50, 0x00]);
    assert_eq!(cpu.run(), RunReport { cycles: 1, skipped: Vec::new(), error: None });
    assert_eq!(cpu.read_register(1), 5);
    assert_eq!(cpu.read_register(0), 0);
    assert_eq!(cpu.read_register(2), 0x8000000);
    assert_eq!(cpu.pc(), 4);
}

#[test]
fn empty_image_runs_no_cycle() {
    let mut cpu = CPU::new(Vec::new());
    let before = cpu.dump_registers();
    assert!(!cpu.is_running());
    assert_eq!(cpu.step(), Ok(Cycle::Halted));
    assert_eq!(cpu.run(), RunReport { cycles: 0, skipped: Vec::new(), error: None });
    assert_eq!(cpu.pc(), 0);
    assert_eq!(cpu.dump_registers(), before);
}

#[test]
fn two_byte_image_is_truncated() {
    let mut cpu = CPU::new(vec![0x93, 0x00]);
    let before = registers(&cpu);
    assert_eq!(cpu.fetch(), Err(CpuError::TruncatedInstruction { pc: 0 }));
    assert_eq!(cpu.step(), Err(CpuError::TruncatedInstruction { pc: 0 }));
    assert_eq!(
        cpu.run(),
        RunReport {
            cycles: 0,
            skipped: Vec::new(),
            error: Some(CpuError::TruncatedInstruction { pc: 0 }),
        }
    );
    assert_eq!(cpu.pc(), 0);
    assert_eq!(registers(&cpu), before);
}

#[test]
fn truncated_tail_keeps_the_registers_of_the_last_cycle() {
    let mut bytes = image(&[i_type(0x13, 1, 0, 5), i_type(0x13, 2, 1, 1)]);
    bytes.extend_from_slice(&[0x93, 0x00, 0x50]);
    let mut cpu = CPU::new(bytes);
    let report = cpu.run();
    assert_eq!(report.cycles, 2);
    assert_eq!(report.error, Some(CpuError::TruncatedInstruction { pc: 8 }));
    assert_eq!(cpu.pc(), 8);
    assert_eq!(cpu.read_register(1), 5);
    assert_eq!(cpu.read_register(2), 6);
    let again = cpu.run();
    assert_eq!(again.cycles, 0);
    assert_eq!(again.error, Some(CpuError::TruncatedInstruction { pc: 8 }));
}

#[test]
fn set_pc_past_the_end_halts() {
    let mut cpu = CPU::new(image(&[i_type(0x13, 1, 0, 5)]));
    cpu.set_pc(64);
    assert!(!cpu.is_running());
    assert_eq!(cpu.step(), Ok(Cycle::Halted));
    assert_eq!(cpu.run(), RunReport { cycles: 0, skipped: Vec::new(), error: None });
    assert_eq!(cpu.pc(), 64);
    assert_eq!(cpu.read_register(1), 0);
}

#[test]
fn errors_in_words() {
    assert_eq!(
        CpuError::UnimplementedOpcode { opcode: 0x37 }.describe(),
        "not implemented yet: opcode 0x37"
    );
    assert_eq!(
        CpuError::UnimplementedOpcode { opcode: 0 }.describe(),
        "not implemented yet: opcode 0x0"
    );
    assert_eq!(
        CpuError::UnimplementedOpcode { opcode: 0xffffffff }.describe(),
        "not implemented yet: opcode 0xffffffff"
    );
    assert_eq!(
        CpuError::TruncatedInstruction { pc: 0 }.describe(),
        "truncated instruction at program counter 0x0"
    );
    assert_eq!(
        CpuError::TruncatedInstruction { pc: 0x1f4 }.describe(),
        "truncated instruction at program counter 0x1f4"
    );
    assert_eq!(
        CpuError::TruncatedInstruction { pc: u64::MAX - 3 }.describe(),
        "truncated instruction at program counter 0xfffffffffffffffc"
    );
    assert_eq!(
        CpuError::TruncatedInstruction { pc: 0xabcdef0120 }.describe(),
        format!("truncated instruction at program counter {:#x}", 0xabcdef0120u64)
    );
}

#[test]
fn run_lists_skipped_opcodes_in_order() {
    let mut bytes = image(&[
        r_type(0x63, 1, 2, 3),
        i_type(0x13, 1, 0, 5),
        r_type(0x03, 1, 1, 1),
        r_type(0x33, 4, 1, 1),
        r_type(0x63, 0, 0, 0),
    ]);
    bytes.push(0x13);
    let mut cpu = CPU::new(bytes);
    assert_eq!(
        cpu.run(),
        RunReport {
            cycles: 5,
            skipped: vec![0x63, 0x03, 0x63],
            error: Some(CpuError::TruncatedInstruction { pc: 20 }),
        }
    );
    assert_eq!(cpu.read_register(1), 5);
    assert_eq!(cpu.read_register(4), 10);
    assert_eq!(cpu.pc(), 20);
}

#[test]
fn unimplemented_opcode_returns_normally() {
    let mut cpu = CPU::new(vec![1, 2, 3, 4, 5, 6, 7, 8]);
    cpu.set_pc(4);
    let skipped = cpu.execute(r_type(0x63, 1, 2, 3));
    assert_eq!(skipped, Some(0x63));
    assert_eq!(cpu.pc(), 4);
    assert_eq!(cpu.memory(), &[1, 2, 3, 4, 5, 6, 7, 8]);
    assert_eq!(
        CpuError::UnimplementedOpcode { opcode: skipped.unwrap() }.describe(),
        "not implemented yet: opcode 0x63"
    );
    assert_eq!(cpu.execute(i_type(0x13, 1, 0, 5)), None);
    assert_eq!(cpu.read_register(1), 5);
}
