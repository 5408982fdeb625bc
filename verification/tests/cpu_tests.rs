use emu6502::cpu::CPU;
use emu6502::cpu::RESET_VECTOR;
use emu6502::cpu::STACK_BASE;
use emu6502::isa::Instruction;
use emu6502::isa::decode;
use emu6502::isa::JSR_ABS;
use emu6502::isa::LDA_IM;
use emu6502::isa::LDA_ZP;
use emu6502::isa::LDA_ZPX;
use emu6502::memory::Memory;

fn fresh() -> (CPU, Memory) {
    let mut mem = Memory::new();
    let mut cpu = CPU::default();
    cpu.reset(&mut mem);
    (cpu, mem)
}

#[test]
fn reset_gives_canonical_register_file() {
    let (cpu, mem) = fresh();
    assert_eq!(cpu.pc, RESET_VECTOR);
    assert_eq!(cpu.pc, 0xFFFC);
    assert_eq!(cpu.sp, STACK_BASE);
    assert_eq!(cpu.sp, 0x0100);
    assert_eq!(cpu.a, 0);
    assert_eq!(cpu.x, 0);
    assert_eq!(cpu.y, 0);
    assert_eq!(cpu.ps, 0);
    for addr in 0..=0xFFFFu16 {
        assert_eq!(mem.read(addr), 0);
    }
}

#[test]
fn decode_maps_each_implemented_opcode() {
    assert_eq!(decode(LDA_IM), Some(Instruction::LdaImmediate));
    assert_eq!(decode(LDA_ZP), Some(Instruction::LdaZeroPage));
    assert_eq!(decode(LDA_ZPX), Some(Instruction::LdaZeroPageX));
    assert_eq!(decode(JSR_ABS), Some(Instruction::JsrAbsolute));
    assert_eq!(decode(0x00), None);
    assert_eq!(decode(0xFF), None);
}

#[test]
fn fetch_byte_reads_advances_and_charges() {
    let (mut cpu, mut mem) = fresh();
    mem.write(0xFFFC, 0x7B);
    let mut cycles: u8 = 5;
    let data = cpu.fetch_byte(&mut cycles, &mut mem);
    assert_eq!(data, 0x7B);
    assert_eq!(cpu.pc, 0xFFFD);
    assert_eq!(cycles, 4);
}

#[test]
fn fetch_byte_wraps_program_counter() {
    let (mut cpu, mut mem) = fresh();
    cpu.pc = 0xFFFF;
    mem.write(0xFFFF, 0x5A);
    let mut cycles: u8 = 1;
    let data = cpu.fetch_byte(&mut cycles, &mut mem);
    assert_eq!(data, 0x5A);
    assert_eq!(cpu.pc, 0x0000);
    assert_eq!(cycles, 0);
}

#[test]
fn fetch_word_is_little_endian_and_charges_two() {
    let (mut cpu, mut mem) = fresh();
    mem.write(0xFFFC, 0xCD);
    mem.write(0xFFFD, 0xAB);
    let mut cycles: u8 = 4;
    let data = cpu.fetch_word(&mut cycles, &mut mem);
    assert_eq!(data, 0xABCD);
    assert_eq!(cpu.pc, 0xFFFE);
    assert_eq!(cycles, 2);
}

#[test]
fn read_byte_charges_one_and_keeps_pc() {
    let (mut cpu, mut mem) = fresh();
    mem.write(0x0042, 0x99);
    let mut cycles: u8 = 3;
    let data = cpu.read_byte(&mut cycles, &mut mem, 0x42);
    assert_eq!(data, 0x99);
    assert_eq!(cpu.pc, 0xFFFC);
    assert_eq!(cycles, 2);
}

#[test]
fn scenario_lda_immediate_zero_value() {
    let (mut cpu, mut mem) = fresh();
    mem.write(0xFFFC, LDA_IM);
    mem.write(0xFFFD, 0x00);
    let report = cpu.execute(2, &mut mem);
    assert_eq!(cpu.a, 0x00);
    assert!(cpu.is_zero_set());
    assert!(!cpu.is_negative_set());
    assert_eq!(cpu.pc, 0xFFFE);
    assert!(report.is_empty());
}

#[test]
fn scenario_lda_immediate_negative_value() {
    let (mut cpu, mut mem) = fresh();
    mem.write(0xFFFC, LDA_IM);
    mem.write(0xFFFD, 0x84);
    let report = cpu.execute(2, &mut mem);
    assert_eq!(cpu.a, 0x84);
    assert!(!cpu.is_zero_set());
    assert!(cpu.is_negative_set());
    assert_eq!(cpu.pc, 0xFFFE);
    assert!(report.is_empty());
}

#[test]
fn lda_zero_page_reads_named_cell() {
    let (mut cpu, mut mem) = fresh();
    mem.write(0xFFFC, LDA_ZP);
    mem.write(0xFFFD, 0x10);
    mem.write(0x0010, 0x37);
    let report = cpu.execute(3, &mut mem);
    assert_eq!(cpu.a, 0x37);
    assert!(!cpu.is_zero_set());
    assert!(!cpu.is_negative_set());
    assert_eq!(cpu.pc, 0xFFFE);
    assert!(report.is_empty());
}

#[test]
fn lda_zero_page_x_offsets_by_x() {
    let (mut cpu, mut mem) = fresh();
    cpu.x = 0x05;
    mem.write(0xFFFC, LDA_ZPX);
    mem.write(0xFFFD, 0x10);
    mem.write(0x0015, 0x66);
    let report = cpu.execute(4, &mut mem);
    assert_eq!(cpu.a, 0x66);
    assert_eq!(cpu.pc, 0xFFFE);
    assert!(report.is_empty());
}

#[test]
fn lda_zero_page_x_wraps_within_zero_page() {
    let (mut cpu, mut mem) = fresh();
    cpu.x = 0xFF;
    mem.write(0xFFFC, LDA_ZPX);
    mem.write(0xFFFD, 0x80);
    mem.write(0x007F, 0x42);
    let report = cpu.execute(4, &mut mem);
    assert_eq!(cpu.a, 0x42);
    assert!(report.is_empty());
}

#[test]
fn scenario_jsr_pushes_return_address_and_jumps() {
    let (mut cpu, mut mem) = fresh();
    mem.write(0xFFFC, JSR_ABS);
    mem.write(0xFFFD, 0x42);
    mem.write(0xFFFE, 0x42);
    let report = cpu.execute(6, &mut mem);
    assert_eq!(cpu.pc, 0x4242);
    assert_eq!(cpu.sp, 0x0102);
    // Return address: program counter after the 3-byte jump, minus one.
    assert_eq!(mem.read(0x0100), 0xFE);
    assert_eq!(mem.read(0x0101), 0xFF);
    assert_eq!(cpu.a, 0);
    assert!(report.is_empty());
}

#[test]
fn scenario_jsr_then_lda_immediate() {
    let (mut cpu, mut mem) = fresh();
    mem.write(0xFFFC, JSR_ABS);
    mem.write(0xFFFD, 0x42);
    mem.write(0xFFFE, 0x42);
    mem.write(0x4242, LDA_IM);
    mem.write(0x4243, 0x84);
    let report = cpu.execute(8, &mut mem);
    assert_eq!(cpu.a, 0x84);
    assert!(cpu.is_negative_set());
    assert!(!cpu.is_zero_set());
    assert_eq!(cpu.pc, 0x4244);
    assert_eq!(cpu.sp, 0x0102);
    assert_eq!(mem.read(0x0100), 0xFE);
    assert_eq!(mem.read(0x0101), 0xFF);
    assert!(report.is_empty());
}

#[test]
fn scenario_unknown_opcode_reports_and_drains_one_cycle() {
    let (mut cpu, mut mem) = fresh();
    mem.write(0xFFFC, 0x02);
    let report = cpu.execute(1, &mut mem);
    assert_eq!(cpu.pc, 0xFFFD);
    assert_eq!(cpu.sp, 0x0100);
    assert_eq!(cpu.a, 0);
    assert_eq!(cpu.x, 0);
    assert_eq!(cpu.y, 0);
    assert_eq!(cpu.ps, 0);
    assert_eq!(report.len(), 1);
    assert_eq!(report[0].addr, 0xFFFC);
    assert_eq!(report[0].opcode, 0x02);
}

#[test]
fn unknown_opcodes_keep_draining_the_budget() {
    let (mut cpu, mut mem) = fresh();
    // All-zero memory: every fetched byte is the unhandled opcode 0x00.
    let report = cpu.execute(3, &mut mem);
    assert_eq!(cpu.pc, 0xFFFF);
    assert_eq!(report.len(), 3);
    assert_eq!(report[0].addr, 0xFFFC);
    assert_eq!(report[1].addr, 0xFFFD);
    assert_eq!(report[2].addr, 0xFFFE);
    assert_eq!(report[0].opcode, 0x00);
}

#[test]
fn load_keeps_previously_set_flags() {
    let (mut cpu, mut mem) = fresh();
    // First load sets the Zero flag; the second loads a nonzero value, and
    // the OR'd flag policy leaves the Zero flag set.
    mem.write(0xFFFC, LDA_IM);
    mem.write(0xFFFD, 0x00);
    mem.write(0xFFFE, LDA_IM);
    mem.write(0xFFFF, 0x01);
    let report = cpu.execute(4, &mut mem);
    assert_eq!(cpu.a, 0x01);
    assert!(cpu.is_zero_set());
    assert!(!cpu.is_negative_set());
    assert_eq!(cpu.ps, 0x02);
    assert!(report.is_empty());
}

#[test]
fn instruction_in_flight_completes_on_saturated_budget() {
    let (mut cpu, mut mem) = fresh();
    mem.write(0xFFFC, LDA_IM);
    mem.write(0xFFFD, 0x84);
    // Budget of 1: the opcode fetch exhausts it, but the dispatched
    // instruction still runs to completion.
    let report = cpu.execute(1, &mut mem);
    assert_eq!(cpu.a, 0x84);
    assert_eq!(cpu.pc, 0xFFFE);
    assert!(cpu.is_negative_set());
    assert!(report.is_empty());
}

#[test]
fn program_counter_wraps_through_top_of_memory() {
    let (mut cpu, mut mem) = fresh();
    mem.write(0xFFFC, LDA_IM);
    mem.write(0xFFFD, 0x11);
    mem.write(0xFFFE, LDA_IM);
    mem.write(0xFFFF, 0x22);
    let report = cpu.execute(4, &mut mem);
    assert_eq!(cpu.a, 0x22);
    assert_eq!(cpu.pc, 0x0000);
    assert!(report.is_empty());
}

#[test]
fn execute_with_zero_budget_does_nothing() {
    let (mut cpu, mut mem) = fresh();
    mem.write(0xFFFC, LDA_IM);
    mem.write(0xFFFD, 0x84);
    let report = cpu.execute(0, &mut mem);
    assert_eq!(cpu.a, 0);
    assert_eq!(cpu.pc, 0xFFFC);
    assert!(report.is_empty());
}

#[test]
fn status_accessors_follow_flag_bits() {
    let (mut cpu, _mem) = fresh();
    cpu.ps = 0x02;
    assert!(cpu.is_zero_set());
    assert!(!cpu.is_negative_set());
    cpu.ps = 0x80;
    assert!(!cpu.is_zero_set());
    assert!(cpu.is_negative_set());
    cpu.ps = 0x7D;
    assert!(!cpu.is_negative_set());
}
