use risc_v::components::csr::{MCAUSE, MEPC, MSTATUS, MTVAL};
use risc_v::components::registers::XRegisters;
use risc_v::components::system_bus::DRAM_BASE;
use risc_v::components::trap::Exception;
use risc_v::cpu::{Cpu, PrivilegeMode};

const OP: u32 = 0x33;
const OPW: u32 = 0x3b;
const OP_IMM: u32 = 0x13;
const OP_IMMW: u32 = 0x1b;
const LOAD: u32 = 0x03;
const LUI: u32 = 0x37;
const AUIPC: u32 = 0x17;
const JALR: u32 = 0x67;
const AMO: u32 = 0x2f;
const SYSTEM: u32 = 0x73;

fn r(funct7: u32, rs2: u32, rs1: u32, funct3: u32, rd: u32, opcode: u32) -> u32 {
    funct7 << 25 | rs2 << 20 | rs1 << 15 | funct3 << 12 | rd << 7 | opcode
}

fn i(imm: i32, rs1: u32, funct3: u32, rd: u32, opcode: u32) -> u32 {
    ((imm as u32) & 0xfff) << 20 | rs1 << 15 | funct3 << 12 | rd << 7 | opcode
}

fn s(imm: i32, rs2: u32, rs1: u32, funct3: u32) -> u32 {
    let imm = imm as u32;
    ((imm >> 5) & 0x7f) << 25 | rs2 << 20 | rs1 << 15 | funct3 << 12 | (imm & 0x1f) << 7 | 0x23
}

fn b(imm: i32, rs2: u32, rs1: u32, funct3: u32) -> u32 {
    let imm = imm as u32;
    ((imm >> 12) & 1) << 31
        | ((imm >> 5) & 0x3f) << 25
        | rs2 << 20
        | rs1 << 15
        | funct3 << 12
        | ((imm >> 1) & 0xf) << 8
        | ((imm >> 11) & 1) << 7
        | 0x63
}

fn u(imm20: u32, rd: u32, opcode: u32) -> u32 {
    imm20 << 12 | rd << 7 | opcode
}

fn j(imm: i32, rd: u32) -> u32 {
    let imm = imm as u32;
    ((imm >> 20) & 1) << 31
        | ((imm >> 1) & 0x3ff) << 21
        | ((imm >> 11) & 1) << 20
        | ((imm >> 12) & 0xff) << 12
        | rd << 7
        | 0x6f
}

fn addi(rd: u32, rs1: u32, imm: i32) -> u32 {
    i(imm, rs1, 0, rd, OP_IMM)
}

/// Stores 0x5555 to the test finisher, through x5 and x6.
fn exit_pass() -> Vec<u32> {
    vec![u(0x100, 5, LUI), u(0x5, 6, LUI), addi(6, 6, 0x555), s(0, 6, 5, 2)]
}

fn load(program: &[u32]) -> Cpu {
    let mut cpu = Cpu::new();
    let mut bytes = Vec::new();
    for word in program {
        bytes.extend_from_slice(&word.to_le_bytes());
    }
    cpu.mmu.bus.inject(DRAM_BASE, &bytes).unwrap();
    cpu.pc = DRAM_BASE;
    cpu
}

fn run_to_pass(mut cpu: Cpu) -> Cpu {
    assert_eq!(cpu.run(10_000), 2);
    cpu
}

fn run_program(body: &[u32]) -> Cpu {
    let mut program = body.to_vec();
    program.extend(exit_pass());
    run_to_pass(load(&program))
}

fn binary(funct7: u32, funct3: u32, opcode: u32, lhs: u64, rhs: u64) -> u64 {
    let mut program = vec![r(funct7, 29, 28, funct3, 30, opcode)];
    program.extend(exit_pass());
    let mut cpu = load(&program);
    cpu.x_regs.write(28, lhs);
    cpu.x_regs.write(29, rhs);
    let cpu = run_to_pass(cpu);
    assert_eq!(cpu.x_regs.read(28), lhs);
    assert_eq!(cpu.x_regs.read(29), rhs);
    cpu.x_regs.read(30)
}

fn immediate(funct3: u32, opcode: u32, lhs: u64, imm: i32) -> u64 {
    let mut program = vec![i(imm, 28, funct3, 30, opcode)];
    program.extend(exit_pass());
    let mut cpu = load(&program);
    cpu.x_regs.write(28, lhs);
    run_to_pass(cpu).x_regs.read(30)
}

#[test]
fn add() {
    let cpu = run_program(&[addi(28, 0, 1), addi(29, 0, 2), r(0, 29, 28, 0, 30, OP)]);
    assert_eq!(cpu.x_regs.read(XRegisters::t3), 1);
    assert_eq!(cpu.x_regs.read(XRegisters::t4), 2);
    assert_eq!(cpu.x_regs.read(XRegisters::t5), 3);
    assert_eq!(cpu.mmu.bus.test.exit, 2);
}

#[test]
fn add_overflow() {
    assert_eq!(binary(0, 0, OP, u64::MAX, 1), 0);
    assert_eq!(binary(0, 0, OPW, u32::MAX as u64, 1), 0);
}

#[test]
fn sub_underflow() {
    let cpu = run_program(&[addi(28, 0, 0), addi(29, 0, 1), r(0x20, 29, 28, 0, 30, OP)]);
    assert_eq!(cpu.x_regs.read(30), 0xffff_ffff_ffff_ffff);
}

#[test]
fn sub() {
    assert_eq!(binary(0x20, 0, OP, 3, 2), 1);
    assert_eq!(binary(0x20, 0, OPW, 3, 2), 1);
}

#[test]
fn subw_result_is_sign_extended() {
    assert_eq!(binary(0x20, 0, OPW, 0, 1), u64::MAX);
    assert_eq!(binary(0, 0, OPW, 0x7fff_ffff, 1), 0xffff_ffff_8000_0000);
}

#[test]
fn sra() {
    let cpu = run_program(&[addi(28, 0, -1), addi(29, 0, 1), r(0x20, 29, 28, 5, 30, OP)]);
    assert_eq!(cpu.x_regs.read(28), u64::MAX);
    assert_eq!(cpu.x_regs.read(30), u64::MAX);
    assert_eq!(binary(0x20, 5, OP, 0x8000_0000_0000_0000, 63), u64::MAX);
    assert_eq!(binary(0x20, 5, OP, 0x4000_0000_0000_0000, 62), 1);
    assert_eq!(binary(0x20, 5, OPW, 0x8000_0000, 4), 0xffff_ffff_f800_0000);
}

#[test]
fn srl() {
    assert_eq!(binary(0, 5, OP, u64::MAX, 1), u64::MAX >> 1);
    assert_eq!(binary(0, 5, OPW, u64::MAX, 1), (u32::MAX >> 1) as u64);
    assert_eq!(immediate(5, OP_IMM, u64::MAX, 1), u64::MAX >> 1);
    assert_eq!(immediate(5, OP_IMMW, u64::MAX, 1), (u32::MAX >> 1) as u64);
}

#[test]
fn sll() {
    assert_eq!(binary(0, 1, OP, 1, 2), 4);
    assert_eq!(binary(0, 1, OPW, 1, 2), 4);
    assert_eq!(immediate(1, OP_IMM, 1, 2), 4);
    assert_eq!(immediate(1, OP_IMMW, 1, 2), 4);
    assert_eq!(immediate(1, OP_IMMW, 1, 31), 0xffff_ffff_8000_0000);
}

#[test]
fn shift_amount_is_masked() {
    assert_eq!(binary(0, 1, OP, 1, 64 + 3), 8);
    assert_eq!(binary(0, 5, OP, 0x100, 0xffff_ff00 + 4), 0x10);
    assert_eq!(binary(0, 1, OPW, 1, 32 + 3), 8);
    assert_eq!(immediate(1, OP_IMM, 1, 63), 0x8000_0000_0000_0000);
}

#[test]
fn srai_selector() {
    assert_eq!(immediate(5, OP_IMM, u64::MAX, 0x400 | 4), u64::MAX);
    assert_eq!(immediate(5, OP_IMM, 0x8000_0000_0000_0000, 0x400 | 63), u64::MAX);
    assert_eq!(immediate(5, OP_IMMW, 0x8000_0000, 0x400 | 31), u64::MAX);
}

#[test]
fn shift_with_unknown_selector_is_illegal() {
    let mut cpu = load(&[i(0x800 | 1, 28, 5, 30, OP_IMM)]);
    assert_eq!(cpu.tick(), Some(Exception::IllegalInstruction));
    let mut cpu = load(&[i(0x800 | 1, 28, 5, 30, OP_IMMW)]);
    assert_eq!(cpu.tick(), Some(Exception::IllegalInstruction));
}

#[test]
fn slt() {
    assert_eq!(binary(0, 2, OP, (-366i64) as u64, 366), 1);
    assert_eq!(binary(0, 2, OP, 366, (-366i64) as u64), 0);
    assert_eq!(binary(0, 3, OP, (-366i64) as u64, 366), 0);
    assert_eq!(binary(0, 3, OP, 366, (-366i64) as u64), 1);
    assert_eq!(immediate(2, OP_IMM, (-366i64) as u64, -1), 1);
    assert_eq!(immediate(3, OP_IMM, 5, -1), 1);
    assert_eq!(immediate(3, OP_IMM, u64::MAX, -1), 0);
}

#[test]
fn xor() {
    assert_eq!(binary(0, 4, OP, 0b1001, 0b0101), 0b1100);
    assert_eq!(immediate(4, OP_IMM, 0b1001, 0b0101), 0b1100);
}

#[test]
fn or() {
    assert_eq!(binary(0, 6, OP, 0b0101, 0b1010), 0b1111);
    assert_eq!(immediate(6, OP_IMM, 0b0101, 0b1010), 0b1111);
}

#[test]
fn and() {
    assert_eq!(binary(0, 7, OP, 0b0101, 0b1010), 0);
    assert_eq!(immediate(7, OP_IMM, 0b0111, 0b1010), 0b0010);
    assert_eq!(immediate(7, OP_IMM, 0xffff_0000_ffff_0f0f, -16), 0xffff_0000_ffff_0f00);
}

#[test]
fn addi_sign_extends_the_immediate() {
    assert_eq!(immediate(0, OP_IMM, 10, -11), u64::MAX);
    assert_eq!(immediate(0, OP_IMM, 0, 2047), 2047);
    assert_eq!(immediate(0, OP_IMM, 0, -2048), 0xffff_ffff_ffff_f800);
    assert_eq!(immediate(0, OP_IMMW, 0x1_7fff_ffff, 1), 0xffff_ffff_8000_0000);
}

#[test]
fn mul() {
    assert_eq!(binary(1, 0, OP, 2, 2), 4);
    assert_eq!(binary(1, 0, OPW, 2, 2), 4);
    assert_eq!(binary(1, 0, OP, u64::MAX, u64::MAX), 1);
    assert_eq!(binary(1, 0, OPW, 0x10000, 0x8000), 0xffff_ffff_8000_0000);
}

#[test]
fn mulh() {
    assert_eq!(binary(1, 1, OP, u64::MAX, 3), u64::MAX);
    assert_eq!(binary(1, 1, OP, 0x8000_0000_0000_0000, 0x8000_0000_0000_0000), 0x4000_0000_0000_0000);
    assert_eq!(binary(1, 1, OP, 0x4000_0000_0000_0000, 4), 1);
}

#[test]
fn mulhsu() {
    assert_eq!(binary(1, 2, OP, u64::MAX, 3), u64::MAX);
    assert_eq!(binary(1, 2, OP, u64::MAX, u64::MAX), u64::MAX);
    assert_eq!(binary(1, 2, OP, 3, u64::MAX), 2);
}

#[test]
fn mulhu() {
    assert_eq!(binary(1, 3, OP, u64::MAX, 3), 2);
    assert_eq!(binary(1, 3, OP, u64::MAX, u64::MAX), u64::MAX - 1);
}

#[test]
fn div() {
    assert_eq!(binary(1, 4, OP, 7, 2), 3);
    assert_eq!(binary(1, 4, OP, (-7i64) as u64, 2), (-3i64) as u64);
    assert_eq!(binary(1, 4, OP, 7, (-2i64) as u64), (-3i64) as u64);
    assert_eq!(binary(1, 4, OP, (-7i64) as u64, (-2i64) as u64), 3);
    assert_eq!(binary(1, 4, OPW, (-7i64) as u64, 2), (-3i64) as u64);
}

#[test]
fn div_by_zero() {
    assert_eq!(binary(1, 4, OP, 1, 0), u64::MAX);
    assert_eq!(binary(1, 4, OPW, 1, 0), u64::MAX);
}

#[test]
fn div_overflow() {
    assert_eq!(binary(1, 4, OP, 0x8000_0000_0000_0000, u64::MAX), 0x8000_0000_0000_0000);
    assert_eq!(binary(1, 4, OPW, 0x8000_0000, u64::MAX), 0xffff_ffff_8000_0000);
    assert_eq!(binary(1, 6, OP, 0x8000_0000_0000_0000, u64::MAX), 0);
    assert_eq!(binary(1, 6, OPW, 0x8000_0000, u64::MAX), 0);
}

#[test]
fn divu_by_zero() {
    let cpu = run_program(&[addi(28, 0, 1), addi(29, 0, 0), r(1, 29, 28, 5, 30, OP)]);
    assert_eq!(cpu.x_regs.read(30), 0xffff_ffff_ffff_ffff);
    assert_eq!(cpu.csr.get(MCAUSE), 0);
    assert_eq!(binary(1, 5, OPW, 1, 0), u64::MAX);
}

#[test]
fn divu() {
    assert_eq!(binary(1, 5, OP, u64::MAX, 2), u64::MAX >> 1);
    assert_eq!(binary(1, 5, OPW, u64::MAX, 2), (u32::MAX >> 1) as u64);
}

#[test]
fn rem() {
    assert_eq!(binary(1, 6, OP, 7, 2), 1);
    assert_eq!(binary(1, 6, OP, (-7i64) as u64, 2), (-1i64) as u64);
    assert_eq!(binary(1, 6, OP, 7, (-2i64) as u64), 1);
    assert_eq!(binary(1, 6, OP, (-7i64) as u64, (-2i64) as u64), (-1i64) as u64);
    assert_eq!(binary(1, 6, OPW, (-7i64) as u64, 2), (-1i64) as u64);
    assert_eq!(binary(1, 7, OP, 7, 4), 3);
    assert_eq!(binary(1, 7, OPW, 0x1_0000_0007, 4), 3);
}

#[test]
fn rem_by_zero() {
    assert_eq!(binary(1, 6, OP, 77, 0), 77);
    assert_eq!(binary(1, 7, OP, 77, 0), 77);
    assert_eq!(binary(1, 6, OPW, 0x8000_0001, 0), 0xffff_ffff_8000_0001);
    assert_eq!(binary(1, 7, OPW, 0x8000_0001, 0), 0xffff_ffff_8000_0001);
}

#[test]
fn unknown_operation_is_illegal() {
    let mut cpu = load(&[r(0x7f, 29, 28, 0, 30, OP)]);
    assert_eq!(cpu.tick(), Some(Exception::IllegalInstruction));
    assert_eq!(cpu.x_regs.read(30), 0);
    let mut cpu = load(&[r(0, 29, 28, 2, 30, OPW)]);
    assert_eq!(cpu.tick(), Some(Exception::IllegalInstruction));
}

fn store_then_load(store_funct3: u32, load_funct3: u32, value: u64) -> u64 {
    let mut program = vec![s(0, 1, 2, store_funct3), i(0, 2, load_funct3, 3, LOAD)];
    program.extend(exit_pass());
    let mut cpu = load(&program);
    cpu.x_regs.write(1, value);
    cpu.x_regs.write(2, DRAM_BASE + 0x1000);
    let cpu = run_to_pass(cpu);
    assert_eq!(cpu.x_regs.read(1), value);
    cpu.x_regs.read(3)
}

#[test]
fn sb_lb() {
    assert_eq!(store_then_load(0, 0, 0x0101_0101_0101_0101), 0x01);
    assert_eq!(store_then_load(0, 0, 0x80), 0xffff_ffff_ffff_ff80);
    assert_eq!(store_then_load(0, 4, 0x80), 0x80);
}

#[test]
fn sh_lh() {
    assert_eq!(store_then_load(1, 1, 0x0101_0101_0101_0101), 0x0101);
    assert_eq!(store_then_load(1, 1, 0x8001), 0xffff_ffff_ffff_8001);
    assert_eq!(store_then_load(1, 5, 0x8001), 0x8001);
}

#[test]
fn sw_lw() {
    assert_eq!(store_then_load(2, 2, 0x0101_0101_0101_0101), 0x0101_0101);
    assert_eq!(store_then_load(2, 2, 0x8000_0001), 0xffff_ffff_8000_0001);
    assert_eq!(store_then_load(2, 6, 0x8000_0001), 0x8000_0001);
}

#[test]
fn sd_ld() {
    assert_eq!(store_then_load(3, 3, 0x0101_0101_0101_0101), 0x0101_0101_0101_0101);
    assert_eq!(store_then_load(3, 3, 0x8877_6655_4433_2211), 0x8877_6655_4433_2211);
}

#[test]
fn memory_is_little_endian() {
    assert_eq!(store_then_load(3, 4, 0x8877_6655_4433_2211), 0x11);
    assert_eq!(store_then_load(3, 5, 0x8877_6655_4433_2211), 0x2211);
    assert_eq!(store_then_load(3, 6, 0x8877_6655_4433_2211), 0x4433_2211);
}

#[test]
fn load_and_store_add_the_immediate() {
    let mut program = vec![s(-8, 1, 2, 3), i(-8, 2, 3, 3, LOAD), i(-4, 2, 6, 4, LOAD)];
    program.extend(exit_pass());
    let mut cpu = load(&program);
    cpu.x_regs.write(1, 0x8877_6655_4433_2211);
    cpu.x_regs.write(2, DRAM_BASE + 0x1008);
    let mut cpu = run_to_pass(cpu);
    assert_eq!(cpu.x_regs.read(3), 0x8877_6655_4433_2211);
    assert_eq!(cpu.x_regs.read(4), 0x8877_6655);
    assert_eq!(
        cpu.mmu.bus.read(DRAM_BASE + 0x1000, risc_v::components::mmu::Size::DWORD),
        Ok(0x8877_6655_4433_2211)
    );
}

fn branch(funct3: u32, lhs: u64, rhs: u64) -> u64 {
    let mut program = vec![b(8, 29, 28, funct3), addi(30, 0, 0), addi(30, 0, 1)];
    program.extend(exit_pass());
    let mut cpu = load(&program);
    cpu.x_regs.write(28, lhs);
    cpu.x_regs.write(29, rhs);
    cpu.x_regs.write(30, 7);
    let mut steps = load(&program);
    steps.x_regs.write(28, lhs);
    steps.x_regs.write(29, rhs);
    assert_eq!(steps.tick(), None);
    assert!(steps.pc == DRAM_BASE + 4 || steps.pc == DRAM_BASE + 8);
    let taken = steps.pc == DRAM_BASE + 8;
    let cpu = run_to_pass(cpu);
    assert_eq!(cpu.x_regs.read(30), 1);
    if taken {
        1
    } else {
        0
    }
}

#[test]
fn beq() {
    let cpu = run_program(&[
        addi(28, 0, 366),
        addi(29, 0, 366),
        b(8, 29, 28, 0),
        addi(30, 0, 0),
        addi(30, 0, 1),
    ]);
    assert_eq!(cpu.x_regs.read(28), 366);
    assert_eq!(cpu.x_regs.read(29), 366);
    assert_eq!(cpu.x_regs.read(30), 1);
    assert_eq!(branch(0, 366, 366), 1);
    assert_eq!(branch(0, 366, 365), 0);
}

#[test]
fn bne() {
    assert_eq!(branch(1, (-366i64) as u64, 366), 1);
    assert_eq!(branch(1, 366, 366), 0);
}

#[test]
fn blt() {
    assert_eq!(branch(4, (-366i64) as u64, 366), 1);
    assert_eq!(branch(4, 366, (-366i64) as u64), 0);
    assert_eq!(branch(4, 366, 366), 0);
}

#[test]
fn bltu() {
    assert_eq!(branch(6, (-366i64) as u64, 366), 0);
    assert_eq!(branch(6, 366, (-366i64) as u64), 1);
}

#[test]
fn bge() {
    assert_eq!(branch(5, 366, (-366i64) as u64), 1);
    assert_eq!(branch(5, 366, 366), 1);
    assert_eq!(branch(5, (-366i64) as u64, 366), 0);
}

#[test]
fn bgeu() {
    assert_eq!(branch(7, 366, (-366i64) as u64), 0);
    assert_eq!(branch(7, 366, 366), 1);
}

#[test]
fn unused_branch_conditions_fall_through() {
    assert_eq!(branch(2, 1, 1), 0);
    assert_eq!(branch(3, 1, 1), 0);
}

#[test]
fn branch_backwards() {
    // x28 counts down from 3; x30 counts the iterations.
    let cpu = run_program(&[
        addi(28, 0, 3),
        addi(30, 30, 1),
        addi(28, 28, -1),
        b(-8, 0, 28, 1),
    ]);
    assert_eq!(cpu.x_regs.read(28), 0);
    assert_eq!(cpu.x_regs.read(30), 3);
}

#[test]
fn lui_and_auipc() {
    let cpu = run_program(&[u(0x12345, 28, LUI), u(0x80000, 29, LUI), u(0x1, 30, AUIPC)]);
    assert_eq!(cpu.x_regs.read(28), 0x1234_5000);
    assert_eq!(cpu.x_regs.read(29), 0xffff_ffff_8000_0000);
    assert_eq!(cpu.x_regs.read(30), DRAM_BASE + 8 + 0x1000);
}

#[test]
fn jal_links_and_jumps() {
    let cpu = run_program(&[j(8, 1), addi(30, 0, 5), addi(29, 0, 6)]);
    assert_eq!(cpu.x_regs.read(1), DRAM_BASE + 4);
    assert_eq!(cpu.x_regs.read(30), 0);
    assert_eq!(cpu.x_regs.read(29), 6);
    let mut cpu = load(&[j(-4, 0)]);
    cpu.pc = DRAM_BASE;
    assert_eq!(cpu.tick(), None);
    assert_eq!(cpu.pc, DRAM_BASE - 4);
}

#[test]
fn jalr_links_and_jumps() {
    let mut program = vec![i(9, 28, 0, 1, JALR), addi(30, 0, 5), addi(29, 0, 6)];
    program.extend(exit_pass());
    let mut cpu = load(&program);
    cpu.x_regs.write(28, DRAM_BASE);
    let cpu = run_to_pass(cpu);
    // The target is x28 + 9 with its lowest bit cleared.
    assert_eq!(cpu.x_regs.read(1), DRAM_BASE + 4);
    assert_eq!(cpu.x_regs.read(30), 0);
    assert_eq!(cpu.x_regs.read(29), 6);
}

#[test]
fn pc_advances_by_four() {
    let mut cpu = load(&[addi(1, 0, 1), addi(2, 0, 2)]);
    assert_eq!(cpu.tick(), None);
    assert_eq!(cpu.pc, DRAM_BASE + 4);
    assert_eq!(cpu.tick(), None);
    assert_eq!(cpu.pc, DRAM_BASE + 8);
}

#[test]
fn fence_does_nothing() {
    let mut cpu = load(&[0x0ff0_000f]);
    assert_eq!(cpu.tick(), None);
    assert_eq!(cpu.pc, DRAM_BASE + 4);
}

#[test]
fn writes_to_x0_are_discarded() {
    let cpu = run_program(&[addi(0, 0, 5), r(0, 0, 0, 0, 30, OP)]);
    assert_eq!(cpu.x_regs.read(0), 0);
    assert_eq!(cpu.x_regs.read(30), 0);
}

#[test]
fn unknown_opcode_is_illegal() {
    let mut cpu = load(&[0x0000_007f]);
    assert_eq!(cpu.tick(), Some(Exception::IllegalInstruction));
    assert_eq!(cpu.csr.get(MCAUSE), 2);
    assert_eq!(cpu.csr.get(MEPC), DRAM_BASE);
    assert_eq!(cpu.csr.get(MTVAL), 0);
    assert_eq!(cpu.pc, 0);
}

#[test]
fn word_without_length_marker_is_illegal() {
    let mut cpu = load(&[addi(1, 0, 1) & !3]);
    assert_eq!(cpu.tick(), Some(Exception::IllegalInstruction));
    assert_eq!(cpu.x_regs.read(1), 0);
}

fn amo(funct5: u32, funct3: u32, memory: u64, rhs: u64) -> (u64, u64) {
    let address = DRAM_BASE + 0x2000;
    let mut program = vec![r(funct5 << 2, 29, 28, funct3, 30, AMO)];
    program.extend(exit_pass());
    let mut cpu = load(&program);
    cpu.mmu
        .bus
        .write(address, risc_v::components::mmu::Size::DWORD, memory)
        .unwrap();
    cpu.x_regs.write(28, address);
    cpu.x_regs.write(29, rhs);
    let mut cpu = run_to_pass(cpu);
    let stored = cpu
        .mmu
        .bus
        .read(address, risc_v::components::mmu::Size::DWORD)
        .unwrap();
    (cpu.x_regs.read(30), stored)
}

#[test]
fn amo_operations() {
    assert_eq!(amo(0x01, 3, 5, 9), (5, 9));
    assert_eq!(amo(0x00, 3, 5, 9), (5, 14));
    assert_eq!(amo(0x04, 3, 0b1001, 0b0101), (0b1001, 0b1100));
    assert_eq!(amo(0x0c, 3, 0b1001, 0b0101), (0b1001, 0b0001));
    assert_eq!(amo(0x08, 3, 0b1001, 0b0101), (0b1001, 0b1101));
    assert_eq!(amo(0x10, 3, u64::MAX, 1), (u64::MAX, u64::MAX));
    assert_eq!(amo(0x14, 3, u64::MAX, 1), (u64::MAX, 1));
    assert_eq!(amo(0x18, 3, u64::MAX, 1), (u64::MAX, 1));
    assert_eq!(amo(0x1c, 3, u64::MAX, 1), (u64::MAX, u64::MAX));
}

#[test]
fn amo_on_words() {
    // The loaded word is sign-extended; only the low word is stored.
    assert_eq!(
        amo(0x00, 2, 0x1111_1111_8000_0000, 1),
        (0xffff_ffff_8000_0000, 0x1111_1111_8000_0001)
    );
    assert_eq!(amo(0x01, 2, 0x1111_1111_2222_2222, 0x3333_3333_4444_4444), (0x2222_2222, 0x1111_1111_4444_4444));
}

#[test]
fn amo_misaligned() {
    let mut cpu = load(&[r(0x01 << 2, 29, 28, 3, 30, AMO)]);
    cpu.x_regs.write(28, DRAM_BASE + 0x2004);
    assert_eq!(
        cpu.tick(),
        Some(Exception::LoadAddressMisaligned(DRAM_BASE + 0x2004))
    );
    assert_eq!(cpu.csr.get(MCAUSE), 4);
    assert_eq!(cpu.csr.get(MEPC), DRAM_BASE);
    assert_eq!(cpu.csr.get(MTVAL), DRAM_BASE + 0x2004);
    let mut cpu = load(&[r(0x03 << 2, 29, 28, 2, 30, AMO)]);
    cpu.x_regs.write(28, DRAM_BASE + 0x2002);
    assert_eq!(
        cpu.tick(),
        Some(Exception::LoadAddressMisaligned(DRAM_BASE + 0x2002))
    );
    assert_eq!(cpu.csr.get(MTVAL), DRAM_BASE + 0x2002);
    let mut cpu = load(&[r(0x02 << 2, 0, 28, 2, 30, AMO)]);
    cpu.x_regs.write(28, DRAM_BASE + 0x2001);
    assert_eq!(
        cpu.tick(),
        Some(Exception::LoadAddressMisaligned(DRAM_BASE + 0x2001))
    );
    assert_eq!(cpu.csr.get(MTVAL), DRAM_BASE + 0x2001);
}

#[test]
fn amo_unknown_is_illegal() {
    let mut cpu = load(&[r(0x1f << 2, 29, 28, 3, 30, AMO)]);
    cpu.x_regs.write(28, DRAM_BASE + 0x2000);
    assert_eq!(cpu.tick(), Some(Exception::IllegalInstruction));
    let mut cpu = load(&[r(0x01 << 2, 29, 28, 0, 30, AMO)]);
    cpu.x_regs.write(28, DRAM_BASE + 0x2000);
    assert_eq!(cpu.tick(), Some(Exception::IllegalInstruction));
}

#[test]
fn lr_sc() {
    let address = DRAM_BASE + 0x2000;
    // lr.d x30, (x28); sc.d x31, x29, (x28); sc.d x27, x29, (x28)
    let mut cpu = load(&[
        r(0x02 << 2, 0, 28, 3, 30, AMO),
        r(0x03 << 2, 29, 28, 3, 31, AMO),
        r(0x03 << 2, 29, 28, 3, 27, AMO),
    ]);
    cpu.mmu
        .bus
        .write(address, risc_v::components::mmu::Size::DWORD, 41)
        .unwrap();
    cpu.x_regs.write(28, address);
    cpu.x_regs.write(29, 42);
    cpu.x_regs.write(31, 7);
    cpu.x_regs.write(27, 7);
    assert_eq!(cpu.tick(), None);
    assert_eq!(cpu.x_regs.read(30), 41);
    assert_eq!(cpu.reservation, Some(address));
    assert_eq!(cpu.tick(), None);
    assert_eq!(cpu.x_regs.read(31), 0);
    assert_eq!(cpu.reservation, None);
    assert_eq!(
        cpu.mmu.bus.read(address, risc_v::components::mmu::Size::DWORD),
        Ok(42)
    );
    cpu.x_regs.write(29, 43);
    assert_eq!(cpu.tick(), None);
    assert_eq!(cpu.x_regs.read(27), 1);
    assert_eq!(
        cpu.mmu.bus.read(address, risc_v::components::mmu::Size::DWORD),
        Ok(42)
    );
}

#[test]
fn sc_to_another_address_fails() {
    let mut cpu = load(&[r(0x03 << 2, 29, 28, 3, 31, AMO)]);
    cpu.reservation = Some(DRAM_BASE + 0x2008);
    cpu.x_regs.write(28, DRAM_BASE + 0x2000);
    cpu.x_regs.write(29, 42);
    assert_eq!(cpu.tick(), None);
    assert_eq!(cpu.x_regs.read(31), 1);
    assert_eq!(cpu.reservation, None);
}

#[test]
fn mret_restores_privilege() {
    let mret = 0x3020_0073;
    let mut program = vec![mret];
    program.extend(exit_pass());
    let mut cpu = load(&program);
    // MPP = supervisor, MPIE = 1, MPRV = 1.
    cpu.csr.set(MSTATUS, (1 << 11) | (1 << 7) | (1 << 17));
    cpu.csr.set(MEPC, DRAM_BASE + 4);
    assert_eq!(cpu.tick(), None);
    assert_eq!(cpu.p_mode, PrivilegeMode::Supervisor);
    assert_eq!(cpu.pc, DRAM_BASE + 4);
    let mstatus = cpu.csr.read_mstatus();
    assert!(mstatus.mie());
    assert!(mstatus.mpie());
    assert_eq!(mstatus.mpp(), PrivilegeMode::User);
    assert!(!mstatus.mprv());
    assert_eq!(mstatus.sxl(), 2);
    assert_eq!(mstatus.uxl(), 2);
    let cpu = run_to_pass(cpu);
    assert_eq!(cpu.p_mode, PrivilegeMode::Supervisor);
}

#[test]
fn mret_to_machine_keeps_mprv() {
    let mut cpu = load(&[0x3020_0073]);
    cpu.csr.set(MSTATUS, (3 << 11) | (1 << 17) | (1 << 3));
    cpu.csr.set(MEPC, DRAM_BASE + 0x40);
    assert_eq!(cpu.tick(), None);
    assert_eq!(cpu.p_mode, PrivilegeMode::Machine);
    assert_eq!(cpu.pc, DRAM_BASE + 0x40);
    let mstatus = cpu.csr.read_mstatus();
    assert!(!mstatus.mie());
    assert!(mstatus.mpie());
    assert_eq!(mstatus.mpp(), PrivilegeMode::User);
    assert!(mstatus.mprv());
}

#[test]
fn sret_restores_privilege() {
    let mut cpu = load(&[0x1020_0073]);
    cpu.p_mode = PrivilegeMode::Supervisor;
    // SPP = supervisor, SPIE = 1, MPRV = 1.
    cpu.csr.set(MSTATUS, (1 << 8) | (1 << 5) | (1 << 17));
    cpu.csr.set(risc_v::components::csr::SEPC, DRAM_BASE + 0x80);
    assert_eq!(cpu.tick(), None);
    assert_eq!(cpu.p_mode, PrivilegeMode::Supervisor);
    assert_eq!(cpu.pc, DRAM_BASE + 0x80);
    let mstatus = cpu.csr.read_mstatus();
    assert!(mstatus.sie());
    assert!(mstatus.spie());
    assert!(!mstatus.spp());
    assert!(!mstatus.mprv());
    let mut cpu = load(&[0x1020_0073]);
    cpu.csr.set(MSTATUS, 0);
    assert_eq!(cpu.tick(), None);
    assert_eq!(cpu.p_mode, PrivilegeMode::User);
    assert!(!cpu.csr.read_mstatus().sie());
}

#[test]
fn wfi_idles_the_hart() {
    let mut cpu = load(&[0x1050_0073, addi(1, 0, 1)]);
    assert!(!cpu.is_idle);
    assert_eq!(cpu.tick(), None);
    assert!(cpu.is_idle);
    assert_eq!(cpu.pc, DRAM_BASE + 4);
    assert_eq!(cpu.tick(), None);
    assert_eq!(cpu.pc, DRAM_BASE + 4);
    assert_eq!(cpu.x_regs.read(1), 0);
    assert_eq!(cpu.run(10), 0);
    assert_eq!(cpu.pc, DRAM_BASE + 4);
}

#[test]
fn other_privileged_encodings_do_nothing() {
    // sfence.vma
    let mut cpu = load(&[0x1200_0073]);
    assert_eq!(cpu.tick(), None);
    assert_eq!(cpu.pc, DRAM_BASE + 4);
    assert_eq!(cpu.p_mode, PrivilegeMode::Machine);
}

fn csr_instr(csr: u32, rs1: u32, funct3: u32, rd: u32) -> u32 {
    csr << 20 | rs1 << 15 | funct3 << 12 | rd << 7 | SYSTEM
}

#[test]
fn csr_instructions() {
    let mscratch = 0x340;
    let mut cpu = load(&[
        csr_instr(mscratch, 28, 1, 30),
        csr_instr(mscratch, 29, 2, 30),
        csr_instr(mscratch, 28, 3, 30),
        csr_instr(mscratch, 0x1f, 5, 30),
        csr_instr(mscratch, 0x10, 6, 30),
        csr_instr(mscratch, 0x03, 7, 30),
        csr_instr(mscratch, 0, 2, 30),
    ]);
    cpu.csr.set(mscratch as usize, 0xaaaa);
    cpu.x_regs.write(28, 0x00ff);
    cpu.x_regs.write(29, 0xf000);
    assert_eq!(cpu.tick(), None);
    assert_eq!(cpu.x_regs.read(30), 0xaaaa);
    assert_eq!(cpu.csr.get(mscratch as usize), 0x00ff);
    assert_eq!(cpu.tick(), None);
    assert_eq!(cpu.x_regs.read(30), 0x00ff);
    assert_eq!(cpu.csr.get(mscratch as usize), 0xf0ff);
    assert_eq!(cpu.tick(), None);
    assert_eq!(cpu.x_regs.read(30), 0xf0ff);
    assert_eq!(cpu.csr.get(mscratch as usize), 0xf000);
    assert_eq!(cpu.tick(), None);
    assert_eq!(cpu.x_regs.read(30), 0xf000);
    assert_eq!(cpu.csr.get(mscratch as usize), 0x1f);
    assert_eq!(cpu.tick(), None);
    assert_eq!(cpu.x_regs.read(30), 0x1f);
    assert_eq!(cpu.csr.get(mscratch as usize), 0x1f);
    assert_eq!(cpu.tick(), None);
    assert_eq!(cpu.csr.get(mscratch as usize), 0x1c);
    assert_eq!(cpu.tick(), None);
    assert_eq!(cpu.x_regs.read(30), 0x1c);
    assert_eq!(cpu.csr.get(mscratch as usize), 0x1c);
}

#[test]
fn csr_instruction_with_function_four_is_illegal() {
    let mut cpu = load(&[csr_instr(0x340, 1, 4, 30)]);
    cpu.csr.set(0x340, 5);
    assert_eq!(cpu.tick(), Some(Exception::IllegalInstruction));
    assert_eq!(cpu.csr.get(0x340), 5);
    assert_eq!(cpu.x_regs.read(30), 0);
}

#[test]
fn csr_write_to_misa_is_ignored() {
    let mut cpu = load(&[csr_instr(0x301, 28, 1, 30)]);
    cpu.x_regs.write(28, 0);
    assert_eq!(cpu.tick(), None);
    assert_eq!(cpu.x_regs.read(30), 0x8000_0000_0000_1101);
    assert_eq!(cpu.csr.get(0x301), 0x8000_0000_0000_1101);
}

#[test]
fn run_stops_at_the_limit() {
    let mut cpu = load(&[j(0, 0)]);
    assert_eq!(cpu.run(100), 0);
    assert_eq!(cpu.pc, DRAM_BASE);
    assert_eq!(cpu.run(0), 0);
}

#[test]
fn run_stops_at_each_exit_reason() {
    for (value, reason) in [(0x3333u32, 1u64), (0x5555, 2), (0x7777, 3)] {
        let mut cpu = load(&[
            u(0x100, 5, LUI),
            u(value >> 12, 6, LUI),
            addi(6, 6, (value & 0xfff) as i32),
            s(0, 6, 5, 2),
            addi(30, 0, 1),
        ]);
        let exit = cpu.run(1000);
        assert_eq!(cpu.x_regs.read(6), value as u64);
        assert_eq!(exit, reason);
        assert_eq!(cpu.mmu.bus.test.exit, reason);
        assert_eq!(cpu.x_regs.read(30), 0);
    }
}

#[test]
fn other_values_leave_the_finisher_alone() {
    let mut cpu = load(&[
        u(0x100, 5, LUI),
        u(0x5, 6, LUI),
        addi(6, 6, 0x556),
        s(0, 6, 5, 2),
        addi(6, 6, -1),
        s(4, 6, 5, 2),
        addi(30, 0, 1),
    ]);
    assert_eq!(cpu.run(7), 0);
    assert_eq!(cpu.x_regs.read(30), 1);
    assert_eq!(cpu.mmu.bus.test.exit, 0);
}
