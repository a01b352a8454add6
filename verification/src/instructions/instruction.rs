//! The decoder, and the instructions that have a major opcode to
//! themselves.
use crate::components::trap::Exception;
use crate::cpu::{Cpu, CpuView};
use crate::instructions::amo::{exec_amo, handle_amo};
use crate::components::csr::{MEPC, SEPC};
use crate::instructions::branch::{branch_taken, exec_branch, handle_branch, relative_target};
use crate::instructions::load::{exec_load, handle_load};
use crate::instructions::op::{exec_op, handle_op};
use crate::instructions::op_imm::{exec_op_imm, handle_op_imm};
use crate::instructions::op_immw::{exec_op_immw, handle_op_immw};
use crate::instructions::opw::{exec_opw, handle_opw};
use crate::instructions::store::{exec_store, handle_store};
use crate::instructions::system::{exec_system, handle_system, MRET, SRET};
use crate::instructions::types::{
    spec_funct3, spec_imm12, spec_imm_b, spec_imm_i, spec_imm_j, spec_imm_u, spec_rd, spec_rs1,
    spec_rs2, IType, JType, UType,
};
use crate::util::{field, spec_field};
use vstd::prelude::*;

verus! {

/// The major opcodes, as bits 2 to 6 of the instruction word hold them.
pub const LOAD: u64 = 0x00;

pub const MISC_MEM: u64 = 0x03;

pub const OP_IMM: u64 = 0x04;

pub const AUIPC: u64 = 0x05;

pub const OP_IMMW: u64 = 0x06;

pub const STORE: u64 = 0x08;

pub const AMO: u64 = 0x0b;

pub const OP: u64 = 0x0c;

pub const LUI: u64 = 0x0d;

pub const OPW: u64 = 0x0e;

pub const BRANCH: u64 = 0x18;

pub const JALR: u64 = 0x19;

pub const JAL: u64 = 0x1b;

pub const SYSTEM: u64 = 0x1c;

/// The major opcode of an instruction word (bits 2 to 6).
pub open spec fn spec_opcode(instr: u32) -> u64 {
    spec_field(instr as u64, 2, 0x1f)
}

/// Whether the word has the length marker of a 32-bit instruction: its two
/// lowest bits are set.
pub open spec fn spec_is_uncompressed(instr: u32) -> bool {
    spec_field(instr as u64, 0, 3) == 3
}

/// What a load-upper-immediate does: the destination takes the immediate.
pub open spec fn exec_lui(s: CpuView, instr: u32) -> CpuView {
    s.write_reg(spec_rd(instr), spec_imm_u(instr))
}

/// What an add-upper-immediate-to-pc does: the destination takes the
/// address of the instruction plus the immediate.
pub open spec fn exec_auipc(s: CpuView, instr: u32) -> CpuView {
    s.write_reg(spec_rd(instr), relative_target(s.pc, spec_imm_u(instr)))
}

/// What a jump-and-link does: the destination takes the address of the
/// next instruction, and the program counter moves to the address of the
/// jump plus the offset.
pub open spec fn exec_jal(s: CpuView, instr: u32) -> CpuView {
    s.write_reg(spec_rd(instr), s.pc).jump(relative_target(s.pc, spec_imm_j(instr)))
}

/// What a jump-and-link-register does: the destination takes the address
/// of the next instruction; then the program counter moves to the source
/// register plus the immediate, with its lowest bit cleared. The source
/// register is read after the destination has been written.
pub open spec fn exec_jalr(s: CpuView, instr: u32) -> CpuView {
    let linked = s.write_reg(spec_rd(instr), s.pc);
    linked.jump(linked.x[spec_rs1(instr) as int].wrapping_add(spec_imm_i(instr)) & !1u64)
}

/// What the instruction word does to the hart whose program counter
/// already stands behind it. A word that is not a 32-bit instruction, or
/// whose opcode is unknown, is an illegal instruction; a fence does
/// nothing.
pub open spec fn execute(s: CpuView, instr: u32) -> (CpuView, Result<(), Exception>) {
    let opcode = spec_opcode(instr);
    if !spec_is_uncompressed(instr) {
        (s, Err(Exception::IllegalInstruction))
    } else if opcode == LOAD {
        exec_load(s, instr)
    } else if opcode == MISC_MEM {
        (s, Ok(()))
    } else if opcode == OP_IMM {
        exec_op_imm(s, instr)
    } else if opcode == OP_IMMW {
        exec_op_immw(s, instr)
    } else if opcode == STORE {
        exec_store(s, instr)
    } else if opcode == AMO {
        exec_amo(s, instr)
    } else if opcode == OP {
        exec_op(s, instr)
    } else if opcode == OPW {
        exec_opw(s, instr)
    } else if opcode == LUI {
        (exec_lui(s, instr), Ok(()))
    } else if opcode == AUIPC {
        (exec_auipc(s, instr), Ok(()))
    } else if opcode == BRANCH {
        (exec_branch(s, instr), Ok(()))
    } else if opcode == JALR {
        (exec_jalr(s, instr), Ok(()))
    } else if opcode == JAL {
        (exec_jal(s, instr), Ok(()))
    } else if opcode == SYSTEM {
        exec_system(s, instr)
    } else {
        (s, Err(Exception::IllegalInstruction))
    }
}

pub fn decode_and_execute(cpu: &mut Cpu, instr: u32) -> (r: Result<(), Exception>)
    ensures
        (final(cpu)@, r) == execute(old(cpu)@, instr),
        old(cpu)@.wf() ==> final(cpu)@.wf(),
{
    proof {
        cpu.x_regs.lemma_wf();
    }
    if field(instr as u64, 0, 3) != 3 {
        return Err(Exception::IllegalInstruction);
    }
    let opcode = field(instr as u64, 2, 0x1f);
    if opcode == LOAD {
        handle_load(cpu, instr)?;
    } else if opcode == MISC_MEM {
    } else if opcode == OP_IMM {
        handle_op_imm(cpu, instr)?;
    } else if opcode == OP_IMMW {
        handle_op_immw(cpu, instr)?;
    } else if opcode == STORE {
        handle_store(cpu, instr)?;
    } else if opcode == AMO {
        handle_amo(cpu, instr)?;
    } else if opcode == OP {
        handle_op(cpu, instr)?;
    } else if opcode == OPW {
        handle_opw(cpu, instr)?;
    } else if opcode == LUI {
        instr_lui(cpu, instr);
    } else if opcode == AUIPC {
        instr_auipc(cpu, instr);
    } else if opcode == BRANCH {
        handle_branch(cpu, instr);
    } else if opcode == JALR {
        instr_jalr(cpu, instr);
    } else if opcode == JAL {
        instr_jal(cpu, instr);
    } else if opcode == SYSTEM {
        handle_system(cpu, instr)?;
    } else {
        return Err(Exception::IllegalInstruction);
    }
    proof {
        cpu.x_regs.lemma_wf();
    }
    Ok(())
}

pub fn instr_lui(cpu: &mut Cpu, instr: u32)
    ensures
        final(cpu)@ == exec_lui(old(cpu)@, instr),
        old(cpu)@.wf() ==> final(cpu)@.wf(),
{
    let utype = UType::new_with_raw_value(instr);
    cpu.x_regs.write(utype.rd(), utype.imm());
}

pub fn instr_auipc(cpu: &mut Cpu, instr: u32)
    ensures
        final(cpu)@ == exec_auipc(old(cpu)@, instr),
        old(cpu)@.wf() ==> final(cpu)@.wf(),
{
    let utype = UType::new_with_raw_value(instr);
    cpu.x_regs.write(utype.rd(), cpu.pc.wrapping_sub(4).wrapping_add(utype.imm()));
}

pub fn instr_jal(cpu: &mut Cpu, instr: u32)
    ensures
        final(cpu)@ == exec_jal(old(cpu)@, instr),
        old(cpu)@.wf() ==> final(cpu)@.wf(),
{
    let jtype = JType::new_with_raw_value(instr);
    cpu.x_regs.write(jtype.rd(), cpu.pc);
    cpu.pc = cpu.pc.wrapping_sub(4).wrapping_add(jtype.imm());
}

pub fn instr_jalr(cpu: &mut Cpu, instr: u32)
    ensures
        final(cpu)@ == exec_jalr(old(cpu)@, instr),
        old(cpu)@.wf() ==> final(cpu)@.wf(),
{
    let itype = IType::new_with_raw_value(instr);
    cpu.x_regs.write(itype.rd(), cpu.pc);
    cpu.pc = cpu.x_regs.read(itype.rs1()).wrapping_add(itype.imm()) & !1u64;
}

/// Whether the instruction word is one that can move the program counter:
/// a branch, a jump, or a return from a trap.
pub open spec fn transfers_control(instr: u32) -> bool {
    let opcode = spec_opcode(instr);
    opcode == BRANCH || opcode == JALR || opcode == JAL || (opcode == SYSTEM && spec_funct3(instr)
        == 0 && (spec_imm12(instr) == SRET || spec_imm12(instr) == MRET))
}

/// The address of the instruction that follows the instruction word in the
/// flow of control, for the hart whose program counter already stands
/// behind the word: the target of a taken branch, of a jump or of a return
/// from a trap, and otherwise the address behind the word.
pub open spec fn next_pc(s: CpuView, instr: u32) -> u64 {
    let opcode = spec_opcode(instr);
    if opcode == BRANCH {
        if branch_taken(
            spec_funct3(instr),
            s.x[spec_rs1(instr) as int],
            s.x[spec_rs2(instr) as int],
        ) {
            relative_target(s.pc, spec_imm_b(instr))
        } else {
            s.pc
        }
    } else if opcode == JAL {
        relative_target(s.pc, spec_imm_j(instr))
    } else if opcode == JALR {
        s.write_reg(spec_rd(instr), s.pc).x[spec_rs1(instr) as int].wrapping_add(
            spec_imm_i(instr),
        ) & !1u64
    } else if opcode == SYSTEM && spec_funct3(instr) == 0 && spec_imm12(instr) == SRET {
        s.csr[SEPC as int]
    } else if opcode == SYSTEM && spec_funct3(instr) == 0 && spec_imm12(instr) == MRET {
        s.csr[MEPC as int]
    } else {
        s.pc
    }
}

/// An instruction that raises no exception leaves the program counter at
/// the address of the next instruction.
pub proof fn lemma_next_pc(s: CpuView, instr: u32)
    requires
        execute(s, instr).1 is Ok,
    ensures
        execute(s, instr).0.pc == next_pc(s, instr),
        !transfers_control(instr) ==> next_pc(s, instr) == s.pc,
{
}

/// A target relative to an instruction is that instruction's address plus
/// the offset.
pub proof fn lemma_relative_target(pc: u64, offset: u64)
    ensures
        relative_target(pc.wrapping_add(4), offset) == pc.wrapping_add(offset),
{
}

} // verus!
