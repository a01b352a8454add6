//! The conditional branches.
use crate::cpu::{Cpu, CpuView};
use crate::instructions::types::{spec_funct3, spec_imm_b, spec_rs1, spec_rs2, BType};
use crate::util::{lemma_word_casts, signed64};
use vstd::prelude::*;

verus! {

pub const BEQ: u8 = 0x0;

pub const BNE: u8 = 0x1;

pub const BLT: u8 = 0x4;

pub const BGE: u8 = 0x5;

pub const BLTU: u8 = 0x6;

pub const BGEU: u8 = 0x7;

/// Whether a branch is taken. The two unused function fields never branch.
pub open spec fn branch_taken(funct3: u8, lhs: u64, rhs: u64) -> bool {
    if funct3 == BEQ {
        lhs == rhs
    } else if funct3 == BNE {
        lhs != rhs
    } else if funct3 == BLT {
        signed64(lhs) < signed64(rhs)
    } else if funct3 == BGE {
        signed64(lhs) >= signed64(rhs)
    } else if funct3 == BLTU {
        lhs < rhs
    } else if funct3 == BGEU {
        lhs >= rhs
    } else {
        false
    }
}

/// The target of a jump relative to the instruction that makes it, while
/// the program counter already stands four bytes after that instruction.
pub open spec fn relative_target(pc: u64, offset: u64) -> u64 {
    pc.wrapping_sub(4).wrapping_add(offset)
}

/// What a branch instruction does: if it is taken, the program counter
/// moves to the branch's own address plus the offset.
pub open spec fn exec_branch(s: CpuView, instr: u32) -> CpuView {
    if branch_taken(spec_funct3(instr), s.x[spec_rs1(instr) as int], s.x[spec_rs2(instr) as int]) {
        s.jump(relative_target(s.pc, spec_imm_b(instr)))
    } else {
        s
    }
}

pub fn handle_branch(cpu: &mut Cpu, instr: u32)
    ensures
        final(cpu)@ == exec_branch(old(cpu)@, instr),
        old(cpu)@.wf() ==> final(cpu)@.wf(),
{
    let btype = BType::new_with_raw_value(instr);
    let funct3 = btype.funct3();
    let lhs = cpu.x_regs.read(btype.rs1());
    let rhs = cpu.x_regs.read(btype.rs2());
    proof {
        lemma_word_casts(lhs, 0, 0, 0);
        lemma_word_casts(rhs, 0, 0, 0);
    }
    let a: i64 = #[verifier::truncate] (lhs as i64);
    let b: i64 = #[verifier::truncate] (rhs as i64);
    let take_branch = if funct3 == BEQ {
        lhs == rhs
    } else if funct3 == BNE {
        lhs != rhs
    } else if funct3 == BLT {
        a < b
    } else if funct3 == BGE {
        a >= b
    } else if funct3 == BLTU {
        lhs < rhs
    } else if funct3 == BGEU {
        lhs >= rhs
    } else {
        false
    };
    if take_branch {
        cpu.pc = cpu.pc.wrapping_sub(4).wrapping_add(btype.imm());
    }
}

} // verus!
