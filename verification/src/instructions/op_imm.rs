//! The register-immediate operations on 64 bits.
use crate::components::trap::Exception;
use crate::cpu::{Cpu, CpuView};
use crate::instructions::types::{imm12, spec_funct3, spec_imm12, spec_rd, spec_rs1, IType};
use crate::util::{lemma_word_casts, sign_extend, sign_extend_spec, signed64};
use vstd::prelude::*;

verus! {

/// The result of a right shift by an immediate: the field above the shift
/// amount (the immediate divided by 1024) selects the logical shift with 0
/// and the arithmetic shift with 1, and no shift with anything else.
pub open spec fn shift_right_imm(lhs: u64, imm: u64, shamt: u64) -> Result<u64, Exception> {
    if imm / 0x400 == 0 {
        Ok(lhs >> shamt)
    } else if imm / 0x400 == 1 {
        Ok(((lhs as i64) >> shamt) as u64)
    } else {
        Err(Exception::IllegalInstruction)
    }
}

/// The result of a register-immediate operation, for the twelve-bit
/// immediate field `imm`, or `None` where the function field selects no
/// operation. The operand is the sign-extended immediate; shifts take their
/// amount from its low six bits.
pub open spec fn alu_imm(funct3: u8, lhs: u64, imm: u64) -> Option<u64> {
    let rhs = sign_extend_spec(imm, 0x800);
    let shamt = rhs & 0x3f;
    if funct3 == 0 {
        Some(lhs.wrapping_add(rhs))
    } else if funct3 == 1 {
        Some(lhs << shamt)
    } else if funct3 == 2 {
        Some(if signed64(lhs) < signed64(rhs) { 1u64 } else { 0u64 })
    } else if funct3 == 3 {
        Some(if lhs < rhs { 1u64 } else { 0u64 })
    } else if funct3 == 4 {
        Some(lhs ^ rhs)
    } else if funct3 == 5 {
        match shift_right_imm(lhs, imm, shamt) {
            Ok(v) => Some(v),
            Err(_) => None,
        }
    } else if funct3 == 6 {
        Some(lhs | rhs)
    } else if funct3 == 7 {
        Some(lhs & rhs)
    } else {
        None
    }
}

/// What a register-immediate instruction does: the result goes to the
/// destination register; an unknown operation is an illegal instruction.
pub open spec fn exec_op_imm(s: CpuView, instr: u32) -> (CpuView, Result<(), Exception>) {
    match alu_imm(spec_funct3(instr), s.x[spec_rs1(instr) as int], spec_imm12(instr)) {
        Some(value) => (s.write_reg(spec_rd(instr), value), Ok(())),
        None => (s, Err(Exception::IllegalInstruction)),
    }
}

/// Shifts right, logically or arithmetically as the immediate selects.
pub fn handle_srli_srai(lhs: u64, imm: u64, shamt: u64) -> (r: Result<u64, Exception>)
    requires
        shamt < 64,
    ensures
        r == shift_right_imm(lhs, imm, shamt),
{
    let select = imm / 0x400;
    if select == 0 {
        Ok(lhs >> shamt)
    } else if select == 1 {
        let a: i64 = #[verifier::truncate] (lhs as i64);
        Ok(#[verifier::truncate] ((a >> shamt) as u64))
    } else {
        Err(Exception::IllegalInstruction)
    }
}

pub fn handle_op_imm(cpu: &mut Cpu, instr: u32) -> (r: Result<(), Exception>)
    ensures
        (final(cpu)@, r) == exec_op_imm(old(cpu)@, instr),
        old(cpu)@.wf() ==> final(cpu)@.wf(),
{
    let itype = IType::new_with_raw_value(instr);
    let funct3 = itype.funct3();
    let lhs = cpu.x_regs.read(itype.rs1());
    let imm = imm12(instr);
    let rhs = sign_extend(imm, 0x800);
    proof {
        lemma_word_casts(lhs, 0, 0, 0);
        lemma_word_casts(rhs, 0, 0, 0);
    }
    let shamt = rhs & 0x3f;
    let value = if funct3 == 0 {
        lhs.wrapping_add(rhs)
    } else if funct3 == 1 {
        lhs << shamt
    } else if funct3 == 2 {
        if (#[verifier::truncate] (lhs as i64)) < (#[verifier::truncate] (rhs as i64)) {
            1
        } else {
            0
        }
    } else if funct3 == 3 {
        if lhs < rhs {
            1
        } else {
            0
        }
    } else if funct3 == 4 {
        lhs ^ rhs
    } else if funct3 == 5 {
        handle_srli_srai(lhs, imm, shamt)?
    } else if funct3 == 6 {
        lhs | rhs
    } else {
        lhs & rhs
    };
    cpu.x_regs.write(itype.rd(), value);
    Ok(())
}

} // verus!
