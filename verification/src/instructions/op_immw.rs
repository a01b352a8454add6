//! The register-immediate operations on 32 bits.
use crate::components::trap::Exception;
use crate::cpu::{Cpu, CpuView};
use crate::instructions::types::{imm12, spec_funct3, spec_imm12, spec_rd, spec_rs1, IType};
use crate::util::{lemma_word_casts, low32, sext32, sign_extend, sign_extend_spec};
use vstd::prelude::*;

verus! {

/// The result of a 32-bit right shift by an immediate: the field above the
/// shift amount (the immediate divided by 1024) selects the logical shift
/// with 0 and the arithmetic shift with 1, and no shift with anything else.
pub open spec fn shift_right_immw(lhs: u32, imm: u64, shamt: u32) -> Result<u32, Exception> {
    if imm / 0x400 == 0 {
        Ok(lhs >> shamt)
    } else if imm / 0x400 == 1 {
        Ok(((lhs as i32) >> shamt) as u32)
    } else {
        Err(Exception::IllegalInstruction)
    }
}

/// The result of a 32-bit register-immediate operation, for the twelve-bit
/// immediate field `imm`, or `None` where the function field selects no
/// operation. The operand is the low half of the sign-extended immediate;
/// shifts take their amount from its low five bits.
pub open spec fn alu_immw(funct3: u8, lhs: u32, imm: u64) -> Option<u32> {
    let rhs = low32(sign_extend_spec(imm, 0x800));
    let shamt = rhs & 0x1f;
    if funct3 == 0 {
        Some(lhs.wrapping_add(rhs))
    } else if funct3 == 1 {
        Some(lhs << shamt)
    } else if funct3 == 5 {
        match shift_right_immw(lhs, imm, shamt) {
            Ok(v) => Some(v),
            Err(_) => None,
        }
    } else {
        None
    }
}

/// What a 32-bit register-immediate instruction does: it works on the low
/// half of the source register, and the result goes sign-extended to the
/// destination register; an unknown operation is an illegal instruction.
pub open spec fn exec_op_immw(s: CpuView, instr: u32) -> (CpuView, Result<(), Exception>) {
    match alu_immw(spec_funct3(instr), low32(s.x[spec_rs1(instr) as int]), spec_imm12(instr)) {
        Some(value) => (s.write_reg(spec_rd(instr), sext32(value)), Ok(())),
        None => (s, Err(Exception::IllegalInstruction)),
    }
}

/// Shifts 32 bits right, logically or arithmetically as the immediate
/// selects.
pub fn handle_srliw_sraiw(lhs: u32, imm: u64, shamt: u32) -> (r: Result<u32, Exception>)
    requires
        shamt < 32,
    ensures
        r == shift_right_immw(lhs, imm, shamt),
{
    let select = imm / 0x400;
    if select == 0 {
        Ok(lhs >> shamt)
    } else if select == 1 {
        let a: i32 = #[verifier::truncate] (lhs as i32);
        Ok(#[verifier::truncate] ((a >> shamt) as u32))
    } else {
        Err(Exception::IllegalInstruction)
    }
}

pub fn handle_op_immw(cpu: &mut Cpu, instr: u32) -> (r: Result<(), Exception>)
    ensures
        (final(cpu)@, r) == exec_op_immw(old(cpu)@, instr),
        old(cpu)@.wf() ==> final(cpu)@.wf(),
{
    let itype = IType::new_with_raw_value(instr);
    let funct3 = itype.funct3();
    let wide_lhs = cpu.x_regs.read(itype.rs1());
    let imm = imm12(instr);
    let wide_rhs = sign_extend(imm, 0x800);
    proof {
        lemma_word_casts(wide_lhs, 0, 0, 0);
        lemma_word_casts(wide_rhs, 0, 0, 0);
    }
    let lhs = #[verifier::truncate] (wide_lhs as u32);
    let rhs = #[verifier::truncate] (wide_rhs as u32);
    proof {
        lemma_word_casts(0, 0, rhs, 0);
    }
    let shamt = rhs & 0x1f;
    let value = if funct3 == 0 {
        lhs.wrapping_add(rhs)
    } else if funct3 == 1 {
        lhs << shamt
    } else if funct3 == 5 {
        handle_srliw_sraiw(lhs, imm, shamt)?
    } else {
        return Err(Exception::IllegalInstruction);
    };
    cpu.x_regs.write(itype.rd(), sign_extend(value as u64, 0x8000_0000));
    Ok(())
}

} // verus!
