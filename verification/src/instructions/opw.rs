//! The register-register operations on 32 bits.
use crate::components::trap::Exception;
use crate::cpu::{Cpu, CpuView};
use crate::instructions::types::{spec_funct3, spec_funct7, spec_rd, spec_rs1, spec_rs2, RType};
use crate::util::{
    lemma_trunc_div_range, lemma_word_casts, low32, sext32, sign_extend, signed32, trunc_div,
    trunc_rem, unsigned32,
};
use vstd::prelude::*;

verus! {

/// The result of a register-register operation on 32-bit operands, or
/// `None` where the two function fields select no operation. Shifts take
/// their amount from the low five bits of the second operand. Division and
/// remainder treat zero and the one quotient that does not fit as the
/// 64-bit operations do.
pub open spec fn alu32(funct3: u8, funct7: u8, lhs: u32, rhs: u32) -> Option<u32> {
    let shamt = rhs & 0x1f;
    if funct7 == 0x00 {
        if funct3 == 0 {
            Some(lhs.wrapping_add(rhs))
        } else if funct3 == 1 {
            Some(lhs << shamt)
        } else if funct3 == 5 {
            Some(lhs >> shamt)
        } else {
            None
        }
    } else if funct7 == 0x20 {
        if funct3 == 0 {
            Some(lhs.wrapping_sub(rhs))
        } else if funct3 == 5 {
            Some(((lhs as i32) >> shamt) as u32)
        } else {
            None
        }
    } else if funct7 == 0x01 {
        if funct3 == 0 {
            Some(lhs.wrapping_mul(rhs))
        } else if funct3 == 4 {
            Some(
                if rhs == 0 {
                    u32::MAX
                } else {
                    unsigned32(trunc_div(signed32(lhs), signed32(rhs)))
                },
            )
        } else if funct3 == 5 {
            Some(if rhs == 0 { u32::MAX } else { lhs / rhs })
        } else if funct3 == 6 {
            Some(
                if rhs == 0 {
                    lhs
                } else {
                    unsigned32(trunc_rem(signed32(lhs), signed32(rhs)))
                },
            )
        } else if funct3 == 7 {
            Some(if rhs == 0 { lhs } else { lhs % rhs })
        } else {
            None
        }
    } else {
        None
    }
}

/// What a 32-bit register-register instruction does: it works on the low
/// halves of the source registers, and the result goes sign-extended to
/// the destination register; an unknown operation is an illegal
/// instruction.
pub open spec fn exec_opw(s: CpuView, instr: u32) -> (CpuView, Result<(), Exception>) {
    match alu32(
        spec_funct3(instr),
        spec_funct7(instr),
        low32(s.x[spec_rs1(instr) as int]),
        low32(s.x[spec_rs2(instr) as int]),
    ) {
        Some(value) => (s.write_reg(spec_rd(instr), sext32(value)), Ok(())),
        None => (s, Err(Exception::IllegalInstruction)),
    }
}

/// Computes a 32-bit register-register operation.
pub fn compute_opw(funct3: u8, funct7: u8, lhs: u32, rhs: u32) -> (r: Option<u32>)
    ensures
        r == alu32(funct3, funct7, lhs, rhs),
{
    proof {
        lemma_word_casts(0, 0, lhs, 0);
        lemma_word_casts(0, 0, rhs, 0);
    }
    let shamt = rhs & 0x1f;
    let a: i32 = #[verifier::truncate] (lhs as i32);
    let b: i32 = #[verifier::truncate] (rhs as i32);
    if funct7 == 0x00 {
        if funct3 == 0 {
            Some(lhs.wrapping_add(rhs))
        } else if funct3 == 1 {
            Some(lhs << shamt)
        } else if funct3 == 5 {
            Some(lhs >> shamt)
        } else {
            None
        }
    } else if funct7 == 0x20 {
        if funct3 == 0 {
            Some(lhs.wrapping_sub(rhs))
        } else if funct3 == 5 {
            Some(#[verifier::truncate] ((a >> shamt) as u32))
        } else {
            None
        }
    } else if funct7 == 0x01 {
        if funct3 == 0 {
            Some(lhs.wrapping_mul(rhs))
        } else if funct3 == 4 {
            if rhs == 0 {
                Some(u32::MAX)
            } else {
                proof {
                    lemma_trunc_div_range(a as int, b as int);
                }
                match a.checked_div(b) {
                    Some(q) => {
                        proof {
                            lemma_word_casts(0, 0, 0, q);
                        }
                        Some(#[verifier::truncate] (q as u32))
                    },
                    None => Some(lhs),
                }
            }
        } else if funct3 == 5 {
            Some(if rhs == 0 { u32::MAX } else { lhs / rhs })
        } else if funct3 == 6 {
            if rhs == 0 {
                Some(lhs)
            } else {
                proof {
                    lemma_trunc_div_range(a as int, b as int);
                }
                match a.checked_rem(b) {
                    Some(q) => {
                        proof {
                            lemma_word_casts(0, 0, 0, q);
                        }
                        Some(#[verifier::truncate] (q as u32))
                    },
                    None => Some(0),
                }
            }
        } else if funct3 == 7 {
            Some(if rhs == 0 { lhs } else { lhs % rhs })
        } else {
            None
        }
    } else {
        None
    }
}

pub fn handle_opw(cpu: &mut Cpu, instr: u32) -> (r: Result<(), Exception>)
    ensures
        (final(cpu)@, r) == exec_opw(old(cpu)@, instr),
        old(cpu)@.wf() ==> final(cpu)@.wf(),
{
    let rtype = RType::new_with_raw_value(instr);
    let wide_lhs = cpu.x_regs.read(rtype.rs1());
    let wide_rhs = cpu.x_regs.read(rtype.rs2());
    proof {
        lemma_word_casts(wide_lhs, 0, 0, 0);
        lemma_word_casts(wide_rhs, 0, 0, 0);
    }
    let lhs = #[verifier::truncate] (wide_lhs as u32);
    let rhs = #[verifier::truncate] (wide_rhs as u32);
    match compute_opw(rtype.funct3(), rtype.funct7(), lhs, rhs) {
        Some(value) => {
            cpu.x_regs.write(rtype.rd(), sign_extend(value as u64, 0x8000_0000));
            Ok(())
        },
        None => Err(Exception::IllegalInstruction),
    }
}

} // verus!
