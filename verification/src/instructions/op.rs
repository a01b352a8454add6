//! The register-register operations on 64 bits.
use crate::components::trap::Exception;
use crate::cpu::{Cpu, CpuView};
use crate::instructions::types::{spec_funct3, spec_funct7, spec_rd, spec_rs1, spec_rs2, RType};
use crate::util::{
    lemma_trunc_div_range, lemma_word_casts, signed64, trunc_div, trunc_rem, unsigned64,
};
use vstd::prelude::*;

verus! {

/// The upper 64 bits of a 128-bit product.
pub open spec fn high_half(product: int) -> u64 {
    ((product as i128) >> 64) as u64
}

/// The result of a register-register operation of the base and multiply
/// extensions on 64-bit operands, or `None` where the two function fields
/// select no operation. Shifts take their amount from the low six bits of
/// the second operand. A division by zero gives all ones, a remainder by
/// zero the dividend; the one signed quotient that does not fit gives the
/// dividend back, with remainder 0.
pub open spec fn alu(funct3: u8, funct7: u8, lhs: u64, rhs: u64) -> Option<u64> {
    let shamt = rhs & 0x3f;
    if funct7 == 0x00 {
        if funct3 == 0 {
            Some(lhs.wrapping_add(rhs))
        } else if funct3 == 1 {
            Some(lhs << shamt)
        } else if funct3 == 2 {
            Some(if signed64(lhs) < signed64(rhs) { 1u64 } else { 0u64 })
        } else if funct3 == 3 {
            Some(if lhs < rhs { 1u64 } else { 0u64 })
        } else if funct3 == 4 {
            Some(lhs ^ rhs)
        } else if funct3 == 5 {
            Some(lhs >> shamt)
        } else if funct3 == 6 {
            Some(lhs | rhs)
        } else if funct3 == 7 {
            Some(lhs & rhs)
        } else {
            None
        }
    } else if funct7 == 0x20 {
        if funct3 == 0 {
            Some(lhs.wrapping_sub(rhs))
        } else if funct3 == 5 {
            Some(((lhs as i64) >> shamt) as u64)
        } else {
            None
        }
    } else if funct7 == 0x01 {
        if funct3 == 0 {
            Some(lhs.wrapping_mul(rhs))
        } else if funct3 == 1 {
            Some(high_half(signed64(lhs) * signed64(rhs)))
        } else if funct3 == 2 {
            Some(high_half(signed64(lhs) * rhs))
        } else if funct3 == 3 {
            Some(((lhs * rhs) / 0x1_0000_0000_0000_0000) as u64)
        } else if funct3 == 4 {
            Some(
                if rhs == 0 {
                    u64::MAX
                } else {
                    unsigned64(trunc_div(signed64(lhs), signed64(rhs)))
                },
            )
        } else if funct3 == 5 {
            Some(if rhs == 0 { u64::MAX } else { lhs / rhs })
        } else if funct3 == 6 {
            Some(
                if rhs == 0 {
                    lhs
                } else {
                    unsigned64(trunc_rem(signed64(lhs), signed64(rhs)))
                },
            )
        } else if funct3 == 7 {
            Some(if rhs == 0 { lhs } else { lhs % rhs })
        } else {
            None
        }
    } else {
        None
    }
}

/// What a register-register instruction does: the result goes to the
/// destination register; an unknown operation is an illegal instruction.
pub open spec fn exec_op(s: CpuView, instr: u32) -> (CpuView, Result<(), Exception>) {
    match alu(
        spec_funct3(instr),
        spec_funct7(instr),
        s.x[spec_rs1(instr) as int],
        s.x[spec_rs2(instr) as int],
    ) {
        Some(value) => (s.write_reg(spec_rd(instr), value), Ok(())),
        None => (s, Err(Exception::IllegalInstruction)),
    }
}

/// Computes a register-register operation.
pub fn compute_op(funct3: u8, funct7: u8, lhs: u64, rhs: u64) -> (r: Option<u64>)
    ensures
        r == alu(funct3, funct7, lhs, rhs),
{
    proof {
        lemma_word_casts(lhs, 0, 0, 0);
        lemma_word_casts(rhs, 0, 0, 0);
    }
    let shamt = rhs & 0x3f;
    let a: i64 = #[verifier::truncate] (lhs as i64);
    let b: i64 = #[verifier::truncate] (rhs as i64);
    if funct7 == 0x00 {
        if funct3 == 0 {
            Some(lhs.wrapping_add(rhs))
        } else if funct3 == 1 {
            Some(lhs << shamt)
        } else if funct3 == 2 {
            Some(if a < b { 1 } else { 0 })
        } else if funct3 == 3 {
            Some(if lhs < rhs { 1 } else { 0 })
        } else if funct3 == 4 {
            Some(lhs ^ rhs)
        } else if funct3 == 5 {
            Some(lhs >> shamt)
        } else if funct3 == 6 {
            Some(lhs | rhs)
        } else if funct3 == 7 {
            Some(lhs & rhs)
        } else {
            None
        }
    } else if funct7 == 0x20 {
        if funct3 == 0 {
            Some(lhs.wrapping_sub(rhs))
        } else if funct3 == 5 {
            Some(#[verifier::truncate] ((a >> shamt) as u64))
        } else {
            None
        }
    } else if funct7 == 0x01 {
        if funct3 == 0 {
            Some(lhs.wrapping_mul(rhs))
        } else if funct3 == 1 {
            assert(-0x4000_0000_0000_0000_0000_0000_0000_0000 <= a * b
                <= 0x4000_0000_0000_0000_0000_0000_0000_0000) by (nonlinear_arith)
                requires
                    -0x8000_0000_0000_0000 <= a <= 0x7fff_ffff_ffff_ffff,
                    -0x8000_0000_0000_0000 <= b <= 0x7fff_ffff_ffff_ffff,
            ;
            let p: i128 = (a as i128) * (b as i128);
            Some(#[verifier::truncate] ((p >> 64) as u64))
        } else if funct3 == 2 {
            assert(-0x8000_0000_0000_0000_0000_0000_0000_0000 <= a * rhs
                <= 0x7fff_ffff_ffff_ffff_ffff_ffff_ffff_ffff) by (nonlinear_arith)
                requires
                    -0x8000_0000_0000_0000 <= a <= 0x7fff_ffff_ffff_ffff,
                    0 <= rhs <= 0xffff_ffff_ffff_ffff,
            ;
            let p: i128 = (a as i128) * (rhs as i128);
            Some(#[verifier::truncate] ((p >> 64) as u64))
        } else if funct3 == 3 {
            assert(0 <= lhs * rhs <= 0xffff_ffff_ffff_fffe_0000_0000_0000_0001) by (nonlinear_arith)
                requires
                    0 <= lhs <= 0xffff_ffff_ffff_ffff,
                    0 <= rhs <= 0xffff_ffff_ffff_ffff,
            ;
            let p: u128 = (lhs as u128) * (rhs as u128);
            Some((p / 0x1_0000_0000_0000_0000) as u64)
        } else if funct3 == 4 {
            if rhs == 0 {
                Some(u64::MAX)
            } else {
                proof {
                    lemma_trunc_div_range(a as int, b as int);
                }
                match a.checked_div(b) {
                    Some(q) => {
                        proof {
                            lemma_word_casts(0, q, 0, 0);
                        }
                        Some(#[verifier::truncate] (q as u64))
                    },
                    None => Some(lhs),
                }
            }
        } else if funct3 == 5 {
            Some(if rhs == 0 { u64::MAX } else { lhs / rhs })
        } else if funct3 == 6 {
            if rhs == 0 {
                Some(lhs)
            } else {
                proof {
                    lemma_trunc_div_range(a as int, b as int);
                }
                match a.checked_rem(b) {
                    Some(q) => {
                        proof {
                            lemma_word_casts(0, q, 0, 0);
                        }
                        Some(#[verifier::truncate] (q as u64))
                    },
                    None => Some(0),
                }
            }
        } else if funct3 == 7 {
            Some(if rhs == 0 { lhs } else { lhs % rhs })
        } else {
            None
        }
    } else {
        None
    }
}

pub fn handle_op(cpu: &mut Cpu, instr: u32) -> (r: Result<(), Exception>)
    ensures
        (final(cpu)@, r) == exec_op(old(cpu)@, instr),
        old(cpu)@.wf() ==> final(cpu)@.wf(),
{
    let rtype = RType::new_with_raw_value(instr);
    let lhs = cpu.x_regs.read(rtype.rs1());
    let rhs = cpu.x_regs.read(rtype.rs2());
    match compute_op(rtype.funct3(), rtype.funct7(), lhs, rhs) {
        Some(value) => {
            cpu.x_regs.write(rtype.rd(), value);
            Ok(())
        },
        None => Err(Exception::IllegalInstruction),
    }
}

} // verus!
