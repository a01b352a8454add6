//! The loads.
use crate::components::mmu::Size;
use crate::components::trap::Exception;
use crate::cpu::{Cpu, CpuView};
use crate::instructions::types::{spec_funct3, spec_imm_i, spec_rd, spec_rs1, IType};
use crate::util::{lemma_pow256_values, sign_extend, sign_extend_spec};
use vstd::prelude::*;

verus! {

pub const LB: u8 = 0x0;

pub const LH: u8 = 0x1;

pub const LW: u8 = 0x2;

pub const LD: u8 = 0x3;

pub const LBU: u8 = 0x4;

pub const LHU: u8 = 0x5;

pub const LWU: u8 = 0x6;

/// The width of a load or store: two to the power of the low two bits of
/// the function field.
pub open spec fn spec_access_size(funct3: u8) -> Size {
    if funct3 % 4 == 0 {
        Size::BYTE
    } else if funct3 % 4 == 1 {
        Size::HWORD
    } else if funct3 % 4 == 2 {
        Size::WORD
    } else {
        Size::DWORD
    }
}

/// What a load writes to its destination: the byte, half word or word read
/// is sign-extended where the function field is below 4, and taken as it
/// is otherwise.
pub open spec fn extend_loaded(funct3: u8, value: u64) -> u64 {
    if funct3 == LB {
        sign_extend_spec(value, 0x80)
    } else if funct3 == LH {
        sign_extend_spec(value, 0x8000)
    } else if funct3 == LW {
        sign_extend_spec(value, 0x8000_0000)
    } else {
        value
    }
}

/// What a load instruction does: it reads at the first source register
/// plus the immediate and writes the destination register, or raises what
/// the access raises.
pub open spec fn exec_load(s: CpuView, instr: u32) -> (CpuView, Result<(), Exception>) {
    let funct3 = spec_funct3(instr);
    let addr = s.x[spec_rs1(instr) as int].wrapping_add(spec_imm_i(instr));
    let (after, r) = s.load(addr, spec_access_size(funct3));
    match r {
        Ok(value) => (after.write_reg(spec_rd(instr), extend_loaded(funct3, value)), Ok(())),
        Err(e) => (after, Err(e)),
    }
}

#[verifier::when_used_as_spec(spec_access_size)]
pub fn access_size(funct3: u8) -> (r: Size)
    ensures
        r == spec_access_size(funct3),
{
    let low = funct3 % 4;
    if low == 0 {
        Size::BYTE
    } else if low == 1 {
        Size::HWORD
    } else if low == 2 {
        Size::WORD
    } else {
        Size::DWORD
    }
}

pub fn handle_load(cpu: &mut Cpu, instr: u32) -> (r: Result<(), Exception>)
    ensures
        (final(cpu)@, r) == exec_load(old(cpu)@, instr),
        old(cpu)@.wf() ==> final(cpu)@.wf(),
{
    let itype = IType::new_with_raw_value(instr);
    let funct3 = itype.funct3();
    let addr = cpu.x_regs.read(itype.rs1()).wrapping_add(itype.imm());
    let val = cpu.load(addr, access_size(funct3))?;
    proof {
        lemma_pow256_values();
    }
    let value = if funct3 == LB {
        sign_extend(val, 0x80)
    } else if funct3 == LH {
        sign_extend(val, 0x8000)
    } else if funct3 == LW {
        sign_extend(val, 0x8000_0000)
    } else {
        val
    };
    cpu.x_regs.write(itype.rd(), value);
    Ok(())
}

} // verus!
