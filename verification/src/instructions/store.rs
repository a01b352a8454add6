//! The stores.
use crate::components::trap::Exception;
use crate::cpu::{Cpu, CpuView};
use crate::instructions::load::{access_size, spec_access_size};
use crate::instructions::types::{spec_funct3, spec_imm_s, spec_rs1, spec_rs2, SType};
use vstd::prelude::*;

verus! {

pub const SB: u8 = 0x0;

pub const SH: u8 = 0x1;

pub const SW: u8 = 0x2;

pub const SD: u8 = 0x3;

/// What a store instruction does: it writes the low bytes of the second
/// source register at the first source register plus the immediate, or
/// raises what the access raises.
pub open spec fn exec_store(s: CpuView, instr: u32) -> (CpuView, Result<(), Exception>) {
    let addr = s.x[spec_rs1(instr) as int].wrapping_add(spec_imm_s(instr));
    s.store(addr, s.x[spec_rs2(instr) as int], spec_access_size(spec_funct3(instr)))
}

pub fn handle_store(cpu: &mut Cpu, instr: u32) -> (r: Result<(), Exception>)
    ensures
        (final(cpu)@, r) == exec_store(old(cpu)@, instr),
        old(cpu)@.wf() ==> final(cpu)@.wf(),
{
    let stype = SType::new_with_raw_value(instr);
    let size = access_size(stype.funct3());
    let addr = cpu.x_regs.read(stype.rs1()).wrapping_add(stype.imm());
    let value = cpu.x_regs.read(stype.rs2());
    cpu.store(addr, value, size)
}

} // verus!
