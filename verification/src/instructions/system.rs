//! The system instructions: environment calls, returns from traps, the wait
//! for interrupt, and the accesses to control and status registers.
use crate::components::csr::{
    csr_wf, csr_write, merge_bits, Csr, CSR_SIZE, MEPC, MSTATUS, MSTATUS_WRITABLE, SEPC,
};
use crate::components::trap::Exception;
use crate::cpu::{Cpu, CpuView, PrivilegeMode};
use crate::instructions::types::{imm12, spec_funct3, spec_imm12, spec_rd, spec_rs1, IType};
use crate::util::{spec_bit, spec_set_bit, spec_set_field};
use vstd::prelude::*;

verus! {

/// Read/Write CSR
pub const CSRRW: u8 = 0x1;

/// Read and Set Bits in CSR
pub const CSRRS: u8 = 0x2;

/// Read and Clear Bits in CSR
pub const CSRRC: u8 = 0x3;

/// The same three with the register field taken as an immediate.
pub const CSRRWI: u8 = 0x5;

pub const CSRRSI: u8 = 0x6;

pub const CSRRCI: u8 = 0x7;

/// Return from a trap taken into supervisor mode.
pub const SRET: u64 = 0x102;

/// Return from a trap taken into machine mode.
pub const MRET: u64 = 0x302;

pub const WFI: u64 = 0x105;

pub const ECALL: u64 = 0x0;

pub const EBREAK: u64 = 0x1;

/// The environment call exception of a mode.
pub open spec fn ecall_exception(mode: PrivilegeMode) -> Exception {
    match mode {
        PrivilegeMode::User => Exception::EnvironmentCallFromUMode,
        PrivilegeMode::Supervisor => Exception::EnvironmentCallFromSMode,
        PrivilegeMode::Machine => Exception::EnvironmentCallFromMMode,
        PrivilegeMode::Reserved => Exception::IllegalInstruction,
    }
}

/// The status register after a return from supervisor mode: the interrupt
/// enable is restored from its saved value, which becomes 1; the previous
/// mode becomes user mode; the modify-privilege bit is cleared.
pub open spec fn status_after_sret(status: u64) -> u64 {
    spec_set_bit(
        spec_set_bit(spec_set_bit(spec_set_bit(status, 1, spec_bit(status, 5)), 5, true), 8, false),
        17,
        false,
    )
}

/// The status register after a return from machine mode to `mode`: the
/// interrupt enable is restored from its saved value, which becomes 1; the
/// previous mode becomes user mode; the modify-privilege bit is cleared
/// unless the hart stays in machine mode.
pub open spec fn status_after_mret(status: u64, mode: PrivilegeMode) -> u64 {
    popped_status(status, mode != PrivilegeMode::Machine)
}

/// The status register with the machine interrupt stack popped, and the
/// modify-privilege bit cleared if `clear_mprv` says so.
pub open spec fn popped_status(status: u64, clear_mprv: bool) -> u64 {
    let popped = spec_set_field(
        spec_set_bit(spec_set_bit(status, 3, spec_bit(status, 7)), 7, true),
        11,
        3,
        0,
    );
    if clear_mprv {
        spec_set_bit(popped, 17, false)
    } else {
        popped
    }
}

/// The state after a return from a trap taken into supervisor mode: the
/// hart is at the supervisor exception program counter, in the mode that
/// the status register recorded.
pub open spec fn exec_sret(s: CpuView) -> CpuView {
    let status = s.csr[MSTATUS as int];
    CpuView {
        pc: s.csr[SEPC as int],
        mode: if spec_bit(status, 8) {
            PrivilegeMode::Supervisor
        } else {
            PrivilegeMode::User
        },
        csr: csr_write(s.csr, MSTATUS as int, status_after_sret(status)),
        ..s
    }
}

/// The state after a return from a trap taken into machine mode: the hart
/// is at the machine exception program counter, in the mode that the
/// status register recorded.
pub open spec fn exec_mret(s: CpuView) -> CpuView {
    let mode = s.mstatus().spec_mpp();
    CpuView {
        pc: s.csr[MEPC as int],
        mode,
        csr: csr_write(s.csr, MSTATUS as int, status_after_mret(s.csr[MSTATUS as int], mode)),
        ..s
    }
}

/// What a CSR instruction does: the register at `csr_addr` takes the
/// operand, or its old value with the operand's bits set or cleared, and
/// the destination register takes the old value. The operand is the first
/// source register, or the number of that register where the function
/// field is 4 or more. The function fields 0 and 4 are illegal.
pub open spec fn exec_zicsr(s: CpuView, rd: u8, rsi: u8, csr_addr: u64, funct3: u8) -> (
    CpuView,
    Result<(), Exception>,
) {
    let operand = if funct3 >= 4 {
        rsi as u64
    } else {
        s.x[rsi as int]
    };
    match Csr::spec_read(s.csr, csr_addr as usize) {
        Err(e) => (s, Err(e)),
        Ok(csr_val) => {
            let new_val = if funct3 % 4 == CSRRW {
                Some(operand)
            } else if funct3 % 4 == CSRRS {
                Some(csr_val | operand)
            } else if funct3 % 4 == CSRRC {
                Some(csr_val & !operand)
            } else {
                None
            };
            match new_val {
                None => (s, Err(Exception::IllegalInstruction)),
                Some(v) => (
                    CpuView { csr: csr_write(s.csr, csr_addr as int, v), ..s }.write_reg(
                        rd,
                        csr_val,
                    ),
                    Ok(()),
                ),
            }
        },
    }
}

/// What a system instruction does. With function field 0 the immediate
/// selects an environment call, a breakpoint, a return from a trap or a
/// wait for interrupt, and anything else does nothing; every other function
/// field is a CSR instruction on the register that the immediate names.
pub open spec fn exec_system(s: CpuView, instr: u32) -> (CpuView, Result<(), Exception>) {
    let csr_addr = spec_imm12(instr);
    if spec_funct3(instr) == 0 {
        if csr_addr == ECALL {
            (s, Err(ecall_exception(s.mode)))
        } else if csr_addr == EBREAK {
            (s, Err(Exception::Breakpoint))
        } else if csr_addr == SRET {
            (exec_sret(s), Ok(()))
        } else if csr_addr == MRET {
            (exec_mret(s), Ok(()))
        } else if csr_addr == WFI {
            (CpuView { idle: true, ..s }, Ok(()))
        } else {
            (s, Ok(()))
        }
    } else {
        exec_zicsr(s, spec_rd(instr), spec_rs1(instr), csr_addr, spec_funct3(instr))
    }
}

pub fn handle_system(cpu: &mut Cpu, instr: u32) -> (r: Result<(), Exception>)
    ensures
        (final(cpu)@, r) == exec_system(old(cpu)@, instr),
        old(cpu)@.wf() ==> final(cpu)@.wf(),
{
    let itype = IType::new_with_raw_value(instr);
    let (rd, funct3, rsi) = (itype.rd(), itype.funct3(), itype.rs1());
    let csr_addr = imm12(instr);
    if funct3 == 0 {
        if csr_addr == ECALL {
            instr_ecall(cpu)?;
        } else if csr_addr == EBREAK {
            instr_ebreak()?;
        } else if csr_addr == SRET {
            instr_sret(cpu);
        } else if csr_addr == MRET {
            instr_mret(cpu);
        } else if csr_addr == WFI {
            instr_wfi(cpu);
        }
        return Ok(());
    }
    handle_zicsr(cpu, rd, rsi, csr_addr, funct3)
}

pub fn handle_zicsr(cpu: &mut Cpu, rd: u8, rsi: u8, csr_addr: u64, funct3: u8) -> (r: Result<
    (),
    Exception,
>)
    requires
        rd < 32,
        rsi < 32,
        csr_addr < 0x1000,
    ensures
        (final(cpu)@, r) == exec_zicsr(old(cpu)@, rd, rsi, csr_addr, funct3),
        old(cpu)@.wf() ==> final(cpu)@.wf(),
{
    let rs_val = if funct3 >= 4 {
        rsi as u64
    } else {
        cpu.x_regs.read(rsi)
    };
    let addr = csr_addr as usize;
    let csr_val = cpu.csr.read(addr)?;
    let op = funct3 % 4;
    if op == CSRRW {
        cpu.csr.write(addr, rs_val)?;
    } else if op == CSRRS {
        cpu.csr.write(addr, csr_val | rs_val)?;
    } else if op == CSRRC {
        cpu.csr.write(addr, csr_val & !rs_val)?;
    } else {
        return Err(Exception::IllegalInstruction);
    }
    cpu.x_regs.write(rd, csr_val);
    Ok(())
}

pub fn instr_ecall(cpu: &Cpu) -> (r: Result<(), Exception>)
    ensures
        r == Err::<(), Exception>(ecall_exception(cpu@.mode)),
{
    match cpu.p_mode {
        PrivilegeMode::User => Err(Exception::EnvironmentCallFromUMode),
        PrivilegeMode::Supervisor => Err(Exception::EnvironmentCallFromSMode),
        PrivilegeMode::Machine => Err(Exception::EnvironmentCallFromMMode),
        PrivilegeMode::Reserved => Err(Exception::IllegalInstruction),
    }
}

pub fn instr_ebreak() -> (r: Result<(), Exception>)
    ensures
        r == Err::<(), Exception>(Exception::Breakpoint),
{
    Err(Exception::Breakpoint)
}

pub fn instr_sret(cpu: &mut Cpu)
    ensures
        final(cpu)@ == exec_sret(old(cpu)@),
        old(cpu)@.wf() ==> final(cpu)@.wf(),
{
    cpu.pc = cpu.csr.get(SEPC);
    let mut mstatus = cpu.csr.read_mstatus();
    cpu.p_mode = if mstatus.spp() {
        PrivilegeMode::Supervisor
    } else {
        PrivilegeMode::User
    };
    mstatus.set_sie(mstatus.spie());
    mstatus.set_spie(true);
    mstatus.set_spp(false);
    mstatus.set_mprv(false);
    cpu.csr.write_mstatus(&mstatus);
}

pub fn instr_mret(cpu: &mut Cpu)
    ensures
        final(cpu)@ == exec_mret(old(cpu)@),
        old(cpu)@.wf() ==> final(cpu)@.wf(),
{
    cpu.pc = cpu.csr.get(MEPC);
    let mut mstatus = cpu.csr.read_mstatus();
    cpu.p_mode = mstatus.mpp();
    mstatus.set_mie(mstatus.mpie());
    mstatus.set_mpie(true);
    mstatus.set_mpp(PrivilegeMode::User);
    if cpu.p_mode != PrivilegeMode::Machine {
        mstatus.set_mprv(false);
    }
    cpu.csr.write_mstatus(&mstatus);
}

pub fn instr_wfi(cpu: &mut Cpu)
    ensures
        final(cpu)@ == (CpuView { idle: true, ..old(cpu)@ }),
{
    cpu.is_idle = true;
}

proof fn lemma_popped_status(status: u64, clear_mprv: bool)
    by (bit_vector)
    ensures
        spec_bit(merge_bits(status, popped_status(status, clear_mprv), MSTATUS_WRITABLE), 3)
            == spec_bit(status, 7),
        spec_bit(merge_bits(status, popped_status(status, clear_mprv), MSTATUS_WRITABLE), 7),
        crate::util::spec_field(
            merge_bits(status, popped_status(status, clear_mprv), MSTATUS_WRITABLE),
            11,
            3,
        ) == 0,
        clear_mprv ==> !spec_bit(
            merge_bits(status, popped_status(status, clear_mprv), MSTATUS_WRITABLE),
            17,
        ),
{
}

/// After a return from machine mode the interrupt enable is the saved
/// interrupt enable from before, the saved interrupt enable is set, the
/// previous mode is user mode, the hart is in the previous mode from
/// before, and unless that is machine mode the modify-privilege bit is
/// clear.
pub proof fn lemma_mret(s: CpuView)
    requires
        s.csr.len() == CSR_SIZE,
    ensures
        exec_mret(s).mstatus().spec_mie() == s.mstatus().spec_mpie(),
        exec_mret(s).mstatus().spec_mpie(),
        exec_mret(s).mstatus().spec_mpp() == PrivilegeMode::User,
        exec_mret(s).mode == s.mstatus().spec_mpp(),
        exec_mret(s).mode != PrivilegeMode::Machine ==> !exec_mret(s).mstatus().spec_mprv(),
        exec_mret(s).pc == s.csr[MEPC as int],
{
    lemma_popped_status(s.csr[MSTATUS as int], s.mstatus().spec_mpp() != PrivilegeMode::Machine);
}

} // verus!
