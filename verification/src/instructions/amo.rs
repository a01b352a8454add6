//! The atomic instructions: load-reserved, store-conditional and the atomic
//! memory operations.
use crate::components::mmu::Size;
use crate::components::trap::Exception;
use crate::cpu::{Cpu, CpuView};
use crate::instructions::types::{
    spec_funct3, spec_funct5, spec_rd, spec_rs1, spec_rs2, ARType,
};
use crate::util::{lemma_pow256_values, lemma_word_casts, sign_extend, sign_extend_spec, signed64};
use vstd::prelude::*;

verus! {

pub const LR: u8 = 0x2;

pub const SC: u8 = 0x3;

pub const AMOSWAP: u8 = 0x1;

pub const AMOADD: u8 = 0x0;

pub const AMOXOR: u8 = 0x4;

pub const AMOAND: u8 = 0xc;

pub const AMOOR: u8 = 0x8;

pub const AMOMIN: u8 = 0x10;

pub const AMOMAX: u8 = 0x14;

pub const AMOMINU: u8 = 0x18;

pub const AMOMAXU: u8 = 0x1c;

/// The function field of an atomic operation on a word.
pub const AMMO_W: u8 = 0x2;

/// The function field of an atomic operation on a double word.
pub const AMMO_D: u8 = 0x3;

/// The width that the function field of an atomic instruction selects.
pub open spec fn amo_size(funct3: u8) -> Option<Size> {
    if funct3 == AMMO_W {
        Some(Size::WORD)
    } else if funct3 == AMMO_D {
        Some(Size::DWORD)
    } else {
        None
    }
}

/// An atomic access must be naturally aligned; whatever the access, an
/// address that is not raises a misaligned load address at that address.
pub open spec fn spec_check_alignment(address: u64, size: Size) -> Result<(), Exception> {
    if address % size.spec_bytes() != 0 {
        Err(Exception::LoadAddressMisaligned(address))
    } else {
        Ok(())
    }
}

/// The value that an atomic instruction loads, with its width, and the
/// state that loading leaves: a word is sign-extended. An unknown width is
/// an illegal instruction, and the alignment is checked before the access.
pub open spec fn amo_load(s: CpuView, funct3: u8, address: u64) -> (
    CpuView,
    Result<(u64, Size), Exception>,
) {
    match amo_size(funct3) {
        None => (s, Err(Exception::IllegalInstruction)),
        Some(size) => match spec_check_alignment(address, size) {
            Err(e) => (s, Err(e)),
            Ok(_) => {
                let (after, r) = s.load(address, size);
                match r {
                    Err(e) => (after, Err(e)),
                    Ok(value) => (
                        after,
                        Ok(
                            (
                                if size == Size::WORD {
                                    sign_extend_spec(value, 0x8000_0000)
                                } else {
                                    value
                                },
                                size,
                            ),
                        ),
                    ),
                }
            },
        },
    }
}

/// What an atomic memory operation stores, given what it loaded and the
/// second source register; `None` where the field selects no operation.
pub open spec fn amo_result(funct5: u8, loaded: u64, rhs: u64) -> Option<u64> {
    if funct5 == AMOSWAP {
        Some(rhs)
    } else if funct5 == AMOADD {
        Some(loaded.wrapping_add(rhs))
    } else if funct5 == AMOXOR {
        Some(loaded ^ rhs)
    } else if funct5 == AMOAND {
        Some(loaded & rhs)
    } else if funct5 == AMOOR {
        Some(loaded | rhs)
    } else if funct5 == AMOMIN {
        Some(if signed64(loaded) <= signed64(rhs) { loaded } else { rhs })
    } else if funct5 == AMOMAX {
        Some(if signed64(loaded) >= signed64(rhs) { loaded } else { rhs })
    } else if funct5 == AMOMINU {
        Some(if loaded <= rhs { loaded } else { rhs })
    } else if funct5 == AMOMAXU {
        Some(if loaded >= rhs { loaded } else { rhs })
    } else {
        None
    }
}

/// What a load-reserved does: it loads from the address in the first
/// source register, reserves that address and writes the destination.
pub open spec fn exec_lr(s: CpuView, rd: u8, rs1: u8, funct3: u8) -> (
    CpuView,
    Result<(), Exception>,
) {
    let address = s.x[rs1 as int];
    let (after, r) = amo_load(s, funct3, address);
    match r {
        Err(e) => (after, Err(e)),
        Ok((value, _)) => (
            CpuView { reservation: Some(address), ..after }.write_reg(rd, value),
            Ok(()),
        ),
    }
}

/// What a store-conditional does: if the address in the first source
/// register is the reserved one, it stores the second source register there
/// and writes 0 to the destination; otherwise it stores nothing and writes
/// 1. Either way the reservation is gone. A store that faults leaves the
/// registers and the reservation as they were.
pub open spec fn exec_sc(s: CpuView, rd: u8, rs1: u8, rs2: u8, funct3: u8) -> (
    CpuView,
    Result<(), Exception>,
) {
    let address = s.x[rs1 as int];
    match amo_size(funct3) {
        None => (s, Err(Exception::IllegalInstruction)),
        Some(size) => match spec_check_alignment(address, size) {
            Err(e) => (s, Err(e)),
            Ok(_) => if s.reservation == Some(address) {
                let (after, r) = s.store(address, s.x[rs2 as int], size);
                match r {
                    Err(e) => (after, Err(e)),
                    Ok(_) => (CpuView { reservation: None, ..after }.write_reg(rd, 0), Ok(())),
                }
            } else {
                (CpuView { reservation: None, ..s }.write_reg(rd, 1), Ok(()))
            },
        },
    }
}

/// What an atomic memory operation does: it loads from the address in the
/// first source register, stores there what the operation makes of the
/// loaded value and the second source register, and writes the loaded
/// value to the destination.
pub open spec fn exec_amo_op(s: CpuView, rd: u8, rs1: u8, rs2: u8, funct3: u8, funct5: u8) -> (
    CpuView,
    Result<(), Exception>,
) {
    let address = s.x[rs1 as int];
    let (loaded, r) = amo_load(s, funct3, address);
    match r {
        Err(e) => (loaded, Err(e)),
        Ok((value, size)) => match amo_result(funct5, value, s.x[rs2 as int]) {
            None => (loaded, Err(Exception::IllegalInstruction)),
            Some(new_value) => {
                let (stored, r) = loaded.store(address, new_value, size);
                match r {
                    Err(e) => (stored, Err(e)),
                    Ok(_) => (stored.write_reg(rd, value), Ok(())),
                }
            },
        },
    }
}

/// What an atomic instruction does. An operation field that selects
/// nothing is an illegal instruction, and nothing is accessed.
pub open spec fn exec_amo(s: CpuView, instr: u32) -> (CpuView, Result<(), Exception>) {
    let funct5 = spec_funct5(instr);
    let (rd, rs1, rs2, funct3) = (
        spec_rd(instr),
        spec_rs1(instr),
        spec_rs2(instr),
        spec_funct3(instr),
    );
    if funct5 == LR {
        exec_lr(s, rd, rs1, funct3)
    } else if funct5 == SC {
        exec_sc(s, rd, rs1, rs2, funct3)
    } else if amo_result(funct5, 0, 0) is Some {
        exec_amo_op(s, rd, rs1, rs2, funct3, funct5)
    } else {
        (s, Err(Exception::IllegalInstruction))
    }
}

#[verifier::when_used_as_spec(spec_check_alignment)]
pub fn check_alignment(address: u64, size: Size) -> (r: Result<(), Exception>)
    ensures
        r == spec_check_alignment(address, size),
{
    if address % size.bytes() != 0 {
        return Err(Exception::LoadAddressMisaligned(address));
    }
    Ok(())
}

pub fn amo_load_value(cpu: &mut Cpu, funct3: u8, address: u64) -> (r: Result<
    (u64, Size),
    Exception,
>)
    ensures
        (final(cpu)@, r) == amo_load(old(cpu)@, funct3, address),
        old(cpu)@.wf() ==> final(cpu)@.wf(),
{
    if funct3 == AMMO_W {
        check_alignment(address, Size::WORD)?;
        let value = cpu.load(address, Size::WORD)?;
        proof {
            lemma_pow256_values();
        }
        Ok((sign_extend(value, 0x8000_0000), Size::WORD))
    } else if funct3 == AMMO_D {
        check_alignment(address, Size::DWORD)?;
        let value = cpu.load(address, Size::DWORD)?;
        Ok((value, Size::DWORD))
    } else {
        Err(Exception::IllegalInstruction)
    }
}

/// Computes what an atomic memory operation stores.
pub fn amo_compute(funct5: u8, loaded: u64, rhs: u64) -> (r: Option<u64>)
    ensures
        r == amo_result(funct5, loaded, rhs),
{
    proof {
        lemma_word_casts(loaded, 0, 0, 0);
        lemma_word_casts(rhs, 0, 0, 0);
    }
    let a: i64 = #[verifier::truncate] (loaded as i64);
    let b: i64 = #[verifier::truncate] (rhs as i64);
    if funct5 == AMOSWAP {
        Some(rhs)
    } else if funct5 == AMOADD {
        Some(loaded.wrapping_add(rhs))
    } else if funct5 == AMOXOR {
        Some(loaded ^ rhs)
    } else if funct5 == AMOAND {
        Some(loaded & rhs)
    } else if funct5 == AMOOR {
        Some(loaded | rhs)
    } else if funct5 == AMOMIN {
        Some(if a <= b { loaded } else { rhs })
    } else if funct5 == AMOMAX {
        Some(if a >= b { loaded } else { rhs })
    } else if funct5 == AMOMINU {
        Some(if loaded <= rhs { loaded } else { rhs })
    } else if funct5 == AMOMAXU {
        Some(if loaded >= rhs { loaded } else { rhs })
    } else {
        None
    }
}

pub fn instr_lr(cpu: &mut Cpu, rd: u8, rs1: u8, funct3: u8) -> (r: Result<(), Exception>)
    requires
        rd < 32,
        rs1 < 32,
    ensures
        (final(cpu)@, r) == exec_lr(old(cpu)@, rd, rs1, funct3),
        old(cpu)@.wf() ==> final(cpu)@.wf(),
{
    let address = cpu.x_regs.read(rs1);
    let (value, _) = amo_load_value(cpu, funct3, address)?;
    cpu.reservation = Some(address);
    cpu.x_regs.write(rd, value);
    Ok(())
}

pub fn instr_sc(cpu: &mut Cpu, rd: u8, rs1: u8, rs2: u8, funct3: u8) -> (r: Result<(), Exception>)
    requires
        rd < 32,
        rs1 < 32,
        rs2 < 32,
    ensures
        (final(cpu)@, r) == exec_sc(old(cpu)@, rd, rs1, rs2, funct3),
        old(cpu)@.wf() ==> final(cpu)@.wf(),
{
    let address = cpu.x_regs.read(rs1);
    let size = if funct3 == AMMO_W {
        Size::WORD
    } else if funct3 == AMMO_D {
        Size::DWORD
    } else {
        return Err(Exception::IllegalInstruction);
    };
    check_alignment(address, size)?;
    let reserved = match cpu.reservation {
        Some(raddr) => raddr == address,
        None => false,
    };
    let status = if reserved {
        let value = cpu.x_regs.read(rs2);
        cpu.store(address, value, size)?;
        0
    } else {
        1
    };
    cpu.x_regs.write(rd, status);
    cpu.reservation = None;
    Ok(())
}

pub fn amo_op(cpu: &mut Cpu, rd: u8, rs1: u8, rs2: u8, funct3: u8, funct5: u8) -> (r: Result<
    (),
    Exception,
>)
    requires
        rd < 32,
        rs1 < 32,
        rs2 < 32,
    ensures
        (final(cpu)@, r) == exec_amo_op(old(cpu)@, rd, rs1, rs2, funct3, funct5),
        old(cpu)@.wf() ==> final(cpu)@.wf(),
{
    let address = cpu.x_regs.read(rs1);
    let (value, size) = amo_load_value(cpu, funct3, address)?;
    match amo_compute(funct5, value, cpu.x_regs.read(rs2)) {
        None => Err(Exception::IllegalInstruction),
        Some(new_val) => {
            cpu.store(address, new_val, size)?;
            cpu.x_regs.write(rd, value);
            Ok(())
        },
    }
}

pub fn handle_amo(cpu: &mut Cpu, instr: u32) -> (r: Result<(), Exception>)
    ensures
        (final(cpu)@, r) == exec_amo(old(cpu)@, instr),
        old(cpu)@.wf() ==> final(cpu)@.wf(),
{
    let rtype = ARType::new_with_raw_value(instr);
    let (rd, rs1, rs2, funct3, funct5) = (
        rtype.rd(),
        rtype.rs1(),
        rtype.rs2(),
        rtype.funct3(),
        rtype.funct5(),
    );
    if funct5 == LR {
        instr_lr(cpu, rd, rs1, funct3)
    } else if funct5 == SC {
        instr_sc(cpu, rd, rs1, rs2, funct3)
    } else if amo_compute(funct5, 0, 0).is_some() {
        amo_op(cpu, rd, rs1, rs2, funct3, funct5)
    } else {
        Err(Exception::IllegalInstruction)
    }
}

} // verus!
