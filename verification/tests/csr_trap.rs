use risc_v::components::csr::{
    Csr, MStatus, SStatus, Sapt, CSR_SIZE, MARCHID, MCAUSE, MEDELEG, MEPC, MHARTID, MIDELEG, MIE,
    MIMPID, MIP, MISA, MSTATUS, MTVAL, MTVEC, MVENDORID, SCAUSE, SEPC, SSTATUS, STVAL, STVEC,
};
use risc_v::components::mmu::Size;
use risc_v::components::registers::XRegisters;
use risc_v::components::system_bus::{DRAM_BASE, MROM_BASE, UART0_BASE};
use risc_v::components::trap::{Exception, Interrupt};
use risc_v::cpu::{Cpu, PrivilegeMode};
use risc_v::instructions::decode_and_execute;
use risc_v::instructions::types::{BType, IType, JType, RType, SType, UType, ARType};
use risc_v::util::sign_extend;

#[test]
fn register_zero_reads_zero_after_write() {
    let mut regs = XRegisters::new();
    for id in 0..32 {
        assert_eq!(regs.read(id), 0);
    }
    regs.write(0, 0xdead_beef);
    assert_eq!(regs.read(0), 0);
    regs.write(5, 7);
    assert_eq!(regs.read(5), 7);
    regs.write(XRegisters::zero, 9);
    assert_eq!(regs.read(XRegisters::zero), 0);
    regs.write(XRegisters::t6, u64::MAX);
    assert_eq!(regs.read(31), u64::MAX);
    assert_eq!(regs.read(5), 7);
    assert_eq!(regs.read(0), 0);
}

#[test]
fn register_names() {
    let names = [
        XRegisters::zero, XRegisters::ra, XRegisters::sp, XRegisters::gp, XRegisters::tp,
        XRegisters::t0, XRegisters::t1, XRegisters::t2, XRegisters::s0, XRegisters::s1,
        XRegisters::a0, XRegisters::a1, XRegisters::a2, XRegisters::a3, XRegisters::a4,
        XRegisters::a5, XRegisters::a6, XRegisters::a7, XRegisters::s2, XRegisters::s3,
        XRegisters::s4, XRegisters::s5, XRegisters::s6, XRegisters::s7, XRegisters::s8,
        XRegisters::s9, XRegisters::s10, XRegisters::s11, XRegisters::t3, XRegisters::t4,
        XRegisters::t5, XRegisters::t6,
    ];
    for (number, name) in names.into_iter().enumerate() {
        assert_eq!(name as usize, number);
    }
}

#[test]
fn sign_extension() {
    assert_eq!(sign_extend(0x7ff, 0x800), 0x7ff);
    assert_eq!(sign_extend(0x800, 0x800), 0xffff_ffff_ffff_f800);
    assert_eq!(sign_extend(0xfff, 0x800), u64::MAX);
    assert_eq!(sign_extend(0x80, 0x80), 0xffff_ffff_ffff_ff80);
    assert_eq!(sign_extend(0x7fff_ffff, 0x8000_0000), 0x7fff_ffff);
    assert_eq!(sign_extend(0xffff_ffff, 0x8000_0000), u64::MAX);
    assert_eq!(sign_extend(0, 1), 0);
    assert_eq!(sign_extend(1, 1), u64::MAX);
}

#[test]
fn instruction_fields() {
    // sub x30, x28, x29
    let rtype = RType::new_with_raw_value(0x41de_0f33);
    assert_eq!(rtype.funct7(), 0x20);
    assert_eq!(rtype.rs2(), 29);
    assert_eq!(rtype.rs1(), 28);
    assert_eq!(rtype.funct3(), 0);
    assert_eq!(rtype.rd(), 30);
    // amoadd.d.aq x30, x29, (x28)
    let artype = ARType::new_with_raw_value(0x05de_3f2f);
    assert_eq!(artype.funct5(), 0);
    assert!(artype.aq());
    assert!(!artype.rl());
    assert_eq!(artype.rs2(), 29);
    assert_eq!(artype.rs1(), 28);
    assert_eq!(artype.funct3(), 3);
    assert_eq!(artype.rd(), 30);
    let artype = ARType::new_with_raw_value(0x1bde_3f2f);
    assert_eq!(artype.funct5(), 3);
    assert!(!artype.aq());
    assert!(artype.rl());
}

#[test]
fn immediates() {
    // ld t0, 24(t0)
    let itype = IType::new_with_raw_value(0x0182_b283);
    assert_eq!(itype.imm(), 24);
    assert_eq!(itype.rs1(), 5);
    assert_eq!(itype.rd(), 5);
    assert_eq!(itype.funct3(), 3);
    // addi x1, x2, -1
    assert_eq!(IType::new_with_raw_value(0xfff1_0093).imm(), u64::MAX);
    assert_eq!(IType::new_with_raw_value(0x8001_0093).imm(), (-2048i64) as u64);
    assert_eq!(IType::new_with_raw_value(0x7ff1_0093).imm(), 2047);
    // sd x6, -8(x5)
    let stype = SType::new_with_raw_value(0xfe62_bc23);
    assert_eq!(stype.imm(), (-8i64) as u64);
    assert_eq!(stype.rs2(), 6);
    assert_eq!(stype.rs1(), 5);
    assert_eq!(stype.funct3(), 3);
    // sw x6, 2047(x5)
    assert_eq!(SType::new_with_raw_value(0x7e62_afa3).imm(), 2047);
    // beq x28, x29, +8 and beq x28, x29, -4096
    let btype = BType::new_with_raw_value(0x01de_0463);
    assert_eq!(btype.imm(), 8);
    assert_eq!(btype.rs1(), 28);
    assert_eq!(btype.rs2(), 29);
    assert_eq!(btype.funct3(), 0);
    assert_eq!(BType::new_with_raw_value(0x81de_0063).imm(), (-4096i64) as u64);
    assert_eq!(BType::new_with_raw_value(0x7fde_0fe3).imm(), 4094);
    assert_eq!(BType::new_with_raw_value(0x01de_00e3).imm(), 2048);
    assert_eq!(BType::new_with_raw_value(0xffde_0ee3).imm(), (-4i64) as u64);
    // lui x5, 0x12345 and lui x5, 0x80000
    let utype = UType::new_with_raw_value(0x1234_52b7);
    assert_eq!(utype.imm(), 0x1234_5000);
    assert_eq!(utype.rd(), 5);
    assert_eq!(UType::new_with_raw_value(0x8000_02b7).imm(), 0xffff_ffff_8000_0000);
    // jal x1, +2048; jal x1, -2; jal x1, +0xff000; jal x1, -1048576
    let jtype = JType::new_with_raw_value(0x0010_00ef);
    assert_eq!(jtype.imm(), 2048);
    assert_eq!(jtype.rd(), 1);
    assert_eq!(JType::new_with_raw_value(0xfff_ff0ef).imm(), (-2i64) as u64);
    assert_eq!(JType::new_with_raw_value(0x000f_f0ef).imm(), 0xff000);
    assert_eq!(JType::new_with_raw_value(0x8000_00ef).imm(), (-1048576i64) as u64);
    assert_eq!(JType::new_with_raw_value(0x7fe0_00ef).imm(), 2046);
}

#[test]
fn privilege_mode_encoding() {
    assert_eq!(PrivilegeMode::from_unchecked(0), PrivilegeMode::User);
    assert_eq!(PrivilegeMode::from_unchecked(1), PrivilegeMode::Supervisor);
    assert_eq!(PrivilegeMode::from_unchecked(2), PrivilegeMode::Reserved);
    assert_eq!(PrivilegeMode::from_unchecked(3), PrivilegeMode::Machine);
    assert_eq!(PrivilegeMode::User.bits(), 0);
    assert_eq!(PrivilegeMode::Supervisor.bits(), 1);
    assert_eq!(PrivilegeMode::Reserved.bits(), 2);
    assert_eq!(PrivilegeMode::Machine.bits(), 3);
}

#[test]
fn csr_after_reset() {
    let csr = Csr::new();
    assert_eq!(csr.read(MISA), Ok(0x8000_0000_0000_1101));
    assert_eq!(csr.read(MISA).unwrap() >> 62, 2);
    assert_eq!(csr.read(MVENDORID), Ok(0));
    assert_eq!(csr.read(MARCHID), Ok(0));
    assert_eq!(csr.read(MIMPID), Ok(0));
    assert_eq!(csr.read(MHARTID), Ok(0));
    assert_eq!(csr.read(MSTATUS), Ok(0xa_0000_0000));
    assert_eq!(csr.read_mstatus().sxl(), 2);
    assert_eq!(csr.read_mstatus().uxl(), 2);
    assert_eq!(csr.read(0), Ok(0));
    assert_eq!(csr.read(CSR_SIZE - 1), Ok(0));
    assert_eq!(MSTATUS, 0x300);
    assert_eq!(MISA, 0x301);
    assert_eq!(MEDELEG, 0x302);
    assert_eq!(MIDELEG, 0x303);
    assert_eq!(MIE, 0x304);
    assert_eq!(MTVEC, 0x305);
    assert_eq!(MEPC, 0x341);
    assert_eq!(MCAUSE, 0x342);
    assert_eq!(MTVAL, 0x343);
    assert_eq!(MIP, 0x344);
    assert_eq!(SEPC, 0x141);
    assert_eq!(SCAUSE, 0x142);
    assert_eq!(STVAL, 0x143);
    assert_eq!(STVEC, 0x105);
    assert_eq!(risc_v::components::csr::SAPT, 0x180);
    assert_eq!(MHARTID, 0xf14);
    assert_eq!(MVENDORID, 0xf11);
    assert_eq!(MARCHID, 0xf12);
    assert_eq!(MIMPID, 0xf13);
}

#[test]
fn csr_out_of_range() {
    let mut csr = Csr::new();
    assert_eq!(csr.read(CSR_SIZE), Err(Exception::IllegalInstruction));
    assert_eq!(csr.read(usize::MAX), Err(Exception::IllegalInstruction));
    assert_eq!(csr.write(CSR_SIZE, 1), Err(Exception::IllegalInstruction));
    assert_eq!(csr.write(CSR_SIZE - 1, 1), Ok(()));
    assert_eq!(csr.read(CSR_SIZE - 1), Ok(1));
}

#[test]
fn csr_read_only_registers() {
    let mut csr = Csr::new();
    for addr in [MISA, MVENDORID, MARCHID, MIMPID, MHARTID] {
        let before = csr.read(addr);
        assert_eq!(csr.write(addr, u64::MAX), Ok(()));
        assert_eq!(csr.read(addr), before);
        assert_eq!(csr.write(addr, 0), Ok(()));
        assert_eq!(csr.read(addr), before);
    }
    assert_eq!(csr.write(MEPC, 0x1234), Ok(()));
    assert_eq!(csr.read(MEPC), Ok(0x1234));
}

#[test]
fn mstatus_keeps_its_read_only_bits() {
    let mut csr = Csr::new();
    assert_eq!(csr.write(MSTATUS, u64::MAX), Ok(()));
    assert_eq!(csr.read(MSTATUS), Ok(0xffff_ffca_ffff_ffbf));
    assert_eq!(csr.write(MSTATUS, 0), Ok(()));
    assert_eq!(csr.read(MSTATUS), Ok(0xa_0000_0000));
    csr.write_mstatus(&MStatus::new_with_raw_value(0x3f_0000_0048));
    assert_eq!(csr.read_mstatus().raw_value(), 0xa_0000_0008);
    assert!(csr.read_mstatus().mie());
}

#[test]
fn sstatus_is_a_view_of_mstatus() {
    let mut csr = Csr::new();
    assert_eq!(csr.write(MSTATUS, u64::MAX), Ok(()));
    assert_eq!(csr.read(SSTATUS), Ok(0x8000_0002_018d_e722));
    assert_eq!(csr.read_sstatus().raw_value(), 0x8000_0002_018d_e722);
    // A write through the view leaves the machine's own bits alone.
    assert_eq!(csr.write(SSTATUS, 0), Ok(()));
    assert_eq!(csr.read(SSTATUS), Ok(0x2_0000_0000));
    assert_eq!(csr.read(MSTATUS), Ok(0x7fff_ffca_fe72_189d));
    assert_eq!(csr.write(MSTATUS, 0), Ok(()));
    assert_eq!(csr.write(SSTATUS, u64::MAX), Ok(()));
    assert_eq!(csr.read(MSTATUS), Ok(0x8000_000a_018d_e722));
    let mut sstatus = SStatus::new_with_raw_value(0);
    sstatus.set_sie(true);
    sstatus.set_spie(true);
    sstatus.set_spp(true);
    assert_eq!(sstatus.raw_value(), 0x122);
    assert!(sstatus.sie() && sstatus.spie() && sstatus.spp());
    sstatus.set_spie(false);
    assert_eq!(sstatus.raw_value(), 0x102);
    csr.write_sstatus(&sstatus);
    assert_eq!(csr.read(MSTATUS), Ok(0xa_0000_0102));
}

#[test]
fn status_fields() {
    let mut mstatus = MStatus::new_with_raw_value(0);
    mstatus.set_sie(true);
    assert_eq!(mstatus.raw_value(), 1 << 1);
    mstatus.set_mie(true);
    assert_eq!(mstatus.raw_value(), 0xa);
    mstatus.set_spie(true);
    mstatus.set_mpie(true);
    mstatus.set_spp(true);
    assert_eq!(mstatus.raw_value(), 0x1aa);
    mstatus.set_mpp(PrivilegeMode::Machine);
    assert_eq!(mstatus.raw_value(), 0x19aa);
    mstatus.set_mpp(PrivilegeMode::Supervisor);
    assert_eq!(mstatus.raw_value(), 0x09aa);
    assert_eq!(mstatus.mpp(), PrivilegeMode::Supervisor);
    mstatus.set_mprv(true);
    assert_eq!(mstatus.raw_value(), 0x2_09aa);
    assert!(mstatus.sie() && mstatus.mie() && mstatus.spie() && mstatus.mpie());
    assert!(mstatus.spp() && mstatus.mprv());
    assert!(!mstatus.sum() && !mstatus.mxr() && !mstatus.tvm() && !mstatus.tw() && !mstatus.tsr());
    mstatus.set_mie(false);
    mstatus.set_spp(false);
    assert_eq!(mstatus.raw_value(), 0x2_08a2);
    let mstatus = MStatus::new_with_raw_value((1 << 18) | (1 << 19) | (1 << 20) | (1 << 21) | (1 << 22));
    assert!(mstatus.sum() && mstatus.mxr() && mstatus.tvm() && mstatus.tw() && mstatus.tsr());
    let satp = Sapt::new_with_raw_value(0x8123_4fff_ffff_ffff);
    assert_eq!(satp.mode(), 8);
    assert_eq!(satp.asid(), 0x1234);
    assert_eq!(satp.ppn(), 0xfff_ffff_ffff);
    assert_eq!(satp.raw_value(), 0x8123_4fff_ffff_ffff);
}

#[test]
fn exception_codes() {
    let codes = [
        (Exception::InstructionAddressMisaligned(9), 0),
        (Exception::InstructionAccessFault(9), 1),
        (Exception::IllegalInstruction, 2),
        (Exception::Breakpoint, 3),
        (Exception::LoadAddressMisaligned(9), 4),
        (Exception::LoadAccessFault(9), 5),
        (Exception::StoreAddressMisaligned(9), 6),
        (Exception::StoreAccessFault(9), 7),
        (Exception::EnvironmentCallFromUMode, 8),
        (Exception::EnvironmentCallFromSMode, 9),
        (Exception::EnvironmentCallFromMMode, 11),
        (Exception::InstructionPageFault(1), 12),
        (Exception::LoadPageFault(2), 13),
        (Exception::StorePageFault(3), 15),
        (Exception::DoubleTrap, 16),
        (Exception::SoftwareCheck, 18),
        (Exception::HardwareError, 19),
    ];
    for (exception, code) in codes {
        assert_eq!(exception.code(), code);
    }
    let codes = [
        (Interrupt::SupervisorSoftware, 1),
        (Interrupt::MachineSoftware, 3),
        (Interrupt::SupervisorTimer, 5),
        (Interrupt::MachineTimer, 7),
        (Interrupt::SupervisorExternal, 9),
        (Interrupt::MachineExternal, 11),
        (Interrupt::CounterOverflow, 13),
    ];
    for (interrupt, code) in codes {
        assert_eq!(interrupt.code(), code);
    }
}

#[test]
fn exception_epc_and_tval() {
    // A failed fetch happened at the program counter itself.
    assert_eq!(Exception::InstructionAccessFault(0x100).epc(0x100), 0x100);
    assert_eq!(Exception::InstructionPageFault(0x100).epc(0x100), 0x100);
    assert_eq!(Exception::InstructionAddressMisaligned(0x102).epc(0x102), 0x102);
    // Everything else comes from the instruction before it.
    assert_eq!(Exception::Breakpoint.epc(0x104), 0x100);
    assert_eq!(Exception::EnvironmentCallFromUMode.epc(0x104), 0x100);
    assert_eq!(Exception::EnvironmentCallFromSMode.epc(0x104), 0x100);
    assert_eq!(Exception::EnvironmentCallFromMMode.epc(0x104), 0x100);
    assert_eq!(Exception::IllegalInstruction.epc(0x104), 0x100);
    assert_eq!(Exception::LoadPageFault(0x9000).epc(0x104), 0x100);
    assert_eq!(Exception::LoadAccessFault(0x9000).epc(0x104), 0x100);
    assert_eq!(Exception::StoreAccessFault(7).epc(0), 0xffff_ffff_ffff_fffc);
    // The trap value of a faulting access is the address accessed.
    assert_eq!(Exception::InstructionPageFault(0x9000).tval(0x100), 0x9000);
    assert_eq!(Exception::LoadPageFault(0x9001).tval(0x104), 0x9001);
    assert_eq!(Exception::StorePageFault(0x9002).tval(0x104), 0x9002);
    assert_eq!(Exception::LoadAccessFault(0x9003).tval(0x104), 0x9003);
    assert_eq!(Exception::StoreAccessFault(0x9004).tval(0x104), 0x9004);
    assert_eq!(Exception::LoadAddressMisaligned(0x9005).tval(0x104), 0x9005);
    assert_eq!(Exception::StoreAddressMisaligned(0x9006).tval(0x104), 0x9006);
    assert_eq!(Exception::InstructionAccessFault(0x100).tval(0x100), 0x100);
    assert_eq!(Exception::InstructionAddressMisaligned(0x102).tval(0x100), 0x102);
    // That of a breakpoint is the address of the instruction.
    assert_eq!(Exception::Breakpoint.tval(0x104), 0x100);
    assert_eq!(Exception::IllegalInstruction.tval(0x104), 0);
    assert_eq!(Exception::EnvironmentCallFromMMode.tval(0x104), 0);
    assert_eq!(Exception::HardwareError.tval(0x104), 0);
}

#[test]
fn hart_after_reset() {
    let cpu = Cpu::new();
    assert_eq!(cpu.pc, MROM_BASE);
    assert_eq!(cpu.p_mode, PrivilegeMode::Machine);
    assert_eq!(cpu.reservation, None);
    assert!(!cpu.is_idle);
    assert_eq!(cpu.mmu.bus.test.exit, 0);
    assert_eq!(cpu.csr.get(MHARTID), 0);
    for id in 0..32 {
        assert_eq!(cpu.x_regs.read(id), 0);
    }
}

#[test]
fn boot_code_sets_up_the_arguments() {
    let mut cpu = Cpu::new();
    cpu.x_regs.write(XRegisters::a0, 5);
    assert_eq!(cpu.tick(), None);
    assert_eq!(cpu.x_regs.read(XRegisters::t0), MROM_BASE);
    assert_eq!(cpu.tick(), None);
    assert_eq!(cpu.x_regs.read(XRegisters::a1), MROM_BASE);
    assert_eq!(cpu.tick(), None);
    assert_eq!(cpu.x_regs.read(XRegisters::a0), 0);
    assert_eq!(cpu.pc, MROM_BASE + 12);
}

#[test]
fn ecall_from_machine_mode() {
    let mut cpu = Cpu::new();
    cpu.mmu.bus.inject(DRAM_BASE, &0x0000_0073u32.to_le_bytes()).unwrap();
    cpu.pc = DRAM_BASE;
    cpu.csr.set(MTVEC, DRAM_BASE + 0x103);
    cpu.csr.set(MSTATUS, 1 << 3);
    assert_eq!(cpu.tick(), Some(Exception::EnvironmentCallFromMMode));
    assert_eq!(cpu.p_mode, PrivilegeMode::Machine);
    assert_eq!(cpu.pc, DRAM_BASE + 0x100);
    assert_eq!(cpu.pc & 3, 0);
    assert_eq!(cpu.csr.get(MEPC), DRAM_BASE);
    assert_eq!(cpu.csr.get(MCAUSE), 11);
    assert_eq!(cpu.csr.get(MTVAL), 0);
    let mstatus = cpu.csr.read_mstatus();
    assert!(mstatus.mpie());
    assert!(!mstatus.mie());
    assert_eq!(mstatus.mpp(), PrivilegeMode::Machine);
    assert_eq!(mstatus.raw_value(), 0xa_0000_1880);
}

#[test]
fn ecall_by_mode() {
    for (mode, exception, code) in [
        (PrivilegeMode::User, Exception::EnvironmentCallFromUMode, 8),
        (PrivilegeMode::Supervisor, Exception::EnvironmentCallFromSMode, 9),
        (PrivilegeMode::Machine, Exception::EnvironmentCallFromMMode, 11),
        (PrivilegeMode::Reserved, Exception::IllegalInstruction, 2),
    ] {
        let mut cpu = Cpu::new();
        cpu.p_mode = mode;
        cpu.pc = DRAM_BASE + 4;
        assert_eq!(decode_and_execute(&mut cpu, 0x0000_0073), Err(exception));
        cpu.handle_exception(exception);
        assert_eq!(cpu.p_mode, PrivilegeMode::Machine);
        assert_eq!(cpu.csr.get(MCAUSE), code);
        assert_eq!(cpu.csr.get(MEPC), DRAM_BASE);
        assert_eq!(cpu.csr.read_mstatus().mpp(), mode);
        assert!(!cpu.csr.read_mstatus().mpie());
    }
}

#[test]
fn ebreak_sets_the_trap_value() {
    let mut cpu = Cpu::new();
    cpu.mmu.bus.inject(DRAM_BASE + 8, &0x0010_0073u32.to_le_bytes()).unwrap();
    cpu.pc = DRAM_BASE + 8;
    assert_eq!(cpu.tick(), Some(Exception::Breakpoint));
    assert_eq!(cpu.csr.get(MCAUSE), 3);
    assert_eq!(cpu.csr.get(MEPC), DRAM_BASE + 8);
    assert_eq!(cpu.csr.get(MTVAL), DRAM_BASE + 8);
    assert_eq!(cpu.pc, 0);
}

#[test]
fn access_faults_trap() {
    // ld x1, 16(x2): nothing answers at address 0x4000_0010.
    let mut cpu = Cpu::new();
    cpu.mmu.bus.inject(DRAM_BASE + 4, &0x0101_3083u32.to_le_bytes()).unwrap();
    cpu.x_regs.write(2, 0x4000_0000);
    cpu.pc = DRAM_BASE + 4;
    assert_eq!(cpu.tick(), Some(Exception::LoadAccessFault(0x4000_0010)));
    assert_eq!(cpu.csr.get(MCAUSE), 5);
    assert_eq!(cpu.csr.get(MEPC), DRAM_BASE + 4);
    assert_eq!(cpu.csr.get(MTVAL), 0x4000_0010);
    assert_eq!(cpu.csr.get(SEPC), 0);
    assert_eq!(cpu.csr.get(SCAUSE), 0);
    assert_eq!(cpu.csr.get(STVAL), 0);
    assert_eq!(cpu.x_regs.read(1), 0);
    // The handler address 0 cannot be fetched from either.
    assert_eq!(cpu.pc, 0);
    assert_eq!(cpu.tick(), Some(Exception::InstructionAccessFault(0)));
    assert_eq!(cpu.csr.get(MCAUSE), 1);
    assert_eq!(cpu.csr.get(MEPC), 0);
    assert_eq!(cpu.csr.get(MTVAL), 0);
    // A fetch from an address where nothing answers.
    cpu.csr.set(MTVEC, DRAM_BASE);
    cpu.pc = 0x4000_0008;
    assert_eq!(
        cpu.tick(),
        Some(Exception::InstructionAccessFault(0x4000_0008))
    );
    assert_eq!(cpu.csr.get(MEPC), 0x4000_0008);
    assert_eq!(cpu.csr.get(MTVAL), 0x4000_0008);
    // sd x1, 8(x2) to the ROM.
    let mut cpu = Cpu::new();
    cpu.mmu.bus.inject(DRAM_BASE, &0x0011_3423u32.to_le_bytes()).unwrap();
    cpu.x_regs.write(2, MROM_BASE);
    cpu.pc = DRAM_BASE;
    assert_eq!(
        cpu.tick(),
        Some(Exception::StoreAccessFault(MROM_BASE + 8))
    );
    assert_eq!(cpu.csr.get(MCAUSE), 7);
    assert_eq!(cpu.csr.get(MEPC), DRAM_BASE);
    assert_eq!(cpu.csr.get(MTVAL), MROM_BASE + 8);
    assert_eq!(cpu.mmu.bus.read(MROM_BASE + 8, Size::WORD), Ok(0xf140_1573));
    // A half word from the serial port, which answers bytes only.
    let mut cpu = Cpu::new();
    cpu.mmu.bus.inject(DRAM_BASE, &0x0001_1083u32.to_le_bytes()).unwrap();
    cpu.x_regs.write(2, UART0_BASE);
    cpu.pc = DRAM_BASE;
    assert_eq!(cpu.tick(), Some(Exception::LoadAccessFault(UART0_BASE)));
    assert_eq!(cpu.csr.get(MTVAL), UART0_BASE);
}

#[test]
fn delegated_exception() {
    let mut cpu = Cpu::new();
    cpu.p_mode = PrivilegeMode::User;
    cpu.pc = DRAM_BASE + 0x44;
    cpu.csr.set(MEDELEG, 1 << 8);
    cpu.csr.set(STVEC, DRAM_BASE + 0x201);
    cpu.csr.set(MTVEC, DRAM_BASE + 0x100);
    cpu.csr.set(MSTATUS, (1 << 1) | (1 << 3) | (1 << 8));
    Exception::EnvironmentCallFromUMode.take_trap(&mut cpu);
    assert_eq!(cpu.p_mode, PrivilegeMode::Supervisor);
    // Exceptions are never vectored.
    assert_eq!(cpu.pc, DRAM_BASE + 0x200);
    assert_eq!(cpu.csr.get(SEPC), DRAM_BASE + 0x40);
    assert_eq!(cpu.csr.get(SCAUSE), 8);
    assert_eq!(cpu.csr.get(STVAL), 0);
    assert_eq!(cpu.csr.get(MEPC), 0);
    assert_eq!(cpu.csr.get(MCAUSE), 0);
    let mstatus = cpu.csr.read_mstatus();
    assert!(mstatus.spie());
    assert!(!mstatus.sie());
    assert!(!mstatus.spp());
    assert!(mstatus.mie());
    // From supervisor mode the previous privilege is recorded as set.
    cpu.pc = DRAM_BASE + 0x44;
    cpu.csr.set(MEDELEG, 1 << 13);
    Exception::LoadPageFault(0x7000).take_trap(&mut cpu);
    assert_eq!(cpu.p_mode, PrivilegeMode::Supervisor);
    assert_eq!(cpu.csr.get(SCAUSE), 13);
    assert_eq!(cpu.csr.get(STVAL), 0x7000);
    assert!(cpu.csr.read_mstatus().spp());
    assert!(!cpu.csr.read_mstatus().spie());
    // An exception that is not delegated goes to machine mode.
    Exception::IllegalInstruction.take_trap(&mut cpu);
    assert_eq!(cpu.p_mode, PrivilegeMode::Machine);
    assert_eq!(cpu.pc, DRAM_BASE + 0x100);
    assert_eq!(cpu.csr.read_mstatus().mpp(), PrivilegeMode::Supervisor);
    // Machine mode never delegates.
    cpu.csr.set(MEDELEG, u64::MAX);
    Exception::IllegalInstruction.take_trap(&mut cpu);
    assert_eq!(cpu.p_mode, PrivilegeMode::Machine);
    assert_eq!(cpu.csr.read_mstatus().mpp(), PrivilegeMode::Machine);
}

#[test]
fn exception_program_counter_drops_its_lowest_bit() {
    let mut cpu = Cpu::new();
    cpu.pc = DRAM_BASE + 5;
    Exception::InstructionAccessFault(DRAM_BASE + 5).take_trap(&mut cpu);
    assert_eq!(cpu.csr.get(MEPC), DRAM_BASE + 4);
    assert_eq!(cpu.csr.get(MTVAL), DRAM_BASE + 5);
}

#[test]
fn interrupt_traps() {
    let mut cpu = Cpu::new();
    cpu.pc = DRAM_BASE + 0x40;
    cpu.csr.set(MTVEC, DRAM_BASE + 0x101);
    cpu.csr.set(MSTATUS, 1 << 3);
    Interrupt::MachineTimer.take_trap(&mut cpu);
    assert_eq!(cpu.p_mode, PrivilegeMode::Machine);
    // Vectored: base + 4 * cause.
    assert_eq!(cpu.pc, DRAM_BASE + 0x100 + 28);
    assert_eq!(cpu.csr.get(MEPC), DRAM_BASE + 0x40);
    assert_eq!(cpu.csr.get(MCAUSE), 0x8000_0000_0000_0007);
    assert_eq!(cpu.csr.get(MTVAL), 0);
    assert!(cpu.csr.read_mstatus().mpie());
    assert!(!cpu.csr.read_mstatus().mie());
    // Direct.
    cpu.csr.set(MTVEC, DRAM_BASE + 0x100);
    Interrupt::MachineExternal.take_trap(&mut cpu);
    assert_eq!(cpu.pc, DRAM_BASE + 0x100);
    assert_eq!(cpu.csr.get(MCAUSE), 0x8000_0000_0000_000b);
    // Delegated to the supervisor, vectored.
    cpu.p_mode = PrivilegeMode::Supervisor;
    cpu.pc = DRAM_BASE + 0x80;
    cpu.csr.set(MIDELEG, 1 << 9);
    cpu.csr.set(STVEC, DRAM_BASE + 0x301);
    cpu.csr.set(MSTATUS, 1 << 1);
    Interrupt::SupervisorExternal.take_trap(&mut cpu);
    assert_eq!(cpu.p_mode, PrivilegeMode::Supervisor);
    assert_eq!(cpu.pc, DRAM_BASE + 0x300 + 36);
    assert_eq!(cpu.csr.get(SEPC), DRAM_BASE + 0x80);
    assert_eq!(cpu.csr.get(SCAUSE), 0x8000_0000_0000_0009);
    assert_eq!(cpu.csr.get(STVAL), 0);
    assert!(cpu.csr.read_mstatus().spie());
    assert!(!cpu.csr.read_mstatus().sie());
    assert!(cpu.csr.read_mstatus().spp());
    // The handler address wraps around.
    cpu.p_mode = PrivilegeMode::Machine;
    cpu.csr.set(MTVEC, 0xffff_ffff_ffff_fffd);
    Interrupt::CounterOverflow.take_trap(&mut cpu);
    assert_eq!(cpu.pc, 48);
}

fn interrupting_hart() -> Cpu {
    let mut cpu = Cpu::new();
    // A no-op at every handler address used below.
    for offset in [0u64, 0x100, 0x100 + 44, 0x100 + 12, 0x200 + 36] {
        cpu.mmu.bus.inject(DRAM_BASE + offset, &0x0000_0013u32.to_le_bytes()).unwrap();
    }
    cpu.pc = DRAM_BASE;
    cpu.csr.set(MTVEC, DRAM_BASE + 0x101);
    // The serial port raises its interrupt once received data is enabled.
    cpu.mmu.bus.write(UART0_BASE + 1, Size::BYTE, 1).unwrap();
    cpu
}

#[test]
fn interrupt_is_delivered() {
    let mut cpu = interrupting_hart();
    cpu.csr.set(MSTATUS, 1 << 3);
    cpu.csr.set(MIE, (1 << 11) | (1 << 3));
    cpu.csr.set(MIP, (1 << 11) | (1 << 3) | (1 << 7));
    cpu.handle_interrupt();
    assert_eq!(cpu.pc, DRAM_BASE + 0x100 + 44);
    assert_eq!(cpu.csr.get(MEPC), DRAM_BASE);
    assert_eq!(cpu.csr.get(MCAUSE), 0x8000_0000_0000_000b);
    // The delivered interrupt has left the pending register; the others
    // stay, enabled or not.
    assert_eq!(cpu.csr.get(MIP), (1 << 3) | (1 << 7));
    assert_eq!(cpu.mmu.bus.plic.read(0x1000), Ok(1 << 10));
    assert!(!cpu.csr.read_mstatus().mie());
    assert!(cpu.csr.read_mstatus().mpie());
    // With interrupts now disabled nothing more is delivered.
    cpu.handle_interrupt();
    assert_eq!(cpu.pc, DRAM_BASE + 0x100 + 44);
    assert_eq!(cpu.csr.get(MEPC), DRAM_BASE);
    assert_eq!(cpu.csr.get(MIP), (1 << 3) | (1 << 7));
    // Once interrupts are enabled again the next one follows; the timer
    // interrupt, which is not enabled, goes on waiting.
    cpu.csr.set(MSTATUS, 1 << 3);
    assert_eq!(cpu.tick(), None);
    assert_eq!(cpu.csr.get(MCAUSE), 0x8000_0000_0000_0003);
    assert_eq!(cpu.csr.get(MEPC), DRAM_BASE + 0x100 + 44);
    assert_eq!(cpu.csr.get(MIP), 1 << 7);
    assert_eq!(cpu.pc, DRAM_BASE + 0x100 + 12 + 4);
}

#[test]
fn interrupt_is_taken_once() {
    let mut cpu = interrupting_hart();
    cpu.csr.set(MSTATUS, 1 << 3);
    cpu.csr.set(MIE, 1 << 11);
    cpu.csr.set(MIP, 1 << 11);
    cpu.handle_interrupt();
    assert_eq!(cpu.csr.get(MEPC), DRAM_BASE);
    assert_eq!(cpu.csr.get(MCAUSE), 0x8000_0000_0000_000b);
    assert_eq!(cpu.csr.get(MIP), 0);
    // Enabled again: nothing is pending any more.
    cpu.csr.set(MSTATUS, 1 << 3);
    cpu.handle_interrupt();
    assert_eq!(cpu.pc, DRAM_BASE + 0x100 + 44);
    assert_eq!(cpu.csr.get(MEPC), DRAM_BASE);
    assert_eq!(cpu.csr.get(MIP), 0);
    assert!(cpu.csr.read_mstatus().mie());
}

#[test]
fn interrupt_without_the_serial_port() {
    // The serial port raises nothing: what is pending and enabled is
    // delivered all the same, and no source becomes pending in the
    // interrupt controller.
    let mut cpu = Cpu::new();
    cpu.csr.set(MSTATUS, 1 << 3);
    cpu.csr.set(MTVEC, DRAM_BASE + 0x101);
    cpu.csr.set(MIE, (1 << 11) | (1 << 5));
    cpu.csr.set(MIP, (1 << 11) | (1 << 7));
    cpu.handle_interrupt();
    assert_eq!(cpu.p_mode, PrivilegeMode::Machine);
    assert_eq!(cpu.pc, DRAM_BASE + 0x100 + 44);
    assert_eq!(cpu.csr.get(MEPC), MROM_BASE);
    assert_eq!(cpu.csr.get(MCAUSE), 0x8000_0000_0000_000b);
    assert_eq!(cpu.csr.get(MTVAL), 0);
    assert_eq!(cpu.csr.get(MIP), 1 << 7);
    assert_eq!(cpu.mmu.bus.plic.read(0x1000), Ok(0));
    assert!(!cpu.csr.read_mstatus().mie());
    assert!(cpu.csr.read_mstatus().mpie());
    assert_eq!(cpu.csr.read_mstatus().mpp(), PrivilegeMode::Machine);
    // A timer interrupt for the supervisor, delegated, from user mode.
    let mut cpu = Cpu::new();
    cpu.p_mode = PrivilegeMode::User;
    cpu.pc = DRAM_BASE + 0x40;
    cpu.csr.set(MIDELEG, 1 << 5);
    cpu.csr.set(STVEC, DRAM_BASE + 0x200);
    cpu.csr.set(MIE, 1 << 5);
    cpu.csr.set(MIP, 1 << 5);
    cpu.handle_interrupt();
    assert_eq!(cpu.p_mode, PrivilegeMode::Supervisor);
    assert_eq!(cpu.pc, DRAM_BASE + 0x200);
    assert_eq!(cpu.csr.get(SEPC), DRAM_BASE + 0x40);
    assert_eq!(cpu.csr.get(SCAUSE), 0x8000_0000_0000_0005);
    assert_eq!(cpu.csr.get(MIP), 0);
    assert_eq!(cpu.mmu.bus.plic.read(0x1000), Ok(0));
}

#[test]
fn interrupt_priority() {
    let order = [
        (11u64, Interrupt::MachineExternal),
        (3, Interrupt::MachineSoftware),
        (7, Interrupt::MachineTimer),
        (9, Interrupt::SupervisorExternal),
        (1, Interrupt::SupervisorSoftware),
        (5, Interrupt::SupervisorTimer),
    ];
    let mut pending: u64 = order.iter().map(|(bit, _)| 1 << bit).sum();
    for (bit, interrupt) in order {
        for serial_port in [false, true] {
            let mut cpu = if serial_port {
                interrupting_hart()
            } else {
                Cpu::new()
            };
            cpu.csr.set(MSTATUS, 1 << 3);
            cpu.csr.set(MIE, u64::MAX);
            cpu.csr.set(MIP, pending);
            cpu.handle_interrupt();
            assert_eq!(cpu.csr.get(MCAUSE), (1 << 63) | interrupt.code());
            assert_eq!(cpu.csr.get(MCAUSE), (1 << 63) | bit);
            assert_eq!(cpu.csr.get(MIP), pending & !(1 << bit));
        }
        pending &= !(1 << bit);
    }
}

#[test]
fn interrupts_are_gated() {
    // Machine mode with its interrupt enable clear: nothing is polled.
    let mut cpu = interrupting_hart();
    cpu.csr.set(MIE, 1 << 11);
    cpu.csr.set(MIP, (1 << 11) | (1 << 7));
    cpu.handle_interrupt();
    assert_eq!(cpu.pc, DRAM_BASE);
    assert_eq!(cpu.csr.get(MIP), (1 << 11) | (1 << 7));
    assert_eq!(cpu.csr.get(MCAUSE), 0);
    assert_eq!(cpu.mmu.bus.plic.read(0x1000), Ok(0));
    // Supervisor mode goes by its own enable.
    cpu.p_mode = PrivilegeMode::Supervisor;
    cpu.csr.set(MSTATUS, 1 << 3);
    cpu.handle_interrupt();
    assert_eq!(cpu.pc, DRAM_BASE);
    assert_eq!(cpu.csr.get(MIP), (1 << 11) | (1 << 7));
    cpu.csr.set(MSTATUS, 1 << 1);
    cpu.handle_interrupt();
    assert_eq!(cpu.p_mode, PrivilegeMode::Machine);
    assert_eq!(cpu.pc, DRAM_BASE + 0x100 + 44);
    assert_eq!(cpu.csr.read_mstatus().mpp(), PrivilegeMode::Supervisor);
    // User mode lets every interrupt through.
    let mut cpu = interrupting_hart();
    cpu.p_mode = PrivilegeMode::User;
    cpu.csr.set(MIE, 1 << 9);
    cpu.csr.set(MIP, 1 << 9);
    cpu.csr.set(MIDELEG, 1 << 9);
    cpu.csr.set(STVEC, DRAM_BASE + 0x201);
    cpu.handle_interrupt();
    assert_eq!(cpu.p_mode, PrivilegeMode::Supervisor);
    assert_eq!(cpu.pc, DRAM_BASE + 0x200 + 36);
    assert_eq!(cpu.csr.get(SCAUSE), 0x8000_0000_0000_0009);
    // Disabled interrupts are held back with the serial port silent too.
    let mut cpu = Cpu::new();
    cpu.csr.set(MIE, 1 << 11);
    cpu.csr.set(MIP, (1 << 11) | (1 << 7));
    cpu.handle_interrupt();
    assert_eq!(cpu.pc, MROM_BASE);
    assert_eq!(cpu.csr.get(MIP), (1 << 11) | (1 << 7));
    assert_eq!(cpu.csr.get(MCAUSE), 0);
}

#[test]
fn pending_interrupts_wait_until_enabled() {
    // Nothing that is pending is enabled: no trap, and the pending
    // register stays as it is. The serial port's source becomes pending in
    // the interrupt controller exactly if the serial port raises it.
    let mut cpu = interrupting_hart();
    cpu.csr.set(MSTATUS, 1 << 3);
    cpu.csr.set(MIE, 0);
    cpu.csr.set(MIP, (1 << 11) | (1 << 7));
    cpu.handle_interrupt();
    assert_eq!(cpu.pc, DRAM_BASE);
    assert_eq!(cpu.csr.get(MIP), (1 << 11) | (1 << 7));
    assert_eq!(cpu.csr.get(MCAUSE), 0);
    assert_eq!(cpu.mmu.bus.plic.read(0x1000), Ok(1 << 10));
    let mut cpu = Cpu::new();
    cpu.csr.set(MSTATUS, 1 << 3);
    cpu.csr.set(MIE, 1 << 2);
    cpu.csr.set(MIP, (1 << 11) | (1 << 7) | (1 << 2));
    cpu.handle_interrupt();
    assert_eq!(cpu.pc, MROM_BASE);
    // Bit 2 is pending and enabled, but stands for no interrupt.
    assert_eq!(cpu.csr.get(MIP), (1 << 11) | (1 << 7) | (1 << 2));
    assert_eq!(cpu.csr.get(MCAUSE), 0);
    assert_eq!(cpu.mmu.bus.plic.read(0x1000), Ok(0));
    // Once enabled, the timer interrupt that waited is taken.
    cpu.csr.set(MIE, 1 << 7);
    cpu.handle_interrupt();
    assert_eq!(cpu.csr.get(MCAUSE), 0x8000_0000_0000_0007);
    assert_eq!(cpu.csr.get(MIP), (1 << 11) | (1 << 2));
}

#[test]
fn interrupt_wakes_the_hart() {
    let mut cpu = interrupting_hart();
    cpu.mmu.bus.inject(DRAM_BASE, &0x1050_0073u32.to_le_bytes()).unwrap();
    cpu.csr.set(MSTATUS, 1 << 3);
    assert_eq!(cpu.tick(), None);
    assert!(cpu.is_idle);
    assert_eq!(cpu.tick(), None);
    assert!(cpu.is_idle);
    assert_eq!(cpu.pc, DRAM_BASE + 4);
    cpu.csr.set(MIE, 1 << 11);
    cpu.csr.set(MIP, 1 << 11);
    assert_eq!(cpu.tick(), None);
    assert!(!cpu.is_idle);
    assert_eq!(cpu.csr.get(MEPC), DRAM_BASE + 4);
    assert_eq!(cpu.csr.get(MCAUSE), 0x8000_0000_0000_000b);
    assert_eq!(cpu.pc, DRAM_BASE + 0x100 + 44 + 4);
}

#[test]
fn idle_hart_wakes_without_the_serial_port() {
    // An idle hart in machine mode, interrupts enabled, a timer interrupt
    // pending and enabled, the serial port silent.
    let mut cpu = Cpu::new();
    cpu.mmu.bus.inject(DRAM_BASE + 0x100, &0x0000_0013u32.to_le_bytes()).unwrap();
    cpu.pc = DRAM_BASE + 0x20;
    cpu.is_idle = true;
    cpu.csr.set(MSTATUS, 1 << 3);
    cpu.csr.set(MTVEC, DRAM_BASE + 0x100);
    cpu.csr.set(MIE, 1 << 7);
    assert_eq!(cpu.tick(), None);
    assert!(cpu.is_idle);
    assert_eq!(cpu.pc, DRAM_BASE + 0x20);
    cpu.csr.set(MIP, 1 << 7);
    cpu.handle_interrupt();
    assert!(!cpu.is_idle);
    assert_eq!(cpu.p_mode, PrivilegeMode::Machine);
    assert_eq!(cpu.pc, DRAM_BASE + 0x100);
    assert_eq!(cpu.csr.get(MEPC), DRAM_BASE + 0x20);
    assert_eq!(cpu.csr.get(MCAUSE), (1 << 63) | 7);
    // The same through a tick, which goes on to the handler's first
    // instruction.
    let mut cpu = Cpu::new();
    cpu.mmu.bus.inject(DRAM_BASE + 0x100, &0x0000_0013u32.to_le_bytes()).unwrap();
    cpu.pc = DRAM_BASE + 0x20;
    cpu.is_idle = true;
    cpu.csr.set(MSTATUS, 1 << 3);
    cpu.csr.set(MTVEC, DRAM_BASE + 0x100);
    cpu.csr.set(MIE, 1 << 7);
    cpu.csr.set(MIP, 1 << 7);
    assert_eq!(cpu.tick(), None);
    assert!(!cpu.is_idle);
    assert_eq!(cpu.csr.get(MEPC), DRAM_BASE + 0x20);
    assert_eq!(cpu.csr.get(MCAUSE), (1 << 63) | 7);
    assert_eq!(cpu.pc, DRAM_BASE + 0x104);
}
