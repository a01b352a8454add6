//! Exceptions and interrupts, and how the hart enters a trap handler.
use crate::components::csr::{
    csr_wf, csr_write, merge_bits, CSR_SIZE, MSTATUS_WRITABLE, MCAUSE, MEDELEG, MEPC, MIDELEG, MSTATUS, MTVAL, MTVEC, SCAUSE, SEPC, STVAL,
    STVEC,
};
use crate::cpu::{Cpu, CpuView, PrivilegeMode};
use crate::util::{bit, spec_bit, spec_set_bit, spec_set_field};
use vstd::prelude::*;

verus! {

/// The bit of a cause register that marks an interrupt.
pub const CAUSE_INTERRUPT: u64 = 0x8000_0000_0000_0000;

/// Whether a trap with the given cause is delegated to supervisor mode: it
/// arises in user or supervisor mode and its bit is set in the delegation
/// register for its kind.
pub open spec fn delegated(s: CpuView, cause: u64, interrupt: bool) -> bool {
    (s.mode == PrivilegeMode::User || s.mode == PrivilegeMode::Supervisor) && spec_bit(
        if interrupt {
            s.csr[MIDELEG as int]
        } else {
            s.csr[MEDELEG as int]
        },
        cause,
    )
}

/// Where a trap handler starts: at the base of the trap vector, or, for an
/// interrupt with a vectored trap vector, four bytes further for each cause.
pub open spec fn handler_address(tvec: u64, cause: u64, interrupt: bool) -> u64 {
    (tvec & !3u64).wrapping_add(
        if interrupt && tvec & 3 == 1 {
            (4 * cause) as u64
        } else {
            0
        },
    )
}

/// What a cause register is set to.
pub open spec fn cause_value(cause: u64, interrupt: bool) -> u64 {
    if interrupt {
        cause | CAUSE_INTERRUPT
    } else {
        cause
    }
}

/// The status register after a trap into supervisor mode from `mode`: the
/// interrupt enable is saved and cleared, the previous mode recorded.
pub open spec fn status_after_supervisor_trap(status: u64, mode: PrivilegeMode) -> u64 {
    spec_set_bit(
        spec_set_bit(spec_set_bit(status, 5, spec_bit(status, 1)), 1, false),
        8,
        mode == PrivilegeMode::Supervisor,
    )
}

/// The status register after a trap into machine mode from `mode`: the
/// interrupt enable is saved and cleared, the previous mode recorded.
pub open spec fn status_after_machine_trap(status: u64, mode: PrivilegeMode) -> u64 {
    spec_set_field(
        spec_set_bit(spec_set_bit(status, 7, spec_bit(status, 3)), 3, false),
        11,
        3,
        mode.spec_bits(),
    )
}

/// The state after a trap has been taken: the hart is in the mode that
/// handles the trap, at its handler; that mode's exception program counter
/// holds `epc` without its lowest bit, its cause and trap value registers
/// hold the cause and `tval`, and the status register has the interrupt
/// enable and the previous mode stacked.
pub open spec fn enter_trap(s: CpuView, cause: u64, interrupt: bool, epc: u64, tval: u64) -> CpuView {
    let status = s.csr[MSTATUS as int];
    if delegated(s, cause, interrupt) {
        CpuView {
            mode: PrivilegeMode::Supervisor,
            pc: handler_address(s.csr[STVEC as int], cause, interrupt),
            csr: csr_write(
                csr_write(
                    csr_write(
                        csr_write(s.csr, SEPC as int, epc & !1u64),
                        SCAUSE as int,
                        cause_value(cause, interrupt),
                    ),
                    STVAL as int,
                    tval,
                ),
                MSTATUS as int,
                status_after_supervisor_trap(status, s.mode),
            ),
            ..s
        }
    } else {
        CpuView {
            mode: PrivilegeMode::Machine,
            pc: handler_address(s.csr[MTVEC as int], cause, interrupt),
            csr: csr_write(
                csr_write(
                    csr_write(
                        csr_write(s.csr, MEPC as int, epc & !1u64),
                        MCAUSE as int,
                        cause_value(cause, interrupt),
                    ),
                    MTVAL as int,
                    tval,
                ),
                MSTATUS as int,
                status_after_machine_trap(status, s.mode),
            ),
            ..s
        }
    }
}

/// The state after the exception has been taken.
pub open spec fn take_exception(s: CpuView, e: Exception) -> CpuView {
    enter_trap(s, e.spec_code(), false, e.spec_epc(s.pc), e.spec_tval(s.pc))
}

/// The state after the interrupt has been taken: the interrupted
/// instruction is the one at the program counter, the trap value is 0.
pub open spec fn take_interrupt(s: CpuView, i: Interrupt) -> CpuView {
    enter_trap(s, i.spec_code(), true, s.pc, 0)
}

fn deliver(cpu: &mut Cpu, cause: u64, interrupt: bool, epc: u64, tval: u64)
    requires
        cause < 64,
    ensures
        final(cpu)@ == enter_trap(old(cpu)@, cause, interrupt, epc, tval),
        final(cpu).pc & 3 == 0,
        old(cpu)@.wf() ==> final(cpu)@.wf(),
{
    proof {
        lemma_trap_entry_aligned(cpu@, cause, interrupt, epc, tval);
    }
    let previous = cpu.p_mode;
    let deleg = if interrupt {
        cpu.csr.get(MIDELEG)
    } else {
        cpu.csr.get(MEDELEG)
    };
    let cause_value = if interrupt {
        cause | CAUSE_INTERRUPT
    } else {
        cause
    };
    let mut mstatus = cpu.csr.read_mstatus();
    if (previous == PrivilegeMode::User || previous == PrivilegeMode::Supervisor) && bit(
        deleg,
        cause,
    ) {
        cpu.p_mode = PrivilegeMode::Supervisor;
        mstatus.set_spie(mstatus.sie());
        mstatus.set_sie(false);
        mstatus.set_spp(previous == PrivilegeMode::Supervisor);
        let stvec = cpu.csr.get(STVEC);
        let offset = if interrupt && stvec & 3 == 1 {
            4 * cause
        } else {
            0
        };
        cpu.pc = (stvec & !3u64).wrapping_add(offset);
        cpu.csr.set(SEPC, epc & !1u64);
        cpu.csr.set(SCAUSE, cause_value);
        cpu.csr.set(STVAL, tval);
    } else {
        cpu.p_mode = PrivilegeMode::Machine;
        mstatus.set_mpie(mstatus.mie());
        mstatus.set_mie(false);
        mstatus.set_mpp(previous);
        let mtvec = cpu.csr.get(MTVEC);
        let offset = if interrupt && mtvec & 3 == 1 {
            4 * cause
        } else {
            0
        };
        cpu.pc = (mtvec & !3u64).wrapping_add(offset);
        cpu.csr.set(MEPC, epc & !1u64);
        cpu.csr.set(MCAUSE, cause_value);
        cpu.csr.set(MTVAL, tval);
    }
    cpu.csr.write_mstatus(&mstatus);
}

/// How a trap relates to the execution environment.
pub enum Trap {
    /// Visible to, and handled by, software inside the execution environment.
    Contained,
    /// An explicit call to the execution environment.
    Requested,
    /// Handled transparently by the execution environment.
    Invisible,
    /// A fatal failure that ends execution.
    Fatal,
}

/// A synchronous exception. The faults of a memory access (misaligned
/// address, access fault, page fault) carry the address of the access that
/// failed, as the part that raises the fault sees it: a device its offset,
/// the bus the physical address, the memory management unit and the
/// instructions the virtual address.
#[derive(Clone, Copy, Debug, PartialEq, Eq, Structural)]
pub enum Exception {
    InstructionAddressMisaligned(u64),
    InstructionAccessFault(u64),
    IllegalInstruction,
    Breakpoint,
    LoadAddressMisaligned(u64),
    LoadAccessFault(u64),
    StoreAddressMisaligned(u64),
    StoreAccessFault(u64),
    EnvironmentCallFromUMode,
    EnvironmentCallFromSMode,
    EnvironmentCallFromMMode,
    InstructionPageFault(u64),
    LoadPageFault(u64),
    StorePageFault(u64),
    DoubleTrap,
    SoftwareCheck,
    HardwareError,
}

impl Exception {
    /// The cause code of the exception.
    pub open spec fn spec_code(&self) -> u64 {
        match self {
            Exception::InstructionAddressMisaligned(_) => 0,
            Exception::InstructionAccessFault(_) => 1,
            Exception::IllegalInstruction => 2,
            Exception::Breakpoint => 3,
            Exception::LoadAddressMisaligned(_) => 4,
            Exception::LoadAccessFault(_) => 5,
            Exception::StoreAddressMisaligned(_) => 6,
            Exception::StoreAccessFault(_) => 7,
            Exception::EnvironmentCallFromUMode => 8,
            Exception::EnvironmentCallFromSMode => 9,
            Exception::EnvironmentCallFromMMode => 11,
            Exception::InstructionPageFault(_) => 12,
            Exception::LoadPageFault(_) => 13,
            Exception::StorePageFault(_) => 15,
            Exception::DoubleTrap => 16,
            Exception::SoftwareCheck => 18,
            Exception::HardwareError => 19,
        }
    }

    /// Whether the exception arises while an instruction is being fetched,
    /// that is before the program counter has moved on.
    pub open spec fn on_fetch(&self) -> bool {
        self is InstructionAddressMisaligned || self is InstructionAccessFault
            || self is InstructionPageFault
    }

    /// The address of the instruction that raised the exception, given the
    /// program counter at the time: a fetch fails at the program counter
    /// itself, every other exception comes from the instruction before it.
    pub open spec fn spec_epc(&self, pc: u64) -> u64 {
        if self.on_fetch() {
            pc
        } else {
            pc.wrapping_sub(4)
        }
    }

    /// The faulting address that the exception carries, if it is the fault
    /// of a memory access.
    pub open spec fn address(&self) -> Option<u64> {
        match *self {
            Exception::InstructionAddressMisaligned(addr)
            | Exception::InstructionAccessFault(addr)
            | Exception::LoadAddressMisaligned(addr)
            | Exception::LoadAccessFault(addr)
            | Exception::StoreAddressMisaligned(addr)
            | Exception::StoreAccessFault(addr)
            | Exception::InstructionPageFault(addr)
            | Exception::LoadPageFault(addr)
            | Exception::StorePageFault(addr) => Some(addr),
            _ => None,
        }
    }

    /// The trap value: the faulting address of a misaligned address, an
    /// access fault or a page fault; the address of the instruction for a
    /// breakpoint; zero otherwise.
    pub open spec fn spec_tval(&self, pc: u64) -> u64 {
        match self.address() {
            Some(addr) => addr,
            None => if *self is Breakpoint {
                self.spec_epc(pc)
            } else {
                0
            },
        }
    }

    #[verifier::when_used_as_spec(spec_epc)]
    pub fn epc(&self, pc: u64) -> (r: u64)
        ensures
            r == self.spec_epc(pc),
    {
        match self {
            Exception::InstructionAddressMisaligned(_)
            | Exception::InstructionAccessFault(_)
            | Exception::InstructionPageFault(_) => pc,
            _ => pc.wrapping_sub(4),
        }
    }

    #[verifier::when_used_as_spec(spec_tval)]
    pub fn tval(&self, pc: u64) -> (r: u64)
        ensures
            r == self.spec_tval(pc),
    {
        match self {
            Exception::InstructionAddressMisaligned(addr)
            | Exception::InstructionAccessFault(addr)
            | Exception::LoadAddressMisaligned(addr)
            | Exception::LoadAccessFault(addr)
            | Exception::StoreAddressMisaligned(addr)
            | Exception::StoreAccessFault(addr)
            | Exception::InstructionPageFault(addr)
            | Exception::LoadPageFault(addr)
            | Exception::StorePageFault(addr) => *addr,
            Exception::Breakpoint => self.epc(pc),
            _ => 0,
        }
    }

    /// Takes the exception: the hart enters the handler of the mode that
    /// the exception is delivered to.
    pub fn take_trap(&self, cpu: &mut Cpu)
        ensures
            final(cpu)@ == take_exception(old(cpu)@, *self),
            final(cpu).pc & 3 == 0,
            old(cpu)@.wf() ==> final(cpu)@.wf(),
    {
        let pc = cpu.pc;
        deliver(cpu, self.code(), false, self.epc(pc), self.tval(pc));
    }

    #[verifier::when_used_as_spec(spec_code)]
    pub fn code(&self) -> (r: u64)
        ensures
            r == self.spec_code(),
            r < 20,
    {
        match self {
            Exception::InstructionAddressMisaligned(_) => 0,
            Exception::InstructionAccessFault(_) => 1,
            Exception::IllegalInstruction => 2,
            Exception::Breakpoint => 3,
            Exception::LoadAddressMisaligned(_) => 4,
            Exception::LoadAccessFault(_) => 5,
            Exception::StoreAddressMisaligned(_) => 6,
            Exception::StoreAccessFault(_) => 7,
            Exception::EnvironmentCallFromUMode => 8,
            Exception::EnvironmentCallFromSMode => 9,
            Exception::EnvironmentCallFromMMode => 11,
            Exception::InstructionPageFault(_) => 12,
            Exception::LoadPageFault(_) => 13,
            Exception::StorePageFault(_) => 15,
            Exception::DoubleTrap => 16,
            Exception::SoftwareCheck => 18,
            Exception::HardwareError => 19,
        }
    }
}

/// An asynchronous interrupt.
#[derive(Clone, Copy, Debug, PartialEq, Eq, Structural)]
pub enum Interrupt {
    SupervisorSoftware,
    MachineSoftware,
    SupervisorTimer,
    MachineTimer,
    SupervisorExternal,
    MachineExternal,
    CounterOverflow,
}

impl Interrupt {
    /// The cause code of the interrupt, without the interrupt marker bit.
    pub open spec fn spec_code(&self) -> u64 {
        match self {
            Interrupt::SupervisorSoftware => 1,
            Interrupt::MachineSoftware => 3,
            Interrupt::SupervisorTimer => 5,
            Interrupt::MachineTimer => 7,
            Interrupt::SupervisorExternal => 9,
            Interrupt::MachineExternal => 11,
            Interrupt::CounterOverflow => 13,
        }
    }

    /// Takes the interrupt: the hart enters the handler of the mode that
    /// the interrupt is delivered to.
    pub fn take_trap(&self, cpu: &mut Cpu)
        ensures
            final(cpu)@ == take_interrupt(old(cpu)@, *self),
            final(cpu).pc & 3 == 0,
            old(cpu)@.wf() ==> final(cpu)@.wf(),
    {
        let pc = cpu.pc;
        deliver(cpu, self.code(), true, pc, 0);
    }

    #[verifier::when_used_as_spec(spec_code)]
    pub fn code(&self) -> (r: u64)
        ensures
            r == self.spec_code(),
            r < 14,
    {
        match self {
            Interrupt::SupervisorSoftware => 1,
            Interrupt::MachineSoftware => 3,
            Interrupt::SupervisorTimer => 5,
            Interrupt::MachineTimer => 7,
            Interrupt::SupervisorExternal => 9,
            Interrupt::MachineExternal => 11,
            Interrupt::CounterOverflow => 13,
        }
    }
}

/// The status register as it stands after a trap into machine mode from
/// the mode encoded by `mode_bits`: only its writable bits change.
pub open spec fn status_in_machine_handler(status: u64, mode_bits: u64) -> u64 {
    merge_bits(
        status,
        spec_set_field(
            spec_set_bit(spec_set_bit(status, 7, spec_bit(status, 3)), 3, false),
            11,
            3,
            mode_bits,
        ),
        MSTATUS_WRITABLE,
    )
}

proof fn lemma_machine_trap_status(status: u64, mode_bits: u64)
    by (bit_vector)
    requires
        mode_bits < 4,
    ensures
        spec_bit(status_in_machine_handler(status, mode_bits), 7) == spec_bit(status, 3),
        !spec_bit(status_in_machine_handler(status, mode_bits), 3),
        crate::util::spec_field(status_in_machine_handler(status, mode_bits), 11, 3) == mode_bits,
        spec_bit(status_in_machine_handler(status, mode_bits), 1) == spec_bit(status, 1),
        spec_bit(status_in_machine_handler(status, mode_bits), 5) == spec_bit(status, 5),
        spec_bit(status_in_machine_handler(status, mode_bits), 8) == spec_bit(status, 8),
{
}

proof fn lemma_aligned_words(tvec: u64, pc: u64)
    by (bit_vector)
    ensures
        (tvec & !3u64) % 4 == 0,
        pc % 4 == 0 ==> pc & 3 == 0,
{
}

/// After a trap into machine mode the saved interrupt enable is the
/// interrupt enable from before the trap, the interrupt enable is clear,
/// the previous mode is the mode from before the trap, and the program
/// counter is a multiple of four.
pub proof fn lemma_machine_trap(s: CpuView, cause: u64, interrupt: bool, epc: u64, tval: u64)
    requires
        s.csr.len() == CSR_SIZE,
        cause < 64,
        !delegated(s, cause, interrupt),
    ensures
        enter_trap(s, cause, interrupt, epc, tval).mode == PrivilegeMode::Machine,
        enter_trap(s, cause, interrupt, epc, tval).mstatus().spec_mpie() == s.mstatus().spec_mie(),
        !enter_trap(s, cause, interrupt, epc, tval).mstatus().spec_mie(),
        enter_trap(s, cause, interrupt, epc, tval).mstatus().spec_mpp() == s.mode,
        enter_trap(s, cause, interrupt, epc, tval).pc & 3 == 0,
{
    let after = enter_trap(s, cause, interrupt, epc, tval);
    lemma_machine_trap_status(s.csr[MSTATUS as int], s.mode.spec_bits());
    lemma_aligned_words(s.csr[MTVEC as int], after.pc);
}

/// After any trap the program counter is a multiple of four.
pub proof fn lemma_trap_entry_aligned(s: CpuView, cause: u64, interrupt: bool, epc: u64, tval: u64)
    requires
        cause < 64,
    ensures
        enter_trap(s, cause, interrupt, epc, tval).pc & 3 == 0,
{
    let after = enter_trap(s, cause, interrupt, epc, tval);
    lemma_aligned_words(s.csr[MTVEC as int], after.pc);
    lemma_aligned_words(s.csr[STVEC as int], after.pc);
}

/// An exception that is not delegated leaves in the machine's registers
/// the address of the instruction that raised it, without its lowest bit,
/// its cause code, and its trap value: the address of the failed access
/// for a fault of a memory access, the address of the instruction for a
/// breakpoint, and zero otherwise. The supervisor's registers, and its
/// fields of the status register, stay as they are.
pub proof fn lemma_machine_exception(s: CpuView, e: Exception)
    requires
        s.csr.len() == CSR_SIZE,
        !delegated(s, e.spec_code(), false),
    ensures
        take_exception(s, e).csr[MEPC as int] == e.spec_epc(s.pc) & !1u64,
        take_exception(s, e).csr[MCAUSE as int] == e.spec_code(),
        take_exception(s, e).csr[MTVAL as int] == e.spec_tval(s.pc),
        e.address() matches Some(addr) ==> take_exception(s, e).csr[MTVAL as int] == addr,
        take_exception(s, e).csr[SEPC as int] == s.csr[SEPC as int],
        take_exception(s, e).csr[SCAUSE as int] == s.csr[SCAUSE as int],
        take_exception(s, e).csr[STVAL as int] == s.csr[STVAL as int],
        take_exception(s, e).mstatus().spec_sie() == s.mstatus().spec_sie(),
        take_exception(s, e).mstatus().spec_spie() == s.mstatus().spec_spie(),
        take_exception(s, e).mstatus().spec_spp() == s.mstatus().spec_spp(),
{
    lemma_machine_trap_status(s.csr[MSTATUS as int], s.mode.spec_bits());
}

} // verus!
