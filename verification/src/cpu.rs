//! The hart: its state, the polling of interrupts, and the tick that fetches
//! and executes one instruction.
use crate::components::csr::{
    csr_init, csr_wf, csr_write, Csr, MStatus, Sapt, CSR_SIZE, IP_MEIP, IP_MSIP, IP_MTIP, IP_SEIP,
    IP_SSIP, IP_STIP, MCAUSE, MIE, MIP, MSTATUS, SAPT, SCAUSE,
};
use crate::components::devices::uart::IRQ_UART;
use crate::components::mmu::{Mmu, Size, TranslationContext};
use crate::components::registers::{reg_write, regs_wf, XRegisters};
use crate::components::system_bus::{BusView, MROM_BASE};
use crate::components::trap::{
    cause_value, delegated, take_exception, take_interrupt, Exception, Interrupt,
};
use crate::instructions::instruction::{
    decode_and_execute, execute, lemma_next_pc, next_pc, transfers_control,
};
use crate::util::{bit, pow256, set_bit, spec_bit, spec_set_bit};
use vstd::prelude::*;

verus! {

/// The privilege level of the hart. `Reserved` is the unused two-bit
/// encoding; it only ever arises from decoding a status field.
#[derive(Clone, Copy, Debug, PartialEq, Eq, Structural)]
pub enum PrivilegeMode {
    User,
    Supervisor,
    Machine,
    Reserved,
}

impl PrivilegeMode {
    /// The two-bit encoding of the mode.
    pub open spec fn spec_bits(self) -> u64 {
        match self {
            PrivilegeMode::User => 0,
            PrivilegeMode::Supervisor => 1,
            PrivilegeMode::Reserved => 2,
            PrivilegeMode::Machine => 3,
        }
    }

    /// The mode that a two-bit field encodes.
    pub open spec fn spec_from_bits(v: u64) -> PrivilegeMode {
        if v == 0 {
            PrivilegeMode::User
        } else if v == 1 {
            PrivilegeMode::Supervisor
        } else if v == 3 {
            PrivilegeMode::Machine
        } else {
            PrivilegeMode::Reserved
        }
    }

    #[verifier::when_used_as_spec(spec_bits)]
    pub fn bits(self) -> (r: u64)
        ensures
            r == self.spec_bits(),
            r < 4,
    {
        match self {
            PrivilegeMode::User => 0,
            PrivilegeMode::Supervisor => 1,
            PrivilegeMode::Reserved => 2,
            PrivilegeMode::Machine => 3,
        }
    }

    /// Decodes a two-bit field. Every value below 4 is accepted.
    pub fn from_unchecked(v: u8) -> (r: Self)
        requires
            v < 4,
        ensures
            r == Self::spec_from_bits(v as u64),
            r.spec_bits() == v,
    {
        if v == 0 {
            PrivilegeMode::User
        } else if v == 1 {
            PrivilegeMode::Supervisor
        } else if v == 3 {
            PrivilegeMode::Machine
        } else {
            PrivilegeMode::Reserved
        }
    }
}

/// The state of the hart and of everything behind its bus.
pub struct CpuView {
    /// The 32 integer registers.
    pub x: Seq<u64>,
    /// The program counter.
    pub pc: u64,
    /// The current privilege mode.
    pub mode: PrivilegeMode,
    /// The 4096 control and status registers.
    pub csr: Seq<u64>,
    /// The address that a load-reserved has reserved, if any.
    pub reservation: Option<u64>,
    /// Whether the hart waits for an interrupt.
    pub idle: bool,
    /// The devices.
    pub bus: BusView,
}

impl CpuView {
    /// The state after reset: machine mode, at the start of the mask ROM.
    pub open spec fn init() -> CpuView {
        CpuView {
            x: Seq::new(32, |i: int| 0u64),
            pc: MROM_BASE,
            mode: PrivilegeMode::Machine,
            csr: csr_init(),
            reservation: None,
            idle: false,
            bus: BusView::init(),
        }
    }

    /// What holds of the hart at all times: of its registers, of its
    /// control and status registers, and of everything behind its bus.
    pub open spec fn wf(self) -> bool {
        regs_wf(self.x) && csr_wf(self.csr) && self.bus.wf()
    }

    /// The status register.
    pub open spec fn mstatus(self) -> MStatus {
        MStatus { raw: self.csr[MSTATUS as int] }
    }

    /// What an address translation observes of the hart.
    pub open spec fn ctx(self) -> TranslationContext {
        TranslationContext {
            mode: self.mode,
            mstatus: self.mstatus(),
            satp: Sapt { raw: self.csr[SAPT as int] },
        }
    }

    /// The state with `value` written to register `rd`.
    pub open spec fn write_reg(self, rd: u8, value: u64) -> CpuView {
        CpuView { x: reg_write(self.x, rd, value), ..self }
    }

    /// The state with the program counter at `pc`.
    pub open spec fn jump(self, pc: u64) -> CpuView {
        CpuView { pc, ..self }
    }

    /// What a load at a virtual address returns, and the state it leaves.
    pub open spec fn load(self, vaddr: u64, size: Size) -> (CpuView, Result<u64, Exception>) {
        let (bus, r) = self.bus.load(self.ctx(), vaddr, size);
        (CpuView { bus, ..self }, r)
    }

    /// The state that a store at a virtual address leaves, and its outcome.
    pub open spec fn store(self, vaddr: u64, value: u64, size: Size) -> (
        CpuView,
        Result<(), Exception>,
    ) {
        let (bus, r) = self.bus.store(self.ctx(), vaddr, value, size);
        (CpuView { bus, ..self }, r)
    }

    /// The instruction word at the program counter, and the state that
    /// fetching it leaves.
    pub open spec fn fetch(self) -> (CpuView, Result<u32, Exception>) {
        let (bus, r) = self.bus.fetch(self.ctx(), self.pc);
        (CpuView { bus, ..self }, r)
    }
}

/// The interrupt that is delivered first among the pending and enabled
/// ones: machine before supervisor, and external before software before
/// timer.
pub open spec fn highest_pending(pending: u64) -> Option<Interrupt> {
    if spec_bit(pending, IP_MEIP) {
        Some(Interrupt::MachineExternal)
    } else if spec_bit(pending, IP_MSIP) {
        Some(Interrupt::MachineSoftware)
    } else if spec_bit(pending, IP_MTIP) {
        Some(Interrupt::MachineTimer)
    } else if spec_bit(pending, IP_SEIP) {
        Some(Interrupt::SupervisorExternal)
    } else if spec_bit(pending, IP_SSIP) {
        Some(Interrupt::SupervisorSoftware)
    } else if spec_bit(pending, IP_STIP) {
        Some(Interrupt::SupervisorTimer)
    } else {
        None
    }
}

impl CpuView {
    /// Whether the current mode lets interrupts through: machine and
    /// supervisor mode by their interrupt enable bits, user mode always.
    pub open spec fn interrupts_enabled(self) -> bool {
        match self.mode {
            PrivilegeMode::Machine => self.mstatus().spec_mie(),
            PrivilegeMode::Supervisor => self.mstatus().spec_sie(),
            _ => true,
        }
    }

    /// The state after the interrupt sources have been polled. Nothing
    /// happens while the current mode has interrupts disabled. Otherwise
    /// the source of the serial port becomes pending in the interrupt
    /// controller if the serial port raises its interrupt, and the first of
    /// the interrupts that are both pending and enabled, if there is one,
    /// leaves the pending register, wakes the hart and is taken. Every
    /// other bit of the pending register stays as it is.
    pub open spec fn poll_interrupt(self) -> CpuView {
        if !self.interrupts_enabled() {
            self
        } else {
            let polled = CpuView {
                bus: BusView {
                    plic: if self.bus.uart0.intr {
                        self.bus.plic.set_pending(IRQ_UART, true)
                    } else {
                        self.bus.plic
                    },
                    ..self.bus
                },
                ..self
            };
            match highest_pending(self.csr[MIP as int] & self.csr[MIE as int]) {
                None => polled,
                Some(interrupt) => take_interrupt(
                    CpuView {
                        csr: csr_write(
                            self.csr,
                            MIP as int,
                            spec_set_bit(self.csr[MIP as int], interrupt.spec_code(), false),
                        ),
                        idle: false,
                        ..polled
                    },
                    interrupt,
                ),
            }
        }
    }

    /// The state after the instruction at the program counter has been
    /// fetched and executed, and the exception that was taken, if any. The
    /// program counter moves on by four before the instruction is executed.
    pub open spec fn step(self) -> (CpuView, Option<Exception>) {
        let (fetched, r) = self.fetch();
        match r {
            Err(e) => (take_exception(fetched, e), Some(e)),
            Ok(instr) => {
                let (executed, r) = execute(fetched.jump(fetched.pc.wrapping_add(4)), instr);
                match r {
                    Err(e) => (take_exception(executed, e), Some(e)),
                    Ok(_) => (executed, None),
                }
            },
        }
    }

    /// The state after one tick, and the exception that was taken in it, if
    /// any: the interrupts are polled, and unless the hart then waits for
    /// an interrupt, one instruction is fetched and executed.
    pub open spec fn tick(self) -> (CpuView, Option<Exception>) {
        let polled = self.poll_interrupt();
        if polled.idle {
            (polled, None)
        } else {
            polled.step()
        }
    }

    /// The state after the hart has run until the test finisher holds an
    /// exit reason, for at most `limit` ticks.
    pub open spec fn run(self, limit: nat) -> CpuView
        decreases limit,
    {
        if limit == 0 || self.bus.exit != 0 {
            self
        } else {
            self.tick().0.run((limit - 1) as nat)
        }
    }
}

/// A hart with its memory and devices.
pub struct Cpu {
    pub x_regs: XRegisters,
    pub pc: u64,
    pub mmu: Mmu,
    pub p_mode: PrivilegeMode,
    pub csr: Csr,
    pub reservation: Option<u64>,
    pub is_idle: bool,
}

impl View for Cpu {
    type V = CpuView;

    open spec fn view(&self) -> CpuView {
        CpuView {
            x: self.x_regs@,
            pc: self.pc,
            mode: self.p_mode,
            csr: self.csr@,
            reservation: self.reservation,
            idle: self.is_idle,
            bus: self.mmu@,
        }
    }
}

impl Cpu {
    pub fn new() -> (r: Self)
        ensures
            r@ == CpuView::init(),
            r@.wf(),
    {
        let r = Self {
            x_regs: XRegisters::new(),
            pc: MROM_BASE,
            mmu: Mmu::new(),
            p_mode: PrivilegeMode::Machine,
            csr: Csr::new(),
            reservation: None,
            is_idle: false,
        };
        proof {
            r.x_regs.lemma_wf();
        }
        r
    }

    /// What an address translation observes of the hart.
    pub fn ctx(&self) -> (r: TranslationContext)
        ensures
            r == self@.ctx(),
    {
        TranslationContext {
            mode: self.p_mode,
            mstatus: self.csr.read_mstatus(),
            satp: self.csr.read_satp(),
        }
    }

    /// Loads from a virtual address with the rights of the hart.
    pub fn load(&mut self, vaddr: u64, size: Size) -> (r: Result<u64, Exception>)
        ensures
            (final(self)@, r) == old(self)@.load(vaddr, size),
            r matches Ok(v) ==> v < pow256(size.spec_bytes() as nat),
            old(self)@.wf() ==> final(self)@.wf(),
    {
        let ctx = self.ctx();
        self.mmu.load(ctx, vaddr, size)
    }

    /// Stores to a virtual address with the rights of the hart.
    pub fn store(&mut self, vaddr: u64, value: u64, size: Size) -> (r: Result<(), Exception>)
        ensures
            (final(self)@, r) == old(self)@.store(vaddr, value, size),
            old(self)@.wf() ==> final(self)@.wf(),
    {
        let ctx = self.ctx();
        self.mmu.store(ctx, vaddr, value, size)
    }
}

impl Cpu {
    /// Runs until the test finisher holds an exit reason, for at most
    /// `limit` ticks, and returns the exit reason: 0 if the limit was
    /// reached first.
    pub fn run(&mut self, limit: u64) -> (exit: u64)
        ensures
            final(self)@ == old(self)@.run(limit as nat),
            exit == final(self)@.bus.exit,
            old(self)@.wf() ==> final(self)@.wf(),
    {
        let mut left = limit;
        while left > 0 && self.mmu.bus.test.exit == 0
            invariant
                self@.run(left as nat) == old(self)@.run(limit as nat),
                old(self)@.wf() ==> self@.wf(),
            decreases left,
        {
            let _ = self.tick();
            left = left - 1;
        }
        self.mmu.bus.test.exit
    }

    /// Takes an exception.
    pub fn handle_exception(&mut self, e: Exception)
        ensures
            final(self)@ == take_exception(old(self)@, e),
            old(self)@.wf() ==> final(self)@.wf(),
    {
        e.take_trap(self);
    }

    /// Polls the interrupt sources and takes the first interrupt that is
    /// pending and enabled, whether or not the serial port raises one.
    pub fn handle_interrupt(&mut self)
        ensures
            final(self)@ == old(self)@.poll_interrupt(),
            old(self)@.wf() ==> final(self)@.wf(),
    {
        let mstatus = self.csr.read_mstatus();
        match self.p_mode {
            PrivilegeMode::Machine => {
                if !mstatus.mie() {
                    return ;
                }
            },
            PrivilegeMode::Supervisor => {
                if !mstatus.sie() {
                    return ;
                }
            },
            _ => {},
        }
        if self.mmu.bus.uart0.is_interrupting() {
            self.mmu.bus.plic.set_pending(IRQ_UART, true);
        }
        let raised = self.csr.get(MIP);
        let pending = raised & self.csr.get(MIE);
        let interrupt = if bit(pending, IP_MEIP) {
            Some(Interrupt::MachineExternal)
        } else if bit(pending, IP_MSIP) {
            Some(Interrupt::MachineSoftware)
        } else if bit(pending, IP_MTIP) {
            Some(Interrupt::MachineTimer)
        } else if bit(pending, IP_SEIP) {
            Some(Interrupt::SupervisorExternal)
        } else if bit(pending, IP_SSIP) {
            Some(Interrupt::SupervisorSoftware)
        } else if bit(pending, IP_STIP) {
            Some(Interrupt::SupervisorTimer)
        } else {
            None
        };
        match interrupt {
            None => {},
            Some(i) => {
                self.csr.set(MIP, set_bit(raised, i.code(), false));
                self.is_idle = false;
                i.take_trap(self);
            },
        }
    }

    /// Runs one tick and returns the exception that was taken in it, if
    /// any.
    pub fn tick(&mut self) -> (taken: Option<Exception>)
        ensures
            (final(self)@, taken) == old(self)@.tick(),
            old(self)@.wf() ==> final(self)@.wf(),
    {
        self.handle_interrupt();
        if self.is_idle {
            return None;
        }
        let ctx = self.ctx();
        let fetched = self.mmu.fetch(ctx, self.pc);
        let outcome = match fetched {
            Err(e) => Err(e),
            Ok(instr) => {
                self.pc = self.pc.wrapping_add(4);
                decode_and_execute(self, instr)
            },
        };
        match outcome {
            Ok(_) => None,
            Err(e) => {
                self.handle_exception(e);
                Some(e)
            },
        }
    }
}

/// After an instruction that takes no trap, the program counter is the
/// address of the next instruction: the target of a taken branch, of a
/// jump or of a return from a trap, and otherwise four bytes on.
pub proof fn lemma_step_advances_pc(s: CpuView, instr: u32)
    requires
        s.fetch().1 == Ok::<u32, Exception>(instr),
        s.step().1 is None,
    ensures
        s.step().0.pc == next_pc(s.fetch().0.jump(s.pc.wrapping_add(4)), instr),
        !transfers_control(instr) ==> s.step().0.pc == s.pc.wrapping_add(4),
{
    let fetched = s.fetch().0;
    lemma_next_pc(fetched.jump(fetched.pc.wrapping_add(4)), instr);
}

/// Whenever the current mode lets interrupts through and an interrupt is
/// both pending and enabled, polling takes the first such interrupt,
/// whatever the devices do: the hart no longer waits, it is in the mode
/// that handles the interrupt, and that mode's cause register holds the
/// interrupt's code with the interrupt bit.
pub proof fn lemma_deliverable_interrupt_is_taken(s: CpuView, i: Interrupt)
    requires
        s.csr.len() == CSR_SIZE,
        s.interrupts_enabled(),
        highest_pending(s.csr[MIP as int] & s.csr[MIE as int]) == Some(i),
    ensures
        !s.poll_interrupt().idle,
        delegated(s, i.spec_code(), true) ==> s.poll_interrupt().mode == PrivilegeMode::Supervisor
            && s.poll_interrupt().csr[SCAUSE as int] == cause_value(i.spec_code(), true),
        !delegated(s, i.spec_code(), true) ==> s.poll_interrupt().mode == PrivilegeMode::Machine
            && s.poll_interrupt().csr[MCAUSE as int] == cause_value(i.spec_code(), true),
        s.poll_interrupt().csr[MIP as int] == spec_set_bit(
            s.csr[MIP as int],
            i.spec_code(),
            false,
        ),
{
}

/// While no interrupt is both pending and enabled, polling takes no trap
/// and leaves the registers of the hart as they are.
pub proof fn lemma_nothing_deliverable(s: CpuView)
    requires
        highest_pending(s.csr[MIP as int] & s.csr[MIE as int]) is None,
    ensures
        s.poll_interrupt().csr == s.csr,
        s.poll_interrupt().pc == s.pc,
        s.poll_interrupt().mode == s.mode,
        s.poll_interrupt().idle == s.idle,
{
}

/// While the current mode has interrupts disabled, polling changes
/// nothing.
pub proof fn lemma_disabled_interrupts_are_held(s: CpuView)
    requires
        !s.interrupts_enabled(),
    ensures
        s.poll_interrupt() == s,
{
}

} // verus!
