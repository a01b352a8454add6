//! The control and status registers, and the fields of those that have a
//! structure.
use crate::components::trap::Exception;
use crate::cpu::PrivilegeMode;
use crate::util::{bit, field, set_bit, set_field, spec_bit, spec_field, spec_set_bit, spec_set_field};
use vstd::prelude::*;

verus! {

/// The number of control and status registers.
pub const CSR_SIZE: usize = 4096;

/// Supervisor status: the supervisor's view of the machine status register.
pub const SSTATUS: usize = 0x100;

/// Supervisor trap vector.
pub const STVEC: usize = 0x105;

/// Supervisor exception program counter.
pub const SEPC: usize = 0x141;

/// Supervisor trap cause.
pub const SCAUSE: usize = 0x142;

/// Supervisor trap value.
pub const STVAL: usize = 0x143;

/// Supervisor address translation and protection.
pub const SAPT: usize = 0x180;

/// Machine status register.
pub const MSTATUS: usize = 0x300;

/// ISA and extensions.
pub const MISA: usize = 0x301;

/// Machine exception delegation.
pub const MEDELEG: usize = 0x302;

/// Machine interrupt delegation.
pub const MIDELEG: usize = 0x303;

/// Machine interrupt enable.
pub const MIE: usize = 0x304;

/// Machine trap vector.
pub const MTVEC: usize = 0x305;

/// Machine exception program counter.
pub const MEPC: usize = 0x341;

/// Machine trap cause.
pub const MCAUSE: usize = 0x342;

/// Machine trap value.
pub const MTVAL: usize = 0x343;

/// Machine interrupt pending.
pub const MIP: usize = 0x344;

/// Vendor ID.
pub const MVENDORID: usize = 0xf11;

/// Architecture ID.
pub const MARCHID: usize = 0xf12;

/// Implementation ID.
pub const MIMPID: usize = 0xf13;

/// Hardware thread ID.
pub const MHARTID: usize = 0xf14;

/// Pointer to configuration data structure.
pub const MCONFIGPTR: usize = 0xf15;

/// What the ISA register reports: 64-bit registers and the extensions
/// M (bit 12), I (bit 8) and A (bit 0).
pub const MISA_VALUE: u64 = 0x8000_0000_0000_1101;

/// The read-only bits of the status register: the register widths of the
/// supervisor and user modes (SXL, UXL) and the three endianness bits
/// (MBE, SBE, UBE).
pub const MSTATUS_READ_ONLY: u64 = 0x3f_0000_0040;

/// The bits of the status register that a write can change.
pub const MSTATUS_WRITABLE: u64 = 0xffff_ffc0_ffff_ffbf;

/// What the read-only bits of the status register hold: both widths are 2
/// (64 bits) and every mode is little-endian.
pub const MSTATUS_FIXED: u64 = 0xa_0000_0000;

/// The bits of the status register that the supervisor's view shows.
pub const SSTATUS_MASK: u64 = 0x8000_0003_018d_e762;

/// The bits of the status register that can be written through the
/// supervisor's view: those it shows, less the read-only ones.
pub const SSTATUS_WRITABLE: u64 = 0x8000_0000_018d_e722;

/// The bits of the interrupt-pending and interrupt-enable registers.
pub const IP_SSIP: u64 = 1;

pub const IP_MSIP: u64 = 3;

pub const IP_STIP: u64 = 5;

pub const IP_MTIP: u64 = 7;

pub const IP_SEIP: u64 = 9;

pub const IP_MEIP: u64 = 11;

/// The machine status register.
#[derive(Clone, Copy, Debug, PartialEq, Eq, Structural)]
pub struct MStatus {
    pub raw: u64,
}

impl MStatus {
    /// Supervisor interrupt enable (bit 1).
    pub open spec fn spec_sie(&self) -> bool {
        spec_bit(self.raw, 1)
    }

    /// Machine interrupt enable (bit 3).
    pub open spec fn spec_mie(&self) -> bool {
        spec_bit(self.raw, 3)
    }

    /// Previous supervisor interrupt enable (bit 5).
    pub open spec fn spec_spie(&self) -> bool {
        spec_bit(self.raw, 5)
    }

    /// Previous machine interrupt enable (bit 7).
    pub open spec fn spec_mpie(&self) -> bool {
        spec_bit(self.raw, 7)
    }

    /// Supervisor previous privilege (bit 8): set for supervisor mode.
    pub open spec fn spec_spp(&self) -> bool {
        spec_bit(self.raw, 8)
    }

    /// Machine previous privilege (bits 11 and 12).
    pub open spec fn spec_mpp(&self) -> PrivilegeMode {
        PrivilegeMode::spec_from_bits(spec_field(self.raw, 11, 3))
    }

    /// Modify privilege (bit 17): loads and stores run at the previous
    /// machine privilege.
    pub open spec fn spec_mprv(&self) -> bool {
        spec_bit(self.raw, 17)
    }

    /// Permit supervisor access to user memory (bit 18).
    pub open spec fn spec_sum(&self) -> bool {
        spec_bit(self.raw, 18)
    }

    /// Make executable pages readable (bit 19).
    pub open spec fn spec_mxr(&self) -> bool {
        spec_bit(self.raw, 19)
    }

    /// Trap virtual memory management (bit 20).
    pub open spec fn spec_tvm(&self) -> bool {
        spec_bit(self.raw, 20)
    }

    /// Timeout wait (bit 21).
    pub open spec fn spec_tw(&self) -> bool {
        spec_bit(self.raw, 21)
    }

    /// Trap supervisor return (bit 22).
    pub open spec fn spec_tsr(&self) -> bool {
        spec_bit(self.raw, 22)
    }

    /// The register width of user mode (bits 32 and 33).
    pub open spec fn spec_uxl(&self) -> u64 {
        spec_field(self.raw, 32, 3)
    }

    /// The register width of supervisor mode (bits 34 and 35).
    pub open spec fn spec_sxl(&self) -> u64 {
        spec_field(self.raw, 34, 3)
    }

    pub fn new_with_raw_value(raw: u64) -> (r: Self)
        ensures
            r.raw == raw,
    {
        Self { raw }
    }

    pub fn raw_value(&self) -> (r: u64)
        ensures
            r == self.raw,
    {
        self.raw
    }

    #[verifier::when_used_as_spec(spec_sie)]
    pub fn sie(&self) -> (r: bool)
        ensures
            r == self.spec_sie(),
    {
        bit(self.raw, 1)
    }

    #[verifier::when_used_as_spec(spec_mie)]
    pub fn mie(&self) -> (r: bool)
        ensures
            r == self.spec_mie(),
    {
        bit(self.raw, 3)
    }

    #[verifier::when_used_as_spec(spec_spie)]
    pub fn spie(&self) -> (r: bool)
        ensures
            r == self.spec_spie(),
    {
        bit(self.raw, 5)
    }

    #[verifier::when_used_as_spec(spec_mpie)]
    pub fn mpie(&self) -> (r: bool)
        ensures
            r == self.spec_mpie(),
    {
        bit(self.raw, 7)
    }

    #[verifier::when_used_as_spec(spec_spp)]
    pub fn spp(&self) -> (r: bool)
        ensures
            r == self.spec_spp(),
    {
        bit(self.raw, 8)
    }

    #[verifier::when_used_as_spec(spec_mpp)]
    pub fn mpp(&self) -> (r: PrivilegeMode)
        ensures
            r == self.spec_mpp(),
    {
        PrivilegeMode::from_unchecked(field(self.raw, 11, 3) as u8)
    }

    #[verifier::when_used_as_spec(spec_mprv)]
    pub fn mprv(&self) -> (r: bool)
        ensures
            r == self.spec_mprv(),
    {
        bit(self.raw, 17)
    }

    #[verifier::when_used_as_spec(spec_sum)]
    pub fn sum(&self) -> (r: bool)
        ensures
            r == self.spec_sum(),
    {
        bit(self.raw, 18)
    }

    #[verifier::when_used_as_spec(spec_mxr)]
    pub fn mxr(&self) -> (r: bool)
        ensures
            r == self.spec_mxr(),
    {
        bit(self.raw, 19)
    }

    #[verifier::when_used_as_spec(spec_tvm)]
    pub fn tvm(&self) -> (r: bool)
        ensures
            r == self.spec_tvm(),
    {
        bit(self.raw, 20)
    }

    #[verifier::when_used_as_spec(spec_tw)]
    pub fn tw(&self) -> (r: bool)
        ensures
            r == self.spec_tw(),
    {
        bit(self.raw, 21)
    }

    #[verifier::when_used_as_spec(spec_tsr)]
    pub fn tsr(&self) -> (r: bool)
        ensures
            r == self.spec_tsr(),
    {
        bit(self.raw, 22)
    }

    #[verifier::when_used_as_spec(spec_uxl)]
    pub fn uxl(&self) -> (r: u64)
        ensures
            r == self.spec_uxl(),
    {
        field(self.raw, 32, 3)
    }

    #[verifier::when_used_as_spec(spec_sxl)]
    pub fn sxl(&self) -> (r: u64)
        ensures
            r == self.spec_sxl(),
    {
        field(self.raw, 34, 3)
    }

    pub fn set_sie(&mut self, value: bool)
        ensures
            final(self).raw == spec_set_bit(old(self).raw, 1, value),
    {
        self.raw = set_bit(self.raw, 1, value);
    }

    pub fn set_mie(&mut self, value: bool)
        ensures
            final(self).raw == spec_set_bit(old(self).raw, 3, value),
    {
        self.raw = set_bit(self.raw, 3, value);
    }

    pub fn set_spie(&mut self, value: bool)
        ensures
            final(self).raw == spec_set_bit(old(self).raw, 5, value),
    {
        self.raw = set_bit(self.raw, 5, value);
    }

    pub fn set_mpie(&mut self, value: bool)
        ensures
            final(self).raw == spec_set_bit(old(self).raw, 7, value),
    {
        self.raw = set_bit(self.raw, 7, value);
    }

    pub fn set_spp(&mut self, value: bool)
        ensures
            final(self).raw == spec_set_bit(old(self).raw, 8, value),
    {
        self.raw = set_bit(self.raw, 8, value);
    }

    pub fn set_mpp(&mut self, value: PrivilegeMode)
        ensures
            final(self).raw == spec_set_field(old(self).raw, 11, 3, value.spec_bits()),
    {
        self.raw = set_field(self.raw, 11, 3, value.bits());
    }

    pub fn set_mprv(&mut self, value: bool)
        ensures
            final(self).raw == spec_set_bit(old(self).raw, 17, value),
    {
        self.raw = set_bit(self.raw, 17, value);
    }
}

/// The supervisor's view of the status register.
#[derive(Clone, Copy, Debug, PartialEq, Eq, Structural)]
pub struct SStatus {
    pub raw: u64,
}

impl SStatus {
    /// Supervisor interrupt enable (bit 1).
    pub open spec fn spec_sie(&self) -> bool {
        spec_bit(self.raw, 1)
    }

    /// Previous supervisor interrupt enable (bit 5).
    pub open spec fn spec_spie(&self) -> bool {
        spec_bit(self.raw, 5)
    }

    /// Supervisor previous privilege (bit 8).
    pub open spec fn spec_spp(&self) -> bool {
        spec_bit(self.raw, 8)
    }

    pub fn new_with_raw_value(raw: u64) -> (r: Self)
        ensures
            r.raw == raw,
    {
        Self { raw }
    }

    pub fn raw_value(&self) -> (r: u64)
        ensures
            r == self.raw,
    {
        self.raw
    }

    #[verifier::when_used_as_spec(spec_sie)]
    pub fn sie(&self) -> (r: bool)
        ensures
            r == self.spec_sie(),
    {
        bit(self.raw, 1)
    }

    #[verifier::when_used_as_spec(spec_spie)]
    pub fn spie(&self) -> (r: bool)
        ensures
            r == self.spec_spie(),
    {
        bit(self.raw, 5)
    }

    #[verifier::when_used_as_spec(spec_spp)]
    pub fn spp(&self) -> (r: bool)
        ensures
            r == self.spec_spp(),
    {
        bit(self.raw, 8)
    }

    pub fn set_sie(&mut self, value: bool)
        ensures
            final(self).raw == spec_set_bit(old(self).raw, 1, value),
    {
        self.raw = set_bit(self.raw, 1, value);
    }

    pub fn set_spie(&mut self, value: bool)
        ensures
            final(self).raw == spec_set_bit(old(self).raw, 5, value),
    {
        self.raw = set_bit(self.raw, 5, value);
    }

    pub fn set_spp(&mut self, value: bool)
        ensures
            final(self).raw == spec_set_bit(old(self).raw, 8, value),
    {
        self.raw = set_bit(self.raw, 8, value);
    }
}

/// The address translation and protection register.
#[derive(Clone, Copy, Debug, PartialEq, Eq, Structural)]
pub struct Sapt {
    pub raw: u64,
}

/// The translation mode that stands for the three-level page table.
pub const SATP_MODE_SV39: u64 = 8;

impl Sapt {
    /// The translation mode (bits 60 to 63).
    pub open spec fn spec_mode(&self) -> u64 {
        spec_field(self.raw, 60, 0xf)
    }

    /// The address space identifier (bits 44 to 59).
    pub open spec fn spec_asid(&self) -> u64 {
        spec_field(self.raw, 44, 0xffff)
    }

    /// The physical page number of the root page table (bits 0 to 43).
    pub open spec fn spec_ppn(&self) -> u64 {
        spec_field(self.raw, 0, 0xfff_ffff_ffff)
    }

    pub fn new_with_raw_value(raw: u64) -> (r: Self)
        ensures
            r.raw == raw,
    {
        Self { raw }
    }

    pub fn raw_value(&self) -> (r: u64)
        ensures
            r == self.raw,
    {
        self.raw
    }

    #[verifier::when_used_as_spec(spec_mode)]
    pub fn mode(&self) -> (r: u64)
        ensures
            r == self.spec_mode(),
            r <= 0xf,
    {
        field(self.raw, 60, 0xf)
    }

    #[verifier::when_used_as_spec(spec_asid)]
    pub fn asid(&self) -> (r: u64)
        ensures
            r == self.spec_asid(),
            r <= 0xffff,
    {
        field(self.raw, 44, 0xffff)
    }

    #[verifier::when_used_as_spec(spec_ppn)]
    pub fn ppn(&self) -> (r: u64)
        ensures
            r == self.spec_ppn(),
            r <= 0xfff_ffff_ffff,
    {
        field(self.raw, 0, 0xfff_ffff_ffff)
    }
}

/// Whether writes to the register at `addr` are discarded.
pub open spec fn csr_read_only(addr: int) -> bool {
    addr == MISA || addr == MVENDORID || addr == MARCHID || addr == MIMPID || addr == MHARTID
}

/// `old` with the bits under `mask` taken from `new`.
pub open spec fn merge_bits(old: u64, new: u64, mask: u64) -> u64 {
    (old & !mask) | (new & mask)
}

/// What a read of the register at `addr` returns. The supervisor status
/// register shows the bits of the machine status register that are visible
/// to the supervisor, and zero elsewhere.
pub open spec fn csr_read(c: Seq<u64>, addr: int) -> u64 {
    if addr == SSTATUS {
        c[MSTATUS as int] & SSTATUS_MASK
    } else {
        c[addr]
    }
}

/// The registers after `value` has been written to the register at `addr`.
/// The ISA and ID registers keep their values; the status register keeps
/// its read-only bits; a write to the supervisor status register changes
/// only the writable bits of the machine status register that the
/// supervisor sees.
pub open spec fn csr_write(c: Seq<u64>, addr: int, value: u64) -> Seq<u64> {
    if csr_read_only(addr) {
        c
    } else if addr == MSTATUS {
        c.update(MSTATUS as int, merge_bits(c[MSTATUS as int], value, MSTATUS_WRITABLE))
    } else if addr == SSTATUS {
        c.update(MSTATUS as int, merge_bits(c[MSTATUS as int], value, SSTATUS_WRITABLE))
    } else {
        c.update(addr, value)
    }
}

/// The registers after reset.
pub open spec fn csr_init() -> Seq<u64> {
    Seq::new(
        CSR_SIZE as nat,
        |i: int|
            if i == MISA {
                MISA_VALUE
            } else if i == MSTATUS {
                MSTATUS_FIXED
            } else {
                0u64
            },
    )
}

/// What holds of the registers at all times: the ISA register reports
/// 64-bit registers with the M, I and A extensions, the ID registers are 0,
/// and in the status register both register widths are 2 and all
/// endianness bits 0.
pub open spec fn csr_wf(c: Seq<u64>) -> bool {
    &&& c.len() == CSR_SIZE
    &&& c[MISA as int] == MISA_VALUE
    &&& c[MVENDORID as int] == 0
    &&& c[MARCHID as int] == 0
    &&& c[MIMPID as int] == 0
    &&& c[MHARTID as int] == 0
    &&& c[MSTATUS as int] & MSTATUS_READ_ONLY == MSTATUS_FIXED
}

/// The control and status registers: a flat file of 4096 64-bit words.
pub struct Csr {
    pub csrs: [u64; CSR_SIZE],
}

impl View for Csr {
    type V = Seq<u64>;

    open spec fn view(&self) -> Seq<u64> {
        self.csrs@
    }
}

impl Csr {
    /// What a checked read returns: an address outside the file is an
    /// illegal instruction.
    pub open spec fn spec_read(c: Seq<u64>, addr: usize) -> Result<u64, Exception> {
        if addr < CSR_SIZE {
            Ok(csr_read(c, addr as int))
        } else {
            Err(Exception::IllegalInstruction)
        }
    }

    /// What a checked write leaves and returns.
    pub open spec fn spec_write(c: Seq<u64>, addr: usize, value: u64) -> (
        Seq<u64>,
        Result<(), Exception>,
    ) {
        if addr < CSR_SIZE {
            (csr_write(c, addr as int, value), Ok(()))
        } else {
            (c, Err(Exception::IllegalInstruction))
        }
    }

    pub fn new() -> (r: Self)
        ensures
            r@ == csr_init(),
            csr_wf(r@),
    {
        let mut csrs = [0u64; CSR_SIZE];
        csrs[MISA] = MISA_VALUE;
        csrs[MSTATUS] = MSTATUS_FIXED;
        assert(csrs@ =~= csr_init());
        assert(0xa_0000_0000u64 & 0x3f_0000_0040u64 == 0xa_0000_0000u64) by (bit_vector);
        Self { csrs }
    }

    /// Reads the register at an address within the file.
    pub fn get(&self, addr: usize) -> (r: u64)
        requires
            addr < CSR_SIZE,
        ensures
            r == csr_read(self@, addr as int),
    {
        if addr == SSTATUS {
            self.csrs[MSTATUS] & SSTATUS_MASK
        } else {
            self.csrs[addr]
        }
    }

    /// Writes the register at an address within the file.
    pub fn set(&mut self, addr: usize, val: u64)
        requires
            addr < CSR_SIZE,
        ensures
            final(self)@ == csr_write(old(self)@, addr as int, val),
            csr_wf(old(self)@) ==> csr_wf(final(self)@),
    {
        proof {
            lemma_csr_write_wf(self@, addr as int, val);
        }
        if addr == MISA || addr == MVENDORID || addr == MARCHID || addr == MIMPID || addr
            == MHARTID {
        } else if addr == MSTATUS {
            self.csrs[MSTATUS] = (self.csrs[MSTATUS] & !MSTATUS_WRITABLE) | (val
                & MSTATUS_WRITABLE);
        } else if addr == SSTATUS {
            self.csrs[MSTATUS] = (self.csrs[MSTATUS] & !SSTATUS_WRITABLE) | (val
                & SSTATUS_WRITABLE);
        } else {
            self.csrs[addr] = val;
        }
    }

    pub fn read(&self, addr: usize) -> (r: Result<u64, Exception>)
        ensures
            r == Self::spec_read(self@, addr),
    {
        if addr < CSR_SIZE {
            Ok(self.get(addr))
        } else {
            Err(Exception::IllegalInstruction)
        }
    }

    pub fn write(&mut self, addr: usize, val: u64) -> (r: Result<(), Exception>)
        ensures
            (final(self)@, r) == Self::spec_write(old(self)@, addr, val),
            csr_wf(old(self)@) ==> csr_wf(final(self)@),
    {
        if addr < CSR_SIZE {
            self.set(addr, val);
            Ok(())
        } else {
            Err(Exception::IllegalInstruction)
        }
    }

    pub fn read_mstatus(&self) -> (r: MStatus)
        ensures
            r.raw == self@[MSTATUS as int],
    {
        MStatus::new_with_raw_value(self.csrs[MSTATUS])
    }

    pub fn write_mstatus(&mut self, value: &MStatus)
        ensures
            final(self)@ == csr_write(old(self)@, MSTATUS as int, value.raw),
            csr_wf(old(self)@) ==> csr_wf(final(self)@),
    {
        self.set(MSTATUS, value.raw_value());
    }

    pub fn read_sstatus(&self) -> (r: SStatus)
        ensures
            r.raw == csr_read(self@, SSTATUS as int),
    {
        SStatus::new_with_raw_value(self.get(SSTATUS))
    }

    pub fn write_sstatus(&mut self, value: &SStatus)
        ensures
            final(self)@ == csr_write(old(self)@, SSTATUS as int, value.raw),
            csr_wf(old(self)@) ==> csr_wf(final(self)@),
    {
        self.set(SSTATUS, value.raw_value());
    }

    pub fn read_satp(&self) -> (r: Sapt)
        ensures
            r.raw == self@[SAPT as int],
    {
        Sapt::new_with_raw_value(self.csrs[SAPT])
    }
}

/// No write changes what holds of the registers at all times.
pub proof fn lemma_csr_write_wf(c: Seq<u64>, addr: int, value: u64)
    requires
        c.len() == CSR_SIZE,
        0 <= addr < CSR_SIZE,
    ensures
        csr_write(c, addr, value).len() == CSR_SIZE,
        csr_wf(c) ==> csr_wf(csr_write(c, addr, value)),
{
    let old_status = c[MSTATUS as int];
    assert(((old_status & !0xffff_ffc0_ffff_ffbfu64) | (value & 0xffff_ffc0_ffff_ffbfu64))
        & 0x3f_0000_0040u64
        == old_status & 0x3f_0000_0040u64 && ((old_status & !0x8000_0000_018d_e722u64) | (value
        & 0x8000_0000_018d_e722u64)) & 0x3f_0000_0040u64 == old_status & 0x3f_0000_0040u64)
        by (bit_vector);
}

/// The supervisor's view hides every bit of the status register outside
/// its mask, and a write through it leaves those bits as they were.
pub proof fn lemma_sstatus_view(c: Seq<u64>, value: u64)
    requires
        c.len() == CSR_SIZE,
    ensures
        csr_read(c, SSTATUS as int) & !SSTATUS_MASK == 0,
        csr_write(c, SSTATUS as int, value)[MSTATUS as int] & !SSTATUS_MASK == c[MSTATUS as int]
            & !SSTATUS_MASK,
{
    let o = c[MSTATUS as int];
    assert((o & 0x8000_0003_018d_e762u64) & !0x8000_0003_018d_e762u64 == 0 && ((o
        & !0x8000_0000_018d_e722u64) | (value & 0x8000_0000_018d_e722u64))
        & !0x8000_0003_018d_e762u64 == o & !0x8000_0003_018d_e762u64) by (bit_vector);
}

} // verus!
