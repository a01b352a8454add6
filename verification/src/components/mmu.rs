//! Memory accesses by virtual address: access widths and kinds, the formats
//! of the three-level translation scheme, and the page table walk.
use crate::components::csr::{MStatus, Sapt, SATP_MODE_SV39};
use crate::components::devices::dram::in_bounds;
use crate::components::system_bus::{
    fault_at, lemma_bus_store_then_load, lemma_bus_wf, lemma_write_keeps_memory, BusView,
    SystemBus, DRAM_BASE, DRAM_END, MROM_BASE, MROM_END,
};
use crate::components::trap::Exception;
use crate::cpu::PrivilegeMode;
use crate::util::{
    bit, field, lemma_set_bit, set_bit, set_field, spec_bit, spec_field, spec_set_bit,
    spec_set_field,
};
use vstd::prelude::*;

verus! {

/// The size of a page, of a page table and of a page table's alignment.
pub const PAGESIZE: u64 = 4096;

/// The number of levels of the page table.
pub const LEVELS: u8 = 3;

/// The size of a page table entry.
pub const PTESIZE: u64 = 8;

/// The width of a memory access.
#[derive(Clone, Copy, Debug, PartialEq, Eq, Structural)]
pub enum Size {
    BYTE,
    HWORD,
    WORD,
    DWORD,
}

impl Size {
    /// The number of bytes of the access.
    pub open spec fn spec_bytes(self) -> u64 {
        match self {
            Size::BYTE => 1,
            Size::HWORD => 2,
            Size::WORD => 4,
            Size::DWORD => 8,
        }
    }

    #[verifier::when_used_as_spec(spec_bytes)]
    pub fn bytes(self) -> (r: u64)
        ensures
            r == self.spec_bytes(),
    {
        match self {
            Size::BYTE => 1,
            Size::HWORD => 2,
            Size::WORD => 4,
            Size::DWORD => 8,
        }
    }

    /// The access width of `v` bytes, for `v` one of 1, 2, 4 and 8.
    pub fn from_unchecked(v: u8) -> (r: Self)
        requires
            v == 1 || v == 2 || v == 4 || v == 8,
        ensures
            r.spec_bytes() == v,
    {
        if v == 1 {
            Size::BYTE
        } else if v == 2 {
            Size::HWORD
        } else if v == 4 {
            Size::WORD
        } else {
            Size::DWORD
        }
    }
}

/// The purpose of a memory access, which decides the permissions it needs
/// and the faults it can raise.
#[derive(Clone, Copy, Debug, PartialEq, Eq, Structural)]
pub enum MemoryAccessType {
    /// An instruction fetch, which needs execute permission.
    Instruction,
    /// A load, which needs read permission.
    Load,
    /// A store, which needs write permission.
    Store,
}

impl MemoryAccessType {
    /// The page fault of this kind of access at `vaddr`.
    pub open spec fn spec_page_fault(&self, vaddr: u64) -> Exception {
        match self {
            MemoryAccessType::Instruction => Exception::InstructionPageFault(vaddr),
            MemoryAccessType::Load => Exception::LoadPageFault(vaddr),
            MemoryAccessType::Store => Exception::StorePageFault(vaddr),
        }
    }

    /// The access fault of this kind of access at `vaddr`.
    pub open spec fn spec_access_fault(&self, vaddr: u64) -> Exception {
        match self {
            MemoryAccessType::Instruction => Exception::InstructionAccessFault(vaddr),
            MemoryAccessType::Load => Exception::LoadAccessFault(vaddr),
            MemoryAccessType::Store => Exception::StoreAccessFault(vaddr),
        }
    }

    #[verifier::when_used_as_spec(spec_page_fault)]
    pub fn page_fault(&self, vaddr: u64) -> (r: Exception)
        ensures
            r == self.spec_page_fault(vaddr),
    {
        match self {
            MemoryAccessType::Instruction => Exception::InstructionPageFault(vaddr),
            MemoryAccessType::Load => Exception::LoadPageFault(vaddr),
            MemoryAccessType::Store => Exception::StorePageFault(vaddr),
        }
    }

    #[verifier::when_used_as_spec(spec_access_fault)]
    pub fn access_fault(&self, vaddr: u64) -> (r: Exception)
        ensures
            r == self.spec_access_fault(vaddr),
    {
        match self {
            MemoryAccessType::Instruction => Exception::InstructionAccessFault(vaddr),
            MemoryAccessType::Load => Exception::LoadAccessFault(vaddr),
            MemoryAccessType::Store => Exception::StoreAccessFault(vaddr),
        }
    }
}

/// A virtual address of the three-level scheme: 39 bits.
#[derive(Clone, Copy, Debug, PartialEq, Eq, Structural)]
pub struct Sv39va {
    pub raw: u64,
}

impl Sv39va {
    /// The virtual address that the low 39 bits of `vaddr` make. Bits 39 to
    /// 63 of `vaddr` are dropped, whatever they hold.
    pub open spec fn spec_new(vaddr: u64) -> Sv39va {
        Sv39va { raw: vaddr & 0x7f_ffff_ffff }
    }

    /// Virtual page number `i` (nine bits, from bit `12 + 9 i`).
    pub open spec fn spec_vpn(&self, i: u8) -> u64 {
        spec_field(self.raw, (12 + 9 * i) as u64, 0x1ff)
    }

    /// The offset within the page (bits 0 to 11).
    pub open spec fn spec_offset(&self) -> u64 {
        spec_field(self.raw, 0, 0xfff)
    }

    #[verifier::when_used_as_spec(spec_new)]
    pub fn new_with_raw_value(vaddr: u64) -> (r: Self)
        ensures
            r == Self::spec_new(vaddr),
    {
        Self { raw: vaddr & 0x7f_ffff_ffff }
    }

    pub fn raw_value(&self) -> (r: u64)
        ensures
            r == self.raw,
    {
        self.raw
    }

    #[verifier::when_used_as_spec(spec_vpn)]
    pub fn vpn(&self, i: u8) -> (r: u64)
        requires
            i < 3,
        ensures
            r == self.spec_vpn(i),
            r <= 0x1ff,
    {
        field(self.raw, (12 + 9 * i) as u64, 0x1ff)
    }

    #[verifier::when_used_as_spec(spec_offset)]
    pub fn offset(&self) -> (r: u64)
        ensures
            r == self.spec_offset(),
            r <= 0xfff,
    {
        field(self.raw, 0, 0xfff)
    }
}

/// A physical address of the three-level scheme: 56 bits.
#[derive(Clone, Copy, Debug, PartialEq, Eq, Structural)]
pub struct Sv39pa {
    pub raw: u64,
}

impl Sv39pa {
    /// The address with the given page numbers and offset.
    pub open spec fn spec_compose(ppn2: u64, ppn1: u64, ppn0: u64, offset: u64) -> Sv39pa {
        Sv39pa {
            raw: spec_set_field(
                spec_set_field(
                    spec_set_field(spec_set_field(0, 0, 0xfff, offset), 12, 0x1ff, ppn0),
                    21,
                    0x1ff,
                    ppn1,
                ),
                30,
                0x3ff_ffff,
                ppn2,
            ),
        }
    }

    /// Physical page number 2 (bits 30 to 55).
    pub open spec fn spec_ppn2(&self) -> u64 {
        spec_field(self.raw, 30, 0x3ff_ffff)
    }

    /// Physical page number 1 (bits 21 to 29).
    pub open spec fn spec_ppn1(&self) -> u64 {
        spec_field(self.raw, 21, 0x1ff)
    }

    /// Physical page number 0 (bits 12 to 20).
    pub open spec fn spec_ppn0(&self) -> u64 {
        spec_field(self.raw, 12, 0x1ff)
    }

    /// The offset within the page (bits 0 to 11).
    pub open spec fn spec_offset(&self) -> u64 {
        spec_field(self.raw, 0, 0xfff)
    }

    pub fn new_with_raw_value(raw: u64) -> (r: Self)
        ensures
            r.raw == raw,
    {
        Self { raw }
    }

    pub fn raw_value(&self) -> (r: u64)
        ensures
            r == self.raw,
    {
        self.raw
    }

    #[verifier::when_used_as_spec(spec_ppn2)]
    pub fn ppn2(&self) -> (r: u64)
        ensures
            r == self.spec_ppn2(),
    {
        field(self.raw, 30, 0x3ff_ffff)
    }

    #[verifier::when_used_as_spec(spec_ppn1)]
    pub fn ppn1(&self) -> (r: u64)
        ensures
            r == self.spec_ppn1(),
    {
        field(self.raw, 21, 0x1ff)
    }

    #[verifier::when_used_as_spec(spec_ppn0)]
    pub fn ppn0(&self) -> (r: u64)
        ensures
            r == self.spec_ppn0(),
    {
        field(self.raw, 12, 0x1ff)
    }

    #[verifier::when_used_as_spec(spec_offset)]
    pub fn offset(&self) -> (r: u64)
        ensures
            r == self.spec_offset(),
    {
        field(self.raw, 0, 0xfff)
    }

    pub fn set_ppn2(&mut self, value: u64)
        ensures
            final(self).raw == spec_set_field(old(self).raw, 30, 0x3ff_ffff, value),
    {
        self.raw = set_field(self.raw, 30, 0x3ff_ffff, value);
    }

    pub fn set_ppn1(&mut self, value: u64)
        ensures
            final(self).raw == spec_set_field(old(self).raw, 21, 0x1ff, value),
    {
        self.raw = set_field(self.raw, 21, 0x1ff, value);
    }

    pub fn set_ppn0(&mut self, value: u64)
        ensures
            final(self).raw == spec_set_field(old(self).raw, 12, 0x1ff, value),
    {
        self.raw = set_field(self.raw, 12, 0x1ff, value);
    }

    pub fn set_offset(&mut self, value: u64)
        ensures
            final(self).raw == spec_set_field(old(self).raw, 0, 0xfff, value),
    {
        self.raw = set_field(self.raw, 0, 0xfff, value);
    }
}

/// A page table entry of the three-level scheme.
#[derive(Clone, Copy, Debug, PartialEq, Eq, Structural)]
pub struct Sv39pte {
    pub raw: u64,
}

impl Sv39pte {
    /// Valid (bit 0).
    pub open spec fn spec_v(&self) -> bool {
        spec_bit(self.raw, 0)
    }

    /// Readable (bit 1).
    pub open spec fn spec_r(&self) -> bool {
        spec_bit(self.raw, 1)
    }

    /// Writable (bit 2).
    pub open spec fn spec_w(&self) -> bool {
        spec_bit(self.raw, 2)
    }

    /// Executable (bit 3).
    pub open spec fn spec_x(&self) -> bool {
        spec_bit(self.raw, 3)
    }

    /// Accessible in user mode (bit 4).
    pub open spec fn spec_u(&self) -> bool {
        spec_bit(self.raw, 4)
    }

    /// Global (bit 5).
    pub open spec fn spec_g(&self) -> bool {
        spec_bit(self.raw, 5)
    }

    /// Accessed (bit 6).
    pub open spec fn spec_a(&self) -> bool {
        spec_bit(self.raw, 6)
    }

    /// Dirty (bit 7).
    pub open spec fn spec_d(&self) -> bool {
        spec_bit(self.raw, 7)
    }

    /// Reserved for software (bits 8 and 9).
    pub open spec fn spec_rsw(&self) -> u64 {
        spec_field(self.raw, 8, 3)
    }

    /// Physical page number 0 (bits 10 to 18).
    pub open spec fn spec_ppn0(&self) -> u64 {
        spec_field(self.raw, 10, 0x1ff)
    }

    /// Physical page number 1 (bits 19 to 27).
    pub open spec fn spec_ppn1(&self) -> u64 {
        spec_field(self.raw, 19, 0x1ff)
    }

    /// Physical page number 2 (bits 28 to 53).
    pub open spec fn spec_ppn2(&self) -> u64 {
        spec_field(self.raw, 28, 0x3ff_ffff)
    }

    /// The whole physical page number (bits 10 to 53).
    pub open spec fn spec_ppn(&self) -> u64 {
        spec_field(self.raw, 10, 0xfff_ffff_ffff)
    }

    /// Page-based memory type (bits 61 and 62).
    pub open spec fn spec_pbmt(&self) -> u64 {
        spec_field(self.raw, 61, 3)
    }

    /// Naturally aligned power-of-two translation (bit 63).
    pub open spec fn spec_n(&self) -> bool {
        spec_bit(self.raw, 63)
    }

    pub fn new_with_raw_value(raw: u64) -> (r: Self)
        ensures
            r.raw == raw,
    {
        Self { raw }
    }

    pub fn raw_value(&self) -> (r: u64)
        ensures
            r == self.raw,
    {
        self.raw
    }

    #[verifier::when_used_as_spec(spec_v)]
    pub fn v(&self) -> (r: bool)
        ensures
            r == self.spec_v(),
    {
        bit(self.raw, 0)
    }

    #[verifier::when_used_as_spec(spec_r)]
    pub fn r(&self) -> (r: bool)
        ensures
            r == self.spec_r(),
    {
        bit(self.raw, 1)
    }

    #[verifier::when_used_as_spec(spec_w)]
    pub fn w(&self) -> (r: bool)
        ensures
            r == self.spec_w(),
    {
        bit(self.raw, 2)
    }

    #[verifier::when_used_as_spec(spec_x)]
    pub fn x(&self) -> (r: bool)
        ensures
            r == self.spec_x(),
    {
        bit(self.raw, 3)
    }

    #[verifier::when_used_as_spec(spec_u)]
    pub fn u(&self) -> (r: bool)
        ensures
            r == self.spec_u(),
    {
        bit(self.raw, 4)
    }

    #[verifier::when_used_as_spec(spec_g)]
    pub fn g(&self) -> (r: bool)
        ensures
            r == self.spec_g(),
    {
        bit(self.raw, 5)
    }

    #[verifier::when_used_as_spec(spec_a)]
    pub fn a(&self) -> (r: bool)
        ensures
            r == self.spec_a(),
    {
        bit(self.raw, 6)
    }

    #[verifier::when_used_as_spec(spec_d)]
    pub fn d(&self) -> (r: bool)
        ensures
            r == self.spec_d(),
    {
        bit(self.raw, 7)
    }

    #[verifier::when_used_as_spec(spec_rsw)]
    pub fn rsw(&self) -> (r: u64)
        ensures
            r == self.spec_rsw(),
    {
        field(self.raw, 8, 3)
    }

    #[verifier::when_used_as_spec(spec_ppn0)]
    pub fn ppn0(&self) -> (r: u64)
        ensures
            r == self.spec_ppn0(),
            r <= 0x1ff,
    {
        field(self.raw, 10, 0x1ff)
    }

    #[verifier::when_used_as_spec(spec_ppn1)]
    pub fn ppn1(&self) -> (r: u64)
        ensures
            r == self.spec_ppn1(),
            r <= 0x1ff,
    {
        field(self.raw, 19, 0x1ff)
    }

    #[verifier::when_used_as_spec(spec_ppn2)]
    pub fn ppn2(&self) -> (r: u64)
        ensures
            r == self.spec_ppn2(),
            r <= 0x3ff_ffff,
    {
        field(self.raw, 28, 0x3ff_ffff)
    }

    #[verifier::when_used_as_spec(spec_ppn)]
    pub fn ppn(&self) -> (r: u64)
        ensures
            r == self.spec_ppn(),
            r <= 0xfff_ffff_ffff,
    {
        field(self.raw, 10, 0xfff_ffff_ffff)
    }

    #[verifier::when_used_as_spec(spec_pbmt)]
    pub fn pbmt(&self) -> (r: u64)
        ensures
            r == self.spec_pbmt(),
    {
        field(self.raw, 61, 3)
    }

    #[verifier::when_used_as_spec(spec_n)]
    pub fn n(&self) -> (r: bool)
        ensures
            r == self.spec_n(),
    {
        bit(self.raw, 63)
    }

    pub fn set_a(&mut self, value: bool)
        ensures
            final(self).raw == spec_set_bit(old(self).raw, 6, value),
    {
        self.raw = set_bit(self.raw, 6, value);
    }

    pub fn set_d(&mut self, value: bool)
        ensures
            final(self).raw == spec_set_bit(old(self).raw, 7, value),
    {
        self.raw = set_bit(self.raw, 7, value);
    }
}

/// What a translation observes of the hart: its privilege mode, the status
/// register and the address translation register.
#[derive(Clone, Copy, Debug, PartialEq, Eq, Structural)]
pub struct TranslationContext {
    pub mode: PrivilegeMode,
    pub mstatus: MStatus,
    pub satp: Sapt,
}

impl TranslationContext {
    /// The mode whose rights an access has: with the modify-privilege bit
    /// set, loads and stores run at the previous machine privilege.
    pub open spec fn effective_mode(self, access: MemoryAccessType) -> PrivilegeMode {
        if self.mstatus.spec_mprv() && access != MemoryAccessType::Instruction {
            self.mstatus.spec_mpp()
        } else {
            self.mode
        }
    }

    /// Whether addresses are translated at all: not in machine mode, and
    /// not unless the three-level scheme is selected.
    pub open spec fn translates(self) -> bool {
        self.mode != PrivilegeMode::Machine && self.satp.spec_mode() == SATP_MODE_SV39
    }

    /// The physical address of the root page table.
    pub open spec fn root(self) -> u64 {
        (self.satp.spec_ppn() * PAGESIZE) as u64
    }
}

/// How a walk through the page table ends.
pub enum Walk {
    /// A leaf entry was found: its value, its physical address and the
    /// level at which it stands.
    Leaf { pte: Sv39pte, addr: u64, level: u8 },
    /// An entry was invalid, or the last level held no leaf.
    PageFault,
    /// An entry could not be read.
    AccessFault,
}

/// The physical address of the entry for `va` in the table at `table`, at
/// the given level.
pub open spec fn pte_address(table: u64, va: Sv39va, level: u8) -> u64 {
    (table + va.spec_vpn(level) * PTESIZE) as u64
}

/// The walk through the page table for `va`, from the table at `table` at
/// the given level down: an entry that is invalid, or writable without
/// being readable, is a page fault; a readable or executable entry is the
/// leaf; any other entry points to the table of the next level.
pub open spec fn walk(bus: BusView, table: u64, va: Sv39va, level: u8) -> Walk
    decreases level,
{
    let addr = pte_address(table, va, level);
    match bus.read(addr, Size::DWORD).1 {
        Err(_) => Walk::AccessFault,
        Ok(raw) => {
            let pte = Sv39pte { raw };
            if !pte.spec_v() || (!pte.spec_r() && pte.spec_w()) {
                Walk::PageFault
            } else if pte.spec_r() || pte.spec_x() {
                Walk::Leaf { pte, addr, level }
            } else if level == 0 {
                Walk::PageFault
            } else {
                walk(bus, (pte.spec_ppn() * PAGESIZE) as u64, va, (level - 1) as u8)
            }
        },
    }
}

/// Whether a leaf at `level` maps a superpage that is not aligned: a page
/// number below the level is not zero.
pub open spec fn misaligned_superpage(pte: Sv39pte, level: u8) -> bool {
    (level >= 1 && pte.spec_ppn0() != 0) || (level >= 2 && pte.spec_ppn1() != 0)
}

/// Whether the mode may use the page at all: user mode needs a user page;
/// supervisor mode may use a user page only for loads and stores, and only
/// with the SUM bit set.
pub open spec fn privilege_allows(
    pte: Sv39pte,
    mode: PrivilegeMode,
    mstatus: MStatus,
    access: MemoryAccessType,
) -> bool {
    match mode {
        PrivilegeMode::User => pte.spec_u(),
        PrivilegeMode::Supervisor => !pte.spec_u() || (mstatus.spec_sum() && access
            != MemoryAccessType::Instruction),
        _ => true,
    }
}

/// Whether the page permits the kind of access: a fetch needs an
/// executable page, a store a writable one, a load a readable one or, with
/// the MXR bit set, an executable one.
pub open spec fn permission_allows(pte: Sv39pte, mstatus: MStatus, access: MemoryAccessType) -> bool {
    match access {
        MemoryAccessType::Instruction => pte.spec_x(),
        MemoryAccessType::Store => pte.spec_w(),
        MemoryAccessType::Load => pte.spec_r() || (mstatus.spec_mxr() && pte.spec_x()),
    }
}

/// Whether the access has to update the entry: it is not marked accessed,
/// or the access is a store and it is not marked dirty.
pub open spec fn needs_update(pte: Sv39pte, access: MemoryAccessType) -> bool {
    !pte.spec_a() || (access == MemoryAccessType::Store && !pte.spec_d())
}

/// The entry after the access: accessed and, for a store, dirty.
pub open spec fn updated_pte(pte: Sv39pte, access: MemoryAccessType) -> Sv39pte {
    let accessed = spec_set_bit(pte.raw, 6, true);
    if access == MemoryAccessType::Store && !pte.spec_d() {
        Sv39pte { raw: spec_set_bit(accessed, 7, true) }
    } else {
        Sv39pte { raw: accessed }
    }
}

/// The physical address that a leaf at `level` gives to `va`: the offset
/// of `va`, the page numbers below the level from `va`, the others from
/// the entry.
pub open spec fn leaf_address(pte: Sv39pte, va: Sv39va, level: u8) -> u64 {
    Sv39pa::spec_compose(
        pte.spec_ppn2(),
        if level >= 2 {
            va.spec_vpn(1)
        } else {
            pte.spec_ppn1()
        },
        if level >= 1 {
            va.spec_vpn(0)
        } else {
            pte.spec_ppn0()
        },
        va.spec_offset(),
    ).raw
}

impl BusView {
    /// The translation of a virtual address for an access, and the state it
    /// leaves: the page table entry is written back when the access marks
    /// it accessed or dirty. An entry that cannot be read or written back
    /// is an access fault of the kind of the access; everything else that
    /// stops the translation is a page fault. Either fault is at the
    /// virtual address.
    ///
    /// Only the low 39 bits of the virtual address are translated: bits 39
    /// to 63 are ignored, whatever they hold, and raise no fault. Where
    /// nothing is translated (machine mode, or another scheme than the
    /// three-level one) the address is returned whole.
    pub open spec fn translate(
        self,
        ctx: TranslationContext,
        vaddr: u64,
        access: MemoryAccessType,
    ) -> (BusView, Result<u64, Exception>) {
        if !ctx.translates() {
            (self, Ok(vaddr))
        } else {
            let va = Sv39va::spec_new(vaddr);
            match walk(self, ctx.root(), va, 2) {
                Walk::AccessFault => (self, Err(access.spec_access_fault(vaddr))),
                Walk::PageFault => (self, Err(access.spec_page_fault(vaddr))),
                Walk::Leaf { pte, addr, level } => {
                    if misaligned_superpage(pte, level) || !privilege_allows(
                        pte,
                        ctx.effective_mode(access),
                        ctx.mstatus,
                        access,
                    ) || !permission_allows(pte, ctx.mstatus, access) {
                        (self, Err(access.spec_page_fault(vaddr)))
                    } else if needs_update(pte, access) {
                        let (after, r) = self.write(addr, Size::DWORD, updated_pte(pte, access).raw);
                        match r {
                            Err(_) => (after, Err(access.spec_access_fault(vaddr))),
                            Ok(_) => (after, Ok(leaf_address(pte, va, level))),
                        }
                    } else {
                        (self, Ok(leaf_address(pte, va, level)))
                    }
                },
            }
        }
    }

    /// What a load of `size` at a virtual address returns, and the state it
    /// leaves. A fault of the bus is a load access fault at the virtual
    /// address.
    pub open spec fn load(self, ctx: TranslationContext, vaddr: u64, size: Size) -> (
        BusView,
        Result<u64, Exception>,
    ) {
        let (after, r) = self.translate(ctx, vaddr, MemoryAccessType::Load);
        match r {
            Err(e) => (after, Err(e)),
            Ok(paddr) => (
                after.read(paddr, size).0,
                fault_at(after.read(paddr, size).1, Exception::LoadAccessFault(vaddr)),
            ),
        }
    }

    /// The state that a store of `size` at a virtual address leaves, and
    /// its outcome. A fault of the bus is a store access fault at the
    /// virtual address.
    pub open spec fn store(self, ctx: TranslationContext, vaddr: u64, value: u64, size: Size) -> (
        BusView,
        Result<(), Exception>,
    ) {
        let (after, r) = self.translate(ctx, vaddr, MemoryAccessType::Store);
        match r {
            Err(e) => (after, Err(e)),
            Ok(paddr) => (
                after.write(paddr, size, value).0,
                fault_at(after.write(paddr, size, value).1, Exception::StoreAccessFault(vaddr)),
            ),
        }
    }

    /// The instruction word that a fetch at a virtual address returns, and
    /// the state it leaves. A word that cannot be read is an instruction
    /// access fault at the virtual address.
    pub open spec fn fetch(self, ctx: TranslationContext, vaddr: u64) -> (
        BusView,
        Result<u32, Exception>,
    ) {
        let (after, r) = self.translate(ctx, vaddr, MemoryAccessType::Instruction);
        match r {
            Err(e) => (after, Err(e)),
            Ok(paddr) => match after.read(paddr, Size::WORD).1 {
                Ok(word) => (after, Ok(word as u32)),
                Err(_) => (after, Err(Exception::InstructionAccessFault(vaddr))),
            },
        }
    }
}

/// The memory management unit: it owns the bus and translates the virtual
/// addresses of all accesses.
pub struct Mmu {
    pub bus: SystemBus,
}

impl View for Mmu {
    type V = BusView;

    open spec fn view(&self) -> BusView {
        self.bus@
    }
}

impl Mmu {
    pub fn new() -> (r: Self)
        ensures
            r@ == BusView::init(),
            r@.wf(),
    {
        Self { bus: SystemBus::new() }
    }

    pub fn translate(
        &mut self,
        ctx: TranslationContext,
        vaddr: u64,
        access: MemoryAccessType,
    ) -> (r: Result<u64, Exception>)
        ensures
            (final(self)@, r) == old(self)@.translate(ctx, vaddr, access),
            old(self)@.wf() ==> final(self)@.wf(),
    {
        if ctx.mode == PrivilegeMode::Machine {
            return Ok(vaddr);
        }
        if ctx.satp.mode() != SATP_MODE_SV39 {
            return Ok(vaddr);
        }
        let mode = if ctx.mstatus.mprv() && access != MemoryAccessType::Instruction {
            ctx.mstatus.mpp()
        } else {
            ctx.mode
        };
        let va = Sv39va::new_with_raw_value(vaddr);
        let mut table: u64 = ctx.satp.ppn() * PAGESIZE;
        let mut level: u8 = LEVELS - 1;
        let mut pte = Sv39pte::new_with_raw_value(0);
        let mut addr: u64 = 0;
        loop
            invariant_except_break
                level <= 2,
                table <= 0xfff_ffff_ffff * PAGESIZE,
                walk(old(self)@, ctx.root(), va, 2) == walk(old(self)@, table, va, level),
            invariant
                self@ == old(self)@,
                ctx.translates(),
                va == Sv39va::spec_new(vaddr),
            ensures
                walk(old(self)@, ctx.root(), va, 2) == (Walk::Leaf { pte, addr, level }),
            decreases level,
        {
            addr = table + va.vpn(level) * PTESIZE;
            match self.bus.read(addr, Size::DWORD) {
                Err(_) => {
                    return Err(access.access_fault(vaddr));
                },
                Ok(raw) => {
                    pte = Sv39pte::new_with_raw_value(raw);
                },
            }
            if !pte.v() || (!pte.r() && pte.w()) {
                return Err(access.page_fault(vaddr));
            }
            if pte.r() || pte.x() {
                break ;
            }
            if level == 0 {
                return Err(access.page_fault(vaddr));
            }
            level = level - 1;
            table = pte.ppn() * PAGESIZE;
        }
        if (level >= 1 && pte.ppn0() != 0) || (level >= 2 && pte.ppn1() != 0) {
            return Err(access.page_fault(vaddr));
        }
        let allowed = match mode {
            PrivilegeMode::User => pte.u(),
            PrivilegeMode::Supervisor => !pte.u() || (ctx.mstatus.sum() && access
                != MemoryAccessType::Instruction),
            _ => true,
        };
        if !allowed {
            return Err(access.page_fault(vaddr));
        }
        let permitted = match access {
            MemoryAccessType::Instruction => pte.x(),
            MemoryAccessType::Store => pte.w(),
            MemoryAccessType::Load => pte.r() || (ctx.mstatus.mxr() && pte.x()),
        };
        if !permitted {
            return Err(access.page_fault(vaddr));
        }
        if !pte.a() || (access == MemoryAccessType::Store && !pte.d()) {
            let mut marked = pte;
            marked.set_a(true);
            if access == MemoryAccessType::Store && !pte.d() {
                marked.set_d(true);
            }
            match self.bus.write(addr, Size::DWORD, marked.raw_value()) {
                Err(_) => {
                    return Err(access.access_fault(vaddr));
                },
                Ok(_) => {},
            }
        }
        let mut pa = Sv39pa::new_with_raw_value(0);
        pa.set_offset(va.offset());
        pa.set_ppn0(
            if level >= 1 {
                va.vpn(0)
            } else {
                pte.ppn0()
            },
        );
        pa.set_ppn1(
            if level >= 2 {
                va.vpn(1)
            } else {
                pte.ppn1()
            },
        );
        pa.set_ppn2(pte.ppn2());
        Ok(pa.raw_value())
    }

    pub fn load(&mut self, ctx: TranslationContext, vaddr: u64, size: Size) -> (r: Result<
        u64,
        Exception,
    >)
        ensures
            (final(self)@, r) == old(self)@.load(ctx, vaddr, size),
            r matches Ok(v) ==> v < crate::util::pow256(size.spec_bytes() as nat),
            old(self)@.wf() ==> final(self)@.wf(),
    {
        let paddr = self.translate(ctx, vaddr, MemoryAccessType::Load)?;
        match self.bus.read(paddr, size) {
            Ok(v) => Ok(v),
            Err(_) => Err(Exception::LoadAccessFault(vaddr)),
        }
    }

    pub fn store(&mut self, ctx: TranslationContext, vaddr: u64, value: u64, size: Size) -> (r:
        Result<(), Exception>)
        ensures
            (final(self)@, r) == old(self)@.store(ctx, vaddr, value, size),
            old(self)@.wf() ==> final(self)@.wf(),
    {
        let paddr = self.translate(ctx, vaddr, MemoryAccessType::Store)?;
        match self.bus.write(paddr, size, value) {
            Ok(v) => Ok(v),
            Err(_) => Err(Exception::StoreAccessFault(vaddr)),
        }
    }

    /// Fetches the instruction word at a virtual address.
    pub fn fetch(&mut self, ctx: TranslationContext, vaddr: u64) -> (r: Result<u32, Exception>)
        ensures
            (final(self)@, r) == old(self)@.fetch(ctx, vaddr),
            old(self)@.wf() ==> final(self)@.wf(),
    {
        let paddr = self.translate(ctx, vaddr, MemoryAccessType::Instruction)?;
        match self.bus.read(paddr, Size::WORD) {
            Ok(word) => Ok(#[verifier::truncate] (word as u32)),
            Err(_) => Err(Exception::InstructionAccessFault(vaddr)),
        }
    }
}

impl Walk {
    /// Whether a walk that ended in a leaf found it no higher than `level`,
    /// as the entry that stands at the leaf's address behind `bus`.
    pub open spec fn found_in(self, bus: BusView, level: u8) -> bool {
        match self {
            Walk::Leaf { pte, addr, level: found } => found <= level && bus.read(
                addr,
                Size::DWORD,
            ).1 == Ok::<u64, Exception>(pte.raw),
            _ => true,
        }
    }

    /// Whether a store of `size` through the leaf that the walk ended in,
    /// at the virtual address `va`, leaves the bytes of the leaf's own
    /// entry alone.
    pub open spec fn spared_by_store(self, va: Sv39va, size: Size) -> bool {
        match self {
            Walk::Leaf { pte, addr, level } => leaf_address(pte, va, level) + size.spec_bytes()
                <= addr || addr + 8 <= leaf_address(pte, va, level),
            _ => true,
        }
    }

    /// Whether the walk ended in a leaf, and the entry that stands at the
    /// leaf's address behind `bus` is marked accessed and dirty.
    pub open spec fn marked_behind(self, bus: BusView) -> bool {
        match self {
            Walk::Leaf { pte, addr, level } => match bus.read(addr, Size::DWORD).1 {
                Ok(raw) => spec_bit(raw, 6) && spec_bit(raw, 7),
                Err(_) => false,
            },
            _ => false,
        }
    }
}

/// The leaf that a walk ends in is the entry that stands at the leaf's
/// address.
pub proof fn lemma_walk_leaf(bus: BusView, table: u64, va: Sv39va, level: u8)
    ensures
        walk(bus, table, va, level).found_in(bus, level),
    decreases level,
{
    let addr = pte_address(table, va, level);
    match bus.read(addr, Size::DWORD).1 {
        Err(_) => {},
        Ok(raw) => {
            let pte = Sv39pte { raw };
            if !pte.spec_v() || (!pte.spec_r() && pte.spec_w()) {
            } else if pte.spec_r() || pte.spec_x() {
            } else if level == 0 {
            } else {
                lemma_walk_leaf(bus, (pte.spec_ppn() * PAGESIZE) as u64, va, (level - 1) as u8);
            }
        },
    }
}

proof fn lemma_offset_kept(ppn2: u64, ppn1: u64, ppn0: u64, vaddr: u64)
    by (bit_vector)
    ensures
        spec_set_field(
            spec_set_field(
                spec_set_field(
                    spec_set_field(0, 0, 0xfff, spec_field(vaddr & 0x7f_ffff_ffff, 0, 0xfff)),
                    12,
                    0x1ff,
                    ppn0,
                ),
                21,
                0x1ff,
                ppn1,
            ),
            30,
            0x3ff_ffff,
            ppn2,
        ) & 0xfff == vaddr & 0xfff,
{
}

/// Where the page table holds a valid leaf for a virtual address, aligned
/// and open to the access, and nothing stops the entry from being marked,
/// the translation returns the physical address that the leaf gives, and
/// that address has the page offset of the virtual address.
pub proof fn lemma_translate_leaf(
    bus: BusView,
    ctx: TranslationContext,
    vaddr: u64,
    access: MemoryAccessType,
    pte: Sv39pte,
    addr: u64,
    level: u8,
)
    requires
        ctx.translates(),
        walk(bus, ctx.root(), Sv39va::spec_new(vaddr), 2) == (Walk::Leaf { pte, addr, level }),
        !misaligned_superpage(pte, level),
        privilege_allows(pte, ctx.effective_mode(access), ctx.mstatus, access),
        permission_allows(pte, ctx.mstatus, access),
        needs_update(pte, access) ==> bus.write(
            addr,
            Size::DWORD,
            updated_pte(pte, access).raw,
        ).1 is Ok,
    ensures
        bus.translate(ctx, vaddr, access).1 == Ok::<u64, Exception>(
            leaf_address(pte, Sv39va::spec_new(vaddr), level),
        ),
        leaf_address(pte, Sv39va::spec_new(vaddr), level) & 0xfff == vaddr & 0xfff,
{
    let va = Sv39va::spec_new(vaddr);
    lemma_offset_kept(
        pte.spec_ppn2(),
        if level >= 2 {
            va.spec_vpn(1)
        } else {
            pte.spec_ppn1()
        },
        if level >= 1 {
            va.spec_vpn(0)
        } else {
            pte.spec_ppn0()
        },
        vaddr,
    );
}

/// Whatever a translation returns has the page offset of the virtual
/// address.
pub proof fn lemma_translate_keeps_offset(
    bus: BusView,
    ctx: TranslationContext,
    vaddr: u64,
    access: MemoryAccessType,
)
    ensures
        bus.translate(ctx, vaddr, access).1 matches Ok(paddr) ==> paddr & 0xfff == vaddr & 0xfff,
{
    if ctx.translates() {
        let va = Sv39va::spec_new(vaddr);
        match walk(bus, ctx.root(), va, 2) {
            Walk::Leaf { pte, addr, level } => {
                lemma_offset_kept(
                    pte.spec_ppn2(),
                    if level >= 2 {
                        va.spec_vpn(1)
                    } else {
                        pte.spec_ppn1()
                    },
                    if level >= 1 {
                        va.spec_vpn(0)
                    } else {
                        pte.spec_ppn0()
                    },
                    vaddr,
                );
            },
            _ => {},
        }
    }
}

/// After the translation for a store has succeeded, the leaf that it went
/// through stands in the page table marked accessed and dirty.
pub proof fn lemma_store_marks_leaf(bus: BusView, ctx: TranslationContext, vaddr: u64)
    requires
        ctx.translates(),
        bus.translate(ctx, vaddr, MemoryAccessType::Store).1 is Ok,
    ensures
        walk(bus, ctx.root(), Sv39va::spec_new(vaddr), 2).marked_behind(
            bus.translate(ctx, vaddr, MemoryAccessType::Store).0,
        ),
{
    let va = Sv39va::spec_new(vaddr);
    let access = MemoryAccessType::Store;
    lemma_walk_leaf(bus, ctx.root(), va, 2);
    match walk(bus, ctx.root(), va, 2) {
        Walk::Leaf { pte, addr, level } => {
            if needs_update(pte, access) {
                let marked = updated_pte(pte, access);
                lemma_set_bit(pte.raw, 6, true, 6);
                lemma_set_bit(pte.raw, 6, true, 7);
                lemma_set_bit(spec_set_bit(pte.raw, 6, true), 7, true, 6);
                lemma_set_bit(spec_set_bit(pte.raw, 6, true), 7, true, 7);
                assert(spec_bit(marked.raw, 6) && spec_bit(marked.raw, 7));
                assert(DRAM_BASE <= addr < DRAM_END);
                lemma_bus_store_then_load(bus, addr, Size::DWORD, marked.raw);
            }
        },
        _ => {},
    }
}

/// After a store through a translation has succeeded, the leaf that it
/// went through stands in the page table marked accessed and dirty,
/// provided the store did not write over the leaf's own entry.
pub proof fn lemma_store_leaves_leaf_marked(
    bus: BusView,
    ctx: TranslationContext,
    vaddr: u64,
    value: u64,
    size: Size,
)
    requires
        ctx.translates(),
        bus.store(ctx, vaddr, value, size).1 is Ok,
        walk(bus, ctx.root(), Sv39va::spec_new(vaddr), 2).spared_by_store(
            Sv39va::spec_new(vaddr),
            size,
        ),
    ensures
        walk(bus, ctx.root(), Sv39va::spec_new(vaddr), 2).marked_behind(
            bus.store(ctx, vaddr, value, size).0,
        ),
{
    let va = Sv39va::spec_new(vaddr);
    lemma_store_marks_leaf(bus, ctx, vaddr);
    lemma_walk_leaf(bus, ctx.root(), va, 2);
    let translated = bus.translate(ctx, vaddr, MemoryAccessType::Store).0;
    match walk(bus, ctx.root(), va, 2) {
        Walk::Leaf { pte, addr, level } => {
            let paddr = leaf_address(pte, va, level);
            assert(MROM_BASE <= addr < MROM_END || DRAM_BASE <= addr < DRAM_END);
            lemma_write_keeps_memory(translated, paddr, size, value, addr, Size::DWORD);
        },
        _ => {},
    }
}

/// No translation, load, store or fetch changes what holds behind the
/// bus at all times.
pub proof fn lemma_access_wf(
    bus: BusView,
    ctx: TranslationContext,
    vaddr: u64,
    access: MemoryAccessType,
    size: Size,
    value: u64,
)
    requires
        bus.wf(),
    ensures
        bus.translate(ctx, vaddr, access).0.wf(),
        bus.load(ctx, vaddr, size).0.wf(),
        bus.store(ctx, vaddr, value, size).0.wf(),
        bus.fetch(ctx, vaddr).0.wf(),
{
    let va = Sv39va::spec_new(vaddr);
    assert forall|a: MemoryAccessType| #[trigger] bus.translate(ctx, vaddr, a).0.wf() by {
        if ctx.translates() {
            match walk(bus, ctx.root(), va, 2) {
                Walk::Leaf { pte, addr, level } => {
                    lemma_bus_wf(bus, addr, Size::DWORD, updated_pte(pte, a).raw, Seq::empty());
                },
                _ => {},
            }
        }
    }
    let loaded = bus.translate(ctx, vaddr, MemoryAccessType::Load);
    if loaded.1 is Ok {
        lemma_bus_wf(loaded.0, loaded.1->Ok_0, size, 0, Seq::empty());
    }
    let stored = bus.translate(ctx, vaddr, MemoryAccessType::Store);
    if stored.1 is Ok {
        lemma_bus_wf(stored.0, stored.1->Ok_0, size, value, Seq::empty());
    }
}

} // verus!
