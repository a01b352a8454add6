//! The system bus and the physical memory map.
use crate::components::devices::dram::{
    dram_wf, in_bounds, lemma_dram_len, lemma_store_keeps_others, lemma_store_then_load,
    low_bytes, Dram, DRAM_SIZE,
};
use crate::components::devices::plic::{lemma_plic_wf, Plic, PlicView};
use crate::components::devices::rom::{rom_image, Mrom};
use crate::components::devices::test::Test;
use crate::components::devices::uart::{lemma_uart_wf, Uart, UartView, UART_SIZE};
use crate::components::mmu::Size;
use crate::components::trap::Exception;
use crate::util::{lemma_le_value_bound, lemma_pow256_values, pow256};
use vstd::prelude::*;

verus! {

/// The physical address ranges of the devices; each range ends before its
/// `END`.
pub const MROM_BASE: u64 = 0x1000;

pub const MROM_END: u64 = 0x1_0000;

pub const TEST_BASE: u64 = 0x10_0000;

pub const TEST_END: u64 = 0x10_1000;

pub const PLIC_BASE: u64 = 0x0c00_0000;

pub const PLIC_END: u64 = 0x0c20_1000;

pub const UART0_BASE: u64 = 0x1000_0000;

pub const UART0_END: u64 = 0x1000_0100;

pub const DRAM_BASE: u64 = 0x8000_0000;

pub const DRAM_END: u64 = 0x8008_0000;

/// Where the firmware image is loaded.
pub const SBI_REGION: u64 = 0x8000_0000;

/// Where the kernel image is loaded.
pub const KERNEL_REGION: u64 = 0x8000_4000;

/// The state of everything behind the bus.
pub struct BusView {
    /// The contents of the mask ROM.
    pub rom: Seq<u8>,
    /// The exit reason that the test finisher holds.
    pub exit: u64,
    /// The contents of main memory.
    pub dram: Seq<u8>,
    pub uart0: UartView,
    pub plic: PlicView,
}

/// The result `r`, with `fault` in place of whatever fault it holds.
pub open spec fn fault_at<T>(r: Result<T, Exception>, fault: Exception) -> Result<T, Exception> {
    match r {
        Ok(v) => Ok(v),
        Err(_) => Err(fault),
    }
}

impl BusView {
    /// What holds behind the bus at all times: the ROM holds its image,
    /// the exit reason is at most 3, main memory has its size, and the
    /// serial port and the interrupt controller are well formed.
    pub open spec fn wf(self) -> bool {
        &&& self.rom == rom_image()
        &&& self.exit <= 3
        &&& dram_wf(self.dram)
        &&& self.uart0.wf()
        &&& self.plic.wf()
    }

    /// What a read of `size` at the physical address returns, and the state
    /// it leaves (a read of the serial port changes it). The ROM and main
    /// memory take every width, the interrupt controller words only, the
    /// serial port bytes only; everything else is an access fault. Every
    /// fault is a load access fault at the physical address.
    pub open spec fn read(self, address: u64, size: Size) -> (BusView, Result<u64, Exception>) {
        (
            self.route_read(address, size).0,
            fault_at(self.route_read(address, size).1, Exception::LoadAccessFault(address)),
        )
    }

    /// The state that a write of the `size` low bytes of `value` at the
    /// physical address leaves, and its outcome. The ROM cannot be written.
    /// Every fault is a store access fault at the physical address.
    pub open spec fn write(self, address: u64, size: Size, value: u64) -> (
        BusView,
        Result<(), Exception>,
    ) {
        (
            self.route_write(address, size, value).0,
            fault_at(
                self.route_write(address, size, value).1,
                Exception::StoreAccessFault(address),
            ),
        )
    }

    /// A read as the device that owns the address answers it, with the
    /// device's own fault.
    pub open spec fn route_read(self, address: u64, size: Size) -> (
        BusView,
        Result<u64, Exception>,
    ) {
        if MROM_BASE <= address < MROM_END {
            (self, Mrom::spec_read(self.rom, (address - MROM_BASE) as u64, size))
        } else if PLIC_BASE <= address < PLIC_END {
            if size == Size::WORD {
                match self.plic.read((address - PLIC_BASE) as u64) {
                    Ok(v) => (self, Ok(v as u64)),
                    Err(e) => (self, Err(e)),
                }
            } else {
                (self, Err(Exception::LoadAccessFault(address)))
            }
        } else if UART0_BASE <= address < UART0_END {
            if size == Size::BYTE {
                let (uart0, r) = self.uart0.read((address - UART0_BASE) as u64);
                match r {
                    Ok(v) => (BusView { uart0, ..self }, Ok(v as u64)),
                    Err(e) => (BusView { uart0, ..self }, Err(e)),
                }
            } else {
                (self, Err(Exception::LoadAccessFault(address)))
            }
        } else if DRAM_BASE <= address < DRAM_END {
            (self, Dram::spec_read(self.dram, (address - DRAM_BASE) as u64, size))
        } else {
            (self, Err(Exception::LoadAccessFault(address)))
        }
    }

    /// A write as the device that owns the address answers it, with the
    /// device's own fault.
    pub open spec fn route_write(self, address: u64, size: Size, value: u64) -> (
        BusView,
        Result<(), Exception>,
    ) {
        if TEST_BASE <= address < TEST_END {
            (
                BusView {
                    exit: Test::spec_write(self.exit, (address - TEST_BASE) as u64, value),
                    ..self
                },
                Ok(()),
            )
        } else if PLIC_BASE <= address < PLIC_END {
            if size == Size::WORD {
                let (plic, r) = self.plic.write((address - PLIC_BASE) as u64, value as u32);
                (BusView { plic, ..self }, r)
            } else {
                (self, Err(Exception::StoreAccessFault(address)))
            }
        } else if UART0_BASE <= address < UART0_END {
            if size == Size::BYTE {
                let (uart0, r) = self.uart0.write((address - UART0_BASE) as u64, value as u8);
                (BusView { uart0, ..self }, r)
            } else {
                (self, Err(Exception::StoreAccessFault(address)))
            }
        } else if DRAM_BASE <= address < DRAM_END {
            let (dram, r) = Dram::spec_write(self.dram, (address - DRAM_BASE) as u64, size, value);
            (BusView { dram, ..self }, r)
        } else {
            (self, Err(Exception::StoreAccessFault(address)))
        }
    }

    /// The state that copying `bin` into main memory at the physical
    /// address leaves, and its outcome: a store access fault at the address
    /// unless the whole of `bin` lies within main memory.
    pub open spec fn inject(self, address: u64, bin: Seq<u8>) -> (BusView, Result<(), Exception>) {
        if address >= DRAM_BASE {
            let (dram, r) = Dram::spec_write_bytes(self.dram, (address - DRAM_BASE) as u64, bin);
            (BusView { dram, ..self }, fault_at(r, Exception::StoreAccessFault(address)))
        } else {
            (self, Err(Exception::StoreAccessFault(address)))
        }
    }

    /// The state after reset.
    pub open spec fn init() -> BusView {
        BusView {
            rom: rom_image(),
            exit: 0,
            dram: Seq::new(DRAM_SIZE as nat, |i: int| 0u8),
            uart0: UartView::init(),
            plic: PlicView {
                priority: Seq::new(1024, |i: int| 0u32),
                pending: Seq::new(32, |i: int| 0u32),
                enable: Seq::new(64, |i: int| 0u32),
                threshold: Seq::new(2, |i: int| 0u32),
                claim: Seq::new(2, |i: int| 0u32),
            },
        }
    }
}

/// A read returns a value that fits the width of the access, and only a
/// read of a byte can change the state.
pub proof fn lemma_read_bound(bus: BusView, address: u64, size: Size)
    ensures
        bus.read(address, size).1 matches Ok(v) ==> v < pow256(size.spec_bytes() as nat),
        size != Size::BYTE ==> bus.read(address, size).0 == bus,
{
    lemma_pow256_values();
    if MROM_BASE <= address < MROM_END {
        let index = (address - MROM_BASE) as u64;
        lemma_le_value_bound(bus.rom.subrange(index as int, index + size.spec_bytes()));
    } else if DRAM_BASE <= address < DRAM_END {
        let index = (address - DRAM_BASE) as u64;
        lemma_le_value_bound(bus.dram.subrange(index as int, index + size.spec_bytes()));
    }
}

/// A value stored in main memory is read back from the same physical
/// address, at the same width, cut to the width of the access; nothing
/// else behind the bus changes.
pub proof fn lemma_bus_store_then_load(bus: BusView, address: u64, size: Size, value: u64)
    requires
        DRAM_BASE <= address < DRAM_END,
        in_bounds(bus.dram.len(), (address - DRAM_BASE) as u64, size),
    ensures
        bus.write(address, size, value).1 == Ok::<(), Exception>(()),
        bus.write(address, size, value).0.read(address, size).1 == Ok::<u64, Exception>(
            low_bytes(value, size),
        ),
        bus.write(address, size, value).0 == (BusView {
            dram: bus.write(address, size, value).0.dram,
            ..bus
        }),
{
    let index = (address - DRAM_BASE) as u64;
    lemma_store_then_load(bus.dram, index, size, value);
    crate::util::lemma_le_bytes_len(value as nat, size.spec_bytes() as nat);
}

/// A write leaves what a read returns from bytes of the ROM or of main
/// memory that it does not touch.
pub proof fn lemma_write_keeps_memory(
    bus: BusView,
    address: u64,
    size: Size,
    value: u64,
    other: u64,
    other_size: Size,
)
    requires
        MROM_BASE <= other < MROM_END || DRAM_BASE <= other < DRAM_END,
        other + other_size.spec_bytes() <= address || address + size.spec_bytes() <= other,
    ensures
        bus.write(address, size, value).0.read(other, other_size).1 == bus.read(
            other,
            other_size,
        ).1,
{
    if DRAM_BASE <= address < DRAM_END && DRAM_BASE <= other < DRAM_END {
        let index = (address - DRAM_BASE) as u64;
        if in_bounds(bus.dram.len(), index, size) {
            lemma_store_keeps_others(
                bus.dram,
                index,
                size,
                value,
                (other - DRAM_BASE) as u64,
                other_size,
            );
        }
    }
}

/// No read, no write and no copy into main memory changes what holds
/// behind the bus at all times.
pub proof fn lemma_bus_wf(bus: BusView, address: u64, size: Size, value: u64, bin: Seq<u8>)
    requires
        bus.wf(),
    ensures
        bus.read(address, size).0.wf(),
        bus.write(address, size, value).0.wf(),
        bus.inject(address, bin).0.wf(),
{
    if UART0_BASE <= address < UART0_END {
        lemma_uart_wf(bus.uart0, (address - UART0_BASE) as u64, value as u8);
    }
    if PLIC_BASE <= address < PLIC_END {
        lemma_plic_wf(bus.plic, (address - PLIC_BASE) as u64, value as u32, 0, false);
    }
    if DRAM_BASE <= address {
        lemma_dram_len(bus.dram, (address - DRAM_BASE) as u64, size, value, bin);
    }
}

/// The system bus: it routes each physical address to the device that owns
/// it.
pub struct SystemBus {
    pub rom: Mrom,
    pub test: Test,
    pub dram: Dram,
    pub uart0: Uart,
    pub plic: Plic,
}

impl View for SystemBus {
    type V = BusView;

    open spec fn view(&self) -> BusView {
        BusView {
            rom: self.rom@,
            exit: self.test.exit,
            dram: self.dram@,
            uart0: self.uart0@,
            plic: self.plic@,
        }
    }
}

impl SystemBus {
    pub fn new() -> (r: Self)
        ensures
            r@ == BusView::init(),
            r@.wf(),
    {
        Self {
            rom: Mrom::new(),
            test: Test::new(),
            dram: Dram::new(),
            uart0: Uart::new(),
            plic: Plic::new(),
        }
    }

    pub fn read(&mut self, address: u64, size: Size) -> (r: Result<u64, Exception>)
        ensures
            (final(self)@, r) == old(self)@.read(address, size),
            r matches Ok(v) ==> v < pow256(size.spec_bytes() as nat),
            size != Size::BYTE ==> final(self)@ == old(self)@,
            old(self)@.wf() ==> final(self)@.wf(),
    {
        proof {
            lemma_read_bound(self@, address, size);
            if self@.wf() {
                lemma_bus_wf(self@, address, size, 0, Seq::empty());
            }
        }
        match self.route_read(address, size) {
            Ok(v) => Ok(v),
            Err(_) => Err(Exception::LoadAccessFault(address)),
        }
    }

    pub fn write(&mut self, address: u64, size: Size, value: u64) -> (r: Result<(), Exception>)
        ensures
            (final(self)@, r) == old(self)@.write(address, size, value),
            old(self)@.wf() ==> final(self)@.wf(),
    {
        proof {
            if self@.wf() {
                lemma_bus_wf(self@, address, size, value, Seq::empty());
            }
        }
        match self.route_write(address, size, value) {
            Ok(v) => Ok(v),
            Err(_) => Err(Exception::StoreAccessFault(address)),
        }
    }

    fn route_read(&mut self, address: u64, size: Size) -> (r: Result<u64, Exception>)
        ensures
            (final(self)@, r) == old(self)@.route_read(address, size),
    {
        if MROM_BASE <= address && address < MROM_END {
            self.rom.read(address - MROM_BASE, size)
        } else if PLIC_BASE <= address && address < PLIC_END {
            match size {
                Size::WORD => match self.plic.read(address - PLIC_BASE) {
                    Ok(v) => Ok(v as u64),
                    Err(e) => Err(e),
                },
                _ => Err(Exception::LoadAccessFault(address)),
            }
        } else if UART0_BASE <= address && address < UART0_END {
            match size {
                Size::BYTE => match self.uart0.read(address - UART0_BASE) {
                    Ok(v) => Ok(v as u64),
                    Err(e) => Err(e),
                },
                _ => Err(Exception::LoadAccessFault(address)),
            }
        } else if DRAM_BASE <= address && address < DRAM_END {
            self.dram.read(address - DRAM_BASE, size)
        } else {
            Err(Exception::LoadAccessFault(address))
        }
    }

    fn route_write(&mut self, address: u64, size: Size, value: u64) -> (r: Result<(), Exception>)
        ensures
            (final(self)@, r) == old(self)@.route_write(address, size, value),
    {
        if TEST_BASE <= address && address < TEST_END {
            self.test.write(address - TEST_BASE, size, value);
            Ok(())
        } else if PLIC_BASE <= address && address < PLIC_END {
            match size {
                Size::WORD => self.plic.write(
                    address - PLIC_BASE,
                    #[verifier::truncate]
                    (value as u32),
                ),
                _ => Err(Exception::StoreAccessFault(address)),
            }
        } else if UART0_BASE <= address && address < UART0_END {
            match size {
                Size::BYTE => self.uart0.write(
                    address - UART0_BASE,
                    #[verifier::truncate]
                    (value as u8),
                ),
                _ => Err(Exception::StoreAccessFault(address)),
            }
        } else if DRAM_BASE <= address && address < DRAM_END {
            self.dram.write(address - DRAM_BASE, size, value)
        } else {
            Err(Exception::StoreAccessFault(address))
        }
    }

    /// Copies an image into main memory at a physical address. Nothing is
    /// written unless the whole image lies within main memory.
    pub fn inject(&mut self, address: u64, bin: &[u8]) -> (r: Result<(), Exception>)
        ensures
            (final(self)@, r) == old(self)@.inject(address, bin@),
            old(self)@.wf() ==> final(self)@.wf(),
    {
        proof {
            if self@.wf() {
                lemma_bus_wf(self@, address, Size::BYTE, 0, bin@);
            }
        }
        if address >= DRAM_BASE {
            match self.dram.write_bytes(address - DRAM_BASE, bin) {
                Ok(v) => Ok(v),
                Err(_) => Err(Exception::StoreAccessFault(address)),
            }
        } else {
            Err(Exception::StoreAccessFault(address))
        }
    }
}

} // verus!
