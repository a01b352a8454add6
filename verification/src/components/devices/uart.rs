//! The 16550A serial port.
use crate::components::trap::Exception;
use std::collections::VecDeque;
use vstd::prelude::*;

verus! {

/// The size of the region that the device answers in.
pub const UART_SIZE: u64 = 0x100;

/// The interrupt source number of the device.
pub const IRQ_UART: u32 = 0x0a;

/// The number of bytes that a FIFO holds.
pub const FIFO_DEPTH: usize = 16;

/// Receiver buffer (read) and transmitter holding register (write).
pub const RBR: u64 = 0;

pub const THR: u64 = 0;

/// Interrupt enable register.
pub const IER: u64 = 1;

/// Interrupt identification (read) and FIFO control (write).
pub const IIR: u64 = 2;

pub const FCR: u64 = 2;

/// Line control register.
pub const LCR: u64 = 3;

/// Modem control register.
pub const MCR: u64 = 4;

/// Line status register.
pub const LSR: u64 = 5;

/// Modem status register.
pub const MSR: u64 = 6;

/// Scratch register.
pub const SCR: u64 = 7;

/// Line control: divisor latch access bit.
pub const LCR_DLAB: u8 = 0x80;

/// FIFO control: FIFO enable, receiver reset, transmitter reset, and the
/// bits that the register keeps.
pub const FCR_FE: u8 = 0x01;

pub const FCR_RFR: u8 = 0x02;

pub const FCR_XFR: u8 = 0x04;

pub const FCR_KEPT: u8 = 0xc9;

/// Interrupt identification: the identifier field, the FIFOs-enabled field
/// and the identifiers.
pub const IIR_ID: u8 = 0x0f;

pub const IIR_FE: u8 = 0xc0;

pub const ID_MSI: u8 = 0x0;

pub const ID_NONE: u8 = 0x1;

pub const ID_THREI: u8 = 0x2;

pub const ID_RDAI: u8 = 0x4;

pub const ID_RLSI: u8 = 0x6;

pub const ID_CTI: u8 = 0xc;

/// Line status: data ready, overrun, parity and framing error, break,
/// holding register empty, transmitter empty.
pub const LSR_DR: u8 = 0x01;

pub const LSR_OE: u8 = 0x02;

pub const LSR_PE: u8 = 0x04;

pub const LSR_FE: u8 = 0x08;

pub const LSR_BI: u8 = 0x10;

pub const LSR_THRE: u8 = 0x20;

pub const LSR_TEMT: u8 = 0x40;

/// Interrupt enable: received data, holding register empty, line status,
/// modem status.
pub const IER_ERBFI: u8 = 0x01;

pub const IER_ETBEI: u8 = 0x02;

pub const IER_ELSI: u8 = 0x04;

pub const IER_EDSSI: u8 = 0x08;

/// The fill level of the receiver FIFO at which it raises an interrupt.
#[derive(Clone, Copy, Debug, PartialEq, Eq, Structural)]
pub enum RxFifoTriggerLvl {
    L1,
    L4,
    L8,
    L14,
}

impl RxFifoTriggerLvl {
    /// The number of bytes of the level.
    pub open spec fn spec_value(&self) -> u8 {
        match self {
            RxFifoTriggerLvl::L1 => 1,
            RxFifoTriggerLvl::L4 => 4,
            RxFifoTriggerLvl::L8 => 8,
            RxFifoTriggerLvl::L14 => 14,
        }
    }

    /// The level that the two top bits of the FIFO control register select.
    pub open spec fn spec_from_fcr(fcr: u8) -> RxFifoTriggerLvl {
        let bits = fcr >> 6u8;
        if bits == 0 {
            RxFifoTriggerLvl::L1
        } else if bits == 1 {
            RxFifoTriggerLvl::L4
        } else if bits == 2 {
            RxFifoTriggerLvl::L8
        } else {
            RxFifoTriggerLvl::L14
        }
    }

    #[verifier::when_used_as_spec(spec_value)]
    pub fn value(&self) -> (r: u8)
        ensures
            r == self.spec_value(),
    {
        match self {
            RxFifoTriggerLvl::L1 => 1,
            RxFifoTriggerLvl::L4 => 4,
            RxFifoTriggerLvl::L8 => 8,
            RxFifoTriggerLvl::L14 => 14,
        }
    }

    #[verifier::when_used_as_spec(spec_from_fcr)]
    pub fn from_fcr(fcr: u8) -> (r: Self)
        ensures
            r == Self::spec_from_fcr(fcr),
    {
        let bits = fcr >> 6u8;
        if bits == 0 {
            RxFifoTriggerLvl::L1
        } else if bits == 1 {
            RxFifoTriggerLvl::L4
        } else if bits == 2 {
            RxFifoTriggerLvl::L8
        } else {
            RxFifoTriggerLvl::L14
        }
    }
}

/// The state of the serial port. A FIFO holds its newest byte first and its
/// oldest byte last.
pub struct UartView {
    pub rbr: u8,
    pub thr: u8,
    pub recv_fifo: Seq<u8>,
    pub xmit_fifo: Seq<u8>,
    pub ier: u8,
    pub iir: u8,
    pub fcr: u8,
    pub lcr: u8,
    pub mcr: u8,
    pub lsr: u8,
    pub msr: u8,
    pub scr: u8,
    /// The interrupt output signal.
    pub intr: bool,
    /// Whether the holding-register-empty interrupt is pending.
    pub thr_ipending: bool,
    /// The trigger level of the receiver FIFO, in bytes.
    pub recv_fifo_itl: u8,
    /// What the offsets from 8 on read as.
    pub reg: Seq<u8>,
}

impl UartView {
    /// The state after reset.
    pub open spec fn init() -> UartView {
        UartView {
            rbr: 0,
            thr: 0,
            recv_fifo: Seq::empty(),
            xmit_fifo: Seq::empty(),
            ier: 0,
            iir: 0,
            fcr: 0,
            lcr: 0,
            mcr: 0,
            lsr: 0,
            msr: 0,
            scr: 0,
            intr: false,
            thr_ipending: false,
            recv_fifo_itl: 0,
            reg: Seq::new(UART_SIZE as nat, |i: int| 0u8),
        }
    }

    /// What holds of the serial port at all times: neither FIFO holds more
    /// than `FIFO_DEPTH` bytes, and 256 offsets answer.
    pub open spec fn wf(self) -> bool {
        &&& self.recv_fifo.len() <= FIFO_DEPTH
        &&& self.xmit_fifo.len() <= FIFO_DEPTH
        &&& self.reg.len() == UART_SIZE
    }

    /// Whether the FIFOs are enabled.
    pub open spec fn fifo_enabled(self) -> bool {
        self.fcr & FCR_FE != 0
    }

    /// Whether the divisor latch is selected in place of the data and
    /// interrupt enable registers.
    pub open spec fn dlab(self) -> bool {
        self.lcr & LCR_DLAB != 0
    }

    /// The identifier of the highest pending enabled interrupt source: line
    /// status, then received data, then character timeout, then holding
    /// register empty, then modem status.
    pub open spec fn pending_id(self) -> u8 {
        let rlsi = self.ier & IER_ELSI != 0 && self.lsr & (LSR_OE | LSR_PE | LSR_FE | LSR_BI) != 0;
        let rdai = self.ier & IER_ERBFI != 0 && self.lsr & LSR_DR != 0 && (!self.fifo_enabled()
            || self.recv_fifo.len() >= self.recv_fifo_itl);
        let cti = self.ier & IER_ERBFI != 0;
        let threi = self.ier & IER_ETBEI != 0 && self.thr_ipending;
        let msi = self.ier & IER_EDSSI != 0;
        if rlsi {
            ID_RLSI
        } else if rdai {
            ID_RDAI
        } else if cti {
            ID_CTI
        } else if threi {
            ID_THREI
        } else if msi {
            ID_MSI
        } else {
            ID_NONE
        }
    }

    /// The state with the identification register and the interrupt signal
    /// brought up to date.
    pub open spec fn update_iir(self) -> UartView {
        let id = self.pending_id();
        UartView { iir: (self.iir & !IIR_ID) | id, intr: id != ID_NONE, ..self }
    }

    /// The state after `value` has been written to the FIFO control
    /// register. A change of the enable bit resets both FIFOs.
    pub open spec fn write_fcr(self, value: u8) -> UartView {
        let val = if (value ^ self.fcr) & FCR_FE != 0 {
            value | FCR_RFR | FCR_XFR
        } else {
            value
        };
        let fcr = val & FCR_KEPT;
        UartView {
            recv_fifo: if val & FCR_RFR != 0 {
                Seq::empty()
            } else {
                self.recv_fifo
            },
            xmit_fifo: if val & FCR_XFR != 0 {
                Seq::empty()
            } else {
                self.xmit_fifo
            },
            fcr,
            recv_fifo_itl: if fcr & FCR_FE != 0 {
                RxFifoTriggerLvl::spec_from_fcr(fcr).spec_value()
            } else {
                self.recv_fifo_itl
            },
            iir: if fcr & FCR_FE != 0 {
                self.iir | IIR_FE
            } else {
                self.iir & !IIR_FE
            },
            ..self
        }.update_iir()
    }

    /// The state after the receiver buffer has been read, and the byte read.
    /// With the FIFOs enabled the oldest byte leaves the receiver FIFO (an
    /// empty FIFO reads as 0), and the data-ready and break bits are cleared
    /// once it is empty; without FIFOs they are always cleared.
    pub open spec fn read_rbr(self) -> (UartView, u8) {
        if self.fifo_enabled() {
            let n = self.recv_fifo.len();
            let byte = if n > 0 {
                self.recv_fifo[n - 1]
            } else {
                0
            };
            let fifo = if n > 0 {
                self.recv_fifo.subrange(0, n - 1)
            } else {
                self.recv_fifo
            };
            let lsr = if fifo.len() == 0 {
                self.lsr & !(LSR_DR | LSR_BI)
            } else {
                self.lsr
            };
            (UartView { recv_fifo: fifo, lsr, ..self }.update_iir(), byte)
        } else {
            (UartView { lsr: self.lsr & !(LSR_DR | LSR_BI), ..self }.update_iir(), self.rbr)
        }
    }

    /// The state after a read at `offset`, and the byte read. An offset
    /// outside the region is an access fault.
    pub open spec fn read(self, offset: u64) -> (UartView, Result<u8, Exception>) {
        if offset >= UART_SIZE {
            (self, Err(Exception::LoadAccessFault(offset)))
        } else if offset == RBR && !self.dlab() {
            (self.read_rbr().0, Ok(self.read_rbr().1))
        } else if offset == IER && !self.dlab() {
            (self, Ok(self.ier))
        } else if offset == IIR {
            let after = if self.iir & IIR_ID == ID_THREI {
                UartView { thr_ipending: false, ..self }.update_iir()
            } else {
                self
            };
            (after, Ok(after.iir))
        } else if offset == LCR {
            (self, Ok(self.lcr))
        } else if offset == MCR {
            (self, Ok(self.mcr))
        } else if offset == LSR {
            (
                UartView {
                    lsr: self.lsr & !(LSR_OE | LSR_PE | LSR_FE | LSR_BI),
                    ..self
                }.update_iir(),
                Ok(self.lsr),
            )
        } else if offset == MSR {
            (self, Ok(0))
        } else if offset == SCR {
            (self, Ok(self.scr))
        } else {
            (self, Ok(self.reg[offset as int]))
        }
    }

    /// The state after `value` has been written to the transmitter holding
    /// register. With the FIFOs enabled the byte enters the receiver FIFO;
    /// if that is full its oldest byte is dropped and the overrun bit set.
    pub open spec fn write_thr(self, value: u8) -> UartView {
        let full = self.recv_fifo.len() >= FIFO_DEPTH;
        let kept = if full {
            self.recv_fifo.subrange(0, self.recv_fifo.len() - 1)
        } else {
            self.recv_fifo
        };
        let lsr = if self.fifo_enabled() && full {
            self.lsr | LSR_OE
        } else {
            self.lsr
        };
        UartView {
            thr: value,
            recv_fifo: if self.fifo_enabled() {
                seq![value] + kept
            } else {
                self.recv_fifo
            },
            thr_ipending: false,
            lsr: lsr & !(LSR_THRE | LSR_TEMT),
            ..self
        }.update_iir()
    }

    /// The state after `value` has been written to the interrupt enable
    /// register. When the holding-register-empty enable changes, that
    /// interrupt becomes pending exactly if it is now enabled and the
    /// holding register is empty.
    pub open spec fn write_ier(self, value: u8) -> UartView {
        UartView {
            thr_ipending: if (self.ier ^ value) & IER_ETBEI != 0 {
                value & IER_ETBEI != 0 && self.lsr & LSR_THRE != 0
            } else {
                self.thr_ipending
            },
            ier: value,
            ..self
        }.update_iir()
    }

    /// The state after a write of `value` at `offset`, and its outcome. An
    /// offset outside the region is an access fault. Writes to the line
    /// control and line status registers, to the divisor latch and to the
    /// offsets from 8 on have no effect.
    pub open spec fn write(self, offset: u64, value: u8) -> (UartView, Result<(), Exception>) {
        if offset >= UART_SIZE {
            (self, Err(Exception::StoreAccessFault(offset)))
        } else if offset == THR && !self.dlab() {
            (self.write_thr(value), Ok(()))
        } else if offset == IER && !self.dlab() {
            (self.write_ier(value), Ok(()))
        } else if offset == FCR {
            (self.write_fcr(value), Ok(()))
        } else if offset == MCR {
            (UartView { mcr: value, ..self }, Ok(()))
        } else if offset == MSR {
            (UartView { msr: value, ..self }, Ok(()))
        } else if offset == SCR {
            (UartView { scr: value, ..self }, Ok(()))
        } else {
            (self, Ok(()))
        }
    }
}

/// A 16550A serial port.
pub struct Uart {
    rbr: u8,
    thr: u8,
    recv_fifo: VecDeque<u8>,
    xmit_fifo: VecDeque<u8>,
    ier: u8,
    iir: u8,
    fcr: u8,
    lcr: u8,
    mcr: u8,
    lsr: u8,
    msr: u8,
    scr: u8,
    intr: bool,
    thr_ipending: bool,
    recv_fifo_itl: u8,
    reg: [u8; 256],
}

impl View for Uart {
    type V = UartView;

    closed spec fn view(&self) -> UartView {
        UartView {
            rbr: self.rbr,
            thr: self.thr,
            recv_fifo: self.recv_fifo@,
            xmit_fifo: self.xmit_fifo@,
            ier: self.ier,
            iir: self.iir,
            fcr: self.fcr,
            lcr: self.lcr,
            mcr: self.mcr,
            lsr: self.lsr,
            msr: self.msr,
            scr: self.scr,
            intr: self.intr,
            thr_ipending: self.thr_ipending,
            recv_fifo_itl: self.recv_fifo_itl,
            reg: self.reg@,
        }
    }
}

impl Uart {
    /// Every serial port answers at 256 offsets.
    pub proof fn lemma_offsets(&self)
        ensures
            self@.reg.len() == UART_SIZE,
    {
    }

    pub fn new() -> (r: Uart)
        ensures
            r@ == UartView::init(),
            r@.wf(),
    {
        let r = Self {
            rbr: 0,
            thr: 0,
            recv_fifo: VecDeque::with_capacity(FIFO_DEPTH),
            xmit_fifo: VecDeque::with_capacity(FIFO_DEPTH),
            ier: 0,
            iir: 0,
            fcr: 0,
            lcr: 0,
            mcr: 0,
            lsr: 0,
            msr: 0,
            scr: 0,
            intr: false,
            thr_ipending: false,
            recv_fifo_itl: 0,
            reg: [0u8; 256],
        };
        assert(r.reg@ =~= Seq::new(UART_SIZE as nat, |i: int| 0u8));
        r
    }

    pub fn is_interrupting(&self) -> (r: bool)
        ensures
            r == self@.intr,
    {
        self.intr
    }

    fn update_iir(&mut self)
        ensures
            final(self)@ == old(self)@.update_iir(),
    {
        let rlsi = self.ier & IER_ELSI != 0 && self.lsr & (LSR_OE | LSR_PE | LSR_FE | LSR_BI) != 0;
        let rdai = self.ier & IER_ERBFI != 0 && self.lsr & LSR_DR != 0 && (self.fcr & FCR_FE == 0
            || self.recv_fifo.len() >= self.recv_fifo_itl as usize);
        let cti = self.ier & IER_ERBFI != 0;
        let threi = self.ier & IER_ETBEI != 0 && self.thr_ipending;
        let msi = self.ier & IER_EDSSI != 0;
        let id = if rlsi {
            ID_RLSI
        } else if rdai {
            ID_RDAI
        } else if cti {
            ID_CTI
        } else if threi {
            ID_THREI
        } else if msi {
            ID_MSI
        } else {
            ID_NONE
        };
        self.iir = (self.iir & !IIR_ID) | id;
        self.intr = id != ID_NONE;
    }

    fn write_fcr(&mut self, value: u8)
        ensures
            final(self)@ == old(self)@.write_fcr(value),
    {
        let val = if (value ^ self.fcr) & FCR_FE != 0 {
            value | FCR_RFR | FCR_XFR
        } else {
            value
        };
        if val & FCR_RFR != 0 {
            self.recv_fifo.clear();
        }
        if val & FCR_XFR != 0 {
            self.xmit_fifo.clear();
        }
        self.fcr = val & FCR_KEPT;
        if self.fcr & FCR_FE != 0 {
            self.recv_fifo_itl = RxFifoTriggerLvl::from_fcr(self.fcr).value();
            self.iir = self.iir | IIR_FE;
        } else {
            self.iir = self.iir & !IIR_FE;
        }
        self.update_iir();
    }

    pub fn read(&mut self, offset: u64) -> (r: Result<u8, Exception>)
        ensures
            (final(self)@, r) == old(self)@.read(offset),
            old(self)@.wf() ==> final(self)@.wf(),
    {
        proof {
            if self@.wf() {
                lemma_uart_wf(self@, offset, 0);
            }
        }
        if offset >= UART_SIZE {
            return Err(Exception::LoadAccessFault(offset));
        }
        let dlab = self.lcr & LCR_DLAB != 0;
        if offset == RBR && !dlab {
            let byte;
            if self.fcr & FCR_FE != 0 {
                byte =
                match self.recv_fifo.pop_back() {
                    Some(b) => b,
                    None => 0,
                };
                if self.recv_fifo.len() == 0 {
                    self.lsr = self.lsr & !(LSR_DR | LSR_BI);
                }
            } else {
                byte = self.rbr;
                self.lsr = self.lsr & !(LSR_DR | LSR_BI);
            }
            self.update_iir();
            Ok(byte)
        } else if offset == IER && !dlab {
            Ok(self.ier)
        } else if offset == IIR {
            if self.iir & IIR_ID == ID_THREI {
                self.thr_ipending = false;
                self.update_iir();
            }
            Ok(self.iir)
        } else if offset == LCR {
            Ok(self.lcr)
        } else if offset == MCR {
            Ok(self.mcr)
        } else if offset == LSR {
            let value = self.lsr;
            self.lsr = self.lsr & !(LSR_OE | LSR_PE | LSR_FE | LSR_BI);
            self.update_iir();
            Ok(value)
        } else if offset == MSR {
            Ok(0)
        } else if offset == SCR {
            Ok(self.scr)
        } else {
            Ok(self.reg[offset as usize])
        }
    }

    pub fn write(&mut self, offset: u64, value: u8) -> (r: Result<(), Exception>)
        ensures
            (final(self)@, r) == old(self)@.write(offset, value),
            old(self)@.wf() ==> final(self)@.wf(),
    {
        proof {
            if self@.wf() {
                lemma_uart_wf(self@, offset, value);
            }
        }
        if offset >= UART_SIZE {
            return Err(Exception::StoreAccessFault(offset));
        }
        let dlab = self.lcr & LCR_DLAB != 0;
        if offset == THR && !dlab {
            self.thr = value;
            if self.fcr & FCR_FE != 0 {
                if self.recv_fifo.len() >= FIFO_DEPTH {
                    let _ = self.recv_fifo.pop_back();
                    self.lsr = self.lsr | LSR_OE;
                }
                self.recv_fifo.push_front(value);
            }
            self.thr_ipending = false;
            self.lsr = self.lsr & !(LSR_THRE | LSR_TEMT);
            self.update_iir();
        } else if offset == IER && !dlab {
            if (self.ier ^ value) & IER_ETBEI != 0 {
                self.thr_ipending = value & IER_ETBEI != 0 && self.lsr & LSR_THRE != 0;
            }
            self.ier = value;
            self.update_iir();
        } else if offset == FCR {
            self.write_fcr(value);
        } else if offset == MCR {
            self.mcr = value;
        } else if offset == MSR {
            self.msr = value;
        } else if offset == SCR {
            self.scr = value;
        }
        Ok(())
    }
}

/// No read and no write changes what holds of the serial port at all
/// times.
pub proof fn lemma_uart_wf(uart: UartView, offset: u64, value: u8)
    requires
        uart.wf(),
    ensures
        uart.read(offset).0.wf(),
        uart.write(offset, value).0.wf(),
{
}

} // verus!
