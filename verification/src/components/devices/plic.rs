//! The platform-level interrupt controller.
use crate::components::trap::Exception;
use vstd::prelude::*;

verus! {

/// The first and last word of the source priorities.
pub const SOURCE_PRIORITY_BASE: u64 = 0x00_0000;

pub const SOURCE_PRIORITY_END: u64 = 0x00_0ffc;

/// The first and last word of the pending bits.
pub const PENDING_BASE: u64 = 0x00_1000;

pub const PENDING_END: u64 = 0x00_107c;

/// The first and last word of the enable bits of the two contexts.
pub const ENABLE_BASE: u64 = 0x00_2000;

pub const ENABLE_END: u64 = 0x00_20fc;

/// The first and last word of the threshold and claim registers of the two
/// contexts; a context takes 4096 bytes.
pub const THRESHOLD_CLAIM_BASE: u64 = 0x20_0000;

pub const THRESHOLD_CLAIM_END: u64 = 0x20_1004;

/// The registers of the interrupt controller.
pub struct PlicView {
    /// One priority word for each of 1024 sources.
    pub priority: Seq<u32>,
    /// One pending bit for each source, 32 to a word.
    pub pending: Seq<u32>,
    /// The enable bits, 32 words for each of two contexts.
    pub enable: Seq<u32>,
    /// The priority threshold of each context.
    pub threshold: Seq<u32>,
    /// The claim/complete register of each context.
    pub claim: Seq<u32>,
}

/// A register of the controller, as an offset selects it.
pub enum PlicRegister {
    Priority(int),
    Pending(int),
    Enable(int),
    Threshold(int),
    Claim(int),
}

impl PlicView {
    /// What holds of the controller at all times: it has 1024 priorities,
    /// 32 words of pending bits, 64 words of enable bits, and a threshold
    /// and a claim register for each of two contexts.
    pub open spec fn wf(self) -> bool {
        &&& self.priority.len() == 1024
        &&& self.pending.len() == 32
        &&& self.enable.len() == 64
        &&& self.threshold.len() == 2
        &&& self.claim.len() == 2
    }

    /// The register that a byte offset selects, if any: offsets are taken
    /// by whole words. In a context's page the even words select its
    /// threshold and the odd words its claim register.
    pub open spec fn select(offset: u64) -> Option<PlicRegister> {
        let index = offset / 4;
        if offset <= SOURCE_PRIORITY_END {
            Some(PlicRegister::Priority(index as int))
        } else if PENDING_BASE <= offset <= PENDING_END {
            Some(PlicRegister::Pending(index - PENDING_BASE / 4))
        } else if ENABLE_BASE <= offset <= ENABLE_END {
            Some(PlicRegister::Enable(index - ENABLE_BASE / 4))
        } else if THRESHOLD_CLAIM_BASE <= offset <= THRESHOLD_CLAIM_END {
            let word = index - THRESHOLD_CLAIM_BASE / 4;
            if word % 2 == 0 {
                Some(PlicRegister::Threshold(word / 1024))
            } else {
                Some(PlicRegister::Claim(word / 1024))
            }
        } else {
            None
        }
    }

    /// What a read of the word at `offset` returns.
    pub open spec fn read(self, offset: u64) -> Result<u32, Exception> {
        match Self::select(offset) {
            Some(PlicRegister::Priority(i)) => Ok(self.priority[i]),
            Some(PlicRegister::Pending(i)) => Ok(self.pending[i]),
            Some(PlicRegister::Enable(i)) => Ok(self.enable[i]),
            Some(PlicRegister::Threshold(i)) => Ok(self.threshold[i]),
            Some(PlicRegister::Claim(i)) => Ok(self.claim[i]),
            None => Err(Exception::LoadAccessFault(offset)),
        }
    }

    /// What a write of `value` to the word at `offset` leaves and returns.
    pub open spec fn write(self, offset: u64, value: u32) -> (PlicView, Result<(), Exception>) {
        match Self::select(offset) {
            Some(PlicRegister::Priority(i)) => (
                PlicView { priority: self.priority.update(i, value), ..self },
                Ok(()),
            ),
            Some(PlicRegister::Pending(i)) => (
                PlicView { pending: self.pending.update(i, value), ..self },
                Ok(()),
            ),
            Some(PlicRegister::Enable(i)) => (
                PlicView { enable: self.enable.update(i, value), ..self },
                Ok(()),
            ),
            Some(PlicRegister::Threshold(i)) => (
                PlicView { threshold: self.threshold.update(i, value), ..self },
                Ok(()),
            ),
            Some(PlicRegister::Claim(i)) => (
                PlicView { claim: self.claim.update(i, value), ..self },
                Ok(()),
            ),
            None => (self, Err(Exception::StoreAccessFault(offset))),
        }
    }

    /// The registers after source `irq` has been made pending or not:
    /// bit `irq mod 32` of word `irq div 32` is set or cleared.
    pub open spec fn set_pending(self, irq: u32, value: bool) -> PlicView {
        let word = irq as int / 32;
        let bit = 1u32 << (irq % 32);
        let old_word = self.pending[word];
        PlicView {
            pending: self.pending.update(
                word,
                if value {
                    old_word | bit
                } else {
                    old_word & !bit
                },
            ),
            ..self
        }
    }
}

/// The platform-level interrupt controller.
pub struct Plic {
    priority: [u32; 1024],
    pending: [u32; 32],
    enable: [u32; 64],
    threshold: [u32; 2],
    claim: [u32; 2],
}

impl View for Plic {
    type V = PlicView;

    closed spec fn view(&self) -> PlicView {
        PlicView {
            priority: self.priority@,
            pending: self.pending@,
            enable: self.enable@,
            threshold: self.threshold@,
            claim: self.claim@,
        }
    }
}

impl Plic {
    /// Every controller is well formed.
    pub proof fn lemma_wf(&self)
        ensures
            self@.wf(),
    {
    }

    pub fn new() -> (r: Self)
        ensures
            r@ == (PlicView {
                priority: Seq::new(1024, |i: int| 0u32),
                pending: Seq::new(32, |i: int| 0u32),
                enable: Seq::new(64, |i: int| 0u32),
                threshold: Seq::new(2, |i: int| 0u32),
                claim: Seq::new(2, |i: int| 0u32),
            }),
    {
        let r = Self {
            priority: [0u32; 1024],
            pending: [0u32; 32],
            enable: [0u32; 64],
            threshold: [0u32; 2],
            claim: [0u32; 2],
        };
        assert(r.priority@ =~= Seq::new(1024, |i: int| 0u32));
        assert(r.pending@ =~= Seq::new(32, |i: int| 0u32));
        assert(r.enable@ =~= Seq::new(64, |i: int| 0u32));
        assert(r.threshold@ =~= Seq::new(2, |i: int| 0u32));
        assert(r.claim@ =~= Seq::new(2, |i: int| 0u32));
        r
    }

    pub fn set_pending(&mut self, irq: u32, value: bool)
        requires
            irq < 1024,
        ensures
            final(self)@ == old(self)@.set_pending(irq, value),
    {
        let word = (irq / 32) as usize;
        let bit: u32 = 1u32 << (irq % 32);
        if value {
            self.pending[word] = self.pending[word] | bit;
        } else {
            self.pending[word] = self.pending[word] & !bit;
        }
    }

    pub fn read(&self, offset: u64) -> (r: Result<u32, Exception>)
        ensures
            r == self@.read(offset),
    {
        let index = offset / 4;
        if offset <= SOURCE_PRIORITY_END {
            Ok(self.priority[index as usize])
        } else if PENDING_BASE <= offset && offset <= PENDING_END {
            Ok(self.pending[(index - PENDING_BASE / 4) as usize])
        } else if ENABLE_BASE <= offset && offset <= ENABLE_END {
            Ok(self.enable[(index - ENABLE_BASE / 4) as usize])
        } else if THRESHOLD_CLAIM_BASE <= offset && offset <= THRESHOLD_CLAIM_END {
            let word = index - THRESHOLD_CLAIM_BASE / 4;
            let context = (word / 1024) as usize;
            if word % 2 == 0 {
                Ok(self.threshold[context])
            } else {
                Ok(self.claim[context])
            }
        } else {
            Err(Exception::LoadAccessFault(offset))
        }
    }

    pub fn write(&mut self, offset: u64, value: u32) -> (r: Result<(), Exception>)
        ensures
            (final(self)@, r) == old(self)@.write(offset, value),
    {
        let index = offset / 4;
        if offset <= SOURCE_PRIORITY_END {
            self.priority[index as usize] = value;
        } else if PENDING_BASE <= offset && offset <= PENDING_END {
            self.pending[(index - PENDING_BASE / 4) as usize] = value;
        } else if ENABLE_BASE <= offset && offset <= ENABLE_END {
            self.enable[(index - ENABLE_BASE / 4) as usize] = value;
        } else if THRESHOLD_CLAIM_BASE <= offset && offset <= THRESHOLD_CLAIM_END {
            let word = index - THRESHOLD_CLAIM_BASE / 4;
            let context = (word / 1024) as usize;
            if word % 2 == 0 {
                self.threshold[context] = value;
            } else {
                self.claim[context] = value;
            }
        } else {
            return Err(Exception::StoreAccessFault(offset));
        }
        Ok(())
    }
}

/// No write, and no change of a pending bit, changes what holds of the
/// controller at all times.
pub proof fn lemma_plic_wf(plic: PlicView, offset: u64, value: u32, irq: u32, pending: bool)
    requires
        plic.wf(),
        irq < 1024,
    ensures
        plic.write(offset, value).0.wf(),
        plic.set_pending(irq, pending).wf(),
{
}

} // verus!
