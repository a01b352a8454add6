//! The integer register file.
use vstd::prelude::*;

verus! {

/// The registers after `value` has been written to register `id`: register
/// 0 discards what is written to it.
pub open spec fn reg_write(x: Seq<u64>, id: u8, value: u64) -> Seq<u64> {
    if id == 0 {
        x
    } else {
        x.update(id as int, value)
    }
}

/// What holds of every register file: there are 32 registers and register 0
/// holds 0.
pub open spec fn regs_wf(x: Seq<u64>) -> bool {
    x.len() == 32 && x[0] == 0
}

/// The integer register file: thirty-two 64-bit registers, of which
/// register 0 is hardwired to zero.
#[derive(Debug)]
pub struct XRegisters {
    xregs: [u64; 32],
}

impl View for XRegisters {
    type V = Seq<u64>;

    /// The architectural register values.
    closed spec fn view(&self) -> Seq<u64> {
        Seq::new(
            32,
            |i: int|
                if i == 0 {
                    0u64
                } else {
                    self.xregs@[i]
                },
        )
    }
}

#[allow(non_upper_case_globals)]
impl XRegisters {
    /// The registers by their names in the calling convention.
    pub const zero: u8 = 0;

    pub const ra: u8 = 1;

    pub const sp: u8 = 2;

    pub const gp: u8 = 3;

    pub const tp: u8 = 4;

    pub const t0: u8 = 5;

    pub const t1: u8 = 6;

    pub const t2: u8 = 7;

    pub const s0: u8 = 8;

    pub const s1: u8 = 9;

    pub const a0: u8 = 10;

    pub const a1: u8 = 11;

    pub const a2: u8 = 12;

    pub const a3: u8 = 13;

    pub const a4: u8 = 14;

    pub const a5: u8 = 15;

    pub const a6: u8 = 16;

    pub const a7: u8 = 17;

    pub const s2: u8 = 18;

    pub const s3: u8 = 19;

    pub const s4: u8 = 20;

    pub const s5: u8 = 21;

    pub const s6: u8 = 22;

    pub const s7: u8 = 23;

    pub const s8: u8 = 24;

    pub const s9: u8 = 25;

    pub const s10: u8 = 26;

    pub const s11: u8 = 27;

    pub const t3: u8 = 28;

    pub const t4: u8 = 29;

    pub const t5: u8 = 30;

    pub const t6: u8 = 31;

    /// Every register file is well formed.
    pub proof fn lemma_wf(&self)
        ensures
            regs_wf(self@),
    {
    }

    pub fn new() -> (r: Self)
        ensures
            r@ == Seq::new(32, |i: int| 0u64),
    {
        let r = XRegisters { xregs: [0u64; 32] };
        assert(r@ =~= Seq::new(32, |i: int| 0u64));
        r
    }

    pub fn read(&self, id: u8) -> (r: u64)
        requires
            id < 32,
        ensures
            r == self@[id as int],
            id == 0 ==> r == 0,
    {
        if id == 0 {
            0
        } else {
            self.xregs[id as usize]
        }
    }

    pub fn write(&mut self, id: u8, value: u64)
        requires
            id < 32,
        ensures
            final(self)@ == reg_write(old(self)@, id, value),
    {
        if id == 0 {
            return ;
        }
        self.xregs[id as usize] = value;
        assert(self@ =~= old(self)@.update(id as int, value));
    }
}

/// Whatever is written to register 0, and whatever else is written
/// afterwards to another register, register 0 reads as 0.
pub proof fn lemma_zero_register(x: Seq<u64>, id: u8, value: u64)
    requires
        regs_wf(x),
        id < 32,
    ensures
        regs_wf(reg_write(x, id, value)),
        reg_write(x, 0, value) == x,
        reg_write(x, id, value)[0] == 0,
{
}

} // verus!
