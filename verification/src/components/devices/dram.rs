//! Main memory.
use crate::components::mmu::Size;
use crate::components::trap::Exception;
use crate::util::{le_bytes, le_value, lemma_le_round_trip, lemma_le_bytes_len, read_le, write_le, pow256};
use vstd::prelude::*;

verus! {

/// The number of bytes of main memory.
pub const DRAM_SIZE: u64 = 0x8_0000;

/// Whether an access of `size` at `index` lies within `len` bytes.
pub open spec fn in_bounds(len: nat, index: u64, size: Size) -> bool {
    index + size.spec_bytes() <= len
}

/// The value that an access of `size` at `index` reads from `mem`.
pub open spec fn mem_read(mem: Seq<u8>, index: u64, size: Size) -> u64 {
    le_value(mem.subrange(index as int, index + size.spec_bytes())) as u64
}

/// The memory after an access of `size` at `index` has stored `value`.
pub open spec fn mem_write(mem: Seq<u8>, index: u64, size: Size, value: u64) -> Seq<u8> {
    mem.subrange(0, index as int) + le_bytes(value as nat, size.spec_bytes() as nat)
        + mem.subrange(index + size.spec_bytes(), mem.len() as int)
}

/// The `size` low bytes of `value`.
pub open spec fn low_bytes(value: u64, size: Size) -> u64 {
    match size {
        Size::BYTE => value & 0xff,
        Size::HWORD => value & 0xffff,
        Size::WORD => value & 0xffff_ffff,
        Size::DWORD => value,
    }
}

/// What holds of main memory at all times: it has `DRAM_SIZE` bytes.
pub open spec fn dram_wf(mem: Seq<u8>) -> bool {
    mem.len() == DRAM_SIZE
}

/// The memory after `bytes` have been copied to `index`.
pub open spec fn mem_write_bytes(mem: Seq<u8>, index: u64, bytes: Seq<u8>) -> Seq<u8> {
    mem.subrange(0, index as int) + bytes + mem.subrange(index + bytes.len(), mem.len() as int)
}

/// Main memory: a flat array of bytes, accessed little-endian.
pub struct Dram {
    memory: Vec<u8>,
}

impl View for Dram {
    type V = Seq<u8>;

    closed spec fn view(&self) -> Seq<u8> {
        self.memory@
    }
}

impl Dram {
    /// What a load returns: the little-endian value of the bytes, or an
    /// access fault when they are not all within the memory.
    pub open spec fn spec_read(mem: Seq<u8>, index: u64, size: Size) -> Result<u64, Exception> {
        if in_bounds(mem.len(), index, size) {
            Ok(mem_read(mem, index, size))
        } else {
            Err(Exception::LoadAccessFault(index))
        }
    }

    /// What a store leaves and returns: the bytes replaced, or the memory
    /// unchanged and an access fault when they are not all within it.
    pub open spec fn spec_write(mem: Seq<u8>, index: u64, size: Size, value: u64) -> (
        Seq<u8>,
        Result<(), Exception>,
    ) {
        if in_bounds(mem.len(), index, size) {
            (mem_write(mem, index, size, value), Ok(()))
        } else {
            (mem, Err(Exception::StoreAccessFault(index)))
        }
    }

    /// What copying a block leaves and returns.
    pub open spec fn spec_write_bytes(mem: Seq<u8>, index: u64, bytes: Seq<u8>) -> (
        Seq<u8>,
        Result<(), Exception>,
    ) {
        if index + bytes.len() <= mem.len() {
            (mem_write_bytes(mem, index, bytes), Ok(()))
        } else {
            (mem, Err(Exception::StoreAccessFault(index)))
        }
    }

    pub fn new() -> (r: Self)
        ensures
            r@ == Seq::new(DRAM_SIZE as nat, |i: int| 0u8),
            dram_wf(r@),
    {
        let memory = vec![0u8; DRAM_SIZE as usize];
        assert(memory@ =~= Seq::new(DRAM_SIZE as nat, |i: int| 0u8));
        Self { memory }
    }

    pub fn read(&self, index: u64, size: Size) -> (r: Result<u64, Exception>)
        ensures
            r == Self::spec_read(self@, index, size),
    {
        let n = size.bytes();
        let len = self.memory.len() as u64;
        if n > len || index > len - n {
            return Err(Exception::LoadAccessFault(index));
        }
        proof {
            crate::util::lemma_le_value_bound(
                self.memory@.subrange(index as int, index + n),
            );
            crate::util::lemma_pow256_values();
        }
        Ok(read_le(&self.memory, index as usize, n as usize))
    }

    pub fn write(&mut self, index: u64, size: Size, value: u64) -> (r: Result<(), Exception>)
        ensures
            (final(self)@, r) == Self::spec_write(old(self)@, index, size, value),
            final(self)@.len() == old(self)@.len(),
    {
        proof {
            lemma_dram_len(self@, index, size, value, Seq::empty());
        }
        let n = size.bytes();
        let len = self.memory.len() as u64;
        if n > len || index > len - n {
            return Err(Exception::StoreAccessFault(index));
        }
        write_le(&mut self.memory, index as usize, n as usize, value);
        Ok(())
    }

    /// Copies `bytes` into the memory at `index`; nothing is written unless
    /// the whole block fits.
    pub fn write_bytes(&mut self, index: u64, bytes: &[u8]) -> (r: Result<(), Exception>)
        ensures
            (final(self)@, r) == Self::spec_write_bytes(old(self)@, index, bytes@),
            final(self)@.len() == old(self)@.len(),
    {
        proof {
            lemma_dram_len(self@, index, Size::BYTE, 0, bytes@);
        }
        let n = bytes.len();
        let len = self.memory.len();
        if n > len || index > (len - n) as u64 {
            return Err(Exception::StoreAccessFault(index));
        }
        let start = index as usize;
        let mut i: usize = 0;
        while i < n
            invariant
                i <= n == bytes@.len(),
                start + n <= self.memory.len(),
                self.memory.len() == old(self).memory.len(),
                self.memory@ =~= old(self).memory@.subrange(0, start as int) + bytes@.subrange(
                    0,
                    i as int,
                ) + old(self).memory@.subrange(start + i, old(self).memory.len() as int),
            decreases n - i,
        {
            self.memory[start + i] = bytes[i];
            i = i + 1;
        }
        assert(bytes@.subrange(0, n as int) =~= bytes@);
        Ok(())
    }
}

/// A value stored at an address within the memory is read back from that
/// address, at the same width, cut to the width of the access.
pub proof fn lemma_store_then_load(mem: Seq<u8>, index: u64, size: Size, value: u64)
    requires
        in_bounds(mem.len(), index, size),
    ensures
        Dram::spec_write(mem, index, size, value).1 == Ok::<(), Exception>(()),
        Dram::spec_read(Dram::spec_write(mem, index, size, value).0, index, size) == Ok::<
            u64,
            Exception,
        >(low_bytes(value, size)),
        Dram::spec_write(mem, index, size, value).0.len() == mem.len(),
{
    let n = size.spec_bytes() as nat;
    let after = mem_write(mem, index, size, value);
    lemma_le_bytes_len(value as nat, n);
    assert(after.subrange(index as int, index + n) =~= le_bytes(value as nat, n));
    lemma_le_round_trip(value as nat, n);
    crate::util::lemma_pow256_values();
    assert(value % 0x100 == value & 0xff && value % 0x1_0000 == value & 0xffff && value
        % 0x1_0000_0000 == value & 0xffff_ffff) by (bit_vector);
    match size {
        Size::BYTE => {
            assert(pow256(n) == 0x100);
            assert(value as nat % 0x100 == (value % 0x100) as nat);
            assert(mem_read(after, index, size) == value & 0xff);
        },
        Size::HWORD => {
            assert(pow256(n) == 0x1_0000);
            assert(value as nat % 0x1_0000 == (value % 0x1_0000) as nat);
            assert(mem_read(after, index, size) == value & 0xffff);
        },
        Size::WORD => {
            assert(pow256(n) == 0x1_0000_0000);
            assert(value as nat % 0x1_0000_0000 == (value % 0x1_0000_0000) as nat);
            assert(mem_read(after, index, size) == value & 0xffff_ffff);
        },
        Size::DWORD => {
            assert(pow256(n) == 0x1_0000_0000_0000_0000);
            assert(value as nat % 0x1_0000_0000_0000_0000 == value as nat);
            assert(le_value(le_bytes(value as nat, n)) == value as nat);
            assert(mem_read(after, index, size) == value);
        },
    }
}

/// A store leaves what a load reads from bytes that it does not touch.
pub proof fn lemma_store_keeps_others(
    mem: Seq<u8>,
    index: u64,
    size: Size,
    value: u64,
    other: u64,
    other_size: Size,
)
    requires
        in_bounds(mem.len(), index, size),
        other + other_size.spec_bytes() <= index || index + size.spec_bytes() <= other,
    ensures
        Dram::spec_read(Dram::spec_write(mem, index, size, value).0, other, other_size)
            == Dram::spec_read(mem, other, other_size),
{
    let after = mem_write(mem, index, size, value);
    lemma_le_bytes_len(value as nat, size.spec_bytes() as nat);
    if in_bounds(mem.len(), other, other_size) {
        assert(after.subrange(other as int, other + other_size.spec_bytes()) =~= mem.subrange(
            other as int,
            other + other_size.spec_bytes(),
        ));
    }
}

/// No store and no copy changes the size of the memory.
pub proof fn lemma_dram_len(mem: Seq<u8>, index: u64, size: Size, value: u64, bytes: Seq<u8>)
    ensures
        Dram::spec_write(mem, index, size, value).0.len() == mem.len(),
        Dram::spec_write_bytes(mem, index, bytes).0.len() == mem.len(),
{
    lemma_le_bytes_len(value as nat, size.spec_bytes() as nat);
}

} // verus!
