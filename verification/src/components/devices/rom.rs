//! The mask ROM with the boot code.
use crate::components::devices::dram::{in_bounds, mem_read};
use crate::components::mmu::Size;
use crate::components::trap::Exception;
use crate::util::{le_bytes, lemma_le_value_bound, lemma_pow256_values, push_le, read_le};
use vstd::prelude::*;

verus! {

/// The address that the boot code jumps to: the start of main memory.
pub const START_PC: u64 = 0x8000_0000;

/// The magic number of the firmware's boot record.
pub const FW_DYNAMIC_INFO_MAGIC: u64 = 0x4942_534f;

/// The version of the firmware's boot record.
pub const FW_DYNAMIC_INFO_VERSION: u64 = 2;

/// The five instructions of the boot code, followed by the address they
/// load and jump to.
pub open spec fn boot_code() -> Seq<u8> {
    le_bytes(0x0000_0297, 4) + le_bytes(0x0002_8593, 4) + le_bytes(0xf140_1573, 4) + le_bytes(
        0x0182_b283,
        4,
    ) + le_bytes(0x0002_8067, 4) + le_bytes(START_PC as nat, 8)
}

/// The boot record handed to the firmware: magic, version, next address,
/// next mode (supervisor), options and boot hart, eight bytes each.
pub open spec fn boot_record() -> Seq<u8> {
    le_bytes(FW_DYNAMIC_INFO_MAGIC as nat, 8) + le_bytes(FW_DYNAMIC_INFO_VERSION as nat, 8)
        + le_bytes(0, 8) + le_bytes(1, 8) + le_bytes(0, 8) + le_bytes(0, 8)
}

/// The contents of the mask ROM.
pub open spec fn rom_image() -> Seq<u8> {
    boot_code() + boot_record()
}

/// The mask ROM that the hart boots from.
pub struct Mrom {
    memory: Vec<u8>,
}

impl View for Mrom {
    type V = Seq<u8>;

    closed spec fn view(&self) -> Seq<u8> {
        self.memory@
    }
}

impl Mrom {
    /// What a load returns: the little-endian value of the bytes, or an
    /// access fault when they are not all within the image.
    pub open spec fn spec_read(mem: Seq<u8>, index: u64, size: Size) -> Result<u64, Exception> {
        if in_bounds(mem.len(), index, size) {
            Ok(mem_read(mem, index, size))
        } else {
            Err(Exception::LoadAccessFault(index))
        }
    }

    pub fn new() -> (r: Self)
        ensures
            r@ == rom_image(),
    {
        let mut memory: Vec<u8> = Vec::new();
        push_le(&mut memory, 4, 0x0000_0297);
        push_le(&mut memory, 4, 0x0002_8593);
        push_le(&mut memory, 4, 0xf140_1573);
        push_le(&mut memory, 4, 0x0182_b283);
        push_le(&mut memory, 4, 0x0002_8067);
        push_le(&mut memory, 8, START_PC);
        assert(memory@ =~= boot_code());
        let ghost code = memory@;
        push_le(&mut memory, 8, FW_DYNAMIC_INFO_MAGIC);
        push_le(&mut memory, 8, FW_DYNAMIC_INFO_VERSION);
        push_le(&mut memory, 8, 0);
        push_le(&mut memory, 8, 1);
        push_le(&mut memory, 8, 0);
        push_le(&mut memory, 8, 0);
        assert(memory@ =~= code + boot_record());
        Self { memory }
    }

    pub fn read(&self, index: u64, size: Size) -> (r: Result<u64, Exception>)
        ensures
            r == Self::spec_read(self@, index, size),
    {
        let n = size.bytes();
        let len = self.memory.len() as u64;
        if n > len || index > len - n {
            return Err(Exception::LoadAccessFault(index));
        }
        proof {
            lemma_le_value_bound(self.memory@.subrange(index as int, index + n));
            lemma_pow256_values();
        }
        Ok(read_le(&self.memory, index as usize, n as usize))
    }
}

} // verus!
