//! The instruction formats and their fields.
use crate::util::{bit, field, sign_extend, sign_extend_spec, spec_bit, spec_field};
use vstd::prelude::*;

verus! {

/// The destination register field (bits 7 to 11).
pub open spec fn spec_rd(raw: u32) -> u8 {
    spec_field(raw as u64, 7, 0x1f) as u8
}

/// The first source register field (bits 15 to 19).
pub open spec fn spec_rs1(raw: u32) -> u8 {
    spec_field(raw as u64, 15, 0x1f) as u8
}

/// The second source register field (bits 20 to 24).
pub open spec fn spec_rs2(raw: u32) -> u8 {
    spec_field(raw as u64, 20, 0x1f) as u8
}

/// The minor opcode field (bits 12 to 14).
pub open spec fn spec_funct3(raw: u32) -> u8 {
    spec_field(raw as u64, 12, 7) as u8
}

/// The second minor opcode field (bits 25 to 31).
pub open spec fn spec_funct7(raw: u32) -> u8 {
    spec_field(raw as u64, 25, 0x7f) as u8
}

/// The atomic operation field (bits 27 to 31).
pub open spec fn spec_funct5(raw: u32) -> u8 {
    spec_field(raw as u64, 27, 0x1f) as u8
}

/// The twelve-bit immediate field of the I format (bits 20 to 31), as it
/// stands in the word.
pub open spec fn spec_imm12(raw: u32) -> u64 {
    spec_field(raw as u64, 20, 0xfff)
}

/// The immediate of the I format: bits 20 to 31, sign-extended.
pub open spec fn spec_imm_i(raw: u32) -> u64 {
    sign_extend_spec(spec_imm12(raw), 0x800)
}

/// The immediate of the S format: bits 25 to 31 above bits 7 to 11,
/// sign-extended.
pub open spec fn spec_imm_s(raw: u32) -> u64 {
    sign_extend_spec(
        (spec_field(raw as u64, 25, 0x7f) * 32 + spec_field(raw as u64, 7, 0x1f)) as u64,
        0x800,
    )
}

/// The immediate of the B format, a multiple of two: bit 31, bit 7, bits 25
/// to 30 and bits 8 to 11, from the top down, sign-extended.
pub open spec fn spec_imm_b(raw: u32) -> u64 {
    sign_extend_spec(
        (spec_field(raw as u64, 31, 1) * 0x1000 + spec_field(raw as u64, 7, 1) * 0x800
            + spec_field(raw as u64, 25, 0x3f) * 32 + spec_field(raw as u64, 8, 0xf) * 2) as u64,
        0x1000,
    )
}

/// The immediate of the U format: bits 12 to 31 in place, sign-extended.
pub open spec fn spec_imm_u(raw: u32) -> u64 {
    sign_extend_spec((spec_field(raw as u64, 12, 0xf_ffff) * 0x1000) as u64, 0x8000_0000)
}

/// The immediate of the J format, a multiple of two: bit 31, bits 12 to 19,
/// bit 20 and bits 21 to 30, from the top down, sign-extended.
pub open spec fn spec_imm_j(raw: u32) -> u64 {
    sign_extend_spec(
        (spec_field(raw as u64, 31, 1) * 0x10_0000 + spec_field(raw as u64, 12, 0xff) * 0x1000
            + spec_field(raw as u64, 20, 1) * 0x800 + spec_field(raw as u64, 21, 0x3ff) * 2) as u64,
        0x10_0000,
    )
}

#[verifier::when_used_as_spec(spec_rd)]
pub fn rd(raw: u32) -> (r: u8)
    ensures
        r == spec_rd(raw),
        r < 32,
{
    field(raw as u64, 7, 0x1f) as u8
}

#[verifier::when_used_as_spec(spec_rs1)]
pub fn rs1(raw: u32) -> (r: u8)
    ensures
        r == spec_rs1(raw),
        r < 32,
{
    field(raw as u64, 15, 0x1f) as u8
}

#[verifier::when_used_as_spec(spec_rs2)]
pub fn rs2(raw: u32) -> (r: u8)
    ensures
        r == spec_rs2(raw),
        r < 32,
{
    field(raw as u64, 20, 0x1f) as u8
}

#[verifier::when_used_as_spec(spec_funct3)]
pub fn funct3(raw: u32) -> (r: u8)
    ensures
        r == spec_funct3(raw),
        r < 8,
{
    field(raw as u64, 12, 7) as u8
}

#[verifier::when_used_as_spec(spec_funct7)]
pub fn funct7(raw: u32) -> (r: u8)
    ensures
        r == spec_funct7(raw),
        r < 128,
{
    field(raw as u64, 25, 0x7f) as u8
}

#[verifier::when_used_as_spec(spec_funct5)]
pub fn funct5(raw: u32) -> (r: u8)
    ensures
        r == spec_funct5(raw),
        r < 32,
{
    field(raw as u64, 27, 0x1f) as u8
}

#[verifier::when_used_as_spec(spec_imm12)]
pub fn imm12(raw: u32) -> (r: u64)
    ensures
        r == spec_imm12(raw),
        r < 0x1000,
{
    field(raw as u64, 20, 0xfff)
}

/// An instruction of the R format: two source registers, a destination.
#[derive(Clone, Copy, Debug, PartialEq, Eq, Structural)]
pub struct RType {
    pub raw: u32,
}

impl RType {
    pub fn new_with_raw_value(raw: u32) -> (r: Self)
        ensures
            r.raw == raw,
    {
        Self { raw }
    }

    pub fn funct7(&self) -> (r: u8)
        ensures
            r == spec_funct7(self.raw),
            r < 128,
    {
        funct7(self.raw)
    }

    pub fn rs2(&self) -> (r: u8)
        ensures
            r == spec_rs2(self.raw),
            r < 32,
    {
        rs2(self.raw)
    }

    pub fn rs1(&self) -> (r: u8)
        ensures
            r == spec_rs1(self.raw),
            r < 32,
    {
        rs1(self.raw)
    }

    pub fn funct3(&self) -> (r: u8)
        ensures
            r == spec_funct3(self.raw),
            r < 8,
    {
        funct3(self.raw)
    }

    pub fn rd(&self) -> (r: u8)
        ensures
            r == spec_rd(self.raw),
            r < 32,
    {
        rd(self.raw)
    }
}

/// An instruction of the I format: a source register, a destination and a
/// twelve-bit immediate.
#[derive(Clone, Copy, Debug, PartialEq, Eq, Structural)]
pub struct IType {
    pub raw: u32,
}

impl IType {
    pub fn new_with_raw_value(raw: u32) -> (r: Self)
        ensures
            r.raw == raw,
    {
        Self { raw }
    }

    /// The sign-extended immediate.
    pub fn imm(&self) -> (r: u64)
        ensures
            r == spec_imm_i(self.raw),
    {
        sign_extend(imm12(self.raw), 0x800)
    }

    pub fn rs1(&self) -> (r: u8)
        ensures
            r == spec_rs1(self.raw),
            r < 32,
    {
        rs1(self.raw)
    }

    pub fn funct3(&self) -> (r: u8)
        ensures
            r == spec_funct3(self.raw),
            r < 8,
    {
        funct3(self.raw)
    }

    pub fn rd(&self) -> (r: u8)
        ensures
            r == spec_rd(self.raw),
            r < 32,
    {
        rd(self.raw)
    }
}

/// An instruction of the S format: two source registers and a twelve-bit
/// immediate.
#[derive(Clone, Copy, Debug, PartialEq, Eq, Structural)]
pub struct SType {
    pub raw: u32,
}

impl SType {
    pub fn new_with_raw_value(raw: u32) -> (r: Self)
        ensures
            r.raw == raw,
    {
        Self { raw }
    }

    pub fn rs2(&self) -> (r: u8)
        ensures
            r == spec_rs2(self.raw),
            r < 32,
    {
        rs2(self.raw)
    }

    pub fn rs1(&self) -> (r: u8)
        ensures
            r == spec_rs1(self.raw),
            r < 32,
    {
        rs1(self.raw)
    }

    pub fn funct3(&self) -> (r: u8)
        ensures
            r == spec_funct3(self.raw),
            r < 8,
    {
        funct3(self.raw)
    }

    /// The sign-extended immediate.
    pub fn imm(&self) -> (r: u64)
        ensures
            r == spec_imm_s(self.raw),
    {
        let raw = self.raw as u64;
        sign_extend(field(raw, 25, 0x7f) * 32 + field(raw, 7, 0x1f), 0x800)
    }
}

/// An instruction of the B format: two source registers and a branch
/// offset.
#[derive(Clone, Copy, Debug, PartialEq, Eq, Structural)]
pub struct BType {
    pub raw: u32,
}

impl BType {
    pub fn new_with_raw_value(raw: u32) -> (r: Self)
        ensures
            r.raw == raw,
    {
        Self { raw }
    }

    pub fn rs2(&self) -> (r: u8)
        ensures
            r == spec_rs2(self.raw),
            r < 32,
    {
        rs2(self.raw)
    }

    pub fn rs1(&self) -> (r: u8)
        ensures
            r == spec_rs1(self.raw),
            r < 32,
    {
        rs1(self.raw)
    }

    pub fn funct3(&self) -> (r: u8)
        ensures
            r == spec_funct3(self.raw),
            r < 8,
    {
        funct3(self.raw)
    }

    /// The sign-extended branch offset.
    pub fn imm(&self) -> (r: u64)
        ensures
            r == spec_imm_b(self.raw),
    {
        let raw = self.raw as u64;
        sign_extend(
            field(raw, 31, 1) * 0x1000 + field(raw, 7, 1) * 0x800 + field(raw, 25, 0x3f) * 32
                + field(raw, 8, 0xf) * 2,
            0x1000,
        )
    }
}

/// An instruction of the U format: a destination and a twenty-bit upper
/// immediate.
#[derive(Clone, Copy, Debug, PartialEq, Eq, Structural)]
pub struct UType {
    pub raw: u32,
}

impl UType {
    pub fn new_with_raw_value(raw: u32) -> (r: Self)
        ensures
            r.raw == raw,
    {
        Self { raw }
    }

    pub fn rd(&self) -> (r: u8)
        ensures
            r == spec_rd(self.raw),
            r < 32,
    {
        rd(self.raw)
    }

    /// The sign-extended upper immediate.
    pub fn imm(&self) -> (r: u64)
        ensures
            r == spec_imm_u(self.raw),
    {
        sign_extend(field(self.raw as u64, 12, 0xf_ffff) * 0x1000, 0x8000_0000)
    }
}

/// An instruction of the J format: a destination and a jump offset.
#[derive(Clone, Copy, Debug, PartialEq, Eq, Structural)]
pub struct JType {
    pub raw: u32,
}

impl JType {
    pub fn new_with_raw_value(raw: u32) -> (r: Self)
        ensures
            r.raw == raw,
    {
        Self { raw }
    }

    pub fn rd(&self) -> (r: u8)
        ensures
            r == spec_rd(self.raw),
            r < 32,
    {
        rd(self.raw)
    }

    /// The sign-extended jump offset.
    pub fn imm(&self) -> (r: u64)
        ensures
            r == spec_imm_j(self.raw),
    {
        let raw = self.raw as u64;
        sign_extend(
            field(raw, 31, 1) * 0x10_0000 + field(raw, 12, 0xff) * 0x1000 + field(raw, 20, 1)
                * 0x800 + field(raw, 21, 0x3ff) * 2,
            0x10_0000,
        )
    }
}

/// An instruction of the R format as the atomic extension reads it.
#[derive(Clone, Copy, Debug, PartialEq, Eq, Structural)]
pub struct ARType {
    pub raw: u32,
}

impl ARType {
    pub fn new_with_raw_value(raw: u32) -> (r: Self)
        ensures
            r.raw == raw,
    {
        Self { raw }
    }

    pub fn funct5(&self) -> (r: u8)
        ensures
            r == spec_funct5(self.raw),
            r < 32,
    {
        funct5(self.raw)
    }

    /// The acquire bit (bit 26).
    pub fn aq(&self) -> (r: bool)
        ensures
            r == spec_bit(self.raw as u64, 26),
    {
        bit(self.raw as u64, 26)
    }

    /// The release bit (bit 25).
    pub fn rl(&self) -> (r: bool)
        ensures
            r == spec_bit(self.raw as u64, 25),
    {
        bit(self.raw as u64, 25)
    }

    pub fn rs2(&self) -> (r: u8)
        ensures
            r == spec_rs2(self.raw),
            r < 32,
    {
        rs2(self.raw)
    }

    pub fn rs1(&self) -> (r: u8)
        ensures
            r == spec_rs1(self.raw),
            r < 32,
    {
        rs1(self.raw)
    }

    pub fn funct3(&self) -> (r: u8)
        ensures
            r == spec_funct3(self.raw),
            r < 8,
    {
        funct3(self.raw)
    }

    pub fn rd(&self) -> (r: u8)
        ensures
            r == spec_rd(self.raw),
            r < 32,
    {
        rd(self.raw)
    }
}

} // verus!
