//! Arithmetic on machine words: two's complement values, sign extension, bit
//! fields, and numbers as little-endian bytes.
use vstd::arithmetic::div_mod::lemma_breakdown;
use vstd::prelude::*;

verus! {

/// 2^64, the modulus of all register arithmetic.
pub open spec fn pow64() -> int {
    0x1_0000_0000_0000_0000
}

/// The value of a 64-bit word read as a two's-complement number.
pub open spec fn signed64(x: u64) -> int {
    if x < 0x8000_0000_0000_0000 {
        x as int
    } else {
        x as int - pow64()
    }
}

/// The value of a 32-bit word read as a two's-complement number.
pub open spec fn signed32(x: u32) -> int {
    if x < 0x8000_0000 {
        x as int
    } else {
        x as int - 0x1_0000_0000
    }
}

/// The 64-bit word that represents `v` modulo 2^64.
pub open spec fn unsigned64(v: int) -> u64 {
    (v % pow64()) as u64
}

/// The 32-bit word that represents `v` modulo 2^32.
pub open spec fn unsigned32(v: int) -> u32 {
    (v % 0x1_0000_0000) as u32
}

/// The low 32 bits of a word.
pub open spec fn low32(x: u64) -> u32 {
    (x % 0x1_0000_0000) as u32
}

/// A 32-bit result as it is written to a register: sign-extended.
pub open spec fn sext32(v: u32) -> u64 {
    sign_extend_spec(v as u64, 0x8000_0000)
}

/// Division rounding towards zero, as the hardware divides signed numbers.
pub open spec fn trunc_div(x: int, d: int) -> int
    recommends
        d != 0,
{
    if x >= 0 && d > 0 {
        x / d
    } else if x < 0 && d < 0 {
        (-x) / (-d)
    } else if x < 0 {
        -((-x) / d)
    } else {
        -(x / (-d))
    }
}

/// The remainder that goes with `trunc_div`: it has the sign of the
/// dividend, and the size of the remainder of the two absolute values.
pub open spec fn trunc_rem(x: int, d: int) -> int
    recommends
        d != 0,
{
    if x >= 0 && d > 0 {
        x % d
    } else if x < 0 && d < 0 {
        -((-x) % (-d))
    } else if x < 0 {
        -((-x) % d)
    } else {
        x % (-d)
    }
}

/// A quotient is no larger than its dividend, a remainder smaller than its
/// divisor, each in absolute value.
pub proof fn lemma_trunc_div_range(x: int, d: int)
    requires
        d != 0,
    ensures
        x >= 0 ==> -x <= trunc_div(x, d) <= x,
        x < 0 ==> x <= trunc_div(x, d) <= -x,
        x >= 0 ==> 0 <= trunc_rem(x, d) <= x,
        x < 0 ==> x <= trunc_rem(x, d) <= 0,
        d > 0 ==> -d < trunc_rem(x, d) < d,
        d < 0 ==> d < trunc_rem(x, d) < -d,
{
    let ax = if x >= 0 { x } else { -x };
    let ad = if d > 0 { d } else { -d };
    vstd::arithmetic::div_mod::lemma_div_pos_is_pos(ax, ad);
    vstd::arithmetic::div_mod::lemma_div_is_ordered_by_denominator(ax, 1, ad);
    vstd::arithmetic::div_mod::lemma_div_basics(ax);
    vstd::arithmetic::div_mod::lemma_mod_bound(ax, ad);
    vstd::arithmetic::div_mod::lemma_mod_decreases(ax as nat, ad as nat);
}

/// Sign extension of a field whose sign bit has weight `sign`: a field value
/// of `sign` or more stands for that value minus `2 * sign`.
pub open spec fn sign_extend_spec(value: u64, sign: u64) -> u64 {
    if value >= sign {
        unsigned64(value - 2 * sign)
    } else {
        value
    }
}

#[verifier::when_used_as_spec(sign_extend_spec)]
pub fn sign_extend(value: u64, sign: u64) -> (r: u64)
    requires
        0 < sign <= 0x4000_0000_0000_0000,
        value < 2 * sign,
    ensures
        r == sign_extend_spec(value, sign),
        signed64(r) == (if value >= sign {
            value - 2 * sign
        } else {
            value as int
        }),
{
    if value >= sign {
        let r = u64::MAX - (2 * sign - 1) + value;
        assert((value - 2 * sign) % pow64() == r) by {
            vstd::arithmetic::div_mod::lemma_fundamental_div_mod_converse(
                value - 2 * sign,
                pow64(),
                -1,
                r as int,
            );
        }
        r
    } else {
        value
    }
}

/// The number that a sequence of bytes stands for, least significant byte first.
pub open spec fn le_value(bytes: Seq<u8>) -> nat
    decreases bytes.len(),
{
    if bytes.len() == 0 {
        0
    } else {
        bytes[0] as nat + 256 * le_value(bytes.drop_first())
    }
}

/// The `n` least significant bytes of `value`, least significant byte first.
pub open spec fn le_bytes(value: nat, n: nat) -> Seq<u8>
    decreases n,
{
    if n == 0 {
        Seq::empty()
    } else {
        seq![(value % 256) as u8] + le_bytes(value / 256, (n - 1) as nat)
    }
}

/// 256^n for the access widths of the machine (at most eight bytes).
pub open spec fn pow256(n: nat) -> nat
    decreases n,
{
    if n == 0 {
        1
    } else {
        256 * pow256((n - 1) as nat)
    }
}

/// The powers of 256 up to the eighth.
pub proof fn lemma_pow256_values()
    ensures
        pow256(0) == 1,
        pow256(1) == 0x100,
        pow256(2) == 0x1_0000,
        pow256(3) == 0x100_0000,
        pow256(4) == 0x1_0000_0000,
        pow256(5) == 0x100_0000_0000,
        pow256(6) == 0x1_0000_0000_0000,
        pow256(7) == 0x100_0000_0000_0000,
        pow256(8) == 0x1_0000_0000_0000_0000,
{
    reveal_with_fuel(pow256, 10);
}

/// A number written out in `n` bytes takes `n` bytes.
pub proof fn lemma_le_bytes_len(value: nat, n: nat)
    ensures
        le_bytes(value, n).len() == n,
    decreases n,
{
    if n > 0 {
        lemma_le_bytes_len(value / 256, (n - 1) as nat);
    }
}

/// A sequence of `n` bytes stands for a number below 256^n.
pub proof fn lemma_le_value_bound(bytes: Seq<u8>)
    ensures
        le_value(bytes) < pow256(bytes.len()),
    decreases bytes.len(),
{
    if bytes.len() > 0 {
        lemma_le_value_bound(bytes.drop_first());
    }
}

/// Writing a number out in `n` bytes and reading it back keeps it modulo 256^n.
pub proof fn lemma_le_round_trip(value: nat, n: nat)
    ensures
        le_value(le_bytes(value, n)) == value % pow256(n),
    decreases n,
{
    if n == 0 {
    } else {
        let rest = le_bytes(value / 256, (n - 1) as nat);
        let all = le_bytes(value, n);
        lemma_le_round_trip(value / 256, (n - 1) as nat);
        assert(all.drop_first() =~= rest);
        assert(pow256((n - 1) as nat) > 0) by {
            lemma_pow256_positive((n - 1) as nat);
        }
        lemma_breakdown(value as int, 256, pow256((n - 1) as nat) as int);
        assert(256 * pow256((n - 1) as nat) == pow256(n));
    }
}

/// Every power of 256 is positive.
pub proof fn lemma_pow256_positive(n: nat)
    ensures
        pow256(n) > 0,
    decreases n,
{
    if n > 0 {
        lemma_pow256_positive((n - 1) as nat);
    }
}

/// Bit `index` of a word.
pub open spec fn spec_bit(raw: u64, index: u64) -> bool {
    (raw >> index) & 1 == 1
}

/// The word with bit `index` set to `value`.
pub open spec fn spec_set_bit(raw: u64, index: u64, value: bool) -> u64 {
    if value {
        raw | (1u64 << index)
    } else {
        raw & !(1u64 << index)
    }
}

/// The field of a word that starts at bit `low` and is as wide as `mask`.
pub open spec fn spec_field(raw: u64, low: u64, mask: u64) -> u64 {
    (raw >> low) & mask
}

/// The word with the field at bit `low`, as wide as `mask`, set to `value`.
pub open spec fn spec_set_field(raw: u64, low: u64, mask: u64, value: u64) -> u64 {
    (raw & !(mask << low)) | ((value & mask) << low)
}

#[verifier::when_used_as_spec(spec_bit)]
pub fn bit(raw: u64, index: u64) -> (r: bool)
    requires
        index < 64,
    ensures
        r == spec_bit(raw, index),
{
    (raw >> index) & 1 == 1
}

#[verifier::when_used_as_spec(spec_set_bit)]
pub fn set_bit(raw: u64, index: u64, value: bool) -> (r: u64)
    requires
        index < 64,
    ensures
        r == spec_set_bit(raw, index, value),
{
    if value {
        raw | (1u64 << index)
    } else {
        raw & !(1u64 << index)
    }
}

#[verifier::when_used_as_spec(spec_field)]
pub fn field(raw: u64, low: u64, mask: u64) -> (r: u64)
    requires
        low < 64,
    ensures
        r == spec_field(raw, low, mask),
        r <= mask,
{
    let r = (raw >> low) & mask;
    assert(((raw >> low) & mask) <= mask) by (bit_vector);
    r
}

#[verifier::when_used_as_spec(spec_set_field)]
pub fn set_field(raw: u64, low: u64, mask: u64, value: u64) -> (r: u64)
    requires
        low < 64,
    ensures
        r == spec_set_field(raw, low, mask, value),
{
    (raw & !(mask << low)) | ((value & mask) << low)
}

/// Setting a bit changes that bit and no other.
pub proof fn lemma_set_bit(raw: u64, index: u64, value: bool, other: u64)
    by (bit_vector)
    requires
        index < 64,
        other < 64,
    ensures
        spec_bit(spec_set_bit(raw, index, value), other) == (if other == index {
            value
        } else {
            spec_bit(raw, other)
        }),
{
}

/// Reads `n` bytes at `index` as a little-endian number.
pub fn read_le(mem: &Vec<u8>, index: usize, n: usize) -> (r: u64)
    requires
        n <= 8,
        index + n <= mem.len(),
    ensures
        r == le_value(mem@.subrange(index as int, index + n)),
{
    let mut acc: u64 = 0;
    let mut i: usize = n;
    proof {
        lemma_pow256_values();
    }
    while i > 0
        invariant
            i <= n <= 8,
            index + n <= mem.len(),
            acc == le_value(mem@.subrange(index + i, index + n)),
            acc < pow256((n - i) as nat),
        decreases i,
    {
        i = i - 1;
        proof {
            let cur = mem@.subrange(index + i, index + n);
            assert(cur.drop_first() =~= mem@.subrange(index + i + 1, index + n));
            assert(cur[0] == mem@[index + i]);
            lemma_pow256_values();
            assert(pow256((n - i) as nat) == 256 * pow256((n - i - 1) as nat));
        }
        acc = acc * 256 + mem[index + i] as u64;
    }
    acc
}

/// Writes the `n` low bytes of `value` at `index`, least significant first.
pub fn write_le(mem: &mut Vec<u8>, index: usize, n: usize, value: u64)
    requires
        n <= 8,
        index + n <= old(mem).len(),
    ensures
        final(mem)@ == old(mem)@.subrange(0, index as int) + le_bytes(value as nat, n as nat)
            + old(mem)@.subrange(index + n, old(mem).len() as int),
{
    let mut v: u64 = value;
    let mut i: usize = 0;
    while i < n
        invariant
            i <= n <= 8,
            index + n <= mem.len(),
            mem.len() == old(mem).len(),
            mem@.subrange(0, index as int) == old(mem)@.subrange(0, index as int),
            mem@.subrange(index + n, mem.len() as int) == old(mem)@.subrange(
                index + n,
                mem.len() as int,
            ),
            le_bytes(value as nat, n as nat) == mem@.subrange(index as int, index + i) + le_bytes(
                v as nat,
                (n - i) as nat,
            ),
        decreases n - i,
    {
        let ghost before = mem@;
        let byte: u8 = (v % 256) as u8;
        mem[index + i] = byte;
        proof {
            let tail = le_bytes((v / 256) as nat, (n - i - 1) as nat);
            assert(le_bytes(v as nat, (n - i) as nat) == seq![byte] + tail);
            assert(mem@.subrange(index as int, index + i + 1) =~= before.subrange(
                index as int,
                index + i,
            ) + seq![byte]);
            assert(before.subrange(index as int, index + i) + (seq![byte] + tail)
                =~= mem@.subrange(index as int, index + i + 1) + tail);
            assert(mem@.subrange(0, index as int) =~= before.subrange(0, index as int));
            assert(mem@.subrange(index + n, mem.len() as int) =~= before.subrange(
                index + n,
                mem.len() as int,
            ));
        }
        v = v / 256;
        i = i + 1;
    }
    proof {
        assert(le_bytes(v as nat, 0) =~= Seq::<u8>::empty());
        lemma_le_bytes_len(value as nat, n as nat);
        assert(mem@ =~= mem@.subrange(0, index as int) + mem@.subrange(index as int, index + n)
            + mem@.subrange(index + n, mem.len() as int));
    }
}

/// Appends the `n` low bytes of `value`, least significant first.
pub fn push_le(mem: &mut Vec<u8>, n: usize, value: u64)
    requires
        n <= 8,
    ensures
        final(mem)@ == old(mem)@ + le_bytes(value as nat, n as nat),
{
    let mut v: u64 = value;
    let mut i: usize = 0;
    assert(mem@ =~= old(mem)@ + Seq::<u8>::empty());
    while i < n
        invariant
            i <= n <= 8,
            exists|done: Seq<u8>|
                #![auto]
                mem@ == old(mem)@ + done && le_bytes(value as nat, n as nat) == done + le_bytes(
                    v as nat,
                    (n - i) as nat,
                ),
        decreases n - i,
    {
        let ghost done = choose|done: Seq<u8>|
            #![auto]
            mem@ == old(mem)@ + done && le_bytes(value as nat, n as nat) == done + le_bytes(
                v as nat,
                (n - i) as nat,
            );
        let byte: u8 = (v % 256) as u8;
        mem.push(byte);
        proof {
            let tail = le_bytes((v / 256) as nat, (n - i - 1) as nat);
            assert(le_bytes(v as nat, (n - i) as nat) == seq![byte] + tail);
            assert(mem@ =~= old(mem)@ + (done + seq![byte]));
            assert(done + (seq![byte] + tail) =~= (done + seq![byte]) + tail);
        }
        v = v / 256;
        i = i + 1;
    }
    proof {
        let done = choose|done: Seq<u8>|
            #![auto]
            mem@ == old(mem)@ + done && le_bytes(value as nat, n as nat) == done + le_bytes(
                v as nat,
                0,
            );
        assert(done + le_bytes(v as nat, 0) =~= done);
    }
}

/// What the truncating casts between words of equal width compute, and the
/// ranges of the masked shift amounts.
pub proof fn lemma_word_casts(x: u64, y: i64, a: u32, b: i32)
    by (bit_vector)
    ensures
        (x as i64) as int == (if x < 0x8000_0000_0000_0000u64 {
            x as int
        } else {
            x as int - 0x1_0000_0000_0000_0000
        }),
        (y as u64) as int == (if y >= 0 {
            y as int
        } else {
            y as int + 0x1_0000_0000_0000_0000
        }),
        (a as i32) as int == (if a < 0x8000_0000u32 {
            a as int
        } else {
            a as int - 0x1_0000_0000
        }),
        (b as u32) as int == (if b >= 0 {
            b as int
        } else {
            b as int + 0x1_0000_0000
        }),
        (x as u32) as int == x as int % 0x1_0000_0000,
        (x & 0x3f) < 64,
        (x & 0x1f) < 32,
        (a & 0x1f) < 32,
{
}

} // verus!
