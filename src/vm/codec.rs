//! Bit fields of an instruction word and two's-complement sign extension.

use vstd::prelude::*;

verus! {

/// Bit `k` of `v` (0 = least significant), as a boolean.
pub open spec fn bit(v: u16, k: u16) -> bool {
    (v >> k) & 1 == 1
}

/// All bits of a word at position `n` and above, the rest clear (none when
/// `n` is 16).
pub open spec fn high_mask(n: u16) -> u16 {
    ((0xFFFFu32 << n) & 0xFFFF) as u16
}

/// What `sign_extend` returns: the bits above `n` are filled from bit `n - 1`.
pub open spec fn sext(v: u16, n: u16) -> u16 {
    if bit(v, (n - 1) as u16) {
        v | high_mask(n)
    } else {
        v
    }
}

/// Widens the `bit_count`-bit field held in `value` to sixteen bits: when bit
/// `bit_count - 1` is set, every higher bit is set as well; otherwise `value`
/// is returned unchanged. A sixteen-bit field has no higher bits and is
/// returned unchanged.
pub fn sign_extend(value: u16, bit_count: u16) -> (r: u16)
    requires
        1 <= bit_count <= 16,
    ensures
        r == sext(value, bit_count),
        bit_count == 16 ==> r == value,
{
    assert(value | high_mask(16) == value) by (bit_vector);
    if (value >> (bit_count - 1)) & 1 == 1 {
        assert(((0xFFFFu32 << bit_count) & 0xFFFF) < 0x10000) by (bit_vector);
        value | (((0xFFFFu32 << bit_count) & 0xFFFF) as u16)
    } else {
        value
    }
}

/// The three-bit register field of `instr` that starts at bit `shift`.
pub open spec fn reg_of(instr: u16, shift: u16) -> u16 {
    (instr >> shift) & 7
}

pub open spec fn imm5_of(instr: u16) -> u16 {
    sext(instr & 0x1F, 5)
}

pub open spec fn offset6_of(instr: u16) -> u16 {
    sext(instr & 0x3F, 6)
}

pub open spec fn offset9_of(instr: u16) -> u16 {
    sext(instr & 0x1FF, 9)
}

pub open spec fn offset11_of(instr: u16) -> u16 {
    sext(instr & 0x7FF, 11)
}

/// The opcode: bits 15 to 12.
pub fn opcode(instr: u16) -> (r: u16)
    ensures
        r == instr >> 12u16,
        r < 16,
{
    assert(instr >> 12u16 < 16) by (bit_vector);
    instr >> 12
}

/// The register index held in the three bits of `instr` from bit `shift` up.
pub fn reg(instr: u16, shift: u16) -> (r: u16)
    requires
        shift < 16,
    ensures
        r == reg_of(instr, shift),
        r < 8,
{
    assert((instr >> shift) & 7 < 8) by (bit_vector);
    (instr >> shift) & 7
}

/// Bits 4 to 0, sign-extended.
pub fn imm5(instr: u16) -> (r: u16)
    ensures
        r == imm5_of(instr),
{
    sign_extend(instr & 0x1F, 5)
}

/// Bits 5 to 0, sign-extended.
pub fn offset6(instr: u16) -> (r: u16)
    ensures
        r == offset6_of(instr),
{
    sign_extend(instr & 0x3F, 6)
}

/// Bits 8 to 0, sign-extended.
pub fn offset9(instr: u16) -> (r: u16)
    ensures
        r == offset9_of(instr),
{
    sign_extend(instr & 0x1FF, 9)
}

/// Bits 10 to 0, sign-extended.
pub fn offset11(instr: u16) -> (r: u16)
    ensures
        r == offset11_of(instr),
{
    sign_extend(instr & 0x7FF, 11)
}

/// `2^k` for the shift amounts of a sixteen-bit word.
pub open spec fn pow2(k: u16) -> int
    decreases k,
{
    if k == 0 {
        1
    } else {
        2 * pow2((k - 1) as u16)
    }
}

/// The integer that the `n`-bit two's-complement field `f` stands for.
pub open spec fn signed_field(f: u16, n: u16) -> int {
    if f as int >= pow2((n - 1) as u16) {
        f as int - pow2(n)
    } else {
        f as int
    }
}

proof fn lemma_pow2_shift(k: u16)
    requires
        k < 16,
    ensures
        pow2(k) == (1u32 << k) as int,
    decreases k,
{
    if k > 0 {
        lemma_pow2_shift((k - 1) as u16);
        assert((1u32 << k) == 2 * (1u32 << ((k - 1) as u16))) by (bit_vector)
            requires
                0 < k < 16,
        ;
    } else {
        assert((1u32 << 0u16) == 1) by (bit_vector);
    }
}

/// Sign extension of the low `n` bits of any word gives, modulo `2^16`, the
/// integer that those bits stand for in `n`-bit two's complement.
pub proof fn lemma_sign_extend_field(v: u16, n: u16)
    requires
        1 <= n < 16,
    ensures
        sext(v & (((1u16 << n) - 1) as u16), n) as int == signed_field(
            v & (((1u16 << n) - 1) as u16),
            n,
        ) + if signed_field(v & (((1u16 << n) - 1) as u16), n) < 0 {
            65536int
        } else {
            0int
        },
{
    let f = v & (((1u16 << n) - 1) as u16);
    lemma_pow2_shift(n);
    lemma_pow2_shift((n - 1) as u16);
    let m = (n - 1) as u16;
    assert(f < (1u32 << n)) by (bit_vector)
        requires
            f == v & (((1u16 << n) - 1) as u16),
            1 <= n < 16,
    ;
    assert(bit(f, m) <==> f >= (1u32 << m)) by (bit_vector)
        requires
            f == v & (((1u16 << n) - 1) as u16),
            1 <= n < 16,
            m == n - 1,
    ;
    assert(f >= (1u32 << m) ==> (f | high_mask(n)) as u32 == f + 65536 - (1u32 << n))
        by (bit_vector)
        requires
            f == v & (((1u16 << n) - 1) as u16),
            1 <= n < 16,
            m == n - 1,
    ;
}

} // verus!
