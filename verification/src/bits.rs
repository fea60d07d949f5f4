//! Small bit-level facts about `u8` and `u16` values, shared by the
//! register-manipulation proofs of the other modules.

use vstd::prelude::*;

verus! {

/// Masking keeps a value at or below both the mask and the value.
pub proof fn lemma_u8_and_le(x: u8, m: u8)
    by (bit_vector)
    ensures
        x & m <= m,
        x & m <= x,
{
}

/// Masking keeps a value at or below both the mask and the value.
pub proof fn lemma_u16_and_le(x: u16, m: u16)
    by (bit_vector)
    ensures
        x & m <= m,
        x & m <= x,
{
}

/// A value is fixed by a mask whose set bits cover it.
pub proof fn lemma_u8_and_idempotent(x: u8)
    by (bit_vector)
    ensures
        x & x == x,
        x | x == x,
{
}

/// Or-ing keeps every bit of either operand.
pub proof fn lemma_u8_or_ge(x: u8, m: u8)
    by (bit_vector)
    ensures
        (x | m) & m == m,
        (x | m) & x == x,
        x | m >= x,
        x | m >= m,
{
}

/// Shifting an 8-bit value right bounds the result by the shifted maximum.
pub proof fn lemma_u8_shr_bound(x: u8, s: u8)
    by (bit_vector)
    requires
        s < 8,
    ensures
        (x >> s) & 1 <= 1,
        s == 4 ==> x >> s < 16,
        s == 5 ==> x >> s < 8,
        s == 6 ==> x >> s < 4,
        s == 7 ==> x >> s < 2,
{
}

/// Updating either half of an 11-bit frequency register keeps it below 2048.
pub proof fn lemma_freq_reg_write(fr: u16, val: u8)
    by (bit_vector)
    requires
        fr < 2048,
    ensures
        ((fr & 0xFF00) | (val as u16)) < 2048,
        ((fr & 0x00FF) | (((val & 7) as u16) << 8)) < 2048,
{
}

/// Writing the mode bits into STAT touches nothing above them.
pub proof fn lemma_stat_mode_bits(s: u8, b: u8)
    by (bit_vector)
    requires
        b < 4,
    ensures
        ((s & 0xFC) | b) & 0x08 == s & 0x08,
        ((s & 0xFC) | b) & 0x10 == s & 0x10,
        ((s & 0xFC) | b) & 0x20 == s & 0x20,
        ((s & 0xFC) | b) & 0x40 == s & 0x40,
        ((s & 0xFC) | b) & 0xF8 == s & 0xF8,
        ((s & 0xFC) | b) & 3 == b,
{
}

/// Setting or clearing the LY=LYC bit leaves the interrupt-enable bit alone.
pub proof fn lemma_stat_coincidence_bit(s: u8)
    by (bit_vector)
    ensures
        (s | 0x04) & 0x40 == s & 0x40,
        (s & !0x04u8) & 0x40 == s & 0x40,
        (s | 0x04) & 0xF8 == s & 0xF8,
        (s & !0x04u8) & 0xF8 == s & 0xF8,
{
}

/// Two STAT values that agree above bit 2 agree on every interrupt source,
/// and any single enabled source makes the source field non-zero.
pub proof fn lemma_stat_sources(s: u8, t: u8)
    by (bit_vector)
    requires
        s & 0xF8 == t & 0xF8,
    ensures
        s & 0x08 != 0 ==> t & 0x78 != 0,
        s & 0x10 != 0 ==> t & 0x78 != 0,
        s & 0x20 != 0 ==> t & 0x78 != 0,
        s & 0x40 != 0 ==> t & 0x78 != 0,
        s & 0x78 != 0 ==> t & 0x78 != 0,
{
}

/// Two bitplane bits combine into a color id below 4.
pub proof fn lemma_color_id_bound(b1: u8, b2: u8)
    by (bit_vector)
    requires
        b1 <= 1,
        b2 <= 1,
    ensures
        ((b2 << 1) | b1) < 4,
{
}

/// Shifting a byte left by eight in a 16-bit word multiplies it by 256.
pub proof fn lemma_u16_shl8_is_mul256(x: u8)
    by (bit_vector)
    ensures
        ((x as u16) << 8) == (x as u16) * 256,
{
}

/// Two bytes combine little-endian into low + high * 256.
pub proof fn lemma_u16_byte_combine(low: u8, high: u8)
    by (bit_vector)
    ensures
        (((high as u16) << 8) | (low as u16)) == (low as u16) + (high as u16) * 256,
{
}

/// A 16-bit value splits into its low byte and its high byte.
pub proof fn lemma_u16_split_bytes(x: u16)
    by (bit_vector)
    ensures
        (x & 0xFF) < 256,
        (x >> 8) < 256,
        (x & 0xFF) + (x >> 8) * 256 == x,
{
}

/// Raising one interrupt bit in IF sets that bit and leaves the others.
pub proof fn lemma_irq_bits(x: u8)
    by (bit_vector)
    ensures
        (x | (1u8 << 0)) & 0x01 != 0,
        (x | (1u8 << 1)) & 0x02 != 0,
        (x | (1u8 << 2)) & 0x04 != 0,
        (x | (1u8 << 4)) & 0x10 != 0,
        (x | (1u8 << 1)) & 0x01 == x & 0x01,
        (x | (1u8 << 2)) & 0x01 == x & 0x01,
        (x | (1u8 << 2)) & 0x02 == x & 0x02,
        (x | (1u8 << 0)) & 0x04 == x & 0x04,
        (x | (1u8 << 1)) & 0x04 == x & 0x04,
        (x | (1u8 << 0)) & 0xE0 == x & 0xE0,
        (x | (1u8 << 1)) & 0xE0 == x & 0xE0,
        (x | (1u8 << 2)) & 0xE0 == x & 0xE0,
        (x | (1u8 << 4)) & 0xE0 == x & 0xE0,
{
}

/// Little-endian byte decomposition by division recombines to the value.
pub proof fn lemma_u64_le_round_trip(x: u64)
    by (bit_vector)
    ensures
        ((x / 0x1) % 256) + ((x / 0x100) % 256) * 0x100 + ((x / 0x10000) % 256) * 0x10000 + ((x
            / 0x1000000) % 256) * 0x1000000 + ((x / 0x100000000) % 256) * 0x100000000 + ((x
            / 0x10000000000) % 256) * 0x10000000000 + ((x / 0x1000000000000) % 256)
            * 0x1000000000000 + ((x / 0x100000000000000) % 256) * 0x100000000000000 == x,
{
}

/// A signed 64-bit value survives the round trip through its unsigned bits.
pub proof fn lemma_i64_u64_round_trip(x: i64)
    by (bit_vector)
    ensures
        ((x as u64) as i64) == x,
{
}

/// Properties of writing one flag bit of F: the low nibble stays zero, the
/// written bit reads back as the stored value, and the other flag bits keep
/// their readings.
pub proof fn lemma_set_flag(f: u8, bit: u8, v: bool)
    by (bit_vector)
    requires
        4 <= bit <= 7,
    ensures
        ({
            let sf = (if v {
                f | (1u8 << bit)
            } else {
                f & !(1u8 << bit)
            }) & 0xF0;
            &&& sf & 0x0F == 0
            &&& (bit == 7 ==> (sf & 0x80 != 0) == v)
            &&& (bit == 6 ==> (sf & 0x40 != 0) == v)
            &&& (bit == 5 ==> (sf & 0x20 != 0) == v)
            &&& (bit == 4 ==> (sf & 0x10 != 0) == v)
            &&& (bit != 7 ==> sf & 0x80 == f & 0x80)
            &&& (bit != 6 ==> sf & 0x40 == f & 0x40)
            &&& (bit != 5 ==> sf & 0x20 == f & 0x20)
            &&& (bit != 4 ==> sf & 0x10 == f & 0x10)
        }),
{
}

/// The flag byte built from the four flag values reads back bitwise, and its
/// low nibble is zero.
pub proof fn lemma_flags_byte(z: bool, n: bool, h: bool, c: bool)
    by (bit_vector)
    ensures
        ({
            let f = ((if z {
                0x80u8
            } else {
                0u8
            }) | (if n {
                0x40u8
            } else {
                0u8
            }) | (if h {
                0x20u8
            } else {
                0u8
            }) | (if c {
                0x10u8
            } else {
                0u8
            })) as u8;
            &&& f & 0x0F == 0
            &&& (f & 0x80 != 0) == z
            &&& (f & 0x40 != 0) == n
            &&& (f & 0x20 != 0) == h
            &&& (f & 0x10 != 0) == c
        }),
{
}

/// Storing the upper nibble of a 16-bit word into F keeps its low nibble
/// zero.
pub proof fn lemma_af_low_nibble(val: u16)
    by (bit_vector)
    ensures
        ((val & 0x00F0) as u8) & 0x0F == 0,
        (val & 0x00F0) < 256,
        (val & 0xFF) < 256,
{
}

/// Writes that reach IF keep its upper three bits set.
pub proof fn lemma_if_upper_bits(x: u8, b: u8)
    by (bit_vector)
    requires
        b < 5,
    ensures
        ((x & 0x1F) | 0xE0) & 0xE0 == 0xE0,
        x & 0xE0 == 0xE0 ==> (x | (1u8 << b)) & 0xE0 == 0xE0,
        x & 0xE0 == 0xE0 ==> (x & !(1u8 << b)) & 0xE0 == 0xE0,
{
}

/// In the load block only 0x76 has both operand fields equal to six.
pub proof fn lemma_ld_operand_fields(op: u8)
    by (bit_vector)
    requires
        0x40 <= op <= 0x7F,
    ensures
        ((op >> 3) & 7 == 6 && op & 7 == 6) ==> op == 0x76,
{
}

/// A 16-bit value shifted right by 8 fits in a byte.
pub proof fn lemma_u16_shr8_bound(x: u16)
    by (bit_vector)
    ensures
        x >> 8 < 256,
        (x >> 8) & 1 <= 1,
{
}

} // verus!
