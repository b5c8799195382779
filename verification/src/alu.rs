//! Arithmetic and logic on bytes, with the flags each operation leaves.
//!
//! The model of every operation is stated over the integers: a result is a
//! remainder, a carry is a comparison. The bodies use the masks and shifts of
//! the hardware.

use vstd::prelude::*;
use crate::flags::{PSW, lemma_conditions_read_back};

verus! {

/// 1 for a set carry, 0 for a clear one.
pub open spec fn bit(flag: bool) -> int {
    if flag {
        1
    } else {
        0
    }
}

/// The number of set bits of `x`.
pub open spec fn ones(x: u8) -> int {
    x % 2 + (x / 2) % 2 + (x / 4) % 2 + (x / 8) % 2 + (x / 16) % 2 + (x / 32) % 2 + (x / 64) % 2
        + (x / 128) % 2
}

/// Whether `x` has an even number of set bits.
#[verifier::opaque]
pub open spec fn even_parity(x: u8) -> bool {
    ones(x) % 2 == 0
}

/// The low four bits of `x`.
pub fn low_nibble(x: u8) -> (r: u8)
    ensures
        r == x % 16,
{
    assert(x & 0x0f == x % 16) by (bit_vector);
    x & 0x0f
}

/// The low eight bits of `w`.
pub fn low_byte(w: u16) -> (r: u8)
    ensures
        r == w % 256,
{
    assert(w & 0x00ff == w % 256) by (bit_vector);
    (w & 0x00ff) as u8
}

/// The high eight bits of `w`.
pub fn high_byte(w: u16) -> (r: u8)
    ensures
        r == w / 256,
{
    assert(w >> 8 == w / 256) by (bit_vector);
    (w >> 8) as u8
}

/// The word with `hi` above `lo`.
pub fn word(hi: u8, lo: u8) -> (w: u16)
    ensures
        w == hi * 256 + lo,
{
    assert(((hi as u16) << 8) | (lo as u16) == hi * 256 + lo) by (bit_vector);
    ((hi as u16) << 8) | (lo as u16)
}

/// The byte with every bit of `x` inverted.
pub fn complement(x: u8) -> (r: u8)
    ensures
        r == 255 - x,
{
    assert(!x == 255 - x) by (bit_vector);
    !x
}

/// Whether `x` has an even number of set bits.
pub fn parity(x: u8) -> (even: bool)
    ensures
        even == even_parity(x),
{
    reveal(even_parity);
    let nibbles: u8 = x ^ (x >> 4);
    let pairs: u8 = nibbles ^ (nibbles >> 2);
    let folded: u8 = pairs ^ (pairs >> 1);
    assert(((((x ^ (x >> 4)) ^ ((x ^ (x >> 4)) >> 2)) ^ (((x ^ (x >> 4)) ^ ((x ^ (x >> 4)) >> 2))
        >> 1)) & 1 == 0) == (ones(x) % 2 == 0)) by (bit_vector);
    folded & 1 == 0
}

/// `a + b + carry_in`: the sum modulo 256; Carry where the sum passes 255,
/// Auxiliary Carry where the low nibbles' sum passes 15.
pub open spec fn spec_adc(a: u8, b: u8, carry_in: bool, f: PSW) -> (u8, PSW) {
    let total = a + b + bit(carry_in);
    let value = (total % 256) as u8;
    (
        value,
        f.conditions(
            value >= 0x80,
            value == 0,
            a % 16 + b % 16 + bit(carry_in) > 15,
            even_parity(value),
            total > 255,
        ),
    )
}

/// `a - b - borrow_in`: the difference modulo 256; Carry where it is
/// negative. Auxiliary Carry is the carry out of bit 3 of `a` plus the
/// inverted `b` plus the inverted borrow.
pub open spec fn spec_sbb(a: u8, b: u8, borrow_in: bool, f: PSW) -> (u8, PSW) {
    let total = a - b - bit(borrow_in);
    let value = (total % 256) as u8;
    (
        value,
        f.conditions(
            value >= 0x80,
            value == 0,
            a % 16 + (15 - b % 16) + (1 - bit(borrow_in)) > 15,
            even_parity(value),
            total < 0,
        ),
    )
}

/// `a & b`; Carry clear, Auxiliary Carry set where bit 3 of `a` or of `b` is
/// set.
pub open spec fn spec_ana(a: u8, b: u8, f: PSW) -> (u8, PSW) {
    let value = a & b;
    (
        value,
        f.conditions(
            value >= 0x80,
            value == 0,
            (a / 8) % 2 == 1 || (b / 8) % 2 == 1,
            even_parity(value),
            false,
        ),
    )
}

/// `a ^ b`; Carry and Auxiliary Carry clear.
pub open spec fn spec_xra(a: u8, b: u8, f: PSW) -> (u8, PSW) {
    let value = a ^ b;
    (value, f.conditions(value >= 0x80, value == 0, false, even_parity(value), false))
}

/// `a | b`; Carry and Auxiliary Carry clear.
pub open spec fn spec_ora(a: u8, b: u8, f: PSW) -> (u8, PSW) {
    let value = a | b;
    (value, f.conditions(value >= 0x80, value == 0, false, even_parity(value), false))
}

/// `v + 1` modulo 256; Carry as it was.
pub open spec fn spec_inr(v: u8, f: PSW) -> (u8, PSW) {
    let value = ((v + 1) % 256) as u8;
    (
        value,
        f.conditions(value >= 0x80, value == 0, v % 16 + 1 > 15, even_parity(value), f.has(PSW::C)),
    )
}

/// `v - 1` modulo 256; Carry as it was.
pub open spec fn spec_dcr(v: u8, f: PSW) -> (u8, PSW) {
    let value = ((v - 1) % 256) as u8;
    (
        value,
        f.conditions(value >= 0x80, value == 0, v % 16 != 0, even_parity(value), f.has(PSW::C)),
    )
}

/// The decimal adjustment of `a` under the incoming Auxiliary Carry `half`
/// and Carry `carry`: the adjusted byte and the two flags after it.
///
/// First 6 is added where the low nibble is above 9 or `half` is set; then
/// 0x60 where the high nibble is now above 9 or the carry is set. Either
/// addition sets the carry where it passes 255, and neither clears it.
pub open spec fn decimal_adjusted(a: u8, half: bool, carry: bool) -> (u8, bool, bool) {
    let low = a % 16 > 9 || half;
    let first = if low {
        a + 6
    } else {
        a as int
    };
    let half_after = if low {
        a % 16 + 6 > 15
    } else {
        half
    };
    let carried = carry || first > 255;
    let high = (first / 16) % 16 > 9 || carried;
    let second = if high {
        first + 0x60
    } else {
        first
    };
    ((second % 256) as u8, half_after, carried || second > 255)
}

/// DAA: `decimal_adjusted` on the accumulator and the flags.
pub open spec fn spec_daa(a: u8, f: PSW) -> (u8, PSW) {
    let (value, half, carry) = decimal_adjusted(a, f.has(PSW::A), f.has(PSW::C));
    (value, f.conditions(value >= 0x80, value == 0, half, even_parity(value), carry))
}

/// Rotate left: bit 7 moves to bit 0 and to Carry.
pub open spec fn spec_rlc(a: u8, f: PSW) -> (u8, PSW) {
    (((a * 2) % 256 + a / 128) as u8, f.with(PSW::C, a >= 0x80))
}

/// Rotate right: bit 0 moves to bit 7 and to Carry.
pub open spec fn spec_rrc(a: u8, f: PSW) -> (u8, PSW) {
    ((a / 2 + (a % 2) * 128) as u8, f.with(PSW::C, a % 2 == 1))
}

/// Rotate left through Carry: Carry moves to bit 0, bit 7 to Carry.
pub open spec fn spec_ral(a: u8, f: PSW) -> (u8, PSW) {
    (((a * 2) % 256 + bit(f.has(PSW::C))) as u8, f.with(PSW::C, a >= 0x80))
}

/// Rotate right through Carry: Carry moves to bit 7, bit 0 to Carry.
pub open spec fn spec_rar(a: u8, f: PSW) -> (u8, PSW) {
    ((a / 2 + bit(f.has(PSW::C)) * 128) as u8, f.with(PSW::C, a % 2 == 1))
}

/// `hl + rp` modulo 65536; Carry where the sum passes 65535.
pub open spec fn spec_dad(hl: u16, rp: u16, f: PSW) -> (u16, PSW) {
    (((hl + rp) % 65536) as u16, f.with(PSW::C, hl + rp > 65535))
}

/// ADD, ADI, ADC and ACI: adds `b` and the carry in to `a`.
pub fn adc(a: u8, b: u8, carry_in: bool, f: PSW) -> (r: (u8, PSW))
    ensures
        r == spec_adc(a, b, carry_in, f),
{
    let cin: u8 = if carry_in {
        1
    } else {
        0
    };
    let total: u16 = a as u16 + b as u16 + cin as u16;
    let value: u8 = low_byte(total);
    let half: bool = low_nibble(a) + low_nibble(b) + cin > 0x0f;
    let mut g = f;
    g.assign(value >= 0x80, value == 0, half, parity(value), total > 0xff);
    (value, g)
}

/// Adding the complement of `b` and of the borrow is subtracting both, 256
/// higher.
proof fn lemma_complement(a: u8, b: u8, borrow_in: bool)
    ensures
        (a + (255 - b) + (1 - bit(borrow_in))) % 256 == (a - b - bit(borrow_in)) % 256,
        (255 - b) % 16 == 15 - b % 16,
{
    let difference = a - b - bit(borrow_in);
    if difference >= 0 {
        assert((256 + difference) % 256 == difference);
        assert(difference % 256 == difference);
    } else {
        assert((256 + difference) % 256 == 256 + difference);
        assert(difference % 256 == 256 + difference);
    }
}

/// SUB, SUI, SBB, SBI, CMP and CPI: subtracts `b` and the borrow in from
/// `a`, by adding the inverted `b` and the inverted borrow.
pub fn sbb(a: u8, b: u8, borrow_in: bool, f: PSW) -> (r: (u8, PSW))
    ensures
        r == spec_sbb(a, b, borrow_in, f),
{
    let inverted_borrow: u8 = if borrow_in {
        0
    } else {
        1
    };
    let inverted: u8 = complement(b);
    let total: u16 = a as u16 + inverted as u16 + inverted_borrow as u16;
    let value: u8 = low_byte(total);
    let half: bool = low_nibble(a) + low_nibble(inverted) + inverted_borrow > 0x0f;
    proof {
        lemma_complement(a, b, borrow_in);
    }
    let mut g = f;
    g.assign(value >= 0x80, value == 0, half, parity(value), total <= 0xff);
    (value, g)
}

/// ANA and ANI.
pub fn ana(a: u8, b: u8, f: PSW) -> (r: (u8, PSW))
    ensures
        r == spec_ana(a, b, f),
{
    let value: u8 = a & b;
    assert(((a | b) & 0x08 != 0) == ((a / 8) % 2 == 1 || (b / 8) % 2 == 1)) by (bit_vector);
    let mut g = f;
    g.assign(value >= 0x80, value == 0, (a | b) & 0x08 != 0, parity(value), false);
    (value, g)
}

/// XRA and XRI.
pub fn xra(a: u8, b: u8, f: PSW) -> (r: (u8, PSW))
    ensures
        r == spec_xra(a, b, f),
{
    let value: u8 = a ^ b;
    let mut g = f;
    g.assign(value >= 0x80, value == 0, false, parity(value), false);
    (value, g)
}

/// ORA and ORI.
pub fn ora(a: u8, b: u8, f: PSW) -> (r: (u8, PSW))
    ensures
        r == spec_ora(a, b, f),
{
    let value: u8 = a | b;
    let mut g = f;
    g.assign(value >= 0x80, value == 0, false, parity(value), false);
    (value, g)
}

/// INR.
pub fn inr(v: u8, f: PSW) -> (r: (u8, PSW))
    ensures
        r == spec_inr(v, f),
{
    let value: u8 = v.wrapping_add(1);
    let mut g = f;
    g.assign(
        value >= 0x80,
        value == 0,
        low_nibble(v) + 1 > 0x0f,
        parity(value),
        f.contains(PSW::C),
    );
    (value, g)
}

/// DCR.
pub fn dcr(v: u8, f: PSW) -> (r: (u8, PSW))
    ensures
        r == spec_dcr(v, f),
{
    let value: u8 = v.wrapping_sub(1);
    let mut g = f;
    g.assign(value >= 0x80, value == 0, low_nibble(v) != 0, parity(value), f.contains(PSW::C));
    (value, g)
}

/// DAA.
pub fn daa(a: u8, f: PSW) -> (r: (u8, PSW))
    ensures
        r == spec_daa(a, f),
{
    let mut total: u16 = a as u16;
    let mut half: bool = f.contains(PSW::A);
    let mut carry: bool = f.contains(PSW::C);
    if low_nibble(a) > 9 || half {
        half = low_nibble(a) + 6 > 0x0f;
        total = total + 6;
        if total > 0xff {
            carry = true;
        }
    }
    if (total / 16) % 16 > 9 || carry {
        total = total + 0x60;
        if total > 0xff {
            carry = true;
        }
    }
    let value: u8 = low_byte(total);
    let mut g = f;
    g.assign(value >= 0x80, value == 0, half, parity(value), carry);
    (value, g)
}

/// RLC.
pub fn rlc(a: u8, f: PSW) -> (r: (u8, PSW))
    ensures
        r == spec_rlc(a, f),
{
    assert((a << 1) | (a >> 7) == (a * 2) % 256 + a / 128) by (bit_vector);
    let mut g = f;
    g.set(PSW::C, a >= 0x80);
    ((a << 1) | (a >> 7), g)
}

/// RRC.
pub fn rrc(a: u8, f: PSW) -> (r: (u8, PSW))
    ensures
        r == spec_rrc(a, f),
{
    assert(((a & 1) << 7) | (a >> 1) == a / 2 + (a % 2) * 128) by (bit_vector);
    assert((a & 1 != 0) == (a % 2 == 1)) by (bit_vector);
    let mut g = f;
    g.set(PSW::C, a & 1 != 0);
    (((a & 1) << 7) | (a >> 1), g)
}

/// RAL.
pub fn ral(a: u8, f: PSW) -> (r: (u8, PSW))
    ensures
        r == spec_ral(a, f),
{
    let carry_in: u8 = if f.contains(PSW::C) {
        1
    } else {
        0
    };
    assert((a << 1) | carry_in == (a * 2) % 256 + carry_in) by (bit_vector)
        requires
            carry_in <= 1,
    ;
    let mut g = f;
    g.set(PSW::C, a >= 0x80);
    ((a << 1) | carry_in, g)
}

/// RAR.
pub fn rar(a: u8, f: PSW) -> (r: (u8, PSW))
    ensures
        r == spec_rar(a, f),
{
    let carry_in: u8 = if f.contains(PSW::C) {
        0x80
    } else {
        0
    };
    assert((a >> 1) | carry_in == a / 2 + carry_in) by (bit_vector)
        requires
            carry_in == 0x80 || carry_in == 0,
    ;
    assert((a & 1 != 0) == (a % 2 == 1)) by (bit_vector);
    let mut g = f;
    g.set(PSW::C, a & 1 != 0);
    ((a >> 1) | carry_in, g)
}

/// DAD.
pub fn dad(hl: u16, rp: u16, f: PSW) -> (r: (u16, PSW))
    ensures
        r == spec_dad(hl, rp, f),
{
    let total: u32 = hl as u32 + rp as u32;
    let mut g = f;
    g.set(PSW::C, total > 0xffff);
    ((total % 0x1_0000) as u16, g)
}

/// Whether both nibbles of `x` are decimal digits.
pub open spec fn is_bcd(x: u8) -> bool {
    x / 16 <= 9 && x % 16 <= 9
}

/// The number that the two decimal digits of `x` write.
pub open spec fn bcd(x: u8) -> int {
    10 * (x / 16) + x % 16
}

/// Every operation that takes its flags from its result leaves Parity set
/// exactly where that result has an even number of set bits.
pub proof fn lemma_parity_follows_result(a: u8, b: u8, carry: bool, f: PSW)
    ensures
        forall|x: u8| even_parity(x) <==> ones(x) % 2 == 0,
        spec_adc(a, b, carry, f).1.has(PSW::P) == even_parity(spec_adc(a, b, carry, f).0),
        spec_sbb(a, b, carry, f).1.has(PSW::P) == even_parity(spec_sbb(a, b, carry, f).0),
        spec_ana(a, b, f).1.has(PSW::P) == even_parity(spec_ana(a, b, f).0),
        spec_xra(a, b, f).1.has(PSW::P) == even_parity(spec_xra(a, b, f).0),
        spec_ora(a, b, f).1.has(PSW::P) == even_parity(spec_ora(a, b, f).0),
        spec_inr(a, f).1.has(PSW::P) == even_parity(spec_inr(a, f).0),
        spec_dcr(a, f).1.has(PSW::P) == even_parity(spec_dcr(a, f).0),
        spec_daa(a, f).1.has(PSW::P) == even_parity(spec_daa(a, f).0),
{
    assert forall|x: u8| even_parity(x) <==> ones(x) % 2 == 0 by {
        reveal(even_parity);
    }
    lemma_conditions_read_back(f);
}

/// ADD and then SUB of the same byte gives the accumulator back. After the
/// two, Carry is clear exactly where the addition did not pass 255, and
/// Auxiliary Carry is clear exactly where the low nibbles' sum passed 15.
pub proof fn lemma_add_then_sub(a: u8, b: u8, f: PSW)
    ensures
        ({
            let (sum, f1) = spec_adc(a, b, false, f);
            let (back, f2) = spec_sbb(sum, b, false, f1);
            &&& back == a
            &&& !f2.has(PSW::C) <==> a + b <= 255
            &&& !f2.has(PSW::A) <==> a % 16 + b % 16 > 15
        }),
{
    let (sum, f1) = spec_adc(a, b, false, f);
    let (back, f2) = spec_sbb(sum, b, false, f1);
    lemma_conditions_read_back(f1);
}

/// ADD and then SUB of the same byte give the accumulator back with Carry and
/// Auxiliary Carry clear, where the sum stays within a byte and the low
/// nibbles carry.
pub proof fn lemma_add_then_sub_clears_carries(a: u8, b: u8, f: PSW)
    requires
        a + b <= 255,
        a % 16 + b % 16 > 15,
    ensures
        ({
            let (sum, f1) = spec_adc(a, b, false, f);
            let (back, f2) = spec_sbb(sum, b, false, f1);
            &&& back == a
            &&& !f2.has(PSW::C)
            &&& !f2.has(PSW::A)
        }),
{
    lemma_add_then_sub(a, b, f);
}

/// Adding two bytes of two decimal digits each, with or without a carry in,
/// and adjusting the sum gives the two low digits of the decimal sum, and
/// Carry exactly where that sum is 100 or more.
pub proof fn lemma_decimal_sum(a: u8, b: u8, carry_in: bool, f: PSW)
    requires
        is_bcd(a),
        is_bcd(b),
    ensures
        ({
            let (sum, f1) = spec_adc(a, b, carry_in, f);
            let (adjusted, f2) = spec_daa(sum, f1);
            &&& is_bcd(adjusted)
            &&& bcd(adjusted) == (bcd(a) + bcd(b) + bit(carry_in)) % 100
            &&& f2.has(PSW::C) <==> bcd(a) + bcd(b) + bit(carry_in) >= 100
        }),
{
    let (sum, f1) = spec_adc(a, b, carry_in, f);
    lemma_conditions_read_back(f);
    lemma_conditions_read_back(f1);
    let half = a % 16 + b % 16 + bit(carry_in) > 15;
    let carry = a + b + bit(carry_in) > 255;
    assert(f1.has(PSW::A) == half);
    assert(f1.has(PSW::C) == carry);
    lemma_decimal_digits(a, b, carry_in);
}

/// `lemma_decimal_sum` on the byte and the two flags alone.
proof fn lemma_decimal_digits(a: u8, b: u8, carry_in: bool)
    by (bit_vector)
    requires
        is_bcd(a),
        is_bcd(b),
    ensures
        ({
            let total = a + b + bit(carry_in);
            let (adjusted, half, carry) = decimal_adjusted(
                (total % 256) as u8,
                a % 16 + b % 16 + bit(carry_in) > 15,
                total > 255,
            );
            &&& is_bcd(adjusted)
            &&& bcd(adjusted) == (bcd(a) + bcd(b) + bit(carry_in)) % 100
            &&& carry <==> bcd(a) + bcd(b) + bit(carry_in) >= 100
        }),
{
}

} // verus!
