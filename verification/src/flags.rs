//! The processor status word.

use vstd::prelude::*;

verus! {

/// The 8080 flag register: five condition bits and three bits that carry no
/// condition.
#[derive(Clone, Copy, Debug, PartialEq, Eq, Structural)]
pub struct PSW {
    pub bits: u8,
}

impl PSW {
    /// Sign: bit 7 of the last result.
    pub const S: u8 = 0b1000_0000;

    /// Zero: the last result was 0.
    pub const Z: u8 = 0b0100_0000;

    /// Unused, reads as 0 once the word has been through the stack.
    pub const F5: u8 = 0b0010_0000;

    /// Auxiliary carry: carry out of bit 3.
    pub const A: u8 = 0b0001_0000;

    /// Unused, reads as 0 once the word has been through the stack.
    pub const F3: u8 = 0b0000_1000;

    /// Parity: the last result had an even number of set bits.
    pub const P: u8 = 0b0000_0100;

    /// Unused, reads as 1 once the word has been through the stack.
    pub const F1: u8 = 0b0000_0010;

    /// Carry: carry out of bit 7, or borrow.
    pub const C: u8 = 0b0000_0001;

    /// The five bits that hold a condition.
    pub const CONDITIONS: u8 = 0b1101_0101;

    /// Whether every bit of `mask` is set.
    pub open spec fn has(self, mask: u8) -> bool {
        self.bits & mask == mask
    }

    /// The word with the bits of `mask` set (`value`) or cleared.
    pub open spec fn with(self, mask: u8, value: bool) -> PSW {
        PSW { bits: if value { self.bits | mask } else { self.bits & !mask } }
    }

    /// The word with the bits of `mask` inverted.
    pub open spec fn flipped(self, mask: u8) -> PSW {
        PSW { bits: self.bits ^ mask }
    }

    /// The word that keeps bits 1, 3 and 5 and holds the five conditions as
    /// given.
    pub open spec fn conditions(self, s: bool, z: bool, a: bool, p: bool, c: bool) -> PSW {
        PSW { bits: packed(self.bits, s, z, a, p, c) }
    }

    /// The word as the stack holds it: the condition bits as they are, bit 1
    /// set, bits 3 and 5 clear.
    pub open spec fn canonical(self) -> PSW {
        PSW { bits: (self.bits & PSW::CONDITIONS) | PSW::F1 }
    }

    /// A word from its byte. All eight bits name a flag, so every byte is a
    /// word.
    pub fn from_bits(bits: u8) -> (r: Option<PSW>)
        ensures
            r == Some(PSW { bits }),
    {
        Some(PSW { bits })
    }

    /// The word as a byte.
    pub fn bits(&self) -> (r: u8)
        ensures
            r == self.bits,
    {
        self.bits
    }

    /// The word as a byte.
    pub fn as_u8(&self) -> (r: u8)
        ensures
            r == self.bits,
    {
        self.bits()
    }

    /// Whether every bit of `mask` is set.
    pub fn contains(&self, mask: u8) -> (r: bool)
        ensures
            r == self.has(mask),
    {
        self.bits & mask == mask
    }

    /// Sets the bits of `mask`.
    pub fn insert(&mut self, mask: u8)
        ensures
            *final(self) == old(self).with(mask, true),
    {
        self.bits = self.bits | mask;
    }

    /// Clears the bits of `mask`.
    pub fn remove(&mut self, mask: u8)
        ensures
            *final(self) == old(self).with(mask, false),
    {
        self.bits = self.bits & !mask;
    }

    /// Inverts the bits of `mask`.
    pub fn toggle(&mut self, mask: u8)
        ensures
            *final(self) == old(self).flipped(mask),
    {
        self.bits = self.bits ^ mask;
    }

    /// Sets the bits of `mask` where `value` holds, and clears them where it
    /// does not.
    pub fn set(&mut self, mask: u8, value: bool)
        ensures
            *final(self) == old(self).with(mask, value),
    {
        if value {
            self.insert(mask);
        } else {
            self.remove(mask);
        }
    }

    /// Writes all five conditions at once.
    pub fn assign(&mut self, s: bool, z: bool, a: bool, p: bool, c: bool)
        ensures
            *final(self) == old(self).conditions(s, z, a, p, c),
    {
        proof {
            bits_assigned(self.bits, s, z, a, p, c);
        }
        self.set(PSW::S, s);
        self.set(PSW::Z, z);
        self.set(PSW::A, a);
        self.set(PSW::P, p);
        self.set(PSW::C, c);
    }

    /// The word as the stack holds it.
    pub fn normalized(&self) -> (r: PSW)
        ensures
            r == self.canonical(),
    {
        PSW { bits: (self.bits & PSW::CONDITIONS) | PSW::F1 }
    }
}

/// The byte that keeps bits 1, 3 and 5 of `rest` and holds the five
/// conditions as given.
pub open spec fn packed(rest: u8, s: bool, z: bool, a: bool, p: bool, c: bool) -> u8 {
    (rest & 0b0010_1010)
        | (if s { 0b1000_0000u8 } else { 0u8 })
        | (if z { 0b0100_0000u8 } else { 0u8 })
        | (if a { 0b0001_0000u8 } else { 0u8 })
        | (if p { 0b0000_0100u8 } else { 0u8 })
        | (if c { 0b0000_0001u8 } else { 0u8 })
}

/// The byte after five single writes, in the order in which `assign` makes
/// them.
spec fn written(b: u8, s: bool, z: bool, a: bool, p: bool, c: bool) -> u8 {
    let b1 = if s { b | 0b1000_0000u8 } else { b & !0b1000_0000u8 };
    let b2 = if z { b1 | 0b0100_0000u8 } else { b1 & !0b0100_0000u8 };
    let b3 = if a { b2 | 0b0001_0000u8 } else { b2 & !0b0001_0000u8 };
    let b4 = if p { b3 | 0b0000_0100u8 } else { b3 & !0b0000_0100u8 };
    if c { b4 | 0b0000_0001u8 } else { b4 & !0b0000_0001u8 }
}

/// Five single writes make the byte that `packed` describes.
proof fn bits_assigned(b: u8, s: bool, z: bool, a: bool, p: bool, c: bool)
    by (bit_vector)
    ensures
        written(b, s, z, a, p, c) == packed(b, s, z, a, p, c),
{
}

/// What `packed` holds, bit by bit, and what it is where only the carry is
/// new.
proof fn bits_packed(b: u8, s: bool, z: bool, a: bool, p: bool, c: bool)
    by (bit_vector)
    ensures
        (packed(b, s, z, a, p, c) & 0b1000_0000 == 0b1000_0000) == s,
        (packed(b, s, z, a, p, c) & 0b0100_0000 == 0b0100_0000) == z,
        (packed(b, s, z, a, p, c) & 0b0001_0000 == 0b0001_0000) == a,
        (packed(b, s, z, a, p, c) & 0b0000_0100 == 0b0000_0100) == p,
        (packed(b, s, z, a, p, c) & 0b0000_0001 == 0b0000_0001) == c,
        packed(b, s, z, a, p, c) & !0b1101_0101u8 == b & !0b1101_0101u8,
        packed(b, b & 0x80 == 0x80, b & 0x40 == 0x40, b & 0x10 == 0x10, b & 0x04 == 0x04, c)
            == (if c { b | 0b0000_0001u8 } else { b & !0b0000_0001u8 }),
        packed(
            b,
            b & 0x80 == 0x80,
            b & 0x40 == 0x40,
            b & 0x10 == 0x10,
            b & 0x04 == 0x04,
            !(b & 0x01 == 0x01),
        ) == b ^ 0b0000_0001u8,
{
}

/// A mask that is written reads back.
proof fn bits_written(b: u8, m: u8)
    by (bit_vector)
    ensures
        (b | m) & m == m,
        m != 0 ==> (b & !m) & m != m,
{
}

/// A write under one mask keeps the bits under a disjoint one.
proof fn bits_kept(b: u8, m: u8, n: u8)
    by (bit_vector)
    requires
        m & n == 0,
    ensures
        (b | m) & n == b & n,
        (b & !m) & n == b & n,
        (b ^ m) & n == b & n,
{
}

/// What fixing bits 1, 3 and 5 keeps and what it makes.
proof fn bits_canonical(b: u8)
    by (bit_vector)
    ensures
        ((b & 0b1101_0101) | 0b0000_0010) & !0b1101_0101u8 == 0b0000_0010,
        ((b & 0b1101_0101) | 0b0000_0010) & 0b1000_0000 == b & 0b1000_0000,
        ((b & 0b1101_0101) | 0b0000_0010) & 0b0100_0000 == b & 0b0100_0000,
        ((b & 0b1101_0101) | 0b0000_0010) & 0b0001_0000 == b & 0b0001_0000,
        ((b & 0b1101_0101) | 0b0000_0010) & 0b0000_0100 == b & 0b0000_0100,
        ((b & 0b1101_0101) | 0b0000_0010) & 0b0000_0001 == b & 0b0000_0001,
        b & !0b1101_0101u8 == 0b0000_0010 ==> (b & 0b1101_0101) | 0b0000_0010 == b,
{
}

/// Writing a flag makes it read as written.
pub proof fn lemma_with_reads_back(f: PSW, mask: u8, value: bool)
    requires
        mask != 0,
    ensures
        f.with(mask, value).has(mask) == value,
{
    bits_written(f.bits, mask);
}

/// Writing or inverting a flag changes no bit outside its mask.
pub proof fn lemma_other_bits_kept(f: PSW, mask: u8, other: u8, value: bool)
    requires
        mask & other == 0,
    ensures
        f.with(mask, value).bits & other == f.bits & other,
        f.flipped(mask).bits & other == f.bits & other,
        f.with(mask, value).has(other) == f.has(other),
        f.flipped(mask).has(other) == f.has(other),
{
    bits_kept(f.bits, mask, other);
}

/// A word written with `conditions` reads back each condition as given, and
/// keeps the three bits that hold none.
pub proof fn lemma_conditions_read_back(f: PSW)
    ensures
        forall|s: bool, z: bool, a: bool, p: bool, c: bool|
            {
                let g = #[trigger] f.conditions(s, z, a, p, c);
                &&& g.has(PSW::S) == s
                &&& g.has(PSW::Z) == z
                &&& g.has(PSW::A) == a
                &&& g.has(PSW::P) == p
                &&& g.has(PSW::C) == c
                &&& g.bits & !PSW::CONDITIONS == f.bits & !PSW::CONDITIONS
            },
{
    assert forall|s: bool, z: bool, a: bool, p: bool, c: bool|
        {
            let g = #[trigger] f.conditions(s, z, a, p, c);
            &&& g.has(PSW::S) == s
            &&& g.has(PSW::Z) == z
            &&& g.has(PSW::A) == a
            &&& g.has(PSW::P) == p
            &&& g.has(PSW::C) == c
            &&& g.bits & !PSW::CONDITIONS == f.bits & !PSW::CONDITIONS
        } by {
        bits_packed(f.bits, s, z, a, p, c);
    }
}

/// Writing the carry alone, or inverting it, is writing all five conditions
/// with the other four as they were.
pub proof fn lemma_carry_alone(f: PSW, c: bool)
    ensures
        f.with(PSW::C, c) == f.conditions(
            f.has(PSW::S),
            f.has(PSW::Z),
            f.has(PSW::A),
            f.has(PSW::P),
            c,
        ),
        f.flipped(PSW::C) == f.conditions(
            f.has(PSW::S),
            f.has(PSW::Z),
            f.has(PSW::A),
            f.has(PSW::P),
            !f.has(PSW::C),
        ),
{
    bits_packed(f.bits, f.has(PSW::S), f.has(PSW::Z), f.has(PSW::A), f.has(PSW::P), c);
    bits_packed(
        f.bits,
        f.has(PSW::S),
        f.has(PSW::Z),
        f.has(PSW::A),
        f.has(PSW::P),
        !f.has(PSW::C),
    );
}

/// The word as the stack holds it has the conditions of the word it came
/// from, bit 1 set and bits 3 and 5 clear; a word of that shape is its own
/// canonical form.
pub proof fn lemma_canonical(f: PSW)
    ensures
        f.canonical().has(PSW::S) == f.has(PSW::S),
        f.canonical().has(PSW::Z) == f.has(PSW::Z),
        f.canonical().has(PSW::A) == f.has(PSW::A),
        f.canonical().has(PSW::P) == f.has(PSW::P),
        f.canonical().has(PSW::C) == f.has(PSW::C),
        f.canonical().bits & !PSW::CONDITIONS == PSW::F1,
        f.bits & !PSW::CONDITIONS == PSW::F1 ==> f.canonical() == f,
        f.canonical().canonical() == f.canonical(),
{
    bits_canonical(f.bits);
    bits_canonical(f.canonical().bits);
}

} // verus!
