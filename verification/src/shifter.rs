//! The shift hardware of the arcade board: a 16-bit latch that is read
//! through an 8-bit window at a chosen bit offset.

use vstd::prelude::*;
use crate::alu::{high_byte, word};

verus! {

/// What the shift hardware shows: bits 8 to 15 of the latch shifted left by
/// `amount` within its 16 bits.
pub open spec fn window(latch: u16, amount: u8) -> u8 {
    ((latch << amount) >> 8) as u8
}

/// The shift hardware: a 16-bit latch that takes bytes at its high end, and
/// a shift amount of three bits.
pub struct ShiftUnit {
    reg: u16,
    amt: u8,
}

impl ShiftUnit {
    #[verifier::type_invariant]
    spec fn small_amount(self) -> bool {
        self.amt < 8
    }

    /// The 16 bits held.
    pub closed spec fn latch(self) -> u16 {
        self.reg
    }

    /// The shift amount.
    pub closed spec fn amount(self) -> u8 {
        self.amt
    }

    /// A unit with nothing latched and no shift.
    pub fn new() -> (unit: Self)
        ensures
            unit.latch() == 0,
            unit.amount() == 0,
    {
        ShiftUnit { reg: 0, amt: 0 }
    }

    /// Takes the low three bits of `data` as the shift amount.
    pub fn set_amount(&mut self, data: u8)
        ensures
            final(self).amount() == data % 8,
            final(self).latch() == old(self).latch(),
    {
        self.amt = data % 8;
    }

    /// Moves the high byte of the latch to its low byte and puts `data` in
    /// the high byte.
    pub fn shift_in(&mut self, data: u8)
        ensures
            final(self).latch() == data * 256 + old(self).latch() / 256,
            final(self).amount() == old(self).amount(),
    {
        proof {
            use_type_invariant(&*self);
        }
        self.reg = word(data, high_byte(self.reg));
    }

    /// What the unit shows.
    pub fn result(&self) -> (r: u8)
        ensures
            r == window(self.latch(), self.amount()),
            self.amount() < 8,
    {
        proof {
            use_type_invariant(self);
        }
        let reg: u16 = self.reg;
        let amt: u8 = self.amt;
        assert((reg << amt) >> 8 <= 0xff) by (bit_vector);
        ((reg << amt) >> 8) as u8
    }
}

/// What the shift hardware shows is a barrel shift: the high byte of the
/// latch moved left by the shift amount, filled from the top of the low
/// byte.
pub proof fn lemma_window_is_barrel_shift(hi: u8, lo: u8, amount: u8)
    by (bit_vector)
    requires
        amount < 8,
    ensures
        window((hi * 256 + lo) as u16, amount) == (hi << amount) | ((lo >> 1) >> ((7
            - amount) as u8)),
        window((hi * 256 + lo) as u16, 0) == hi,
{
}

} // verus!
