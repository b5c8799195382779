//! The frame timer of the arcade board.
//!
//! The video hardware interrupts the processor twice in every frame: in the
//! middle of the frame and at its end. The timer stands for it: it is fed
//! the clock cycles that the processor spends and raises the two interrupts
//! in turn.

use vstd::prelude::*;

verus! {

/// Clock cycles in one video frame.
pub const FRAME_CYCLES: usize = 16667;

/// Clock cycles from the start of a frame to the interrupt in its middle.
pub const HALF_FRAME_CYCLES: usize = 8333;

/// The instruction that the timer puts on the bus in the middle of a frame:
/// RST 1, which calls address 0x08.
pub const MID_FRAME_VECTOR: u8 = 0xcf;

/// The instruction that the timer puts on the bus at the end of a frame:
/// RST 2, which calls address 0x10.
pub const END_FRAME_VECTOR: u8 = 0xd7;

/// The frame timer: it counts the processor's clock cycles and raises an
/// interrupt in the middle and at the end of every video frame.
#[derive(Clone, Copy, Debug, PartialEq, Eq, Structural)]
pub struct Timer {
    /// Clock cycles counted and not yet spent on an interrupt.
    pub cycles: usize,
    /// The next interrupt is the one in the middle of the frame.
    pub half: bool,
    /// An interrupt is pending; the host clears it when it delivers it.
    pub irq: bool,
    /// The instruction of the pending interrupt.
    pub irq_vec: u8,
    /// A frame has ended; the host clears it when it has drawn the frame.
    pub vblank: bool,
}

impl Timer {
    /// The timer at power-on: nothing counted, nothing pending, the middle
    /// of the frame due.
    pub open spec fn fresh() -> Timer {
        Timer { cycles: 0, half: true, irq: false, irq_vec: 0, vblank: false }
    }

    /// Whether `cyc` more clock cycles bring the mid-frame interrupt: the
    /// middle of the frame is due and the count reaches it.
    pub open spec fn reaches_middle(self, cyc: usize) -> bool {
        self.half && self.cycles + cyc >= HALF_FRAME_CYCLES
    }

    /// What is counted after `cyc` more clock cycles and, where it is
    /// raised, the mid-frame interrupt.
    pub open spec fn past_middle(self, cyc: usize) -> int {
        if self.reaches_middle(cyc) {
            self.cycles + cyc - HALF_FRAME_CYCLES
        } else {
            self.cycles + cyc
        }
    }

    /// Whether `cyc` more clock cycles bring the end-of-frame interrupt:
    /// what is counted past the middle reaches a whole frame.
    pub open spec fn reaches_end(self, cyc: usize) -> bool {
        self.past_middle(cyc) >= FRAME_CYCLES
    }

    /// The timer after `cyc` more clock cycles.
    ///
    /// The cycles are added to those counted. If the middle of the frame is
    /// due and the count has reached it, the mid-frame interrupt is raised
    /// and its cycles are taken off the count. If the count then reaches a
    /// whole frame, the end-of-frame interrupt is raised, the frame's cycles
    /// are taken off, the vertical blank is flagged and the middle of the
    /// next frame is due. What is left of the count is kept.
    pub open spec fn advanced(self, cyc: usize) -> Timer {
        let mid = self.reaches_middle(cyc);
        let end = self.reaches_end(cyc);
        Timer {
            cycles: if end {
                (self.past_middle(cyc) - FRAME_CYCLES) as usize
            } else {
                self.past_middle(cyc) as usize
            },
            half: if end {
                true
            } else if mid {
                false
            } else {
                self.half
            },
            irq: self.irq || mid || end,
            irq_vec: if end {
                END_FRAME_VECTOR
            } else if mid {
                MID_FRAME_VECTOR
            } else {
                self.irq_vec
            },
            vblank: self.vblank || end,
        }
    }

    /// A timer at power-on.
    pub fn new() -> (timer: Self)
        ensures
            timer == Timer::fresh(),
    {
        Timer { cycles: 0, half: true, irq: false, irq_vec: 0, vblank: false }
    }

    /// Counts `cyc` more clock cycles.
    pub fn step(&mut self, cyc: usize)
        requires
            old(self).cycles + cyc <= usize::MAX,
        ensures
            *final(self) == old(self).advanced(cyc),
    {
        self.cycles += cyc;
        if self.cycles >= HALF_FRAME_CYCLES && self.half {
            self.irq = true;
            self.irq_vec = MID_FRAME_VECTOR;
            self.cycles -= HALF_FRAME_CYCLES;
            self.half = false;
        }
        if self.cycles >= FRAME_CYCLES {
            self.irq = true;
            self.irq_vec = END_FRAME_VECTOR;
            self.cycles -= FRAME_CYCLES;
            self.half = true;
            self.vblank = true;
        }
    }
}

/// A count that comes to exactly one frame while the end of the frame is due
/// raises the end-of-frame interrupt, flags the vertical blank and leaves
/// nothing counted.
pub proof fn lemma_end_of_frame(t: Timer, cyc: usize)
    requires
        !t.half,
        t.cycles + cyc == FRAME_CYCLES,
    ensures
        t.advanced(cyc) == (Timer {
            cycles: 0,
            half: true,
            irq: true,
            irq_vec: END_FRAME_VECTOR,
            vblank: true,
        }),
{
}

/// A count that comes to exactly half a frame while the middle of the frame
/// is due raises the mid-frame interrupt, leaves the vertical blank as it was
/// and leaves nothing counted.
pub proof fn lemma_middle_of_frame(t: Timer, cyc: usize)
    requires
        t.half,
        t.cycles + cyc == HALF_FRAME_CYCLES,
    ensures
        t.advanced(cyc) == (Timer {
            cycles: 0,
            half: false,
            irq: true,
            irq_vec: MID_FRAME_VECTOR,
            vblank: t.vblank,
        }),
{
}

/// The vertical blank is flagged by the end of a frame and by nothing else,
/// and the end of a frame leaves less than it found: once the host has
/// cleared the flag, it stays clear until a whole frame has been counted
/// again.
pub proof fn lemma_one_blank_per_frame(t: Timer, cyc: usize)
    requires
        t.cycles + cyc <= usize::MAX,
    ensures
        t.advanced(cyc).vblank == (t.vblank || t.reaches_end(cyc)),
        t.reaches_end(cyc) ==> t.advanced(cyc).half && t.advanced(cyc).cycles + FRAME_CYCLES
            <= t.cycles + cyc,
        !t.reaches_middle(cyc) && !t.reaches_end(cyc) ==> t.advanced(cyc) == (Timer {
            cycles: (t.cycles + cyc) as usize,
            ..t
        }),
{
}

/// A count below a whole frame stays below a whole frame when it is fed no
/// more than a frame at a time: the count of a timer that is fed the cost of
/// one instruction at a time never grows.
pub proof fn lemma_count_stays_below_a_frame(t: Timer, cyc: usize)
    requires
        t.cycles < FRAME_CYCLES,
        cyc <= FRAME_CYCLES,
    ensures
        t.advanced(cyc).cycles < FRAME_CYCLES,
{
}

} // verus!
