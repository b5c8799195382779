//! What the processor asks of the hardware around it: memory by address and
//! devices by port.

use vstd::prelude::*;

pub use crate::arcade::InvBus;
pub use crate::diag::CpmBus;

verus! {

/// The memory and the devices that a processor is wired to.
///
/// The view of a bus is its whole state. Functions on that state say what
/// the bus is: what a read of an address returns, what a write to an address
/// changes, which ports it has, what a port returns, and what a write to a
/// port changes. Every method is held to them.
pub trait Bus: View + Sized {
    /// The byte at `addr`.
    spec fn peek(v: Self::V, addr: u16) -> u8;

    /// The bus after `data` was written to `addr`.
    spec fn poke(v: Self::V, addr: u16, data: u8) -> Self::V;

    /// Whether a device answers reads of `port`.
    spec fn input_port(port: u8) -> bool;

    /// Whether a device takes writes to `port`.
    spec fn output_port(port: u8) -> bool;

    /// The byte that `port` returns.
    spec fn port_in(v: Self::V, port: u8) -> u8;

    /// The bus after `data` was written to `port`.
    spec fn port_out(v: Self::V, port: u8, data: u8) -> Self::V;

    /// The size of the region that takes a program image.
    spec fn image_capacity() -> nat;

    /// The bus after `image` was installed at offset `offs` of that region.
    spec fn install(v: Self::V, offs: nat, image: Seq<u8>) -> Self::V;

    /// Reads the byte at `addr`. No address fails.
    fn read_byte(&mut self, addr: u16) -> (data: u8)
        ensures
            final(self)@ == old(self)@,
            data == Self::peek(old(self)@, addr),
    ;

    /// Reads the byte at `addr` as the low half and the byte after it as the
    /// high half.
    fn read_word(&mut self, addr: u16) -> (data: u16)
        ensures
            final(self)@ == old(self)@,
            data == Self::peek(old(self)@, addr) + 256 * Self::peek(
                old(self)@,
                addr.wrapping_add(1),
            ),
    ;

    /// Writes `data` to `addr`. No address fails; what a write to it changes
    /// is for the bus to say.
    fn write_byte(&mut self, addr: u16, data: u8)
        ensures
            final(self)@ == Self::poke(old(self)@, addr, data),
    ;

    /// Writes the low half of `data` to `addr`, then the high half to the
    /// address after it.
    fn write_word(&mut self, addr: u16, data: u16)
        ensures
            final(self)@ == Self::poke(
                Self::poke(old(self)@, addr, (data % 256) as u8),
                addr.wrapping_add(1),
                (data / 256) as u8,
            ),
    ;

    /// Whether a device answers reads of `port`.
    fn has_input_port(&self, port: u8) -> (answer: bool)
        ensures
            answer == Self::input_port(port),
    ;

    /// Whether a device takes writes to `port`.
    fn has_output_port(&self, port: u8) -> (answer: bool)
        ensures
            answer == Self::output_port(port),
    ;

    /// Reads a port that a device answers.
    fn read_io_byte(&mut self, port: u8) -> (data: u8)
        requires
            Self::input_port(port),
        ensures
            final(self)@ == old(self)@,
            data == Self::port_in(old(self)@, port),
    ;

    /// Writes to a port that a device takes.
    fn write_io_byte(&mut self, port: u8, data: u8)
        requires
            Self::output_port(port),
        ensures
            final(self)@ == Self::port_out(old(self)@, port, data),
    ;

    /// Installs a program image at offset `offs` of the region that holds
    /// programs.
    fn load_bin(&mut self, offs: usize, buf: &[u8])
        requires
            offs + buf@.len() <= Self::image_capacity(),
        ensures
            final(self)@ == Self::install(old(self)@, offs as nat, buf@),
    ;
}

/// The little-endian word at `addr` and the address after it; the last
/// address is followed by the first.
pub open spec fn peek_word<B: Bus>(v: B::V, addr: u16) -> u16 {
    (B::peek(v, addr) + 256 * B::peek(v, addr.wrapping_add(1))) as u16
}

/// The bus after the low half of `data` was written to `addr` and then the
/// high half to the address after it.
pub open spec fn poke_word<B: Bus>(v: B::V, addr: u16, data: u16) -> B::V {
    B::poke(B::poke(v, addr, (data % 256) as u8), addr.wrapping_add(1), (data / 256) as u8)
}

} // verus!
