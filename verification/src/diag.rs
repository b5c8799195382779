//! A flat 64 KiB machine for running diagnostic programs.

use vstd::prelude::*;
use crate::alu::{high_byte, low_byte, word};
use crate::bus::Bus;

verus! {

/// The port that prints the byte written to it.
pub const CONSOLE_PORT: u8 = 0xaa;

/// The port whose write ends the program.
pub const WARM_BOOT_PORT: u8 = 0xff;

/// 64 KiB of read-write memory, a console and a way out.
pub struct CpmBus {
    pub ram: [u8; 0x10000],
    /// The bytes written to the console port and not yet taken by the host,
    /// oldest first.
    pub console: Vec<u8>,
    /// Set by a write to the warm boot port: the program is over.
    pub warm_boot: bool,
}

/// The state of a `CpmBus`.
pub struct CpmState {
    pub ram: Seq<u8>,
    pub console: Seq<u8>,
    pub warm_boot: bool,
}

impl CpmState {
    /// All memory is there.
    pub open spec fn wf(self) -> bool {
        self.ram.len() == 0x10000
    }
}

impl View for CpmBus {
    type V = CpmState;

    open spec fn view(&self) -> CpmState {
        CpmState { ram: self.ram@, console: self.console@, warm_boot: self.warm_boot }
    }
}

impl CpmBus {
    pub fn new() -> (bus: Self)
        ensures
            bus@.ram == Seq::new(0x10000, |i: int| 0u8),
            bus@.console == Seq::<u8>::empty(),
            !bus@.warm_boot,
    {
        CpmBus { ram: [0; 0x10000], console: Vec::new(), warm_boot: false }
    }
}

impl Bus for CpmBus {
    open spec fn peek(v: CpmState, addr: u16) -> u8 {
        v.ram[addr as int]
    }

    open spec fn poke(v: CpmState, addr: u16, data: u8) -> CpmState {
        CpmState { ram: v.ram.update(addr as int, data), ..v }
    }

    /// The flat machine has no input port: no read of a port is served.
    open spec fn input_port(port: u8) -> bool {
        false
    }

    /// The console and the warm boot.
    open spec fn output_port(port: u8) -> bool {
        port == CONSOLE_PORT || port == WARM_BOOT_PORT
    }

    open spec fn port_in(v: CpmState, port: u8) -> u8 {
        0
    }

    open spec fn port_out(v: CpmState, port: u8, data: u8) -> CpmState {
        if port == CONSOLE_PORT {
            CpmState { console: v.console.push(data), ..v }
        } else if port == WARM_BOOT_PORT {
            CpmState { warm_boot: true, ..v }
        } else {
            v
        }
    }

    open spec fn image_capacity() -> nat {
        0x10000
    }

    open spec fn install(v: CpmState, offs: nat, image: Seq<u8>) -> CpmState {
        CpmState {
            ram: Seq::new(
                v.ram.len(),
                |a: int|
                    if offs <= a < offs + image.len() {
                        image[a - offs]
                    } else {
                        v.ram[a]
                    },
            ),
            ..v
        }
    }

    fn read_byte(&mut self, addr: u16) -> (data: u8) {
        self.ram[addr as usize]
    }

    fn read_word(&mut self, addr: u16) -> (data: u16) {
        let lo: u8 = self.read_byte(addr);
        let hi: u8 = self.read_byte(addr.wrapping_add(1));
        word(hi, lo)
    }

    fn write_byte(&mut self, addr: u16, data: u8) {
        self.ram[addr as usize] = data;
    }

    fn write_word(&mut self, addr: u16, data: u16) {
        self.write_byte(addr, low_byte(data));
        self.write_byte(addr.wrapping_add(1), high_byte(data));
    }

    fn has_input_port(&self, port: u8) -> (answer: bool) {
        false
    }

    fn has_output_port(&self, port: u8) -> (answer: bool) {
        port == CONSOLE_PORT || port == WARM_BOOT_PORT
    }

    /// Never called: there is no port to read.
    fn read_io_byte(&mut self, port: u8) -> (data: u8) {
        0
    }

    fn write_io_byte(&mut self, port: u8, data: u8) {
        if port == CONSOLE_PORT {
            self.console.push(data);
        } else if port == WARM_BOOT_PORT {
            self.warm_boot = true;
        }
    }

    fn load_bin(&mut self, offs: usize, buf: &[u8]) {
        let mut i: usize = 0;
        while i < buf.len()
            invariant
                i <= buf@.len(),
                offs + buf@.len() <= 0x10000,
                self.console@ == old(self).console@,
                self.warm_boot == old(self).warm_boot,
                forall|a: int|
                    0 <= a < 0x10000 ==> self.ram@[a] == if offs <= a < offs + i {
                        buf@[a - offs]
                    } else {
                        old(self).ram@[a]
                    },
            decreases buf@.len() - i,
        {
            self.ram[offs + i] = buf[i];
            i = i + 1;
        }
        assert(self@.ram =~= Self::install(old(self)@, offs as nat, buf@).ram);
    }
}

/// The state of every flat machine is well formed.
pub proof fn lemma_flat_wf(bus: CpmBus)
    ensures
        bus@.wf(),
{
}

/// A byte written reads back, and every other address reads as before.
pub proof fn lemma_write_then_read(v: CpmState, addr: u16, data: u8, other: u16)
    requires
        v.wf(),
    ensures
        CpmBus::poke(v, addr, data).wf(),
        CpmBus::peek(CpmBus::poke(v, addr, data), addr) == data,
        other != addr ==> CpmBus::peek(CpmBus::poke(v, addr, data), other) == CpmBus::peek(
            v,
            other,
        ),
{
}

/// An installed image is what the processor reads, and the rest of memory
/// reads as before.
pub proof fn lemma_installed_image_reads(v: CpmState, offs: nat, image: Seq<u8>, addr: u16)
    requires
        v.wf(),
        offs + image.len() <= CpmBus::image_capacity(),
    ensures
        CpmBus::install(v, offs, image).wf(),
        CpmBus::peek(CpmBus::install(v, offs, image), addr) == if offs <= addr < offs
            + image.len() {
            image[addr - offs]
        } else {
            CpmBus::peek(v, addr)
        },
{
}

} // verus!
