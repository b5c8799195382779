//! The arcade board: its memory map, its ports, and the timer that raises
//! the two interrupts of every video frame.

use vstd::prelude::*;
use crate::alu::{bit, high_byte, low_byte, word};
use crate::bus::Bus;

pub use crate::shifter::{ShiftUnit, window};
pub use crate::timer::{
    END_FRAME_VECTOR, FRAME_CYCLES, HALF_FRAME_CYCLES, MID_FRAME_VECTOR, Timer,
};

verus! {

/// The first address of the program memory.
pub const ROM_START: u16 = 0x0000;

/// The last address of the program memory.
pub const ROM_END: u16 = 0x1fff;

/// The first address of the working memory.
pub const RAM_START: u16 = 0x2000;

/// The last address of the working memory.
pub const RAM_END: u16 = 0x23ff;

/// The first address of the video memory.
pub const VRAM_START: u16 = 0x2400;

/// The last address of the video memory.
pub const VRAM_END: u16 = 0x3fff;

/// Pixels in one row of the screen.
pub const SCREEN_WIDTH: usize = 224;

/// Rows of the screen.
pub const SCREEN_HEIGHT: usize = 256;

/// The byte of a lit pixel in a rendered frame.
pub const LIT: u8 = 0xff;

/// The byte of a dark pixel in a rendered frame.
pub const DARK: u8 = 0x00;

/// The index, in `sfx` and `sfx_data`, of the sound port 3.
pub const SOUND_A: usize = 0;

/// The index, in `sfx` and `sfx_data`, of the sound port 5.
pub const SOUND_B: usize = 1;

/// The three memories of the board.
#[derive(Clone, Copy, Debug, PartialEq, Eq, Structural)]
pub enum Region {
    Rom,
    Ram,
    Vram,
}

/// Where an address leads: the memory and the index into it. An address
/// above the video memory leads into the working memory, at the remainder of
/// the address by the last index of that memory.
pub open spec fn decode(addr: u16) -> (Region, int) {
    if addr <= ROM_END {
        (Region::Rom, addr as int)
    } else if addr <= RAM_END {
        (Region::Ram, addr - RAM_START)
    } else if addr <= VRAM_END {
        (Region::Vram, addr - VRAM_START)
    } else {
        (Region::Ram, addr as int % (RAM_END - RAM_START))
    }
}

/// Where an address leads.
pub fn locate(addr: u16) -> (cell: (Region, usize))
    ensures
        cell.0 == decode(addr).0,
        cell.1 == decode(addr).1,
        cell.0 == Region::Rom ==> cell.1 < 0x2000,
        cell.0 == Region::Ram ==> cell.1 < 0x400,
        cell.0 == Region::Vram ==> cell.1 < 0x1c00,
{
    if addr <= ROM_END {
        (Region::Rom, addr as usize)
    } else if addr <= RAM_END {
        (Region::Ram, (addr - RAM_START) as usize)
    } else if addr <= VRAM_END {
        (Region::Vram, (addr - VRAM_START) as usize)
    } else {
        (Region::Ram, (addr % (RAM_END - RAM_START)) as usize)
    }
}

/// Whether the bit of weight `weight` (1, 2, 4, ... 128) is set in `x`.
pub open spec fn bit_set(x: u8, weight: u8) -> bool {
    (x / weight) % 2 == 1
}

/// The byte with the given bits, highest first.
pub open spec fn byte_of(
    b7: bool,
    b6: bool,
    b5: bool,
    b4: bool,
    b3: bool,
    b2: bool,
    b1: bool,
    b0: bool,
) -> u8 {
    (128 * bit(b7) + 64 * bit(b6) + 32 * bit(b5) + 16 * bit(b4) + 8 * bit(b3) + 4 * bit(b2) + 2
        * bit(b1) + bit(b0)) as u8
}

/// Whether bit `i` of `x` is set.
pub open spec fn bit_at(x: u8, i: u8) -> bool {
    (x >> i) & 1 == 1
}

/// The byte of a pixel in a rendered frame.
pub open spec fn shade(lit: bool) -> u8 {
    if lit {
        LIT
    } else {
        DARK
    }
}

/// Whether the pixel in column `col` of row `row` is lit, rows counted from
/// the top of the screen.
///
/// The video memory holds the picture a quarter turn over: every 32 bytes are
/// one column of the screen from the bottom up, eight pixels to the byte, the
/// lowest bit lowest.
pub open spec fn lit(vram: Seq<u8>, col: int, row: int) -> bool {
    let up = SCREEN_HEIGHT - 1 - row;
    bit_at(vram[col * 32 + up / 8], (up % 8) as u8)
}

/// What the player and the operator have set: the coin slot, the buttons and
/// sticks of both players, and the eight configuration switches.
#[derive(Clone, Copy, Debug, PartialEq, Eq, Structural)]
pub struct Inputs {
    pub credit: bool,
    pub p1_start: bool,
    pub p2_start: bool,
    pub p1_fire: bool,
    pub p2_fire: bool,
    pub p1_left: bool,
    pub p2_left: bool,
    pub p1_right: bool,
    pub p2_right: bool,
    pub dip: u8,
}

impl Inputs {
    /// Nothing pressed, every switch off.
    pub open spec fn idle() -> Inputs {
        Inputs {
            credit: false,
            p1_start: false,
            p2_start: false,
            p1_fire: false,
            p2_fire: false,
            p1_left: false,
            p2_left: false,
            p1_right: false,
            p2_right: false,
            dip: 0,
        }
    }

    /// Nothing pressed, every switch off.
    pub fn new() -> (inputs: Self)
        ensures
            inputs == Inputs::idle(),
    {
        Inputs {
            credit: false,
            p1_start: false,
            p2_start: false,
            p1_fire: false,
            p2_fire: false,
            p1_left: false,
            p2_left: false,
            p1_right: false,
            p2_right: false,
            dip: 0,
        }
    }
}

/// The arcade board.
pub struct InvBus {
    pub rom: [u8; 0x2000],
    pub ram: [u8; 0x400],
    pub vram: [u8; 0x1c00],
    pub shifter: ShiftUnit,
    pub inputs: Inputs,
    pub timer: Timer,
    /// For each sound port, whether it was written since the host last
    /// cleared the flag.
    pub sfx: [bool; 2],
    /// For each sound port, the last byte written to it.
    pub sfx_data: [u8; 2],
}

/// The state of an `InvBus`.
pub struct InvState {
    pub rom: Seq<u8>,
    pub ram: Seq<u8>,
    pub vram: Seq<u8>,
    pub shift_reg: u16,
    pub shift_amt: u8,
    pub inputs: Inputs,
    pub timer: Timer,
    pub sfx: Seq<bool>,
    pub sfx_data: Seq<u8>,
}

impl InvState {
    /// Every memory has its size.
    pub open spec fn wf(self) -> bool {
        &&& self.rom.len() == 0x2000
        &&& self.ram.len() == 0x400
        &&& self.vram.len() == 0x1c00
        &&& self.sfx.len() == 2
        &&& self.sfx_data.len() == 2
    }

    /// The board at power-on: memories zeroed, nothing pressed, nothing
    /// pending.
    pub open spec fn fresh() -> InvState {
        InvState {
            rom: Seq::new(0x2000, |i: int| 0u8),
            ram: Seq::new(0x400, |i: int| 0u8),
            vram: Seq::new(0x1c00, |i: int| 0u8),
            shift_reg: 0,
            shift_amt: 0,
            inputs: Inputs::idle(),
            timer: Timer::fresh(),
            sfx: Seq::new(2, |i: int| false),
            sfx_data: Seq::new(2, |i: int| 0u8),
        }
    }
}

impl View for InvBus {
    type V = InvState;

    open spec fn view(&self) -> InvState {
        InvState {
            rom: self.rom@,
            ram: self.ram@,
            vram: self.vram@,
            shift_reg: self.shifter.latch(),
            shift_amt: self.shifter.amount(),
            inputs: self.inputs,
            timer: self.timer,
            sfx: self.sfx@,
            sfx_data: self.sfx_data@,
        }
    }
}

impl InvBus {
    /// A board at power-on.
    pub fn new() -> (bus: Self)
        ensures
            bus@ == InvState::fresh(),
    {
        let bus = InvBus {
            rom: [0; 0x2000],
            ram: [0; 0x400],
            vram: [0; 0x1c00],
            shifter: ShiftUnit::new(),
            inputs: Inputs::new(),
            timer: Timer::new(),
            sfx: [false; 2],
            sfx_data: [0; 2],
        };
        proof {
            assert(bus@.rom =~= InvState::fresh().rom);
            assert(bus@.ram =~= InvState::fresh().ram);
            assert(bus@.vram =~= InvState::fresh().vram);
            assert(bus@.sfx =~= InvState::fresh().sfx);
            assert(bus@.sfx_data =~= InvState::fresh().sfx_data);
        }
        bus
    }

    /// The picture in the video memory as the screen shows it: one byte for
    /// every pixel, row after row from the top, `LIT` or `DARK`.
    pub fn render(&self) -> (frame: Vec<u8>)
        ensures
            frame@.len() == SCREEN_WIDTH * SCREEN_HEIGHT,
            forall|col: int, row: int|
                0 <= col < SCREEN_WIDTH && 0 <= row < SCREEN_HEIGHT ==> frame@[row * SCREEN_WIDTH
                    + col] == shade(#[trigger] lit(self@.vram, col, row)),
    {
        let mut frame: Vec<u8> = Vec::new();
        let mut row: usize = 0;
        while row < SCREEN_HEIGHT
            invariant
                row <= SCREEN_HEIGHT,
                frame@.len() == row * SCREEN_WIDTH,
                forall|c: int, r: int|
                    0 <= c < SCREEN_WIDTH && 0 <= r < row ==> frame@[r * SCREEN_WIDTH + c]
                        == shade(#[trigger] lit(self@.vram, c, r)),
            decreases SCREEN_HEIGHT - row,
        {
            let up: usize = SCREEN_HEIGHT - 1 - row;
            let mut col: usize = 0;
            while col < SCREEN_WIDTH
                invariant
                    row < SCREEN_HEIGHT,
                    up == SCREEN_HEIGHT - 1 - row,
                    col <= SCREEN_WIDTH,
                    frame@.len() == row * SCREEN_WIDTH + col,
                    forall|c: int, r: int|
                        0 <= c < SCREEN_WIDTH && 0 <= r < row ==> frame@[r * SCREEN_WIDTH + c]
                            == shade(#[trigger] lit(self@.vram, c, r)),
                    forall|c: int|
                        0 <= c < col ==> frame@[row * SCREEN_WIDTH + c] == shade(
                            #[trigger] lit(self@.vram, c, row as int),
                        ),
                decreases SCREEN_WIDTH - col,
            {
                let byte: u8 = self.vram[col * 32 + up / 8];
                let shift: u8 = (up % 8) as u8;
                let pixel: u8 = if (byte >> shift) & 1 == 1 {
                    LIT
                } else {
                    DARK
                };
                frame.push(pixel);
                col = col + 1;
            }
            row = row + 1;
        }
        frame
    }

    /// Advances the frame timer by the `cyc` clock cycles that the processor
    /// has just spent.
    pub fn step(&mut self, cyc: usize)
        requires
            old(self)@.timer.cycles + cyc <= usize::MAX,
        ensures
            final(self)@ == (InvState { timer: old(self)@.timer.advanced(cyc), ..old(self)@ }),
    {
        self.timer.step(cyc);
    }
}

impl Bus for InvBus {
    open spec fn peek(v: InvState, addr: u16) -> u8 {
        match decode(addr).0 {
            Region::Rom => v.rom[decode(addr).1],
            Region::Ram => v.ram[decode(addr).1],
            Region::Vram => v.vram[decode(addr).1],
        }
    }

    /// A write to the program memory changes nothing.
    open spec fn poke(v: InvState, addr: u16, data: u8) -> InvState {
        match decode(addr).0 {
            Region::Rom => v,
            Region::Ram => InvState { ram: v.ram.update(decode(addr).1, data), ..v },
            Region::Vram => InvState { vram: v.vram.update(decode(addr).1, data), ..v },
        }
    }

    open spec fn input_port(port: u8) -> bool {
        port == 0 || port == 1 || port == 2 || port == 3 || port == 6
    }

    open spec fn output_port(port: u8) -> bool {
        port == 2 || port == 3 || port == 4 || port == 5 || port == 6
    }

    /// Port 0: bits 4 to 6 set, bit 0 the switch 5. Port 1: the first
    /// player's stick and buttons, both start buttons and the coin slot.
    /// Port 2: the second player's stick and fire button, and the switches
    /// 7, 6, 5 and 3. Port 3: the shift hardware. Port 6, the watchdog: 0.
    open spec fn port_in(v: InvState, port: u8) -> u8 {
        if port == 0 {
            byte_of(false, true, true, true, false, false, false, bit_set(v.inputs.dip, 32))
        } else if port == 1 {
            byte_of(
                false,
                v.inputs.p1_right,
                v.inputs.p1_left,
                v.inputs.p1_fire,
                true,
                v.inputs.p1_start,
                v.inputs.p2_start,
                v.inputs.credit,
            )
        } else if port == 2 {
            byte_of(
                bit_set(v.inputs.dip, 128),
                v.inputs.p2_right,
                v.inputs.p2_left,
                v.inputs.p2_fire,
                bit_set(v.inputs.dip, 64),
                false,
                bit_set(v.inputs.dip, 32),
                bit_set(v.inputs.dip, 8),
            )
        } else if port == 3 {
            window(v.shift_reg, v.shift_amt)
        } else {
            0
        }
    }

    /// Port 2: the shift amount. Port 4: a byte into the shift latch. Ports
    /// 3 and 5: a sound event, flagged with its byte. Port 6, the watchdog:
    /// nothing.
    open spec fn port_out(v: InvState, port: u8, data: u8) -> InvState {
        if port == 2 {
            InvState { shift_amt: data % 8, ..v }
        } else if port == 3 {
            InvState {
                sfx: v.sfx.update(SOUND_A as int, true),
                sfx_data: v.sfx_data.update(SOUND_A as int, data),
                ..v
            }
        } else if port == 4 {
            InvState { shift_reg: (data * 256 + v.shift_reg / 256) as u16, ..v }
        } else if port == 5 {
            InvState {
                sfx: v.sfx.update(SOUND_B as int, true),
                sfx_data: v.sfx_data.update(SOUND_B as int, data),
                ..v
            }
        } else {
            v
        }
    }

    open spec fn image_capacity() -> nat {
        0x2000
    }

    open spec fn install(v: InvState, offs: nat, image: Seq<u8>) -> InvState {
        InvState {
            rom: Seq::new(
                v.rom.len(),
                |a: int|
                    if offs <= a < offs + image.len() {
                        image[a - offs]
                    } else {
                        v.rom[a]
                    },
            ),
            ..v
        }
    }

    fn read_byte(&mut self, addr: u16) -> (data: u8) {
        let (region, index): (Region, usize) = locate(addr);
        match region {
            Region::Rom => self.rom[index],
            Region::Ram => self.ram[index],
            Region::Vram => self.vram[index],
        }
    }

    fn read_word(&mut self, addr: u16) -> (data: u16) {
        let lo: u8 = self.read_byte(addr);
        let hi: u8 = self.read_byte(addr.wrapping_add(1));
        word(hi, lo)
    }

    fn write_byte(&mut self, addr: u16, data: u8) {
        let (region, index): (Region, usize) = locate(addr);
        match region {
            Region::Rom => {},
            Region::Ram => {
                self.ram[index] = data;
            },
            Region::Vram => {
                self.vram[index] = data;
            },
        }
    }

    fn write_word(&mut self, addr: u16, data: u16) {
        self.write_byte(addr, low_byte(data));
        self.write_byte(addr.wrapping_add(1), high_byte(data));
    }

    fn has_input_port(&self, port: u8) -> (answer: bool) {
        port == 0 || port == 1 || port == 2 || port == 3 || port == 6
    }

    fn has_output_port(&self, port: u8) -> (answer: bool) {
        port == 2 || port == 3 || port == 4 || port == 5 || port == 6
    }

    fn read_io_byte(&mut self, port: u8) -> (data: u8) {
        if port == 0 {
            let dip: u8 = self.inputs.dip;
            assert(((dip >> 5) & 1) | 0b0111_0000 == byte_of(
                false,
                true,
                true,
                true,
                false,
                false,
                false,
                bit_set(dip, 32),
            )) by (bit_vector);
            ((dip >> 5) & 1) | 0b0111_0000
        } else if port == 1 {
            let right: u8 = if self.inputs.p1_right { 1 } else { 0 };
            let left: u8 = if self.inputs.p1_left { 1 } else { 0 };
            let fire: u8 = if self.inputs.p1_fire { 1 } else { 0 };
            let start1: u8 = if self.inputs.p1_start { 1 } else { 0 };
            let start2: u8 = if self.inputs.p2_start { 1 } else { 0 };
            let credit: u8 = if self.inputs.credit { 1 } else { 0 };
            assert((right << 6) | (left << 5) | (fire << 4) | 8 | (start1 << 2) | (start2 << 1)
                | credit == 64 * right + 32 * left + 16 * fire + 8 + 4 * start1 + 2 * start2
                + credit) by (bit_vector)
                requires
                    right <= 1,
                    left <= 1,
                    fire <= 1,
                    start1 <= 1,
                    start2 <= 1,
                    credit <= 1,
            ;
            (right << 6) | (left << 5) | (fire << 4) | 8 | (start1 << 2) | (start2 << 1) | credit
        } else if port == 2 {
            let dip: u8 = self.inputs.dip;
            let right: u8 = if self.inputs.p2_right { 1 } else { 0 };
            let left: u8 = if self.inputs.p2_left { 1 } else { 0 };
            let fire: u8 = if self.inputs.p2_fire { 1 } else { 0 };
            assert((dip & 0x80) | (right << 6) | (left << 5) | (fire << 4) | (((dip >> 6) & 1) << 3)
                | (((dip >> 5) & 1) << 1) | ((dip >> 3) & 1) == 128 * ((dip / 128) % 2) + 64 * right
                + 32 * left + 16 * fire + 8 * ((dip / 64) % 2) + 2 * ((dip / 32) % 2) + (dip / 8)
                % 2) by (bit_vector)
                requires
                    right <= 1,
                    left <= 1,
                    fire <= 1,
            ;
            (dip & 0x80) | (right << 6) | (left << 5) | (fire << 4) | (((dip >> 6) & 1) << 3) | (((
            dip >> 5) & 1) << 1) | ((dip >> 3) & 1)
        } else if port == 3 {
            self.shifter.result()
        } else {
            0
        }
    }

    fn write_io_byte(&mut self, port: u8, data: u8) {
        if port == 2 {
            self.shifter.set_amount(data);
        } else if port == 3 {
            self.sfx[SOUND_A] = true;
            self.sfx_data[SOUND_A] = data;
        } else if port == 4 {
            self.shifter.shift_in(data);
        } else if port == 5 {
            self.sfx[SOUND_B] = true;
            self.sfx_data[SOUND_B] = data;
        }
    }

    fn load_bin(&mut self, offs: usize, buf: &[u8]) {
        let ghost before = self@;
        let mut i: usize = 0;
        while i < buf.len()
            invariant
                i <= buf@.len(),
                offs + buf@.len() <= 0x2000,
                self@ == (InvState { rom: self.rom@, ..before }),
                forall|a: int|
                    0 <= a < 0x2000 ==> self.rom@[a] == if offs <= a < offs + i {
                        buf@[a - offs]
                    } else {
                        before.rom[a]
                    },
            decreases buf@.len() - i,
        {
            self.rom[offs + i] = buf[i];
            i = i + 1;
        }
        assert(self@.rom =~= Self::install(before, offs as nat, buf@).rom);
    }
}

/// A shift amount written to port 2 and a byte written to port 4 show at
/// port 3 as the window, by the low three bits of the amount, on the latch
/// that has the byte above what was its high byte.
pub proof fn lemma_shift_round_trip(v: InvState, amount: u8, data: u8)
    ensures
        InvBus::port_in(InvBus::port_out(InvBus::port_out(v, 2, amount), 4, data), 3) == window(
            (data * 256 + v.shift_reg / 256) as u16,
            amount % 8,
        ),
{
}

/// The state of every board is well formed.
pub proof fn lemma_board_wf(bus: InvBus)
    ensures
        bus@.wf(),
{
}

/// A write to a port of the board leaves its state well formed.
pub proof fn lemma_port_write_keeps_wf(v: InvState, port: u8, data: u8)
    requires
        v.wf(),
    ensures
        InvBus::port_out(v, port, data).wf(),
{
}

/// A byte written outside the program memory reads back; a byte written to
/// the program memory changes nothing.
pub proof fn lemma_write_then_read(v: InvState, addr: u16, data: u8)
    requires
        v.wf(),
    ensures
        InvBus::poke(v, addr, data).wf(),
        decode(addr).0 != Region::Rom ==> InvBus::peek(InvBus::poke(v, addr, data), addr) == data,
        decode(addr).0 == Region::Rom ==> InvBus::poke(v, addr, data) == v,
{
}

/// A write changes what one cell holds: an address that leads elsewhere
/// reads as before.
pub proof fn lemma_write_elsewhere(v: InvState, addr: u16, data: u8, other: u16)
    requires
        v.wf(),
        decode(other) != decode(addr),
    ensures
        InvBus::peek(InvBus::poke(v, addr, data), other) == InvBus::peek(v, other),
{
}

/// An image installed in the program memory is what the processor reads
/// there, and the rest of that memory reads as before.
pub proof fn lemma_installed_image_reads(v: InvState, offs: nat, image: Seq<u8>, addr: u16)
    requires
        v.wf(),
        offs + image.len() <= InvBus::image_capacity(),
        addr <= ROM_END,
    ensures
        InvBus::install(v, offs, image).wf(),
        InvBus::peek(InvBus::install(v, offs, image), addr) == if offs <= addr < offs
            + image.len() {
            image[addr - offs]
        } else {
            InvBus::peek(v, addr)
        },
{
}

} // verus!
