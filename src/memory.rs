//! The memory bus: one 16-bit address space routed to the cartridge, video
//! RAM, work RAM, sprite attribute memory, I/O registers, high RAM and the
//! interrupt-enable byte.

use vstd::prelude::*;
use crate::cartridge::{cart_read, cart_wf, cart_write, cart_write_saves, CartView, Cartridge};
use self::io::{io_write, IOMemoryBank, DMA_INDEX, JOYP_INDEX, LY_INDEX, STAT_INDEX};

pub mod io;
pub mod timer;

verus! {

pub const OAM_BASE_ADDRESS: u16 = 0xfe00;

/// Bytes that one OAM DMA transfer copies.
pub const DMA_LENGTH: u16 = 0xa0;

/// Everything the bus holds, as mathematical values.
pub struct BusView {
    pub cart: CartView,
    pub vram: Seq<u8>,
    pub wram: Seq<u8>,
    pub oam: Seq<u8>,
    /// The I/O registers, indexed by address minus `ff00`.
    pub io: Seq<u8>,
    pub hram: Seq<u8>,
    pub ie: u8,
    pub div_cycles: u32,
    pub tima_cycles: u32,
    pub save_requested: bool,
}

pub open spec fn bus_wf(v: BusView) -> bool {
    &&& cart_wf(v.cart)
    &&& v.vram.len() == 0x2000
    &&& v.wram.len() == 0x2000
    &&& v.oam.len() == 0x100
    &&& v.io.len() == 0x80
    &&& v.hram.len() == 0x7f
    &&& v.io[JOYP_INDEX as int] >= 0xc0
    &&& v.div_cycles < 64
    &&& v.tima_cycles < 256
}

/// What a read of `addr` returns.
pub open spec fn read_model(v: BusView, addr: u16) -> u8 {
    if addr < 0x8000 {
        cart_read(v.cart, addr)
    } else if addr < 0xa000 {
        v.vram[addr - 0x8000]
    } else if addr < 0xc000 {
        cart_read(v.cart, addr)
    } else if addr < 0xe000 {
        v.wram[addr - 0xc000]
    } else if addr < 0xfe00 {
        v.wram[addr - 0xe000]
    } else if addr < 0xff00 {
        v.oam[addr - 0xfe00]
    } else if addr < 0xff80 {
        v.io[addr - 0xff00]
    } else if addr < 0xffff {
        v.hram[addr - 0xff80]
    } else {
        v.ie
    }
}

pub open spec fn wrap16(x: int) -> u16 {
    (x % 0x10000) as u16
}

/// The little-endian word at `addr`.
pub open spec fn read16_model(v: BusView, addr: u16) -> u16 {
    (read_model(v, addr) + 256 * read_model(v, wrap16(addr + 1))) as u16
}

/// OAM after a DMA transfer from page `page`: the 160 bytes from `page × 256`
/// as the bus reads them.
pub open spec fn dma_model(v: BusView, page: u8) -> BusView {
    BusView {
        oam: Seq::new(
            0x100,
            |i: int|
                if i < 0xa0 {
                    read_model(v, (page * 256 + i) as u16)
                } else {
                    v.oam[i]
                },
        ),
        ..v
    }
}

/// The bus after the program writes `value` to `addr`.
pub open spec fn write_model(v: BusView, addr: u16, value: u8) -> BusView {
    if addr < 0x8000 || (0xa000 <= addr < 0xc000) {
        BusView {
            cart: cart_write(v.cart, addr, value),
            save_requested: v.save_requested || cart_write_saves(v.cart, addr, value),
            ..v
        }
    } else if addr < 0xa000 {
        BusView { vram: v.vram.update(addr - 0x8000, value), ..v }
    } else if addr < 0xe000 {
        BusView { wram: v.wram.update(addr - 0xc000, value), ..v }
    } else if addr < 0xfe00 {
        BusView { wram: v.wram.update(addr - 0xe000, value), ..v }
    } else if addr < 0xff00 {
        BusView { oam: v.oam.update(addr - 0xfe00, value), ..v }
    } else if addr < 0xff80 {
        let (io, div_cycles) = io_write(v.io, v.div_cycles, addr - 0xff00, value);
        let w = BusView { io, div_cycles, ..v };
        if addr == 0xff46 {
            dma_model(w, value)
        } else {
            w
        }
    } else if addr < 0xffff {
        BusView { hram: v.hram.update(addr - 0xff80, value), ..v }
    } else {
        BusView { ie: value, ..v }
    }
}

/// The bus after writing the word `value` at `addr`, low byte first.
pub open spec fn write16_model(v: BusView, addr: u16, value: u16) -> BusView {
    write_model(write_model(v, addr, (value % 256) as u8), wrap16(addr + 1), (value / 256) as u8)
}

/// The bus after the timer advances by `cycles` M-cycles, and whether TIMA
/// overflowed.
pub open spec fn timer_model(v: BusView, cycles: u8) -> (BusView, bool) {
    let io = v.io;
    let tac = io[timer::TAC_INDEX as int];
    let tima = io[timer::TIMA_INDEX as int];
    let tma = io[timer::TMA_INDEX as int];
    let div = timer::div_after(io[timer::DIV_INDEX as int], v.div_cycles, cycles);
    let div_cycles = ((v.div_cycles + cycles) % 64) as u32;
    let total = v.tima_cycles as int + cycles as int;
    let period = timer::tima_period(tac);
    if timer::timer_enabled(tac) {
        (
            BusView {
                io: io.update(timer::DIV_INDEX as int, div).update(
                    timer::TIMA_INDEX as int,
                    timer::tima_after(tima, tma, (total / period) as nat),
                ),
                div_cycles,
                tima_cycles: (total % period) as u32,
                ..v
            },
            timer::tima_overflows(tima, tma, (total / period) as nat),
        )
    } else {
        (BusView { io: io.update(timer::DIV_INDEX as int, div), div_cycles, ..v }, false)
    }
}

pub struct Memory {
    pub cartridge: Cartridge,
    pub vram: Vec<u8>,
    pub wram: Vec<u8>,
    pub oam: Vec<u8>,
    pub io_registers: IOMemoryBank,
    pub hram: Vec<u8>,
    pub interrupt_enable: u8,
    /// Set when the program asked for the battery-backed RAM to be saved.
    pub save_requested: bool,
}

fn zeroed(len: usize) -> (r: Vec<u8>)
    ensures
        r@ == Seq::new(len as nat, |i: int| 0u8),
{
    let mut v: Vec<u8> = Vec::new();
    let mut i: usize = 0;
    while i < len
        invariant
            i <= len,
            v@ == Seq::new(i as nat, |j: int| 0u8),
        decreases len - i,
    {
        v.push(0);
        assert(v@ =~= Seq::new((i + 1) as nat, |j: int| 0u8));
        i = i + 1;
    }
    v
}

impl Memory {
    pub open spec fn view(&self) -> BusView {
        BusView {
            cart: self.cartridge.view(),
            vram: self.vram@,
            wram: self.wram@,
            oam: self.oam@,
            io: self.io_registers.data@,
            hram: self.hram@,
            ie: self.interrupt_enable,
            div_cycles: self.io_registers.timer.div_cycles,
            tima_cycles: self.io_registers.timer.tima_cycles,
            save_requested: self.save_requested,
        }
    }

    pub open spec fn wf(&self) -> bool {
        bus_wf(self.view())
    }

    /// A bus around `cartridge` with every RAM zeroed.
    pub fn new(cartridge: Cartridge) -> (r: Memory)
        requires
            cartridge.wf(),
        ensures
            r.wf(),
            r@.cart == cartridge.view(),
            r@.vram == Seq::new(0x2000, |i: int| 0u8),
            r@.wram == Seq::new(0x2000, |i: int| 0u8),
            r@.oam == Seq::new(0x100, |i: int| 0u8),
            r@.hram == Seq::new(0x7f, |i: int| 0u8),
            r@.io == Seq::new(0x80, |i: int| 0u8).update(JOYP_INDEX as int, 0xff),
            r@.ie == 0,
            r@.div_cycles == 0 && r@.tima_cycles == 0,
            !r@.save_requested,
    {
        Memory {
            cartridge,
            vram: zeroed(0x2000),
            wram: zeroed(0x2000),
            oam: zeroed(0x100),
            io_registers: IOMemoryBank::new(),
            hram: zeroed(0x7f),
            interrupt_enable: 0,
            save_requested: false,
        }
    }

    pub fn read(&self, address: u16) -> (r: u8)
        requires
            self.wf(),
        ensures
            r == read_model(self@, address),
    {
        if address < 0x8000 {
            self.cartridge.read(address)
        } else if address < 0xa000 {
            self.vram[address as usize - 0x8000]
        } else if address < 0xc000 {
            self.cartridge.read(address)
        } else if address < 0xe000 {
            self.wram[address as usize - 0xc000]
        } else if address < 0xfe00 {
            self.wram[address as usize - 0xe000]
        } else if address < 0xff00 {
            self.oam[address as usize - 0xfe00]
        } else if address < 0xff80 {
            self.io_registers.read(address as usize - 0xff00)
        } else if address < 0xffff {
            self.hram[address as usize - 0xff80]
        } else {
            self.interrupt_enable
        }
    }

    pub fn read_signed(&self, address: u16) -> (r: i8)
        requires
            self.wf(),
        ensures
            r == read_model(self@, address) as i8,
    {
        self.read(address) as i8
    }

    pub fn read16(&self, address: u16) -> (r: u16)
        requires
            self.wf(),
        ensures
            r == read16_model(self@, address),
    {
        let lo = self.read(address);
        let hi = self.read(address.wrapping_add(1));
        lo as u16 + 256 * (hi as u16)
    }

    /// The `count` bytes from `start_address` on, as the bus reads them.
    pub fn read_bytes(&self, start_address: u16, count: u16) -> (r: Vec<u8>)
        requires
            self.wf(),
            start_address + count <= 0x10000,
        ensures
            r@.len() == count,
            forall|i: int| 0 <= i < count ==> r@[i] == read_model(self@, (start_address + i) as u16),
    {
        let mut bytes: Vec<u8> = Vec::new();
        let mut i: u16 = 0;
        while i < count
            invariant
                self.wf(),
                i <= count,
                start_address + count <= 0x10000,
                bytes@.len() == i,
                forall|j: int| 0 <= j < i ==> bytes@[j] == read_model(self@, (start_address + j) as u16),
            decreases count - i,
        {
            bytes.push(self.read(start_address + i));
            i = i + 1;
        }
        bytes
    }

    /// A write by the program. A write to `ff46` starts an OAM DMA transfer,
    /// which completes before this returns.
    pub fn write(&mut self, address: u16, value: u8)
        requires
            old(self).wf(),
        ensures
            final(self).wf(),
            final(self)@ == write_model(old(self)@, address, value),
            final(self).cartridge.header == old(self).cartridge.header,
    {
        if address < 0x8000 || (0xa000 <= address && address < 0xc000) {
            let save = self.cartridge.write(address, value);
            self.save_requested = self.save_requested || save;
        } else if address < 0xa000 {
            self.vram.set(address as usize - 0x8000, value);
        } else if address < 0xe000 {
            self.wram.set(address as usize - 0xc000, value);
        } else if address < 0xfe00 {
            self.wram.set(address as usize - 0xe000, value);
        } else if address < 0xff00 {
            self.oam.set(address as usize - 0xfe00, value);
        } else if address < 0xff80 {
            self.io_registers.write(address as usize - 0xff00, value);
            if address == 0xff46 {
                self.dma_transfer(value);
            }
        } else if address < 0xffff {
            self.hram.set(address as usize - 0xff80, value);
        } else {
            self.interrupt_enable = value;
        }
    }

    pub fn write16(&mut self, address: u16, value: u16)
        requires
            old(self).wf(),
        ensures
            final(self).wf(),
            final(self)@ == write16_model(old(self)@, address, value),
            final(self).cartridge.header == old(self).cartridge.header,
    {
        self.write(address, (value % 256) as u8);
        self.write(address.wrapping_add(1), (value / 256) as u8);
    }

    fn dma_transfer(&mut self, page: u8)
        requires
            old(self).wf(),
        ensures
            final(self).wf(),
            final(self)@ == dma_model(old(self)@, page),
            final(self).cartridge.header == old(self).cartridge.header,
    {
        let start = page as u16 * 256;
        let bytes = self.read_bytes(start, DMA_LENGTH);
        let ghost before = self@;
        let mut i: usize = 0;
        assert(self.oam@ =~= Seq::new(
            0x100,
            |k: int|
                if k < 0 {
                    read_model(before, (page * 256 + k) as u16)
                } else {
                    before.oam[k]
                },
        ));
        while i < 0xa0
            invariant
                i <= 0xa0,
                bytes@.len() == 0xa0,
                self.wf(),
                self.cartridge.header == old(self).cartridge.header,
                before == old(self)@,
                forall|j: int| 0 <= j < 0xa0 ==> bytes@[j] == read_model(before, (start + j) as u16),
                start == page * 256,
                self@ == (BusView {
                    oam: Seq::new(
                        0x100,
                        |k: int|
                            if k < i {
                                read_model(before, (page * 256 + k) as u16)
                            } else {
                                before.oam[k]
                            },
                    ),
                    ..before
                }),
            decreases 0xa0 - i,
        {
            self.oam.set(i, bytes[i]);
            proof {
                assert(self.oam@ =~= Seq::new(
                    0x100,
                    |k: int|
                        if k < i + 1 {
                            read_model(before, (page * 256 + k) as u16)
                        } else {
                            before.oam[k]
                        },
                ));
            }
            i = i + 1;
        }
        assert(self@.oam =~= dma_model(before, page).oam);
    }

    /// Sets the LY register and the mode and coincidence bits of STAT; the
    /// display unit's side of those registers.
    pub fn set_lcd_status(&mut self, ly: u8, mode: u8, coincidence: bool)
        requires
            old(self).wf(),
            mode < 4,
        ensures
            final(self).wf(),
            final(self)@ == (BusView {
                io: old(self)@.io.update(LY_INDEX as int, ly).update(
                    STAT_INDEX as int,
                    (old(self)@.io[STAT_INDEX as int] - old(self)@.io[STAT_INDEX as int] % 8 + (
                    if coincidence {
                        4int
                    } else {
                        0
                    }) + mode) as u8,
                ),
                ..old(self)@
            }),
            final(self).cartridge.header == old(self).cartridge.header,
    {
        self.io_registers.data.set(LY_INDEX, ly);
        let stat = self.io_registers.data[STAT_INDEX];
        let low: u8 = if coincidence {
            4 + mode
        } else {
            mode
        };
        self.io_registers.data.set(STAT_INDEX, stat - stat % 8 + low);
    }

    /// Sets the four button bits of JOYP (active low).
    pub fn set_joypad_buttons(&mut self, buttons: u8)
        requires
            old(self).wf(),
            buttons < 16,
        ensures
            final(self).wf(),
            final(self)@ == (BusView {
                io: old(self)@.io.update(
                    JOYP_INDEX as int,
                    (old(self)@.io[JOYP_INDEX as int] - old(self)@.io[JOYP_INDEX as int] % 16
                        + buttons) as u8,
                ),
                ..old(self)@
            }),
            final(self).cartridge.header == old(self).cartridge.header,
    {
        let joyp = self.io_registers.data[JOYP_INDEX];
        self.io_registers.data.set(JOYP_INDEX, joyp - joyp % 16 + buttons);
    }

    /// Advances the divider and the timer; returns whether TIMA overflowed.
    pub fn timer_step(&mut self, cycles: u8) -> (overflow: bool)
        requires
            old(self).wf(),
        ensures
            final(self).wf(),
            final(self)@.cart == old(self)@.cart,
            final(self)@.vram == old(self)@.vram,
            final(self)@.wram == old(self)@.wram,
            final(self)@.oam == old(self)@.oam,
            final(self)@.hram == old(self)@.hram,
            final(self)@.ie == old(self)@.ie,
            final(self)@.save_requested == old(self)@.save_requested,
            final(self)@.io[timer::DIV_INDEX as int] == timer::div_after(
                old(self)@.io[timer::DIV_INDEX as int],
                old(self)@.div_cycles,
                cycles,
            ),
            final(self)@.div_cycles == (old(self)@.div_cycles + cycles) % 64,
            forall|i: int|
                0 <= i < 0x80 && i != timer::DIV_INDEX && i != timer::TIMA_INDEX
                    ==> final(self)@.io[i] == old(self)@.io[i],
            final(self).cartridge.header == old(self).cartridge.header,
            (final(self)@, overflow) == timer_model(old(self)@, cycles),
            ({
                let io = old(self)@.io;
                let tac = io[timer::TAC_INDEX as int];
                let tima = io[timer::TIMA_INDEX as int];
                let tma = io[timer::TMA_INDEX as int];
                let total = old(self)@.tima_cycles as int + cycles as int;
                let period = timer::tima_period(tac);
                if timer::timer_enabled(tac) {
                    &&& final(self)@.tima_cycles as int == total % period
                    &&& final(self)@.io == io.update(
                        timer::DIV_INDEX as int,
                        final(self)@.io[timer::DIV_INDEX as int],
                    ).update(timer::TIMA_INDEX as int, timer::tima_after(tima, tma, (total / period) as nat))
                    &&& overflow == timer::tima_overflows(tima, tma, (total / period) as nat)
                } else {
                    &&& final(self)@.tima_cycles == old(self)@.tima_cycles
                    &&& final(self)@.io == io.update(
                        timer::DIV_INDEX as int,
                        final(self)@.io[timer::DIV_INDEX as int],
                    )
                    &&& !overflow
                }
            }),
    {
        let overflow = self.io_registers.timer_step(cycles);
        proof {
            let (w, o) = timer_model(old(self)@, cycles);
            assert(self@.io =~= w.io);
            assert(self@ == w);
        }
        overflow
    }

    /// Clears the save request; returns whether there was one.
    pub fn take_save_request(&mut self) -> (r: bool)
        ensures
            r == old(self).save_requested,
            final(self)@ == (BusView { save_requested: false, ..old(self)@ }),
            final(self).cartridge.header == old(self).cartridge.header,
    {
        let r = self.save_requested;
        self.save_requested = false;
        r
    }
}

/// Echo RAM mirrors work RAM: every address in `e000..fe00` reads what the
/// address `0x2000` below it reads.
pub proof fn lemma_echo_mirrors_work_ram(v: BusView, a: u16)
    requires
        0xe000 <= a < 0xfe00,
    ensures
        read_model(v, a) == read_model(v, (a - 0x2000) as u16),
{
}

/// The interrupt-enable byte is what `ffff` reads, and the interrupt flags are
/// what `ff0f` reads.
pub proof fn lemma_interrupt_registers_visible(v: BusView)
    ensures
        read_model(v, 0xffff) == v.ie,
        read_model(v, 0xff0f) == v.io[io::IF_INDEX as int],
{
}

/// After the program writes a page number below `fe` to `ff46`, OAM byte `i`
/// reads what byte `i` of that page read before.
pub proof fn lemma_dma_copies_page(v: BusView, page: u8, i: int)
    requires
        bus_wf(v),
        0 <= i < 0xa0,
        page < 0xfe,
    ensures
        read_model(write_model(v, 0xff46, page), (0xfe00 + i) as u16) == read_model(
            v,
            (page * 256 + i) as u16,
        ),
{
}

} // verus!
