//! Cartridges: the ROM image, its header, and the memory bank controller that
//! maps ROM and battery-backed RAM banks into the address space.

use vstd::prelude::*;
use vstd::utf8::{decode_utf8, valid_utf8};

verus! {

pub const MBC_TYPE_ADDRESS: usize = 0x147;

pub const ROM_BANK_SIZE: usize = 0x4000;

pub const RAM_BANK_SIZE: usize = 0x2000;

/// Size of the battery-backed RAM of an MBC3 cartridge, and of its save file.
pub const MBC3_RAM_SIZE: usize = 0x8000;

#[derive(Clone, Debug)]
pub struct Mbc1State {
    pub selected_rom_bank: u8,
}

#[derive(Clone, Debug)]
pub struct Mbc3State {
    pub selected_rom_bank: u8,
    pub selected_ram_bank: u8,
    pub ram: Vec<u8>,
}

#[derive(Clone, Debug)]
pub struct NoMbcState {
    pub ram: Vec<u8>,
}

#[derive(Clone, Debug)]
pub enum Mbc {
    NoMbc(NoMbcState),
    Mbc1(Mbc1State),
    Mbc3(Mbc3State),
}

#[derive(Clone, Debug)]
pub struct CartridgeHeader {
    pub title: String,
}

#[derive(Clone, Debug)]
pub struct Cartridge {
    pub header: CartridgeHeader,
    pub data: Vec<u8>,
    pub mbc: Mbc,
}

#[derive(Clone, Copy, Debug, PartialEq, Eq, Structural)]
pub enum CartridgeError {
    InvalidSize,
    InvalidTitle,
    InvalidMbcType,
}

/// Which mapper a cartridge carries.
#[derive(Clone, Copy, Debug, PartialEq, Eq, Structural)]
pub enum MapperKind {
    NoMbc,
    Mbc1,
    Mbc3,
}

/// What the bus sees of a cartridge: its ROM, mapper, selected banks and RAM.
pub struct CartView {
    pub rom: Seq<u8>,
    pub kind: MapperKind,
    pub rom_bank: u8,
    pub ram_bank: u8,
    pub ram: Seq<u8>,
}

/// A ROM image's size is acceptable: at least 32 KiB, whole 16 KiB banks.
pub open spec fn valid_rom_size(len: int) -> bool {
    len >= 0x8000 && len % 0x4000 == 0
}

pub open spec fn cart_wf(c: CartView) -> bool {
    &&& valid_rom_size(c.rom.len() as int)
    &&& c.rom_bank >= 1
    &&& match c.kind {
        MapperKind::NoMbc => c.ram.len() == 0x2000,
        MapperKind::Mbc1 => c.ram.len() == 0,
        MapperKind::Mbc3 => c.ram.len() == 0x8000,
    }
}

/// The bank that the switchable window shows: the selected one, saturated to
/// the last bank of the image.
pub open spec fn effective_rom_bank(c: CartView) -> int {
    let banks = c.rom.len() / 0x4000;
    if c.rom_bank as int > banks - 1 {
        banks - 1
    } else {
        c.rom_bank as int
    }
}

/// The RAM bank in use: the selected one, saturated to the last of the four.
pub open spec fn mbc3_ram_bank(selected: u8) -> int {
    if selected > 3 {
        3
    } else {
        selected as int
    }
}

pub open spec fn mbc3_ram_index(c: CartView, addr: u16) -> int {
    addr - 0xa000 + mbc3_ram_bank(c.ram_bank) * 0x2000
}

/// What reading `addr` (in `0000..8000` or `a000..c000`) returns.
pub open spec fn cart_read(c: CartView, addr: u16) -> u8 {
    if addr < 0x4000 {
        c.rom[addr as int]
    } else if addr < 0x8000 {
        match c.kind {
            MapperKind::NoMbc => c.rom[addr as int],
            _ => c.rom[addr + (effective_rom_bank(c) - 1) * 0x4000],
        }
    } else {
        match c.kind {
            MapperKind::NoMbc => c.ram[addr - 0xa000],
            MapperKind::Mbc1 => 0xff,
            MapperKind::Mbc3 => c.ram[mbc3_ram_index(c, addr)],
        }
    }
}

/// The ROM bank that a bank-register write selects: the masked value, with 0
/// coerced to 1.
pub open spec fn coerce_bank(value: u8, modulus: u8) -> u8 {
    if value % modulus == 0 {
        1
    } else {
        value % modulus
    }
}

/// The cartridge after a write of `value` to `addr`.
pub open spec fn cart_write(c: CartView, addr: u16, value: u8) -> CartView {
    match c.kind {
        MapperKind::NoMbc => if 0xa000 <= addr < 0xc000 {
            CartView { ram: c.ram.update(addr - 0xa000, value), ..c }
        } else {
            c
        },
        MapperKind::Mbc1 => if 0x2000 <= addr < 0x4000 {
            CartView { rom_bank: coerce_bank(value, 0x20), ..c }
        } else {
            c
        },
        MapperKind::Mbc3 => if 0x2000 <= addr < 0x4000 {
            CartView { rom_bank: coerce_bank(value, 0x80), ..c }
        } else if 0x4000 <= addr < 0x6000 {
            CartView { ram_bank: value, ..c }
        } else if 0xa000 <= addr < 0xc000 {
            CartView { ram: c.ram.update(mbc3_ram_index(c, addr), value), ..c }
        } else {
            c
        },
    }
}

/// Whether a write asks for the battery-backed RAM to be saved: a non-zero
/// write to `6000..8000` of an MBC3 cartridge.
pub open spec fn cart_write_saves(c: CartView, addr: u16, value: u8) -> bool {
    c.kind == MapperKind::Mbc3 && 0x6000 <= addr < 0x8000 && value != 0
}

/// The mapper that header byte `0x147` names, if it is one of the supported.
pub open spec fn mapper_of(byte: u8) -> Option<MapperKind> {
    if byte == 0x00 {
        Some(MapperKind::NoMbc)
    } else if byte == 0x01 {
        Some(MapperKind::Mbc1)
    } else if byte == 0x13 {
        Some(MapperKind::Mbc3)
    } else {
        None
    }
}

/// `s` without its trailing NUL bytes.
pub open spec fn trim_trailing_nul(s: Seq<u8>) -> Seq<u8>
    decreases s.len(),
{
    if s.len() > 0 && s.last() == 0 {
        trim_trailing_nul(s.drop_last())
    } else {
        s
    }
}

/// The header bytes that hold the title: `134..13f` on a new-style header
/// (byte `14b` is `0x33`), `134..13c` on an old one, NULs trimmed.
pub open spec fn title_bytes(data: Seq<u8>) -> Seq<u8> {
    let end = if data[0x14b] == 0x33 {
        0x13f
    } else {
        0x13c
    };
    trim_trailing_nul(data.subrange(0x134, end))
}

/// Relies on `String::from_utf8`: it succeeds exactly on valid UTF-8, and the
/// string holds the decoded characters.
#[verifier::external_body]
fn string_from_utf8(bytes: Vec<u8>) -> (r: Option<String>)
    ensures
        r.is_some() == valid_utf8(bytes@),
        r.is_some() ==> r.unwrap()@ == decode_utf8(bytes@),
{
    String::from_utf8(bytes).ok()
}

impl Cartridge {
    pub open spec fn view(&self) -> CartView {
        CartView {
            rom: self.data@,
            kind: match self.mbc {
                Mbc::NoMbc(_) => MapperKind::NoMbc,
                Mbc::Mbc1(_) => MapperKind::Mbc1,
                Mbc::Mbc3(_) => MapperKind::Mbc3,
            },
            rom_bank: match self.mbc {
                Mbc::NoMbc(_) => 1,
                Mbc::Mbc1(s) => s.selected_rom_bank,
                Mbc::Mbc3(s) => s.selected_rom_bank,
            },
            ram_bank: match self.mbc {
                Mbc::Mbc3(s) => s.selected_ram_bank,
                _ => 0,
            },
            ram: match self.mbc {
                Mbc::NoMbc(s) => s.ram@,
                Mbc::Mbc1(_) => Seq::empty(),
                Mbc::Mbc3(s) => s.ram@,
            },
        }
    }

    pub open spec fn wf(&self) -> bool {
        cart_wf(self.view())
    }

    /// Builds a cartridge from a ROM image. `saved_ram` is the content of the
    /// save file, if there is one; an MBC3 cartridge starts from it when it has
    /// the size of the cartridge RAM, and from zeroed RAM otherwise.
    pub fn from_data(data: Vec<u8>, saved_ram: Option<Vec<u8>>) -> (r: Result<
        Cartridge,
        CartridgeError,
    >)
        ensures
            !valid_rom_size(data@.len() as int) ==> r == Err::<Cartridge, CartridgeError>(
                CartridgeError::InvalidSize,
            ),
            valid_rom_size(data@.len() as int) && !valid_utf8(title_bytes(data@)) ==> r == Err::<
                Cartridge,
                CartridgeError,
            >(CartridgeError::InvalidTitle),
            valid_rom_size(data@.len() as int) && valid_utf8(title_bytes(data@)) && mapper_of(
                data@[0x147],
            ) is None ==> r == Err::<Cartridge, CartridgeError>(CartridgeError::InvalidMbcType),
            r is Ok <==> valid_rom_size(data@.len() as int) && valid_utf8(title_bytes(data@))
                && mapper_of(data@[0x147]) is Some,
            r matches Ok(c) ==> {
                &&& c.wf()
                &&& c.data@ == data@
                &&& c.header.title@ == decode_utf8(title_bytes(data@))
                &&& Some(c.view().kind) == mapper_of(data@[0x147])
                &&& c.view().rom_bank == 1
                &&& c.view().ram_bank == 0
                &&& c.view().kind == MapperKind::Mbc3 ==> c.view().ram == match saved_ram {
                    Some(s) => if s@.len() == 0x8000 {
                        s@
                    } else {
                        Seq::new(0x8000, |i| 0u8)
                    },
                    None => Seq::new(0x8000, |i| 0u8),
                }
                &&& c.view().kind == MapperKind::NoMbc ==> c.view().ram == Seq::new(
                    0x2000,
                    |i| 0u8,
                )
            },
    {
        if data.len() < 0x8000 || data.len() % ROM_BANK_SIZE != 0 {
            return Err(CartridgeError::InvalidSize);
        }
        let title = match Cartridge::parse_title(&data) {
            Some(t) => t,
            None => return Err(CartridgeError::InvalidTitle),
        };
        let mbc = match Cartridge::parse_mbc(&data, saved_ram) {
            Some(m) => m,
            None => return Err(CartridgeError::InvalidMbcType),
        };
        Ok(Cartridge { header: CartridgeHeader { title }, data, mbc })
    }

    /// Whether the header is of the newer layout, with a shorter title.
    pub fn is_new_cartridge(data: &Vec<u8>) -> (r: bool)
        requires
            data@.len() > 0x14b,
        ensures
            r == (data@[0x14b] == 0x33),
    {
        data[0x14b] == 0x33
    }

    /// The title from the header, NUL-trimmed, if it is valid UTF-8.
    pub fn parse_title(data: &Vec<u8>) -> (r: Option<String>)
        requires
            data@.len() > 0x14b,
        ensures
            r.is_some() == valid_utf8(title_bytes(data@)),
            r.is_some() ==> r.unwrap()@ == decode_utf8(title_bytes(data@)),
    {
        let end: usize = if Cartridge::is_new_cartridge(data) {
            0x13f
        } else {
            0x13c
        };
        let ghost raw = data@.subrange(0x134, end as int);
        let mut n: usize = end;
        while n > 0x134 && data[n - 1] == 0
            invariant
                0x134 <= n <= end,
                end <= data@.len(),
                raw == data@.subrange(0x134, end as int),
                trim_trailing_nul(raw) == trim_trailing_nul(data@.subrange(0x134, n as int)),
            decreases n,
        {
            assert(data@.subrange(0x134, n as int).drop_last() =~= data@.subrange(
                0x134,
                n - 1,
            ));
            n = n - 1;
        }
        let mut bytes: Vec<u8> = Vec::new();
        let mut i: usize = 0x134;
        while i < n
            invariant
                0x134 <= i <= n,
                n <= data@.len(),
                bytes@ == data@.subrange(0x134, i as int),
            decreases n - i,
        {
            bytes.push(data[i]);
            assert(bytes@ =~= data@.subrange(0x134, i + 1));
            i = i + 1;
        }
        assert(trim_trailing_nul(data@.subrange(0x134, n as int)) == data@.subrange(
            0x134,
            n as int,
        ));
        string_from_utf8(bytes)
    }

    /// The mapper state that header byte `0x147` calls for.
    pub fn parse_mbc(data: &Vec<u8>, saved_ram: Option<Vec<u8>>) -> (r: Option<Mbc>)
        requires
            data@.len() > 0x147,
        ensures
            r is Some <==> mapper_of(data@[0x147]) is Some,
            r matches Some(m) ==> match m {
                Mbc::NoMbc(s) => mapper_of(data@[0x147]) == Some(MapperKind::NoMbc)
                    && s.ram@ == Seq::new(0x2000, |i| 0u8),
                Mbc::Mbc1(s) => mapper_of(data@[0x147]) == Some(MapperKind::Mbc1)
                    && s.selected_rom_bank == 1,
                Mbc::Mbc3(s) => {
                    &&& mapper_of(data@[0x147]) == Some(MapperKind::Mbc3)
                    &&& s.selected_rom_bank == 1
                    &&& s.selected_ram_bank == 0
                    &&& s.ram@ == match saved_ram {
                        Some(v) => if v@.len() == 0x8000 {
                            v@
                        } else {
                            Seq::new(0x8000, |i| 0u8)
                        },
                        None => Seq::new(0x8000, |i| 0u8),
                    }
                },
            },
    {
        let mbc_type = data[MBC_TYPE_ADDRESS];
        if mbc_type == 0x00 {
            Some(Mbc::NoMbc(NoMbcState { ram: zeroed(RAM_BANK_SIZE) }))
        } else if mbc_type == 0x01 {
            Some(Mbc::Mbc1(Mbc1State { selected_rom_bank: 1 }))
        } else if mbc_type == 0x13 {
            let ram = match saved_ram {
                Some(v) => if v.len() == MBC3_RAM_SIZE {
                    v
                } else {
                    zeroed(MBC3_RAM_SIZE)
                },
                None => zeroed(MBC3_RAM_SIZE),
            };
            Some(Mbc::Mbc3(Mbc3State { selected_rom_bank: 1, selected_ram_bank: 0, ram }))
        } else {
            None
        }
    }

    /// The byte at `address` of the cartridge's part of the address space.
    pub fn read(&self, address: u16) -> (r: u8)
        requires
            self.wf(),
            address < 0x8000 || 0xa000 <= address < 0xc000,
        ensures
            r == cart_read(self.view(), address),
    {
        let banks = self.data.len() / ROM_BANK_SIZE;
        match &self.mbc {
            Mbc::NoMbc(state) => {
                if address < 0x8000 {
                    self.data[address as usize]
                } else {
                    state.ram[address as usize - 0xa000]
                }
            },
            Mbc::Mbc1(state) => {
                if address < 0x4000 {
                    self.data[address as usize]
                } else if address < 0x8000 {
                    let bank = saturate_bank(state.selected_rom_bank, banks);
                    self.data[address as usize + (bank - 1) * ROM_BANK_SIZE]
                } else {
                    0xff
                }
            },
            Mbc::Mbc3(state) => {
                if address < 0x4000 {
                    self.data[address as usize]
                } else if address < 0x8000 {
                    let bank = saturate_bank(state.selected_rom_bank, banks);
                    self.data[address as usize + (bank - 1) * ROM_BANK_SIZE]
                } else {
                    state.ram[address as usize - 0xa000 + saturate_ram_bank(state.selected_ram_bank)
                        * RAM_BANK_SIZE]
                }
            },
        }
    }

    /// Applies a write to the cartridge's part of the address space; returns
    /// whether the write asks for the battery-backed RAM to be saved.
    pub fn write(&mut self, address: u16, value: u8) -> (save: bool)
        requires
            old(self).wf(),
            address < 0x8000 || 0xa000 <= address < 0xc000,
        ensures
            final(self).wf(),
            final(self).view() == cart_write(old(self).view(), address, value),
            final(self).header == old(self).header,
            save == cart_write_saves(old(self).view(), address, value),
    {
        match &mut self.mbc {
            Mbc::NoMbc(state) => {
                if 0xa000 <= address && address < 0xc000 {
                    state.ram.set(address as usize - 0xa000, value);
                }
                false
            },
            Mbc::Mbc1(state) => {
                if 0x2000 <= address && address < 0x4000 {
                    state.selected_rom_bank = coerce_rom_bank(value, 0x20);
                }
                false
            },
            Mbc::Mbc3(state) => {
                if 0x2000 <= address && address < 0x4000 {
                    state.selected_rom_bank = coerce_rom_bank(value, 0x80);
                    false
                } else if 0x4000 <= address && address < 0x6000 {
                    state.selected_ram_bank = value;
                    false
                } else if 0x6000 <= address && address < 0x8000 {
                    value != 0
                } else if 0xa000 <= address && address < 0xc000 {
                    let index = address as usize - 0xa000 + saturate_ram_bank(state.selected_ram_bank)
                        * RAM_BANK_SIZE;
                    state.ram.set(index, value);
                    false
                } else {
                    false
                }
            },
        }
    }

    /// The battery-backed RAM, for saving; present on MBC3 cartridges only.
    pub fn battery_ram(&self) -> (r: Option<&Vec<u8>>)
        ensures
            r is Some <==> self.view().kind == MapperKind::Mbc3,
            r matches Some(v) ==> v@ == self.view().ram,
    {
        match &self.mbc {
            Mbc::Mbc3(state) => Some(&state.ram),
            _ => None,
        }
    }
}

/// A copy of `bytes`.
pub fn copy_bytes(bytes: &Vec<u8>) -> (r: Vec<u8>)
    ensures
        r@ == bytes@,
{
    let mut out: Vec<u8> = Vec::new();
    let mut i: usize = 0;
    while i < bytes.len()
        invariant
            i <= bytes@.len(),
            out@ == bytes@.subrange(0, i as int),
        decreases bytes@.len() - i,
    {
        out.push(bytes[i]);
        assert(out@ =~= bytes@.subrange(0, i + 1));
        i = i + 1;
    }
    assert(out@ =~= bytes@);
    out
}

fn zeroed(len: usize) -> (r: Vec<u8>)
    ensures
        r@ == Seq::new(len as nat, |i| 0u8),
{
    let mut v: Vec<u8> = Vec::new();
    let mut i: usize = 0;
    while i < len
        invariant
            i <= len,
            v@ == Seq::new(i as nat, |j| 0u8),
        decreases len - i,
    {
        v.push(0);
        assert(v@ =~= Seq::new((i + 1) as nat, |j| 0u8));
        i = i + 1;
    }
    v
}

fn saturate_ram_bank(selected: u8) -> (r: usize)
    ensures
        r == mbc3_ram_bank(selected),
        r <= 3,
{
    if selected > 3 {
        3
    } else {
        selected as usize
    }
}

fn coerce_rom_bank(value: u8, modulus: u8) -> (r: u8)
    requires
        modulus > 0,
    ensures
        r == coerce_bank(value, modulus),
        r >= 1,
{
    if value % modulus == 0 {
        1
    } else {
        value % modulus
    }
}

fn saturate_bank(bank: u8, banks: usize) -> (r: usize)
    requires
        banks >= 2,
        bank >= 1,
    ensures
        r == (if bank as int > banks - 1 {
            banks - 1
        } else {
            bank as int
        }),
        1 <= r < banks,
{
    if bank as usize > banks - 1 {
        banks - 1
    } else {
        bank as usize
    }
}

} // verus!
