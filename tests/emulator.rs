use rustyboy::cartridge::{Cartridge, CartridgeError};
use rustyboy::cpu::instructions::{
    ArithmeticTarget16, BitOpTarget, ByteArithmeticTarget, Instruction,
};
use rustyboy::cpu::{Cpu, CpuFault};
use rustyboy::hardware::Hardware;
use rustyboy::joypad::{JoypadKey, JoypadState};
use rustyboy::lcd::LcdControl;
use rustyboy::memory::Memory;
use rustyboy::ppu::palette::{Color, Palette, PaletteType};
use rustyboy::ppu::tiles::{Sprite, Tile};
use rustyboy::zipper::Zipper;
use rustyboy::ppu::{Ppu, PpuMode};

fn rom_with(code: &[u8], mapper: u8, banks: usize) -> Vec<u8> {
    let mut rom = vec![0u8; 0x4000 * banks];
    rom[0x134..0x138].copy_from_slice(b"TEST");
    rom[0x147] = mapper;
    rom[0x100..0x100 + code.len()].copy_from_slice(code);
    rom
}

fn bus_with(code: &[u8]) -> Memory {
    let cart = Cartridge::from_data(rom_with(code, 0x00, 2), None).unwrap();
    Memory::new(cart)
}

#[test]
fn boot_register_sanity() {
    let cpu = Cpu::new();
    let r = cpu.registers;
    assert_eq!(r.a, 0x01);
    assert_eq!(r.f.to_byte(), 0xb0);
    assert_eq!(r.get_bc(), 0x0013);
    assert_eq!(r.get_de(), 0x00d8);
    assert_eq!(r.get_hl(), 0x014d);
    assert_eq!(r.stack_pointer, 0xfffe);
    assert_eq!(r.program_counter, 0x0100);
}

#[test]
fn add_hl_bc_carries() {
    let mut bus = bus_with(&[0x09]);
    let mut cpu = Cpu::new();
    cpu.registers.set_hl(0x8a23);
    cpu.registers.set_bc(0x0605);
    cpu.registers.set_af(0x0100);
    let r = cpu.step(&mut bus).unwrap();
    assert_eq!(r, (2, false));
    assert_eq!(cpu.registers.get_hl(), 0x9028);
    assert_eq!(cpu.registers.f.to_byte(), 0x20);
}

#[test]
fn daa_after_addition() {
    let mut bus = bus_with(&[0x80, 0x27]);
    let mut cpu = Cpu::new();
    cpu.registers.a = 0x45;
    cpu.registers.b = 0x38;
    cpu.registers.set_af(0x4500);
    cpu.step(&mut bus).unwrap();
    assert_eq!(cpu.registers.a, 0x7d);
    assert!(!cpu.registers.f.half_carry);
    cpu.step(&mut bus).unwrap();
    assert_eq!(cpu.registers.a, 0x83);
    assert!(!cpu.registers.f.zero);
    assert!(!cpu.registers.f.half_carry);
    assert!(!cpu.registers.f.carry);
}

#[test]
fn conditional_call_not_taken() {
    let mut bus = bus_with(&[0xcc, 0x34, 0x12]);
    let mut cpu = Cpu::new();
    cpu.registers.f.zero = false;
    let sp = cpu.registers.stack_pointer;
    let r = cpu.step(&mut bus).unwrap();
    assert_eq!(cpu.registers.program_counter, 0x0103);
    assert_eq!(cpu.registers.stack_pointer, sp);
    assert_eq!(r.0, 3);
}

#[test]
fn conditional_call_taken_pushes_return_address() {
    let mut bus = bus_with(&[0xcc, 0x34, 0x12]);
    let mut cpu = Cpu::new();
    cpu.registers.f.zero = true;
    let r = cpu.step(&mut bus).unwrap();
    assert_eq!(r.0, 6);
    assert_eq!(cpu.registers.program_counter, 0x1234);
    assert_eq!(cpu.registers.stack_pointer, 0xfffc);
    assert_eq!(bus.read16(0xfffc), 0x0103);
}

#[test]
fn oam_dma() {
    let mut bus = bus_with(&[]);
    for i in 0..0xa0u16 {
        bus.write(0xc200 + i, i as u8);
    }
    bus.write(0xff46, 0xc2);
    for i in 0..0xa0u16 {
        assert_eq!(bus.read(0xfe00 + i), i as u8);
    }
}

#[test]
fn ppu_scanline_rollover() {
    let mut bus = bus_with(&[]);
    bus.write(0xff40, 0x80);
    bus.write(0xff41, 0x10);
    let mut ppu = Ppu::new();
    assert_eq!(ppu.mode, PpuMode::OamSearch);
    let mut vblanks = 0;
    let mut stats = 0;
    for _ in 0..(456 * 144 + 1) {
        let events = ppu.step(&bus);
        if events.vblank {
            vblanks += 1;
        }
        if events.lcd_stat {
            stats += 1;
        }
    }
    assert_eq!(ppu.mode, PpuMode::VBlank);
    assert_eq!(ppu.scanline, 144);
    assert_eq!(vblanks, 1);
    assert_eq!(stats, 1);
}

#[test]
fn pc_advances_by_instruction_length() {
    // LD A,0x42 ; NOP ; LD BC,0x1234 ; JP 0x0200
    let mut bus = bus_with(&[0x3e, 0x42, 0x00, 0x01, 0x34, 0x12, 0xc3, 0x00, 0x02]);
    let mut cpu = Cpu::new();
    cpu.step(&mut bus).unwrap();
    assert_eq!(cpu.registers.program_counter, 0x102);
    assert_eq!(cpu.registers.a, 0x42);
    cpu.step(&mut bus).unwrap();
    assert_eq!(cpu.registers.program_counter, 0x103);
    cpu.step(&mut bus).unwrap();
    assert_eq!(cpu.registers.program_counter, 0x106);
    assert_eq!(cpu.registers.get_bc(), 0x1234);
    let r = cpu.step(&mut bus).unwrap();
    assert_eq!(cpu.registers.program_counter, 0x200);
    assert_eq!(r.0, 4);
}

#[test]
fn ly_and_stat_track_the_ppu() {
    // JR -2: spin forever.
    let mut hardware = Hardware::new(Cartridge::from_data(rom_with(&[0x18, 0xfe], 0, 2), None).unwrap());
    let frame = hardware.run().unwrap();
    assert_eq!(frame.len(), 160 * 144);
    assert_eq!(hardware.memory_bus.read(0xff44), hardware.ppu.scanline);
    let mode = match hardware.ppu.mode {
        PpuMode::HBlank => 0,
        PpuMode::VBlank => 1,
        PpuMode::OamSearch => 2,
        PpuMode::PixelTransfer => 3,
    };
    assert_eq!(hardware.memory_bus.read(0xff41) & 3, mode);
    assert_eq!(hardware.ppu.scanline, 144);
}

#[test]
fn interrupt_registers_on_the_bus() {
    let mut bus = bus_with(&[]);
    bus.write(0xffff, 0x15);
    bus.write(0xff0f, 0x0a);
    assert_eq!(bus.read(0xffff), 0x15);
    assert_eq!(bus.read(0xff0f) & 0x1f, 0x0a);
}

#[test]
fn echo_ram_mirrors_work_ram() {
    let mut bus = bus_with(&[]);
    bus.write(0xc123, 0x42);
    assert_eq!(bus.read(0xe123), 0x42);
    bus.write(0xe456, 0x99);
    assert_eq!(bus.read(0xc456), 0x99);
    assert_eq!(bus.read(0xfdff), bus.read(0xddff));
}

#[test]
fn interrupt_dispatch() {
    let mut bus = bus_with(&[0x00]);
    let mut cpu = Cpu::new();
    cpu.ime = true;
    bus.write(0xffff, 0x05);
    bus.write(0xff0f, 0x04);
    let r = cpu.step(&mut bus).unwrap();
    assert_eq!(r, (3, false));
    assert!(!cpu.ime);
    assert_eq!(cpu.registers.program_counter, 0x50);
    assert_eq!(bus.read(0xff0f) & 0x04, 0);
    assert_eq!(bus.read16(cpu.registers.stack_pointer), 0x0100);
}

#[test]
fn interrupt_priority_prefers_vblank() {
    let mut bus = bus_with(&[0x00]);
    let mut cpu = Cpu::new();
    cpu.ime = true;
    bus.write(0xffff, 0x1f);
    bus.write(0xff0f, 0x11);
    cpu.step(&mut bus).unwrap();
    assert_eq!(cpu.registers.program_counter, 0x40);
    assert_eq!(bus.read(0xff0f), 0x10);
}

#[test]
fn halt_wakes_without_dispatch_when_ime_off() {
    let mut bus = bus_with(&[0x76, 0x00]);
    let mut cpu = Cpu::new();
    assert_eq!(cpu.step(&mut bus).unwrap(), (1, true));
    assert_eq!(cpu.step(&mut bus).unwrap(), (1, true));
    bus.write(0xffff, 0x01);
    bus.write(0xff0f, 0x01);
    let r = cpu.step(&mut bus).unwrap();
    assert_eq!(r, (1, false));
    assert_eq!(cpu.registers.program_counter, 0x102);
}

#[test]
fn ei_takes_effect_after_next_instruction() {
    let mut bus = bus_with(&[0xfb, 0x00, 0x00]);
    let mut cpu = Cpu::new();
    cpu.step(&mut bus).unwrap();
    assert!(!cpu.ime);
    cpu.step(&mut bus).unwrap();
    assert!(cpu.ime);
}

#[test]
fn push_pop_round_trip() {
    // PUSH BC ; LD BC,0x0000 ; POP BC
    let mut bus = bus_with(&[0xc5, 0x01, 0x00, 0x00, 0xc1]);
    let mut cpu = Cpu::new();
    cpu.registers.stack_pointer = 0xdff0;
    cpu.registers.set_bc(0xbeef);
    assert_eq!(cpu.step(&mut bus).unwrap().0, 4);
    cpu.step(&mut bus).unwrap();
    assert_eq!(cpu.registers.get_bc(), 0);
    assert_eq!(cpu.step(&mut bus).unwrap().0, 3);
    assert_eq!(cpu.registers.get_bc(), 0xbeef);
    assert_eq!(cpu.registers.stack_pointer, 0xdff0);
}

#[test]
fn pop_af_zeroes_low_nibble() {
    // POP AF
    let mut bus = bus_with(&[0xf1]);
    let mut cpu = Cpu::new();
    cpu.registers.stack_pointer = 0xc000;
    bus.write16(0xc000, 0x12ff);
    cpu.step(&mut bus).unwrap();
    assert_eq!(cpu.registers.get_af(), 0x12f0);
}

#[test]
fn af_round_trip() {
    let mut cpu = Cpu::new();
    let before = cpu.registers;
    let af = cpu.registers.get_af();
    cpu.registers.set_af(af);
    assert_eq!(cpu.registers, before);
    cpu.registers.set_af(0xabcd);
    assert_eq!(cpu.registers.get_af(), 0xabc0);
}

#[test]
fn div_counts_every_64_cycles() {
    let mut bus = bus_with(&[]);
    bus.write(0xff04, 0x77);
    assert_eq!(bus.read(0xff04), 0);
    for c in [1u8, 2, 3, 4, 6, 4, 4, 2, 3, 5, 6, 4, 4, 4, 4, 4, 4] {
        bus.timer_step(c);
    }
    assert_eq!(bus.read(0xff04), 1);
    bus.timer_step(63);
    assert_eq!(bus.read(0xff04), 1);
    bus.timer_step(1);
    assert_eq!(bus.read(0xff04), 2);
}

#[test]
fn tima_overflow_reloads_from_tma() {
    let mut bus = bus_with(&[]);
    bus.write(0xff05, 0xff);
    bus.write(0xff06, 0x42);
    bus.write(0xff07, 0x05);
    assert!(bus.timer_step(4));
    assert_eq!(bus.read(0xff05), 0x42);
    assert!(!bus.timer_step(3));
    assert!(!bus.timer_step(1));
    assert_eq!(bus.read(0xff05), 0x43);
}

#[test]
fn cartridge_errors() {
    assert_eq!(Cartridge::from_data(vec![0u8; 0x7000], None).unwrap_err(), CartridgeError::InvalidSize);
    assert_eq!(Cartridge::from_data(vec![0u8; 0x9000], None).unwrap_err(), CartridgeError::InvalidSize);
    assert_eq!(
        Cartridge::from_data(rom_with(&[], 0x05, 2), None).unwrap_err(),
        CartridgeError::InvalidMbcType
    );
    let mut bad_title = rom_with(&[], 0x00, 2);
    bad_title[0x134] = 0xff;
    assert_eq!(Cartridge::from_data(bad_title, None).unwrap_err(), CartridgeError::InvalidTitle);
}

#[test]
fn cartridge_title_is_trimmed() {
    let cart = Cartridge::from_data(rom_with(&[], 0x00, 2), None).unwrap();
    assert_eq!(cart.header.title, "TEST");
    let mut rom = rom_with(&[], 0x00, 2);
    rom[0x134..0x136].copy_from_slice(&[0xc3, 0xa9]);
    rom[0x136..0x13c].copy_from_slice(b"cole\0\0");
    rom[0x14b] = 0x33;
    rom[0x13c..0x13f].copy_from_slice(b"XYZ");
    let cart = Cartridge::from_data(rom, None).unwrap();
    assert_eq!(cart.header.title, "écoleXYZ".replace("XYZ", "\0\0XYZ"));
}

#[test]
fn mbc1_bank_switching() {
    let mut rom = rom_with(&[], 0x01, 4);
    for bank in 0..4 {
        rom[bank * 0x4000 + 0x10] = bank as u8;
    }
    let mut bus = Memory::new(Cartridge::from_data(rom, None).unwrap());
    assert_eq!(bus.read(0x4010), 1);
    bus.write(0x2000, 2);
    assert_eq!(bus.read(0x4010), 2);
    bus.write(0x2000, 0);
    assert_eq!(bus.read(0x4010), 1);
    bus.write(0x2000, 0x23);
    assert_eq!(bus.read(0x4010), 3);
    bus.write(0x2000, 0x1f);
    assert_eq!(bus.read(0x4010), 3);
    assert_eq!(bus.read(0x0010), 0);
}

#[test]
fn mbc3_ram_banks_and_save_request() {
    let mut saved = vec![0u8; 0x8000];
    saved[0x2000] = 0x5a;
    let cart = Cartridge::from_data(rom_with(&[], 0x13, 2), Some(saved)).unwrap();
    let mut bus = Memory::new(cart);
    assert_eq!(bus.read(0xa000), 0);
    bus.write(0x4000, 1);
    assert_eq!(bus.read(0xa000), 0x5a);
    bus.write(0xa001, 0x77);
    assert!(!bus.save_requested);
    bus.write(0x6000, 0);
    assert!(!bus.save_requested);
    bus.write(0x6000, 1);
    assert!(bus.take_save_request());
    assert_eq!(bus.cartridge.battery_ram().unwrap()[0x2001], 0x77);
    let short = Cartridge::from_data(rom_with(&[], 0x13, 2), Some(vec![1u8; 10])).unwrap();
    assert_eq!(short.battery_ram().unwrap().len(), 0x8000);
    assert_eq!(short.battery_ram().unwrap()[0], 0);
}

#[test]
fn joypad_reports_selected_group() {
    let mut bus = bus_with(&[]);
    let mut joypad = JoypadState::new();
    bus.write(0xff00, 0x10);
    joypad.update_keys_status(&mut bus);
    assert_eq!(bus.read(0xff00) & 0x0f, 0x0f);
    joypad.set_key_pressed(JoypadKey::A);
    joypad.set_key_pressed(JoypadKey::Down);
    joypad.update_keys_status(&mut bus);
    assert_eq!(bus.read(0xff00) & 0x0f, 0x0e);
    assert_eq!(bus.read(0xff0f) & 0x10, 0x10);
    bus.write(0xff00, 0x20);
    joypad.update_keys_status(&mut bus);
    assert_eq!(bus.read(0xff00) & 0x0f, 0x07);
    joypad.set_key_released(JoypadKey::Down);
    joypad.update_keys_status(&mut bus);
    assert_eq!(bus.read(0xff00) & 0x0f, 0x0f);
    assert_eq!(bus.read(0xff00) & 0xf0, 0xe0);
}

#[test]
fn faults_stop_the_cpu() {
    let mut bus = bus_with(&[0xd3]);
    let mut cpu = Cpu::new();
    assert_eq!(cpu.step(&mut bus), Err(CpuFault::UnknownOpcode(0xd3)));
    let mut bus = bus_with(&[0x10]);
    assert_eq!(cpu.step(&mut bus), Err(CpuFault::Stop));
}

#[test]
fn decoding() {
    assert_eq!(Instruction::from_byte(0x09, false), Some(Instruction::Add16(ArithmeticTarget16::BC)));
    assert_eq!(Instruction::from_byte(0xd3, false), None);
    assert_eq!(Instruction::from_byte(0xfd, false), None);
    assert_eq!(
        Instruction::from_byte(0x7c, true),
        Some(Instruction::TestBit(BitOpTarget::Bit7, ByteArithmeticTarget::H))
    );
    let illegal = (0..=255u8).filter(|b| Instruction::from_byte(*b, false).is_none()).count();
    assert_eq!(illegal, 11);
}

#[test]
fn cb_prefixed_swap_and_bit() {
    // SWAP A ; BIT 7,A
    let mut bus = bus_with(&[0xcb, 0x37, 0xcb, 0x7f]);
    let mut cpu = Cpu::new();
    cpu.registers.a = 0xf1;
    assert_eq!(cpu.step(&mut bus).unwrap().0, 2);
    assert_eq!(cpu.registers.a, 0x1f);
    assert!(!cpu.registers.f.carry);
    cpu.step(&mut bus).unwrap();
    assert!(cpu.registers.f.zero);
    assert!(cpu.registers.f.half_carry);
    assert_eq!(cpu.registers.program_counter, 0x104);
}

#[test]
fn subtract_and_compare_flags() {
    // SUB B ; CP 0x10
    let mut bus = bus_with(&[0x90, 0xfe, 0x10]);
    let mut cpu = Cpu::new();
    cpu.registers.a = 0x10;
    cpu.registers.b = 0x01;
    cpu.step(&mut bus).unwrap();
    assert_eq!(cpu.registers.a, 0x0f);
    assert!(cpu.registers.f.subtract);
    assert!(cpu.registers.f.half_carry);
    assert!(!cpu.registers.f.carry);
    cpu.step(&mut bus).unwrap();
    assert_eq!(cpu.registers.a, 0x0f);
    assert!(cpu.registers.f.carry);
    assert!(!cpu.registers.f.zero);
}

#[test]
fn add_sp_offset_flags() {
    // ADD SP,-1
    let mut bus = bus_with(&[0xe8, 0xff]);
    let mut cpu = Cpu::new();
    cpu.registers.stack_pointer = 0x0001;
    cpu.step(&mut bus).unwrap();
    assert_eq!(cpu.registers.stack_pointer, 0x0000);
    assert!(cpu.registers.f.half_carry);
    assert!(cpu.registers.f.carry);
    assert!(!cpu.registers.f.zero);
}

#[test]
fn background_pixel_is_drawn() {
    let mut bus = bus_with(&[]);
    bus.write(0xff40, 0x91);
    bus.write(0xff47, 0xe4);
    bus.write(0x8000, 0xff);
    bus.write(0x8001, 0x00);
    let mut ppu = Ppu::new();
    ppu.render_line(&bus);
    assert_eq!(ppu.buffer[0], Color::LightGray);
    assert_eq!(ppu.buffer[7], Color::LightGray);
    assert_eq!(ppu.buffer[160], Color::White);
}

#[test]
fn sprite_over_background() {
    let mut bus = bus_with(&[]);
    bus.write(0xff40, 0x93);
    bus.write(0xff47, 0xe4);
    bus.write(0xff48, 0xe4);
    // Tile 1: row 0 all color 3.
    bus.write(0x8010, 0xff);
    bus.write(0x8011, 0xff);
    // Sprite 0 at screen (4, 0) with tile 1.
    bus.write(0xfe00, 16);
    bus.write(0xfe01, 12);
    bus.write(0xfe02, 1);
    bus.write(0xfe03, 0);
    let mut ppu = Ppu::new();
    ppu.render_line(&bus);
    assert_eq!(ppu.buffer[3], Color::White);
    assert_eq!(ppu.buffer[4], Color::Black);
    assert_eq!(ppu.buffer[11], Color::Black);
    assert_eq!(ppu.buffer[12], Color::White);
}

#[test]
fn save_request_hands_out_battery_ram() {
    let cart = Cartridge::from_data(rom_with(&[], 0x13, 2), None).unwrap();
    let mut hardware = Hardware::new(cart);
    assert!(hardware.take_save_request().is_none());
    hardware.memory_bus.write(0xa003, 0x42);
    hardware.memory_bus.write(0x6000, 1);
    let ram = hardware.take_save_request().unwrap();
    assert_eq!(ram.len(), 0x8000);
    assert_eq!(ram[3], 0x42);
    assert!(hardware.take_save_request().is_none());
    let plain = Cartridge::from_data(rom_with(&[], 0x00, 2), None).unwrap();
    let mut hardware = Hardware::new(plain);
    hardware.memory_bus.write(0x6000, 1);
    assert!(hardware.take_save_request().is_none());
}

#[test]
fn joyp_high_bits_read_as_one() {
    let mut bus = bus_with(&[]);
    bus.write(0xff00, 0x00);
    assert_eq!(bus.read(0xff00) & 0xc0, 0xc0);
    assert_eq!(bus.read(0xff00) & 0x30, 0x00);
    let mut joypad = JoypadState::new();
    joypad.set_key_pressed(JoypadKey::Start);
    joypad.update_keys_status(&mut bus);
    assert_eq!(bus.read(0xff00), 0xc7);
}

#[test]
fn stat_update_keeps_source_bits() {
    let mut bus = bus_with(&[]);
    bus.write(0xff41, 0x78);
    bus.write(0xff45, 0);
    let ppu = Ppu::new();
    ppu.update_memory(&mut bus);
    assert_eq!(bus.read(0xff41), 0x78 | 0x04 | 0x02);
    assert_eq!(bus.read(0xff44), 0);
}

#[test]
fn fault_leaves_bus_and_registers() {
    let mut bus = bus_with(&[0xdd]);
    let mut cpu = Cpu::new();
    let before = cpu;
    assert_eq!(cpu.step(&mut bus), Err(CpuFault::UnknownOpcode(0xdd)));
    assert_eq!(cpu, before);
    let mut hardware = Hardware::new(Cartridge::from_data(rom_with(&[0x10], 0, 2), None).unwrap());
    assert_eq!(hardware.run(), Err(CpuFault::Stop));
}

#[test]
fn zipper_selects_and_changes_item() {
    assert!(Zipper::<u8>::new(vec![]).is_none());
    assert!(Zipper::new_with_index(vec![1u8, 2], 2).is_none());
    let mut z = Zipper::new_with_index(vec![1u8, 2, 3], 1).unwrap();
    assert_eq!(*z.get(), 2);
    *z.get_mut() = 9;
    assert_eq!(*z.get(), 9);
    assert_eq!(z.items, vec![1, 9, 3]);
}

#[test]
fn sprite_color_applies_flips() {
    let mut data = [0u8; 16];
    data[0] = 0x80; // row 0, column 0: color 1
    let tile = Tile { data }.to_tile_with_colors(&Palette::from_u8(0xe4, PaletteType::Sprite));
    let plain = Sprite::new_from_bytes([16, 8, 0, 0x00]);
    assert_eq!(plain.get_color(&tile, 0, 0), Color::LightGray);
    assert_eq!(plain.get_color(&tile, 7, 7), Color::White);
    let flipped = Sprite::new_from_bytes([16, 8, 0, 0x60]);
    assert_eq!(flipped.get_color(&tile, 7, 7), Color::LightGray);
    assert_eq!(flipped.get_color(&tile, 0, 0), Color::White);
}

#[test]
fn joypad_both_groups_selected_shows_actions() {
    let mut bus = bus_with(&[]);
    let mut joypad = JoypadState::new();
    bus.write(0xff00, 0x00);
    joypad.set_key_pressed(JoypadKey::Right);
    joypad.update_keys_status(&mut bus);
    assert_eq!(bus.read(0xff00) & 0x0f, 0x0f);
    joypad.set_key_pressed(JoypadKey::A);
    joypad.update_keys_status(&mut bus);
    assert_eq!(bus.read(0xff00) & 0x0f, 0x0e);
    bus.write(0xff00, 0x30);
    joypad.update_keys_status(&mut bus);
    assert_eq!(bus.read(0xff00) & 0x0f, 0x0f);
}

#[test]
fn mbc3_ram_bank_saturates() {
    let mut saved = vec![0u8; 0x8000];
    saved[0x6000] = 0x33;
    let cart = Cartridge::from_data(rom_with(&[], 0x13, 2), Some(saved)).unwrap();
    let mut bus = Memory::new(cart);
    bus.write(0x4000, 9);
    assert_eq!(bus.read(0xa000), 0x33);
}

#[test]
fn lcd_control_round_trip() {
    for v in [0x00u8, 0x91, 0xe3, 0xff, 0x04] {
        assert_eq!(LcdControl::from_byte(v).to_byte(), v);
    }
}
