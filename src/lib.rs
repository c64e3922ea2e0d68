//! A hand-held 8-bit console emulator core: CPU interpreter, memory bus with
//! cartridge mappers and I/O registers, timer, joypad and pixel-processing unit,
//! each specified over mathematical models and verified.

pub mod apu;
pub mod bits;
pub mod cartridge;
pub mod cpu;
pub mod hardware;
pub mod joypad;
pub mod lcd;
pub mod memory;
pub mod ppu;
pub mod ram;
pub mod zipper;
