pub mod bits;
pub mod apu;
pub mod bus;
pub mod cartridge;
pub mod mapper;
pub mod ppu;
pub mod nes;
pub mod cpu;
pub mod rom;
