//! A cycle-stepped model of an 8-bit cartridge console: CPU, picture unit,
//! memory bus, cartridge mappers, sprite DMA and joypad, with every step
//! specified as a function on the machine state and proved against it.

pub mod bits;
pub mod board;
pub mod bus;
pub mod cartridge;
pub mod controller;
pub mod cpu;
pub mod dma;
pub mod mappers;
pub mod nes;
pub mod ppu;
pub mod ram;
pub mod texture;

pub use bus::Addressable;
pub use nes::Nes;
pub use ppu::render::{DISPLAY_HEIGHT, DISPLAY_WIDTH};
pub use ppu::Ppu;
