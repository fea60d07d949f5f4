//! Emulation core of a handheld 8-bit game console: CPU interpreter with
//! interrupt dispatch, memory map with bank-switching controllers, scanline
//! pixel-processing unit, four-channel audio unit and falling-edge timer,
//! all advancing in lock step with the CPU's instruction cycles.
//!
//! Presentation is the host's concern: windowing, audio output, and debug
//! views such as register printing, memory dumps or waveform plots read the
//! public machine state (`Cpu`, `Mmu`, `Apu::get_apu_state`) from outside.

pub mod apu;
pub mod bits;
pub mod cartridge;
pub mod cpu;
pub mod joypad;
pub mod mmu;
pub mod ppu;
pub mod timer;
