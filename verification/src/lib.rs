//! A cycle-approximate emulator core for an 8-bit handheld console built
//! around a Sharp LR35902-compatible CPU.
//!
//! The crate holds the machine itself: the CPU instruction decoder with its
//! cycle accounting, the memory-mapped I/O unit with cartridge bank switching
//! and OAM DMA, the scanline-driven pixel pipeline, the timer and interrupt
//! controller, the joypad register, and the integer decision logic of the
//! audio channels.  Host presentation (window, audio device, key events,
//! file loading) stays outside and talks to the core through plain values.

pub mod alu;
pub mod apu;
pub mod bits;
pub mod cpu;
pub mod cpu_exec;
pub mod input;
pub mod interrupts;
pub mod laws;
pub mod media;
pub mod mmu;
pub mod ppu;
pub mod timer;
