//! Software model of an 8-bit microprocessor with an attached tile/sprite
//! raster display unit.
//!
//! The crate is organised around three cooperating components:
//! - [`cpu`]: the instruction interpreter (registers, flags, opcode dispatch,
//!   addressing-mode resolution);
//! - [`cpu_memory`]: the memory bus that routes every 16-bit address to work
//!   RAM, extended RAM, battery-backed RAM, program ROM or the graphics unit;
//! - [`ppu`]: the graphics unit with its video memory, sprite memory and
//!   MMIO-driven registers and latches.
//!
//! [`rom`] parses cartridge images into the program and character ROM buffers
//! that the bus and the graphics unit consume, and [`opcode`] holds the static
//! dispatch table that maps each instruction byte to its descriptor.
pub mod opcode;
pub mod palette;
pub mod ppu;
pub mod cpu_memory;
pub mod cpu;
pub mod rom;
