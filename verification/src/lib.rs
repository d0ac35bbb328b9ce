//! Instruction-level emulator core for a handheld 8-bit game console:
//! cartridge-image parsing, the memory-mapped bus, and the processor's
//! fetch-decode-execute engine, with machine-checked contracts.

pub mod cart;
pub mod cpu;
pub mod gui;
pub mod isa;
pub mod mem;

pub use gui::Gui;

pub use cpu::Cpu;
pub use cpu::ExecutionError;
pub use cpu::RegSnapshot;
pub use isa::Instr;

pub use cart::CartType;
pub use cart::LoadError;
pub use cart::Rom;
pub use mem::MemBus;
pub use mem::Vram;
pub use mem::Wram;
