//! Core of an emulator for an 8-bit handheld console built around an
//! LR35902-family CPU with a tile-based picture processor.
//!
//! The crate holds the three cycle-coupled components of the machine: the
//! register file and instruction interpreter (`cpu`), the memory bus with its
//! region dispatch (`mmu`), and the picture processor's mode-cycle state
//! machine (`gpu`).  A host driver repeatedly calls `CPU::step`, feeds the
//! reported cycle count to `Gpu::step`, and then runs `Memory::step` to latch
//! the picture processor's vertical-blank edge into the interrupt flags.

pub mod alu;
pub mod cpu;
pub mod cpu_alu;
pub mod cpu_bits;
pub mod cpu_flow;
pub mod cpu_laws;
pub mod cpu_step;
pub mod cpu_load;
pub mod gpu;
pub mod gpu_laws;
pub mod mmu;
pub mod registers;
