//! The memory bus's region dispatch, the register file's word views, and
//! interrupt latching and service.

use lr35902_core::cpu::CPU;
use lr35902_core::gpu::Gpu;
use lr35902_core::mmu::{Interrupt, Memory};
use lr35902_core::registers::{Registers, WordRegister};

fn fresh_memory() -> Memory {
    Memory::new(Gpu::new())
}

#[test]
fn word_round_trip_in_writable_ram() {
    let mut mem = fresh_memory();
    for addr in [0x8000u16, 0x9FFE, 0xC000, 0xDFFE, 0xFF80, 0xFFFC] {
        mem.write_word(addr, 0xBEEF);
        assert_eq!(mem.read_word(addr), 0xBEEF);
    }
}

#[test]
fn words_are_little_endian() {
    let mut mem = fresh_memory();
    mem.write_word(0xC100, 0x1234);
    assert_eq!(mem.read_byte(0xC100), 0x34);
    assert_eq!(mem.read_byte(0xC101), 0x12);
}

#[test]
fn unmapped_regions_read_zero_and_discard_writes() {
    let mut mem = fresh_memory();
    for addr in [0xA000u16, 0xBFFF, 0xE000, 0xFDFF, 0xFE00, 0xFE9F, 0xFF00, 0xFFFF] {
        mem.write_byte(addr, 0x77);
        assert_eq!(mem.read_byte(addr), 0);
    }
}

#[test]
fn rom_is_read_only() {
    let mut mem = fresh_memory();
    mem.write_byte(0xFF50, 1);
    mem.load_rom(vec![0xAA, 0xBB]);
    mem.write_byte(0x0000, 0x11);
    assert_eq!(mem.read_byte(0x0000), 0xAA);
    assert_eq!(mem.read_byte(0x0001), 0xBB);
    // Beyond the loaded image the window reads zero.
    assert_eq!(mem.read_byte(0x0002), 0x00);
}

#[test]
fn boot_rom_overlay_unmaps_on_ff50() {
    let mut mem = fresh_memory();
    mem.load_rom(vec![0xAA]);
    // The overlay (zero bytes in this core) shadows the cartridge.
    assert_eq!(mem.read_byte(0x0000), 0x00);
    mem.write_byte(0xFF50, 1);
    assert_eq!(mem.read_byte(0x0000), 0xAA);
    // The unmap is permanent.
    mem.write_byte(0xFF50, 0);
    assert_eq!(mem.read_byte(0x0000), 0xAA);
}

#[test]
fn ly_register_reads_scanline() {
    let mut mem = fresh_memory();
    mem.gpu.line = 7;
    assert_eq!(mem.read_byte(0xFF44), 7);
}

#[test]
fn lcdc_write_latches_enable_bit() {
    let mut mem = fresh_memory();
    mem.write_byte(0xFF40, 0x80);
    assert!(mem.gpu.enabled);
    mem.write_byte(0xFF40, 0x7F);
    assert!(!mem.gpu.enabled);
}

#[test]
fn vram_writes_land_in_the_gpu() {
    let mut mem = fresh_memory();
    mem.write_byte(0x9800, 0x5A);
    assert_eq!(mem.gpu.vram[0x1800], 0x5A);
    assert_eq!(mem.read_byte(0x9800), 0x5A);
}

#[test]
fn set_interrupt_drives_request_bits() {
    let mut mem = fresh_memory();
    mem.set_interrupt(Interrupt::Timer, true);
    assert_eq!(mem.interrupts, 0x04);
    mem.set_interrupt(Interrupt::VBlank, true);
    assert_eq!(mem.interrupts, 0x05);
    mem.set_interrupt(Interrupt::Timer, false);
    assert_eq!(mem.interrupts, 0x01);
}

#[test]
fn bus_step_latches_vblank_edge() {
    let mut mem = fresh_memory();
    mem.gpu.vblank_interrupt = true;
    mem.step();
    assert!(!mem.gpu.vblank_interrupt);
    assert_eq!(mem.interrupts & 0x01, 0x01);
    // A second poll without a new edge changes nothing.
    let before = mem.interrupts;
    mem.step();
    assert_eq!(mem.interrupts, before);
}

#[test]
fn interrupt_service_pushes_pc_and_jumps_to_vector() {
    let mut mem = fresh_memory();
    mem.write_byte(0xFF50, 1);
    mem.load_rom(vec![0x00; 0x200]);
    let mut cpu = CPU::new();
    cpu.registers.pc = 0x0123;
    cpu.registers.sp = 0xFFFE;
    mem.set_interrupt(Interrupt::VBlank, true);

    cpu.step(&mut mem);

    assert_eq!(cpu.registers.pc, 0x0040);
    assert_eq!(cpu.registers.sp, 0xFFFC);
    assert_eq!(mem.read_word(0xFFFC), 0x0123);
    assert!(!cpu.interrupts_enabled);
    assert_eq!(mem.interrupts & 0x01, 0);
    assert_eq!(cpu.last_clock.m, 4);
    assert_eq!(cpu.last_clock.t, 16);
}

#[test]
fn masked_interrupt_is_not_serviced() {
    let mut mem = fresh_memory();
    mem.write_byte(0xFF50, 1);
    mem.load_rom(vec![0x00; 4]);
    let mut cpu = CPU::new();
    cpu.interrupts_enabled = false;
    mem.set_interrupt(Interrupt::VBlank, true);

    cpu.step(&mut mem);

    // With IME clear the pending request waits; the NOP at 0x0000 ran.
    assert_eq!(cpu.registers.pc, 0x0001);
    assert_eq!(mem.interrupts & 0x01, 0x01);
}

#[test]
fn reti_restores_ime() {
    // RETI at 0x0000 with a return address planted at the stack top.
    let mut mem = fresh_memory();
    mem.write_byte(0xFF50, 1);
    mem.load_rom(vec![0xD9]);
    let mut cpu = CPU::new();
    cpu.interrupts_enabled = false;
    cpu.registers.sp = 0xFFFC;
    mem.write_word(0xFFFC, 0x0456);

    cpu.step(&mut mem);

    assert!(cpu.interrupts_enabled);
    assert_eq!(cpu.registers.pc, 0x0456);
    assert_eq!(cpu.registers.sp, 0xFFFE);
    // Published cost: RETI is four M-cycles.
    assert_eq!(cpu.last_clock.m, 4);
}

#[test]
fn af_round_trip_masks_low_nibble() {
    let mut regs = Registers::new();
    regs.write_word(WordRegister::AF, 0xABCD);
    assert_eq!(regs.read_word(WordRegister::AF), 0xABC0);
    assert_eq!(regs.a, 0xAB);
    assert!(regs.zero);
    assert!(regs.sub);
    assert!(!regs.half_carry);
    assert!(!regs.carry);
}

#[test]
fn pair_round_trips_are_exact() {
    let mut regs = Registers::new();
    for pair in [WordRegister::BC, WordRegister::DE, WordRegister::HL] {
        regs.write_word(pair, 0x8F21);
        assert_eq!(regs.read_word(pair), 0x8F21);
    }
}

#[test]
fn interrupt_masks_and_vectors() {
    assert_eq!(Interrupt::VBlank.mask(), 0x01);
    assert_eq!(Interrupt::LcdStat.mask(), 0x02);
    assert_eq!(Interrupt::Timer.mask(), 0x04);
    assert_eq!(Interrupt::Serial.mask(), 0x08);
    assert_eq!(Interrupt::Joypad.mask(), 0x10);
    assert_eq!(Interrupt::VBlank.vector(), 0x40);
    assert_eq!(Interrupt::LcdStat.vector(), 0x48);
    assert_eq!(Interrupt::Timer.vector(), 0x50);
    assert_eq!(Interrupt::Serial.vector(), 0x58);
    assert_eq!(Interrupt::Joypad.vector(), 0x60);
}
