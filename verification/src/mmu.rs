//! The memory bus: a synchronous 16-bit address space with region-based
//! dispatch to the cartridge ROM, the boot ROM overlay, work RAM, high RAM,
//! the picture processor's VRAM, and a few live I/O registers.
//!
//! Reads are total: unmapped regions read as zero and writes to them are
//! discarded.  Word access is little-endian, one byte dispatch per address.
//! The bus also owns the interrupt request and enable masks and, on `step`,
//! latches the picture processor's vertical-blank edge into the request
//! mask.

use vstd::pervasive::VecAdditionalExecFns;
use vstd::prelude::*;

use crate::gpu::{Gpu, GpuView};
use crate::registers::wrap16;

verus! {

/// An interrupt kind.  The request/enable bit of a kind is `1 << bit()` and
/// its service vector is `vector()`.
#[derive(PartialEq, Eq, Copy, Clone, Debug, Structural)]
pub enum Interrupt {
    VBlank,
    Timer,
    Serial,
    LcdStat,
    Joypad,
}

impl Interrupt {
    /// The kind's position in the IE and IF masks.
    pub open spec fn spec_bit(self) -> u8 {
        match self {
            Interrupt::VBlank => 0,
            Interrupt::LcdStat => 1,
            Interrupt::Timer => 2,
            Interrupt::Serial => 3,
            Interrupt::Joypad => 4,
        }
    }

    /// The kind's bit in the IE and IF masks.
    pub open spec fn spec_mask(self) -> u8 {
        match self {
            Interrupt::VBlank => 0x01,
            Interrupt::LcdStat => 0x02,
            Interrupt::Timer => 0x04,
            Interrupt::Serial => 0x08,
            Interrupt::Joypad => 0x10,
        }
    }

    /// The kind's fixed service vector.
    pub open spec fn spec_vector(self) -> u16 {
        match self {
            Interrupt::VBlank => 0x40,
            Interrupt::LcdStat => 0x48,
            Interrupt::Timer => 0x50,
            Interrupt::Serial => 0x58,
            Interrupt::Joypad => 0x60,
        }
    }

    pub fn mask(self) -> (r: u8)
        ensures
            r == self.spec_mask(),
    {
        match self {
            Interrupt::VBlank => 0x01,
            Interrupt::LcdStat => 0x02,
            Interrupt::Timer => 0x04,
            Interrupt::Serial => 0x08,
            Interrupt::Joypad => 0x10,
        }
    }

    pub fn vector(self) -> (r: u16)
        ensures
            r == self.spec_vector(),
    {
        match self {
            Interrupt::VBlank => 0x40,
            Interrupt::LcdStat => 0x48,
            Interrupt::Timer => 0x50,
            Interrupt::Serial => 0x58,
            Interrupt::Joypad => 0x60,
        }
    }
}

/// Mathematical model of the bus.
pub ghost struct MemView {
    /// The boot ROM overlay shadows addresses below 0x100 until the first
    /// write to 0xFF50.
    pub in_bios: bool,
    /// IF: the interrupt request mask.
    pub iflag: u8,
    /// IE: the interrupt enable mask.
    pub ienable: u8,
    pub rom: Seq<u8>,
    pub wram: Seq<u8>,
    pub hram: Seq<u8>,
    pub boot: Seq<u8>,
    pub gpu: GpuView,
}

impl MemView {
    pub open spec fn wf(self) -> bool {
        &&& self.wram.len() == 0x2000
        &&& self.hram.len() == 0x7F
        &&& self.boot.len() == 0x100
        &&& self.gpu.wf()
    }

    /// Region dispatch for one byte read.
    pub open spec fn spec_read_byte(self, addr: u16) -> u8 {
        if addr < 0x100 && self.in_bios {
            self.boot[addr as int]
        } else if addr < 0x8000 {
            if addr < self.rom.len() {
                self.rom[addr as int]
            } else {
                0
            }
        } else if addr < 0xA000 {
            self.gpu.vram[addr - 0x8000]
        } else if addr < 0xC000 {
            0
        } else if addr < 0xE000 {
            self.wram[addr - 0xC000]
        } else if addr < 0xFE00 {
            0
        } else if addr < 0xFEA0 {
            0
        } else if 0xFF00 <= addr && addr <= 0xFF4B {
            if addr == 0xFF44 {
                self.gpu.line
            } else {
                0
            }
        } else if 0xFF80 <= addr && addr <= 0xFFFE {
            self.hram[addr - 0xFF80]
        } else {
            0
        }
    }

    /// Region dispatch for one byte write.  ROM, echo RAM, OAM and unmapped
    /// regions discard the byte; 0xFF40 latches the LCD control into the
    /// picture processor; 0xFF50 clears the boot ROM overlay permanently.
    pub open spec fn spec_write_byte(self, addr: u16, v: u8) -> MemView {
        if addr < 0x8000 {
            self
        } else if addr < 0xA000 {
            MemView {
                gpu: GpuView { vram: self.gpu.vram.update(addr - 0x8000, v), ..self.gpu },
                ..self
            }
        } else if addr < 0xC000 {
            self
        } else if addr < 0xE000 {
            MemView { wram: self.wram.update(addr - 0xC000, v), ..self }
        } else if addr < 0xFEA0 {
            self
        } else if addr == 0xFF40 {
            MemView { gpu: GpuView { enabled: v & 0x80 != 0, ..self.gpu }, ..self }
        } else if 0xFF00 <= addr && addr <= 0xFF4B {
            self
        } else if addr == 0xFF50 {
            MemView { in_bios: false, ..self }
        } else if 0xFF80 <= addr && addr <= 0xFFFE {
            MemView { hram: self.hram.update(addr - 0xFF80, v), ..self }
        } else {
            self
        }
    }

    /// Little-endian word read: low byte at `addr`, high byte at the next
    /// address, each dispatched to its own region.
    pub open spec fn spec_read_word(self, addr: u16) -> u16 {
        (self.spec_read_byte(addr) + self.spec_read_byte(wrap16(addr + 1)) * 256) as u16
    }

    /// Little-endian word write: low byte at `addr`, high byte at the next
    /// address.
    pub open spec fn spec_write_word(self, addr: u16, w: u16) -> MemView {
        self.spec_write_byte(addr, (w % 256) as u8).spec_write_byte(
            wrap16(addr + 1),
            (w / 256) as u8,
        )
    }

    /// The writable RAM regions: VRAM, work RAM and high RAM.  A byte
    /// written there reads back unchanged.
    pub open spec fn spec_writable_ram(addr: u16) -> bool {
        ||| 0x8000 <= addr < 0xA000
        ||| 0xC000 <= addr < 0xE000
        ||| 0xFF80 <= addr <= 0xFFFE
    }
}

/// A byte written to writable RAM reads back unchanged.
pub proof fn lemma_read_after_write(m: MemView, addr: u16, v: u8)
    requires
        m.wf(),
        MemView::spec_writable_ram(addr),
    ensures
        m.spec_write_byte(addr, v).spec_read_byte(addr) == v,
{
}

/// A write to writable RAM leaves every other address unchanged.
pub proof fn lemma_write_frame(m: MemView, addr: u16, v: u8, other: u16)
    requires
        m.wf(),
        MemView::spec_writable_ram(addr),
        other != addr,
    ensures
        m.spec_write_byte(addr, v).spec_read_byte(other) == m.spec_read_byte(other),
{
}

/// Word round trip: for an address pair inside writable RAM, a word written
/// there reads back unchanged.
pub proof fn lemma_word_round_trip(m: MemView, addr: u16, w: u16)
    requires
        m.wf(),
        MemView::spec_writable_ram(addr),
        MemView::spec_writable_ram(wrap16(addr + 1)),
    ensures
        m.spec_write_word(addr, w).spec_read_word(addr) == w,
{
    let lo = (w % 256) as u8;
    let hi = (w / 256) as u8;
    let next = wrap16(addr + 1);
    let m1 = m.spec_write_byte(addr, lo);
    let m2 = m1.spec_write_byte(next, hi);
    assert(next != addr);
    lemma_read_after_write(m, addr, lo);
    lemma_write_frame(m1, next, hi, addr);
    lemma_read_after_write(m1, next, hi);
    assert(m2.spec_read_byte(addr) == lo);
    assert(m2.spec_read_byte(next) == hi);
}

/// The memory bus.  It owns the picture processor so that reads and writes
/// in the VRAM and I/O regions can be delegated to it.
pub struct Memory {
    pub in_bios: bool,
    /// IF: the interrupt request mask.
    pub interrupts: u8,
    /// IE: the interrupt enable mask; all five kinds enabled in this core.
    pub interrupt_enable: u8,
    pub rom: Vec<u8>,
    pub wram: Vec<u8>,
    pub hram: Vec<u8>,
    pub boot: Vec<u8>,
    pub gpu: Gpu,
}

impl View for Memory {
    type V = MemView;

    open spec fn view(&self) -> MemView {
        MemView {
            in_bios: self.in_bios,
            iflag: self.interrupts,
            ienable: self.interrupt_enable,
            rom: self.rom@,
            wram: self.wram@,
            hram: self.hram@,
            boot: self.boot@,
            gpu: self.gpu@,
        }
    }
}

/// A vector of `len` zero bytes.
fn zeroed_vec(len: usize) -> (r: Vec<u8>)
    ensures
        r@.len() == len,
        forall|i: int| 0 <= i < len ==> r@[i] == 0,
{
    let mut v: Vec<u8> = Vec::new();
    let mut i: usize = 0;
    while i < len
        invariant
            i <= len,
            v@.len() == i,
            forall|j: int| 0 <= j < i ==> v@[j] == 0,
        decreases len - i,
    {
        v.push(0);
        i = i + 1;
    }
    v
}

impl Memory {
    /// A fresh bus around the given picture processor: boot ROM overlay
    /// active, no requests pending, every interrupt kind enabled, all RAM
    /// zeroed, no cartridge loaded.  The boot ROM ships as 256 zero bytes.
    pub fn new(gpu: Gpu) -> (r: Memory)
        requires
            gpu@.wf(),
        ensures
            r@.wf(),
            r@ == (MemView {
                in_bios: true,
                iflag: 0u8,
                ienable: 0x1Fu8,
                rom: Seq::<u8>::empty(),
                wram: r@.wram,
                hram: r@.hram,
                boot: r@.boot,
                gpu: gpu@,
            }),
            forall|i: int| 0 <= i < 0x2000 ==> r@.wram[i] == 0,
            forall|i: int| 0 <= i < 0x7F ==> r@.hram[i] == 0,
            forall|i: int| 0 <= i < 0x100 ==> r@.boot[i] == 0,
    {
        let r = Memory {
            in_bios: true,
            interrupts: 0,
            interrupt_enable: 0x1F,
            rom: Vec::new(),
            wram: zeroed_vec(0x2000),
            hram: zeroed_vec(0x7F),
            boot: zeroed_vec(0x100),
            gpu,
        };
        proof {
            assert(r@.rom =~= Seq::<u8>::empty());
        }
        r
    }

    /// Replaces the cartridge ROM backing store.
    pub fn load_rom(&mut self, bytes: Vec<u8>)
        ensures
            *final(self) == (Memory { rom: final(self).rom, ..*old(self) }),
            final(self)@.rom == bytes@,
    {
        self.rom = bytes;
    }

    /// Reads one byte, dispatched by region.
    pub fn read_byte(&self, addr: u16) -> (r: u8)
        requires
            self@.wf(),
        ensures
            r == self@.spec_read_byte(addr),
    {
        if addr < 0x100 && self.in_bios {
            self.boot[addr as usize]
        } else if addr < 0x8000 {
            if (addr as usize) < self.rom.len() {
                self.rom[addr as usize]
            } else {
                0
            }
        } else if addr < 0xA000 {
            self.gpu.vram[(addr - 0x8000) as usize]
        } else if addr < 0xC000 {
            0
        } else if addr < 0xE000 {
            self.wram[(addr - 0xC000) as usize]
        } else if addr < 0xFE00 {
            0
        } else if addr < 0xFEA0 {
            0
        } else if 0xFF00 <= addr && addr <= 0xFF4B {
            if addr == 0xFF44 {
                self.gpu.line
            } else {
                0
            }
        } else if 0xFF80 <= addr && addr <= 0xFFFE {
            self.hram[(addr - 0xFF80) as usize]
        } else {
            0
        }
    }

    /// Writes one byte, dispatched by region; unmapped and read-only
    /// regions discard it.
    pub fn write_byte(&mut self, addr: u16, value: u8)
        requires
            old(self)@.wf(),
        ensures
            final(self)@.wf(),
            final(self)@ == old(self)@.spec_write_byte(addr, value),
    {
        if addr < 0x8000 {
        } else if addr < 0xA000 {
            self.gpu.vram.set((addr - 0x8000) as usize, value);
        } else if addr < 0xC000 {
        } else if addr < 0xE000 {
            self.wram.set((addr - 0xC000) as usize, value);
        } else if addr < 0xFEA0 {
        } else if addr == 0xFF40 {
            self.gpu.set_lcd_control(value);
        } else if 0xFF00 <= addr && addr <= 0xFF4B {
        } else if addr == 0xFF50 {
            self.in_bios = false;
        } else if 0xFF80 <= addr && addr <= 0xFFFE {
            self.hram.set((addr - 0xFF80) as usize, value);
        } else {
        }
    }

    /// Little-endian word read: low byte at `addr`, high byte at the next
    /// address.
    pub fn read_word(&self, addr: u16) -> (r: u16)
        requires
            self@.wf(),
        ensures
            r == self@.spec_read_word(addr),
    {
        let lo = self.read_byte(addr);
        let hi = self.read_byte(addr.wrapping_add(1));
        (lo as u16) + (hi as u16) * 256
    }

    /// Little-endian word write: low byte at `addr`, high byte at the next
    /// address.
    pub fn write_word(&mut self, addr: u16, value: u16)
        requires
            old(self)@.wf(),
        ensures
            final(self)@.wf(),
            final(self)@ == old(self)@.spec_write_word(addr, value),
    {
        self.write_byte(addr, (value % 256) as u8);
        self.write_byte(addr.wrapping_add(1), (value / 256) as u8);
    }

    /// Sets or clears the request bit of an interrupt kind.
    pub fn set_interrupt(&mut self, interrupt: Interrupt, value: bool)
        ensures
            *final(self) == (Memory {
                interrupts: if value {
                    old(self).interrupts | interrupt.spec_mask()
                } else {
                    old(self).interrupts & !interrupt.spec_mask()
                },
                ..*old(self)
            }),
    {
        let mask = interrupt.mask();
        if value {
            self.interrupts = self.interrupts | mask;
        } else {
            self.interrupts = self.interrupts & !mask;
        }
    }

    /// Polled once per tick: observes the picture processor's vertical-blank
    /// edge, clears it, and requests a vertical-blank interrupt.
    pub fn step(&mut self)
        ensures
            *final(self) == if old(self).gpu.vblank_interrupt {
                (Memory {
                    interrupts: old(self).interrupts | 0x01u8,
                    gpu: final(self).gpu,
                    ..*old(self)
                })
            } else {
                *old(self)
            },
            final(self).gpu == if old(self).gpu.vblank_interrupt {
                (Gpu { vblank_interrupt: false, ..old(self).gpu })
            } else {
                old(self).gpu
            },
    {
        if self.gpu.vblank_interrupt {
            self.gpu.vblank_interrupt = false;
            self.set_interrupt(Interrupt::VBlank, true);
        }
    }
}

/// The narrow interface through which the CPU reaches the bus.
pub trait MemoryInterface {
    /// The model of the bus that the contracts below speak of.
    spec fn mem_view(&self) -> MemView;

    fn read_byte(&self, addr: u16) -> (r: u8)
        requires
            self.mem_view().wf(),
        ensures
            r == self.mem_view().spec_read_byte(addr),
    ;

    fn read_word(&self, addr: u16) -> (r: u16)
        requires
            self.mem_view().wf(),
        ensures
            r == self.mem_view().spec_read_word(addr),
    ;

    fn write_byte(&mut self, addr: u16, value: u8)
        requires
            old(self).mem_view().wf(),
        ensures
            final(self).mem_view().wf(),
            final(self).mem_view() == old(self).mem_view().spec_write_byte(addr, value),
    ;

    fn write_word(&mut self, addr: u16, value: u16)
        requires
            old(self).mem_view().wf(),
        ensures
            final(self).mem_view().wf(),
            final(self).mem_view() == old(self).mem_view().spec_write_word(addr, value),
    ;
}

impl MemoryInterface for Memory {
    open spec fn mem_view(&self) -> MemView {
        self@
    }

    fn read_byte(&self, addr: u16) -> (r: u8) {
        Memory::read_byte(self, addr)
    }

    fn read_word(&self, addr: u16) -> (r: u16) {
        Memory::read_word(self, addr)
    }

    fn write_byte(&mut self, addr: u16, value: u8) {
        Memory::write_byte(self, addr, value);
    }

    fn write_word(&mut self, addr: u16, value: u16) {
        Memory::write_word(self, addr, value);
    }
}

} // verus!
