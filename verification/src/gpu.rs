//! The picture processor: a cyclic four-state machine clocked by CPU cycles.
//!
//! The processor owns the 8 KiB of video RAM and a 32x32 back buffer that
//! mirrors the background tile map.  `step` consumes a cycle budget, advances
//! the mode counter, and performs at most one mode transition per call; the
//! schedule is ScanOAM (80 T-cycles), ScanVRam (172), HBlank (204), and ten
//! VBlank lines of 456 each.  Completing the first VBlank line raises the
//! one-shot vertical-blank edge that the bus observes and clears.

use vstd::pervasive::VecAdditionalExecFns;
use vstd::prelude::*;

verus! {

/// The four modes of the picture processor's cycle.
#[derive(PartialEq, Eq, Copy, Clone, Debug, Structural)]
pub enum GpuMode {
    HBlank,
    VBlank,
    ScanVRam,
    ScanOAM,
}

/// Mathematical model of the picture processor's state.
pub ghost struct GpuView {
    pub mode: GpuMode,
    pub vram: Seq<u8>,
    pub vblank_interrupt: bool,
    pub clock: u32,
    pub line: u8,
    pub enabled: bool,
    pub back_buffer: Seq<u8>,
}

/// The duration of a mode, in T-cycles.
pub open spec fn mode_duration(m: GpuMode) -> int {
    match m {
        GpuMode::HBlank => 204,
        GpuMode::VBlank => 456,
        GpuMode::ScanOAM => 80,
        GpuMode::ScanVRam => 172,
    }
}

impl GpuView {
    /// Well-formedness: fixed buffer sizes, the mode counter below the
    /// current mode's duration, and the scanline counter within the range
    /// the current mode allows.
    pub open spec fn wf(self) -> bool {
        &&& self.vram.len() == 0x2000
        &&& self.back_buffer.len() == 0x400
        &&& self.clock < mode_duration(self.mode)
        &&& (self.mode is VBlank ==> 143 <= self.line <= 153)
        &&& (!(self.mode is VBlank) ==> self.line <= 142)
    }
}

/// The back buffer after the current scanline is rendered: for rows that fit
/// the 32x32 map, each of the row's 32 cells is copied from the background
/// tile map held at 0x1800 into the back buffer; other rows leave it as is.
pub open spec fn spec_render_line(g: GpuView) -> Seq<u8> {
    if g.line >= 32 {
        g.back_buffer
    } else {
        Seq::new(0x400, |i: int|
            if g.line * 32 <= i < g.line * 32 + 32 {
                g.vram[0x1800 + i]
            } else {
                g.back_buffer[i]
            })
    }
}

/// One call of `Gpu::step` on the model: accumulate the budget, and on
/// reaching the current mode's duration reset the counter and transition.
pub open spec fn spec_gpu_step(g: GpuView, cycles: u32) -> GpuView {
    if !g.enabled {
        g
    } else {
        let c = g.clock + cycles;
        match g.mode {
            GpuMode::HBlank => {
                if c < 204 {
                    GpuView { clock: c as u32, ..g }
                } else if g.line + 1 == 143 {
                    GpuView { clock: 0, line: (g.line + 1) as u8, mode: GpuMode::VBlank, ..g }
                } else {
                    GpuView { clock: 0, line: (g.line + 1) as u8, mode: GpuMode::ScanOAM, ..g }
                }
            },
            GpuMode::VBlank => {
                if c < 456 {
                    GpuView { clock: c as u32, ..g }
                } else {
                    let raised = g.vblank_interrupt || g.line == 143;
                    if g.line + 1 > 153 {
                        GpuView {
                            clock: 0,
                            line: 0,
                            mode: GpuMode::ScanOAM,
                            vblank_interrupt: raised,
                            ..g
                        }
                    } else {
                        GpuView {
                            clock: 0,
                            line: (g.line + 1) as u8,
                            vblank_interrupt: raised,
                            ..g
                        }
                    }
                }
            },
            GpuMode::ScanOAM => {
                if c < 80 {
                    GpuView { clock: c as u32, ..g }
                } else {
                    GpuView { clock: 0, mode: GpuMode::ScanVRam, ..g }
                }
            },
            GpuMode::ScanVRam => {
                if c < 172 {
                    GpuView { clock: c as u32, ..g }
                } else {
                    GpuView {
                        clock: 0,
                        mode: GpuMode::HBlank,
                        back_buffer: spec_render_line(g),
                        ..g
                    }
                }
            },
        }
    }
}

/// The two-bit colour of one pixel of a tile: `row` and `col` within 0..8,
/// low plane byte first, bit 7 leftmost.
pub open spec fn spec_tile_pixel(vram: Seq<u8>, tile: int, row: int, col: int) -> u8 {
    let lo = vram[tile * 16 + row * 2];
    let hi = vram[tile * 16 + row * 2 + 1];
    (((lo >> (7 - col) as u8) % 2) + ((hi >> (7 - col) as u8) % 2) * 2) as u8
}

/// The grey shade of a two-bit colour.
pub open spec fn spec_shade(color: u8) -> u8 {
    if color == 0 {
        230
    } else if color == 1 {
        160
    } else if color == 2 {
        80
    } else {
        0
    }
}

/// One byte of the 256x256 RGB frame: the pixel's tile index comes from the
/// back buffer, its colour from the tile data in VRAM, and all three colour
/// channels carry the same grey shade.
pub open spec fn spec_frame_byte(g: GpuView, i: int) -> u8 {
    let pixel = i / 3;
    let y = pixel / 256;
    let x = pixel % 256;
    let tile = g.back_buffer[(y / 8) * 32 + x / 8];
    spec_shade(spec_tile_pixel(g.vram, tile as int, y % 8, x % 8))
}

/// One byte of the 128x192 RGB tile-sheet view: the first 384 tiles of
/// VRAM laid out sixteen per row, each pixel shaded from its two bit
/// planes.
pub open spec fn spec_tile_sheet_byte(g: GpuView, i: int) -> u8 {
    let pixel = i / 3;
    let y = pixel / 128;
    let x = pixel % 128;
    let tile = (y / 8) * 16 + x / 8;
    spec_shade(spec_tile_pixel(g.vram, tile, y % 8, x % 8))
}

/// The picture processor.
pub struct Gpu {
    pub mode: GpuMode,
    pub vram: Vec<u8>,
    pub vblank_interrupt: bool,
    pub clock: u32,
    pub line: u8,
    pub enabled: bool,
    pub back_buffer: Vec<u8>,
}

impl View for Gpu {
    type V = GpuView;

    open spec fn view(&self) -> GpuView {
        GpuView {
            mode: self.mode,
            vram: self.vram@,
            vblank_interrupt: self.vblank_interrupt,
            clock: self.clock,
            line: self.line,
            enabled: self.enabled,
            back_buffer: self.back_buffer@,
        }
    }
}

/// A vector of `len` copies of `value`.
fn filled_vec(len: usize, value: u8) -> (r: Vec<u8>)
    ensures
        r@.len() == len,
        forall|i: int| 0 <= i < len ==> r@[i] == value,
{
    let mut v: Vec<u8> = Vec::new();
    let mut i: usize = 0;
    while i < len
        invariant
            i <= len,
            v@.len() == i,
            forall|j: int| 0 <= j < i ==> v@[j] == value,
        decreases len - i,
    {
        v.push(value);
        i = i + 1;
    }
    v
}

impl Gpu {
    /// A reset picture processor: HBlank at line 0, disabled, counter zero,
    /// back buffer zeroed.
    pub fn new() -> (r: Gpu)
        ensures
            r@.wf(),
            r@.mode == GpuMode::HBlank,
            r@.line == 0,
            r@.clock == 0,
            !r@.enabled,
            !r@.vblank_interrupt,
            forall|i: int| 0 <= i < 0x400 ==> r@.back_buffer[i] == 0,
            forall|i: int| 0 <= i < 0x2000 ==> r@.vram[i] == 0x99,
    {
        Gpu {
            mode: GpuMode::HBlank,
            vram: filled_vec(0x2000, 0x99),
            vblank_interrupt: false,
            clock: 0,
            line: 0,
            enabled: false,
            back_buffer: filled_vec(0x400, 0),
        }
    }

    /// Copies the current scanline of the background tile map into the back
    /// buffer.
    fn render_line(&mut self)
        requires
            old(self)@.wf(),
        ensures
            *final(self) == (Gpu { back_buffer: final(self).back_buffer, ..*old(self) }),
            final(self).back_buffer@ == spec_render_line(old(self)@),
    {
        if self.line >= 32 {
            proof {
                assert(final(self).back_buffer@ =~= spec_render_line(old(self)@));
            }
            return;
        }

        let row: usize = self.line as usize;
        let offset: usize = row * 32;
        let vram_offset: usize = 0x1800 + offset;
        let mut i: usize = 0;
        while i < 32
            invariant
                old(self)@.wf(),
                old(self).line < 32,
                row == old(self).line,
                offset == row * 32,
                vram_offset == 0x1800 + offset,
                i <= 32,
                *self == (Gpu { back_buffer: self.back_buffer, ..*old(self) }),
                self.back_buffer@.len() == 0x400,
                forall|j: int|
                    offset <= j < offset + i ==> self.back_buffer@[j] == old(self)@.vram[0x1800 + j],
                forall|j: int|
                    0 <= j < 0x400 && !(offset <= j < offset + i) ==> self.back_buffer@[j]
                        == old(self)@.back_buffer[j],
            decreases 32 - i,
        {
            let v = self.vram[vram_offset + i];
            self.back_buffer.set(offset + i, v);
            i = i + 1;
        }
        proof {
            assert(self.back_buffer@ =~= spec_render_line(old(self)@));
        }
    }

    /// Feeds `cycles` T-cycles to the processor.  When disabled nothing
    /// changes; otherwise the mode counter accumulates the budget and at most
    /// one mode transition fires, per the model `spec_gpu_step`.
    pub fn step(&mut self, cycles: u32)
        requires
            old(self)@.wf(),
            cycles <= 0xFFFF_0000,
        ensures
            final(self)@.wf(),
            final(self)@ == spec_gpu_step(old(self)@, cycles),
    {
        if !self.enabled {
            return;
        }

        self.clock = self.clock + cycles;

        match self.mode {
            GpuMode::HBlank => {
                if self.clock < 204 {
                    return;
                }
                self.clock = 0;
                self.line = self.line + 1;
                if self.line == 143 {
                    self.mode = GpuMode::VBlank;
                    return;
                }
                self.mode = GpuMode::ScanOAM;
            },
            GpuMode::VBlank => {
                if self.clock < 456 {
                    return;
                }
                if self.line == 143 {
                    self.vblank_interrupt = true;
                }
                self.clock = 0;
                self.line = self.line + 1;
                if self.line > 153 {
                    self.line = 0;
                    self.mode = GpuMode::ScanOAM;
                }
            },
            GpuMode::ScanOAM => {
                if self.clock < 80 {
                    return;
                }
                self.clock = 0;
                self.mode = GpuMode::ScanVRam;
            },
            GpuMode::ScanVRam => {
                if self.clock < 172 {
                    return;
                }
                self.clock = 0;
                self.mode = GpuMode::HBlank;
                self.render_line();
            },
        }
    }


    /// Renders the first 384 tiles of VRAM as a 128x192 tile sheet into
    /// `texture`, row-major RGB with sixteen tiles per row: a debugging
    /// view of the raw tile data, shaded like the frame exporter.
    pub fn render_vram_to_texture(&self, texture: &mut Vec<u8>)
        requires
            self@.wf(),
            old(texture)@.len() >= 0x12000,
        ensures
            final(texture)@.len() == old(texture)@.len(),
            forall|i: int| 0 <= i < 0x12000 ==> final(texture)@[i] == spec_tile_sheet_byte(self@, i),
            forall|i: int|
                0x12000 <= i < old(texture)@.len() ==> final(texture)@[i] == old(texture)@[i],
    {
        let mut y: usize = 0;
        while y < 192
            invariant
                self@.wf(),
                texture@.len() == old(texture)@.len(),
                old(texture)@.len() >= 0x12000,
                y <= 192,
                forall|i: int| 0 <= i < y * 384 ==> texture@[i] == spec_tile_sheet_byte(self@, i),
                forall|i: int| y * 384 <= i < old(texture)@.len() ==> texture@[i] == old(texture)@[i],
            decreases 192 - y,
        {
            let mut x: usize = 0;
            while x < 128
                invariant
                    self@.wf(),
                    texture@.len() == old(texture)@.len(),
                    old(texture)@.len() >= 0x12000,
                    y < 192,
                    x <= 128,
                    forall|i: int|
                        0 <= i < y * 384 + x * 3 ==> texture@[i] == spec_tile_sheet_byte(self@, i),
                    forall|i: int|
                        y * 384 + x * 3 <= i < old(texture)@.len() ==> texture@[i] == old(
                            texture,
                        )@[i],
                decreases 128 - x,
            {
                let tile: usize = (y / 8) * 16 + x / 8;
                let row: usize = y % 8;
                let col: usize = x % 8;
                let lo: u8 = self.vram[tile * 16 + row * 2];
                let hi: u8 = self.vram[tile * 16 + row * 2 + 1];
                let color: u8 = ((lo >> (7 - col) as u8) % 2) + ((hi >> (7 - col) as u8) % 2) * 2;
                let shade: u8 = if color == 0 {
                    230
                } else if color == 1 {
                    160
                } else if color == 2 {
                    80
                } else {
                    0
                };
                let idx: usize = (y * 128 + x) * 3;
                texture.set(idx, shade);
                texture.set(idx + 1, shade);
                texture.set(idx + 2, shade);
                proof {
                    let pixel = (y * 128 + x) as int;
                    assert((3 * pixel) / 3 == pixel && (3 * pixel + 1) / 3 == pixel && (3 * pixel
                        + 2) / 3 == pixel) by (nonlinear_arith)
                        requires
                            0 <= pixel,
                    ;
                    assert(pixel / 128 == y && pixel % 128 == x) by (nonlinear_arith)
                        requires
                            pixel == y * 128 + x,
                            0 <= y,
                            0 <= x < 128,
                    ;
                    assert(idx == 3 * pixel);
                    assert(spec_tile_sheet_byte(self@, 3 * pixel) == shade);
                    assert(spec_tile_sheet_byte(self@, 3 * pixel + 1) == shade);
                    assert(spec_tile_sheet_byte(self@, 3 * pixel + 2) == shade);
                }
                x = x + 1;
            }
            y = y + 1;
            assert(y * 384 == (y - 1) * 384 + 128 * 3);
        }
    }

    /// Latches the LCD control register: bit 7 of the value enables the
    /// processor, the other bits are ignored in this core.
    pub fn set_lcd_control(&mut self, value: u8)
        ensures
            *final(self) == (Gpu { enabled: value & 0x80 != 0, ..*old(self) }),
    {
        self.enabled = value & 0x80 != 0;
    }

    /// Renders the full 256x256 background frame into `texture` as row-major
    /// RGB bytes: each of the 32x32 back-buffer cells names a 16-byte tile in
    /// VRAM, whose two bit planes give a grey shade per pixel.
    pub fn render_screen_to_texture(&self, texture: &mut Vec<u8>)
        requires
            self@.wf(),
            old(texture)@.len() >= 0x30000,
        ensures
            final(texture)@.len() == old(texture)@.len(),
            forall|i: int| 0 <= i < 0x30000 ==> final(texture)@[i] == spec_frame_byte(self@, i),
            forall|i: int|
                0x30000 <= i < old(texture)@.len() ==> final(texture)@[i] == old(texture)@[i],
    {
        let mut y: usize = 0;
        while y < 256
            invariant
                self@.wf(),
                texture@.len() == old(texture)@.len(),
                old(texture)@.len() >= 0x30000,
                y <= 256,
                forall|i: int| 0 <= i < y * 768 ==> texture@[i] == spec_frame_byte(self@, i),
                forall|i: int| y * 768 <= i < old(texture)@.len() ==> texture@[i] == old(texture)@[i],
            decreases 256 - y,
        {
            let mut x: usize = 0;
            while x < 256
                invariant
                    self@.wf(),
                    texture@.len() == old(texture)@.len(),
                    old(texture)@.len() >= 0x30000,
                    y < 256,
                    x <= 256,
                    forall|i: int|
                        0 <= i < y * 768 + x * 3 ==> texture@[i] == spec_frame_byte(self@, i),
                    forall|i: int|
                        y * 768 + x * 3 <= i < old(texture)@.len() ==> texture@[i] == old(
                            texture,
                        )@[i],
                decreases 256 - x,
            {
                let tile: u8 = self.back_buffer[(y / 8) * 32 + x / 8];
                let row: usize = y % 8;
                let col: usize = x % 8;
                let lo: u8 = self.vram[(tile as usize) * 16 + row * 2];
                let hi: u8 = self.vram[(tile as usize) * 16 + row * 2 + 1];
                let color: u8 = ((lo >> (7 - col) as u8) % 2) + ((hi >> (7 - col) as u8) % 2) * 2;
                let shade: u8 = if color == 0 {
                    230
                } else if color == 1 {
                    160
                } else if color == 2 {
                    80
                } else {
                    0
                };
                let idx: usize = (y * 256 + x) * 3;
                texture.set(idx, shade);
                texture.set(idx + 1, shade);
                texture.set(idx + 2, shade);
                proof {
                    let pixel = (y * 256 + x) as int;
                    assert((3 * pixel) / 3 == pixel && (3 * pixel + 1) / 3 == pixel && (3 * pixel
                        + 2) / 3 == pixel) by (nonlinear_arith)
                        requires
                            0 <= pixel,
                    ;
                    assert(pixel / 256 == y && pixel % 256 == x) by (nonlinear_arith)
                        requires
                            pixel == y * 256 + x,
                            0 <= y,
                            0 <= x < 256,
                    ;
                    assert(idx == 3 * pixel);
                    assert(spec_frame_byte(self@, 3 * pixel) == shade);
                    assert(spec_frame_byte(self@, 3 * pixel + 1) == shade);
                    assert(spec_frame_byte(self@, 3 * pixel + 2) == shade);
                }
                x = x + 1;
            }
            y = y + 1;
            assert(y * 768 == (y - 1) * 768 + 256 * 3);
        }
    }
}

} // verus!
