//! The picture processor's mode cycle, scanline rendering, and the frame
//! exporter.

use lr35902_core::gpu::{Gpu, GpuMode};

fn enabled_gpu() -> Gpu {
    let mut gpu = Gpu::new();
    gpu.set_lcd_control(0x80);
    gpu
}

#[test]
fn disabled_processor_holds_still() {
    let mut gpu = Gpu::new();
    gpu.step(1000);
    assert_eq!(gpu.clock, 0);
    assert_eq!(gpu.line, 0);
    assert!(matches!(gpu.mode, GpuMode::HBlank));
}

#[test]
fn mode_schedule_walks_one_line() {
    let mut gpu = enabled_gpu();
    // Reset state is HBlank; its 204 cycles advance the line.
    gpu.step(204);
    assert!(matches!(gpu.mode, GpuMode::ScanOAM));
    assert_eq!(gpu.line, 1);
    gpu.step(80);
    assert!(matches!(gpu.mode, GpuMode::ScanVRam));
    gpu.step(172);
    assert!(matches!(gpu.mode, GpuMode::HBlank));
    assert_eq!(gpu.clock, 0);
}

#[test]
fn vblank_edge_rises_once_at_line_144() {
    // Feed 144 * 456 = 65,664 T-cycles in 4-cycle chunks from reset.
    let mut gpu = enabled_gpu();
    let mut edges = 0;
    let mut line_at_edge = 0;
    let mut seen = false;
    for _ in 0..(65664 / 4) {
        gpu.step(4);
        if gpu.vblank_interrupt && !seen {
            edges += 1;
            line_at_edge = gpu.line;
            seen = true;
        }
    }
    assert_eq!(edges, 1);
    assert_eq!(line_at_edge, 144);
}

#[test]
fn frame_period_returns_to_reset_point() {
    // One frame is 70,224 T-cycles: back to HBlank at line 0.
    let mut gpu = enabled_gpu();
    let mut rises = 0;
    let mut was_set = gpu.vblank_interrupt;
    for _ in 0..(70224 / 4) {
        gpu.step(4);
        if gpu.vblank_interrupt && !was_set {
            rises += 1;
        }
        was_set = gpu.vblank_interrupt;
    }
    assert!(matches!(gpu.mode, GpuMode::HBlank));
    assert_eq!(gpu.line, 0);
    assert_eq!(gpu.clock, 0);
    assert_eq!(rises, 1);
}

#[test]
fn scanline_render_copies_the_tile_map_row() {
    let mut gpu = enabled_gpu();
    // Plant tile indices for row 1 of the background map.
    for c in 0..32 {
        gpu.vram[0x1800 + 32 + c] = c as u8;
    }
    // Walk one full line so line 1 is rendered: HBlank of line 0, then
    // OAM and VRAM of line 1.
    gpu.step(204);
    gpu.step(80);
    gpu.step(172);
    for c in 0..32 {
        assert_eq!(gpu.back_buffer[32 + c], c as u8);
    }
    // Line 0's row was left untouched.
    assert_eq!(gpu.back_buffer[0], 0);
}

#[test]
fn exporter_shades_pixels_from_tile_planes() {
    let mut gpu = Gpu::new();
    for i in 0..gpu.vram.len() {
        gpu.vram[i] = 0;
    }
    // Tile 1, row 0: low plane 0b1000_0000, high plane 0b0100_0001.
    gpu.vram[16] = 0x80;
    gpu.vram[17] = 0x41;
    for i in 0..gpu.back_buffer.len() {
        gpu.back_buffer[i] = 0;
    }
    gpu.back_buffer[0] = 1;

    let mut texture = vec![0u8; 256 * 256 * 3];
    gpu.render_screen_to_texture(&mut texture);

    // Pixel (0,0): colour 1 -> 160.  Pixel (0,1): colour 2 -> 80.
    // Pixel (0,7): colour 2 -> 80.  Pixel (0,2): colour 0 -> 230.
    assert_eq!(&texture[0..3], &[160, 160, 160]);
    assert_eq!(&texture[3..6], &[80, 80, 80]);
    assert_eq!(&texture[21..24], &[80, 80, 80]);
    assert_eq!(&texture[6..9], &[230, 230, 230]);
    // A pixel of an all-zero tile is colour 0.
    assert_eq!(&texture[3 * 256 * 8..3 * 256 * 8 + 3], &[230, 230, 230]);
}

#[test]
fn lcd_control_only_reads_bit_seven() {
    let mut gpu = Gpu::new();
    gpu.set_lcd_control(0x7F);
    assert!(!gpu.enabled);
    gpu.set_lcd_control(0xFF);
    assert!(gpu.enabled);
}

#[test]
fn tile_sheet_lays_tiles_sixteen_per_row() {
    let mut gpu = Gpu::new();
    for i in 0..gpu.vram.len() {
        gpu.vram[i] = 0;
    }
    // Tile 17 (second row, second column of the sheet), top-left pixel
    // colour 3.
    gpu.vram[17 * 16] = 0x80;
    gpu.vram[17 * 16 + 1] = 0x80;

    let mut texture = vec![0u8; 128 * 192 * 3];
    gpu.render_vram_to_texture(&mut texture);

    // That pixel sits at sheet coordinates (8, 8): black.
    let idx = (8 * 128 + 8) * 3;
    assert_eq!(&texture[idx..idx + 3], &[0, 0, 0]);
    // Its right-hand neighbour is colour 0: light grey.
    assert_eq!(&texture[idx + 3..idx + 6], &[230, 230, 230]);
    // An untouched tile's pixel is colour 0 as well.
    assert_eq!(&texture[0..3], &[230, 230, 230]);
}
