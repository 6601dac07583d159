//! The picture processor's frame period, proved over the step model.
//!
//! Feeding an enabled processor four T-cycles at a time from the reset
//! point (HBlank, line 0), one full frame is 70,224 T-cycles: 17,556 chunks
//! of four.  After exactly that many chunks the processor is back in HBlank
//! at line 0, and the vertical-blank edge was raised exactly once on the
//! way, at chunk 16,353 — the completion of the first VBlank line, when the
//! scanline counter moves to 144.

use vstd::prelude::*;

use crate::gpu::{mode_duration, spec_gpu_step, spec_render_line, GpuMode, GpuView};

verus! {

/// The model state after `n` chunks of four T-cycles.
pub open spec fn steps4(g: GpuView, n: nat) -> GpuView
    decreases n,
{
    if n == 0 {
        g
    } else {
        steps4(spec_gpu_step(g, 4), (n - 1) as nat)
    }
}

/// Chunks compose: running `a + b` chunks is running `a`, then `b`.
pub proof fn lemma_steps4_add(g: GpuView, a: nat, b: nat)
    ensures
        steps4(g, a + b) == steps4(steps4(g, a), b),
    decreases a,
{
    if a > 0 {
        lemma_steps4_add(spec_gpu_step(g, 4), (a - 1) as nat, b);
    }
}

/// Once raised, the edge stays raised under further steps.
pub proof fn lemma_flag_monotone(g: GpuView, n: nat)
    requires
        g.vblank_interrupt,
    ensures
        steps4(g, n).vblank_interrupt,
    decreases n,
{
    if n > 0 {
        lemma_flag_monotone(spec_gpu_step(g, 4), (n - 1) as nat);
    }
}

/// Inside one mode: as long as the counter stays below the mode's
/// duration, chunks only accumulate it.
pub proof fn lemma_run_in_mode(g: GpuView, n: nat)
    requires
        g.wf(),
        g.enabled,
        g.clock + 4 * n < mode_duration(g.mode),
    ensures
        steps4(g, n) == (GpuView { clock: (g.clock + 4 * n) as u32, ..g }),
    decreases n,
{
    if n == 0 {
        assert(steps4(g, n) == g);
        assert((GpuView { clock: (g.clock + 4 * 0) as u32, ..g }) == g);
    } else {
        let g1 = spec_gpu_step(g, 4);
        assert(g1 == (GpuView { clock: (g.clock + 4) as u32, ..g }));
        lemma_run_in_mode(g1, (n - 1) as nat);
    }
}

/// Completing ScanOAM: twenty chunks from a zero counter reach ScanVRam.
pub proof fn lemma_complete_oam(g: GpuView)
    requires
        g.wf(),
        g.enabled,
        g.mode == GpuMode::ScanOAM,
        g.clock == 0,
    ensures
        steps4(g, 20) == (GpuView { mode: GpuMode::ScanVRam, ..g }),
{
    lemma_run_in_mode(g, 19);
    lemma_steps4_add(g, 19, 1);
    let s = steps4(g, 19);
    assert(steps4(spec_gpu_step(s, 4), 0) == spec_gpu_step(s, 4));
    assert(steps4(s, 1) == spec_gpu_step(s, 4));
}

/// Completing ScanVRam: forty-three chunks from a zero counter reach
/// HBlank and render the current line into the back buffer.
pub proof fn lemma_complete_vram(g: GpuView)
    requires
        g.wf(),
        g.enabled,
        g.mode == GpuMode::ScanVRam,
        g.clock == 0,
    ensures
        steps4(g, 43) == (GpuView {
            mode: GpuMode::HBlank,
            back_buffer: spec_render_line(g),
            ..g
        }),
{
    lemma_run_in_mode(g, 42);
    lemma_steps4_add(g, 42, 1);
    let s = steps4(g, 42);
    assert(steps4(spec_gpu_step(s, 4), 0) == spec_gpu_step(s, 4));
    assert(steps4(s, 1) == spec_gpu_step(s, 4));
    assert(spec_render_line(s) =~= spec_render_line(g));
}

/// Completing HBlank: fifty-one chunks from a zero counter advance the
/// scanline; line 143 enters VBlank, any other returns to ScanOAM.
pub proof fn lemma_complete_hblank(g: GpuView)
    requires
        g.wf(),
        g.enabled,
        g.mode == GpuMode::HBlank,
        g.clock == 0,
    ensures
        steps4(g, 51) == (GpuView {
            mode: if g.line + 1 == 143 {
                GpuMode::VBlank
            } else {
                GpuMode::ScanOAM
            },
            line: (g.line + 1) as u8,
            ..g
        }),
{
    lemma_run_in_mode(g, 50);
    lemma_steps4_add(g, 50, 1);
    let s = steps4(g, 50);
    assert(steps4(spec_gpu_step(s, 4), 0) == spec_gpu_step(s, 4));
    assert(steps4(s, 1) == spec_gpu_step(s, 4));
}

/// Completing one VBlank line: 114 chunks from a zero counter advance the
/// scanline, raising the edge when line 143 completes; after line 153 the
/// counter wraps to zero and ScanOAM begins.
pub proof fn lemma_complete_vblank_line(g: GpuView)
    requires
        g.wf(),
        g.enabled,
        g.mode == GpuMode::VBlank,
        g.clock == 0,
    ensures
        steps4(g, 114) == if g.line == 153 {
            (GpuView {
                mode: GpuMode::ScanOAM,
                line: 0,
                vblank_interrupt: g.vblank_interrupt || g.line == 143,
                ..g
            })
        } else {
            (GpuView {
                line: (g.line + 1) as u8,
                vblank_interrupt: g.vblank_interrupt || g.line == 143,
                ..g
            })
        },
{
    lemma_run_in_mode(g, 113);
    lemma_steps4_add(g, 113, 1);
    let s = steps4(g, 113);
    assert(steps4(spec_gpu_step(s, 4), 0) == spec_gpu_step(s, 4));
    assert(steps4(s, 1) == spec_gpu_step(s, 4));
}

/// One full scanline from ScanOAM: 114 chunks render the line and advance
/// the counter; completing line 142's HBlank enters VBlank.
pub proof fn lemma_scan_line_cycle(g: GpuView)
    requires
        g.wf(),
        g.enabled,
        g.mode == GpuMode::ScanOAM,
        g.clock == 0,
        g.line <= 142,
    ensures
        ({
            let r = steps4(g, 114);
            &&& r == (GpuView {
                mode: if g.line + 1 == 143 {
                    GpuMode::VBlank
                } else {
                    GpuMode::ScanOAM
                },
                line: (g.line + 1) as u8,
                back_buffer: steps4(g, 114).back_buffer,
                ..g
            })
            &&& r.back_buffer.len() == 0x400
        }),
{
    lemma_complete_oam(g);
    let s1 = steps4(g, 20);
    lemma_steps4_add(g, 20, 43);
    lemma_complete_vram(s1);
    let s2 = steps4(s1, 43);
    lemma_steps4_add(g, 63, 51);
    assert(steps4(g, 63) == s2);
    lemma_complete_hblank(s2);
}

/// Several scanlines from ScanOAM: `k` line cycles advance the counter by
/// `k` without touching the edge flag; the last may enter VBlank.
pub proof fn lemma_scan_lines(g: GpuView, k: nat)
    requires
        g.wf(),
        g.enabled,
        g.mode == GpuMode::ScanOAM,
        g.clock == 0,
        g.line + k <= 143,
        k >= 1,
    ensures
        ({
            let r = steps4(g, 114 * k);
            &&& r.mode == (if g.line + k == 143 {
                GpuMode::VBlank
            } else {
                GpuMode::ScanOAM
            })
            &&& r.line == g.line + k
            &&& r.clock == 0
            &&& r.enabled == g.enabled
            &&& r.vram == g.vram
            &&& r.vblank_interrupt == g.vblank_interrupt
            &&& r.wf()
        }),
    decreases k,
{
    if k == 1 {
        lemma_scan_line_cycle(g);
    } else {
        lemma_scan_lines(g, (k - 1) as nat);
        let s = steps4(g, 114 * (k - 1) as nat);
        lemma_steps4_add(g, 114 * (k - 1) as nat, 114);
        assert(114 * k == 114 * (k - 1) as nat + 114) by (nonlinear_arith)
            requires
                k >= 1,
        ;
        lemma_scan_line_cycle(s);
    }
}

/// The ten-and-one VBlank lines: eleven line cycles take line 143 back to
/// line 0 in ScanOAM, raising the edge at the first of them.
pub proof fn lemma_vblank_lines(g: GpuView, k: nat)
    requires
        g.wf(),
        g.enabled,
        g.mode == GpuMode::VBlank,
        g.clock == 0,
        g.line == 143,
        1 <= k <= 11,
    ensures
        ({
            let r = steps4(g, 114 * k);
            &&& r.mode == (if k == 11 {
                GpuMode::ScanOAM
            } else {
                GpuMode::VBlank
            })
            &&& r.line == (if k == 11 {
                0int
            } else {
                143 + k as int
            })
            &&& r.clock == 0
            &&& r.enabled == g.enabled
            &&& r.vram == g.vram
            &&& r.back_buffer == g.back_buffer
            &&& r.vblank_interrupt
            &&& r.wf()
        }),
    decreases k,
{
    if k == 1 {
        lemma_complete_vblank_line(g);
    } else {
        lemma_vblank_lines(g, (k - 1) as nat);
        let s = steps4(g, 114 * (k - 1) as nat);
        lemma_steps4_add(g, 114 * (k - 1) as nat, 114);
        assert(114 * k == 114 * (k - 1) as nat + 114) by (nonlinear_arith)
            requires
                k >= 1,
        ;
        lemma_complete_vblank_line(s);
    }
}

/// The frame period.  From the reset point with the processor enabled —
/// HBlank, line 0, counter zero, edge clear — 17,556 chunks of four
/// T-cycles (70,224 in all) return the processor to HBlank at line 0 with
/// a zero counter, and the vertical-blank edge is raised exactly once in
/// that frame: it is clear before chunk 16,353 (T-cycle 65,412), the
/// completion of the first VBlank line, and set from then on.
pub proof fn lemma_ppu_frame_period(g: GpuView)
    requires
        g.wf(),
        g.enabled,
        g.mode == GpuMode::HBlank,
        g.line == 0,
        g.clock == 0,
        !g.vblank_interrupt,
    ensures
        steps4(g, 17556).mode == GpuMode::HBlank,
        steps4(g, 17556).line == 0,
        steps4(g, 17556).clock == 0,
        steps4(g, 17556).vram == g.vram,
        steps4(g, 17556).enabled,
        steps4(g, 17556).wf(),
        forall|k: nat| k <= 17556 ==> (steps4(g, k).vblank_interrupt <==> k >= 16353),
{
    // Line 0's HBlank completes: line 1, ScanOAM.
    lemma_complete_hblank(g);
    let s1 = steps4(g, 51);

    // Lines 1 through 142 scan out; completing line 142 enters VBlank at
    // line 143.  No edge is raised on the way.
    lemma_scan_lines(s1, 142);
    lemma_steps4_add(g, 51, 114 * 142);
    let s2 = steps4(g, 16239);
    assert(s2 == steps4(s1, 114 * 142));
    assert(s2.mode == GpuMode::VBlank && s2.line == 143 && s2.clock == 0);
    assert(!s2.vblank_interrupt);

    // The edge is still clear one chunk before the first VBlank line
    // completes...
    lemma_run_in_mode(s2, 113);
    lemma_steps4_add(g, 16239, 113);
    assert(!steps4(g, 16352).vblank_interrupt);

    // ...and set at its completion, when the counter reaches 144.
    lemma_complete_vblank_line(s2);
    lemma_steps4_add(g, 16239, 114);
    assert(steps4(g, 16353).vblank_interrupt);
    assert(steps4(g, 16353).line == 144);

    // The eleven VBlank lines wrap the counter to line 0, ScanOAM.
    lemma_vblank_lines(s2, 11);
    lemma_steps4_add(g, 16239, 114 * 11);
    let s3 = steps4(g, 17493);
    assert(s3 == steps4(s2, 114 * 11));
    assert(s3.mode == GpuMode::ScanOAM && s3.line == 0 && s3.clock == 0);

    // Line 0 scans back into HBlank.
    lemma_complete_oam(s3);
    lemma_steps4_add(g, 17493, 20);
    let s4 = steps4(g, 17513);
    assert(s4 == steps4(s3, 20));
    lemma_complete_vram(s4);
    lemma_steps4_add(g, 17513, 43);
    let s5 = steps4(g, 17556);
    assert(s5 == steps4(s4, 43));

    // The edge flag is monotone, so the one transition at chunk 16,353 is
    // the only one in the frame.
    assert forall|k: nat| k <= 17556 implies (steps4(g, k).vblank_interrupt <==> k >= 16353) by {
        if k < 16353 {
            if steps4(g, k).vblank_interrupt {
                lemma_steps4_add(g, k, (16352 - k) as nat);
                lemma_flag_monotone(steps4(g, k), (16352 - k) as nat);
            }
        } else {
            lemma_steps4_add(g, 16353, (k - 16353) as nat);
            lemma_flag_monotone(steps4(g, 16353), (k - 16353) as nat);
        }
    }
}

} // verus!
