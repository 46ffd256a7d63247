//! The demo scene: a fixed battery of rectangle outlines covering the
//! degenerate, regular, nested, random and full-screen-border cases, drawn
//! on the pixel surface with shape parameters drawn from the sequence
//! generator.

use vstd::prelude::*;
use crate::rng::Rng;
use crate::rng::iter_step;
use crate::rng::step;
use crate::video::PixelSurface;
use crate::video::boxed;
use crate::video::draw_box;

verus! {

/// The surface after the first `k` of the five nested outlines are drawn:
/// ring `j` has corner (200 + 10 j, 10 + 10 j), width 80 - 20 j, height
/// 60 - 20 j saturated at zero, and color 5 + j.
pub open spec fn ring_boxes(s: Seq<u8>, k: nat) -> Seq<u8>
    decreases k,
{
    if k == 0 {
        s
    } else {
        let j = k - 1;
        let off = (10 * j) as u16;
        let dbl = (2 * off) as u16;
        boxed(
            ring_boxes(s, (k - 1) as nat),
            (200 + off) as u16,
            (10 + off) as u16,
            (80 - dbl) as u16,
            60u16.saturating_sub(dbl),
            (5 + j) as u8,
        )
    }
}

/// The surface after `n` outlines with generator-driven parameters are
/// drawn, starting from generator state `r`: each outline consumes five
/// draws, for position (mod 300, mod 180), size (mod 20 each) and color
/// (low byte, mod 255).
pub open spec fn rand_boxes(s: Seq<u8>, r: u16, n: nat) -> Seq<u8>
    decreases n,
{
    if n == 0 {
        s
    } else {
        let r1 = step(r);
        let r2 = step(r1);
        let r3 = step(r2);
        let r4 = step(r3);
        let r5 = step(r4);
        let drawn = boxed(
            s,
            (r1 % 300) as u16,
            (r2 % 180) as u16,
            (r3 % 20) as u16,
            (r4 % 20) as u16,
            (((r5 % 256) as u8) % 255) as u8,
        );
        rand_boxes(drawn, r5, (n - 1) as nat)
    }
}

/// The whole scene drawn by `test_boxes` on a surface whose buffer was `s`,
/// with the generator starting in state `r`: seven fixed outlines, five
/// nested outlines, ten generator-driven outlines, and a full-screen border.
pub open spec fn demo_scene(s: Seq<u8>, r: u16) -> Seq<u8> {
    let s1 = boxed(s, 10, 10, 1, 1, 15);
    let s2 = boxed(s1, 20, 20, 0, 0, 14);
    let s3 = boxed(s2, 30, 30, 50, 0, 13);
    let s4 = boxed(s3, 100, 30, 0, 50, 12);
    let s5 = boxed(s4, 150, 50, 30, 40, 11);
    let s6 = boxed(s5, 50, 100, 100, 80, 10);
    let s7 = boxed(s6, 280, 150, 39, 49, 9);
    let s8 = ring_boxes(s7, 5);
    let s9 = rand_boxes(s8, r, 10);
    boxed(s9, 0, 0, 319, 199, 15)
}

/// Draws the full battery of rectangle outlines: a 1x1 box, a 0x0 point, a
/// horizontal and a vertical line, a regular and a large box, a box at the
/// screen edge, five nested boxes, ten boxes with generator-driven
/// parameters, and the full-screen border. The resulting surface is exactly
/// `demo_scene` of the starting buffer and generator state, and the
/// generator advances by exactly fifty draws.
pub fn test_boxes(surface: &mut PixelSurface, rng: &mut Rng)
    requires
        old(surface).wf(),
    ensures
        final(surface).wf(),
        final(surface).pixels@ == demo_scene(old(surface).pixels@, old(rng).state),
        final(rng).state == iter_step(50, old(rng).state),
{
    // Small 1x1 box (single pixel outline).
    draw_box(surface, 10, 10, 1, 1, 15);
    // 0x0 box: degenerates to a single point.
    draw_box(surface, 20, 20, 0, 0, 14);
    // Horizontal line (height = 0).
    draw_box(surface, 30, 30, 50, 0, 13);
    // Vertical line (width = 0).
    draw_box(surface, 100, 30, 0, 50, 12);
    // Regular box.
    draw_box(surface, 150, 50, 30, 40, 11);
    // Large box.
    draw_box(surface, 50, 100, 100, 80, 10);
    // Box at the screen edge.
    draw_box(surface, 280, 150, 39, 49, 9);

    // Five nested boxes.
    let ghost v7 = surface.pixels@;
    let mut i: u16 = 0;
    while i < 5
        invariant
            surface.wf(),
            i <= 5,
            surface.pixels@ == ring_boxes(v7, i as nat),
        decreases 5 - i,
    {
        let offset = i * 10;
        let dbl = offset * 2;
        let color = 5 + (i as u8);
        // The innermost ring's height would underflow; the crate's arithmetic
        // policy is saturating, so it degenerates to height zero.
        draw_box(surface, 200 + offset, 10 + offset, 80 - dbl, 60u16.saturating_sub(dbl), color);
        i = i + 1;
    }

    // Ten boxes with generator-driven parameters.
    let ghost v8 = surface.pixels@;
    let ghost r8 = rng.state;
    let mut k: u16 = 0;
    while k < 10
        invariant
            surface.wf(),
            k <= 10,
            rand_boxes(v8, r8, 10) == rand_boxes(surface.pixels@, rng.state, (10 - k) as nat),
            iter_step(50, r8) == iter_step((5 * (10 - k)) as nat, rng.state),
        decreases 10 - k,
    {
        let ghost entry_v = surface.pixels@;
        let ghost entry_r = rng.state;
        let x = rng.next() % 300;
        let y = rng.next() % 180;
        let w = rng.next() % 20;
        let h = rng.next() % 20;
        let r5 = rng.next();
        let color = ((r5 % 256) as u8) % 255;
        draw_box(surface, x, y, w, h, color);
        proof {
            let m = (5 * (10 - k)) as nat;
            let r1 = step(entry_r);
            let r2 = step(r1);
            let r3 = step(r2);
            let r4 = step(r3);
            assert(iter_step(m, entry_r) == iter_step((m - 1) as nat, r1));
            assert(iter_step((m - 1) as nat, r1) == iter_step((m - 2) as nat, r2));
            assert(iter_step((m - 2) as nat, r2) == iter_step((m - 3) as nat, r3));
            assert(iter_step((m - 3) as nat, r3) == iter_step((m - 4) as nat, r4));
            assert(iter_step((m - 4) as nat, r4) == iter_step((m - 5) as nat, step(r4)));
            assert(rand_boxes(entry_v, entry_r, (10 - k) as nat) == rand_boxes(
                surface.pixels@,
                rng.state,
                (10 - (k + 1)) as nat,
            ));
        }
        k = k + 1;
    }

    // Full screen border: the overflow edge case.
    draw_box(surface, 0, 0, 319, 199, 15);
}

} // verus!
