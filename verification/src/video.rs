//! The pixel surface and the shape renderer: linear coordinate-to-address
//! mapping for a 320x200 indexed-color surface, whole-surface fill,
//! single-pixel plot, and an unfilled rectangle outline drawn with
//! saturating edge arithmetic.
//!
//! The surface here is an in-memory byte buffer standing for the display
//! device; the platform layer forwards it to the real device. A plot at a
//! coordinate outside the surface is silently ignored, the one policy this
//! crate adopts for out-of-range writes.

use vstd::prelude::*;
use vstd::pervasive::VecAdditionalExecFns;
use vstd::arithmetic::div_mod::lemma_fundamental_div_mod;
use vstd::arithmetic::div_mod::lemma_fundamental_div_mod_converse;
use vstd::arithmetic::div_mod::lemma_mod_bound;

verus! {

/// Width of the surface in pixels.
pub const SCREEN_WIDTH: u16 = 320;

/// Height of the surface in pixels.
pub const SCREEN_HEIGHT: u16 = 200;

/// Number of addressable pixels of the surface.
pub const SCREEN_PIXELS: usize = 64000;

/// Whether the coordinate (x, y) addresses a pixel of the surface.
pub open spec fn in_bounds(x: u16, y: u16) -> bool {
    x < SCREEN_WIDTH && y < SCREEN_HEIGHT
}

/// The linear address of the coordinate (x, y): row-major order.
pub open spec fn pixel_index(x: u16, y: u16) -> int {
    y * SCREEN_WIDTH + x
}

/// The color stored for coordinate (x, y) in the linear buffer `s`.
pub open spec fn color_at(s: Seq<u8>, x: u16, y: u16) -> u8 {
    s[pixel_index(x, y)]
}

/// The column addressed by linear index `i`.
pub open spec fn col_of(i: int) -> u16 {
    (i % (SCREEN_WIDTH as int)) as u16
}

/// The row addressed by linear index `i`.
pub open spec fn row_of(i: int) -> u16 {
    (i / (SCREEN_WIDTH as int)) as u16
}

/// A linear index splits into an in-range coordinate pair, and the linear
/// address of that pair is the index again.
pub proof fn lemma_index_decomposition(i: int)
    requires
        0 <= i < SCREEN_PIXELS as int,
    ensures
        in_bounds(col_of(i), row_of(i)),
        pixel_index(col_of(i), row_of(i)) == i,
{
    lemma_mod_bound(i, SCREEN_WIDTH as int);
    lemma_fundamental_div_mod(i, SCREEN_WIDTH as int);
}

/// The linear address of an in-range coordinate pair lies inside the buffer
/// and splits back into the same column and row.
pub proof fn lemma_index_recomposition(px: u16, py: u16)
    requires
        in_bounds(px, py),
    ensures
        0 <= pixel_index(px, py) < SCREEN_PIXELS as int,
        col_of(pixel_index(px, py)) == px,
        row_of(pixel_index(px, py)) == py,
{
    lemma_fundamental_div_mod_converse(
        pixel_index(px, py),
        SCREEN_WIDTH as int,
        py as int,
        px as int,
    );
}

/// The in-memory pixel surface: one byte of palette index per pixel, in
/// row-major order.
pub struct PixelSurface {
    pub pixels: Vec<u8>,
}

impl PixelSurface {
    /// The buffer covers exactly the 320x200 surface.
    pub open spec fn wf(&self) -> bool {
        self.pixels@.len() == SCREEN_PIXELS
    }

    /// A fresh surface with every pixel set to palette index 0.
    pub fn new() -> (s: PixelSurface)
        ensures
            s.wf(),
            forall|i: int| 0 <= i < SCREEN_PIXELS ==> s.pixels@[i] == 0u8,
    {
        let mut pixels: Vec<u8> = Vec::new();
        while pixels.len() < SCREEN_PIXELS
            invariant
                pixels@.len() <= SCREEN_PIXELS,
                forall|i: int| 0 <= i < pixels@.len() ==> pixels@[i] == 0u8,
            decreases SCREEN_PIXELS - pixels@.len(),
        {
            pixels.push(0);
        }
        PixelSurface { pixels }
    }

    /// Writes `color` to every addressable location of the surface: one
    /// bulk pass over the contiguous buffer.
    pub fn fill(&mut self, color: u8)
        requires
            old(self).wf(),
        ensures
            final(self).wf(),
            forall|i: int| 0 <= i < SCREEN_PIXELS ==> final(self).pixels@[i] == color,
    {
        let mut i: usize = 0;
        while i < SCREEN_PIXELS
            invariant
                self.wf(),
                i <= SCREEN_PIXELS,
                forall|j: int| 0 <= j < i ==> self.pixels@[j] == color,
            decreases SCREEN_PIXELS - i,
        {
            self.pixels.set(i, color);
            i = i + 1;
        }
    }

    /// Writes `color` at one coordinate. An out-of-range coordinate is
    /// ignored and leaves the surface unchanged.
    pub fn plot(&mut self, x: u16, y: u16, color: u8)
        requires
            old(self).wf(),
        ensures
            final(self).wf(),
            in_bounds(x, y) ==> final(self).pixels@ == old(self).pixels@.update(
                pixel_index(x, y),
                color,
            ),
            !in_bounds(x, y) ==> final(self).pixels@ == old(self).pixels@,
    {
        if x < SCREEN_WIDTH && y < SCREEN_HEIGHT {
            let idx: usize = (y as usize) * 320 + (x as usize);
            self.pixels.set(idx, color);
        }
    }

    /// Reads the color back at one coordinate, or `None` for a coordinate
    /// outside the surface.
    pub fn get_pixel(&self, x: u16, y: u16) -> (c: Option<u8>)
        requires
            self.wf(),
        ensures
            in_bounds(x, y) ==> c == Some(color_at(self.pixels@, x, y)),
            !in_bounds(x, y) ==> c is None,
    {
        if x < SCREEN_WIDTH && y < SCREEN_HEIGHT {
            let idx: usize = (y as usize) * 320 + (x as usize);
            Some(self.pixels[idx])
        } else {
            None
        }
    }
}

/// Whether (px, py) lies on one of the four edges of the rectangle outline
/// with corner (x, y), width `w` and height `h`. The far corner is computed
/// with saturating addition, so a rectangle that would leave the 16-bit
/// range clamps instead of wrapping.
pub open spec fn on_box_edge(x: u16, y: u16, w: u16, h: u16, px: u16, py: u16) -> bool {
    let mx = x.saturating_add(w);
    let my = y.saturating_add(h);
    (px == x && y <= py <= my) || (py == y && x <= px <= mx) || (px == mx && y <= py <= my) || (
    py == my && x <= px <= mx)
}

/// The buffer `s` after the rectangle outline is drawn on it: every in-range
/// pixel on an edge takes the color `c`, every other pixel keeps its value.
pub open spec fn boxed(s: Seq<u8>, x: u16, y: u16, w: u16, h: u16, c: u8) -> Seq<u8> {
    Seq::new(
        s.len(),
        |i: int| if on_box_edge(x, y, w, h, col_of(i), row_of(i)) {
            c
        } else {
            s[i]
        },
    )
}

/// The pointwise reading of `boxed`: at any in-range coordinate, the drawn
/// buffer holds the outline color exactly on the edges and the old color
/// everywhere else.
pub proof fn lemma_boxed_color_at(
    s: Seq<u8>,
    x: u16,
    y: u16,
    w: u16,
    h: u16,
    c: u8,
    px: u16,
    py: u16,
)
    requires
        s.len() == SCREEN_PIXELS,
        in_bounds(px, py),
    ensures
        color_at(boxed(s, x, y, w, h, c), px, py) == (if on_box_edge(x, y, w, h, px, py) {
            c
        } else {
            color_at(s, px, py)
        }),
{
    lemma_index_recomposition(px, py);
}

/// Plots the vertical run (x, y0), ..., (x, y1), inclusive of both ends.
fn draw_vline(surface: &mut PixelSurface, x: u16, y0: u16, y1: u16, color: u8)
    requires
        old(surface).wf(),
        y0 <= y1,
    ensures
        final(surface).wf(),
        forall|px: u16, py: u16|
            in_bounds(px, py) ==> #[trigger] color_at(final(surface).pixels@, px, py) == (
            if px == x && y0 <= py <= y1 {
                color
            } else {
                color_at(old(surface).pixels@, px, py)
            }),
{
    let ghost snap = surface.pixels@;
    let mut i: u32 = y0 as u32;
    while i <= y1 as u32
        invariant
            surface.wf(),
            y0 <= i <= y1 + 1,
            forall|px: u16, py: u16|
                in_bounds(px, py) ==> #[trigger] color_at(surface.pixels@, px, py) == (
                if px == x && y0 <= py < i {
                    color
                } else {
                    color_at(snap, px, py)
                }),
        decreases y1 + 1 - i,
    {
        let ghost before = surface.pixels@;
        surface.plot(x, i as u16, color);
        proof {
            assert forall|px: u16, py: u16| in_bounds(px, py) implies #[trigger] color_at(
                surface.pixels@,
                px,
                py,
            ) == (if px == x && y0 <= py < i + 1 {
                color
            } else {
                color_at(snap, px, py)
            }) by {
                assert(color_at(before, px, py) == (if px == x && y0 <= py < i {
                    color
                } else {
                    color_at(snap, px, py)
                }));
            }
        }
        i = i + 1;
    }
}

/// Plots the horizontal run (x0, y), ..., (x1, y), inclusive of both ends.
fn draw_hline(surface: &mut PixelSurface, y: u16, x0: u16, x1: u16, color: u8)
    requires
        old(surface).wf(),
        x0 <= x1,
    ensures
        final(surface).wf(),
        forall|px: u16, py: u16|
            in_bounds(px, py) ==> #[trigger] color_at(final(surface).pixels@, px, py) == (
            if py == y && x0 <= px <= x1 {
                color
            } else {
                color_at(old(surface).pixels@, px, py)
            }),
{
    let ghost snap = surface.pixels@;
    let mut i: u32 = x0 as u32;
    while i <= x1 as u32
        invariant
            surface.wf(),
            x0 <= i <= x1 + 1,
            forall|px: u16, py: u16|
                in_bounds(px, py) ==> #[trigger] color_at(surface.pixels@, px, py) == (
                if py == y && x0 <= px < i {
                    color
                } else {
                    color_at(snap, px, py)
                }),
        decreases x1 + 1 - i,
    {
        let ghost before = surface.pixels@;
        surface.plot(i as u16, y, color);
        proof {
            assert forall|px: u16, py: u16| in_bounds(px, py) implies #[trigger] color_at(
                surface.pixels@,
                px,
                py,
            ) == (if py == y && x0 <= px < i + 1 {
                color
            } else {
                color_at(snap, px, py)
            }) by {
                assert(color_at(before, px, py) == (if py == y && x0 <= px < i {
                    color
                } else {
                    color_at(snap, px, py)
                }));
            }
        }
        i = i + 1;
    }
}

/// Draws the four edges of the axis-aligned rectangle outline with top-left
/// corner (x, y) and far corner (x + w, y + h), the far corner computed with
/// saturating addition. A zero width or height degenerates to a line or a
/// single point, never an error; corner pixels are written by more than one
/// edge pass, which is harmless since the color is uniform.
pub fn draw_box(surface: &mut PixelSurface, x: u16, y: u16, w: u16, h: u16, color: u8)
    requires
        old(surface).wf(),
    ensures
        final(surface).wf(),
        final(surface).pixels@ == boxed(old(surface).pixels@, x, y, w, h, color),
{
    let max_x = x.saturating_add(w);
    let max_y = y.saturating_add(h);
    let ghost v0 = surface.pixels@;
    // Left wall: x constant, y varies.
    draw_vline(surface, x, y, max_y, color);
    let ghost v1 = surface.pixels@;
    // Top wall: y constant, x varies.
    draw_hline(surface, y, x, max_x, color);
    let ghost v2 = surface.pixels@;
    // Right wall: x + w constant, y varies.
    draw_vline(surface, max_x, y, max_y, color);
    let ghost v3 = surface.pixels@;
    // Bottom wall: y + h constant, x varies.
    draw_hline(surface, max_y, x, max_x, color);
    proof {
        let target = boxed(v0, x, y, w, h, color);
        assert forall|i: int| 0 <= i < SCREEN_PIXELS as int implies surface.pixels@[i] == target[i]
        by {
            lemma_index_decomposition(i);
            let px = col_of(i);
            let py = row_of(i);
            assert(color_at(v1, px, py) == (if px == x && y <= py <= max_y {
                color
            } else {
                color_at(v0, px, py)
            }));
            assert(color_at(v2, px, py) == (if py == y && x <= px <= max_x {
                color
            } else {
                color_at(v1, px, py)
            }));
            assert(color_at(v3, px, py) == (if px == max_x && y <= py <= max_y {
                color
            } else {
                color_at(v2, px, py)
            }));
            assert(color_at(surface.pixels@, px, py) == (if py == max_y && x <= px <= max_x {
                color
            } else {
                color_at(v3, px, py)
            }));
        }
        assert(surface.pixels@ =~= boxed(v0, x, y, w, h, color));
    }
}

} // verus!
