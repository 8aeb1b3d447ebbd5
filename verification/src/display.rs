//! Scaling the 64 by 32 frame buffer up to a window's pixel buffer.

use vstd::prelude::*;
use crate::machine::{SCREEN_HEIGHT, SCREEN_WIDTH};

verus! {

/// Window pixels per frame-buffer cell, in each direction.
pub const SCREEN_SCALE: usize = 10;

/// Width of the scaled picture in pixels.
pub const SCALED_WIDTH: usize = 640;

/// Height of the scaled picture in pixels.
pub const SCALED_HEIGHT: usize = 320;

/// Pixels in the scaled picture.
pub const SCALED_LEN: usize = 204800;

/// The colour of a lit pixel, as `0RGB`.
pub const COLOR_ON: u32 = 0xFFFFFF;

/// The colour of a dark pixel.
pub const COLOR_OFF: u32 = 0x000000;

/// The colour that shows a frame-buffer cell.
pub open spec fn color_of(cell: u8) -> u32 {
    if cell != 0 {
        COLOR_ON
    } else {
        COLOR_OFF
    }
}

/// The frame-buffer cell that window pixel `i` of the scaled picture shows.
pub open spec fn source_cell(i: int) -> int {
    ((i / 640) / 10) * 64 + (i % 640) / 10
}

/// The scaled picture of a frame buffer: every cell becomes a square of
/// `SCREEN_SCALE` by `SCREEN_SCALE` pixels of its colour.
pub open spec fn scaled(fb: Seq<u8>) -> Seq<u32> {
    Seq::new(204800, |i: int| color_of(fb[source_cell(i)]))
}

/// Window pixel `sx` of window row `sy` within the square of frame-buffer
/// cell (`x`, `y`) shows that cell.
pub proof fn lemma_source_cell(x: int, y: int, sx: int, sy: int)
    requires
        0 <= x < 64,
        0 <= y < 32,
        0 <= sx < 10,
        0 <= sy < 10,
    ensures
        source_cell((y * 10 + sy) * 640 + x * 10 + sx) == y * 64 + x,
{
    let row = y * 10 + sy;
    let col = x * 10 + sx;
    let i = row * 640 + col;
    assert(0 <= col < 640);
    assert(i / 640 == row && i % 640 == col);
    assert(row / 10 == y);
    assert(col / 10 == x);
}

/// Fills `screen` with the scaled picture of `fb`, window row by window row.
pub fn scale_fb(fb: &[u8; 2048], screen: &mut Vec<u32>)
    requires
        old(screen)@.len() == 204800,
    ensures
        final(screen)@ == scaled(fb@),
{
    let mut i: usize = 0;
    let mut y: usize = 0;
    while y < SCREEN_HEIGHT
        invariant
            y <= 32,
            i == y * 6400,
            screen@.len() == 204800,
            forall|j: int| 0 <= j < i ==> screen@[j] == color_of(fb@[source_cell(j)]),
        decreases 32 - y,
    {
        let mut sy: usize = 0;
        while sy < SCREEN_SCALE
            invariant
                y < 32,
                sy <= 10,
                i == y * 6400 + sy * 640,
                screen@.len() == 204800,
                forall|j: int| 0 <= j < i ==> screen@[j] == color_of(fb@[source_cell(j)]),
            decreases 10 - sy,
        {
            let mut x: usize = 0;
            while x < SCREEN_WIDTH
                invariant
                    y < 32,
                    sy < 10,
                    x <= 64,
                    i == y * 6400 + sy * 640 + x * 10,
                    screen@.len() == 204800,
                    forall|j: int| 0 <= j < i ==> screen@[j] == color_of(fb@[source_cell(j)]),
                decreases 64 - x,
            {
                let color: u32 = if fb[y * SCREEN_WIDTH + x] != 0 {
                    COLOR_ON
                } else {
                    COLOR_OFF
                };
                let mut sx: usize = 0;
                while sx < SCREEN_SCALE
                    invariant
                        y < 32,
                        sy < 10,
                        x < 64,
                        sx <= 10,
                        i == y * 6400 + sy * 640 + x * 10 + sx,
                        color == color_of(fb@[y * 64 + x]),
                        screen@.len() == 204800,
                        forall|j: int|
                            0 <= j < i ==> screen@[j] == color_of(fb@[source_cell(j)]),
                    decreases 10 - sx,
                {
                    proof {
                        lemma_source_cell(x as int, y as int, sx as int, sy as int);
                    }
                    screen[i] = color;
                    i += 1;
                    sx += 1;
                }
                x += 1;
            }
            sy += 1;
        }
        y += 1;
    }
    assert(screen@ =~= scaled(fb@));
}

} // verus!
