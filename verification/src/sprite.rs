//! Sprite compositing: what a draw does to the frame buffer, cell by cell,
//! and the facts about it that the interpreter's drawing loop rests on.

use vstd::prelude::*;

verus! {

/// A pixel after one exclusive-or with a set sprite bit.
pub open spec fn flip(pixel: u8) -> u8 {
    pixel ^ 1
}

/// Whether column `col` of a sprite row is set; column 0 is the most
/// significant bit.
pub open spec fn sprite_bit(row_bits: u8, col: u8) -> bool {
    row_bits & (0x80u8 >> col) != 0
}

/// Whether drawing `sprite` with its top-left corner at (`ox`, `oy`) touches
/// frame-buffer cell `p`, the pixel in column `p % 64` of row `p / 64`.
/// Sprite cell (`row`, `col`) lands on column `(ox + col) mod 64` of row
/// `(oy + row) mod 32`, so the one cell that can land on `p` is found by
/// counting back from `p` to the corner with the same wraparound. A sprite
/// has at most 15 rows of 8 columns: no two of its cells land on one pixel.
pub open spec fn sprite_hits(sprite: Seq<u8>, ox: int, oy: int, p: int) -> bool {
    let row = (p / 64 - oy) % 32;
    let col = (p % 64 - ox) % 64;
    row < sprite.len() && col < 8 && sprite_bit(sprite[row], col as u8)
}

/// The frame buffer after `sprite` is combined into it by exclusive-or.
pub open spec fn blit(frame: Seq<u8>, sprite: Seq<u8>, ox: int, oy: int) -> Seq<u8> {
    Seq::new(
        frame.len(),
        |p: int|
            if sprite_hits(sprite, ox, oy, p) {
                flip(frame[p])
            } else {
                frame[p]
            },
    )
}

/// Whether some cell that the sprite touches is lit before the draw.
pub open spec fn collides(frame: Seq<u8>, sprite: Seq<u8>, ox: int, oy: int) -> bool {
    exists|p: int| 0 <= p < frame.len() && sprite_hits(sprite, ox, oy, p) && frame[p] == 1
}

/// The frame-buffer cell on which sprite cell (`row`, `col`) lands.
pub open spec fn sprite_target(ox: int, oy: int, row: int, col: int) -> int {
    ((oy + row) % 32) * 64 + (ox + col) % 64
}

/// Whether `sprite_hits` holds of `p` through a sprite cell that comes before
/// (`row`, `col`) when the cells are taken row by row, left to right.
pub open spec fn sprite_hits_before(
    sprite: Seq<u8>,
    ox: int,
    oy: int,
    p: int,
    row: int,
    col: int,
) -> bool {
    let r = (p / 64 - oy) % 32;
    let c = (p % 64 - ox) % 64;
    sprite_hits(sprite, ox, oy, p) && (r < row || (r == row && c < col))
}

/// Where a draw stands when the sprite cells before (`row`, `col`) are done:
/// `frame` is `before` with the cells flipped that those sprite cells touch,
/// and `flag` is 1 exactly if one of them was lit in `before`.
pub open spec fn drawn_up_to(
    frame: Seq<u8>,
    flag: u8,
    before: Seq<u8>,
    sprite: Seq<u8>,
    ox: int,
    oy: int,
    row: int,
    col: int,
) -> bool {
    &&& frame.len() == 2048
    &&& before.len() == 2048
    &&& flag <= 1
    &&& flag == 1 <==> exists|p: int|
        0 <= p < 2048 && #[trigger] sprite_hits_before(sprite, ox, oy, p, row, col) && before[p]
            == 1
    &&& forall|p: int|
        0 <= p < 2048 ==> frame[p] == if sprite_hits_before(sprite, ox, oy, p, row, col) {
            flip(before[p])
        } else {
            before[p]
        }
}

/// Flipping a pixel twice restores it, and a pixel that is 0 or 1 stays so.
pub proof fn lemma_flip(pixel: u8)
    by (bit_vector)
    ensures
        (pixel ^ 1) ^ 1 == pixel,
        pixel <= 1 ==> pixel ^ 1 <= 1,
        pixel == 1 ==> pixel ^ 1 == 0,
        pixel == 0 ==> pixel ^ 1 == 1,
{
}

/// A sprite cell lands on the frame-buffer cell from which `sprite_hits`
/// finds it again.
pub proof fn lemma_sprite_target(ox: int, oy: int, row: int, col: int)
    requires
        0 <= ox < 64,
        0 <= oy < 32,
        0 <= row < 32,
        0 <= col < 64,
    ensures
        0 <= sprite_target(ox, oy, row, col) < 2048,
        (sprite_target(ox, oy, row, col) / 64 - oy) % 32 == row,
        (sprite_target(ox, oy, row, col) % 64 - ox) % 64 == col,
{
    let y = (oy + row) % 32;
    let x = (ox + col) % 64;
    assert(y == oy + row || y == oy + row - 32);
    assert(x == ox + col || x == ox + col - 64);
    let p = y * 64 + x;
    assert(p / 64 == y && p % 64 == x);
    assert((y - oy) % 32 == row);
    assert((x - ox) % 64 == col);
}

/// No other frame-buffer cell is reached from the same sprite cell.
pub proof fn lemma_sprite_target_unique(ox: int, oy: int, p: int)
    requires
        0 <= ox < 64,
        0 <= oy < 32,
        0 <= p < 2048,
    ensures
        p == sprite_target(ox, oy, (p / 64 - oy) % 32, (p % 64 - ox) % 64),
{
    let y = p / 64;
    let x = p % 64;
    let row = (y - oy) % 32;
    let col = (x - ox) % 64;
    assert(row == y - oy || row == y - oy + 32);
    assert(col == x - ox || col == x - ox + 64);
    assert((oy + row) % 32 == y);
    assert((ox + col) % 64 == x);
}

/// Before the first sprite cell nothing is drawn and the flag is clear.
pub proof fn lemma_draw_start(before: Seq<u8>, sprite: Seq<u8>, ox: int, oy: int)
    requires
        before.len() == 2048,
    ensures
        drawn_up_to(before, 0, before, sprite, ox, oy, 0, 0),
{
}

/// Doing sprite cell (`row`, `col`) takes the draw one cell further. The cell
/// lands on a frame-buffer cell that the draw has not touched yet. Where the
/// sprite bit is set, that cell is flipped and, if it was lit, the flag is
/// raised; where it is clear, nothing changes.
pub proof fn lemma_draw_cell(
    frame: Seq<u8>,
    flag: u8,
    before: Seq<u8>,
    sprite: Seq<u8>,
    ox: int,
    oy: int,
    row: int,
    col: int,
)
    requires
        drawn_up_to(frame, flag, before, sprite, ox, oy, row, col),
        0 <= ox < 64,
        0 <= oy < 32,
        0 <= row < sprite.len() <= 32,
        0 <= col < 8,
    ensures
        0 <= sprite_target(ox, oy, row, col) < 2048,
        frame[sprite_target(ox, oy, row, col)] == before[sprite_target(ox, oy, row, col)],
        sprite_bit(sprite[row], col as u8) ==> drawn_up_to(
            frame.update(
                sprite_target(ox, oy, row, col),
                flip(frame[sprite_target(ox, oy, row, col)]),
            ),
            if frame[sprite_target(ox, oy, row, col)] == 1 {
                1
            } else {
                flag
            },
            before,
            sprite,
            ox,
            oy,
            row,
            col + 1,
        ),
        !sprite_bit(sprite[row], col as u8) ==> drawn_up_to(
            frame,
            flag,
            before,
            sprite,
            ox,
            oy,
            row,
            col + 1,
        ),
{
    let target = sprite_target(ox, oy, row, col);
    let set = sprite_bit(sprite[row], col as u8);
    lemma_sprite_target(ox, oy, row, col);
    assert(!sprite_hits_before(sprite, ox, oy, target, row, col));
    assert(sprite_hits_before(sprite, ox, oy, target, row, col + 1) == set);
    assert forall|p: int| 0 <= p < 2048 && p != target implies sprite_hits_before(
        sprite,
        ox,
        oy,
        p,
        row,
        col + 1,
    ) == sprite_hits_before(sprite, ox, oy, p, row, col) by {
        lemma_sprite_target_unique(ox, oy, p);
    }
    let new_frame = if set {
        frame.update(target, flip(frame[target]))
    } else {
        frame
    };
    let new_flag = if set && frame[target] == 1 {
        1u8
    } else {
        flag
    };
    if new_flag == 1 {
        if flag == 1 {
            let w = choose|p: int|
                0 <= p < 2048 && #[trigger] sprite_hits_before(sprite, ox, oy, p, row, col)
                    && before[p] == 1;
            assert(sprite_hits_before(sprite, ox, oy, w, row, col + 1));
        } else {
            assert(sprite_hits_before(sprite, ox, oy, target, row, col + 1));
        }
    }
    assert forall|p: int|
        0 <= p < 2048 && #[trigger] sprite_hits_before(sprite, ox, oy, p, row, col + 1)
            && before[p] == 1 implies new_flag == 1 by {
        if p != target {
            assert(sprite_hits_before(sprite, ox, oy, p, row, col));
        }
    }
    assert(drawn_up_to(new_frame, new_flag, before, sprite, ox, oy, row, col + 1));
}

/// After the eighth column of a row the draw stands before the next row.
pub proof fn lemma_draw_row_done(
    frame: Seq<u8>,
    flag: u8,
    before: Seq<u8>,
    sprite: Seq<u8>,
    ox: int,
    oy: int,
    row: int,
)
    requires
        drawn_up_to(frame, flag, before, sprite, ox, oy, row, 8),
    ensures
        drawn_up_to(frame, flag, before, sprite, ox, oy, row + 1, 0),
{
    assert forall|p: int| 0 <= p < 2048 implies sprite_hits_before(sprite, ox, oy, p, row + 1, 0)
        == sprite_hits_before(sprite, ox, oy, p, row, 8) by {}
    if flag == 1 {
        let w = choose|p: int|
            0 <= p < 2048 && #[trigger] sprite_hits_before(sprite, ox, oy, p, row, 8) && before[p]
                == 1;
        assert(sprite_hits_before(sprite, ox, oy, w, row + 1, 0));
    }
    assert forall|p: int|
        0 <= p < 2048 && #[trigger] sprite_hits_before(sprite, ox, oy, p, row + 1, 0) && before[p]
            == 1 implies flag == 1 by {
        assert(sprite_hits_before(sprite, ox, oy, p, row, 8));
    }
}

/// After the last row the frame buffer is the blitted one, the flag says
/// whether the sprite collided, and cells that were 0 or 1 still are.
pub proof fn lemma_draw_done(
    frame: Seq<u8>,
    flag: u8,
    before: Seq<u8>,
    sprite: Seq<u8>,
    ox: int,
    oy: int,
)
    requires
        drawn_up_to(frame, flag, before, sprite, ox, oy, sprite.len() as int, 0),
    ensures
        frame == blit(before, sprite, ox, oy),
        flag == 1 <==> collides(before, sprite, ox, oy),
        (forall|p: int| 0 <= p < 2048 ==> before[p] <= 1) ==> (forall|p: int|
            0 <= p < 2048 ==> frame[p] <= 1),
{
    let rows = sprite.len() as int;
    assert forall|p: int| 0 <= p < 2048 implies sprite_hits_before(sprite, ox, oy, p, rows, 0)
        == sprite_hits(sprite, ox, oy, p) by {}
    assert(frame =~= blit(before, sprite, ox, oy));
    if flag == 1 {
        let w = choose|p: int|
            0 <= p < 2048 && #[trigger] sprite_hits_before(sprite, ox, oy, p, rows, 0) && before[p]
                == 1;
        assert(sprite_hits(sprite, ox, oy, w) && before[w] == 1);
    }
    if collides(before, sprite, ox, oy) {
        let w = choose|p: int|
            0 <= p < before.len() && sprite_hits(sprite, ox, oy, p) && before[p] == 1;
        assert(sprite_hits_before(sprite, ox, oy, w, rows, 0));
    }
    if forall|p: int| 0 <= p < 2048 ==> before[p] <= 1 {
        assert forall|p: int| 0 <= p < 2048 implies frame[p] <= 1 by {
            lemma_flip(before[p]);
        }
    }
}

/// Drawing the same sprite a second time at the same place restores every
/// cell of the frame buffer, whatever the cells hold.
pub proof fn lemma_blit_twice(frame: Seq<u8>, sprite: Seq<u8>, ox: int, oy: int)
    ensures
        blit(blit(frame, sprite, ox, oy), sprite, ox, oy) == frame,
{
    let once = blit(frame, sprite, ox, oy);
    let twice = blit(once, sprite, ox, oy);
    assert forall|p: int| 0 <= p < frame.len() implies twice[p] == frame[p] by {
        lemma_flip(frame[p]);
    }
    assert(twice =~= frame);
}

} // verus!
