//! The monochrome display: 64 by 32 pixels, row-major, drawn on by XOR.
//!
//! Drawing is specified pixel by pixel. A sprite placed at (`x`, `y`) covers
//! the pixel (`px`, `py`) when the pixel lies `column < 8` places right of
//! `x` and `row < rows` places below `y`, both counted around the edges, and
//! bit `column` of the sprite's row `row` is set. Drawing flips exactly the
//! covered pixels.

use vstd::prelude::*;

verus! {

/// The number of pixels in a row.
pub const WIDTH: usize = 64;

/// The number of rows.
pub const HEIGHT: usize = 32;

/// The number of pixels.
pub const PIXELS: usize = 2048;

/// The most rows a sprite can have.
pub const MAX_SPRITE_ROWS: usize = 15;

/// Whether the bit for `column` is set in a sprite row. Column 0 is the
/// leftmost pixel and the byte's most significant bit.
pub open spec fn sprite_bit(bits: u8, column: u8) -> bool {
    bits & (0x80u8 >> column) != 0
}

/// Whether the sprite placed at (`x`, `y`) covers the pixel (`px`, `py`).
pub open spec fn sprite_covers(sprite: Seq<u8>, x: int, y: int, px: int, py: int) -> bool {
    let column = (px - x) % 64;
    let row = (py - y) % 32;
    column < 8 && row < sprite.len() && sprite_bit(sprite[row], column as u8)
}

/// Whether the sprite placed at (`x`, `y`) covers the pixel with index `p`.
pub open spec fn covers_pixel(sprite: Seq<u8>, x: int, y: int, p: int) -> bool {
    sprite_covers(sprite, x, y, p % 64, p / 64)
}

/// The pixels after the sprite has been drawn at (`x`, `y`): each covered
/// pixel is flipped, every other pixel is kept.
pub open spec fn drawn(pixels: Seq<bool>, sprite: Seq<u8>, x: int, y: int) -> Seq<bool> {
    Seq::new(2048, |p: int| pixels[p] != covers_pixel(sprite, x, y, p))
}

/// Whether drawing the sprite at (`x`, `y`) clears a pixel that was set.
pub open spec fn collides(pixels: Seq<bool>, sprite: Seq<u8>, x: int, y: int) -> bool {
    exists|p: int| 0 <= p < 2048 && #[trigger] pixels[p] && covers_pixel(sprite, x, y, p)
}

/// The display with every pixel clear.
pub open spec fn blank() -> Seq<bool> {
    Seq::new(2048, |p: int| false)
}

/// Whether the sprite covers pixel `p` with a bit that comes before bit
/// `column` of row `row`, rows first.
spec fn covered_before(sprite: Seq<u8>, x: int, y: int, p: int, row: int, column: int) -> bool {
    let c = (p % 64 - x) % 64;
    let r = (p / 64 - y) % 32;
    covers_pixel(sprite, x, y, p) && (r < row || (r == row && c < column))
}

/// Whether pixel `p` was set and is covered before bit `column` of row `row`.
spec fn hit_before(
    pixels: Seq<bool>,
    sprite: Seq<u8>,
    x: int,
    y: int,
    p: int,
    row: int,
    column: int,
) -> bool {
    0 <= p < 2048 && pixels[p] && covered_before(sprite, x, y, p, row, column)
}

/// Going `offset` places on from `origin` around a ring of 64 leads to
/// `place`, and to no other place of the ring.
proof fn lemma_around_row(origin: int, offset: int, place: int)
    requires
        0 <= origin < 256,
        0 <= offset < 64,
        0 <= place < 64,
    ensures
        place == (origin % 64 + offset) % 64 <==> (place - origin) % 64 == offset,
{
    let turns = origin / 64;
    let start = origin % 64;
    assert(origin == 64 * turns + start);
    assert((place - origin) % 64 == (place - start) % 64) by {
        vstd::arithmetic::div_mod::lemma_mod_multiples_vanish(-turns, place - start, 64);
    }
}

/// Going `offset` places on from `origin` around a ring of 32 leads to
/// `place`, and to no other place of the ring.
proof fn lemma_around_column(origin: int, offset: int, place: int)
    requires
        0 <= origin < 256,
        0 <= offset < 32,
        0 <= place < 32,
    ensures
        place == (origin % 32 + offset) % 32 <==> (place - origin) % 32 == offset,
{
    let turns = origin / 32;
    let start = origin % 32;
    assert(origin == 32 * turns + start);
    assert((place - origin) % 32 == (place - start) % 32) by {
        vstd::arithmetic::div_mod::lemma_mod_multiples_vanish(-turns, place - start, 32);
    }
}

/// The pixel that bit `column` of row `row` lands on is found again from its
/// index, and no other pixel is.
proof fn lemma_landing_pixel(x: int, y: int, row: int, column: int, p: int)
    requires
        0 <= x < 256,
        0 <= y < 256,
        0 <= row < 32,
        0 <= column < 8,
        0 <= p < 2048,
    ensures
        (p == ((y % 32 + row) % 32) * 64 + (x % 64 + column) % 64) <==> ((p % 64 - x) % 64
            == column && (p / 64 - y) % 32 == row),
{
    let px = p % 64;
    let py = p / 64;
    let tx = (x % 64 + column) % 64;
    let ty = (y % 32 + row) % 32;
    assert(p == py * 64 + px);
    lemma_around_row(x, column, px);
    lemma_around_column(y, row, py);
    assert(p == ty * 64 + tx <==> (py == ty && px == tx));
}

/// The display.
#[derive(Debug)]
pub struct Display {
    pixels: [bool; 2048],
}

impl View for Display {
    type V = Seq<bool>;

    closed spec fn view(&self) -> Seq<bool> {
        self.pixels@
    }
}

impl Display {
    /// A display with every pixel clear.
    pub fn new() -> (display: Display)
        ensures
            display@ == blank(),
    {
        let display = Display { pixels: [false;2048] };
        assert(display@ =~= blank());
        display
    }

    /// The pixels, row-major: the pixel in column `x` of row `y` has index
    /// `y * 64 + x`.
    pub fn pixels(&self) -> (pixels: &[bool; 2048])
        ensures
            pixels@ == self@,
            self@.len() == 2048,
    {
        &self.pixels
    }

    /// Draws the sprite whose `rows` rows are the bytes of `memory` from
    /// `start` on at (`x`, `y`), and reports whether a set pixel was cleared.
    pub fn draw(&mut self, memory: &[u8; 4096], start: usize, rows: usize, x: u8, y: u8) -> (collision:
        bool)
        requires
            rows <= MAX_SPRITE_ROWS,
            start + rows <= 4096,
        ensures
            final(self)@ == drawn(
                old(self)@,
                memory@.subrange(start as int, start + rows),
                x as int,
                y as int,
            ),
            collision == collides(
                old(self)@,
                memory@.subrange(start as int, start + rows),
                x as int,
                y as int,
            ),
        no_unwind
    {
        let ghost sprite = memory@.subrange(start as int, start + rows);
        let ghost before = self@;
        let ghost xi = x as int;
        let ghost yi = y as int;
        let left: usize = (x % 64) as usize;
        let top: usize = (y % 32) as usize;
        let mut collision = false;
        let mut row: usize = 0;
        while row < rows
            invariant
                row <= rows <= 15,
                start + rows <= 4096,
                sprite == memory@.subrange(start as int, start + rows),
                before.len() == 2048,
                xi == x,
                yi == y,
                left == x % 64,
                top == y % 32,
                forall|p: int|
                    0 <= p < 2048 ==> #[trigger] self@[p] == (before[p] != covered_before(
                        sprite,
                        xi,
                        yi,
                        p,
                        row as int,
                        0,
                    )),
                collision <==> exists|p: int|
                    #[trigger] hit_before(before, sprite, xi, yi, p, row as int, 0),
            decreases rows - row,
        {
            let bits: u8 = memory[start + row];
            let py: usize = (top + row) % 32;
            let mut column: u8 = 0;
            while column < 8
                invariant
                    row < rows <= 15,
                    sprite.len() == rows,
                    before.len() == 2048,
                    xi == x,
                    yi == y,
                    left == x % 64,
                    top == y % 32,
                    py == (top + row) % 32,
                    bits == sprite[row as int],
                    column <= 8,
                    forall|p: int|
                        0 <= p < 2048 ==> #[trigger] self@[p] == (before[p] != covered_before(
                            sprite,
                            xi,
                            yi,
                            p,
                            row as int,
                            column as int,
                        )),
                    collision <==> exists|p: int|
                        #[trigger] hit_before(
                            before,
                            sprite,
                            xi,
                            yi,
                            p,
                            row as int,
                            column as int,
                        ),
                decreases 8 - column,
            {
                let px: usize = (left + column as usize) % 64;
                let target: usize = py * 64 + px;
                let ghost now = self@;
                let ghost collided = collision;
                if bits & (0x80u8 >> column) != 0 {
                    if self.pixels[target] {
                        collision = true;
                    }
                    self.pixels[target] = !self.pixels[target];
                }
                proof {
                    let set = sprite_bit(bits, column);
                    assert forall|p: int| 0 <= p < 2048 implies (covered_before(
                        sprite,
                        xi,
                        yi,
                        p,
                        row as int,
                        column + 1,
                    ) == (covered_before(sprite, xi, yi, p, row as int, column as int) || (p
                        == target && set))) by {
                        lemma_landing_pixel(xi, yi, row as int, column as int, p);
                    }
                    assert(!covered_before(
                        sprite,
                        xi,
                        yi,
                        target as int,
                        row as int,
                        column as int,
                    )) by {
                        lemma_landing_pixel(xi, yi, row as int, column as int, target as int);
                    }
                    assert(now[target as int] == before[target as int]);
                    assert forall|p: int| 0 <= p < 2048 implies #[trigger] self@[p] == (before[p]
                        != covered_before(sprite, xi, yi, p, row as int, column + 1)) by {
                        assert(now[p] == (before[p] != covered_before(
                            sprite,
                            xi,
                            yi,
                            p,
                            row as int,
                            column as int,
                        )));
                    }
                    if collision {
                        if collided {
                            let q = choose|q: int|
                                #[trigger] hit_before(
                                    before,
                                    sprite,
                                    xi,
                                    yi,
                                    q,
                                    row as int,
                                    column as int,
                                );
                            assert(hit_before(before, sprite, xi, yi, q, row as int, column + 1));
                        } else {
                            assert(hit_before(
                                before,
                                sprite,
                                xi,
                                yi,
                                target as int,
                                row as int,
                                column + 1,
                            ));
                        }
                    } else {
                        assert forall|q: int|
                            !#[trigger] hit_before(
                                before,
                                sprite,
                                xi,
                                yi,
                                q,
                                row as int,
                                column + 1,
                            ) by {
                            assert(!hit_before(
                                before,
                                sprite,
                                xi,
                                yi,
                                q,
                                row as int,
                                column as int,
                            ));
                        }
                    }
                }
                column += 1;
            }
            proof {
                assert forall|p: int| 0 <= p < 2048 implies covered_before(
                    sprite,
                    xi,
                    yi,
                    p,
                    row as int,
                    8,
                ) == covered_before(sprite, xi, yi, p, row + 1, 0) by {}
                if collision {
                    let q = choose|q: int|
                        #[trigger] hit_before(before, sprite, xi, yi, q, row as int, 8);
                    assert(hit_before(before, sprite, xi, yi, q, row + 1, 0));
                } else {
                    assert forall|q: int|
                        !#[trigger] hit_before(before, sprite, xi, yi, q, row + 1, 0) by {
                        assert(!hit_before(before, sprite, xi, yi, q, row as int, 8));
                    }
                }
            }
            row += 1;
        }
        proof {
            assert forall|p: int| 0 <= p < 2048 implies covered_before(
                sprite,
                xi,
                yi,
                p,
                row as int,
                0,
            ) == covers_pixel(sprite, xi, yi, p) by {}
            assert(self@ =~= drawn(before, sprite, xi, yi));
            if collision {
                let q = choose|q: int|
                    #[trigger] hit_before(before, sprite, xi, yi, q, row as int, 0);
                assert(before[q] && covers_pixel(sprite, xi, yi, q));
            } else {
                assert forall|q: int| 0 <= q < 2048 && #[trigger] before[q] implies !covers_pixel(
                    sprite,
                    xi,
                    yi,
                    q,
                ) by {
                    assert(!hit_before(before, sprite, xi, yi, q, row as int, 0));
                }
            }
        }
        collision
    }
}

/// Drawing the same sprite twice at the same place restores the pixels.
pub proof fn lemma_draw_twice_restores(pixels: Seq<bool>, sprite: Seq<u8>, x: int, y: int)
    requires
        pixels.len() == 2048,
    ensures
        drawn(drawn(pixels, sprite, x, y), sprite, x, y) == pixels,
{
    assert(drawn(drawn(pixels, sprite, x, y), sprite, x, y) =~= pixels);
}

/// A draw collides exactly when some pixel goes from set to clear.
pub proof fn lemma_collision_is_a_cleared_pixel(
    pixels: Seq<bool>,
    sprite: Seq<u8>,
    x: int,
    y: int,
)
    requires
        pixels.len() == 2048,
    ensures
        collides(pixels, sprite, x, y) <==> exists|p: int|
            0 <= p < 2048 && #[trigger] pixels[p] && !drawn(pixels, sprite, x, y)[p],
{
    let after = drawn(pixels, sprite, x, y);
    if collides(pixels, sprite, x, y) {
        let p = choose|p: int|
            0 <= p < 2048 && #[trigger] pixels[p] && covers_pixel(sprite, x, y, p);
        assert(pixels[p] && !after[p]);
    }
    if exists|p: int| 0 <= p < 2048 && #[trigger] pixels[p] && !after[p] {
        let p = choose|p: int| 0 <= p < 2048 && #[trigger] pixels[p] && !after[p];
        assert(pixels[p] && covers_pixel(sprite, x, y, p));
    }
}

} // verus!
