use vstd::prelude::*;
use vstd::arithmetic::div_mod::lemma_fundamental_div_mod_converse;

verus! {

/// Width of the frame in pixels.
pub const ROW_WIDTH: u32 = 64;

/// Height of the frame in pixels.
pub const ROW_HEIGHT: u32 = 32;

/// Number of pixels in the frame.
pub const PIXEL_COUNT: usize = 2048;

/// A 64x32 monochrome frame, stored row-major: pixel `(x, y)` is at
/// `y * 64 + x`. A pixel is lit when it holds 1.
pub struct Screen {
    pixels: [u8; 2048],
}

impl View for Screen {
    type V = Seq<u8>;

    closed spec fn view(&self) -> Seq<u8> {
        self.pixels@
    }
}

/// The frame with every pixel dark.
pub open spec fn blank() -> Seq<u8> {
    Seq::new(2048, |_i: int| 0u8)
}

/// Index of pixel `(px, py)` in a row-major frame.
pub open spec fn pixel_index(px: int, py: int) -> int {
    py * 64 + px
}

/// Whether column `col` of a sprite row is set; column 0 is the most
/// significant bit.
pub open spec fn sprite_bit(byte: u8, col: int) -> bool {
    byte & (0x80u8 >> (col as u8)) != 0
}

/// Whether frame pixel `i` lies under a set bit of `sprite` placed with its
/// top-left corner at `(x, y)`, counting the first `cols` columns of each row.
/// Pixels past the right or bottom edge do not exist, so the sprite is
/// clipped there.
pub open spec fn covered(sprite: Seq<u8>, x: int, y: int, cols: int, i: int) -> bool {
    let px = i % 64;
    let py = i / 64;
    &&& y <= py < y + sprite.len()
    &&& x <= px < x + cols
    &&& sprite_bit(sprite[py - y], px - x)
}

/// The frame `p` with every pixel covered by the sprite flipped.
pub open spec fn xor_sprite(p: Seq<u8>, sprite: Seq<u8>, x: int, y: int, cols: int) -> Seq<u8> {
    Seq::new(p.len(), |i: int| if covered(sprite, x, y, cols, i) { p[i] ^ 1u8 } else { p[i] })
}

/// Whether the sprite covers a lit pixel of `p`, which drawing would turn off.
pub open spec fn collides(p: Seq<u8>, sprite: Seq<u8>, x: int, y: int, cols: int) -> bool {
    exists|i: int| 0 <= i < p.len() && #[trigger] covered(sprite, x, y, cols, i) && p[i] == 1
}

/// The frame after drawing `sprite` at `(x, y)`: the origin wraps around the
/// frame, the sprite's eight columns and its rows are clipped at the edges.
pub open spec fn drawn(p: Seq<u8>, x: int, y: int, sprite: Seq<u8>) -> Seq<u8> {
    xor_sprite(p, sprite, x % 64, y % 32, 8)
}

/// Whether drawing `sprite` at `(x, y)` on `p` turns a lit pixel off.
pub open spec fn draw_collides(p: Seq<u8>, x: int, y: int, sprite: Seq<u8>) -> bool {
    collides(p, sprite, x % 64, y % 32, 8)
}

/// Row-major indexing: `i` is pixel `(px, py)` exactly when it sits at that
/// column and row.
proof fn lemma_pixel_index(i: int, px: int, py: int)
    requires
        0 <= i,
        0 <= px < 64,
        0 <= py,
    ensures
        (i == pixel_index(px, py)) <==> (i % 64 == px && i / 64 == py),
{
    if i == pixel_index(px, py) {
        lemma_fundamental_div_mod_converse(i, 64, py, px);
    }
}

/// Adding column `col` to a one-row sprite covers the single pixel at that
/// column, when its bit is set.
proof fn lemma_cover_column(byte: u8, x: int, py: int, col: int, i: int)
    requires
        0 <= x,
        0 <= col,
        x + col < 64,
        0 <= py,
        0 <= i,
    ensures
        covered(seq![byte], x, py, col + 1, i) <==> (covered(seq![byte], x, py, col, i) || (i
            == pixel_index(x + col, py) && sprite_bit(byte, col))),
        !covered(seq![byte], x, py, col, pixel_index(x + col, py)),
{
    lemma_pixel_index(i, x + col, py);
    lemma_pixel_index(pixel_index(x + col, py), x + col, py);
}

/// Columns past the right edge cover nothing.
proof fn lemma_cover_clipped(sprite: Seq<u8>, x: int, y: int, cols: int, i: int)
    requires
        x + cols >= 64 || cols == 8,
        cols <= 8,
        0 <= i,
    ensures
        covered(sprite, x, y, cols, i) == covered(sprite, x, y, 8, i),
{
}

/// Row `r` of a sprite covers what the one-row sprite of that byte covers one
/// row lower, and nothing that the rows above it cover.
proof fn lemma_cover_row(sprite: Seq<u8>, x: int, y: int, r: int, i: int)
    requires
        0 <= r < sprite.len(),
        0 <= i,
    ensures
        covered(sprite.take(r + 1), x, y, 8, i) <==> (covered(sprite.take(r), x, y, 8, i)
            || covered(seq![sprite[r]], x, y + r, 8, i)),
        !(covered(sprite.take(r), x, y, 8, i) && covered(seq![sprite[r]], x, y + r, 8, i)),
{
}

/// A row below the bottom edge covers nothing.
proof fn lemma_cover_below(byte: u8, x: int, py: int, i: int)
    requires
        py >= 32,
        0 <= i < 2048,
    ensures
        !covered(seq![byte], x, py, 8, i),
{
}

impl Screen {
    /// A dark frame.
    pub fn new() -> (r: Screen)
        ensures
            r@ == blank(),
    {
        let r = Screen { pixels: [0; 2048] };
        assert(r@ =~= blank());
        r
    }

    /// Turns every pixel dark.
    pub fn clear(&mut self)
        ensures
            final(self)@ == blank(),
    {
        self.pixels = [0; 2048];
        assert(self@ =~= blank());
    }

    /// Flips the pixels of row `py` under the set bits of `byte`, starting at
    /// column `x`; returns whether a lit pixel was turned off.
    fn draw_row(&mut self, x: usize, py: usize, byte: u8) -> (hit: bool)
        requires
            x < 64,
            py < 32,
        ensures
            final(self)@ == xor_sprite(old(self)@, seq![byte], x as int, py as int, 8),
            hit == collides(old(self)@, seq![byte], x as int, py as int, 8),
    {
        let ghost start = self@;
        let ghost row = seq![byte];
        let mut hit = false;
        let mut col: usize = 0;
        assert(self@ =~= xor_sprite(start, row, x as int, py as int, 0));
        while col < 8 && x + col < 64
            invariant
                x < 64,
                py < 32,
                col <= 8,
                x + col <= 64,
                start.len() == 2048,
                row == seq![byte],
                self@ == xor_sprite(start, row, x as int, py as int, col as int),
                hit == collides(start, row, x as int, py as int, col as int),
            decreases 8 - col,
        {
            let ghost idx = pixel_index((x + col) as int, py as int);
            assert forall|i: int| 0 <= i < 2048 implies #[trigger] covered(
                row,
                x as int,
                py as int,
                col + 1,
                i,
            ) <==> (covered(row, x as int, py as int, col as int, i) || (i == idx && sprite_bit(
                byte,
                col as int,
            ))) by {
                lemma_cover_column(byte, x as int, py as int, col as int, i);
            }
            proof {
                lemma_cover_column(byte, x as int, py as int, col as int, 0);
            }
            if byte & (0x80u8 >> (col as u8)) != 0 {
                let i = py * 64 + x + col;
                assert(self@[idx] == start[idx]);
                if self.pixels[i] == 1 {
                    hit = true;
                }
                self.pixels[i] = self.pixels[i] ^ 1;
            }
            assert(self@ =~= xor_sprite(start, row, x as int, py as int, col + 1));
            proof {
                let c = col as int;
                if collides(start, row, x as int, py as int, c + 1) {
                    let i = choose|i: int|
                        0 <= i < start.len() && #[trigger] covered(row, x as int, py as int, c + 1, i)
                            && start[i] == 1;
                    assert(covered(row, x as int, py as int, c, i) || i == idx);
                }
                if collides(start, row, x as int, py as int, c) {
                    let i = choose|i: int|
                        0 <= i < start.len() && #[trigger] covered(row, x as int, py as int, c, i)
                            && start[i] == 1;
                    assert(covered(row, x as int, py as int, c + 1, i));
                }
                if sprite_bit(byte, c) && start[idx] == 1 {
                    assert(covered(row, x as int, py as int, c + 1, idx));
                }
            }
            col += 1;
        }
        assert forall|i: int| 0 <= i < 2048 implies #[trigger] covered(
            row,
            x as int,
            py as int,
            col as int,
            i,
        ) == covered(row, x as int, py as int, 8, i) by {
            lemma_cover_clipped(row, x as int, py as int, col as int, i);
        }
        assert(self@ =~= xor_sprite(start, row, x as int, py as int, 8));
        proof {
            if collides(start, row, x as int, py as int, 8) {
                let i = choose|i: int|
                    0 <= i < start.len() && #[trigger] covered(row, x as int, py as int, 8, i)
                        && start[i] == 1;
                assert(covered(row, x as int, py as int, col as int, i));
            }
        }
        hit
    }

    /// Draws `sprite` with its top-left corner at `(x, y)`, one byte per row,
    /// flipping every pixel under a set bit. The origin wraps around the frame;
    /// the sprite is clipped at the right and bottom edges. Returns 1 when a
    /// lit pixel was turned off, else 0.
    pub fn draw(&mut self, x: usize, y: usize, sprite: &[u8]) -> (flag: u8)
        ensures
            final(self)@ == drawn(old(self)@, x as int, y as int, sprite@),
            flag == (if draw_collides(old(self)@, x as int, y as int, sprite@) {
                1u8
            } else {
                0u8
            }),
    {
        let ghost start = self@;
        let x0 = x % 64;
        let y0 = y % 32;
        let mut flag: u8 = 0;
        let mut r: usize = 0;
        assert(self@ =~= xor_sprite(start, sprite@.take(0), x0 as int, y0 as int, 8));
        while r < sprite.len()
            invariant
                x0 < 64,
                y0 < 32,
                x0 == x % 64,
                y0 == y % 32,
                r <= sprite@.len(),
                start.len() == 2048,
                self@ == xor_sprite(start, sprite@.take(r as int), x0 as int, y0 as int, 8),
                flag == (if collides(start, sprite@.take(r as int), x0 as int, y0 as int, 8) {
                    1u8
                } else {
                    0u8
                }),
            decreases sprite@.len() - r,
        {
            let ghost before = self@;
            let ghost row = seq![sprite@[r as int]];
            if r < 32 - y0 {
                let hit = self.draw_row(x0, y0 + r, sprite[r]);
                if hit {
                    flag = 1;
                }
            } else {
                assert forall|i: int| 0 <= i < 2048 implies !#[trigger] covered(
                    row,
                    x0 as int,
                    (y0 + r) as int,
                    8,
                    i,
                ) by {
                    lemma_cover_below(sprite@[r as int], x0 as int, (y0 + r) as int, i);
                }
                assert(self@ =~= xor_sprite(before, row, x0 as int, (y0 + r) as int, 8));
            }
            assert forall|i: int| 0 <= i < 2048 implies (#[trigger] covered(
                sprite@.take(r + 1),
                x0 as int,
                y0 as int,
                8,
                i,
            ) <==> (covered(sprite@.take(r as int), x0 as int, y0 as int, 8, i) || covered(
                row,
                x0 as int,
                (y0 + r) as int,
                8,
                i,
            ))) && !(covered(sprite@.take(r as int), x0 as int, y0 as int, 8, i) && covered(
                row,
                x0 as int,
                (y0 + r) as int,
                8,
                i,
            )) by {
                lemma_cover_row(sprite@, x0 as int, y0 as int, r as int, i);
            }
            assert(self@ =~= xor_sprite(start, sprite@.take(r + 1), x0 as int, y0 as int, 8));
            proof {
                let a = sprite@.take(r as int);
                let b = sprite@.take(r + 1);
                let (xi, yi, ri) = (x0 as int, y0 as int, (y0 + r) as int);
                if collides(start, b, xi, yi, 8) {
                    let i = choose|i: int|
                        0 <= i < start.len() && #[trigger] covered(b, xi, yi, 8, i) && start[i] == 1;
                    if !covered(a, xi, yi, 8, i) {
                        assert(covered(row, xi, ri, 8, i) && before[i] == 1);
                    }
                }
                if collides(start, a, xi, yi, 8) {
                    let i = choose|i: int|
                        0 <= i < start.len() && #[trigger] covered(a, xi, yi, 8, i) && start[i] == 1;
                    assert(covered(b, xi, yi, 8, i));
                }
                if collides(before, row, xi, ri, 8) {
                    let i = choose|i: int|
                        0 <= i < before.len() && #[trigger] covered(row, xi, ri, 8, i) && before[i]
                            == 1;
                    assert(covered(b, xi, yi, 8, i) && start[i] == 1);
                }
            }
            r += 1;
        }
        assert(sprite@.take(sprite@.len() as int) =~= sprite@);
        flag
    }

    /// The pixel at column `x`, row `y`.
    pub fn get_pixel(&self, x: usize, y: usize) -> (r: u8)
        requires
            x < 64,
            y < 32,
        ensures
            r == self@[pixel_index(x as int, y as int)],
    {
        self.pixels[y * 64 + x]
    }
}

} // verus!
