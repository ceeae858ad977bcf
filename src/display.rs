//! The 64x32 monochrome framebuffer and XOR sprite drawing.
use vstd::prelude::*;

verus! {

pub const CHIP8_WIDTH: usize = 64;

pub const CHIP8_HEIGHT: usize = 32;

pub const DISPLAY_SIZE: usize = 2048;

/// Largest number of rows in a sprite.
pub const MAX_SPRITE_ROWS: usize = 15;

/// Index of pixel `(px, py)` in the row-major buffer.
pub open spec fn pixel_index(px: int, py: int) -> int {
    py * CHIP8_WIDTH + px
}

/// Column of pixel `p` relative to a sprite placed at column `x0`, counted
/// with wraparound.
pub open spec fn sprite_col(p: int, x0: int) -> int {
    let px = p % 64;
    let a = x0 % 64;
    if px >= a { px - a } else { px + 64 - a }
}

/// Row of pixel `p` relative to a sprite placed at row `y0`, counted with
/// wraparound.
pub open spec fn sprite_row(p: int, y0: int) -> int {
    let py = p / 64;
    let b = y0 % 32;
    if py >= b { py - b } else { py + 32 - b }
}

/// Whether a sprite of `rows` rows placed at `(x0, y0)` covers pixel `p`.
pub open spec fn covers(rows: int, x0: int, y0: int, p: int) -> bool {
    sprite_col(p, x0) < 8 && sprite_row(p, y0) < rows
}

/// Bit `col` of a sprite row, the leftmost pixel being the high bit.
pub open spec fn row_bit(row: u8, col: int) -> u8 {
    (row >> ((7 - col) as u8)) & 1u8
}

/// The bit that a sprite placed at `(x0, y0)` XORs into pixel `p`.
pub open spec fn sprite_mask(sprite: Seq<u8>, x0: int, y0: int, p: int) -> u8 {
    if covers(sprite.len() as int, x0, y0, p) {
        row_bit(sprite[sprite_row(p, y0)], sprite_col(p, x0))
    } else {
        0u8
    }
}

/// The pixels after drawing `sprite` at `(x0, y0)` onto `d`.
pub open spec fn drawn(d: Seq<u8>, sprite: Seq<u8>, x0: int, y0: int) -> Seq<u8> {
    Seq::new(d.len(), |p: int| d[p] ^ sprite_mask(sprite, x0, y0, p))
}

/// Whether drawing `sprite` at `(x0, y0)` onto `d` clears a set pixel.
pub open spec fn collides(d: Seq<u8>, sprite: Seq<u8>, x0: int, y0: int) -> bool {
    exists|p: int| 0 <= p < d.len() && #[trigger] sprite_mask(sprite, x0, y0, p) == 1 && d[p] == 1
}

/// A blank frame.
pub open spec fn blank() -> Seq<u8> {
    Seq::new(DISPLAY_SIZE as nat, |p: int| 0u8)
}

/// The framebuffer: one byte per pixel, each 0 or 1.
pub struct Display {
    pixels: Vec<u8>,
}

impl View for Display {
    type V = Seq<u8>;

    closed spec fn view(&self) -> Seq<u8> {
        self.pixels@
    }
}

/// Pixel `(x0 + c, y0 + r)` with wraparound on both axes.
pub open spec fn target(x0: int, y0: int, r: int, c: int) -> int {
    pixel_index((x0 + c) % 64, (y0 + r) % 32)
}

proof fn lemma_target(x0: int, y0: int, r: int, c: int)
    requires
        0 <= x0,
        0 <= y0,
        0 <= r < 32,
        0 <= c < 64,
    ensures
        0 <= target(x0, y0, r, c) < DISPLAY_SIZE,
        sprite_col(target(x0, y0, r, c), x0) == c,
        sprite_row(target(x0, y0, r, c), y0) == r,
        forall|p: int|
            0 <= p < DISPLAY_SIZE && sprite_col(p, x0) == c && sprite_row(p, y0) == r ==> p
                == target(x0, y0, r, c),
{
    let t = target(x0, y0, r, c);
    let px = (x0 + c) % 64;
    let py = (y0 + r) % 32;
    assert(0 <= px < 64 && 0 <= py < 32);
    assert(t % 64 == px && t / 64 == py) by (nonlinear_arith)
        requires
            t == py * 64 + px,
            0 <= px < 64,
            0 <= py < 32,
    ;
    assert(px == (x0 % 64 + c) % 64) by (nonlinear_arith)
        requires
            px == (x0 + c) % 64,
            0 <= x0,
            0 <= c,
    ;
    assert(py == (y0 % 32 + r) % 32) by (nonlinear_arith)
        requires
            py == (y0 + r) % 32,
            0 <= y0,
            0 <= r,
    ;
    assert forall|p: int|
        0 <= p < DISPLAY_SIZE && sprite_col(p, x0) == c && sprite_row(p, y0) == r implies p
            == t by {
        assert(p == (p / 64) * 64 + p % 64) by (nonlinear_arith)
            requires
                0 <= p,
        ;
        assert(p / 64 < 32) by (nonlinear_arith)
            requires
                0 <= p < 2048,
        ;
    }
}

proof fn lemma_xor_bits(d: u8, m: u8)
    requires
        d <= 1,
        m <= 1,
    ensures
        d ^ m <= 1,
        d ^ 0u8 == d,
        (d ^ m) ^ m == d,
        (d ^ m == 0 && d == 1) <==> (m == 1 && d == 1),
{
    assert(d ^ m <= 1) by (bit_vector)
        requires
            d <= 1,
            m <= 1,
    ;
    assert(d ^ 0u8 == d) by (bit_vector);
    assert((d ^ m) ^ m == d) by (bit_vector);
    assert((d ^ m == 0 && d == 1) <==> (m == 1 && d == 1)) by (bit_vector)
        requires
            d <= 1,
            m <= 1,
    ;
}

proof fn lemma_row_bit(row: u8, col: int)
    requires
        0 <= col < 8,
    ensures
        row_bit(row, col) <= 1,
{
    let s = (7 - col) as u8;
    assert((row >> s) & 1u8 <= 1) by (bit_vector);
}

/// Drawing the same sprite twice at the same place restores the display,
/// and the second draw reports a collision exactly when some lit pixel of
/// the sprite fell on a pixel that was dark before the first draw.
pub proof fn lemma_draw_twice_restores(d: Seq<u8>, sprite: Seq<u8>, x0: int, y0: int)
    requires
        d.len() == DISPLAY_SIZE,
        forall|p: int| 0 <= p < DISPLAY_SIZE ==> #[trigger] d[p] <= 1,
    ensures
        drawn(drawn(d, sprite, x0, y0), sprite, x0, y0) == d,
        collides(drawn(d, sprite, x0, y0), sprite, x0, y0) <==> exists|p: int|
            0 <= p < DISPLAY_SIZE && #[trigger] sprite_mask(sprite, x0, y0, p) == 1 && d[p] == 0,
{
    let once = drawn(d, sprite, x0, y0);
    assert forall|p: int| 0 <= p < DISPLAY_SIZE implies #[trigger] sprite_mask(sprite, x0, y0, p)
        <= 1 && (once[p] ^ sprite_mask(sprite, x0, y0, p)) == d[p] && (once[p] == 1
        <==> (d[p] == 0 && sprite_mask(sprite, x0, y0, p) == 1) || (d[p] == 1 && sprite_mask(
        sprite,
        x0,
        y0,
        p,
    ) == 0)) by {
        let m = sprite_mask(sprite, x0, y0, p);
        if covers(sprite.len() as int, x0, y0, p) {
            lemma_row_bit(sprite[sprite_row(p, y0)], sprite_col(p, x0));
        }
        lemma_xor_bits(d[p], m);
        let dp = d[p];
        assert((dp ^ m) == 1 <==> (dp == 0 && m == 1) || (dp == 1 && m == 0)) by (bit_vector)
            requires
                dp <= 1,
                m <= 1,
        ;
    }
    assert(drawn(once, sprite, x0, y0) =~= d);
}

impl Display {
    pub open spec fn wf(&self) -> bool {
        &&& self@.len() == DISPLAY_SIZE
        &&& forall|p: int| 0 <= p < DISPLAY_SIZE ==> #[trigger] self@[p] <= 1
    }

    /// A blank display.
    pub fn new() -> (r: Display)
        ensures
            r.wf(),
            r@ == blank(),
    {
        let mut pixels: Vec<u8> = Vec::new();
        let mut i: usize = 0;
        while i < DISPLAY_SIZE
            invariant
                i <= DISPLAY_SIZE,
                pixels@ == Seq::new(i as nat, |p: int| 0u8),
            decreases DISPLAY_SIZE - i,
        {
            pixels.push(0u8);
            i += 1;
            assert(pixels@ =~= Seq::new(i as nat, |p: int| 0u8));
        }
        Display { pixels }
    }

    /// Turns every pixel off.
    pub fn clear(&mut self)
        requires
            old(self).wf(),
        ensures
            final(self).wf(),
            final(self)@ == blank(),
    {
        let mut i: usize = 0;
        while i < DISPLAY_SIZE
            invariant
                i <= DISPLAY_SIZE,
                self@.len() == DISPLAY_SIZE,
                forall|p: int| 0 <= p < i ==> self@[p] == 0u8,
            decreases DISPLAY_SIZE - i,
        {
            self.pixels.set(i, 0u8);
            i += 1;
        }
        assert(self@ =~= blank());
    }

    /// The pixel at `(x, y)`: 1 if lit, 0 if not.
    pub fn pixel(&self, x: usize, y: usize) -> (r: u8)
        requires
            self.wf(),
            x < CHIP8_WIDTH,
            y < CHIP8_HEIGHT,
        ensures
            r == self@[pixel_index(x as int, y as int)],
    {
        self.pixels[y * CHIP8_WIDTH + x]
    }

    /// XORs `sprite` (one byte per row) onto the display with its top-left
    /// corner at `(x0, y0)`, wrapping around both axes, and returns whether a
    /// lit pixel was turned off.
    pub fn draw_sprite(&mut self, sprite: &Vec<u8>, x0: u8, y0: u8) -> (collision: bool)
        requires
            old(self).wf(),
            sprite@.len() <= MAX_SPRITE_ROWS,
        ensures
            final(self).wf(),
            final(self)@ == drawn(old(self)@, sprite@, x0 as int, y0 as int),
            collision == collides(old(self)@, sprite@, x0 as int, y0 as int),
    {
        let ghost d0 = self@;
        let ghost x = x0 as int;
        let ghost y = y0 as int;
        let ghost len = sprite@.len() as int;
        let mut hit = false;
        let mut row: usize = 0;
        while row < sprite.len()
            invariant
                row <= sprite@.len() <= MAX_SPRITE_ROWS,
                len == sprite@.len(),
                x == x0 as int,
                y == y0 as int,
                d0.len() == DISPLAY_SIZE,
                forall|p: int| 0 <= p < DISPLAY_SIZE ==> #[trigger] d0[p] <= 1,
                self@.len() == DISPLAY_SIZE,
                forall|p: int|
                    0 <= p < DISPLAY_SIZE ==> #[trigger] self@[p] == if covers(row as int, x, y, p) {
                        d0[p] ^ sprite_mask(sprite@, x, y, p)
                    } else {
                        d0[p]
                    },
                hit == exists|p: int|
                    0 <= p < DISPLAY_SIZE && covers(row as int, x, y, p) && #[trigger] sprite_mask(
                        sprite@,
                        x,
                        y,
                        p,
                    ) == 1 && d0[p] == 1,
            decreases sprite@.len() - row,
        {
            let bits = sprite[row];
            let mut col: usize = 0;
            while col < 8
                invariant
                    row < sprite@.len() <= MAX_SPRITE_ROWS,
                    len == sprite@.len(),
                    bits == sprite@[row as int],
                    col <= 8,
                    x == x0 as int,
                    y == y0 as int,
                    d0.len() == DISPLAY_SIZE,
                    forall|p: int| 0 <= p < DISPLAY_SIZE ==> #[trigger] d0[p] <= 1,
                    self@.len() == DISPLAY_SIZE,
                    forall|p: int|
                        0 <= p < DISPLAY_SIZE ==> #[trigger] self@[p] == if covers(row as int, x, y, p)
                            || (sprite_row(p, y) == row && sprite_col(p, x) < col) {
                            d0[p] ^ sprite_mask(sprite@, x, y, p)
                        } else {
                            d0[p]
                        },
                    hit == exists|p: int|
                        0 <= p < DISPLAY_SIZE && (covers(row as int, x, y, p) || (sprite_row(p, y)
                            == row && sprite_col(p, x) < col)) && #[trigger] sprite_mask(
                            sprite@,
                            x,
                            y,
                            p,
                        ) == 1 && d0[p] == 1,
                decreases 8 - col,
            {
                let dx: usize = (col + x0 as usize) % CHIP8_WIDTH;
                let dy: usize = (row + y0 as usize) % CHIP8_HEIGHT;
                let idx: usize = dy * CHIP8_WIDTH + dx;
                let color: u8 = (bits >> ((7 - col) as u8)) & 1u8;
                proof {
                    lemma_target(x, y, row as int, col as int);
                    assert(idx == target(x, y, row as int, col as int));
                    lemma_row_bit(bits, col as int);
                    assert(covers(len, x, y, idx as int));
                    assert(sprite_mask(sprite@, x, y, idx as int) == color);
                    assert(!covers(row as int, x, y, idx as int));
                    assert(self@[idx as int] == d0[idx as int]);
                    lemma_xor_bits(d0[idx as int], color);
                }
                let old_pixel = self.pixels[idx];
                if color == 1 && old_pixel == 1 {
                    hit = true;
                }
                self.pixels.set(idx, old_pixel ^ color);
                col += 1;
                proof {
                    if hit {
                        assert(exists|p: int|
                            0 <= p < DISPLAY_SIZE && (covers(row as int, x, y, p) || (sprite_row(
                                p,
                                y,
                            ) == row && sprite_col(p, x) < col)) && #[trigger] sprite_mask(
                                sprite@,
                                x,
                                y,
                                p,
                            ) == 1 && d0[p] == 1);
                    }
                }
            }
            row += 1;
            proof {
                assert forall|p: int| 0 <= p < DISPLAY_SIZE implies #[trigger] self@[p] == if covers(
                    row as int,
                    x,
                    y,
                    p,
                ) {
                    d0[p] ^ sprite_mask(sprite@, x, y, p)
                } else {
                    d0[p]
                } by {}
            }
        }
        proof {
            assert forall|p: int| 0 <= p < DISPLAY_SIZE implies #[trigger] self@[p] <= 1 by {
                lemma_xor_bits(d0[p], 0u8);
                if covers(len, x, y, p) {
                    lemma_row_bit(sprite@[sprite_row(p, y)], sprite_col(p, x));
                    lemma_xor_bits(d0[p], sprite_mask(sprite@, x, y, p));
                }
            }
            assert forall|p: int| 0 <= p < DISPLAY_SIZE implies self@[p] == #[trigger] drawn(
                d0,
                sprite@,
                x,
                y,
            )[p] by {
                lemma_xor_bits(d0[p], 0u8);
            }
            assert(self@ =~= drawn(d0, sprite@, x, y));
        }
        hit
    }
}

} // verus!
