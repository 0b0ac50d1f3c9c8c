//! Display interface: the draw-result enumeration, the collaborator
//! trait the engine draws through, a no-op collaborator for headless
//! use, and a verified 64x32 monochrome framebuffer.

use vstd::prelude::*;
use vstd::arithmetic::div_mod::{
    lemma_fundamental_div_mod,
    lemma_mod_multiples_vanish,
    lemma_small_mod,
};

verus! {

/// What a draw reports: whether any pixel flipped from set to unset.
#[derive(Clone, Copy, Debug, PartialEq, Eq, Structural)]
pub enum DisplayDrawResult {
    /// At least one pixel flipped from set to unset.
    Collision,
    /// No pixel flipped from set to unset.
    Free,
}

/// A display collaborator. The engine hands `draw` the coordinates
/// (V[X], V[Y]) and the sprite rows it fetched from memory at I; each
/// row is 8 pixels wide, one bit per pixel, most significant bit
/// leftmost. The sprite is XORed onto the surface and the result
/// reports whether any pixel was cleared.
pub trait Display: Sized {
    /// A fresh surface.
    fn new() -> Self;

    /// Clear the surface.
    fn clear(&mut self);

    /// XOR a sprite onto the surface at (x, y) and report collisions.
    fn draw(&mut self, x: &u8, y: &u8, sprite: &Vec<u8>) -> DisplayDrawResult;

    /// Present the surface.
    fn refresh(&mut self);
}

/// Installing a display collaborator into the engine.
pub trait DisplayEmu<D: Display + Sized> {
    /// Replace the engine's display.
    fn set_display(&mut self, display: D);
}

/// A display that ignores every call, for headless runs.
pub struct DisplayDummy {}

impl Display for DisplayDummy {
    fn new() -> DisplayDummy {
        DisplayDummy {  }
    }

    fn clear(&mut self) {
    }

    fn draw(&mut self, _x: &u8, _y: &u8, _sprite: &Vec<u8>) -> DisplayDrawResult {
        DisplayDrawResult::Free
    }

    fn refresh(&mut self) {
    }
}

/// The width of the framebuffer in pixels.
pub const FB_WIDTH: usize = 64;

/// The height of the framebuffer in pixels.
pub const FB_HEIGHT: usize = 32;

/// The number of pixels of the framebuffer.
pub const FB_SIZE: usize = 2048;

/// Whether bit `c` of a sprite row is set, bit 0 being the leftmost
/// pixel of the row.
pub open spec fn spec_row_bit(row: u8, c: int) -> bool {
    (row >> ((7 - c) as u8)) & 1 == 1
}

/// Whether a sprite drawn at (x, y) covers the screen pixel at column
/// `px`, row `py`, wrapping at the screen edges. Each sprite cell
/// lands on its own pixel as long as the sprite has at most 32 rows.
pub open spec fn spec_covers(px: int, py: int, x: u8, y: u8, sprite: Seq<u8>) -> bool {
    let r = (py - y) % 32;
    let c = (px - x) % 64;
    &&& r < sprite.len()
    &&& c < 8
    &&& spec_row_bit(sprite[r], c)
}

/// The framebuffer after a sprite is XORed on at (x, y): exactly the
/// covered pixels flip. Pixel (px, py) sits at index py * 64 + px.
pub open spec fn spec_blit(g: Seq<bool>, x: u8, y: u8, sprite: Seq<u8>) -> Seq<bool> {
    Seq::new(g.len(), |i: int| g[i] != spec_covers(i % 64, i / 64, x, y, sprite))
}

/// Whether XORing the sprite on at (x, y) flips some pixel from set to
/// unset: a set pixel that the sprite covers.
pub open spec fn spec_collides(g: Seq<bool>, x: u8, y: u8, sprite: Seq<u8>) -> bool {
    exists|i: int| 0 <= i < g.len() && g[i] && spec_covers(i % 64, i / 64, x, y, sprite)
}

/// Subtracting back what a wrapped addition added recovers the
/// addend: `((a + b) % m - a) % m == b`.
proof fn lemma_wrap_inverse(a: int, b: int, m: int)
    requires
        0 < m,
        0 <= b < m,
        0 <= a,
    ensures
        ((a + b) % m - a) % m == b,
{
    lemma_fundamental_div_mod(a + b, m);
    let q = (a + b) / m;
    assert((a + b) % m - a == m * (-q) + b) by (nonlinear_arith)
        requires
            a + b == m * q + ((a + b) % m),
    ;
    lemma_mod_multiples_vanish(-q, b, m);
    lemma_small_mod(b as nat, m as nat);
}

/// A value in [0, m) whose distance from `a` reduces to `b` modulo `m`
/// is exactly the wrapped sum of `a` and `b`.
proof fn lemma_wrap_unique(v: int, a: int, b: int, m: int)
    requires
        0 < m,
        0 <= v < m,
        0 <= b < m,
        0 <= a,
        (v - a) % m == b,
    ensures
        v == (a + b) % m,
{
    lemma_fundamental_div_mod(v - a, m);
    let q = (v - a) / m;
    assert(a + b == m * (-q) + v) by (nonlinear_arith)
        requires
            v - a == m * q + b,
    ;
    lemma_mod_multiples_vanish(-q, v, m);
    lemma_small_mod(v as nat, m as nat);
}

/// Whether the drawing loops, about to process sprite row `rr` and
/// column `cc`, have already processed the sprite cell that covers
/// screen pixel `i`.
spec fn spec_done(i: int, x: u8, y: u8, rr: int, cc: int) -> bool {
    let r = (i / 64 - y) % 32;
    let c = (i % 64 - x) % 64;
    r < rr || (r == rr && c < cc)
}

/// Whether pixel `i` witnesses a collision the drawing loops have
/// already seen.
spec fn spec_hit(g: Seq<bool>, x: u8, y: u8, sprite: Seq<u8>, i: int, rr: int, cc: int) -> bool {
    &&& 0 <= i < 2048
    &&& g[i]
    &&& spec_covers(i % 64, i / 64, x, y, sprite)
    &&& spec_done(i, x, y, rr, cc)
}

/// A 64x32 monochrome framebuffer with XOR draw semantics, stored one
/// `bool` per pixel in row-major order.
pub struct FrameBuffer {
    pixels: Vec<bool>,
}

impl View for FrameBuffer {
    type V = Seq<bool>;

    closed spec fn view(&self) -> Seq<bool> {
        self.pixels@
    }
}

impl FrameBuffer {
    /// The surface holds exactly its 2048 pixels; every constructor
    /// establishes this and every method preserves it.
    pub open spec fn wf(&self) -> bool {
        self@.len() == FB_SIZE
    }

    /// A fresh, all-clear surface.
    pub fn new_buffer() -> (r: FrameBuffer)
        ensures
            r.wf(),
            forall|i: int| 0 <= i < FB_SIZE ==> !r@[i],
    {
        FrameBuffer { pixels: vec![false; FB_SIZE] }
    }

    /// Clear every pixel.
    pub fn clear_pixels(&mut self)
        ensures
            final(self).wf(),
            forall|i: int| 0 <= i < FB_SIZE ==> !final(self)@[i],
    {
        self.pixels = vec![false; FB_SIZE];
    }

    /// Read one pixel.
    pub fn pixel(&self, x: usize, y: usize) -> (r: bool)
        requires
            self.wf(),
            x < FB_WIDTH,
            y < FB_HEIGHT,
        ensures
            r == self@[y * 64 + x],
    {
        self.pixels[y * 64 + x]
    }

    /// XOR a sprite onto the surface at (x, y), wrapping at the
    /// edges, and report whether any pixel flipped from set to unset.
    /// Rows beyond the screen height would wrap onto earlier rows, so
    /// they are excluded here; the engine never passes more than 15.
    pub fn draw_sprite(&mut self, x: u8, y: u8, sprite: &Vec<u8>) -> (res: DisplayDrawResult)
        requires
            old(self).wf(),
            sprite@.len() <= 32,
        ensures
            final(self).wf(),
            final(self)@ == spec_blit(old(self)@, x, y, sprite@),
            res == (if spec_collides(old(self)@, x, y, sprite@) {
                DisplayDrawResult::Collision
            } else {
                DisplayDrawResult::Free
            }),
    {
        let ghost g = self@;
        let mut coll = false;
        let mut rr: usize = 0;
        while rr < sprite.len()
            invariant
                self.pixels@.len() == FB_SIZE,
                sprite@.len() <= 32,
                rr <= sprite@.len(),
                forall|i: int|
                    0 <= i < 2048 ==> self.pixels@[i] == (g[i] != (spec_covers(
                        i % 64,
                        i / 64,
                        x,
                        y,
                        sprite@,
                    ) && spec_done(i, x, y, rr as int, 0))),
                coll == exists|i: int| spec_hit(g, x, y, sprite@, i, rr as int, 0),
            decreases sprite@.len() - rr,
        {
            let row = sprite[rr];
            let py = (y as usize + rr) % 32;
            let mut cc: usize = 0;
            while cc < 8
                invariant
                    self.pixels@.len() == FB_SIZE,
                    sprite@.len() <= 32,
                    rr < sprite@.len(),
                    cc <= 8,
                    row == sprite@[rr as int],
                    py == ((y as int) + rr) % 32,
                    forall|i: int|
                        0 <= i < 2048 ==> self.pixels@[i] == (g[i] != (spec_covers(
                            i % 64,
                            i / 64,
                            x,
                            y,
                            sprite@,
                        ) && spec_done(i, x, y, rr as int, cc as int))),
                    coll == exists|i: int| spec_hit(g, x, y, sprite@, i, rr as int, cc as int),
                decreases 8 - cc,
            {
                let px = (x as usize + cc) % 64;
                let idx = py * 64 + px;
                proof {
                    assert(idx / 64 == py && idx % 64 == px) by (nonlinear_arith)
                        requires
                            idx == py * 64 + px,
                            0 <= px < 64,
                            0 <= py < 32,
                    ;
                    lemma_wrap_inverse(y as int, rr as int, 32);
                    lemma_wrap_inverse(x as int, cc as int, 64);
                }
                let bit = ((row >> ((7 - cc) as u8)) & 1) == 1;
                let oldp = self.pixels[idx];
                if bit {
                    self.pixels.set(idx, !oldp);
                    if oldp {
                        coll = true;
                    }
                }
                let ghost cc0 = cc as int;
                cc += 1;
                proof {
                    assert(spec_done(idx as int, x, y, rr as int, cc as int));
                    assert(!spec_done(idx as int, x, y, rr as int, cc0));
                    assert(spec_covers(idx as int % 64, idx as int / 64, x, y, sprite@)
                        == bit);
                    assert forall|i: int|
                        0 <= i < 2048 && i != idx && spec_done(i, x, y, rr as int, cc as int)
                        implies spec_done(i, x, y, rr as int, cc0) by {
                        if !spec_done(i, x, y, rr as int, cc0) {
                            assert((i / 64 - y) % 32 == rr && (i % 64 - x) % 64 == cc0);
                            lemma_fundamental_div_mod(i, 64);
                            assert(0 <= i / 64 < 32);
                            lemma_wrap_unique(i / 64, y as int, rr as int, 32);
                            lemma_wrap_unique(i % 64, x as int, cc0, 64);
                            assert(i == 64 * py + px);
                            assert(false);
                        }
                    };
                    assert forall|i: int| 0 <= i < 2048 implies self.pixels@[i] == (g[i] != (
                    spec_covers(i % 64, i / 64, x, y, sprite@) && spec_done(
                        i,
                        x,
                        y,
                        rr as int,
                        cc as int,
                    ))) by {
                        if i != idx {
                            assert(spec_done(i, x, y, rr as int, cc as int) == spec_done(
                                i,
                                x,
                                y,
                                rr as int,
                                cc0,
                            ));
                        }
                    };
                    if coll {
                        if bit && oldp {
                            assert(spec_hit(g, x, y, sprite@, idx as int, rr as int, cc as int));
                        } else {
                            let w = choose|i: int| spec_hit(g, x, y, sprite@, i, rr as int, cc0);
                            assert(spec_hit(g, x, y, sprite@, w, rr as int, cc as int));
                        }
                        assert(coll == exists|i: int|
                            spec_hit(g, x, y, sprite@, i, rr as int, cc as int));
                    } else {
                        assert(!(bit && oldp));
                        assert(oldp == (g[idx as int] != (spec_covers(
                            idx as int % 64,
                            idx as int / 64,
                            x,
                            y,
                            sprite@,
                        ) && spec_done(idx as int, x, y, rr as int, cc0))));
                        assert(!spec_hit(g, x, y, sprite@, idx as int, rr as int, cc as int));
                        assert forall|i: int| !spec_hit(g, x, y, sprite@, i, rr as int, cc as int)
                            by {
                            if spec_hit(g, x, y, sprite@, i, rr as int, cc as int) {
                                if i != idx {
                                    assert(spec_done(i, x, y, rr as int, cc0));
                                    assert(spec_hit(g, x, y, sprite@, i, rr as int, cc0));
                                }
                                assert(false);
                            }
                        };
                        assert(coll == exists|i: int|
                            spec_hit(g, x, y, sprite@, i, rr as int, cc as int));
                    }
                }
            }
            let ghost rr0 = rr as int;
            rr += 1;
            proof {
                assert forall|i: int| 0 <= i < 2048 implies (spec_covers(
                    i % 64,
                    i / 64,
                    x,
                    y,
                    sprite@,
                ) && spec_done(i, x, y, rr0, 8)) == (spec_covers(i % 64, i / 64, x, y, sprite@)
                    && spec_done(i, x, y, rr as int, 0)) by {};
                assert forall|i: int| 0 <= i < 2048 implies self.pixels@[i] == (g[i] != (
                spec_covers(i % 64, i / 64, x, y, sprite@) && spec_done(
                    i,
                    x,
                    y,
                    rr as int,
                    0,
                ))) by {};
                if coll {
                    let w = choose|i: int| spec_hit(g, x, y, sprite@, i, rr0, 8);
                    assert(spec_hit(g, x, y, sprite@, w, rr as int, 0));
                } else {
                    assert forall|i: int| !spec_hit(g, x, y, sprite@, i, rr as int, 0) by {
                        if spec_hit(g, x, y, sprite@, i, rr as int, 0) {
                            assert(spec_hit(g, x, y, sprite@, i, rr0, 8));
                            assert(false);
                        }
                    };
                }
                assert(coll == exists|i: int| spec_hit(g, x, y, sprite@, i, rr as int, 0));
            }
        }
        proof {
            assert forall|i: int| 0 <= i < 2048 implies (spec_covers(i % 64, i / 64, x, y, sprite@)
                && spec_done(i, x, y, rr as int, 0)) == spec_covers(
                i % 64,
                i / 64,
                x,
                y,
                sprite@,
            ) by {};
            assert(self@ =~= spec_blit(g, x, y, sprite@));
            if coll {
                let w = choose|i: int| spec_hit(g, x, y, sprite@, i, rr as int, 0);
                assert(0 <= w < g.len() && g[w] && spec_covers(w % 64, w / 64, x, y, sprite@));
                assert(spec_collides(g, x, y, sprite@));
            } else {
                if spec_collides(g, x, y, sprite@) {
                    let w = choose|i: int|
                        0 <= i < g.len() && g[i] && spec_covers(i % 64, i / 64, x, y, sprite@);
                    assert(spec_hit(g, x, y, sprite@, w, rr as int, 0));
                    assert(false);
                }
            }
        }
        if coll {
            DisplayDrawResult::Collision
        } else {
            DisplayDrawResult::Free
        }
    }
}

impl Display for FrameBuffer {
    fn new() -> FrameBuffer {
        FrameBuffer::new_buffer()
    }

    fn clear(&mut self) {
        self.clear_pixels();
    }

    fn draw(&mut self, x: &u8, y: &u8, sprite: &Vec<u8>) -> DisplayDrawResult {
        if self.pixels.len() != FB_SIZE {
            // unreachable through this crate's constructors; restore
            // the size so the contracts below apply
            self.clear_pixels();
        }
        if sprite.len() <= 32 {
            self.draw_sprite(*x, *y, sprite)
        } else {
            let mut head: Vec<u8> = Vec::new();
            let mut i: usize = 0;
            while i < 32
                invariant
                    i <= 32,
                    head@.len() == i,
                    sprite@.len() > 32,
                decreases 32 - i,
            {
                head.push(sprite[i]);
                i += 1;
            }
            self.draw_sprite(*x, *y, &head)
        }
    }

    fn refresh(&mut self) {
    }
}

/// XOR drawing is its own inverse: the same sprite drawn twice at the
/// same coordinates leaves every pixel as it began, so a sprite drawn
/// twice over a clear screen leaves it clear.
pub proof fn lemma_draw_self_cancel(g: Seq<bool>, x: u8, y: u8, sprite: Seq<u8>)
    requires
        g.len() == FB_SIZE,
    ensures
        spec_blit(spec_blit(g, x, y, sprite), x, y, sprite) == g,
{
    assert(spec_blit(spec_blit(g, x, y, sprite), x, y, sprite) =~= g);
}

/// Repeating a draw collides: after a sprite with at least one set
/// bit lands on a clear screen, drawing it again flips a set pixel
/// back off, so the second draw reports a collision.
pub proof fn lemma_second_draw_collides(g: Seq<bool>, x: u8, y: u8, sprite: Seq<u8>, r: int, c: int)
    requires
        g.len() == FB_SIZE,
        forall|i: int| 0 <= i < g.len() ==> !g[i],
        sprite.len() <= 32,
        0 <= r < sprite.len(),
        0 <= c < 8,
        spec_row_bit(sprite[r], c),
    ensures
        spec_collides(spec_blit(g, x, y, sprite), x, y, sprite),
{
    let py = (y + r) % 32;
    let px = (x + c) % 64;
    let i = py * 64 + px;
    assert(i / 64 == py && i % 64 == px) by (nonlinear_arith)
        requires
            i == py * 64 + px,
            0 <= px < 64,
            0 <= py < 32,
    ;
    lemma_wrap_inverse(y as int, r, 32);
    lemma_wrap_inverse(x as int, c, 64);
    assert(spec_covers(i % 64, i / 64, x, y, sprite));
    assert(0 <= i < 2048) by (nonlinear_arith)
        requires
            i == py * 64 + px,
            0 <= px < 64,
            0 <= py < 32,
    ;
    assert(spec_blit(g, x, y, sprite)[i]);
}

} // verus!
