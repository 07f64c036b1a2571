//! Scenery shared between the views: the scrolling backgrounds.

use vstd::prelude::*;
use vstd::arithmetic::div_mod::lemma_div_is_ordered;
use vstd::arithmetic::div_mod::lemma_div_pos_is_pos;
use vstd::arithmetic::div_mod::lemma_fundamental_div_mod;
use vstd::arithmetic::div_mod::lemma_fundamental_div_mod_converse;
use vstd::arithmetic::div_mod::lemma_mod_pos_bound;
use crate::phi::data::elapsed_ok;
use crate::phi::data::screen_ok;
use crate::phi::data::Rectangle;
use crate::phi::data::COORD_LIMIT;
use crate::phi::gfx::Draw;
use crate::phi::gfx::Sprite;

verus! {

/// One layer of scenery: an image that scrolls to the left and repeats.
#[derive(Clone, Copy, Debug, PartialEq, Eq, Structural)]
pub struct Background {
    /// How far the image has scrolled, in units of the image itself.
    pub pos: i64,
    /// Pixels scrolled every second.
    pub vel: i64,
    pub sprite: Sprite,
}

/// Where a layer at `pos` that scrolls at `vel` stands after `elapsed`: the
/// distance scrolled, modulo the width of the image.
pub open spec fn scrolled(pos: int, vel: int, elapsed: int, width: int) -> int {
    (pos + vel * elapsed) % width
}

impl Background {
    /// The image is not empty and the position lies within one width of it.
    pub open spec fn wf(self) -> bool {
        &&& 0 < self.sprite.src.w <= COORD_LIMIT
        &&& 0 < self.sprite.src.h <= COORD_LIMIT
        &&& 0 <= self.pos <= self.sprite.src.w
    }

    /// The layer after `elapsed`.
    pub open spec fn after(self, elapsed: int) -> Background {
        Background {
            pos: scrolled(
                self.pos as int,
                self.vel as int,
                elapsed,
                self.sprite.src.w as int,
            ) as i64,
            ..self
        }
    }

    /// Width of one copy of the image in a window of the given height.
    pub open spec fn tile_width(self, screen: (i64, i64)) -> int {
        (self.sprite.src.w * screen.1) / (self.sprite.src.h as int)
    }

    /// Left edge of the first copy of the image in a window of the given
    /// height.
    pub open spec fn first_left(self, screen: (i64, i64)) -> int {
        -((self.pos * screen.1) / (self.sprite.src.h as int))
    }

    /// Number of copies of the image it takes to reach the right edge of
    /// the window.
    pub open spec fn tile_count(self, screen: (i64, i64)) -> int {
        let width = self.tile_width(screen);
        let span = screen.0 - self.first_left(screen);
        if width <= 0 || span <= 0 {
            0
        } else {
            (span + width - 1) / width
        }
    }

    /// Where the `k`-th copy of the image is drawn.
    pub open spec fn tile(self, screen: (i64, i64), k: int) -> Rectangle {
        Rectangle {
            x: (self.first_left(screen) + k * self.tile_width(screen)) as i64,
            y: 0,
            w: self.tile_width(screen) as i64,
            h: screen.1,
        }
    }

    /// Scrolls the layer for `elapsed`.
    pub fn update(&mut self, elapsed: i64)
        requires
            old(self).wf(),
            elapsed_ok(elapsed),
        ensures
            *final(self) == old(self).after(elapsed as int),
            final(self).wf(),
            0 <= final(self).pos < final(self).sprite.src.w,
    {
        assert(-0x8000_0000_0000_0000 * 0x8000_0000_0000_0000 <= self.vel * elapsed
            <= 0x8000_0000_0000_0000 * 0x8000_0000_0000_0000) by (nonlinear_arith)
            requires
                -0x8000_0000_0000_0000 <= self.vel <= 0x8000_0000_0000_0000,
                0 <= elapsed <= 0x8000_0000_0000_0000,
        ;
        let sum: i128 = (self.pos as i128) + (self.vel as i128) * (elapsed as i128);
        let width: i128 = self.sprite.src.w as i128;
        let pos: i128 = if sum >= 0 {
            sum % width
        } else {
            let back: i128 = (-sum) % width;
            if back == 0 {
                0
            } else {
                width - back
            }
        };
        proof {
            let m = width as int;
            if sum >= 0 {
                lemma_mod_pos_bound(sum as int, m);
            } else {
                let n = -(sum as int);
                lemma_fundamental_div_mod(n, m);
                lemma_mod_pos_bound(n, m);
                if n % m == 0 {
                    assert(-n == m * (-(n / m)) + 0) by (nonlinear_arith)
                        requires
                            n == m * (n / m) + n % m,
                            n % m == 0,
                    ;
                    lemma_fundamental_div_mod_converse(-n, m, -(n / m), 0);
                } else {
                    assert(-n == m * (-(n / m) - 1) + (m - n % m)) by (nonlinear_arith)
                        requires
                            n == m * (n / m) + n % m,
                    ;
                    lemma_fundamental_div_mod_converse(-n, m, -(n / m) - 1, m - n % m);
                }
            }
            assert(pos == (sum as int) % m);
        }
        self.pos = pos as i64;
    }

    /// Where the copies of the image go in a window of size `screen`, from
    /// left to right: each as high as the window and scaled to keep its
    /// proportions, the first shifted left by the distance scrolled.
    pub fn tiles(&self, screen: (i64, i64)) -> (res: Vec<Rectangle>)
        requires
            self.wf(),
            screen_ok(screen),
            self.tile_width(screen) <= COORD_LIMIT,
        ensures
            res.len() == self.tile_count(screen),
            forall|k: int| 0 <= k < res.len() ==> #[trigger] res[k] == self.tile(screen, k),
            forall|k: int|
                0 <= k < res.len() ==> (#[trigger] res[k]).x == self.first_left(screen) + k
                    * self.tile_width(screen),
    {
        let height: i128 = self.sprite.src.h as i128;
        assert(0 <= self.pos * screen.1 <= self.sprite.src.w * screen.1 <= 0x0100_0000_0000_0000
            * 0x0100_0000_0000_0000) by (nonlinear_arith)
            requires
                0 <= self.pos <= self.sprite.src.w <= 0x0100_0000_0000_0000,
                0 <= screen.1 <= 0x0100_0000_0000_0000,
        ;
        let width: i128 = ((self.sprite.src.w as i128) * (screen.1 as i128)) / height;
        let shift: i128 = ((self.pos as i128) * (screen.1 as i128)) / height;
        proof {
            lemma_div_pos_is_pos(self.sprite.src.w * screen.1, height as int);
            lemma_div_pos_is_pos(self.pos * screen.1, height as int);
            lemma_div_is_ordered(
                self.pos * screen.1,
                self.sprite.src.w * screen.1,
                height as int,
            );
        }
        let mut tiles: Vec<Rectangle> = Vec::new();
        if width <= 0 {
            return tiles;
        }
        let first: i128 = -shift;
        let mut left: i128 = first;
        let ghost span = screen.0 - first;
        while left < screen.0 as i128
            invariant
                screen_ok(screen),
                width == self.tile_width(screen),
                first == self.first_left(screen),
                0 < width <= COORD_LIMIT,
                -COORD_LIMIT <= first <= 0,
                span == screen.0 - first,
                left == first + tiles.len() * width,
                left < screen.0 + width,
                forall|k: int| 0 <= k < tiles.len() ==> #[trigger] tiles[k] == self.tile(screen, k),
                forall|k: int|
                    0 <= k < tiles.len() ==> (#[trigger] tiles[k]).x == first + k * width,
                forall|k: int| 0 <= k < tiles.len() ==> (#[trigger] tiles[k]).x < screen.0,
            decreases screen.0 + width - left,
        {
            assert(tiles.len() * width >= 0) by (nonlinear_arith)
                requires
                    tiles.len() >= 0,
                    width > 0,
            ;
            tiles.push(Rectangle { x: left as i64, y: 0, w: width as i64, h: screen.1 });
            assert((tiles.len() - 1) * width + width == tiles.len() * width) by (nonlinear_arith);
            left = left + width;
        }
        proof {
            let n = tiles.len() as int;
            if span <= 0 {
                if n > 0 {
                    assert(tiles[0].x == first + 0 * width);
                    assert(false);
                }
            } else {
                assert(n * width >= span);
                assert(n >= 1) by (nonlinear_arith)
                    requires
                        n * width >= span,
                        span > 0,
                        n >= 0,
                ;
                assert(tiles[n - 1].x == first + (n - 1) * width);
                assert((n - 1) * width < span);
                assert(0 <= span + width - 1 - width * n < width) by (nonlinear_arith)
                    requires
                        n * width >= span,
                        (n - 1) * width < span,
                ;
                lemma_fundamental_div_mod_converse(
                    span + width - 1,
                    width as int,
                    n,
                    span + width - 1 - width * n,
                );
            }
        }
        tiles
    }
}

impl Background {
    /// Whether a copy of the image, scaled to a window of size `screen`, is
    /// of a width that can be drawn.
    pub open spec fn fits(self, screen: (i64, i64)) -> bool {
        self.tile_width(screen) <= COORD_LIMIT
    }

    /// Whether the image is not empty and the position lies within one
    /// width of it.
    pub fn is_wf(&self) -> (res: bool)
        ensures
            res == self.wf(),
    {
        0 < self.sprite.src.w && self.sprite.src.w <= COORD_LIMIT && 0 < self.sprite.src.h
            && self.sprite.src.h <= COORD_LIMIT && 0 <= self.pos && self.pos
            <= self.sprite.src.w
    }

    /// Whether a copy of the image, scaled to a window of size `screen`, is
    /// of a width that can be drawn.
    pub fn can_fit(&self, screen: (i64, i64)) -> (res: bool)
        requires
            self.wf(),
            screen_ok(screen),
        ensures
            res == self.fits(screen),
    {
        assert(0 <= self.sprite.src.w * screen.1 <= 0x0100_0000_0000_0000 * 0x0100_0000_0000_0000)
            by (nonlinear_arith)
            requires
                0 <= self.sprite.src.w <= 0x0100_0000_0000_0000,
                0 <= screen.1 <= 0x0100_0000_0000_0000,
        ;
        let width: i128 = ((self.sprite.src.w as i128) * (screen.1 as i128)) / (
        self.sprite.src.h as i128);
        width <= COORD_LIMIT as i128
    }

    /// What drawing the layer asks of the renderer: one copy of the image
    /// for every tile, from left to right.
    pub open spec fn draws(self, screen: (i64, i64)) -> Seq<Draw> {
        Seq::new(
            self.tile_count(screen) as nat,
            |k: int| Draw::Copy(self.sprite, self.tile(screen, k)),
        )
    }

    /// Draws the layer across a window of size `screen`.
    pub fn render(&self, screen: (i64, i64)) -> (res: Vec<Draw>)
        requires
            self.wf(),
            screen_ok(screen),
            self.fits(screen),
        ensures
            res@ == self.draws(screen),
    {
        let tiles = self.tiles(screen);
        let mut list: Vec<Draw> = Vec::new();
        let mut k: usize = 0;
        while k < tiles.len()
            invariant
                k <= tiles.len(),
                list.len() == k,
                forall|j: int| 0 <= j < k ==> #[trigger] list[j] == Draw::Copy(self.sprite, tiles[j]),
            decreases tiles.len() - k,
        {
            list.push(Draw::Copy(self.sprite, tiles[k]));
            k += 1;
        }
        assert(list@ =~= self.draws(screen));
        list
    }
}

/// The three layers of scenery, from the farthest to the nearest.
#[derive(Clone, Copy, Debug, PartialEq, Eq, Structural)]
pub struct BgSet {
    pub back: Background,
    pub middle: Background,
    pub front: Background,
}

impl BgSet {
    /// Every layer is well formed.
    pub open spec fn wf(self) -> bool {
        self.back.wf() && self.middle.wf() && self.front.wf()
    }

    /// Whether every layer can be drawn in a window of size `screen`.
    pub open spec fn fits(self, screen: (i64, i64)) -> bool {
        self.back.fits(screen) && self.middle.fits(screen) && self.front.fits(screen)
    }

    /// The set after `elapsed`: every layer has scrolled on its own.
    pub open spec fn after(self, elapsed: int) -> BgSet {
        BgSet {
            back: self.back.after(elapsed),
            middle: self.middle.after(elapsed),
            front: self.front.after(elapsed),
        }
    }

    /// Whether every layer is well formed.
    pub fn is_wf(&self) -> (res: bool)
        ensures
            res == self.wf(),
    {
        self.back.is_wf() && self.middle.is_wf() && self.front.is_wf()
    }

    /// Whether every layer can be drawn in a window of size `screen`.
    pub fn can_fit(&self, screen: (i64, i64)) -> (res: bool)
        requires
            self.wf(),
            screen_ok(screen),
        ensures
            res == self.fits(screen),
    {
        self.back.can_fit(screen) && self.middle.can_fit(screen) && self.front.can_fit(screen)
    }

    /// The scenery at rest: the nearer a layer, the faster it will scroll.
    pub open spec fn spec_new(back: Sprite, middle: Sprite, front: Sprite) -> BgSet {
        BgSet {
            back: Background { pos: 0, vel: 20, sprite: back },
            middle: Background { pos: 0, vel: 40, sprite: middle },
            front: Background { pos: 0, vel: 80, sprite: front },
        }
    }

    /// The scenery at rest: the nearer a layer, the faster it will scroll.
    pub fn new(back: Sprite, middle: Sprite, front: Sprite) -> (res: BgSet)
        ensures
            res == Self::spec_new(back, middle, front),
    {
        BgSet {
            back: Background { pos: 0, vel: 20, sprite: back },
            middle: Background { pos: 0, vel: 40, sprite: middle },
            front: Background { pos: 0, vel: 80, sprite: front },
        }
    }

    /// Scrolls every layer for `elapsed`.
    pub fn update(&mut self, elapsed: i64)
        requires
            old(self).wf(),
            elapsed_ok(elapsed),
        ensures
            *final(self) == old(self).after(elapsed as int),
            final(self).wf(),
    {
        self.back.update(elapsed);
        self.middle.update(elapsed);
        self.front.update(elapsed);
    }
}

} // verus!
