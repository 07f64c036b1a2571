//! Plain data shared by every part of the engine: rectangles on the
//! fixed-point grid, rectangles on the pixel grid, and a liveness wrapper.

use vstd::prelude::*;

verus! {

/// Length units in one pixel. Lengths are whole numbers of millionths of a
/// pixel and durations whole numbers of microseconds, so a speed given in
/// pixels per second moves a point by `speed * duration` units exactly.
pub const UNITS_PER_PIXEL: i64 = 1_000_000;

/// Time units (microseconds) in one second.
pub const TICKS_PER_SECOND: i64 = 1_000_000;

/// Largest magnitude a coordinate of a simulated entity may take.
pub const COORD_LIMIT: i64 = 0x0100_0000_0000_0000;

/// Largest side of a window. It leaves room for any size the platform can
/// report (sides below 2^32 pixels).
pub const SCREEN_LIMIT: i64 = 0x0020_0000_0000_0000;

/// Longest duration a single simulation step accepts: 2^32 milliseconds.
pub const MAX_ELAPSED: i64 = 4_294_967_296_000;

/// Axis-aligned rectangle: top-left corner `(x, y)`, width `w`, height `h`.
#[derive(Clone, Copy, Debug, PartialEq, Eq, Structural)]
pub struct Rectangle {
    pub x: i64,
    pub y: i64,
    pub w: i64,
    pub h: i64,
}

/// Rectangle on the pixel grid, as a renderer takes it.
#[derive(Clone, Copy, Debug, PartialEq, Eq, Structural)]
pub struct PixelRect {
    pub x: i32,
    pub y: i32,
    pub w: u32,
    pub h: u32,
}

/// `v` truncated toward zero to whole pixels.
pub open spec fn whole_pixels(v: int) -> int {
    if v >= 0 {
        v / (UNITS_PER_PIXEL as int)
    } else {
        -((-v) / (UNITS_PER_PIXEL as int))
    }
}

impl Rectangle {
    /// Sides are not negative and the far corner is representable.
    pub open spec fn wf(self) -> bool {
        &&& self.w >= 0
        &&& self.h >= 0
        &&& self.x + self.w <= i64::MAX
        &&& self.y + self.h <= i64::MAX
    }

    /// Every coordinate of the rectangle lies within `COORD_LIMIT` of the origin.
    pub open spec fn bounded(self) -> bool {
        &&& 0 <= self.w <= COORD_LIMIT
        &&& 0 <= self.h <= COORD_LIMIT
        &&& -COORD_LIMIT <= self.x <= COORD_LIMIT
        &&& -COORD_LIMIT <= self.y <= COORD_LIMIT
    }

    /// `rect` lies within the closed bounds of `self`.
    pub open spec fn spec_contains(self, rect: Rectangle) -> bool {
        &&& self.x <= rect.x <= self.x + self.w
        &&& self.x <= rect.x + rect.w <= self.x + self.w
        &&& self.y <= rect.y <= self.y + self.h
        &&& self.y <= rect.y + rect.h <= self.y + self.h
    }

    /// The open extents of the two rectangles meet on both axes.
    pub open spec fn spec_overlaps(self, other: Rectangle) -> bool {
        &&& self.x < other.x + other.w
        &&& self.x + self.w > other.x
        &&& self.y < other.y + other.h
        &&& self.y + self.h > other.y
    }

    /// Whether `self` is no larger than `parent` on either axis.
    pub open spec fn fits_in(self, parent: Rectangle) -> bool {
        self.w <= parent.w && self.h <= parent.h
    }

    /// A coordinate clamped so that an extent of length `len` starting there
    /// stays within `[lo, lo + span]`; a start already inside is kept.
    pub open spec fn clamp_start(pos: int, len: int, lo: int, span: int) -> int {
        if pos < lo {
            lo
        } else if pos + len >= lo + span {
            lo + span - len
        } else {
            pos
        }
    }

    /// Where `move_inside` puts the rectangle when it fits.
    pub open spec fn moved_inside(self, parent: Rectangle) -> Rectangle {
        Rectangle {
            x: Self::clamp_start(self.x as int, self.w as int, parent.x as int, parent.w as int) as i64,
            y: Self::clamp_start(self.y as int, self.h as int, parent.y as int, parent.h as int) as i64,
            w: self.w,
            h: self.h,
        }
    }

    /// The point halfway along both sides.
    pub open spec fn spec_center(self) -> (int, int) {
        (self.x + self.w / 2, self.y + self.h / 2)
    }

    /// Whether the rectangle can be put on the pixel grid: its sides are not
    /// negative and its coordinates in pixels are within reach of a renderer.
    pub open spec fn on_pixel_grid(self) -> bool {
        &&& self.w >= 0
        &&& self.h >= 0
        &&& i32::MIN <= whole_pixels(self.x as int) <= i32::MAX
        &&& i32::MIN <= whole_pixels(self.y as int) <= i32::MAX
        &&& whole_pixels(self.w as int) <= i32::MAX
        &&& whole_pixels(self.h as int) <= i32::MAX
    }

    /// Whether the sides are not negative and the far corner is
    /// representable.
    pub fn is_wf(&self) -> (res: bool)
        ensures
            res == self.wf(),
    {
        self.w >= 0 && self.h >= 0 && self.x as i128 + self.w as i128 <= i64::MAX as i128
            && self.y as i128 + self.h as i128 <= i64::MAX as i128
    }

    /// Whether every coordinate lies within `COORD_LIMIT` of the origin.
    pub fn is_bounded(&self) -> (res: bool)
        ensures
            res == self.bounded(),
    {
        0 <= self.w && self.w <= COORD_LIMIT && 0 <= self.h && self.h <= COORD_LIMIT
            && -COORD_LIMIT <= self.x && self.x <= COORD_LIMIT && -COORD_LIMIT <= self.y
            && self.y <= COORD_LIMIT
    }

    /// Whether the rectangle can be put on the pixel grid.
    pub fn is_on_pixel_grid(&self) -> (res: bool)
        ensures
            res == self.on_pixel_grid(),
    {
        let x: i64 = to_whole_pixels(self.x);
        let y: i64 = to_whole_pixels(self.y);
        self.w >= 0 && self.h >= 0 && -2_147_483_648 <= x && x <= 2_147_483_647
            && -2_147_483_648 <= y && y <= 2_147_483_647 && self.w / UNITS_PER_PIXEL
            <= 2_147_483_647 && self.h / UNITS_PER_PIXEL <= 2_147_483_647
    }

    /// The rectangle of the given size with its top-left corner at the origin.
    pub fn with_size(w: i64, h: i64) -> (res: Rectangle)
        ensures
            res == (Rectangle { x: 0, y: 0, w, h }),
    {
        Rectangle { x: 0, y: 0, w, h }
    }

    /// The same rectangle moved so that its center falls on `center`.
    pub fn center_at(self, center: (i64, i64)) -> (res: Rectangle)
        requires
            i64::MIN <= center.0 - self.w / 2 <= i64::MAX,
            i64::MIN <= center.1 - self.h / 2 <= i64::MAX,
        ensures
            res.w == self.w,
            res.h == self.h,
            res.x == center.0 - self.w / 2,
            res.y == center.1 - self.h / 2,
            res.spec_center() == (center.0 as int, center.1 as int),
    {
        Rectangle {
            x: (center.0 as i128 - half_of(self.w) as i128) as i64,
            y: (center.1 as i128 - half_of(self.h) as i128) as i64,
            w: self.w,
            h: self.h,
        }
    }

    /// The center of the rectangle.
    pub fn center(self) -> (res: (i64, i64))
        requires
            i64::MIN <= self.x + self.w / 2 <= i64::MAX,
            i64::MIN <= self.y + self.h / 2 <= i64::MAX,
        ensures
            (res.0 as int, res.1 as int) == self.spec_center(),
    {
        (
            (self.x as i128 + half_of(self.w) as i128) as i64,
            (self.y as i128 + half_of(self.h) as i128) as i64,
        )
    }

    /// Whether `rect` lies entirely within `self`, edges included.
    pub fn contains(&self, rect: Rectangle) -> (res: bool)
        ensures
            res == self.spec_contains(rect),
    {
        let xmin: i128 = rect.x as i128;
        let xmax: i128 = xmin + rect.w as i128;
        let ymin: i128 = rect.y as i128;
        let ymax: i128 = ymin + rect.h as i128;
        let left: i128 = self.x as i128;
        let right: i128 = left + self.w as i128;
        let top: i128 = self.y as i128;
        let bottom: i128 = top + self.h as i128;

        xmin >= left && xmin <= right && xmax >= left && xmax <= right && ymin >= top && ymin
            <= bottom && ymax >= top && ymax <= bottom
    }

    /// Whether the two rectangles share interior points; touching edges do
    /// not count.
    pub fn overlaps(&self, other: Rectangle) -> (res: bool)
        ensures
            res == self.spec_overlaps(other),
    {
        let left: i128 = self.x as i128;
        let right: i128 = left + self.w as i128;
        let top: i128 = self.y as i128;
        let bottom: i128 = top + self.h as i128;
        let o_left: i128 = other.x as i128;
        let o_right: i128 = o_left + other.w as i128;
        let o_top: i128 = other.y as i128;
        let o_bottom: i128 = o_top + other.h as i128;

        left < o_right && right > o_left && top < o_bottom && bottom > o_top
    }

    /// The rectangle moved, if need be, so that it lies within `parent`.
    /// There is no such placement when it is wider or taller than `parent`.
    pub fn move_inside(self, parent: Rectangle) -> (res: Option<Rectangle>)
        requires
            self.wf(),
            parent.wf(),
        ensures
            res.is_some() == self.fits_in(parent),
            res matches Some(r) ==> {
                &&& r == self.moved_inside(parent)
                &&& r.wf()
                &&& parent.spec_contains(r)
                &&& r.w == self.w
                &&& r.h == self.h
                &&& parent.spec_contains(self) ==> r == self
            },
    {
        if self.w > parent.w || self.h > parent.h {
            return None;
        }
        let x: i64 = if self.x < parent.x {
            parent.x
        } else if self.x + self.w >= parent.x + parent.w {
            parent.x + parent.w - self.w
        } else {
            self.x
        };
        let y: i64 = if self.y < parent.y {
            parent.y
        } else if self.y + self.h >= parent.y + parent.h {
            parent.y + parent.h - self.h
        } else {
            self.y
        };
        Some(Rectangle { x, y, w: self.w, h: self.h })
    }

    /// The rectangle on the pixel grid, each coordinate truncated toward
    /// zero; nothing when it covers no whole pixel along one of its sides.
    pub fn to_sdl(self) -> (res: Option<PixelRect>)
        requires
            self.on_pixel_grid(),
        ensures
            res.is_none() <==> (whole_pixels(self.w as int) == 0 || whole_pixels(self.h as int)
                == 0),
            res matches Some(p) ==> {
                &&& p.x == whole_pixels(self.x as int)
                &&& p.y == whole_pixels(self.y as int)
                &&& p.w == whole_pixels(self.w as int)
                &&& p.h == whole_pixels(self.h as int)
            },
    {
        let w: i64 = self.w / UNITS_PER_PIXEL;
        let h: i64 = self.h / UNITS_PER_PIXEL;
        if w == 0 || h == 0 {
            return None;
        }
        let x: i64 = to_whole_pixels(self.x);
        let y: i64 = to_whole_pixels(self.y);
        Some(PixelRect { x: x as i32, y: y as i32, w: w as u32, h: h as u32 })
    }
}

/// `v` in whole pixels, truncated toward zero.
pub fn to_whole_pixels(v: i64) -> (res: i64)
    ensures
        res == whole_pixels(v as int),
{
    if v >= 0 {
        v / UNITS_PER_PIXEL
    } else if v == i64::MIN {
        -9_223_372_036_854
    } else {
        -((-v) / UNITS_PER_PIXEL)
    }
}

/// The absolute value of `v`.
pub open spec fn abs(v: int) -> int {
    if v >= 0 {
        v
    } else {
        -v
    }
}

/// The absolute value of `v`.
pub fn magnitude(v: i64) -> (res: u64)
    ensures
        res == abs(v as int),
{
    if v >= 0 {
        v as u64
    } else if v == i64::MIN {
        9_223_372_036_854_775_808
    } else {
        (-v) as u64
    }
}

/// Half of `v`, rounded down.
pub fn half_of(v: i64) -> (res: i64)
    ensures
        res == v / 2,
{
    if v >= 0 {
        v / 2
    } else {
        -((-(v + 1)) / 2) - 1
    }
}

/// Whether `screen`, a width and a height, is a size a window can have.
pub open spec fn screen_ok(screen: (i64, i64)) -> bool {
    0 <= screen.0 <= SCREEN_LIMIT && 0 <= screen.1 <= SCREEN_LIMIT
}

/// Whether `elapsed` is a duration a simulation step accepts.
pub open spec fn elapsed_ok(elapsed: i64) -> bool {
    0 <= elapsed <= MAX_ELAPSED
}

/// A whole number of pixels in length units.
pub fn from_pixels(px: u32) -> (res: i64)
    ensures
        res == px * UNITS_PER_PIXEL,
        0 <= res <= SCREEN_LIMIT,
{
    (px as i64) * UNITS_PER_PIXEL
}

/// Overlap does not depend on the order of the two rectangles.
pub proof fn lemma_overlaps_symmetric(a: Rectangle, b: Rectangle)
    ensures
        a.spec_overlaps(b) == b.spec_overlaps(a),
{
}

/// A rectangle with sides that are not negative contains itself.
pub proof fn lemma_contains_self(a: Rectangle)
    requires
        a.w >= 0,
        a.h >= 0,
    ensures
        a.spec_contains(a),
{
}

/// A rectangle that is wider or taller than the parent has no placement in
/// it; any other is placed within the parent with its size unchanged.
pub proof fn lemma_move_inside(r: Rectangle, p: Rectangle)
    requires
        r.wf(),
        p.wf(),
    ensures
        r.fits_in(p) <==> !(r.w > p.w || r.h > p.h),
        r.fits_in(p) ==> p.spec_contains(r.moved_inside(p)),
        r.fits_in(p) ==> r.moved_inside(p).w == r.w && r.moved_inside(p).h == r.h,
{
}

/// A value together with a flag that says whether it is still in play.
#[derive(Debug, PartialEq, Eq)]
pub struct MaybeAlive<T> {
    pub alive: bool,
    pub value: T,
}

impl<T> MaybeAlive<T> {
    /// The value if it is alive, nothing otherwise.
    pub fn as_option(self) -> (res: Option<T>)
        ensures
            res == (if self.alive {
                Some(self.value)
            } else {
                None::<T>
            }),
    {
        if self.alive {
            Some(self.value)
        } else {
            None
        }
    }
}

} // verus!
