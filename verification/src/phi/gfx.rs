//! Sprites: regions of a loaded image, and strips of them played as
//! animations.

use std::rc::Rc;
use vstd::prelude::*;
use vstd::arithmetic::div_mod::lemma_fundamental_div_mod_converse;
use vstd::arithmetic::div_mod::lemma_mod_multiples_vanish;
use crate::phi::data::magnitude;
use crate::phi::data::Rectangle;
use crate::phi::data::TICKS_PER_SECOND;
use crate::phi::data::UNITS_PER_PIXEL;

verus! {

/// A region of a loaded image. `image` is the handle under which the
/// platform keeps the decoded picture; sprites with the same handle share it.
#[derive(Clone, Copy, Debug, PartialEq, Eq, Structural)]
pub struct Sprite {
    pub image: usize,
    pub src: Rectangle,
}

impl Sprite {
    /// `rect`, given relative to this sprite's region, moved into the
    /// image's coordinates.
    pub open spec fn shifted(self, rect: Rectangle) -> (int, int) {
        (rect.x + self.src.x, rect.y + self.src.y)
    }

    /// Whether `rect`, taken relative to this sprite's region, lies within it.
    pub open spec fn admits(self, rect: Rectangle) -> bool {
        let (x, y) = self.shifted(rect);
        &&& self.src.x <= x <= self.src.x + self.src.w
        &&& self.src.x <= x + rect.w <= self.src.x + self.src.w
        &&& self.src.y <= y <= self.src.y + self.src.h
        &&& self.src.y <= y + rect.h <= self.src.y + self.src.h
    }

    /// The sprite that `region` yields when `admits(rect)` holds.
    pub open spec fn sub_sprite(self, rect: Rectangle) -> Sprite {
        Sprite {
            image: self.image,
            src: Rectangle {
                x: (rect.x + self.src.x) as i64,
                y: (rect.y + self.src.y) as i64,
                w: rect.w,
                h: rect.h,
            },
        }
    }

    /// The sprite that shows the whole of an image of the given size in pixels.
    pub fn new(image: usize, width: u32, height: u32) -> (res: Sprite)
        ensures
            res.image == image,
            res.src == (Rectangle {
                x: 0,
                y: 0,
                w: (width * UNITS_PER_PIXEL) as i64,
                h: (height * UNITS_PER_PIXEL) as i64,
            }),
            res.src.wf(),
    {
        Sprite {
            image,
            src: Rectangle {
                x: 0,
                y: 0,
                w: (width as i64) * UNITS_PER_PIXEL,
                h: (height as i64) * UNITS_PER_PIXEL,
            },
        }
    }

    /// Width and height of the region.
    pub fn size(&self) -> (res: (i64, i64))
        ensures
            res == (self.src.w, self.src.h),
    {
        (self.src.w, self.src.h)
    }

    /// The sprite for a sub-region, `rect` being relative to the region held.
    /// There is none unless `rect` lies within the region held.
    pub fn region(&self, rect: Rectangle) -> (res: Option<Sprite>)
        requires
            self.src.wf(),
        ensures
            res.is_some() == self.admits(rect),
            res matches Some(s) ==> s == self.sub_sprite(rect) && (rect.w >= 0 && rect.h >= 0
                ==> s.src.wf()),
    {
        let x: i128 = rect.x as i128 + self.src.x as i128;
        let y: i128 = rect.y as i128 + self.src.y as i128;
        let left: i128 = self.src.x as i128;
        let right: i128 = left + self.src.w as i128;
        let top: i128 = self.src.y as i128;
        let bottom: i128 = top + self.src.h as i128;
        let inside = x >= left && x <= right && x + rect.w as i128 >= left && x + rect.w as i128
            <= right && y >= top && y <= bottom && y + rect.h as i128 >= top && y
            + rect.h as i128 <= bottom;
        if inside {
            Some(Sprite { image: self.image, src: Rectangle { x: x as i64, y: y as i64, w: rect.w, h: rect.h } })
        } else {
            None
        }
    }
}

/// A colour: red, green and blue.
#[derive(Clone, Copy, Debug, PartialEq, Eq, Structural)]
pub struct Color {
    pub r: u8,
    pub g: u8,
    pub b: u8,
}

/// The colour of empty space.
pub open spec fn black() -> Color {
    Color { r: 0, g: 0, b: 0 }
}

/// One thing for the renderer to do.
#[derive(Clone, Copy, Debug, PartialEq, Eq, Structural)]
pub enum Draw {
    /// Paint the whole frame in one colour.
    Clear(Color),
    /// Paint a rectangle in one colour.
    Fill(Color, Rectangle),
    /// Copy the region of a sprite into a rectangle of the frame, scaled to
    /// fit.
    Copy(Sprite, Rectangle),
}

/// What can be drawn into a rectangle of the frame.
pub trait Renderable {
    /// Whether there is something to draw.
    spec fn can_render(&self) -> bool;

    /// What drawing into `dest` asks of the renderer.
    spec fn drawn(&self, dest: Rectangle) -> Draw;

    /// Draws into `dest`.
    fn render(&self, dest: Rectangle) -> (res: Draw)
        requires
            self.can_render(),
        ensures
            res == self.drawn(dest),
    ;
}

/// What drawings can be sent to.
pub trait CopySprite<T: Renderable> {
    /// What has been sent so far.
    spec fn sent(&self) -> Seq<Draw>;

    /// Sends the drawing of `sprite` into `dest`.
    fn copy_sprite(&mut self, sprite: &T, dest: Rectangle)
        requires
            sprite.can_render(),
        ensures
            final(self).sent() == old(self).sent().push(sprite.drawn(dest)),
    ;
}

/// A list of things for the renderer to do takes whatever can be drawn: the
/// drawing goes to the end of the list.
impl<T: Renderable> CopySprite<T> for Vec<Draw> {
    open spec fn sent(&self) -> Seq<Draw> {
        self@
    }

    fn copy_sprite(&mut self, sprite: &T, dest: Rectangle) {
        self.push(sprite.render(dest));
    }
}

impl Renderable for Sprite {
    open spec fn can_render(&self) -> bool {
        true
    }

    open spec fn drawn(&self, dest: Rectangle) -> Draw {
        Draw::Copy(*self, dest)
    }

    fn render(&self, dest: Rectangle) -> (res: Draw) {
        Draw::Copy(*self, dest)
    }
}

/// How the frames of an animation lie in a sprite sheet: `total_frames`
/// cells of `frame_w` by `frame_h`, row by row, `frames_wide` to a row and
/// at most `frames_high` rows. `image_path` names the sheet.
pub struct AnimatedSpriteDescr<'a> {
    pub image_path: &'a str,
    pub total_frames: usize,
    pub frames_high: usize,
    pub frames_wide: usize,
    pub frame_w: i64,
    pub frame_h: i64,
}

/// Number of cells that a sheet of `wide` by `high` cells gives to an
/// animation of `total` frames.
pub open spec fn frame_count(total: int, wide: int, high: int) -> int {
    if total <= wide * high {
        total
    } else {
        wide * high
    }
}

/// The `k`-th cell of a sheet, relative to the sheet's region.
pub open spec fn frame_cell(wide: int, frame_w: int, frame_h: int, k: int) -> (int, int) {
    (frame_w * (k % wide), frame_h * (k / wide))
}

impl<'a> AnimatedSpriteDescr<'a> {
    /// Number of frames the description yields.
    pub open spec fn count(self) -> int {
        frame_count(self.total_frames as int, self.frames_wide as int, self.frames_high as int)
    }

    /// Whether the `k`-th cell is representable and lies within `sheet`.
    pub open spec fn cell_ok(self, sheet: Sprite, k: int) -> bool {
        let (x, y) = frame_cell(self.frames_wide as int, self.frame_w as int, self.frame_h as int, k);
        &&& i64::MIN <= x <= i64::MAX
        &&& i64::MIN <= y <= i64::MAX
        &&& sheet.admits(self.cell(k))
    }

    /// The `k`-th cell as a rectangle relative to the sheet.
    pub open spec fn cell(self, k: int) -> Rectangle {
        let (x, y) = frame_cell(self.frames_wide as int, self.frame_w as int, self.frame_h as int, k);
        Rectangle { x: x as i64, y: y as i64, w: self.frame_w, h: self.frame_h }
    }
}

/// A strip of frames with a playback cursor. The frames are shared between
/// the copies of an animation; every copy has a cursor of its own. The frame
/// shown depends on the time accumulated and the delay between frames alone.
#[derive(Debug)]
pub struct AnimatedSprite {
    /// The frames, in the order in which they are shown.
    pub sprites: Rc<Vec<Sprite>>,
    /// Time from one frame to the next.
    pub frame_delay: i64,
    /// Time accumulated, from which the current frame follows.
    pub current_time: i64,
}

/// The delay between frames that gives `fps` frames to the second, rounded
/// toward zero.
pub open spec fn delay_for_fps(fps: int) -> int {
    if fps > 0 {
        (TICKS_PER_SECOND as int) / fps
    } else {
        -((TICKS_PER_SECOND as int) / (-fps))
    }
}

/// Index of the frame shown at `time`: the number of whole delays elapsed,
/// counted from zero when `time` and `delay` point in opposite directions,
/// taken modulo the number of frames.
pub open spec fn frame_index(time: int, delay: int, count: int) -> int {
    if time >= 0 && delay > 0 {
        (time / delay) % count
    } else if time <= 0 && delay < 0 {
        ((-time) / (-delay)) % count
    } else {
        0
    }
}

/// The time to which the cursor moves when `dt` is added at `time`.
pub open spec fn time_after(time: int, dt: int, delay: int, count: int) -> int {
    if time + dt < 0 {
        (count - 1) * delay
    } else {
        time + dt
    }
}

impl AnimatedSprite {
    /// An animation positioned at time zero.
    pub fn new(sprites: Vec<Sprite>, frame_delay: i64) -> (res: AnimatedSprite)
        ensures
            *res.sprites == sprites,
            res.frame_delay == frame_delay,
            res.current_time == 0,
    {
        AnimatedSprite { sprites: Rc::new(sprites), frame_delay, current_time: 0 }
    }

    /// An animation that advances `fps` frames every second.
    pub fn with_fps(sprites: Vec<Sprite>, fps: i64) -> (res: AnimatedSprite)
        requires
            fps != 0,
        ensures
            *res.sprites == sprites,
            res.frame_delay == delay_for_fps(fps as int),
            res.current_time == 0,
    {
        AnimatedSprite::new(sprites, fps_to_delay(fps))
    }

    /// The frames that `descr` cuts out of `sheet`, in order; nothing if one
    /// of its cells does not lie within the sheet.
    pub fn load_frames(sheet: &Sprite, descr: &AnimatedSpriteDescr) -> (res: Option<Vec<Sprite>>)
        requires
            sheet.src.wf(),
        ensures
            res.is_some() <==> (forall|k: int| 0 <= k < descr.count() ==> descr.cell_ok(*sheet, k)),
            res matches Some(frames) ==> {
                &&& frames.len() == descr.count()
                &&& forall|k: int|
                    0 <= k < frames.len() ==> #[trigger] frames[k] == sheet.sub_sprite(
                        descr.cell(k),
                    )
                &&& descr.frame_w >= 0 && descr.frame_h >= 0 ==> forall|k: int|
                    0 <= k < frames.len() ==> (#[trigger] frames[k]).src.wf()
            },
    {
        assert(0 <= descr.frames_wide * descr.frames_high <= 0xffff_ffff_ffff_ffff
            * 0xffff_ffff_ffff_ffff) by (nonlinear_arith)
            requires
                0 <= descr.frames_wide <= 0xffff_ffff_ffff_ffff,
                0 <= descr.frames_high <= 0xffff_ffff_ffff_ffff,
        ;
        let cells: u128 = (descr.frames_wide as u128) * (descr.frames_high as u128);
        assert(cells > 0 ==> descr.frames_wide > 0) by (nonlinear_arith)
            requires
                cells == descr.frames_wide * descr.frames_high,
        ;
        let count: usize = if (descr.total_frames as u128) <= cells {
            descr.total_frames
        } else {
            cells as usize
        };
        let mut frames: Vec<Sprite> = Vec::new();
        let mut k: usize = 0;
        while k < count
            invariant
                k <= count,
                count == descr.count(),
                count > 0 ==> descr.frames_wide > 0,
                sheet.src.wf(),
                frames.len() == k,
                forall|j: int| 0 <= j < k ==> descr.cell_ok(*sheet, j),
                forall|j: int|
                    0 <= j < k ==> #[trigger] frames[j] == sheet.sub_sprite(descr.cell(j)),
                descr.frame_w >= 0 && descr.frame_h >= 0 ==> forall|j: int|
                    0 <= j < k ==> (#[trigger] frames[j]).src.wf(),
            decreases count - k,
        {
            let xth: usize = k % descr.frames_wide;
            let yth: usize = k / descr.frames_wide;
            assert(-0x8000_0000_0000_0000 * 0xffff_ffff_ffff_ffff <= descr.frame_w * xth
                <= 0x8000_0000_0000_0000 * 0xffff_ffff_ffff_ffff) by (nonlinear_arith)
                requires
                    -0x8000_0000_0000_0000 <= descr.frame_w <= 0x8000_0000_0000_0000,
                    0 <= xth <= 0xffff_ffff_ffff_ffff,
            ;
            assert(-0x8000_0000_0000_0000 * 0xffff_ffff_ffff_ffff <= descr.frame_h * yth
                <= 0x8000_0000_0000_0000 * 0xffff_ffff_ffff_ffff) by (nonlinear_arith)
                requires
                    -0x8000_0000_0000_0000 <= descr.frame_h <= 0x8000_0000_0000_0000,
                    0 <= yth <= 0xffff_ffff_ffff_ffff,
            ;
            let x: i128 = (descr.frame_w as i128) * (xth as i128);
            let y: i128 = (descr.frame_h as i128) * (yth as i128);
            if x > i64::MAX as i128 || y > i64::MAX as i128 || x < i64::MIN as i128 || y
                < i64::MIN as i128 {
                assert(!descr.cell_ok(*sheet, k as int));
                return None;
            }
            let cell = Rectangle { x: x as i64, y: y as i64, w: descr.frame_w, h: descr.frame_h };
            assert(cell == descr.cell(k as int));
            match sheet.region(cell) {
                Some(frame) => {
                    frames.push(frame);
                },
                None => {
                    assert(!descr.cell_ok(*sheet, k as int));
                    return None;
                },
            }
            k += 1;
        }
        Some(frames)
    }

    /// The number of frames of the animation.
    pub fn frames(&self) -> (res: usize)
        ensures
            res == self.sprites.len(),
    {
        self.sprites.len()
    }

    /// Sets the time from one frame to the next.
    pub fn set_frame_delay(&mut self, frame_delay: i64)
        ensures
            final(self).frame_delay == frame_delay,
            final(self).sprites == old(self).sprites,
            final(self).current_time == old(self).current_time,
    {
        self.frame_delay = frame_delay;
    }

    /// Sets the number of frames the animation goes through every second.
    pub fn set_fps(&mut self, fps: i64)
        requires
            fps != 0,
        ensures
            final(self).frame_delay == delay_for_fps(fps as int),
            final(self).sprites == old(self).sprites,
            final(self).current_time == old(self).current_time,
    {
        self.set_frame_delay(fps_to_delay(fps));
    }

    /// Adds `dt` to the time accumulated. A sum below zero is replaced by
    /// the time at which the last frame begins.
    pub fn add_time(&mut self, dt: i64)
        requires
            old(self).current_time + dt <= i64::MAX,
            old(self).current_time + dt < 0 ==> {
                &&& old(self).sprites.len() >= 1
                &&& i64::MIN <= (old(self).sprites.len() - 1) * old(self).frame_delay <= i64::MAX
            },
        ensures
            final(self).current_time == time_after(
                old(self).current_time as int,
                dt as int,
                old(self).frame_delay as int,
                old(self).sprites.len() as int,
            ),
            final(self).sprites == old(self).sprites,
            final(self).frame_delay == old(self).frame_delay,
            *final(self) == old(self).after(dt as int),
    {
        let sum: i128 = self.current_time as i128 + dt as i128;
        if sum < 0 {
            let last: i128 = (self.sprites.len() - 1) as i128;
            self.current_time = (last * (self.frame_delay as i128)) as i64;
        } else {
            self.current_time = sum as i64;
        }
    }

    /// Index of the frame to show.
    pub fn current_frame(&self) -> (res: usize)
        requires
            self.sprites.len() > 0,
            self.frame_delay != 0,
        ensures
            res == frame_index(
                self.current_time as int,
                self.frame_delay as int,
                self.sprites.len() as int,
            ),
            res < self.sprites.len(),
    {
        let count: u64 = self.sprites.len() as u64;
        if self.current_time >= 0 && self.frame_delay > 0 {
            let q: u64 = (self.current_time as u64) / (self.frame_delay as u64);
            (q % count) as usize
        } else if self.current_time <= 0 && self.frame_delay < 0 {
            let t: u64 = magnitude(self.current_time);
            let d: u64 = magnitude(self.frame_delay);
            ((t / d) % count) as usize
        } else {
            0
        }
    }

    /// The frame to show.
    pub fn current_sprite(&self) -> (res: Sprite)
        requires
            self.sprites.len() > 0,
            self.frame_delay != 0,
        ensures
            res == self.sprites[frame_index(
                self.current_time as int,
                self.frame_delay as int,
                self.sprites.len() as int,
            )],
    {
        self.sprites[self.current_frame()]
    }

    /// A copy that shares the frames and has a cursor of its own.
    pub fn duplicate(&self) -> (res: AnimatedSprite)
        ensures
            res == *self,
    {
        AnimatedSprite {
            sprites: share_frames(&self.sprites),
            frame_delay: self.frame_delay,
            current_time: self.current_time,
        }
    }

    /// The animation with `dt` added to its time.
    pub open spec fn after(self, dt: int) -> AnimatedSprite {
        AnimatedSprite {
            sprites: self.sprites,
            frame_delay: self.frame_delay,
            current_time: time_after(
                self.current_time as int,
                dt,
                self.frame_delay as int,
                self.sprites.len() as int,
            ) as i64,
        }
    }
}

/// `Rc::clone` of std: another handle to the same frames. The handle that
/// comes back stands for the same sequence of frames as the one given.
#[verifier::external_body]
fn share_frames(frames: &Rc<Vec<Sprite>>) -> (res: Rc<Vec<Sprite>>)
    ensures
        res == *frames,
{
    Rc::clone(frames)
}

/// The delay between frames for a rate of `fps` frames a second.
pub fn fps_to_delay(fps: i64) -> (res: i64)
    requires
        fps != 0,
    ensures
        res == delay_for_fps(fps as int),
{
    if fps > 0 {
        TICKS_PER_SECOND / fps
    } else if fps == i64::MIN {
        0
    } else {
        -(TICKS_PER_SECOND / (-fps))
    }
}

impl AnimatedSprite {
    /// The frame to show.
    pub open spec fn spec_current(self) -> Sprite {
        self.sprites[frame_index(
            self.current_time as int,
            self.frame_delay as int,
            self.sprites.len() as int,
        )]
    }
}

impl Renderable for AnimatedSprite {
    open spec fn can_render(&self) -> bool {
        self.sprites.len() > 0 && self.frame_delay != 0
    }

    open spec fn drawn(&self, dest: Rectangle) -> Draw {
        Draw::Copy(self.spec_current(), dest)
    }

    /// Draws the current frame; the cursor stays where it is.
    fn render(&self, dest: Rectangle) -> (res: Draw) {
        Draw::Copy(self.current_sprite(), dest)
    }
}

/// The frame shown is periodic in time: one whole run through the frames
/// later, the same frame is shown again.
pub proof fn lemma_frame_periodic(time: int, delay: int, count: int)
    requires
        time >= 0,
        delay > 0,
        count > 0,
    ensures
        frame_index(time + count * delay, delay, count) == frame_index(time, delay, count),
        0 <= frame_index(time, delay, count) < count,
{
    let q = time / delay;
    let r = time % delay;
    assert(time == delay * q + r && 0 <= r < delay) by {
        vstd::arithmetic::div_mod::lemma_fundamental_div_mod(time, delay);
    }
    assert(time + count * delay == delay * (q + count) + r) by (nonlinear_arith)
        requires
            time == delay * q + r,
    ;
    assert(count * delay >= 0) by (nonlinear_arith)
        requires
            count > 0,
            delay > 0,
    ;
    lemma_fundamental_div_mod_converse(time + count * delay, delay, q + count, r);
    assert((time + count * delay) / delay == q + count);
    lemma_mod_multiples_vanish(1, q, count);
    assert((count * 1 + q) % count == q % count);
    assert(count * 1 + q == q + count);
}

/// An animation that runs forward shows the same frame again once it has
/// run through all of its frames: after the number of frames times the
/// delay between them.
pub proof fn lemma_animation_periodic(animation: AnimatedSprite)
    requires
        animation.current_time >= 0,
        animation.frame_delay > 0,
        animation.sprites.len() > 0,
        animation.current_time + animation.sprites.len() * animation.frame_delay <= i64::MAX,
    ensures
        animation.after(animation.sprites.len() * animation.frame_delay).spec_current()
            == animation.spec_current(),
{
    let period = animation.sprites.len() * animation.frame_delay;
    assert(period >= 0) by (nonlinear_arith)
        requires
            period == animation.sprites.len() * animation.frame_delay,
            animation.sprites.len() > 0,
            animation.frame_delay > 0,
    ;
    lemma_frame_periodic(
        animation.current_time as int,
        animation.frame_delay as int,
        animation.sprites.len() as int,
    );
}

} // verus!
