//! Engine layer: geometry, sprites, input, and the clock that paces frames.

pub mod data;
pub mod events;
pub mod gfx;

use vstd::prelude::*;
use crate::phi::data::from_pixels;
use crate::phi::data::screen_ok;
use crate::phi::data::MAX_ELAPSED;
use crate::phi::data::UNITS_PER_PIXEL;
use crate::phi::events::Event;
use crate::phi::events::Events;

verus! {

/// Milliseconds from one frame to the next, for sixty frames a second.
pub const FRAME_INTERVAL: u32 = 16;

/// What a view gets to see of the platform in a frame: the input, and the
/// size of the window in pixels.
#[derive(Clone, Copy, Debug, PartialEq, Eq)]
pub struct Phi {
    pub events: Events,
    pub output: (u32, u32),
}

impl Phi {
    /// The size of the window in length units.
    pub open spec fn spec_output_size(self) -> (i64, i64) {
        ((self.output.0 * UNITS_PER_PIXEL) as i64, (self.output.1 * UNITS_PER_PIXEL) as i64)
    }

    /// The context of a window of the given size in which nothing has
    /// happened yet.
    pub fn new(output: (u32, u32)) -> (res: Phi)
        ensures
            res.events == Events::spec_new(),
            res.output == output,
    {
        Phi { events: Events::new(), output }
    }

    /// The size of the window in length units.
    pub fn output_size(&self) -> (res: (i64, i64))
        ensures
            res == self.spec_output_size(),
            screen_ok(res),
    {
        (from_pixels(self.output.0), from_pixels(self.output.1))
    }

    /// Starts a frame: takes in the events that have arrived and the size
    /// that the window has now.
    pub fn begin_frame(&mut self, incoming: &Vec<Event>, output: (u32, u32))
        ensures
            final(self).events == old(self).events.fresh().after_first(
                incoming@,
                incoming.len() as int,
            ),
            final(self).output == output,
    {
        self.events.pump(incoming);
        self.output = output;
    }
}

/// What the loop is to do at a reading of the clock.
#[derive(Clone, Copy, Debug, PartialEq, Eq, Structural)]
pub enum Tick {
    /// Too early for a frame: sleep for so many milliseconds and read the
    /// clock again.
    Wait(u32),
    /// Time for a frame. `elapsed` is the time since the last one;
    /// `frames` is the number of frames of the last second, given once that
    /// second is over.
    Frame { elapsed: i64, frames: Option<u16> },
}

/// Paces the loop: one frame for every `FRAME_INTERVAL` at most, and a count
/// of the frames of every second. Times are readings of a clock that
/// counts milliseconds.
#[derive(Clone, Copy, Debug, PartialEq, Eq, Structural)]
pub struct FrameClock {
    /// When the last frame was run.
    pub before: u32,
    /// When the count of frames was last given.
    pub last_second: u32,
    /// Frames run since then.
    pub fps: u16,
}

impl FrameClock {
    /// The count of frames covers no more than a second and holds no more
    /// frames than fit into the time that it covers.
    pub open spec fn wf(self) -> bool {
        &&& self.last_second <= self.before
        &&& self.before - self.last_second <= 1000
        &&& FRAME_INTERVAL * self.fps <= self.before - self.last_second
    }

    /// Whether a frame is due at `now`.
    pub open spec fn due(self, now: u32) -> bool {
        now - self.before >= FRAME_INTERVAL
    }

    /// Whether the frame due at `now` closes a second.
    pub open spec fn closes_second(self, now: u32) -> bool {
        now - self.last_second > 1000
    }

    /// The clock after the reading `now`.
    pub open spec fn after(self, now: u32) -> FrameClock {
        if !self.due(now) {
            self
        } else if self.closes_second(now) {
            FrameClock { before: now, last_second: now, fps: 0 }
        } else {
            FrameClock { before: now, last_second: self.last_second, fps: (self.fps + 1) as u16 }
        }
    }

    /// What the loop is to do at the reading `now`.
    pub open spec fn verdict(self, now: u32) -> Tick {
        if !self.due(now) {
            Tick::Wait((FRAME_INTERVAL - (now - self.before)) as u32)
        } else {
            Tick::Frame {
                elapsed: ((now - self.before) * 1000) as i64,
                frames: if self.closes_second(now) {
                    Some((self.fps + 1) as u16)
                } else {
                    None
                },
            }
        }
    }

    /// A clock started at the reading `now`.
    pub fn new(now: u32) -> (res: FrameClock)
        ensures
            res == (FrameClock { before: now, last_second: now, fps: 0 }),
            res.wf(),
    {
        FrameClock { before: now, last_second: now, fps: 0 }
    }

    /// Takes the reading `now`. Before a frame is due, the clock stays as it
    /// is and the loop is told how long to sleep. Otherwise the frame is
    /// counted and the loop is told how much time it covers.
    pub fn tick(&mut self, now: u32) -> (res: Tick)
        requires
            old(self).wf(),
            old(self).before <= now,
        ensures
            *final(self) == old(self).after(now),
            res == old(self).verdict(now),
            final(self).wf(),
            final(self).before <= now,
            res matches Tick::Frame { elapsed, frames } ==> FRAME_INTERVAL * 1000 <= elapsed
                <= MAX_ELAPSED,
            res matches Tick::Wait(ms) ==> 0 < ms <= FRAME_INTERVAL,
    {
        let dt: u32 = now - self.before;
        if dt < FRAME_INTERVAL {
            return Tick::Wait(FRAME_INTERVAL - dt);
        }
        let elapsed: i64 = (dt as i64) * 1000;
        self.before = now;
        self.fps = self.fps + 1;
        let mut frames: Option<u16> = None;
        if now - self.last_second > 1000 {
            frames = Some(self.fps);
            self.last_second = now;
            self.fps = 0;
        }
        Tick::Frame { elapsed, frames }
    }
}

/// The loop never runs more than one frame for a reading of the clock, and
/// none before the interval is over: then the clock stays as it is.
pub proof fn lemma_no_frame_before_due(clock: FrameClock, now: u32)
    requires
        clock.wf(),
        clock.before <= now,
        now - clock.before < FRAME_INTERVAL,
    ensures
        clock.after(now) == clock,
        clock.verdict(now) is Wait,
{
}

/// The count kept never exceeds sixty-two frames, so that the count given at
/// the end of a second never exceeds sixty-three.
pub proof fn lemma_frames_bounded(clock: FrameClock)
    requires
        clock.wf(),
    ensures
        clock.fps <= 62,
        forall|now: u32|
            clock.before <= now ==> (#[trigger] clock.verdict(now) matches Tick::Frame {
                frames: Some(count),
                ..
            } ==> count <= 63),
{
}

} // verus!
