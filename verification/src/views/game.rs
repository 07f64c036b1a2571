//! The game itself: the ship, the asteroids, the explosions, and the step
//! that takes all of them from one frame to the next.

use vstd::prelude::*;
use vstd::arithmetic::div_mod::lemma_div_is_ordered;
use vstd::arithmetic::div_mod::lemma_div_is_ordered_by_denominator;
use vstd::arithmetic::div_mod::lemma_div_multiples_vanish;
use vstd::arithmetic::div_mod::lemma_div_pos_is_pos;
use crate::phi::data::elapsed_ok;
use crate::phi::data::half_of;
use crate::phi::data::screen_ok;
use crate::phi::data::MaybeAlive;
use crate::phi::data::Rectangle;
use crate::phi::data::COORD_LIMIT;
use crate::phi::events::Events;
use crate::phi::events::ImmediateEvents;
use crate::phi::gfx::black;
use crate::phi::gfx::delay_for_fps;
use crate::phi::gfx::AnimatedSprite;
use crate::phi::gfx::AnimatedSpriteDescr;
use crate::phi::gfx::Color;
use crate::phi::gfx::CopySprite;
use crate::phi::gfx::Draw;
use crate::phi::gfx::Renderable;
use crate::phi::gfx::Sprite;
use crate::phi::Phi;
use crate::views::bullets::bullet_rect;
use crate::views::bullets::spawn_bullets;
use crate::views::bullets::spawned;
use crate::views::bullets::Bullet;
use crate::views::bullets::CannonType;
use crate::views::shared::BgSet;
use crate::views::ActiveView;
use crate::views::ViewAction;

verus! {

/// Pixels travelled by the ship every second while it moves.
pub const PLAYER_SPEED: i64 = 180;

/// Where the sheet of the ship is kept.
pub const PLAYER_PATH: &'static str = "assets/spaceship.png";

/// Width of the ship.
pub const PLAYER_W: i64 = 43_000_000;

/// Height of the ship.
pub const PLAYER_H: i64 = 39_000_000;

/// Largest magnitude a coordinate of the ship may take.
pub const PLAYER_LIMIT: i64 = 0x0040_0000_0000_0000;

/// The share of a step that goes to each axis when the ship moves along
/// both: one over the square root of two, to eight places.
pub const DIAGONAL_NUM: i64 = 70_710_678;

/// What `DIAGONAL_NUM` is counted in.
pub const DIAGONAL_DEN: i64 = 100_000_000;

/// Where the sheet of the asteroids is kept.
pub const ASTEROID_PATH: &'static str = "assets/asteroid.png";

/// Frames to a row of the sheet of the asteroids.
pub const ASTEROIDS_WIDE: usize = 21;

/// Rows of the sheet of the asteroids.
pub const ASTEROIDS_HIGH: usize = 7;

/// Frames of an asteroid: the last row of its sheet lacks four.
pub const ASTEROIDS_TOTAL: usize = 143;

/// Width and height of an asteroid.
pub const ASTEROID_SIDE: i64 = 96_000_000;

/// Largest speed of an asteroid, in pixels per second.
pub const ASTEROID_SPEED_LIMIT: i64 = 0x0010_0000;

/// Where the sheet of the explosions is kept.
pub const EXPLOSION_PATH: &'static str = "assets/explosion.png";

/// Frames to a row of the sheet of the explosions.
pub const EXPLOSIONS_WIDE: usize = 5;

/// Rows of the sheet of the explosions.
pub const EXPLOSIONS_HIGH: usize = 4;

/// Frames of an explosion.
pub const EXPLOSIONS_TOTAL: usize = 17;

/// Width and height of an explosion.
pub const EXPLOSION_SIDE: i64 = 96_000_000;

/// Frames of an explosion shown every second.
pub const EXPLOSION_FPS: i64 = 16;

/// How long an explosion lasts: its seventeen frames at sixteen a second.
pub const EXPLOSION_DURATION: i64 = 1_062_500;

/// Number of values a random fraction can take: 2^53.
pub const FRACTION_STEPS: u64 = 0x0020_0000_0000_0000;

/// The pictures of the ship: ordered in the sheet from left to right, then
/// from top to bottom.
#[derive(Clone, Copy, Debug, PartialEq, Eq, Structural)]
pub enum PlayerFrame {
    UpNorm,
    UpFast,
    UpSlow,
    MidNorm,
    MidFast,
    MidSlow,
    DownNorm,
    DownFast,
    DownSlow,
}

impl PlayerFrame {
    /// Place of the picture in the sheet.
    pub open spec fn spec_index(self) -> int {
        match self {
            PlayerFrame::UpNorm => 0,
            PlayerFrame::UpFast => 1,
            PlayerFrame::UpSlow => 2,
            PlayerFrame::MidNorm => 3,
            PlayerFrame::MidFast => 4,
            PlayerFrame::MidSlow => 5,
            PlayerFrame::DownNorm => 6,
            PlayerFrame::DownFast => 7,
            PlayerFrame::DownSlow => 8,
        }
    }

    /// The picture for a ship that moves by `(dx, dy)`: the row follows the
    /// sign of `dy`, the column the sign of `dx`.
    pub open spec fn facing(dx: int, dy: int) -> PlayerFrame {
        if dy < 0 {
            if dx == 0 {
                PlayerFrame::UpNorm
            } else if dx > 0 {
                PlayerFrame::UpFast
            } else {
                PlayerFrame::UpSlow
            }
        } else if dy == 0 {
            if dx == 0 {
                PlayerFrame::MidNorm
            } else if dx > 0 {
                PlayerFrame::MidFast
            } else {
                PlayerFrame::MidSlow
            }
        } else {
            if dx == 0 {
                PlayerFrame::DownNorm
            } else if dx > 0 {
                PlayerFrame::DownFast
            } else {
                PlayerFrame::DownSlow
            }
        }
    }

    /// Place of the picture in the sheet.
    pub fn index(self) -> (res: usize)
        ensures
            res == self.spec_index(),
            res < 9,
    {
        match self {
            PlayerFrame::UpNorm => 0,
            PlayerFrame::UpFast => 1,
            PlayerFrame::UpSlow => 2,
            PlayerFrame::MidNorm => 3,
            PlayerFrame::MidFast => 4,
            PlayerFrame::MidSlow => 5,
            PlayerFrame::DownNorm => 6,
            PlayerFrame::DownFast => 7,
            PlayerFrame::DownSlow => 8,
        }
    }

    /// The picture for a ship that moves by `(dx, dy)`.
    pub fn select(dx: i64, dy: i64) -> (res: PlayerFrame)
        ensures
            res == Self::facing(dx as int, dy as int),
    {
        if dx == 0 && dy < 0 {
            PlayerFrame::UpNorm
        } else if dx > 0 && dy < 0 {
            PlayerFrame::UpFast
        } else if dx < 0 && dy < 0 {
            PlayerFrame::UpSlow
        } else if dx == 0 && dy == 0 {
            PlayerFrame::MidNorm
        } else if dx > 0 && dy == 0 {
            PlayerFrame::MidFast
        } else if dx < 0 && dy == 0 {
            PlayerFrame::MidSlow
        } else if dx == 0 && dy > 0 {
            PlayerFrame::DownNorm
        } else if dx > 0 && dy > 0 {
            PlayerFrame::DownFast
        } else {
            PlayerFrame::DownSlow
        }
    }
}

/// The cannon loaded after the keys of this frame: each of the three
/// selection keys, when it went down, loads its kind; the last one wins.
pub open spec fn chosen_cannon(cannon: CannonType, now: ImmediateEvents) -> CannonType {
    let first = if now.key_1 == Some(true) {
        CannonType::RectBullet
    } else {
        cannon
    };
    let second = if now.key_2 == Some(true) {
        CannonType::SineBullet { amplitude: 10_000_000, angular_vel: 15 }
    } else {
        first
    };
    if now.key_3 == Some(true) {
        CannonType::DivergentBullet { a: 100_000_000, b: 1_200_000 }
    } else {
        second
    }
}

/// Distance the ship covers along an axis in `elapsed`: the full step when
/// it moves along one axis, the diagonal share of it when along both.
pub open spec fn step_length(diagonal: bool, elapsed: int) -> int {
    if diagonal {
        (PLAYER_SPEED * elapsed * DIAGONAL_NUM) / (DIAGONAL_DEN as int)
    } else {
        PLAYER_SPEED * elapsed
    }
}

/// Displacement along one axis from the two keys of that axis: none when
/// both or neither are held.
pub open spec fn axis_step(toward_less: bool, toward_more: bool, moved: int) -> int {
    if toward_less == toward_more {
        0
    } else if toward_less {
        -moved
    } else {
        moved
    }
}

/// Whether the keys held move the ship along both axes.
pub open spec fn moves_diagonally(events: Events) -> bool {
    (events.key_up != events.key_down) && (events.key_left != events.key_right)
}

/// Displacement of the ship for the keys held over `elapsed`.
pub open spec fn displacement(events: Events, elapsed: int) -> (int, int) {
    let moved = step_length(moves_diagonally(events), elapsed);
    (
        axis_step(events.key_left, events.key_right, moved),
        axis_step(events.key_up, events.key_down, moved),
    )
}

/// The part of the window in which the ship may move: its whole height and
/// the left seven tenths of its width.
pub open spec fn movable_region(screen: (i64, i64)) -> Rectangle {
    Rectangle { x: 0, y: 0, w: ((screen.0 * 70) / 100) as i64, h: screen.1 }
}

/// The part of the window in which the ship may move.
pub fn movable_region_of(screen: (i64, i64)) -> (res: Rectangle)
    requires
        screen_ok(screen),
    ensures
        res == movable_region(screen),
        res.wf(),
{
    Rectangle { x: 0, y: 0, w: (screen.0 * 70) / 100, h: screen.1 }
}

/// The ship.
#[derive(Debug)]
pub struct Player {
    pub rect: Rectangle,
    pub sprites: Vec<Sprite>,
    pub current: PlayerFrame,
    pub cannon: CannonType,
}

impl Player {
    /// The ship lies within reach of the simulation, its cannon can be
    /// fired, and it has its nine pictures.
    pub open spec fn wf(self) -> bool {
        &&& 0 <= self.rect.w <= PLAYER_LIMIT
        &&& 0 <= self.rect.h <= PLAYER_LIMIT
        &&& -PLAYER_LIMIT <= self.rect.x <= PLAYER_LIMIT
        &&& -PLAYER_LIMIT <= self.rect.y <= PLAYER_LIMIT
        &&& self.cannon.wf()
        &&& self.sprites.len() == 9
    }

    /// The cell of the `k`-th picture in the sheet of the ship.
    pub open spec fn cell(k: int) -> Rectangle {
        Rectangle {
            x: (PLAYER_W * (k % 3)) as i64,
            y: (PLAYER_H * (k / 3)) as i64,
            w: PLAYER_W,
            h: PLAYER_H,
        }
    }

    /// Where the ship starts in a window of the given size: near the left
    /// edge, halfway down.
    pub open spec fn start(screen: (i64, i64)) -> Rectangle {
        Rectangle { x: 64_000_000, y: ((screen.1 - PLAYER_H) / 2) as i64, w: PLAYER_W, h: PLAYER_H }
    }

    /// The ship after a frame with the given input.
    pub open spec fn after(self, events: Events, elapsed: int, screen: (i64, i64)) -> Player {
        let (dx, dy) = displacement(events, elapsed);
        let shifted = Rectangle {
            x: (self.rect.x + dx) as i64,
            y: (self.rect.y + dy) as i64,
            ..self.rect
        };
        Player {
            rect: shifted.moved_inside(movable_region(screen)),
            sprites: self.sprites,
            current: PlayerFrame::facing(dx, dy),
            cannon: chosen_cannon(self.cannon, events.now),
        }
    }

    /// Where the two cannons are mounted: the x of both, the y of the upper
    /// and the y of the lower one.
    pub open spec fn mounts(self) -> (int, int, int) {
        (self.rect.x + 30_000_000, self.rect.y + 6_000_000, self.rect.y + PLAYER_H - 10_000_000)
    }

    /// The bullets that the ship fires.
    pub open spec fn shots(self) -> Seq<Bullet> {
        let (x, upper, lower) = self.mounts();
        spawned(self.cannon, x as i64, upper as i64, lower as i64)
    }

    /// The ship at its start, with its nine pictures cut out of `sheet`;
    /// nothing if the sheet is too small for them.
    pub fn new(sheet: &Sprite, screen: (i64, i64)) -> (res: Option<Player>)
        requires
            sheet.src.wf(),
            screen_ok(screen),
        ensures
            res.is_some() <==> (forall|k: int| 0 <= k < 9 ==> sheet.admits(Self::cell(k))),
            res matches Some(p) ==> {
                &&& p.wf()
                &&& p.rect == Self::start(screen)
                &&& p.current == PlayerFrame::MidNorm
                &&& p.cannon == CannonType::RectBullet
                &&& forall|k: int|
                    0 <= k < 9 ==> #[trigger] p.sprites[k] == sheet.sub_sprite(Self::cell(k))
            },
    {
        let mut sprites: Vec<Sprite> = Vec::new();
        let mut k: usize = 0;
        while k < 9
            invariant
                k <= 9,
                sheet.src.wf(),
                sprites.len() == k,
                forall|j: int| 0 <= j < k ==> sheet.admits(Self::cell(j)),
                forall|j: int|
                    0 <= j < k ==> #[trigger] sprites[j] == sheet.sub_sprite(Self::cell(j)),
            decreases 9 - k,
        {
            let cell = Rectangle {
                x: PLAYER_W * ((k % 3) as i64),
                y: PLAYER_H * ((k / 3) as i64),
                w: PLAYER_W,
                h: PLAYER_H,
            };
            assert(cell == Self::cell(k as int));
            match sheet.region(cell) {
                Some(sprite) => {
                    sprites.push(sprite);
                },
                None => {
                    return None;
                },
            }
            k += 1;
        }
        let y: i64 = half_of(screen.1 - PLAYER_H);
        Some(
            Player {
                rect: Rectangle { x: 64_000_000, y, w: PLAYER_W, h: PLAYER_H },
                sprites,
                current: PlayerFrame::MidNorm,
                cannon: CannonType::RectBullet,
            },
        )
    }

    /// Takes the ship through one frame: loads the cannon chosen, moves the
    /// ship by the keys held, keeps it within the movable region, and picks
    /// the picture that goes with its movement.
    pub fn update(&mut self, events: &Events, elapsed: i64, screen: (i64, i64))
        requires
            old(self).wf(),
            elapsed_ok(elapsed),
            screen_ok(screen),
            old(self).rect.fits_in(movable_region(screen)),
        ensures
            *final(self) == old(self).after(*events, elapsed as int, screen),
            final(self).wf(),
            movable_region(screen).spec_contains(final(self).rect),
            final(self).rect.w == old(self).rect.w,
            final(self).rect.h == old(self).rect.h,
    {
        if events.now.key_1 == Some(true) {
            self.cannon = CannonType::RectBullet;
        }
        if events.now.key_2 == Some(true) {
            self.cannon = CannonType::SineBullet { amplitude: 10_000_000, angular_vel: 15 };
        }
        if events.now.key_3 == Some(true) {
            self.cannon = CannonType::DivergentBullet { a: 100_000_000, b: 1_200_000 };
        }
        let diagonal = (events.key_up ^ events.key_down) && (events.key_left ^ events.key_right);
        let full: i64 = PLAYER_SPEED * elapsed;
        let moved: i64 = if diagonal {
            (((full as i128) * (DIAGONAL_NUM as i128)) / (DIAGONAL_DEN as i128)) as i64
        } else {
            full
        };
        let dx: i64 = if events.key_left == events.key_right {
            0
        } else if events.key_left {
            -moved
        } else {
            moved
        };
        let dy: i64 = if events.key_up == events.key_down {
            0
        } else if events.key_up {
            -moved
        } else {
            moved
        };
        let shifted = Rectangle {
            x: self.rect.x + dx,
            y: self.rect.y + dy,
            w: self.rect.w,
            h: self.rect.h,
        };
        let region = movable_region_of(screen);
        match shifted.move_inside(region) {
            Some(rect) => {
                self.rect = rect;
            },
            None => {
                assert(false);
            },
        }
        self.current = PlayerFrame::select(dx, dy);
    }

    /// Fires both cannons.
    pub fn spawn_bullets(&self) -> (res: Vec<Bullet>)
        requires
            self.wf(),
        ensures
            res@ == self.shots(),
            res.len() == 2,
            res[0].wf(),
            res[1].wf(),
            res[0].spec_rect() == bullet_rect(self.mounts().0, self.mounts().1),
            res[1].spec_rect() == bullet_rect(self.mounts().0, self.mounts().2),
    {
        let cannons_x: i64 = self.rect.x + 30_000_000;
        let cannon1_y: i64 = self.rect.y + 6_000_000;
        let cannon2_y: i64 = self.rect.y + PLAYER_H - 10_000_000;
        spawn_bullets(self.cannon, cannons_x, cannon1_y, cannon2_y)
    }
}

/// A rock that drifts to the left.
#[derive(Debug)]
pub struct Asteroid {
    pub sprite: AnimatedSprite,
    pub rect: Rectangle,
    /// Pixels travelled to the left every second.
    pub vel: i64,
}

impl Asteroid {
    /// The asteroid lies within reach of the simulation, it drifts to the
    /// left at a speed within limits, it is no older than its way from a
    /// place within reach allows, and its animation can be shown.
    pub open spec fn wf(self) -> bool {
        &&& self.rect.bounded()
        &&& 1 <= self.vel <= ASTEROID_SPEED_LIMIT
        &&& 0 <= self.sprite.current_time
        &&& self.rect.x + self.vel * self.sprite.current_time <= COORD_LIMIT
        &&& self.sprite.sprites.len() > 0
        &&& self.sprite.frame_delay != 0
    }

    /// The asteroid `dt` later, without regard to the window.
    pub open spec fn advanced(self, dt: int) -> Asteroid {
        Asteroid {
            sprite: self.sprite.after(dt),
            rect: Rectangle { x: (self.rect.x - dt * self.vel) as i64, ..self.rect },
            vel: self.vel,
        }
    }

    /// Whether the asteroid is still in play once it has advanced by `dt`:
    /// it has not left the window by its whole width on the left.
    pub open spec fn survives(self, dt: int) -> bool {
        self.rect.x - dt * self.vel > -ASTEROID_SIDE
    }

    /// How the frames of an asteroid lie in their sheet.
    pub open spec fn spec_descr() -> AnimatedSpriteDescr<'static> {
        AnimatedSpriteDescr {
            image_path: ASTEROID_PATH,
            total_frames: ASTEROIDS_TOTAL,
            frames_high: ASTEROIDS_HIGH,
            frames_wide: ASTEROIDS_WIDE,
            frame_w: ASTEROID_SIDE,
            frame_h: ASTEROID_SIDE,
        }
    }

    /// How the frames of an asteroid lie in their sheet.
    pub fn descr() -> (res: AnimatedSpriteDescr<'static>)
        ensures
            res == Self::spec_descr(),
    {
        AnimatedSpriteDescr {
            image_path: ASTEROID_PATH,
            total_frames: ASTEROIDS_TOTAL,
            frames_high: ASTEROIDS_HIGH,
            frames_wide: ASTEROIDS_WIDE,
            frame_w: ASTEROID_SIDE,
            frame_h: ASTEROID_SIDE,
        }
    }

    /// A factory that makes asteroids out of the given frames.
    pub fn factory(frames: Vec<Sprite>) -> (res: AsteroidFactory)
        ensures
            *res.sprite.sprites == frames,
            res.sprite.frame_delay == 1_000_000,
            res.sprite.current_time == 0,
            frames.len() > 0 ==> res.wf(),
    {
        AsteroidFactory { sprite: AnimatedSprite::with_fps(frames, 1) }
    }

    /// Moves the asteroid for `dt` and lets its animation run on. Nothing is
    /// left of it once it has left the window on the left.
    pub fn update(self, dt: i64) -> (res: Option<Asteroid>)
        requires
            self.wf(),
            elapsed_ok(dt),
        ensures
            res == (if self.survives(dt as int) {
                Some(self.advanced(dt as int))
            } else {
                None::<Asteroid>
            }),
            res matches Some(a) ==> a.wf() && a.rect.w == self.rect.w && a.rect.h == self.rect.h
                && a.rect.y == self.rect.y,
    {
        let mut next = self;
        assert(0 <= dt * next.vel <= 4_294_967_296_000 * 0x0010_0000) by (nonlinear_arith)
            requires
                0 <= dt <= 4_294_967_296_000,
                0 <= next.vel <= 0x0010_0000,
        ;
        assert(next.sprite.current_time <= next.vel * next.sprite.current_time)
            by (nonlinear_arith)
            requires
                next.vel >= 1,
                next.sprite.current_time >= 0,
        ;
        assert(next.vel * (next.sprite.current_time + dt) == next.vel * next.sprite.current_time
            + dt * next.vel) by (nonlinear_arith);
        next.rect.x = next.rect.x - dt * next.vel;
        next.sprite.add_time(dt);
        if next.rect.x <= -ASTEROID_SIDE {
            None
        } else {
            Some(next)
        }
    }

    /// The bounding box of the asteroid.
    pub fn rect(&self) -> (res: Rectangle)
        ensures
            res == self.rect,
    {
        self.rect
    }
}

/// A fraction in `[0, 1)` drawn from the top 53 bits of `draw`, applied to
/// `range` and rounded down.
pub open spec fn fraction_of(draw: u64, range: int) -> int {
    ((draw / 2048) * range) / (FRACTION_STEPS as int)
}

/// `fraction_of`, applied to the size of a range that may be negative and
/// rounded toward zero.
pub open spec fn signed_fraction_of(draw: u64, range: int) -> int {
    if range >= 0 {
        fraction_of(draw, range)
    } else {
        -fraction_of(draw, -range)
    }
}

/// The draws that decide whether an asteroid appears in a frame, and which.
#[derive(Clone, Copy, Debug, PartialEq, Eq, Structural)]
pub struct SpawnDraws {
    /// An asteroid appears when this is a multiple of one hundred.
    pub spawn: u64,
    /// Decides how fast the asteroid spins.
    pub fps: u64,
    /// Decides at which height the asteroid appears.
    pub y: u64,
    /// Decides how fast the asteroid drifts.
    pub vel: u64,
}

/// Makes asteroids that share one strip of frames.
#[derive(Debug)]
pub struct AsteroidFactory {
    pub sprite: AnimatedSprite,
}

impl AsteroidFactory {
    /// The strip is at its start and has a frame.
    pub open spec fn wf(self) -> bool {
        self.sprite.current_time == 0 && self.sprite.sprites.len() > 0
    }

    /// The asteroid that the draws give in a window of size `screen`: just
    /// beyond the right edge, at a height at which it lies within a window
    /// that is high enough for it, with 10 to 29 frames a second and a speed
    /// of 50 to 149 pixels a second.
    pub open spec fn made(self, screen: (i64, i64), draws: SpawnDraws) -> Asteroid {
        Asteroid {
            sprite: AnimatedSprite {
                sprites: self.sprite.sprites,
                frame_delay: delay_for_fps(fraction_of(draws.fps, 20) + 10) as i64,
                current_time: self.sprite.current_time,
            },
            rect: Rectangle {
                w: ASTEROID_SIDE,
                h: ASTEROID_SIDE,
                x: screen.0,
                y: signed_fraction_of(draws.y, screen.1 - ASTEROID_SIDE) as i64,
            },
            vel: (fraction_of(draws.vel, 100) + 50) as i64,
        }
    }

    /// Makes the asteroid that the draws give.
    pub fn random(&self, screen: (i64, i64), draws: SpawnDraws) -> (res: Asteroid)
        requires
            self.wf(),
            screen_ok(screen),
        ensures
            res == self.made(screen, draws),
            res.wf(),
            10 <= fraction_of(draws.fps, 20) + 10 < 30,
            50 <= res.vel < 150,
            screen.1 >= ASTEROID_SIDE ==> 0 <= res.rect.y <= screen.1 - ASTEROID_SIDE,
    {
        let mut sprite = self.sprite.duplicate();
        let fps: i64 = scale_fraction(draws.fps, 20) + 10;
        proof {
            lemma_div_is_ordered_by_denominator(1_000_000, fps as int, 30);
        }
        sprite.set_fps(fps);
        let gap: i64 = screen.1 - ASTEROID_SIDE;
        let y: i64 = if gap >= 0 {
            scale_fraction(draws.y, gap)
        } else {
            -scale_fraction(draws.y, -gap)
        };
        let vel: i64 = scale_fraction(draws.vel, 100) + 50;
        assert(vel * 0 == 0) by (nonlinear_arith);
        Asteroid {
            sprite,
            rect: Rectangle { w: ASTEROID_SIDE, h: ASTEROID_SIDE, x: screen.0, y },
            vel,
        }
    }
}

/// The fraction that `draw` stands for, applied to `range`.
pub fn scale_fraction(draw: u64, range: i64) -> (res: i64)
    requires
        0 <= range,
    ensures
        res == fraction_of(draw, range as int),
        0 <= res <= range,
        range > 0 ==> res < range,
{
    let k: u128 = (draw / 2048) as u128;
    assert(0 <= k * range <= (FRACTION_STEPS - 1) * range) by (nonlinear_arith)
        requires
            0 <= k <= FRACTION_STEPS - 1,
            0 <= range,
    ;
    assert((FRACTION_STEPS - 1) * range <= 0x0020_0000_0000_0000 * 0x7fff_ffff_ffff_ffff)
        by (nonlinear_arith)
        requires
            0 <= range <= 0x7fff_ffff_ffff_ffff,
    ;
    let scaled: u128 = (k * (range as u128)) / (FRACTION_STEPS as u128);
    proof {
        let steps = FRACTION_STEPS as int;
        assert(k * range <= steps * range - range) by (nonlinear_arith)
            requires
                k <= steps - 1,
                0 <= range,
        ;
        lemma_div_is_ordered(k * range, steps * range, steps);
        lemma_div_multiples_vanish(range as int, steps);
        lemma_div_pos_is_pos(k * range, steps);
        assert(scaled <= range);
        if range > 0 {
            assert(k * range < steps * range);
            if scaled == range {
                vstd::arithmetic::div_mod::lemma_fundamental_div_mod(k * range, steps);
                assert(false);
            }
        }
        assert(k == draw / 2048);
        assert(scaled == fraction_of(draw, range as int));
    }
    scaled as i64
}

/// What is left of a destroyed asteroid for a moment.
#[derive(Debug)]
pub struct Explosion {
    pub sprite: AnimatedSprite,
    pub rect: Rectangle,
    /// The age of the explosion.
    pub alive_since: i64,
}

impl Explosion {
    /// The explosion is no older than it lasts, its animation is as old as
    /// it is and can be shown.
    pub open spec fn wf(self) -> bool {
        &&& 0 <= self.alive_since <= EXPLOSION_DURATION
        &&& self.sprite.current_time == self.alive_since
        &&& self.sprite.sprites.len() > 0
        &&& self.sprite.frame_delay != 0
    }

    /// The explosion `dt` later.
    pub open spec fn advanced(self, dt: int) -> Explosion {
        Explosion {
            sprite: self.sprite.after(dt),
            rect: self.rect,
            alive_since: (self.alive_since + dt) as i64,
        }
    }

    /// Whether the explosion still shows once `dt` has passed.
    pub open spec fn survives(self, dt: int) -> bool {
        self.alive_since + dt < EXPLOSION_DURATION
    }

    /// How the frames of an explosion lie in their sheet.
    pub open spec fn spec_descr() -> AnimatedSpriteDescr<'static> {
        AnimatedSpriteDescr {
            image_path: EXPLOSION_PATH,
            total_frames: EXPLOSIONS_TOTAL,
            frames_high: EXPLOSIONS_HIGH,
            frames_wide: EXPLOSIONS_WIDE,
            frame_w: EXPLOSION_SIDE,
            frame_h: EXPLOSION_SIDE,
        }
    }

    /// How the frames of an explosion lie in their sheet.
    pub fn descr() -> (res: AnimatedSpriteDescr<'static>)
        ensures
            res == Self::spec_descr(),
    {
        AnimatedSpriteDescr {
            image_path: EXPLOSION_PATH,
            total_frames: EXPLOSIONS_TOTAL,
            frames_high: EXPLOSIONS_HIGH,
            frames_wide: EXPLOSIONS_WIDE,
            frame_w: EXPLOSION_SIDE,
            frame_h: EXPLOSION_SIDE,
        }
    }

    /// A factory that makes explosions out of the given frames.
    pub fn factory(frames: Vec<Sprite>) -> (res: ExplosionFactory)
        ensures
            *res.sprite.sprites == frames,
            res.sprite.frame_delay == 62_500,
            res.sprite.current_time == 0,
            frames.len() > 0 ==> res.wf(),
    {
        ExplosionFactory { sprite: AnimatedSprite::with_fps(frames, EXPLOSION_FPS) }
    }

    /// Lets the explosion age by `dt`. Nothing is left of it once it has
    /// lasted its time.
    pub fn update(self, dt: i64) -> (res: Option<Explosion>)
        requires
            self.wf(),
            elapsed_ok(dt),
        ensures
            res == (if self.survives(dt as int) {
                Some(self.advanced(dt as int))
            } else {
                None::<Explosion>
            }),
            res matches Some(e) ==> e.wf(),
    {
        let mut next = self;
        next.alive_since = next.alive_since + dt;
        next.sprite.add_time(dt);
        if next.alive_since >= EXPLOSION_DURATION {
            None
        } else {
            Some(next)
        }
    }
}

/// Makes explosions that share one strip of frames.
#[derive(Debug)]
pub struct ExplosionFactory {
    pub sprite: AnimatedSprite,
}

impl ExplosionFactory {
    /// The strip is at its start and can be shown.
    pub open spec fn wf(self) -> bool {
        self.sprite.current_time == 0 && self.sprite.sprites.len() > 0 && self.sprite.frame_delay
            != 0
    }

    /// The explosion centered on `center`.
    pub open spec fn made(self, center: (int, int)) -> Explosion {
        Explosion {
            sprite: self.sprite,
            rect: Rectangle {
                x: (center.0 - EXPLOSION_SIDE / 2) as i64,
                y: (center.1 - EXPLOSION_SIDE / 2) as i64,
                w: EXPLOSION_SIDE,
                h: EXPLOSION_SIDE,
            },
            alive_since: 0,
        }
    }

    /// Makes an explosion centered on `center`.
    pub fn at_center(&self, center: (i64, i64)) -> (res: Explosion)
        requires
            self.wf(),
            i64::MIN + EXPLOSION_SIDE / 2 <= center.0,
            i64::MIN + EXPLOSION_SIDE / 2 <= center.1,
        ensures
            res == self.made((center.0 as int, center.1 as int)),
            res.wf(),
            res.rect.spec_center() == (center.0 as int, center.1 as int),
    {
        Explosion {
            sprite: self.sprite.duplicate(),
            rect: Rectangle::with_size(EXPLOSION_SIDE, EXPLOSION_SIDE).center_at(center),
            alive_since: 0,
        }
    }
}

/// The bullets among the first `n` that are still in play after `dt`, each
/// moved on, in their order.
pub open spec fn bullets_kept(bullets: Seq<Bullet>, screen: (i64, i64), dt: int, n: int) -> Seq<
    Bullet,
>
    decreases n,
{
    if n <= 0 {
        Seq::empty()
    } else {
        let rest = bullets_kept(bullets, screen, dt, n - 1);
        if bullets[n - 1].survives(screen, dt) {
            rest.push(bullets[n - 1].advanced(dt))
        } else {
            rest
        }
    }
}

/// The asteroids among the first `n` that are still in play after `dt`,
/// each moved on, in their order.
pub open spec fn asteroids_kept(asteroids: Seq<Asteroid>, dt: int, n: int) -> Seq<Asteroid>
    decreases n,
{
    if n <= 0 {
        Seq::empty()
    } else {
        let rest = asteroids_kept(asteroids, dt, n - 1);
        if asteroids[n - 1].survives(dt) {
            rest.push(asteroids[n - 1].advanced(dt))
        } else {
            rest
        }
    }
}

/// The explosions among the first `n` that still show after `dt`, each
/// aged, in their order.
pub open spec fn explosions_kept(explosions: Seq<Explosion>, dt: int, n: int) -> Seq<Explosion>
    decreases n,
{
    if n <= 0 {
        Seq::empty()
    } else {
        let rest = explosions_kept(explosions, dt, n - 1);
        if explosions[n - 1].survives(dt) {
            rest.push(explosions[n - 1].advanced(dt))
        } else {
            rest
        }
    }
}

/// The bounding boxes of the asteroids, in their order.
pub open spec fn rock_rects(asteroids: Seq<Asteroid>) -> Seq<Rectangle> {
    Seq::new(asteroids.len(), |i: int| asteroids[i].rect)
}

/// The bounding boxes of the bullets, in their order.
pub open spec fn shot_rects(bullets: Seq<Bullet>) -> Seq<Rectangle> {
    Seq::new(bullets.len(), |j: int| bullets[j].spec_rect())
}

/// Whether one of the first `n` asteroids overlaps the bullet.
pub open spec fn hit_before(rocks: Seq<Rectangle>, shot: Rectangle, n: int) -> bool {
    exists|i: int| 0 <= i < n && (#[trigger] rocks[i]).spec_overlaps(shot)
}

/// Whether one of the first `m` bullets destroys the `i`-th asteroid: it
/// overlaps it, and no asteroid before the `i`-th has used the bullet up.
pub open spec fn struck_before(rocks: Seq<Rectangle>, shots: Seq<Rectangle>, i: int, m: int) -> bool {
    exists|j: int|
        0 <= j < m && rocks[i].spec_overlaps(#[trigger] shots[j]) && !hit_before(rocks, shots[j], i)
}

/// Whether the `i`-th asteroid is destroyed: by a bullet, or by running
/// into the ship.
pub open spec fn rock_dies(rocks: Seq<Rectangle>, shots: Seq<Rectangle>, ship: Rectangle, i: int) -> bool {
    struck_before(rocks, shots, i, shots.len() as int) || rocks[i].spec_overlaps(ship)
}

/// Whether the bullet is used up: some asteroid overlaps it.
pub open spec fn shot_dies(rocks: Seq<Rectangle>, shot: Rectangle) -> bool {
    hit_before(rocks, shot, rocks.len() as int)
}

/// Whether none of the first `n` asteroids overlaps the ship.
pub open spec fn ship_clear_of(rocks: Seq<Rectangle>, ship: Rectangle, n: int) -> bool {
    forall|i: int| 0 <= i < n ==> !(#[trigger] rocks[i]).spec_overlaps(ship)
}

/// The asteroids among the first `n` that the collisions leave, in their
/// order.
pub open spec fn rocks_left(
    asteroids: Seq<Asteroid>,
    shots: Seq<Rectangle>,
    ship: Rectangle,
    n: int,
) -> Seq<Asteroid>
    decreases n,
{
    if n <= 0 {
        Seq::empty()
    } else {
        let rest = rocks_left(asteroids, shots, ship, n - 1);
        if rock_dies(rock_rects(asteroids), shots, ship, n - 1) {
            rest
        } else {
            rest.push(asteroids[n - 1])
        }
    }
}

/// The explosions that the collisions leave in place of those of the first
/// `n` asteroids that are destroyed: one for each, centered on it, in the
/// order of the asteroids.
pub open spec fn blasts(
    factory: ExplosionFactory,
    asteroids: Seq<Asteroid>,
    shots: Seq<Rectangle>,
    ship: Rectangle,
    n: int,
) -> Seq<Explosion>
    decreases n,
{
    if n <= 0 {
        Seq::empty()
    } else {
        let rest = blasts(factory, asteroids, shots, ship, n - 1);
        if rock_dies(rock_rects(asteroids), shots, ship, n - 1) {
            rest.push(factory.made(asteroids[n - 1].rect.spec_center()))
        } else {
            rest
        }
    }
}

/// The bullets among the first `n` that the collisions leave, in their
/// order.
pub open spec fn shots_left(bullets: Seq<Bullet>, rocks: Seq<Rectangle>, n: int) -> Seq<Bullet>
    decreases n,
{
    if n <= 0 {
        Seq::empty()
    } else {
        let rest = shots_left(bullets, rocks, n - 1);
        if shot_dies(rocks, bullets[n - 1].spec_rect()) {
            rest
        } else {
            rest.push(bullets[n - 1])
        }
    }
}

/// Whether every bullet of the sequence is well formed.
pub open spec fn bullets_wf(bullets: Seq<Bullet>) -> bool {
    forall|j: int| 0 <= j < bullets.len() ==> (#[trigger] bullets[j]).wf()
}

/// Whether every asteroid of the sequence is well formed.
pub open spec fn asteroids_wf(asteroids: Seq<Asteroid>) -> bool {
    forall|i: int| 0 <= i < asteroids.len() ==> (#[trigger] asteroids[i]).wf()
}

/// Whether every explosion of the sequence is well formed.
pub open spec fn explosions_wf(explosions: Seq<Explosion>) -> bool {
    forall|i: int| 0 <= i < explosions.len() ==> (#[trigger] explosions[i]).wf()
}

/// Moves every bullet for `dt` and keeps those still in play.
pub fn update_bullets(bullets: Vec<Bullet>, screen: (i64, i64), dt: i64) -> (res: Vec<Bullet>)
    requires
        bullets_wf(bullets@),
        screen_ok(screen),
        elapsed_ok(dt),
    ensures
        res@ == bullets_kept(bullets@, screen, dt as int, bullets.len() as int),
        bullets_wf(res@),
{
    let mut kept: Vec<Bullet> = Vec::new();
    let mut i: usize = 0;
    while i < bullets.len()
        invariant
            i <= bullets.len(),
            bullets_wf(bullets@),
            screen_ok(screen),
            elapsed_ok(dt),
            kept@ == bullets_kept(bullets@, screen, dt as int, i as int),
            bullets_wf(kept@),
        decreases bullets.len() - i,
    {
        match bullets[i].update(screen, dt) {
            Some(bullet) => {
                kept.push(bullet);
            },
            None => {},
        }
        i += 1;
    }
    kept
}

/// Moves every asteroid for `dt` and keeps those still in play.
pub fn update_asteroids(asteroids: Vec<Asteroid>, dt: i64) -> (res: Vec<Asteroid>)
    requires
        asteroids_wf(asteroids@),
        elapsed_ok(dt),
    ensures
        res@ == asteroids_kept(asteroids@, dt as int, asteroids.len() as int),
        asteroids_wf(res@),
{
    let mut kept: Vec<Asteroid> = Vec::new();
    let ghost all = asteroids@;
    for asteroid in it: asteroids
        invariant
            it.seq() == all,
            asteroids_wf(all),
            elapsed_ok(dt),
            kept@ == asteroids_kept(all, dt as int, it.index() as int),
            asteroids_wf(kept@),
    {
        assert(asteroid == all[it.index() as int]);
        match asteroid.update(dt) {
            Some(next) => {
                kept.push(next);
            },
            None => {},
        }
    }
    kept
}

/// Lets every explosion age by `dt` and keeps those that still show.
pub fn update_explosions(explosions: Vec<Explosion>, dt: i64) -> (res: Vec<Explosion>)
    requires
        explosions_wf(explosions@),
        elapsed_ok(dt),
    ensures
        res@ == explosions_kept(explosions@, dt as int, explosions.len() as int),
        explosions_wf(res@),
{
    let mut kept: Vec<Explosion> = Vec::new();
    let ghost all = explosions@;
    for explosion in it: explosions
        invariant
            it.seq() == all,
            explosions_wf(all),
            elapsed_ok(dt),
            kept@ == explosions_kept(all, dt as int, it.index() as int),
            explosions_wf(kept@),
    {
        assert(explosion == all[it.index() as int]);
        match explosion.update(dt) {
            Some(next) => {
                kept.push(next);
            },
            None => {},
        }
    }
    kept
}

/// Taking one more asteroid into account, a bullet has been hit if it had
/// been hit before or that asteroid overlaps it.
pub proof fn lemma_hit_step(rocks: Seq<Rectangle>, shot: Rectangle, n: int)
    requires
        0 <= n < rocks.len(),
    ensures
        hit_before(rocks, shot, n + 1) == (hit_before(rocks, shot, n) || rocks[n].spec_overlaps(
            shot,
        )),
{
    if hit_before(rocks, shot, n + 1) {
        let i = choose|i: int| 0 <= i < n + 1 && (#[trigger] rocks[i]).spec_overlaps(shot);
        if i < n {
            assert(hit_before(rocks, shot, n));
        }
    }
    if hit_before(rocks, shot, n) {
        let i = choose|i: int| 0 <= i < n && (#[trigger] rocks[i]).spec_overlaps(shot);
        assert(0 <= i < n + 1 && rocks[i].spec_overlaps(shot));
    }
    if rocks[n].spec_overlaps(shot) {
        assert(0 <= n < n + 1 && rocks[n].spec_overlaps(shot));
    }
}

/// Taking one more bullet into account, an asteroid has been struck if it
/// had been struck before or that bullet, not yet used up, overlaps it.
pub proof fn lemma_struck_step(rocks: Seq<Rectangle>, shots: Seq<Rectangle>, i: int, m: int)
    requires
        0 <= m < shots.len(),
    ensures
        struck_before(rocks, shots, i, m + 1) == (struck_before(rocks, shots, i, m) || (
        rocks[i].spec_overlaps(shots[m]) && !hit_before(rocks, shots[m], i))),
{
    if struck_before(rocks, shots, i, m + 1) {
        let j = choose|j: int|
            0 <= j < m + 1 && rocks[i].spec_overlaps(#[trigger] shots[j]) && !hit_before(
                rocks,
                shots[j],
                i,
            );
        if j < m {
            assert(struck_before(rocks, shots, i, m));
        }
    }
    if struck_before(rocks, shots, i, m) {
        let j = choose|j: int|
            0 <= j < m && rocks[i].spec_overlaps(#[trigger] shots[j]) && !hit_before(
                rocks,
                shots[j],
                i,
            );
        assert(0 <= j < m + 1 && rocks[i].spec_overlaps(shots[j]) && !hit_before(
            rocks,
            shots[j],
            i,
        ));
    }
    if rocks[i].spec_overlaps(shots[m]) && !hit_before(rocks, shots[m], i) {
        assert(0 <= m < m + 1 && rocks[i].spec_overlaps(shots[m]) && !hit_before(
            rocks,
            shots[m],
            i,
        ));
    }
}

/// One asteroid and one bullet that overlap destroy each other: neither is
/// left, and there is exactly one explosion, centered on the asteroid.
pub proof fn lemma_bullet_meets_asteroid(
    factory: ExplosionFactory,
    asteroid: Asteroid,
    bullet: Bullet,
    ship: Rectangle,
)
    requires
        asteroid.rect.spec_overlaps(bullet.spec_rect()),
    ensures
        rocks_left(seq![asteroid], shot_rects(seq![bullet]), ship, 1) == Seq::<Asteroid>::empty(),
        shots_left(seq![bullet], rock_rects(seq![asteroid]), 1) == Seq::<Bullet>::empty(),
        blasts(factory, seq![asteroid], shot_rects(seq![bullet]), ship, 1) == seq![
            factory.made(asteroid.rect.spec_center()),
        ],
        factory.made(asteroid.rect.spec_center()).rect.w == EXPLOSION_SIDE,
        ship_clear_of(rock_rects(seq![asteroid]), ship, 1) == !asteroid.rect.spec_overlaps(ship),
{
    let asteroids = seq![asteroid];
    let bullets = seq![bullet];
    let rocks = rock_rects(asteroids);
    let shots = shot_rects(bullets);
    assert(rocks[0] == asteroid.rect);
    assert(shots[0] == bullet.spec_rect());
    assert(!hit_before(rocks, shots[0], 0));
    assert(struck_before(rocks, shots, 0, 1));
    assert(hit_before(rocks, bullet.spec_rect(), 1));
    assert(rocks_left(asteroids, shots, ship, 0) == Seq::<Asteroid>::empty());
    assert(shots_left(bullets, rocks, 0) == Seq::<Bullet>::empty());
    assert(blasts(factory, asteroids, shots, ship, 0) == Seq::<Explosion>::empty());
    assert(blasts(factory, asteroids, shots, ship, 1) =~= seq![
        factory.made(asteroid.rect.spec_center()),
    ]);
    if ship_clear_of(rocks, ship, 1) {
        assert(!rocks[0].spec_overlaps(ship));
    }
}

/// An asteroid that overlaps the ship, with no bullet about, is destroyed
/// and destroys the ship: it is not left, there is exactly one explosion,
/// centered on it, and the ship does not come through.
pub proof fn lemma_asteroid_meets_ship(factory: ExplosionFactory, asteroid: Asteroid, ship: Rectangle)
    requires
        asteroid.rect.spec_overlaps(ship),
    ensures
        rocks_left(seq![asteroid], Seq::<Rectangle>::empty(), ship, 1) == Seq::<Asteroid>::empty(),
        blasts(factory, seq![asteroid], Seq::<Rectangle>::empty(), ship, 1) == seq![
            factory.made(asteroid.rect.spec_center()),
        ],
        !ship_clear_of(rock_rects(seq![asteroid]), ship, 1),
{
    let asteroids = seq![asteroid];
    let shots = Seq::<Rectangle>::empty();
    let rocks = rock_rects(asteroids);
    assert(rocks[0] == asteroid.rect);
    assert(rock_dies(rocks, shots, ship, 0));
    assert(rocks_left(asteroids, shots, ship, 0) == Seq::<Asteroid>::empty());
    assert(blasts(factory, asteroids, shots, ship, 0) == Seq::<Explosion>::empty());
    assert(blasts(factory, asteroids, shots, ship, 1) =~= seq![
        factory.made(asteroid.rect.spec_center()),
    ]);
}

/// A bullet that no asteroid overlaps and an asteroid that neither a bullet
/// nor the ship overlaps are left as they are.
pub proof fn lemma_apart_means_left(asteroid: Asteroid, bullet: Bullet, ship: Rectangle)
    requires
        !asteroid.rect.spec_overlaps(bullet.spec_rect()),
        !asteroid.rect.spec_overlaps(ship),
    ensures
        rocks_left(seq![asteroid], shot_rects(seq![bullet]), ship, 1) == seq![asteroid],
        shots_left(seq![bullet], rock_rects(seq![asteroid]), 1) == seq![bullet],
{
    let asteroids = seq![asteroid];
    let bullets = seq![bullet];
    let rocks = rock_rects(asteroids);
    let shots = shot_rects(bullets);
    assert(rocks[0] == asteroid.rect);
    assert(shots[0] == bullet.spec_rect());
    assert(!struck_before(rocks, shots, 0, 1)) by {
        if struck_before(rocks, shots, 0, 1) {
            let j = choose|j: int|
                0 <= j < 1 && rocks[0].spec_overlaps(#[trigger] shots[j]) && !hit_before(
                    rocks,
                    shots[j],
                    0,
                );
            assert(j == 0);
        }
    }
    assert(!hit_before(rocks, bullet.spec_rect(), 1)) by {
        if hit_before(rocks, bullet.spec_rect(), 1) {
            let i = choose|i: int|
                0 <= i < 1 && (#[trigger] rocks[i]).spec_overlaps(bullet.spec_rect());
            assert(i == 0);
        }
    }
    assert(rocks_left(asteroids, shots, ship, 0) == Seq::<Asteroid>::empty());
    assert(shots_left(bullets, rocks, 0) == Seq::<Bullet>::empty());
    assert(rocks_left(asteroids, shots, ship, 1) =~= seq![asteroid]);
    assert(shots_left(bullets, rocks, 1) =~= seq![bullet]);
}

/// What the collisions of a frame leave behind.
#[derive(Debug)]
pub struct Collision {
    pub asteroids: Vec<Asteroid>,
    pub bullets: Vec<Bullet>,
    pub explosions: Vec<Explosion>,
    /// Whether no asteroid ran into the ship.
    pub player_alive: bool,
    /// Number of asteroids destroyed.
    pub destroyed: usize,
}

/// Every bullet, marked as alive.
fn mark_alive(bullets: &Vec<Bullet>) -> (res: Vec<MaybeAlive<Bullet>>)
    ensures
        res.len() == bullets.len(),
        forall|j: int| 0 <= j < res.len() ==> (#[trigger] res[j]).alive && res[j].value == bullets[j],
{
    let mut marked: Vec<MaybeAlive<Bullet>> = Vec::new();
    let mut j: usize = 0;
    while j < bullets.len()
        invariant
            j <= bullets.len(),
            marked.len() == j,
            forall|k: int|
                0 <= k < j ==> (#[trigger] marked[k]).alive && marked[k].value == bullets[k],
        decreases bullets.len() - j,
    {
        marked.push(MaybeAlive { alive: true, value: bullets[j] });
        j += 1;
    }
    marked
}

/// Tests one asteroid against the bullets not yet used up, and uses up
/// those it overlaps. Says whether the asteroid got through.
fn strike(
    rock: Rectangle,
    marked: &mut Vec<MaybeAlive<Bullet>>,
    Ghost(rocks): Ghost<Seq<Rectangle>>,
    Ghost(shots): Ghost<Seq<Rectangle>>,
    Ghost(i): Ghost<int>,
) -> (intact: bool)
    requires
        0 <= i < rocks.len(),
        rock == rocks[i],
        old(marked).len() == shots.len(),
        forall|j: int|
            0 <= j < shots.len() ==> (#[trigger] old(marked)[j]).value.wf() && old(
                marked,
            )[j].value.spec_rect() == shots[j] && old(marked)[j].alive == !hit_before(
                rocks,
                shots[j],
                i,
            ),
    ensures
        final(marked).len() == shots.len(),
        forall|j: int|
            0 <= j < shots.len() ==> (#[trigger] final(marked)[j]).value == old(marked)[j].value
                && final(marked)[j].alive == !hit_before(rocks, shots[j], i + 1),
        intact == !struck_before(rocks, shots, i, shots.len() as int),
{
    let mut intact = true;
    let mut j: usize = 0;
    while j < marked.len()
        invariant
            j <= marked.len(),
            0 <= i < rocks.len(),
            rock == rocks[i],
            marked.len() == shots.len(),
            forall|k: int|
                0 <= k < shots.len() ==> (#[trigger] marked[k]).value == old(marked)[k].value
                    && marked[k].value.wf() && marked[k].value.spec_rect() == shots[k],
            forall|k: int|
                0 <= k < j ==> (#[trigger] marked[k]).alive == !hit_before(rocks, shots[k], i + 1),
            forall|k: int|
                j <= k < shots.len() ==> (#[trigger] marked[k]).alive == !hit_before(
                    rocks,
                    shots[k],
                    i,
                ),
            intact == !struck_before(rocks, shots, i, j as int),
        decreases marked.len() - j,
    {
        proof {
            lemma_hit_step(rocks, shots[j as int], i);
            lemma_struck_step(rocks, shots, i, j as int);
        }
        let bullet: Bullet = marked[j].value;
        if marked[j].alive && rock.overlaps(bullet.rect()) {
            intact = false;
            marked.set(j, MaybeAlive { alive: false, value: bullet });
        }
        j += 1;
    }
    intact
}

/// The collisions of a frame. Each asteroid in turn is tested against the
/// bullets not yet used up and against the ship. An asteroid that overlaps
/// a bullet is destroyed and uses the bullet up; one that overlaps the ship
/// is destroyed and destroys the ship. Every asteroid destroyed leaves an
/// explosion centered on it.
pub fn collide(
    asteroids: Vec<Asteroid>,
    bullets: Vec<Bullet>,
    explosions: Vec<Explosion>,
    ship: Rectangle,
    factory: &ExplosionFactory,
) -> (res: Collision)
    requires
        asteroids_wf(asteroids@),
        bullets_wf(bullets@),
        explosions_wf(explosions@),
        factory.wf(),
    ensures
        res.asteroids@ == rocks_left(
            asteroids@,
            shot_rects(bullets@),
            ship,
            asteroids.len() as int,
        ),
        res.bullets@ == shots_left(bullets@, rock_rects(asteroids@), bullets.len() as int),
        res.explosions@ == explosions@ + blasts(
            *factory,
            asteroids@,
            shot_rects(bullets@),
            ship,
            asteroids.len() as int,
        ),
        res.player_alive == ship_clear_of(rock_rects(asteroids@), ship, asteroids.len() as int),
        res.destroyed == blasts(
            *factory,
            asteroids@,
            shot_rects(bullets@),
            ship,
            asteroids.len() as int,
        ).len(),
        res.asteroids.len() + res.destroyed == asteroids.len(),
        asteroids_wf(res.asteroids@),
        bullets_wf(res.bullets@),
        explosions_wf(res.explosions@),
{
    let mut marked = mark_alive(&bullets);
    let mut survivors: Vec<Asteroid> = Vec::new();
    let mut blown = explosions;
    let mut player_alive = true;
    let mut destroyed: usize = 0;
    let ghost all = asteroids@;
    let ghost rocks = rock_rects(asteroids@);
    let ghost shots = shot_rects(bullets@);
    let ghost before = explosions@;
    let count: usize = asteroids.len();
    for asteroid in it: asteroids
        invariant
            it.seq() == all,
            all.len() == count,
            rocks == rock_rects(all),
            shots == shot_rects(bullets@),
            asteroids_wf(all),
            bullets_wf(bullets@),
            factory.wf(),
            marked.len() == bullets.len(),
            forall|j: int|
                0 <= j < marked.len() ==> (#[trigger] marked[j]).value == bullets[j]
                    && marked[j].alive == !hit_before(rocks, shots[j], it.index() as int),
            survivors@ == rocks_left(all, shots, ship, it.index() as int),
            blown@ == before + blasts(*factory, all, shots, ship, it.index() as int),
            destroyed == blasts(*factory, all, shots, ship, it.index() as int).len(),
            survivors.len() + destroyed == it.index(),
            player_alive == ship_clear_of(rocks, ship, it.index() as int),
            asteroids_wf(survivors@),
            explosions_wf(blown@),
    {
        let ghost i = it.index() as int;
        assert(0 <= i < count);
        assert(asteroid == all[i]);
        assert(rocks[i] == asteroid.rect);
        let rock = asteroid.rect();
        let mut intact = strike(rock, &mut marked, Ghost(rocks), Ghost(shots), Ghost(i));
        if rock.overlaps(ship) {
            intact = false;
            player_alive = false;
        }
        assert(intact == !rock_dies(rocks, shots, ship, i));
        assert(player_alive == ship_clear_of(rocks, ship, i + 1)) by {
            if ship_clear_of(rocks, ship, i + 1) {
                assert(ship_clear_of(rocks, ship, i));
                assert(!rocks[i].spec_overlaps(ship));
            }
        }
        if intact {
            survivors.push(asteroid);
        } else {
            let center = asteroid.rect.center();
            let explosion = factory.at_center(center);
            blown.push(explosion);
            destroyed = destroyed + 1;
            assert(blown@ =~= before + blasts(*factory, all, shots, ship, i + 1));
        }
    }
    let mut left: Vec<Bullet> = Vec::new();
    let ghost flagged = marked@;
    for entry in it: marked
        invariant
            it.seq() == flagged,
            flagged.len() == bullets.len(),
            shots == shot_rects(bullets@),
            bullets_wf(bullets@),
            forall|k: int|
                0 <= k < flagged.len() ==> (#[trigger] flagged[k]).value == bullets[k]
                    && flagged[k].alive == !hit_before(rocks, shots[k], rocks.len() as int),
            left@ == shots_left(bullets@, rocks, it.index() as int),
            bullets_wf(left@),
    {
        let ghost k = it.index() as int;
        assert(entry == flagged[k]);
        assert(shots[k] == bullets[k].spec_rect());
        match entry.as_option() {
            Some(bullet) => {
                left.push(bullet);
            },
            None => {},
        }
    }
    Collision { asteroids: survivors, bullets: left, explosions: blown, player_alive, destroyed }
}

/// The sheets out of which the pictures of the game are cut.
#[derive(Clone, Copy, Debug, PartialEq, Eq, Structural)]
pub struct GameSheets {
    pub ship: Sprite,
    pub asteroids: Sprite,
    pub explosions: Sprite,
}

impl GameSheets {
    /// Every sheet is large enough for the pictures cut out of it.
    pub open spec fn loadable(self) -> bool {
        &&& self.ship.src.wf()
        &&& self.asteroids.src.wf()
        &&& self.explosions.src.wf()
        &&& forall|k: int| 0 <= k < 9 ==> self.ship.admits(Player::cell(k))
        &&& forall|k: int|
            0 <= k < ASTEROIDS_TOTAL ==> Asteroid::spec_descr().cell_ok(self.asteroids, k)
        &&& forall|k: int|
            0 <= k < EXPLOSIONS_TOTAL ==> Explosion::spec_descr().cell_ok(self.explosions, k)
    }
}

impl GameSheets {
    /// Whether every sheet is large enough for the pictures cut out of it.
    pub fn is_loadable(&self) -> (res: bool)
        ensures
            res == self.loadable(),
    {
        if !(self.ship.src.is_wf() && self.asteroids.src.is_wf() && self.explosions.src.is_wf()) {
            return false;
        }
        let rock_descr = Asteroid::descr();
        let blast_descr = Explosion::descr();
        proof {
            assert(rock_descr.count() == ASTEROIDS_TOTAL);
            assert(blast_descr.count() == EXPLOSIONS_TOTAL);
        }
        Player::new(&self.ship, (0, 0)).is_some() && AnimatedSprite::load_frames(
            &self.asteroids,
            &rock_descr,
        ).is_some() && AnimatedSprite::load_frames(&self.explosions, &blast_descr).is_some()
    }
}

/// What happened in a frame of the game, for the platform to act on.
#[derive(Clone, Copy, Debug, PartialEq, Eq, Structural)]
pub struct Report {
    /// Whether no asteroid ran into the ship.
    pub player_alive: bool,
    /// Number of asteroids destroyed, each of which makes itself heard.
    pub destroyed: usize,
    /// Whether the cannons were fired.
    pub fired: bool,
}

/// The game in progress.
#[derive(Debug)]
pub struct GameView {
    pub player: Player,
    pub bullets: Vec<Bullet>,
    pub asteroids: Vec<Asteroid>,
    pub asteroid_factory: AsteroidFactory,
    pub explosions: Vec<Explosion>,
    pub explosion_factory: ExplosionFactory,
    pub bg: BgSet,
}

impl GameView {
    /// Everything in the game is well formed.
    pub open spec fn wf(self) -> bool {
        &&& self.player.wf()
        &&& bullets_wf(self.bullets@)
        &&& asteroids_wf(self.asteroids@)
        &&& explosions_wf(self.explosions@)
        &&& self.asteroid_factory.wf()
        &&& self.explosion_factory.wf()
        &&& self.bg.wf()
    }

    /// Whether the ship can be kept within its region of a window of the
    /// given size.
    pub open spec fn playable(self, screen: (i64, i64)) -> bool {
        screen_ok(screen) && self.player.rect.fits_in(movable_region(screen))
    }

    /// The bullets once they have moved, before the collisions.
    pub open spec fn bullets_moved(self, screen: (i64, i64), elapsed: int) -> Seq<Bullet> {
        bullets_kept(self.bullets@, screen, elapsed, self.bullets.len() as int)
    }

    /// The asteroids once they have moved, before the collisions.
    pub open spec fn asteroids_moved(self, elapsed: int) -> Seq<Asteroid> {
        asteroids_kept(self.asteroids@, elapsed, self.asteroids.len() as int)
    }

    /// The ship after the frame.
    pub open spec fn next_player(self, events: Events, elapsed: int, screen: (i64, i64)) -> Player {
        self.player.after(events, elapsed, screen)
    }

    /// Whether the cannons are fired in the frame.
    pub open spec fn fires(events: Events) -> bool {
        events.now.key_space == Some(true)
    }

    /// Whether an asteroid appears in the frame.
    pub open spec fn spawns(draws: SpawnDraws) -> bool {
        draws.spawn % 100 == 0
    }

    /// The bullets after the frame: those that are still in play and that
    /// no asteroid has used up, then those just fired.
    pub open spec fn next_bullets(self, events: Events, elapsed: int, screen: (i64, i64)) -> Seq<
        Bullet,
    > {
        let moved = self.bullets_moved(screen, elapsed);
        let left = shots_left(moved, rock_rects(self.asteroids_moved(elapsed)), moved.len() as int);
        if Self::fires(events) {
            left + self.next_player(events, elapsed, screen).shots()
        } else {
            left
        }
    }

    /// The asteroids after the frame: those that are still in play and that
    /// neither a bullet nor the ship has destroyed, then the one that
    /// appears, if one does.
    pub open spec fn next_asteroids(
        self,
        events: Events,
        elapsed: int,
        screen: (i64, i64),
        draws: SpawnDraws,
    ) -> Seq<Asteroid> {
        let moved = self.asteroids_moved(elapsed);
        let left = rocks_left(
            moved,
            shot_rects(self.bullets_moved(screen, elapsed)),
            self.next_player(events, elapsed, screen).rect,
            moved.len() as int,
        );
        if Self::spawns(draws) {
            left.push(self.asteroid_factory.made(screen, draws))
        } else {
            left
        }
    }

    /// The explosions that the frame adds: one for each asteroid destroyed.
    pub open spec fn new_explosions(self, events: Events, elapsed: int, screen: (i64, i64)) -> Seq<
        Explosion,
    > {
        let moved = self.asteroids_moved(elapsed);
        blasts(
            self.explosion_factory,
            moved,
            shot_rects(self.bullets_moved(screen, elapsed)),
            self.next_player(events, elapsed, screen).rect,
            moved.len() as int,
        )
    }

    /// The explosions after the frame: those that still show, then the new
    /// ones.
    pub open spec fn next_explosions(self, events: Events, elapsed: int, screen: (i64, i64)) -> Seq<
        Explosion,
    > {
        explosions_kept(self.explosions@, elapsed, self.explosions.len() as int)
            + self.new_explosions(events, elapsed, screen)
    }

    /// Whether the ship comes through the frame: no asteroid overlaps it
    /// once all have moved.
    pub open spec fn player_survives(self, events: Events, elapsed: int, screen: (i64, i64)) -> bool {
        let moved = self.asteroids_moved(elapsed);
        ship_clear_of(
            rock_rects(moved),
            self.next_player(events, elapsed, screen).rect,
            moved.len() as int,
        )
    }

    /// Whether `next` is the game one frame after `self`.
    pub open spec fn steps_to(
        self,
        next: GameView,
        events: Events,
        elapsed: int,
        screen: (i64, i64),
        draws: SpawnDraws,
    ) -> bool {
        &&& next.player == self.next_player(events, elapsed, screen)
        &&& next.bullets@ == self.next_bullets(events, elapsed, screen)
        &&& next.asteroids@ == self.next_asteroids(events, elapsed, screen, draws)
        &&& next.explosions@ == self.next_explosions(events, elapsed, screen)
        &&& next.asteroid_factory == self.asteroid_factory
        &&& next.explosion_factory == self.explosion_factory
        &&& next.bg == self.bg.after(elapsed)
    }

    /// What the frame reports.
    pub open spec fn report(self, events: Events, elapsed: int, screen: (i64, i64)) -> Report {
        Report {
            player_alive: self.player_survives(events, elapsed, screen),
            destroyed: self.new_explosions(events, elapsed, screen).len() as usize,
            fired: Self::fires(events),
        }
    }

    /// Whether `self` is the game about to begin in a window of size
    /// `screen`: the ship at its start with its nine pictures and the plain
    /// cannon, no bullet, asteroid or explosion, the factories with the
    /// frames cut out of their sheets, and the scenery given.
    pub open spec fn begins(self, sheets: GameSheets, screen: (i64, i64), bg: BgSet) -> bool {
        &&& self.player.rect == Player::start(screen)
        &&& self.player.current == PlayerFrame::MidNorm
        &&& self.player.cannon == CannonType::RectBullet
        &&& self.player.sprites.len() == 9
        &&& forall|k: int|
            0 <= k < 9 ==> #[trigger] self.player.sprites[k] == sheets.ship.sub_sprite(
                Player::cell(k),
            )
        &&& self.bullets.len() == 0
        &&& self.asteroids.len() == 0
        &&& self.explosions.len() == 0
        &&& self.asteroid_factory.sprite.frame_delay == 1_000_000
        &&& self.asteroid_factory.sprite.current_time == 0
        &&& self.asteroid_factory.sprite.sprites.len() == ASTEROIDS_TOTAL
        &&& forall|k: int|
            0 <= k < ASTEROIDS_TOTAL ==> #[trigger] self.asteroid_factory.sprite.sprites[k]
                == sheets.asteroids.sub_sprite(Asteroid::spec_descr().cell(k))
        &&& self.explosion_factory.sprite.frame_delay == 62_500
        &&& self.explosion_factory.sprite.current_time == 0
        &&& self.explosion_factory.sprite.sprites.len() == EXPLOSIONS_TOTAL
        &&& forall|k: int|
            0 <= k < EXPLOSIONS_TOTAL ==> #[trigger] self.explosion_factory.sprite.sprites[k]
                == sheets.explosions.sub_sprite(Explosion::spec_descr().cell(k))
        &&& self.bg == bg
    }

    /// A game about to begin: the ship at its start, nothing else in play.
    /// There is none if a sheet is too small for the pictures cut out of it.
    pub fn with_backgrounds(sheets: &GameSheets, screen: (i64, i64), bg: BgSet) -> (res: Option<
        GameView,
    >)
        requires
            sheets.ship.src.wf(),
            sheets.asteroids.src.wf(),
            sheets.explosions.src.wf(),
            screen_ok(screen),
            bg.wf(),
        ensures
            res.is_some() <==> sheets.loadable(),
            res matches Some(game) ==> game.wf() && game.begins(*sheets, screen, bg),
    {
        let rock_descr = Asteroid::descr();
        let blast_descr = Explosion::descr();
        proof {
            assert(rock_descr.count() == ASTEROIDS_TOTAL);
            assert(blast_descr.count() == EXPLOSIONS_TOTAL);
        }
        let player = match Player::new(&sheets.ship, screen) {
            Some(player) => player,
            None => {
                return None;
            },
        };
        let rocks = match AnimatedSprite::load_frames(&sheets.asteroids, &rock_descr) {
            Some(frames) => frames,
            None => {
                return None;
            },
        };
        let blasts = match AnimatedSprite::load_frames(&sheets.explosions, &blast_descr) {
            Some(frames) => frames,
            None => {
                return None;
            },
        };
        Some(
            GameView {
                player,
                bullets: Vec::new(),
                asteroids: Vec::new(),
                asteroid_factory: Asteroid::factory(rocks),
                explosions: Vec::new(),
                explosion_factory: Explosion::factory(blasts),
                bg,
            },
        )
    }

    /// A game about to begin over scenery made of the three images given.
    pub fn new(sheets: &GameSheets, screen: (i64, i64), scenery: (Sprite, Sprite, Sprite)) -> (res:
        Option<GameView>)
        requires
            sheets.ship.src.wf(),
            sheets.asteroids.src.wf(),
            sheets.explosions.src.wf(),
            screen_ok(screen),
            BgSet::spec_new(scenery.0, scenery.1, scenery.2).wf(),
        ensures
            res.is_some() <==> sheets.loadable(),
            res matches Some(game) ==> game.wf() && game.begins(
                *sheets,
                screen,
                BgSet::spec_new(scenery.0, scenery.1, scenery.2),
            ),
    {
        let bg = BgSet::new(scenery.0, scenery.1, scenery.2);
        GameView::with_backgrounds(sheets, screen, bg)
    }

    /// Takes the game through one frame. In turn: the ship moves; the
    /// bullets, the asteroids and the explosions move or age, and those that
    /// are done leave; the collisions are settled; the cannons fire if the
    /// fire key went down; an asteroid appears if `draws` says so; the
    /// scenery scrolls.
    pub fn advance(
        self,
        events: &Events,
        elapsed: i64,
        screen: (i64, i64),
        draws: SpawnDraws,
    ) -> (res: (GameView, Report))
        requires
            self.wf(),
            self.playable(screen),
            elapsed_ok(elapsed),
        ensures
            self.steps_to(res.0, *events, elapsed as int, screen, draws),
            res.1 == self.report(*events, elapsed as int, screen),
            res.0.wf(),
            res.0.playable(screen),
    {
        let mut game = self;
        game.player.update(events, elapsed, screen);
        let bullets = update_bullets(game.bullets, screen, elapsed);
        let asteroids = update_asteroids(game.asteroids, elapsed);
        let explosions = update_explosions(game.explosions, elapsed);
        let hits = collide(asteroids, bullets, explosions, game.player.rect, &game.explosion_factory);
        let mut bullets = hits.bullets;
        let mut asteroids = hits.asteroids;
        let fired = events.now.key_space == Some(true);
        if fired {
            let mut shots = game.player.spawn_bullets();
            bullets.append(&mut shots);
        }
        if draws.spawn % 100 == 0 {
            asteroids.push(game.asteroid_factory.random(screen, draws));
        }
        game.bg.update(elapsed);
        let next = GameView {
            player: game.player,
            bullets,
            asteroids,
            asteroid_factory: game.asteroid_factory,
            explosions: hits.explosions,
            explosion_factory: game.explosion_factory,
            bg: game.bg,
        };
        (next, Report { player_alive: hits.player_alive, destroyed: hits.destroyed, fired })
    }
}

/// `rand::random` of the rand crate, at `u64`: a number drawn from the
/// generator of the thread. Nothing is known of the number drawn.
#[verifier::external_body]
fn random_u64() -> (res: u64) {
    rand::random::<u64>()
}

impl GameView {
    /// Whether the ship can be kept within its region of a window of the
    /// given size.
    pub fn can_play(&self, screen: (i64, i64)) -> (res: bool)
        requires
            screen_ok(screen),
        ensures
            res == self.playable(screen),
    {
        let region = movable_region_of(screen);
        !(self.player.rect.w > region.w || self.player.rect.h > region.h)
    }

    /// Whether `res` is what a frame with the given draws makes of the
    /// game: the end of the program if the window was closed, and else the
    /// game one frame later together with the report of the frame.
    pub open spec fn turns_into(
        self,
        phi: Phi,
        elapsed: int,
        draws: SpawnDraws,
        res: (ViewAction, Option<Report>),
    ) -> bool {
        if phi.events.now.quit {
            res.0 is Quit && res.1 is None
        } else {
            &&& res.0 matches ViewAction::Render(ActiveView::Game(next)) && self.steps_to(
                next,
                phi.events,
                elapsed,
                phi.spec_output_size(),
                draws,
            ) && next.wf() && next.playable(phi.spec_output_size())
            &&& res.1 == Some(self.report(phi.events, elapsed, phi.spec_output_size()))
        }
    }

    /// Takes the game through one frame, with the draws given. Closing the
    /// window ends the program; otherwise the game goes on as `advance`
    /// says.
    pub fn update_with(self, phi: &Phi, elapsed: i64, draws: SpawnDraws) -> (res: (
        ViewAction,
        Option<Report>,
    ))
        requires
            self.wf(),
            self.playable(phi.spec_output_size()),
            elapsed_ok(elapsed),
        ensures
            self.turns_into(*phi, elapsed as int, draws, res),
    {
        if phi.events.now.quit {
            return (ViewAction::Quit, None);
        }
        let (next, report) = self.advance(&phi.events, elapsed, phi.output_size(), draws);
        (ViewAction::Render(ActiveView::Game(next)), Some(report))
    }

    /// Takes the game through one frame. Whether an asteroid appears, and
    /// which, is drawn at random: the frame is the one that `update_with`
    /// gives for some draws.
    pub fn update(self, phi: &Phi, elapsed: i64) -> (res: (ViewAction, Option<Report>))
        requires
            self.wf(),
            self.playable(phi.spec_output_size()),
            elapsed_ok(elapsed),
        ensures
            exists|draws: SpawnDraws| self.turns_into(*phi, elapsed as int, draws, res),
    {
        let spawn = random_u64();
        let draws = if spawn % 100 == 0 {
            let fps = random_u64();
            let y = random_u64();
            let vel = random_u64();
            SpawnDraws { spawn, fps, y, vel }
        } else {
            SpawnDraws { spawn, fps: 0, y: 0, vel: 0 }
        };
        self.update_with(phi, elapsed, draws)
    }
}

impl Player {
    /// What drawing the ship asks of the renderer: the picture that goes
    /// with its movement, in its bounding box.
    pub open spec fn drawn(self) -> Draw {
        Draw::Copy(self.sprites[self.current.spec_index()], self.rect)
    }

    /// Draws the ship.
    pub fn render(&self) -> (res: Draw)
        requires
            self.wf(),
        ensures
            res == self.drawn(),
    {
        Draw::Copy(self.sprites[self.current.index()], self.rect)
    }
}

impl Asteroid {
    /// What drawing the asteroid asks of the renderer: the current frame of
    /// its animation, in its bounding box.
    pub open spec fn drawn(self) -> Draw {
        Draw::Copy(self.sprite.spec_current(), self.rect)
    }

    /// Draws the asteroid.
    pub fn render(&self) -> (res: Draw)
        requires
            self.wf(),
        ensures
            res == self.drawn(),
    {
        self.sprite.render(self.rect)
    }
}

impl Explosion {
    /// What drawing the explosion asks of the renderer: the current frame
    /// of its animation, in its bounding box.
    pub open spec fn drawn(self) -> Draw {
        Draw::Copy(self.sprite.spec_current(), self.rect)
    }

    /// Draws the explosion.
    pub fn render(&self) -> (res: Draw)
        requires
            self.wf(),
        ensures
            res == self.drawn(),
    {
        self.sprite.render(self.rect)
    }
}

/// What drawing the bullets asks of the renderer, one after the other.
pub open spec fn bullet_draws(bullets: Seq<Bullet>) -> Seq<Draw> {
    Seq::new(bullets.len(), |j: int| bullets[j].drawn())
}

/// What drawing the asteroids asks of the renderer, one after the other.
pub open spec fn asteroid_draws(asteroids: Seq<Asteroid>) -> Seq<Draw> {
    Seq::new(asteroids.len(), |i: int| asteroids[i].drawn())
}

/// What drawing the explosions asks of the renderer, one after the other.
pub open spec fn explosion_draws(explosions: Seq<Explosion>) -> Seq<Draw> {
    Seq::new(explosions.len(), |i: int| explosions[i].drawn())
}

impl GameView {
    /// What drawing the game asks of the renderer, in order: empty space,
    /// the two far layers of scenery, the ship, the bullets, the asteroids,
    /// the explosions, and over all of them the near layer of scenery.
    pub open spec fn draws(self, screen: (i64, i64)) -> Seq<Draw> {
        seq![Draw::Clear(black())] + self.bg.back.draws(screen) + self.bg.middle.draws(screen)
            + seq![self.player.drawn()] + bullet_draws(self.bullets@) + asteroid_draws(
            self.asteroids@,
        ) + explosion_draws(self.explosions@) + self.bg.front.draws(screen)
    }

    /// Draws the game into a window of size `screen`. Nothing of the game
    /// changes.
    pub fn render(&self, screen: (i64, i64)) -> (res: Vec<Draw>)
        requires
            self.wf(),
            screen_ok(screen),
            self.bg.fits(screen),
        ensures
            res@ == self.draws(screen),
    {
        let mut list: Vec<Draw> = Vec::new();
        list.push(Draw::Clear(Color { r: 0, g: 0, b: 0 }));
        let mut back = self.bg.back.render(screen);
        list.append(&mut back);
        let mut middle = self.bg.middle.render(screen);
        list.append(&mut middle);
        list.push(self.player.render());
        let ghost head = list@;
        assert(head =~= seq![Draw::Clear(black())] + self.bg.back.draws(screen)
            + self.bg.middle.draws(screen) + seq![self.player.drawn()]);
        let mut j: usize = 0;
        while j < self.bullets.len()
            invariant
                j <= self.bullets.len(),
                bullets_wf(self.bullets@),
                list@ == head + bullet_draws(self.bullets@).take(j as int),
            decreases self.bullets.len() - j,
        {
            list.push(self.bullets[j].render());
            assert(bullet_draws(self.bullets@).take(j + 1) =~= bullet_draws(self.bullets@).take(
                j as int,
            ).push(self.bullets[j as int].drawn()));
            j += 1;
        }
        assert(bullet_draws(self.bullets@).take(j as int) =~= bullet_draws(self.bullets@));
        let ghost head = list@;
        let mut i: usize = 0;
        while i < self.asteroids.len()
            invariant
                i <= self.asteroids.len(),
                asteroids_wf(self.asteroids@),
                list@ == head + asteroid_draws(self.asteroids@).take(i as int),
            decreases self.asteroids.len() - i,
        {
            list.copy_sprite(&self.asteroids[i].sprite, self.asteroids[i].rect);
            assert(asteroid_draws(self.asteroids@).take(i + 1) =~= asteroid_draws(
                self.asteroids@,
            ).take(i as int).push(self.asteroids[i as int].drawn()));
            i += 1;
        }
        assert(asteroid_draws(self.asteroids@).take(i as int) =~= asteroid_draws(self.asteroids@));
        let ghost head = list@;
        let mut i: usize = 0;
        while i < self.explosions.len()
            invariant
                i <= self.explosions.len(),
                explosions_wf(self.explosions@),
                list@ == head + explosion_draws(self.explosions@).take(i as int),
            decreases self.explosions.len() - i,
        {
            list.copy_sprite(&self.explosions[i].sprite, self.explosions[i].rect);
            assert(explosion_draws(self.explosions@).take(i + 1) =~= explosion_draws(
                self.explosions@,
            ).take(i as int).push(self.explosions[i as int].drawn()));
            i += 1;
        }
        assert(explosion_draws(self.explosions@).take(i as int) =~= explosion_draws(
            self.explosions@,
        ));
        let mut front = self.bg.front.render(screen);
        list.append(&mut front);
        list
    }
}

/// In a game without bullets and asteroids, firing leaves exactly the two
/// bullets of the cannon loaded, one at each mount of the ship where the
/// frame has put it; without firing there is no bullet.
pub proof fn lemma_first_shots(game: GameView, events: Events, elapsed: int, screen: (i64, i64))
    requires
        game.bullets.len() == 0,
        game.asteroids.len() == 0,
    ensures
        GameView::fires(events) ==> game.next_bullets(events, elapsed, screen) == game.next_player(
            events,
            elapsed,
            screen,
        ).shots() && game.next_bullets(events, elapsed, screen).len() == 2,
        !GameView::fires(events) ==> game.next_bullets(events, elapsed, screen).len() == 0,
        game.next_player(events, elapsed, screen).cannon == chosen_cannon(
            game.player.cannon,
            events.now,
        ),
{
    let moved = game.bullets_moved(screen, elapsed);
    assert(moved.len() == 0);
    let left = shots_left(moved, rock_rects(game.asteroids_moved(elapsed)), 0);
    assert(left.len() == 0);
    let shots = game.next_player(events, elapsed, screen).shots();
    assert(left + shots =~= shots);
}

} // verus!
