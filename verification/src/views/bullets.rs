//! The bullets the ship fires: how each kind travels, and when it is gone.

use vstd::prelude::*;
use vstd::arithmetic::div_mod::lemma_div_is_ordered;
use vstd::arithmetic::div_mod::lemma_div_multiples_vanish;
use vstd::arithmetic::div_mod::lemma_div_pos_is_pos;
use vstd::arithmetic::div_mod::lemma_fundamental_div_mod;
use vstd::arithmetic::div_mod::lemma_fundamental_div_mod_converse;
use crate::phi::data::abs;
use crate::phi::data::elapsed_ok;
use crate::phi::data::magnitude;
use crate::phi::data::screen_ok;
use crate::phi::data::Rectangle;
use crate::phi::data::COORD_LIMIT;
use crate::phi::gfx::Color;
use crate::phi::gfx::Draw;

verus! {

/// Pixels travelled horizontally by a bullet every second.
pub const BULLET_SPEED: i64 = 240;

/// Width of a bullet.
pub const BULLET_W: i64 = 8_000_000;

/// Height of a bullet.
pub const BULLET_H: i64 = 4_000_000;

/// Bullets are yellow.
pub open spec fn bullet_color() -> Color {
    Color { r: 230, g: 230, b: 30 }
}

/// Half a turn, in millionths of a radian.
pub const HALF_TURN: i64 = 3_141_593;

/// A full turn, in millionths of a radian.
pub const FULL_TURN: i64 = 6_283_186;

/// One, in the millionths in which ratios are counted.
pub const RATIO_ONE: i64 = 1_000_000;

/// Largest magnitude of the height parameter of a divergent bullet.
pub const SHAPE_LIMIT: i64 = 0x0100_0000_0000;

/// Ratio of age to width beyond which a divergent bullet with a height
/// other than zero is certain to be far outside any window.
pub const RATIO_CUT: i64 = 1_000_000_000_000;

/// The sine of `angle` millionths of a radian, `0 <= angle < FULL_TURN`,
/// scaled to `amplitude`, rounded toward zero. Each half wave is the
/// rational curve `16 p / (5 pi^2 - 4 p)` with `p = x (pi - x)`, which meets
/// the sine at 0, pi/6, pi/2, 5 pi/6 and pi.
pub open spec fn scaled_sine(amplitude: int, angle: int) -> int {
    let half = if angle < HALF_TURN {
        angle
    } else {
        angle - HALF_TURN
    };
    let p = half * (HALF_TURN - half);
    let size = (abs(amplitude) * (16 * p)) / (5 * HALF_TURN * HALF_TURN - 4 * p);
    if amplitude == 0 {
        0
    } else if (amplitude > 0) == (angle < HALF_TURN) {
        size
    } else {
        -size
    }
}

/// Vertical offset of a sine bullet of the given amplitude and angular
/// velocity (radians per second) at age `time`.
pub open spec fn sine_offset(amplitude: int, angular_vel: int, time: int) -> int {
    scaled_sine(amplitude, (angular_vel * time) % (FULL_TURN as int))
}

/// The cubic bump `r^3 - r^2` at `r = time / b`, in millionths, each
/// quotient rounded toward zero.
pub open spec fn bump(b: int, time: int) -> int {
    let q = (time * RATIO_ONE) / abs(b);
    let r2 = (q * q) / (RATIO_ONE as int);
    let r3 = (r2 * q) / (RATIO_ONE as int);
    if b > 0 {
        r3 - r2
    } else {
        -r3 - r2
    }
}

/// Vertical offset of a divergent bullet with shape `a`, `b` at age `time`:
/// `a` times the bump, rounded toward zero.
pub open spec fn divergent_offset(a: int, b: int, time: int) -> int {
    let u = bump(b, time);
    let size = (abs(a) * abs(u)) / (RATIO_ONE as int);
    if a == 0 || u == 0 {
        0
    } else if (a > 0) == (u > 0) {
        size
    } else {
        -size
    }
}

/// The rectangle of a bullet at the given corner.
pub open spec fn bullet_rect(x: int, y: int) -> Rectangle {
    Rectangle { x: x as i64, y: y as i64, w: BULLET_W, h: BULLET_H }
}

/// A bullet that travels straight to the right.
#[derive(Clone, Copy, Debug, PartialEq, Eq, Structural)]
pub struct RectBullet {
    pub rect: Rectangle,
}

impl RectBullet {
    /// The bullet lies within reach of the simulation.
    pub open spec fn wf(self) -> bool {
        -COORD_LIMIT <= self.rect.x <= COORD_LIMIT
    }

    /// A bullet with its corner at `(x, y)`.
    pub fn new(x: i64, y: i64) -> (res: RectBullet)
        ensures
            res.rect == (Rectangle { x, y, w: BULLET_W, h: BULLET_H }),
    {
        RectBullet { rect: Rectangle { x, y, w: BULLET_W, h: BULLET_H } }
    }

    /// The bullet `dt` later, without regard to the window.
    pub open spec fn advanced(self, dt: int) -> RectBullet {
        RectBullet { rect: Rectangle { x: (self.rect.x + BULLET_SPEED * dt) as i64, ..self.rect } }
    }

    /// Whether the bullet is still in play once it has advanced by `dt`.
    pub open spec fn survives(self, screen: (i64, i64), dt: int) -> bool {
        self.rect.x + BULLET_SPEED * dt <= screen.0
    }

    /// The bounding box of the bullet.
    pub fn rect(&self) -> (res: Rectangle)
        ensures
            res == self.rect,
    {
        self.rect
    }

    /// Moves the bullet for `dt`. It is gone once its left edge has passed
    /// the right edge of the window.
    pub fn update(self, screen: (i64, i64), dt: i64) -> (res: Option<RectBullet>)
        requires
            self.wf(),
            screen_ok(screen),
            elapsed_ok(dt),
        ensures
            res == (if self.survives(screen, dt as int) {
                Some(self.advanced(dt as int))
            } else {
                None::<RectBullet>
            }),
            res matches Some(b) ==> b.wf(),
    {
        let x: i64 = self.rect.x + BULLET_SPEED * dt;
        if x > screen.0 {
            None
        } else {
            Some(RectBullet { rect: Rectangle { x, y: self.rect.y, w: self.rect.w, h: self.rect.h } })
        }
    }
}

/// A bullet that travels to the right while it swings about the height at
/// which it was fired.
#[derive(Clone, Copy, Debug, PartialEq, Eq, Structural)]
pub struct SineBullet {
    pub pos_x: i64,
    pub origin_y: i64,
    pub amplitude: i64,
    /// Radians per second.
    pub angular_vel: i64,
    /// The age of the bullet.
    pub total_time: i64,
}

impl SineBullet {
    /// The bullet lies within reach of the simulation, and it has not
    /// travelled further than its age allows from a place within reach.
    pub open spec fn wf(self) -> bool {
        &&& -COORD_LIMIT <= self.pos_x <= COORD_LIMIT
        &&& -COORD_LIMIT <= self.origin_y <= COORD_LIMIT
        &&& -COORD_LIMIT <= self.amplitude <= COORD_LIMIT
        &&& 0 <= self.total_time
        &&& self.pos_x - BULLET_SPEED * self.total_time >= -COORD_LIMIT
    }

    /// The bounding box of the bullet.
    pub open spec fn spec_rect(self) -> Rectangle {
        bullet_rect(
            self.pos_x as int,
            self.origin_y + sine_offset(
                self.amplitude as int,
                self.angular_vel as int,
                self.total_time as int,
            ),
        )
    }

    /// The bullet `dt` later, without regard to the window.
    pub open spec fn advanced(self, dt: int) -> SineBullet {
        SineBullet {
            pos_x: (self.pos_x + BULLET_SPEED * dt) as i64,
            total_time: (self.total_time + dt) as i64,
            ..self
        }
    }

    /// Whether the bullet is still in play once it has advanced by `dt`.
    pub open spec fn survives(self, screen: (i64, i64), dt: int) -> bool {
        self.pos_x + BULLET_SPEED * dt <= screen.0
    }

    /// The bounding box of the bullet.
    pub fn rect(&self) -> (res: Rectangle)
        requires
            self.wf(),
        ensures
            res == self.spec_rect(),
            res.y == self.origin_y + sine_offset(
                self.amplitude as int,
                self.angular_vel as int,
                self.total_time as int,
            ),
    {
        let dy: i64 = sine_offset_of(self.amplitude, self.angular_vel, self.total_time);
        Rectangle { x: self.pos_x, y: self.origin_y + dy, w: BULLET_W, h: BULLET_H }
    }

    /// Moves the bullet for `dt`. It is gone once its left edge has passed
    /// the right edge of the window.
    pub fn update(self, screen: (i64, i64), dt: i64) -> (res: Option<SineBullet>)
        requires
            self.wf(),
            screen_ok(screen),
            elapsed_ok(dt),
        ensures
            res == (if self.survives(screen, dt as int) {
                Some(self.advanced(dt as int))
            } else {
                None::<SineBullet>
            }),
            res matches Some(b) ==> b.wf(),
    {
        let x: i64 = self.pos_x + BULLET_SPEED * dt;
        if x > screen.0 {
            None
        } else {
            Some(
                SineBullet {
                    pos_x: x,
                    origin_y: self.origin_y,
                    amplitude: self.amplitude,
                    angular_vel: self.angular_vel,
                    total_time: self.total_time + dt,
                },
            )
        }
    }
}

/// A bullet that travels to the right while it first dips and then leaves
/// along a cubic, at `a` times the bump `(t / b)^3 - (t / b)^2` from the
/// height at which it was fired.
#[derive(Clone, Copy, Debug, PartialEq, Eq, Structural)]
pub struct DivergentBullet {
    pub pos_x: i64,
    pub origin_y: i64,
    /// Sets the height of the bump.
    pub a: i64,
    /// Sets the width of the bump: the age at which the bullet is back at
    /// the height at which it was fired.
    pub b: i64,
    /// The age of the bullet.
    pub total_time: i64,
}

impl DivergentBullet {
    /// The bullet lies within reach of the simulation, its shape can be
    /// evaluated, and it has not travelled further than its age allows from a
    /// place within reach.
    pub open spec fn wf(self) -> bool {
        &&& -COORD_LIMIT <= self.pos_x <= COORD_LIMIT
        &&& -COORD_LIMIT <= self.origin_y <= COORD_LIMIT
        &&& -SHAPE_LIMIT <= self.a <= SHAPE_LIMIT
        &&& self.b != 0
        &&& 0 <= self.total_time
        &&& self.pos_x - BULLET_SPEED * self.total_time >= -COORD_LIMIT
        &&& -COORD_LIMIT <= self.spec_y() <= COORD_LIMIT
    }

    /// The height of the top edge of the bullet.
    pub open spec fn spec_y(self) -> int {
        self.origin_y + divergent_offset(self.a as int, self.b as int, self.total_time as int)
    }

    /// The bounding box of the bullet.
    pub open spec fn spec_rect(self) -> Rectangle {
        bullet_rect(self.pos_x as int, self.spec_y())
    }

    /// The bullet `dt` later, without regard to the window.
    pub open spec fn advanced(self, dt: int) -> DivergentBullet {
        DivergentBullet {
            pos_x: (self.pos_x + BULLET_SPEED * dt) as i64,
            total_time: (self.total_time + dt) as i64,
            ..self
        }
    }

    /// Whether the bullet is still in play once it has advanced by `dt`:
    /// its corner lies neither right of, left of, below nor above the window.
    pub open spec fn survives(self, screen: (i64, i64), dt: int) -> bool {
        let x = self.pos_x + BULLET_SPEED * dt;
        let y = self.origin_y + divergent_offset(
            self.a as int,
            self.b as int,
            self.total_time + dt,
        );
        !(x > screen.0 || x < 0 || y > screen.1 || y < 0)
    }

    /// The bounding box of the bullet.
    pub fn rect(&self) -> (res: Rectangle)
        requires
            self.wf(),
        ensures
            res == self.spec_rect(),
            res.y == self.spec_y(),
    {
        match divergent_offset_of(self.a, self.b, self.total_time) {
            Some(dy) => Rectangle {
                x: self.pos_x,
                y: self.origin_y + dy,
                w: BULLET_W,
                h: BULLET_H,
            },
            None => Rectangle { x: self.pos_x, y: self.origin_y, w: BULLET_W, h: BULLET_H },
        }
    }

    /// Moves the bullet for `dt`. It is gone once its corner has left the
    /// window on any side.
    pub fn update(self, screen: (i64, i64), dt: i64) -> (res: Option<DivergentBullet>)
        requires
            self.wf(),
            screen_ok(screen),
            elapsed_ok(dt),
        ensures
            res == (if self.survives(screen, dt as int) {
                Some(self.advanced(dt as int))
            } else {
                None::<DivergentBullet>
            }),
            res matches Some(b) ==> b.wf(),
    {
        let x: i64 = self.pos_x + BULLET_SPEED * dt;
        let time: i64 = self.total_time + dt;
        if x > screen.0 || x < 0 {
            return None;
        }
        match divergent_offset_of(self.a, self.b, time) {
            None => None,
            Some(dy) => {
                let y: i64 = self.origin_y + dy;
                if y > screen.1 || y < 0 {
                    None
                } else {
                    Some(
                        DivergentBullet {
                            pos_x: x,
                            origin_y: self.origin_y,
                            a: self.a,
                            b: self.b,
                            total_time: time,
                        },
                    )
                }
            },
        }
    }
}

/// A bullet of any kind.
#[derive(Clone, Copy, Debug, PartialEq, Eq, Structural)]
pub enum Bullet {
    Rect(RectBullet),
    Sine(SineBullet),
    Divergent(DivergentBullet),
}

impl Bullet {
    /// The bullet is well formed for its kind.
    pub open spec fn wf(self) -> bool {
        match self {
            Bullet::Rect(b) => b.wf(),
            Bullet::Sine(b) => b.wf(),
            Bullet::Divergent(b) => b.wf(),
        }
    }

    /// The bounding box of the bullet.
    pub open spec fn spec_rect(self) -> Rectangle {
        match self {
            Bullet::Rect(b) => b.rect,
            Bullet::Sine(b) => b.spec_rect(),
            Bullet::Divergent(b) => b.spec_rect(),
        }
    }

    /// The bullet `dt` later, without regard to the window.
    pub open spec fn advanced(self, dt: int) -> Bullet {
        match self {
            Bullet::Rect(b) => Bullet::Rect(b.advanced(dt)),
            Bullet::Sine(b) => Bullet::Sine(b.advanced(dt)),
            Bullet::Divergent(b) => Bullet::Divergent(b.advanced(dt)),
        }
    }

    /// Whether the bullet is still in play once it has advanced by `dt`.
    pub open spec fn survives(self, screen: (i64, i64), dt: int) -> bool {
        match self {
            Bullet::Rect(b) => b.survives(screen, dt),
            Bullet::Sine(b) => b.survives(screen, dt),
            Bullet::Divergent(b) => b.survives(screen, dt),
        }
    }

    /// The bounding box of the bullet.
    pub fn rect(&self) -> (res: Rectangle)
        requires
            self.wf(),
        ensures
            res == self.spec_rect(),
    {
        match self {
            Bullet::Rect(b) => b.rect(),
            Bullet::Sine(b) => b.rect(),
            Bullet::Divergent(b) => b.rect(),
        }
    }

    /// What drawing the bullet asks of the renderer: its bounding box in
    /// yellow.
    pub open spec fn drawn(self) -> Draw {
        Draw::Fill(bullet_color(), self.spec_rect())
    }

    /// Draws the bullet.
    pub fn render(&self) -> (res: Draw)
        requires
            self.wf(),
        ensures
            res == self.drawn(),
    {
        Draw::Fill(Color { r: 230, g: 230, b: 30 }, self.rect())
    }

    /// Moves the bullet for `dt`; nothing is left of it once it has left the
    /// window in the way of its kind.
    pub fn update(self, screen: (i64, i64), dt: i64) -> (res: Option<Bullet>)
        requires
            self.wf(),
            screen_ok(screen),
            elapsed_ok(dt),
        ensures
            res == (if self.survives(screen, dt as int) {
                Some(self.advanced(dt as int))
            } else {
                None::<Bullet>
            }),
            res matches Some(b) ==> b.wf(),
    {
        match self {
            Bullet::Rect(b) => match b.update(screen, dt) {
                Some(next) => Some(Bullet::Rect(next)),
                None => None,
            },
            Bullet::Sine(b) => match b.update(screen, dt) {
                Some(next) => Some(Bullet::Sine(next)),
                None => None,
            },
            Bullet::Divergent(b) => match b.update(screen, dt) {
                Some(next) => Some(Bullet::Divergent(next)),
                None => None,
            },
        }
    }
}

/// What the cannons of the ship are loaded with.
#[derive(Clone, Copy, Debug, PartialEq, Eq, Structural)]
pub enum CannonType {
    RectBullet,
    SineBullet { amplitude: i64, angular_vel: i64 },
    DivergentBullet { a: i64, b: i64 },
}

impl CannonType {
    /// The parameters are such that the bullets fired take part in the game.
    pub open spec fn wf(self) -> bool {
        match self {
            CannonType::RectBullet => true,
            CannonType::SineBullet { amplitude, angular_vel } => -COORD_LIMIT <= amplitude
                <= COORD_LIMIT,
            CannonType::DivergentBullet { a, b } => -SHAPE_LIMIT <= a <= SHAPE_LIMIT && b != 0,
        }
    }

    /// The bullet that a cannon mounted at `(x, y)` fires. `upper` tells the
    /// upper cannon from the lower one: a divergent bullet of the upper
    /// cannon has the sign of its height reversed.
    pub open spec fn bullet_at(self, x: i64, y: i64, upper: bool) -> Bullet {
        match self {
            CannonType::RectBullet => Bullet::Rect(
                RectBullet { rect: Rectangle { x, y, w: BULLET_W, h: BULLET_H } },
            ),
            CannonType::SineBullet { amplitude, angular_vel } => Bullet::Sine(
                SineBullet { pos_x: x, origin_y: y, amplitude, angular_vel, total_time: 0 },
            ),
            CannonType::DivergentBullet { a, b } => Bullet::Divergent(
                DivergentBullet {
                    pos_x: x,
                    origin_y: y,
                    a: if upper {
                        (-a) as i64
                    } else {
                        a
                    },
                    b,
                    total_time: 0,
                },
            ),
        }
    }
}

/// The two bullets that a pair of cannons at `cannons_x`, one at height
/// `cannon1_y` and one at `cannon2_y`, fires.
pub open spec fn spawned(cannon: CannonType, cannons_x: i64, cannon1_y: i64, cannon2_y: i64) -> Seq<
    Bullet,
> {
    seq![cannon.bullet_at(cannons_x, cannon1_y, true), cannon.bullet_at(cannons_x, cannon2_y, false)]
}

/// Fires both cannons: one bullet of the kind loaded from each.
pub fn spawn_bullets(cannon: CannonType, cannons_x: i64, cannon1_y: i64, cannon2_y: i64) -> (res:
    Vec<Bullet>)
    requires
        cannon matches CannonType::DivergentBullet { a, b } ==> a > i64::MIN,
    ensures
        res@ == spawned(cannon, cannons_x, cannon1_y, cannon2_y),
        res.len() == 2,
        (cannon matches CannonType::DivergentBullet { a, b } ==> b != 0) ==> {
            &&& res[0].spec_rect() == bullet_rect(cannons_x as int, cannon1_y as int)
            &&& res[1].spec_rect() == bullet_rect(cannons_x as int, cannon2_y as int)
        },
        (cannon.wf() && -COORD_LIMIT <= cannons_x <= COORD_LIMIT && -COORD_LIMIT <= cannon1_y
            <= COORD_LIMIT && -COORD_LIMIT <= cannon2_y <= COORD_LIMIT) ==> res[0].wf()
            && res[1].wf(),
{
    let mut bullets: Vec<Bullet> = Vec::new();
    match cannon {
        CannonType::RectBullet => {
            bullets.push(
                Bullet::Rect(
                    RectBullet {
                        rect: Rectangle { x: cannons_x, y: cannon1_y, w: BULLET_W, h: BULLET_H },
                    },
                ),
            );
            bullets.push(
                Bullet::Rect(
                    RectBullet {
                        rect: Rectangle { x: cannons_x, y: cannon2_y, w: BULLET_W, h: BULLET_H },
                    },
                ),
            );
        },
        CannonType::SineBullet { amplitude, angular_vel } => {
            bullets.push(
                Bullet::Sine(
                    SineBullet {
                        pos_x: cannons_x,
                        origin_y: cannon1_y,
                        amplitude,
                        angular_vel,
                        total_time: 0,
                    },
                ),
            );
            bullets.push(
                Bullet::Sine(
                    SineBullet {
                        pos_x: cannons_x,
                        origin_y: cannon2_y,
                        amplitude,
                        angular_vel,
                        total_time: 0,
                    },
                ),
            );
        },
        CannonType::DivergentBullet { a, b } => {
            bullets.push(
                Bullet::Divergent(
                    DivergentBullet {
                        pos_x: cannons_x,
                        origin_y: cannon1_y,
                        a: -a,
                        b,
                        total_time: 0,
                    },
                ),
            );
            bullets.push(
                Bullet::Divergent(
                    DivergentBullet { pos_x: cannons_x, origin_y: cannon2_y, a, b, total_time: 0 },
                ),
            );
        },
    }
    proof {
        assert(bullets@ =~= spawned(cannon, cannons_x, cannon1_y, cannon2_y));
        lemma_offsets_at_rest(cannon);
    }
    bullets
}

/// A bullet that flies straight from the left edge is still in play a second
/// later in every window wider than the distance it covers in a second, and
/// no bullet is in play once it has passed the right edge.
pub proof fn lemma_rect_bullet_flight(bullet: RectBullet, screen: (i64, i64), dt: int)
    ensures
        bullet.rect.x == 0 && screen.0 > BULLET_SPEED * 1_000_000 ==> bullet.survives(
            screen,
            1_000_000,
        ) && bullet.advanced(1_000_000).rect.x == BULLET_SPEED * 1_000_000,
        bullet.rect.x + BULLET_SPEED * dt > screen.0 ==> !bullet.survives(screen, dt),
{
}

/// A bullet that has just been fired sits at the height of its cannon.
pub proof fn lemma_offsets_at_rest(cannon: CannonType)
    ensures
        cannon matches CannonType::SineBullet { amplitude, angular_vel } ==> sine_offset(
            amplitude as int,
            angular_vel as int,
            0,
        ) == 0,
        cannon matches CannonType::DivergentBullet { a, b } ==> b != 0 ==> divergent_offset(
            a as int,
            b as int,
            0,
        ) == 0 && divergent_offset(-a, b as int, 0) == 0,
{
    match cannon {
        CannonType::SineBullet { amplitude, angular_vel } => {
            assert(angular_vel * 0 == 0) by (nonlinear_arith);
            assert(abs(amplitude as int) * (16 * 0) == 0) by (nonlinear_arith);
            assert(0int * (HALF_TURN - 0) == 0);
        },
        CannonType::DivergentBullet { a, b } => {
            if b != 0 {
                assert(0int * RATIO_ONE == 0);
                lemma_div_pos_is_pos(0, abs(b as int));
                vstd::arithmetic::div_mod::lemma_div_basics(abs(b as int));
                assert(0int / abs(b as int) == 0);
                assert(bump(b as int, 0) == 0) by {
                    assert(0int * 0int == 0);
                }
            }
        },
        _ => {},
    }
}

/// The two bullets of a divergent cannon mirror each other: at every age,
/// one lies as far above the height of its cannon as the other lies below.
pub proof fn lemma_divergent_mirrored(a: int, b: int, time: int)
    ensures
        divergent_offset(-a, b, time) == -divergent_offset(a, b, time),
{
}

/// A sine bullet never strays further from the height of its cannon than
/// its amplitude.
pub proof fn lemma_sine_within_amplitude(amplitude: int, angular_vel: int, time: int)
    ensures
        -abs(amplitude) <= sine_offset(amplitude, angular_vel, time) <= abs(amplitude),
{
    let m = FULL_TURN as int;
    let angle = (angular_vel * time) % m;
    let pi = HALF_TURN as int;
    let half = if angle < pi {
        angle
    } else {
        angle - pi
    };
    assert(0 <= half * (pi - half) && 4 * (half * (pi - half)) <= pi * pi) by (nonlinear_arith)
        requires
            0 <= half <= pi,
    ;
    let p = half * (pi - half);
    let numer = abs(amplitude) * (16 * p);
    let denom = 5 * pi * pi - 4 * p;
    assert(0 <= numer <= denom * abs(amplitude)) by (nonlinear_arith)
        requires
            numer == abs(amplitude) * (16 * p),
            denom == 5 * pi * pi - 4 * p,
            4 * p <= pi * pi,
            0 <= p,
            0 <= abs(amplitude),
    ;
    lemma_div_is_ordered(numer, denom * abs(amplitude), denom);
    lemma_div_multiples_vanish(abs(amplitude), denom);
    lemma_div_pos_is_pos(numer, denom);
}

/// The vertical offset of a sine bullet.
pub fn sine_offset_of(amplitude: i64, angular_vel: i64, time: i64) -> (res: i64)
    requires
        amplitude > i64::MIN,
    ensures
        res == sine_offset(amplitude as int, angular_vel as int, time as int),
        -abs(amplitude as int) <= res <= abs(amplitude as int),
{
    assert(-0x8000_0000_0000_0000 * 0x8000_0000_0000_0000 <= angular_vel * time
        <= 0x8000_0000_0000_0000 * 0x8000_0000_0000_0000) by (nonlinear_arith)
        requires
            -0x8000_0000_0000_0000 <= angular_vel <= 0x8000_0000_0000_0000,
            -0x8000_0000_0000_0000 <= time <= 0x8000_0000_0000_0000,
    ;
    let turned: i128 = (angular_vel as i128) * (time as i128);
    let full: i128 = FULL_TURN as i128;
    let angle: i128 = if turned >= 0 {
        turned % full
    } else {
        let back: i128 = (-turned) % full;
        if back == 0 {
            0
        } else {
            full - back
        }
    };
    assert(angle == (angular_vel * time) % (FULL_TURN as int)) by {
        if turned < 0 {
            let n = -(turned as int);
            let m = FULL_TURN as int;
            lemma_fundamental_div_mod(n, m);
            if n % m == 0 {
                lemma_fundamental_div_mod_converse(-n, m, -(n / m), 0);
            } else {
                lemma_fundamental_div_mod_converse(-n, m, -(n / m) - 1, m - n % m);
            }
        }
    }
    let half: i128 = if angle < HALF_TURN as i128 {
        angle
    } else {
        angle - HALF_TURN as i128
    };
    let pi: i128 = HALF_TURN as i128;
    assert(0 <= half * (pi - half) && 4 * (half * (pi - half)) <= pi * pi) by (nonlinear_arith)
        requires
            0 <= half <= pi,
    ;
    let p: i128 = half * (pi - half);
    let size_of: u64 = magnitude(amplitude);
    assert(0 <= size_of * (16 * p) <= 0x8000_0000_0000_0000 * (16 * p)) by (nonlinear_arith)
        requires
            0 <= size_of <= 0x8000_0000_0000_0000,
            0 <= p,
    ;
    let numer: i128 = (size_of as i128) * (16 * p);
    let denom: i128 = 5 * pi * pi - 4 * p;
    let size: i128 = numer / denom;
    assert(0 <= size <= size_of) by {
        assert(numer <= size_of * denom) by (nonlinear_arith)
            requires
                numer == size_of * (16 * p),
                denom == 5 * pi * pi - 4 * p,
                4 * p <= pi * pi,
                0 <= size_of,
        ;
        assert(denom > 0);
        assert(size_of * denom == denom * size_of) by (nonlinear_arith);
        lemma_div_is_ordered(numer as int, denom * size_of, denom as int);
        lemma_div_multiples_vanish(size_of as int, denom as int);
        lemma_div_pos_is_pos(numer as int, denom as int);
    }
    let positive = (amplitude > 0) == (angle < HALF_TURN as i128);
    if amplitude == 0 {
        0
    } else if positive {
        size as i64
    } else {
        (-size) as i64
    }
}

/// The vertical offset of a divergent bullet, where it lies within twice
/// `COORD_LIMIT` of the height at which the bullet was fired.
pub fn divergent_offset_of(a: i64, b: i64, time: i64) -> (res: Option<i64>)
    requires
        -SHAPE_LIMIT <= a <= SHAPE_LIMIT,
        b != 0,
        0 <= time,
    ensures
        res.is_some() <==> abs(divergent_offset(a as int, b as int, time as int)) <= 2
            * COORD_LIMIT,
        res matches Some(dy) ==> dy == divergent_offset(a as int, b as int, time as int),
{
    if a == 0 {
        return Some(0);
    }
    let width: i128 = magnitude(b) as i128;
    let height: i128 = magnitude(a) as i128;
    let one: i128 = RATIO_ONE as i128;
    let q: i128 = ((time as i128) * one) / width;
    proof {
        lemma_div_pos_is_pos(time * RATIO_ONE, width as int);
        lemma_far_bump(a as int, b as int, time as int);
    }
    if q > RATIO_CUT as i128 {
        return None;
    }
    assert(0 <= q * q <= 1_000_000_000_000 * 1_000_000_000_000) by (nonlinear_arith)
        requires
            0 <= q <= 1_000_000_000_000,
    ;
    let r2: i128 = (q * q) / one;
    assert(0 <= r2 * q <= 1_000_000_000_000_000_000 * 1_000_000_000_000) by (nonlinear_arith)
        requires
            0 <= q <= 1_000_000_000_000,
            0 <= r2 <= 1_000_000_000_000_000_000,
    ;
    let r3: i128 = (r2 * q) / one;
    let u: i128 = if b > 0 {
        r3 - r2
    } else {
        -r3 - r2
    };
    let size_u: i128 = if u >= 0 {
        u
    } else {
        -u
    };
    assert(0 <= height * size_u <= 0x0100_0000_0000 * 1_000_001_000_000_000_000_000_000)
        by (nonlinear_arith)
        requires
            0 <= height <= 0x0100_0000_0000,
            0 <= size_u <= 1_000_001_000_000_000_000_000_000,
    ;
    assert(size_u == 0 ==> height * size_u == 0) by (nonlinear_arith);
    let size: i128 = (height * size_u) / one;
    assert(u == bump(b as int, time as int));
    assert(size == (abs(a as int) * abs(u as int)) / (RATIO_ONE as int));
    if size > 2 * (COORD_LIMIT as i128) {
        return None;
    }
    let positive = (a > 0) == (u > 0);
    if u == 0 {
        Some(0)
    } else if positive {
        Some(size as i64)
    } else {
        Some((-size) as i64)
    }
}

/// Beyond the cut, a bump scaled by a height other than zero lies further
/// than twice `COORD_LIMIT` from the height at which the bullet was fired.
proof fn lemma_far_bump(a: int, b: int, time: int)
    requires
        a != 0,
        b != 0,
        0 <= time,
    ensures
        (time * RATIO_ONE) / abs(b) > RATIO_CUT ==> abs(divergent_offset(a, b, time)) > 2
            * COORD_LIMIT,
{
    let q = (time * RATIO_ONE) / abs(b);
    if q > RATIO_CUT {
        let one = RATIO_ONE as int;
        let r2 = (q * q) / one;
        let r3 = (r2 * q) / one;
        assert(q * q >= 1_000_000_000_000 * 1_000_000_000_000) by (nonlinear_arith)
            requires
                q >= 1_000_000_000_000,
        ;
        assert(r2 >= 1_000_000_000_000_000_000);
        assert(r2 * q >= r2 * 1_000_000_000_000) by (nonlinear_arith)
            requires
                q >= 1_000_000_000_000,
                r2 >= 0,
        ;
        assert(r3 >= r2 * 1_000_000);
        let u = bump(b, time);
        assert(abs(u) >= r3 - r2);
        assert(abs(u) >= 999_999 * 1_000_000_000_000_000_000);
        assert(abs(a) * abs(u) >= abs(u)) by (nonlinear_arith)
            requires
                abs(a) >= 1,
                abs(u) >= 0,
        ;
        let size = (abs(a) * abs(u)) / one;
        assert(size >= 999_999 * 1_000_000_000_000);
    }
}

} // verus!
