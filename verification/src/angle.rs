//! An angle that moves in steps of one between two bounds. Each of the three
//! situations it can be in, at the lower bound, at the upper bound and in
//! between, is a type of its own, so that an angle at a bound offers no
//! step beyond it.

use vstd::prelude::*;

verus! {

/// The least angle.
pub const LOWER_BOUND: i32 = 0;

/// The greatest angle.
pub const UPPER_BOUND: i32 = 45;

/// The angle at its lower bound.
#[derive(Clone, Copy, Debug, PartialEq, Eq, Structural)]
pub struct LowerBound;

/// The angle at its upper bound.
#[derive(Clone, Copy, Debug, PartialEq, Eq, Structural)]
pub struct UpperBound;

/// The angle between its bounds.
#[derive(Clone, Copy, Debug, PartialEq, Eq, Structural)]
pub struct InBetween(pub i32);

/// The angle in any of its situations.
#[derive(Clone, Copy, Debug, PartialEq, Eq, Structural)]
pub enum State {
    LowerBound(LowerBound),
    UpperBound(UpperBound),
    InBetween(InBetween),
}

/// The situation of an angle that has come to `angle` from below.
pub open spec fn raised_to(angle: int) -> State {
    if angle < UPPER_BOUND {
        State::InBetween(InBetween(angle as i32))
    } else {
        State::UpperBound(UpperBound)
    }
}

/// The situation of an angle that has come to `angle` from above.
pub open spec fn lowered_to(angle: int) -> State {
    if angle > LOWER_BOUND {
        State::InBetween(InBetween(angle as i32))
    } else {
        State::LowerBound(LowerBound)
    }
}

/// What has an angle.
pub trait Angle: Sized {
    /// The angle.
    spec fn spec_angle(self) -> int;

    /// The angle.
    fn angle(self) -> (res: i32)
        ensures
            res == self.spec_angle(),
    ;
}

/// What can take a step up.
pub trait CanIncrease: Angle {
    /// The angle one step higher: at the upper bound once it has got there.
    fn increase(self) -> (res: State)
        requires
            self.spec_angle() < i32::MAX,
        ensures
            res == raised_to(self.spec_angle() + 1),
    ;
}

/// What can take a step down.
pub trait CanDecrease: Angle {
    /// The angle one step lower: at the lower bound once it has got there.
    fn decrease(self) -> (res: State)
        requires
            self.spec_angle() > i32::MIN,
        ensures
            res == lowered_to(self.spec_angle() - 1),
    ;
}

/// The situation one step above `angle`.
fn step_up(angle: i32) -> (res: State)
    requires
        angle < i32::MAX,
    ensures
        res == raised_to(angle + 1),
{
    let new_angle: i32 = angle + 1;
    if new_angle < UPPER_BOUND {
        State::InBetween(InBetween(new_angle))
    } else {
        State::UpperBound(UpperBound)
    }
}

/// The situation one step below `angle`.
fn step_down(angle: i32) -> (res: State)
    requires
        angle > i32::MIN,
    ensures
        res == lowered_to(angle - 1),
{
    let new_angle: i32 = angle - 1;
    if new_angle > LOWER_BOUND {
        State::InBetween(InBetween(new_angle))
    } else {
        State::LowerBound(LowerBound)
    }
}

impl Angle for LowerBound {
    open spec fn spec_angle(self) -> int {
        LOWER_BOUND as int
    }

    fn angle(self) -> (res: i32) {
        LOWER_BOUND
    }
}

impl CanIncrease for LowerBound {
    fn increase(self) -> (res: State) {
        step_up(self.angle())
    }
}

impl Angle for UpperBound {
    open spec fn spec_angle(self) -> int {
        UPPER_BOUND as int
    }

    fn angle(self) -> (res: i32) {
        UPPER_BOUND
    }
}

impl CanDecrease for UpperBound {
    fn decrease(self) -> (res: State) {
        step_down(self.angle())
    }
}

impl Angle for InBetween {
    open spec fn spec_angle(self) -> int {
        self.0 as int
    }

    fn angle(self) -> (res: i32) {
        let InBetween(angle) = self;
        angle
    }
}

impl CanIncrease for InBetween {
    fn increase(self) -> (res: State) {
        step_up(self.angle())
    }
}

impl CanDecrease for InBetween {
    fn decrease(self) -> (res: State) {
        step_down(self.angle())
    }
}

impl State {
    /// The angle of the situation.
    pub open spec fn spec_angle(self) -> int {
        match self {
            State::LowerBound(s) => s.spec_angle(),
            State::UpperBound(s) => s.spec_angle(),
            State::InBetween(s) => s.spec_angle(),
        }
    }

    /// The situation says what it is: an angle in between lies strictly
    /// between the bounds.
    pub open spec fn wf(self) -> bool {
        self matches State::InBetween(s) ==> LOWER_BOUND < s.0 < UPPER_BOUND
    }

    /// The angle of the situation.
    pub fn angle(self) -> (res: i32)
        ensures
            res == self.spec_angle(),
    {
        match self {
            State::LowerBound(s) => s.angle(),
            State::UpperBound(s) => s.angle(),
            State::InBetween(s) => s.angle(),
        }
    }
}

/// A step from a situation that says what it is leads to one that does, one
/// degree away; a step up followed by a step down leads back.
pub proof fn lemma_steps_stay_within_bounds(angle: int)
    requires
        LOWER_BOUND <= angle <= UPPER_BOUND,
    ensures
        angle < UPPER_BOUND ==> raised_to(angle + 1).wf() && raised_to(angle + 1).spec_angle()
            == angle + 1,
        angle > LOWER_BOUND ==> lowered_to(angle - 1).wf() && lowered_to(angle - 1).spec_angle()
            == angle - 1,
        angle < UPPER_BOUND ==> lowered_to(raised_to(angle + 1).spec_angle() - 1).spec_angle()
            == angle,
{
}

} // verus!
