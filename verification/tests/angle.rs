use arcaders::angle::Angle;
use arcaders::angle::CanDecrease;
use arcaders::angle::CanIncrease;
use arcaders::angle::InBetween;
use arcaders::angle::LowerBound;
use arcaders::angle::State;
use arcaders::angle::UpperBound;
use arcaders::angle::LOWER_BOUND;
use arcaders::angle::UPPER_BOUND;

#[test]
fn the_bounds_have_their_angles() {
    assert_eq!(LowerBound.angle(), 0);
    assert_eq!(UpperBound.angle(), 45);
    assert_eq!(InBetween(17).angle(), 17);
    assert_eq!(LOWER_BOUND, 0);
    assert_eq!(UPPER_BOUND, 45);
}

#[test]
fn a_step_up_from_the_lower_bound() {
    assert_eq!(LowerBound.increase(), State::InBetween(InBetween(1)));
}

#[test]
fn a_step_down_from_the_upper_bound() {
    assert_eq!(UpperBound.decrease(), State::InBetween(InBetween(44)));
}

#[test]
fn steps_in_between() {
    assert_eq!(InBetween(10).increase(), State::InBetween(InBetween(11)));
    assert_eq!(InBetween(10).decrease(), State::InBetween(InBetween(9)));
    assert_eq!(InBetween(43).increase(), State::InBetween(InBetween(44)));
    assert_eq!(InBetween(2).decrease(), State::InBetween(InBetween(1)));
}

#[test]
fn steps_that_reach_a_bound() {
    assert_eq!(InBetween(44).increase(), State::UpperBound(UpperBound));
    assert_eq!(InBetween(1).decrease(), State::LowerBound(LowerBound));
    assert_eq!(InBetween(60).increase(), State::UpperBound(UpperBound));
    assert_eq!(InBetween(-3).decrease(), State::LowerBound(LowerBound));
}

#[test]
fn the_whole_way_up_and_down() {
    let mut state = State::LowerBound(LowerBound);
    let mut steps = 0;
    loop {
        state = match state {
            State::LowerBound(s) => s.increase(),
            State::InBetween(s) => s.increase(),
            State::UpperBound(_) => break,
        };
        steps += 1;
        assert_eq!(state.angle(), steps);
    }
    assert_eq!(steps, 45);
    loop {
        state = match state {
            State::UpperBound(s) => s.decrease(),
            State::InBetween(s) => s.decrease(),
            State::LowerBound(_) => break,
        };
        steps -= 1;
        assert_eq!(state.angle(), steps);
    }
    assert_eq!(steps, 0);
}
