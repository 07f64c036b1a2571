use arcaders::phi::FrameClock;
use arcaders::phi::Tick;
use arcaders::phi::FRAME_INTERVAL;

#[test]
fn the_interval_gives_sixty_frames_a_second() {
    assert_eq!(FRAME_INTERVAL, 1_000 / 60);
}

#[test]
fn too_early_means_wait() {
    let mut clock = FrameClock::new(1_000);
    assert_eq!(clock.tick(1_000), Tick::Wait(16));
    assert_eq!(clock.tick(1_010), Tick::Wait(6));
    assert_eq!(clock.tick(1_015), Tick::Wait(1));
    assert_eq!(clock, FrameClock { before: 1_000, last_second: 1_000, fps: 0 });
}

#[test]
fn a_frame_covers_the_time_since_the_last() {
    let mut clock = FrameClock::new(1_000);
    assert_eq!(clock.tick(1_016), Tick::Frame { elapsed: 16_000, frames: None });
    assert_eq!(clock, FrameClock { before: 1_016, last_second: 1_000, fps: 1 });
    assert_eq!(clock.tick(1_020), Tick::Wait(12));
    assert_eq!(clock.tick(1_066), Tick::Frame { elapsed: 50_000, frames: None });
    assert_eq!(clock, FrameClock { before: 1_066, last_second: 1_000, fps: 2 });
}

#[test]
fn a_slow_frame_is_one_frame() {
    let mut clock = FrameClock::new(0);
    assert_eq!(clock.tick(500), Tick::Frame { elapsed: 500_000, frames: None });
    assert_eq!(clock.fps, 1);
    assert_eq!(clock.tick(5_000), Tick::Frame { elapsed: 4_500_000, frames: Some(2) });
    assert_eq!(clock, FrameClock { before: 5_000, last_second: 5_000, fps: 0 });
}

#[test]
fn the_frames_of_a_second_are_counted() {
    let mut clock = FrameClock::new(1_000);
    let mut now = 1_000;
    let mut reported = None;
    let mut frames_run = 0;
    while reported.is_none() {
        now += 16;
        match clock.tick(now) {
            Tick::Frame { elapsed, frames } => {
                assert_eq!(elapsed, 16_000);
                frames_run += 1;
                reported = frames;
            },
            Tick::Wait(_) => panic!("a frame was due"),
        }
    }
    assert_eq!(now, 2_008);
    assert_eq!(frames_run, 63);
    assert_eq!(reported, Some(63));
    assert_eq!(clock, FrameClock { before: 2_008, last_second: 2_008, fps: 0 });
}

#[test]
fn a_second_is_over_after_more_than_a_thousand_milliseconds() {
    let mut clock = FrameClock::new(0);
    assert_eq!(clock.tick(1_000), Tick::Frame { elapsed: 1_000_000, frames: None });
    assert_eq!(clock.tick(1_016), Tick::Frame { elapsed: 16_000, frames: Some(2) });
}

#[test]
fn the_longest_frame() {
    let mut clock = FrameClock::new(0);
    assert_eq!(
        clock.tick(u32::MAX),
        Tick::Frame { elapsed: 4_294_967_295_000, frames: Some(1) }
    );
}
