use std::rc::Rc;

use arcaders::phi::data::Rectangle;
use arcaders::phi::gfx::fps_to_delay;
use arcaders::phi::gfx::AnimatedSprite;
use arcaders::phi::gfx::AnimatedSpriteDescr;
use arcaders::phi::gfx::Draw;
use arcaders::phi::gfx::Renderable;
use arcaders::phi::gfx::Sprite;

const PX: i64 = 1_000_000;

fn rect(x: i64, y: i64, w: i64, h: i64) -> Rectangle {
    Rectangle { x, y, w, h }
}

fn strip(count: usize) -> Vec<Sprite> {
    let sheet = Sprite::new(3, (count as u32) * 10, 10);
    let descr = AnimatedSpriteDescr {
        image_path: "strip.png",
        total_frames: count,
        frames_high: 1,
        frames_wide: count,
        frame_w: 10 * PX,
        frame_h: 10 * PX,
    };
    AnimatedSprite::load_frames(&sheet, &descr).unwrap()
}

#[test]
fn a_new_sprite_shows_the_whole_image() {
    let sprite = Sprite::new(7, 100, 50);
    assert_eq!(sprite.image, 7);
    assert_eq!(sprite.src, rect(0, 0, 100 * PX, 50 * PX));
    assert_eq!(sprite.size(), (100 * PX, 50 * PX));
}

#[test]
fn a_region_is_relative_to_the_region_held() {
    let sprite = Sprite::new(7, 100, 50);
    let sub = sprite.region(rect(10 * PX, 10 * PX, 20 * PX, 20 * PX)).unwrap();
    assert_eq!(sub.image, 7);
    assert_eq!(sub.src, rect(10 * PX, 10 * PX, 20 * PX, 20 * PX));
    let inner = sub.region(rect(5 * PX, 5 * PX, 10 * PX, 10 * PX)).unwrap();
    assert_eq!(inner.src, rect(15 * PX, 15 * PX, 10 * PX, 10 * PX));
    assert_eq!(inner.size(), (10 * PX, 10 * PX));
}

#[test]
fn a_region_outside_the_region_held_fails() {
    let sprite = Sprite::new(7, 100, 50);
    let sub = sprite.region(rect(10 * PX, 10 * PX, 20 * PX, 20 * PX)).unwrap();
    assert_eq!(sub.region(rect(15 * PX, 0, 10 * PX, 10 * PX)), None);
    assert_eq!(sub.region(rect(0, 15 * PX, 10 * PX, 10 * PX)), None);
    assert_eq!(sub.region(rect(-1, 0, 10 * PX, 10 * PX)), None);
    assert_eq!(sprite.region(rect(0, 0, 100 * PX + 1, 50 * PX)), None);
    assert_eq!(sprite.region(rect(i64::MAX, 0, 1, 1)), None);
    assert_eq!(sub.src, rect(10 * PX, 10 * PX, 20 * PX, 20 * PX));
}

#[test]
fn the_whole_region_is_a_region() {
    let sprite = Sprite::new(1, 4, 4);
    assert_eq!(sprite.region(rect(0, 0, 4 * PX, 4 * PX)), Some(sprite));
}

#[test]
fn frames_are_cut_row_by_row() {
    let sheet = Sprite::new(1, 40, 20);
    let descr = AnimatedSpriteDescr {
        image_path: "sheet.png",
        total_frames: 6,
        frames_high: 2,
        frames_wide: 4,
        frame_w: 10 * PX,
        frame_h: 10 * PX,
    };
    let frames = AnimatedSprite::load_frames(&sheet, &descr).unwrap();
    assert_eq!(frames.len(), 6);
    assert_eq!(frames[0].src, rect(0, 0, 10 * PX, 10 * PX));
    assert_eq!(frames[3].src, rect(30 * PX, 0, 10 * PX, 10 * PX));
    assert_eq!(frames[4].src, rect(0, 10 * PX, 10 * PX, 10 * PX));
    assert_eq!(frames[5].src, rect(10 * PX, 10 * PX, 10 * PX, 10 * PX));
    assert!(frames.iter().all(|f| f.image == 1));
}

#[test]
fn no_more_frames_than_cells() {
    let sheet = Sprite::new(1, 40, 20);
    let descr = AnimatedSpriteDescr {
        image_path: "sheet.png",
        total_frames: 10,
        frames_high: 2,
        frames_wide: 4,
        frame_w: 10 * PX,
        frame_h: 10 * PX,
    };
    assert_eq!(AnimatedSprite::load_frames(&sheet, &descr).unwrap().len(), 8);
    let empty = AnimatedSpriteDescr {
        image_path: "sheet.png",
        total_frames: 10,
        frames_high: 2,
        frames_wide: 0,
        frame_w: 10 * PX,
        frame_h: 10 * PX,
    };
    assert_eq!(AnimatedSprite::load_frames(&sheet, &empty).unwrap().len(), 0);
}

#[test]
fn frames_beyond_the_sheet_fail() {
    let sheet = Sprite::new(1, 39, 20);
    let descr = AnimatedSpriteDescr {
        image_path: "sheet.png",
        total_frames: 8,
        frames_high: 2,
        frames_wide: 4,
        frame_w: 10 * PX,
        frame_h: 10 * PX,
    };
    assert!(AnimatedSprite::load_frames(&sheet, &descr).is_none());
    let three = AnimatedSpriteDescr {
        image_path: "sheet.png",
        total_frames: 3,
        frames_high: 2,
        frames_wide: 4,
        frame_w: 10 * PX,
        frame_h: 10 * PX,
    };
    assert_eq!(AnimatedSprite::load_frames(&sheet, &three).unwrap().len(), 3);
}

#[test]
fn an_animation_starts_at_its_first_frame() {
    let animation = AnimatedSprite::new(strip(3), 100);
    assert_eq!(animation.frames(), 3);
    assert_eq!(animation.frame_delay, 100);
    assert_eq!(animation.current_time, 0);
    assert_eq!(animation.current_frame(), 0);
}

#[test]
fn the_frame_follows_the_time() {
    let mut animation = AnimatedSprite::new(strip(3), 100);
    animation.add_time(99);
    assert_eq!(animation.current_frame(), 0);
    animation.add_time(1);
    assert_eq!(animation.current_frame(), 1);
    animation.add_time(150);
    assert_eq!(animation.current_time, 250);
    assert_eq!(animation.current_frame(), 2);
    animation.add_time(50);
    assert_eq!(animation.current_frame(), 0);
    animation.add_time(250);
    assert_eq!(animation.current_frame(), 2);
}

#[test]
fn the_frame_is_periodic() {
    let frames = strip(7);
    for start in [0i64, 1, 99, 100, 345, 699, 700, 12_345] {
        let mut animation = AnimatedSprite::new(frames.clone(), 100);
        animation.add_time(start);
        let before = animation.current_frame();
        animation.add_time(7 * 100);
        assert_eq!(animation.current_frame(), before);
        assert_eq!(animation.current_time, start + 700);
    }
}

#[test]
fn time_below_zero_snaps_to_the_last_frame() {
    let mut animation = AnimatedSprite::new(strip(3), 100);
    animation.add_time(-1);
    assert_eq!(animation.current_time, 200);
    assert_eq!(animation.current_frame(), 2);
    animation.add_time(-200);
    assert_eq!(animation.current_time, 0);
    assert_eq!(animation.current_frame(), 0);
    animation.add_time(-500);
    assert_eq!(animation.current_time, 200);
}

#[test]
fn frames_per_second_set_the_delay() {
    let animation = AnimatedSprite::with_fps(strip(2), 16);
    assert_eq!(animation.frame_delay, 62_500);
    assert_eq!(animation.current_time, 0);
    let mut other = AnimatedSprite::with_fps(strip(2), 1);
    assert_eq!(other.frame_delay, 1_000_000);
    other.set_fps(3);
    assert_eq!(other.frame_delay, 333_333);
    other.set_fps(-4);
    assert_eq!(other.frame_delay, -250_000);
    other.set_frame_delay(5);
    assert_eq!(other.frame_delay, 5);
    assert_eq!(fps_to_delay(29), 34_482);
    assert_eq!(fps_to_delay(-3), -333_333);
    assert_eq!(fps_to_delay(2_000_000), 0);
    assert_eq!(fps_to_delay(i64::MIN), 0);
}

#[test]
fn a_delay_below_zero_counts_frames_backward_in_time() {
    let mut animation = AnimatedSprite::new(strip(3), -100);
    animation.add_time(250);
    assert_eq!(animation.current_frame(), 0);
    let mut rewound = AnimatedSprite::new(strip(3), -100);
    rewound.add_time(-1);
    assert_eq!(rewound.current_time, -200);
    assert_eq!(rewound.current_frame(), 2);
}

#[test]
fn a_copy_shares_the_frames_and_has_its_own_cursor() {
    let mut first = AnimatedSprite::new(strip(3), 100);
    first.add_time(150);
    let mut copy = first.duplicate();
    assert!(Rc::ptr_eq(&first.sprites, &copy.sprites));
    assert_eq!(Rc::strong_count(&first.sprites), 2);
    assert_eq!(copy.current_time, 150);
    assert_eq!(copy.frame_delay, 100);
    copy.add_time(100);
    assert_eq!(copy.current_frame(), 2);
    assert_eq!(first.current_frame(), 1);
    assert_eq!(first.current_time, 150);
}

#[test]
fn rendering_copies_the_current_frame() {
    let frames = strip(3);
    let mut animation = AnimatedSprite::new(frames.clone(), 100);
    animation.add_time(100);
    let dest = rect(1, 2, 3, 4);
    assert_eq!(animation.current_sprite(), frames[1]);
    assert_eq!(animation.render(dest), Draw::Copy(frames[1], dest));
    assert_eq!(animation.current_time, 100);
    assert_eq!(frames[0].render(dest), Draw::Copy(frames[0], dest));
}
