use arcaders::phi::data::Rectangle;
use arcaders::phi::events::Events;
use arcaders::phi::events::Key;
use arcaders::phi::events::Event;
use arcaders::phi::gfx::Color;
use arcaders::phi::gfx::Draw;
use arcaders::phi::gfx::Sprite;
use arcaders::views::bullets::Bullet;
use arcaders::views::bullets::RectBullet;
use arcaders::views::game::Asteroid;
use arcaders::views::game::GameSheets;
use arcaders::views::game::GameView;
use arcaders::views::game::PlayerFrame;
use arcaders::views::shared::BgSet;

const PX: i64 = 1_000_000;

fn new_game() -> GameView {
    let sheets = GameSheets {
        ship: Sprite::new(1, 129, 117),
        asteroids: Sprite::new(2, 2016, 672),
        explosions: Sprite::new(3, 480, 384),
    };
    let bg = BgSet::new(Sprite::new(4, 400, 300), Sprite::new(5, 400, 300), Sprite::new(6, 400, 300));
    GameView::with_backgrounds(&sheets, (800 * PX, 600 * PX), bg).unwrap()
}

#[test]
fn the_ship_is_drawn_with_the_picture_of_its_movement() {
    let mut game = new_game();
    let ship = Rectangle { x: 64 * PX, y: 280_500_000, w: 43 * PX, h: 39 * PX };
    assert_eq!(game.player.render(), Draw::Copy(game.player.sprites[3], ship));
    let mut events = Events::new();
    events.pump(&vec![Event::KeyDown(Some(Key::Down)), Event::KeyDown(Some(Key::Left))]);
    game.player.update(&events, 0, (800 * PX, 600 * PX));
    assert_eq!(game.player.current, PlayerFrame::MidNorm);
    game.player.update(&events, 1, (800 * PX, 600 * PX));
    assert_eq!(game.player.current, PlayerFrame::DownSlow);
    assert_eq!(game.player.current.index(), 8);
    let moved = Rectangle { x: 64 * PX - 127, y: 280_500_000 + 127, w: 43 * PX, h: 39 * PX };
    assert_eq!(game.player.render(), Draw::Copy(game.player.sprites[8], moved));
    let frames = [
        PlayerFrame::UpNorm,
        PlayerFrame::UpFast,
        PlayerFrame::UpSlow,
        PlayerFrame::MidNorm,
        PlayerFrame::MidFast,
        PlayerFrame::MidSlow,
        PlayerFrame::DownNorm,
        PlayerFrame::DownFast,
        PlayerFrame::DownSlow,
    ];
    for (k, frame) in frames.iter().enumerate() {
        assert_eq!(frame.index(), k);
    }
    assert_eq!(PlayerFrame::select(0, 0), PlayerFrame::MidNorm);
    assert_eq!(PlayerFrame::select(5, -5), PlayerFrame::UpFast);
    assert_eq!(PlayerFrame::select(-5, 5), PlayerFrame::DownSlow);
    assert_eq!(PlayerFrame::select(0, 5), PlayerFrame::DownNorm);
}

#[test]
fn the_game_is_drawn_from_the_back_to_the_front() {
    let mut game = new_game();
    game.bullets.push(Bullet::Rect(RectBullet::new(100 * PX, 100 * PX)));
    let mut sprite = game.asteroid_factory.sprite.duplicate();
    sprite.add_time(2_500_000);
    let rock_rect = Rectangle { x: 500 * PX, y: 200 * PX, w: 96 * PX, h: 96 * PX };
    game.asteroids.push(Asteroid { sprite, rect: rock_rect, vel: 50 });
    let blast = game.explosion_factory.at_center((300 * PX, 300 * PX)).update(130_000).unwrap();
    game.explosions.push(blast);

    let whole = Rectangle { x: 0, y: 0, w: 800 * PX, h: 600 * PX };
    let expected = vec![
        Draw::Clear(Color { r: 0, g: 0, b: 0 }),
        Draw::Copy(Sprite::new(4, 400, 300), whole),
        Draw::Copy(Sprite::new(5, 400, 300), whole),
        Draw::Copy(
            game.player.sprites[3],
            Rectangle { x: 64 * PX, y: 280_500_000, w: 43 * PX, h: 39 * PX },
        ),
        Draw::Fill(
            Color { r: 230, g: 230, b: 30 },
            Rectangle { x: 100 * PX, y: 100 * PX, w: 8 * PX, h: 4 * PX },
        ),
        Draw::Copy(game.asteroid_factory.sprite.sprites[2], rock_rect),
        Draw::Copy(
            game.explosion_factory.sprite.sprites[2],
            Rectangle { x: 252 * PX, y: 252 * PX, w: 96 * PX, h: 96 * PX },
        ),
        Draw::Copy(Sprite::new(6, 400, 300), whole),
    ];
    assert_eq!(game.render((800 * PX, 600 * PX)), expected);
    assert_eq!(game.asteroids[0].sprite.current_time, 2_500_000);
    assert_eq!(game.asteroids[0].render(), expected[5]);
    assert_eq!(game.explosions[0].render(), expected[6]);
}

#[test]
fn scrolled_scenery_is_drawn_shifted() {
    let mut game = new_game();
    game.bg.update(5_000_000);
    let drawn = game.render((800 * PX, 600 * PX));
    assert_eq!(drawn.len(), 7);
    assert_eq!(
        drawn[1],
        Draw::Copy(Sprite::new(4, 400, 300), Rectangle { x: -200 * PX, y: 0, w: 800 * PX, h: 600 * PX })
    );
    assert_eq!(
        drawn[2],
        Draw::Copy(Sprite::new(4, 400, 300), Rectangle { x: 600 * PX, y: 0, w: 800 * PX, h: 600 * PX })
    );
    assert_eq!(
        drawn[3],
        Draw::Copy(Sprite::new(5, 400, 300), Rectangle { x: -400 * PX, y: 0, w: 800 * PX, h: 600 * PX })
    );
    assert_eq!(
        drawn[4],
        Draw::Copy(Sprite::new(5, 400, 300), Rectangle { x: 400 * PX, y: 0, w: 800 * PX, h: 600 * PX })
    );
    assert!(matches!(drawn[5], Draw::Copy(s, _) if s.image == 1));
    assert_eq!(
        drawn[6],
        Draw::Copy(Sprite::new(6, 400, 300), Rectangle { x: 0, y: 0, w: 800 * PX, h: 600 * PX })
    );
}
