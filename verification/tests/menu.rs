use arcaders::phi::data::Rectangle;
use arcaders::phi::events::Event;
use arcaders::phi::events::Key;
use arcaders::phi::gfx::Color;
use arcaders::phi::gfx::Draw;
use arcaders::phi::gfx::Sprite;
use arcaders::phi::Phi;
use arcaders::views::bullets::CannonType;
use arcaders::views::game::GameSheets;
use arcaders::views::main_menu::Action;
use arcaders::views::main_menu::MainMenuView;
use arcaders::views::main_menu::MenuChoice;
use arcaders::views::shared::BgSet;
use arcaders::views::ActiveView;
use arcaders::views::ViewAction;
use arcaders::views::ViewA;
use arcaders::views::ViewB;

const PX: i64 = 1_000_000;
const FRAME: i64 = 16_000;

fn sheets() -> GameSheets {
    GameSheets {
        ship: Sprite::new(1, 129, 117),
        asteroids: Sprite::new(2, 2016, 672),
        explosions: Sprite::new(3, 480, 384),
    }
}

fn scenery() -> BgSet {
    BgSet::new(Sprite::new(4, 400, 300), Sprite::new(5, 400, 300), Sprite::new(6, 400, 300))
}

fn labels() -> ((Sprite, Sprite), (Sprite, Sprite)) {
    (
        (Sprite::new(10, 100, 32), Sprite::new(11, 120, 42)),
        (Sprite::new(12, 60, 30), Sprite::new(13, 80, 40)),
    )
}

fn menu() -> MainMenuView {
    let (new_game, quit) = labels();
    MainMenuView::with_backgrounds(new_game, quit, sheets(), scenery())
}

fn menu_of(count: usize) -> MainMenuView {
    let mut menu = menu();
    let entry = menu.actions[1];
    while menu.actions.len() < count {
        menu.actions.push(entry);
    }
    menu
}

fn phi_with(events: &[Event]) -> Phi {
    let mut phi = Phi::new((800, 600));
    phi.begin_frame(&events.to_vec(), (800, 600));
    phi
}

fn pressed(key: Key) -> Phi {
    phi_with(&[Event::KeyDown(Some(key))])
}

fn stay(action: ViewAction) -> MainMenuView {
    match action {
        ViewAction::Render(ActiveView::MainMenu(menu)) => menu,
        other => panic!("the menu should stay, not {:?}", other),
    }
}

#[test]
fn the_menu_opens_with_its_first_entry_selected() {
    let menu = menu();
    let (new_game, quit) = labels();
    assert_eq!(
        menu.actions,
        vec![
            Action::new(MenuChoice::NewGame, new_game.0, new_game.1),
            Action::new(MenuChoice::Quit, quit.0, quit.1),
        ]
    );
    assert_eq!(menu.actions[0].idle_sprite, new_game.0);
    assert_eq!(menu.actions[0].hover_sprite, new_game.1);
    assert_eq!(menu.selected, 0);
    assert_eq!(menu.bg, scenery());
    assert_eq!(menu.sheets, sheets());
}

#[test]
fn the_menu_over_fresh_scenery() {
    let (new_game, quit) = labels();
    let images = (Sprite::new(4, 400, 300), Sprite::new(5, 400, 300), Sprite::new(6, 400, 300));
    let menu = MainMenuView::new(new_game, quit, sheets(), images);
    assert_eq!(menu.bg, scenery());
    assert_eq!(menu.actions.len(), 2);
    assert_eq!(menu.selected, 0);
}

#[test]
fn up_from_the_first_entry_selects_the_last() {
    for count in [1usize, 2, 3, 7] {
        let mut menu = menu_of(count.max(2));
        menu.actions.truncate(count);
        menu.selected = 0;
        menu.select_up();
        assert_eq!(menu.selected, count - 1);
    }
}

#[test]
fn down_from_the_last_entry_selects_the_first() {
    for count in [1usize, 2, 3, 7] {
        let mut menu = menu_of(count.max(2));
        menu.actions.truncate(count);
        menu.selected = count - 1;
        menu.select_down();
        assert_eq!(menu.selected, 0);
    }
}

#[test]
fn the_selection_moves_by_one_entry() {
    let mut menu = menu_of(5);
    menu.select_down();
    assert_eq!(menu.selected, 1);
    menu.select_down();
    assert_eq!(menu.selected, 2);
    menu.select_up();
    assert_eq!(menu.selected, 1);
    for _ in 0..5 {
        menu.select_down();
    }
    assert_eq!(menu.selected, 1);
    for _ in 0..5 {
        menu.select_up();
    }
    assert_eq!(menu.selected, 1);
}

#[test]
fn the_keys_move_the_selection() {
    let menu = stay(menu().update(&pressed(Key::Down), FRAME));
    assert_eq!(menu.selected, 1);
    let menu = stay(menu.update(&pressed(Key::Down), FRAME));
    assert_eq!(menu.selected, 0);
    let menu = stay(menu.update(&pressed(Key::Up), FRAME));
    assert_eq!(menu.selected, 1);
    let menu = stay(menu.update(&phi_with(&[]), FRAME));
    assert_eq!(menu.selected, 1);
    let both = phi_with(&[Event::KeyDown(Some(Key::Up)), Event::KeyDown(Some(Key::Down))]);
    let menu = stay(menu_of(3).update(&both, FRAME));
    assert_eq!(menu.selected, 0);
    assert_eq!(menu.actions.len(), 3);
}

#[test]
fn a_key_that_is_held_does_not_move_the_selection_again() {
    let mut phi = pressed(Key::Down);
    let menu = stay(menu_of(3).update(&phi, FRAME));
    phi.begin_frame(&vec![Event::KeyDown(Some(Key::Down))], (800, 600));
    let menu = stay(menu.update(&phi, FRAME));
    assert_eq!(menu.selected, 1);
}

#[test]
fn the_scenery_scrolls_behind_the_menu() {
    let menu = stay(menu().update(&phi_with(&[]), 1_000_000));
    assert_eq!(menu.bg.back.pos, 20 * PX);
    assert_eq!(menu.bg.middle.pos, 40 * PX);
    assert_eq!(menu.bg.front.pos, 80 * PX);
}

#[test]
fn escape_and_closing_the_window_end_the_program() {
    assert!(matches!(menu().update(&pressed(Key::Escape), FRAME), ViewAction::Quit));
    assert!(matches!(menu().update(&phi_with(&[Event::Quit]), FRAME), ViewAction::Quit));
    let both = phi_with(&[Event::KeyDown(Some(Key::Escape)), Event::KeyDown(Some(Key::Enter))]);
    assert!(matches!(menu().update(&both, FRAME), ViewAction::Quit));
}

#[test]
fn confirming_new_game_begins_a_game() {
    for key in [Key::Space, Key::Enter] {
        let mut menu = menu();
        menu.bg.update(1_000_000);
        let scrolled = menu.bg;
        match menu.update(&pressed(key), FRAME) {
            ViewAction::Render(ActiveView::Game(game)) => {
                assert_eq!(game.bg, scrolled);
                assert_eq!(game.bullets.len(), 0);
                assert_eq!(game.asteroids.len(), 0);
                assert_eq!(game.explosions.len(), 0);
                assert_eq!(
                    game.player.rect,
                    Rectangle { x: 64 * PX, y: 280_500_000, w: 43 * PX, h: 39 * PX }
                );
                assert_eq!(game.player.cannon, CannonType::RectBullet);
            },
            other => panic!("a game should begin, not {:?}", other),
        }
    }
}

#[test]
fn confirming_quit_ends_the_program() {
    let mut menu = menu();
    menu.selected = 1;
    assert!(matches!(menu.update(&pressed(Key::Enter), FRAME), ViewAction::Quit));
}

#[test]
fn confirming_comes_before_moving() {
    let both = phi_with(&[Event::KeyDown(Some(Key::Down)), Event::KeyDown(Some(Key::Space))]);
    assert!(matches!(menu().update(&both, FRAME), ViewAction::Render(ActiveView::Game(_))));
}

#[test]
fn the_menu_is_drawn_in_the_middle_of_the_window() {
    let mut menu = menu();
    let (new_game, quit) = labels();
    let whole = Rectangle { x: 0, y: 0, w: 800 * PX, h: 600 * PX };
    let expected = vec![
        Draw::Clear(Color { r: 0, g: 0, b: 0 }),
        Draw::Copy(Sprite::new(4, 400, 300), whole),
        Draw::Copy(Sprite::new(5, 400, 300), whole),
        Draw::Copy(Sprite::new(6, 400, 300), whole),
        Draw::Fill(
            Color { r: 70, g: 15, b: 70 },
            Rectangle { x: 217 * PX, y: 237 * PX, w: 366 * PX, h: 126 * PX },
        ),
        Draw::Fill(
            Color { r: 140, g: 30, b: 140 },
            Rectangle { x: 220 * PX, y: 240 * PX, w: 360 * PX, h: 120 * PX },
        ),
        Draw::Copy(new_game.1, Rectangle { x: 340 * PX, y: 254 * PX, w: 120 * PX, h: 42 * PX }),
        Draw::Copy(quit.0, Rectangle { x: 370 * PX, y: 310 * PX, w: 60 * PX, h: 30 * PX }),
    ];
    assert_eq!(menu.render((800 * PX, 600 * PX)), expected);
    menu.selected = 1;
    let drawn = menu.render((800 * PX, 600 * PX));
    assert_eq!(
        drawn[6],
        Draw::Copy(new_game.0, Rectangle { x: 350 * PX, y: 259 * PX, w: 100 * PX, h: 32 * PX })
    );
    assert_eq!(
        drawn[7],
        Draw::Copy(quit.1, Rectangle { x: 360 * PX, y: 305 * PX, w: 80 * PX, h: 40 * PX })
    );
}

#[test]
fn the_menu_is_drawn_in_a_window_smaller_than_its_box() {
    let drawn = menu().render((101 * PX, 51 * PX));
    let fills: Vec<&Draw> = drawn.iter().filter(|d| matches!(d, Draw::Fill(_, _))).collect();
    assert_eq!(
        *fills[0],
        Draw::Fill(
            Color { r: 70, g: 15, b: 70 },
            Rectangle { x: -132_500_000, y: -37_500_000, w: 366 * PX, h: 126 * PX },
        )
    );
    assert_eq!(
        *fills[1],
        Draw::Fill(
            Color { r: 140, g: 30, b: 140 },
            Rectangle { x: -129_500_000, y: -34_500_000, w: 360 * PX, h: 120 * PX },
        )
    );
}

#[test]
fn the_plain_views_give_way_to_each_other() {
    let nothing = phi_with(&[]);
    let space = pressed(Key::Space);
    assert!(matches!(ViewA.update(&nothing), ViewAction::Render(ActiveView::A(_))));
    assert!(matches!(ViewA.update(&space), ViewAction::Render(ActiveView::B(_))));
    assert!(matches!(ViewB.update(&nothing), ViewAction::Render(ActiveView::B(_))));
    assert!(matches!(ViewB.update(&space), ViewAction::Render(ActiveView::A(_))));
    assert!(matches!(ViewA.update(&pressed(Key::Escape)), ViewAction::Quit));
    assert!(matches!(ViewB.update(&phi_with(&[Event::Quit])), ViewAction::Quit));
    let both = phi_with(&[Event::KeyDown(Some(Key::Space)), Event::Quit]);
    assert!(matches!(ViewA.update(&both), ViewAction::Quit));
}

#[test]
fn the_plain_views_show_one_colour() {
    assert_eq!(ViewA.color(), (255, 0, 0));
    assert_eq!(ViewB.color(), (0, 0, 255));
    assert_eq!(ViewA.render(), vec![Draw::Clear(Color { r: 255, g: 0, b: 0 })]);
    assert_eq!(ViewB.render(), vec![Draw::Clear(Color { r: 0, g: 0, b: 255 })]);
}

#[test]
fn every_view_is_taken_through_a_frame_in_its_own_way() {
    let space = pressed(Key::Space);
    let (action, report) = ActiveView::A(ViewA).update(&space, FRAME);
    assert!(matches!(action, ViewAction::Render(ActiveView::B(_))));
    assert_eq!(report, None);
    let view = ActiveView::MainMenu(menu());
    assert!(view.is_ready(&space));
    let (action, report) = view.update(&space, FRAME);
    assert_eq!(report, None);
    let game = match action {
        ViewAction::Render(view) => view,
        ViewAction::Quit => panic!("a game should begin"),
    };
    assert!(matches!(game, ActiveView::Game(_)));
    assert!(game.is_ready(&space));
    assert!(!game.is_ready(&Phi::new((10, 10))));
    assert_eq!(game.render(&space).len(), 5);
    let (action, report) = game.update(&space, FRAME);
    let report = report.unwrap();
    assert!(report.fired);
    assert!(report.player_alive);
    assert_eq!(report.destroyed, 0);
    match action {
        ViewAction::Render(ActiveView::Game(game)) => assert_eq!(game.bullets.len(), 2),
        other => panic!("the game should go on, not {:?}", other),
    }
    let (action, _) = ActiveView::B(ViewB).update(&phi_with(&[Event::Quit]), FRAME);
    assert!(matches!(action, ViewAction::Quit));
}
