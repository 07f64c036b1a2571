//! The menu with which the program opens.

use vstd::prelude::*;
use crate::phi::data::elapsed_ok;
use crate::phi::data::half_of;
use crate::phi::data::screen_ok;
use crate::phi::data::Rectangle;
use crate::phi::events::Events;
use crate::phi::gfx::black;
use crate::phi::gfx::Color;
use crate::phi::gfx::Draw;
use crate::phi::gfx::Sprite;
use crate::phi::Phi;
use crate::views::game::GameSheets;
use crate::views::game::GameView;
use crate::views::shared::BgSet;
use crate::views::ActiveView;
use crate::views::ViewAction;

verus! {

/// Most entries a menu can hold.
pub const MAX_ACTIONS: usize = 65_536;

/// Height of the row of a label.
pub const LABEL_H: i64 = 50_000_000;

/// Width of the frame around the box of the menu.
pub const BORDER_WIDTH: i64 = 3_000_000;

/// Width of the box of the menu.
pub const BOX_W: i64 = 360_000_000;

/// Space above the first and below the last label.
pub const MARGIN_H: i64 = 10_000_000;

/// The colour of the frame around the box of the menu.
pub open spec fn border_color() -> Color {
    Color { r: 70, g: 15, b: 70 }
}

/// The colour of the box of the menu.
pub open spec fn box_color() -> Color {
    Color { r: 140, g: 30, b: 140 }
}

/// Height of the rows of `count` labels.
pub open spec fn box_height(count: int) -> int {
    count * LABEL_H
}

/// The frame around the box of a menu of `count` entries, centered in a
/// window of size `screen`.
pub open spec fn border_rect(screen: (i64, i64), count: int) -> Rectangle {
    Rectangle {
        w: (BOX_W + BORDER_WIDTH * 2) as i64,
        h: (box_height(count) + BORDER_WIDTH * 2 + MARGIN_H * 2) as i64,
        x: ((screen.0 - BOX_W) / 2 - BORDER_WIDTH) as i64,
        y: ((screen.1 - box_height(count)) / 2 - MARGIN_H - BORDER_WIDTH) as i64,
    }
}

/// The box of a menu of `count` entries, centered in a window of size
/// `screen`.
pub open spec fn box_rect(screen: (i64, i64), count: int) -> Rectangle {
    Rectangle {
        w: BOX_W,
        h: (box_height(count) + MARGIN_H * 2) as i64,
        x: ((screen.0 - BOX_W) / 2) as i64,
        y: ((screen.1 - box_height(count)) / 2 - MARGIN_H) as i64,
    }
}

/// Where a label of size `size` goes in the `i`-th row of a menu of `count`
/// entries: centered in its row.
pub open spec fn label_rect(screen: (i64, i64), count: int, size: (i64, i64), i: int) -> Rectangle {
    Rectangle {
        w: size.0,
        h: size.1,
        x: ((screen.0 - size.0) / 2) as i64,
        y: ((screen.1 - box_height(count) + LABEL_H - size.1) / 2 + LABEL_H * i) as i64,
    }
}

/// What choosing an entry of the menu leads to.
#[derive(Clone, Copy, Debug, PartialEq, Eq, Structural)]
pub enum MenuChoice {
    NewGame,
    Quit,
}

/// An entry of the menu.
#[derive(Clone, Copy, Debug, PartialEq, Eq, Structural)]
pub struct Action {
    /// What is done when the entry is chosen.
    pub choice: MenuChoice,
    /// The label while the entry is not selected.
    pub idle_sprite: Sprite,
    /// The label while the entry is selected.
    pub hover_sprite: Sprite,
}

impl Action {
    /// Both labels are of sizes that can be drawn.
    pub open spec fn wf(self) -> bool {
        self.idle_sprite.src.bounded() && self.hover_sprite.src.bounded()
    }

    /// Whether both labels are of sizes that can be drawn.
    pub fn is_wf(&self) -> (res: bool)
        ensures
            res == self.wf(),
    {
        self.idle_sprite.src.is_bounded() && self.hover_sprite.src.is_bounded()
    }

    /// An entry with its two labels.
    pub fn new(choice: MenuChoice, idle_sprite: Sprite, hover_sprite: Sprite) -> (res: Action)
        ensures
            res == (Action { choice, idle_sprite, hover_sprite }),
    {
        Action { choice, idle_sprite, hover_sprite }
    }
}

/// The index selected after "up" at `selected` among `count` entries: the
/// one before, the last from the first.
pub open spec fn index_above(selected: int, count: int) -> int {
    if selected == 0 {
        count - 1
    } else {
        selected - 1
    }
}

/// The index selected after "down" at `selected` among `count` entries: the
/// one after, the first from the last.
pub open spec fn index_below(selected: int, count: int) -> int {
    if selected + 1 >= count {
        0
    } else {
        selected + 1
    }
}

/// The index selected after the keys of a frame: "up" is taken first, then
/// "down".
pub open spec fn index_after(selected: int, count: int, events: Events) -> int {
    let first = if events.now.key_up == Some(true) {
        index_above(selected, count)
    } else {
        selected
    };
    if events.now.key_down == Some(true) {
        index_below(first, count)
    } else {
        first
    }
}

/// The menu: a list of entries, one of which is selected.
#[derive(Debug)]
pub struct MainMenuView {
    pub actions: Vec<Action>,
    pub selected: usize,
    pub bg: BgSet,
    /// The sheets handed on to the game when one is begun.
    pub sheets: GameSheets,
}

impl MainMenuView {
    /// There is an entry, the entry selected exists, the labels are of
    /// sizes that can be drawn, and a game can begin.
    pub open spec fn wf(self) -> bool {
        &&& 0 < self.actions.len() <= MAX_ACTIONS
        &&& self.selected < self.actions.len()
        &&& forall|i: int| 0 <= i < self.actions.len() ==> (#[trigger] self.actions[i]).wf()
        &&& self.bg.wf()
        &&& self.sheets.loadable()
    }

    /// Whether the menu is fit to be shown and used.
    pub fn is_wf(&self) -> (res: bool)
        ensures
            res == self.wf(),
    {
        if self.actions.len() == 0 || self.actions.len() > MAX_ACTIONS || self.selected
            >= self.actions.len() {
            return false;
        }
        let mut i: usize = 0;
        while i < self.actions.len()
            invariant
                i <= self.actions.len(),
                forall|k: int| 0 <= k < i ==> (#[trigger] self.actions[k]).wf(),
            decreases self.actions.len() - i,
        {
            if !self.actions[i].is_wf() {
                return false;
            }
            i += 1;
        }
        self.bg.is_wf() && self.sheets.is_loadable()
    }

    /// Whether the frame ends the program from the menu: the window was
    /// closed or "escape" went down.
    pub open spec fn leaves(events: Events) -> bool {
        events.now.quit || events.now.key_escape == Some(true)
    }

    /// Whether the frame confirms the entry selected.
    pub open spec fn confirms(events: Events) -> bool {
        events.now.key_space == Some(true) || events.now.key_enter == Some(true)
    }

    /// Whether `res` is what a frame makes of the menu. Closing the window
    /// or "escape" ends the program. "Space" or "enter" does what the entry
    /// selected stands for: a game about to begin over the scenery of the
    /// menu takes its place, or the program ends. Otherwise the menu stays,
    /// its selection moved by "up" and "down" and its scenery scrolled.
    pub open spec fn turns_into(self, phi: Phi, elapsed: int, res: ViewAction) -> bool {
        if Self::leaves(phi.events) {
            res is Quit
        } else if Self::confirms(phi.events) {
            match self.actions[self.selected as int].choice {
                MenuChoice::Quit => res is Quit,
                MenuChoice::NewGame => res matches ViewAction::Render(ActiveView::Game(game))
                    && game.wf() && game.begins(self.sheets, phi.spec_output_size(), self.bg),
            }
        } else {
            res matches ViewAction::Render(ActiveView::MainMenu(menu)) && {
                &&& menu.selected == index_after(
                    self.selected as int,
                    self.actions.len() as int,
                    phi.events,
                )
                &&& menu.actions == self.actions
                &&& menu.sheets == self.sheets
                &&& menu.bg == self.bg.after(elapsed)
                &&& menu.wf()
            }
        }
    }

    /// The menu as it opens, its first entry selected: "new game", then
    /// "quit", each with its label idle and hovered.
    pub fn with_backgrounds(
        new_game: (Sprite, Sprite),
        quit: (Sprite, Sprite),
        sheets: GameSheets,
        bg: BgSet,
    ) -> (res: MainMenuView)
        ensures
            res.actions@ == seq![
                Action { choice: MenuChoice::NewGame, idle_sprite: new_game.0, hover_sprite: new_game.1 },
                Action { choice: MenuChoice::Quit, idle_sprite: quit.0, hover_sprite: quit.1 },
            ],
            res.selected == 0,
            res.bg == bg,
            res.sheets == sheets,
            (bg.wf() && sheets.loadable() && new_game.0.src.bounded() && new_game.1.src.bounded()
                && quit.0.src.bounded() && quit.1.src.bounded()) ==> res.wf(),
    {
        let mut actions: Vec<Action> = Vec::new();
        actions.push(Action::new(MenuChoice::NewGame, new_game.0, new_game.1));
        actions.push(Action::new(MenuChoice::Quit, quit.0, quit.1));
        proof {
            assert(actions@ =~= seq![
                Action { choice: MenuChoice::NewGame, idle_sprite: new_game.0, hover_sprite: new_game.1 },
                Action { choice: MenuChoice::Quit, idle_sprite: quit.0, hover_sprite: quit.1 },
            ]);
        }
        MainMenuView { actions, selected: 0, bg, sheets }
    }

    /// The menu as it opens, over scenery made of the three images given.
    pub fn new(
        new_game: (Sprite, Sprite),
        quit: (Sprite, Sprite),
        sheets: GameSheets,
        scenery: (Sprite, Sprite, Sprite),
    ) -> (res: MainMenuView)
        ensures
            res.actions@ == seq![
                Action { choice: MenuChoice::NewGame, idle_sprite: new_game.0, hover_sprite: new_game.1 },
                Action { choice: MenuChoice::Quit, idle_sprite: quit.0, hover_sprite: quit.1 },
            ],
            res.selected == 0,
            res.bg == BgSet::spec_new(scenery.0, scenery.1, scenery.2),
            res.sheets == sheets,
    {
        let bg = BgSet::new(scenery.0, scenery.1, scenery.2);
        MainMenuView::with_backgrounds(new_game, quit, sheets, bg)
    }

    /// Moves the selection up by one entry; from the first entry it goes to
    /// the last.
    pub fn select_up(&mut self)
        requires
            old(self).selected < old(self).actions.len(),
        ensures
            final(self).selected == index_above(
                old(self).selected as int,
                old(self).actions.len() as int,
            ),
            final(self).selected < final(self).actions.len(),
            final(self).actions == old(self).actions,
            final(self).bg == old(self).bg,
            final(self).sheets == old(self).sheets,
    {
        if self.selected == 0 {
            self.selected = self.actions.len() - 1;
        } else {
            self.selected = self.selected - 1;
        }
    }

    /// Moves the selection down by one entry; from the last entry it goes
    /// to the first.
    pub fn select_down(&mut self)
        requires
            old(self).selected < old(self).actions.len(),
        ensures
            final(self).selected == index_below(
                old(self).selected as int,
                old(self).actions.len() as int,
            ),
            final(self).selected < final(self).actions.len(),
            final(self).actions == old(self).actions,
            final(self).bg == old(self).bg,
            final(self).sheets == old(self).sheets,
    {
        if self.selected + 1 >= self.actions.len() {
            self.selected = 0;
        } else {
            self.selected = self.selected + 1;
        }
    }

    /// Takes the menu through one frame. Closing the window or "escape"
    /// ends the program. "Space" or "enter" does what the entry selected
    /// stands for: a game begins over the scenery of the menu, or the
    /// program ends. Otherwise "up" and "down" move the selection, the
    /// scenery scrolls, and the menu stays.
    pub fn update(self, phi: &Phi, elapsed: i64) -> (res: ViewAction)
        requires
            self.wf(),
            elapsed_ok(elapsed),
        ensures
            self.turns_into(*phi, elapsed as int, res),
    {
        if phi.events.now.quit || phi.events.now.key_escape == Some(true) {
            return ViewAction::Quit;
        }
        if phi.events.now.key_space == Some(true) || phi.events.now.key_enter == Some(true) {
            match self.actions[self.selected].choice {
                MenuChoice::Quit => {
                    return ViewAction::Quit;
                },
                MenuChoice::NewGame => {
                    match GameView::with_backgrounds(&self.sheets, phi.output_size(), self.bg) {
                        Some(game) => {
                            return ViewAction::Render(ActiveView::Game(game));
                        },
                        None => {
                            assert(false);
                            return ViewAction::Quit;
                        },
                    }
                },
            }
        }
        let mut menu = self;
        if phi.events.now.key_up == Some(true) {
            menu.select_up();
        }
        if phi.events.now.key_down == Some(true) {
            menu.select_down();
        }
        menu.bg.update(elapsed);
        ViewAction::Render(ActiveView::MainMenu(menu))
    }
}

/// "Up" from the first entry selects the last, and "down" from the last
/// selects the first; the index selected is always that of an entry.
pub proof fn lemma_selection_wraps(selected: int, count: int)
    requires
        0 <= selected < count,
    ensures
        index_above(0, count) == count - 1,
        index_below(count - 1, count) == 0,
        0 <= index_above(selected, count) < count,
        0 <= index_below(selected, count) < count,
        index_below(index_above(selected, count), count) == selected,
        index_above(index_below(selected, count), count) == selected,
{
}

impl MainMenuView {
    /// The label shown for the `i`-th entry: the hovered one for the entry
    /// selected, the idle one for the others.
    pub open spec fn label(self, i: int) -> Sprite {
        if self.selected == i {
            self.actions[i].hover_sprite
        } else {
            self.actions[i].idle_sprite
        }
    }

    /// What drawing the `i`-th label asks of the renderer.
    pub open spec fn label_draw(self, screen: (i64, i64), i: int) -> Draw {
        Draw::Copy(
            self.label(i),
            label_rect(
                screen,
                self.actions.len() as int,
                (self.label(i).src.w, self.label(i).src.h),
                i,
            ),
        )
    }

    /// What drawing the labels asks of the renderer, from the first to the
    /// last.
    pub open spec fn label_draws(self, screen: (i64, i64)) -> Seq<Draw> {
        Seq::new(self.actions.len() as nat, |i: int| self.label_draw(screen, i))
    }

    /// What drawing the menu asks of the renderer, in order: empty space,
    /// the three layers of scenery, the frame of the box, the box, and the
    /// labels from the first to the last.
    pub open spec fn draws(self, screen: (i64, i64)) -> Seq<Draw> {
        seq![Draw::Clear(black())] + self.bg.back.draws(screen) + self.bg.middle.draws(screen)
            + self.bg.front.draws(screen) + seq![
            Draw::Fill(border_color(), border_rect(screen, self.actions.len() as int)),
            Draw::Fill(box_color(), box_rect(screen, self.actions.len() as int)),
        ] + self.label_draws(screen)
    }

    /// Draws the menu into a window of size `screen`. Nothing of the menu
    /// changes.
    pub fn render(&self, screen: (i64, i64)) -> (res: Vec<Draw>)
        requires
            self.wf(),
            screen_ok(screen),
            self.bg.fits(screen),
        ensures
            res@ == self.draws(screen),
    {
        let mut list: Vec<Draw> = Vec::new();
        list.push(Draw::Clear(Color { r: 0, g: 0, b: 0 }));
        let mut back = self.bg.back.render(screen);
        list.append(&mut back);
        let mut middle = self.bg.middle.render(screen);
        list.append(&mut middle);
        let mut front = self.bg.front.render(screen);
        list.append(&mut front);
        let count: usize = self.actions.len();
        let box_h: i64 = (count as i64) * LABEL_H;
        list.push(
            Draw::Fill(
                Color { r: 70, g: 15, b: 70 },
                Rectangle {
                    w: BOX_W + BORDER_WIDTH * 2,
                    h: box_h + BORDER_WIDTH * 2 + MARGIN_H * 2,
                    x: half_of(screen.0 - BOX_W) - BORDER_WIDTH,
                    y: half_of(screen.1 - box_h) - MARGIN_H - BORDER_WIDTH,
                },
            ),
        );
        list.push(
            Draw::Fill(
                Color { r: 140, g: 30, b: 140 },
                Rectangle {
                    w: BOX_W,
                    h: box_h + MARGIN_H * 2,
                    x: half_of(screen.0 - BOX_W),
                    y: half_of(screen.1 - box_h) - MARGIN_H,
                },
            ),
        );
        let ghost head = list@;
        let ghost labels = self.label_draws(screen);
        assert(head =~= seq![Draw::Clear(black())] + self.bg.back.draws(screen)
            + self.bg.middle.draws(screen) + self.bg.front.draws(screen) + seq![
            Draw::Fill(border_color(), border_rect(screen, self.actions.len() as int)),
            Draw::Fill(box_color(), box_rect(screen, self.actions.len() as int)),
        ]);
        let mut i: usize = 0;
        while i < count
            invariant
                i <= count,
                count == self.actions.len(),
                box_h == box_height(count as int),
                self.wf(),
                screen_ok(screen),
                labels == self.label_draws(screen),
                list@ == head + labels.take(i as int),
            decreases count - i,
        {
            let action = self.actions[i];
            assert(action.wf());
            let sprite = if self.selected == i {
                action.hover_sprite
            } else {
                action.idle_sprite
            };
            let (w, h) = sprite.size();
            list.push(
                Draw::Copy(
                    sprite,
                    Rectangle {
                        w,
                        h,
                        x: half_of(screen.0 - w),
                        y: half_of(screen.1 - box_h + LABEL_H - h) + LABEL_H * (i as i64),
                    },
                ),
            );
            assert(labels.take(i + 1) =~= labels.take(i as int).push(
                self.label_draw(screen, i as int),
            ));
            i += 1;
        }
        assert(labels.take(count as int) =~= labels);
        list
    }
}

} // verus!
