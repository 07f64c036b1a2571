//! The views of the program, and how one gives way to another.

pub mod bullets;
pub mod game;
pub mod main_menu;
pub mod shared;

use vstd::prelude::*;
use crate::phi::data::elapsed_ok;
use crate::phi::events::Events;
use crate::phi::gfx::Color;
use crate::phi::gfx::Draw;
use crate::phi::Phi;
use crate::views::game::GameView;
use crate::views::game::Report;
use crate::views::game::SpawnDraws;
use crate::views::main_menu::MainMenuView;

verus! {

/// A view that shows nothing but red.
#[derive(Clone, Copy, Debug, PartialEq, Eq, Structural)]
pub struct ViewA;

/// A view that shows nothing but blue.
#[derive(Clone, Copy, Debug, PartialEq, Eq, Structural)]
pub struct ViewB;

/// A mode of the program: what is on the screen and what the input does.
#[derive(Debug)]
pub enum ActiveView {
    MainMenu(MainMenuView),
    Game(GameView),
    A(ViewA),
    B(ViewB),
}

/// What a view asks of the loop at the end of a frame.
#[derive(Debug)]
pub enum ViewAction {
    /// Show this view, which is the view itself after the frame or the one
    /// that takes its place.
    Render(ActiveView),
    /// End the program.
    Quit,
}

/// Whether the frame ends the program from one of the plain views: the
/// window was closed or "escape" went down.
pub open spec fn plain_view_leaves(events: Events) -> bool {
    events.now.quit || events.now.key_escape == Some(true)
}

/// Whether the frame makes one plain view give way to the other.
pub open spec fn plain_view_switches(events: Events) -> bool {
    events.now.key_space == Some(true)
}

/// What a frame makes of a plain view: the end of the program, the other
/// plain view, or the view itself.
pub open spec fn plain_view_turns_into(events: Events, stay: ActiveView, other: ActiveView) -> ViewAction {
    if plain_view_leaves(events) {
        ViewAction::Quit
    } else if plain_view_switches(events) {
        ViewAction::Render(other)
    } else {
        ViewAction::Render(stay)
    }
}

impl ViewA {
    /// Red, green and blue of what the view shows.
    pub fn color(&self) -> (res: (u8, u8, u8))
        ensures
            res == (255u8, 0u8, 0u8),
    {
        (255, 0, 0)
    }

    /// One frame: the program ends, or "space" brings up the blue view, or
    /// the view stays.
    pub fn update(self, phi: &Phi) -> (res: ViewAction)
        ensures
            res == plain_view_turns_into(phi.events, ActiveView::A(ViewA), ActiveView::B(ViewB)),
    {
        if phi.events.now.quit || phi.events.now.key_escape == Some(true) {
            return ViewAction::Quit;
        }
        if phi.events.now.key_space == Some(true) {
            return ViewAction::Render(ActiveView::B(ViewB));
        }
        ViewAction::Render(ActiveView::A(self))
    }
}

impl ViewB {
    /// Red, green and blue of what the view shows.
    pub fn color(&self) -> (res: (u8, u8, u8))
        ensures
            res == (0u8, 0u8, 255u8),
    {
        (0, 0, 255)
    }

    /// One frame: the program ends, or "space" brings up the red view, or
    /// the view stays.
    pub fn update(self, phi: &Phi) -> (res: ViewAction)
        ensures
            res == plain_view_turns_into(phi.events, ActiveView::B(ViewB), ActiveView::A(ViewA)),
    {
        if phi.events.now.quit || phi.events.now.key_escape == Some(true) {
            return ViewAction::Quit;
        }
        if phi.events.now.key_space == Some(true) {
            return ViewAction::Render(ActiveView::A(ViewA));
        }
        ViewAction::Render(ActiveView::B(self))
    }
}

impl ActiveView {
    /// Whether the view is fit to be taken through a frame in the window
    /// that `phi` describes.
    pub open spec fn ready(self, phi: Phi) -> bool {
        match self {
            ActiveView::MainMenu(menu) => menu.wf(),
            ActiveView::Game(game) => game.wf() && game.playable(phi.spec_output_size()),
            _ => true,
        }
    }

    /// Whether the view is fit to be taken through a frame in the window
    /// that `phi` describes.
    pub fn is_ready(&self, phi: &Phi) -> (res: bool)
        requires
            self matches ActiveView::MainMenu(menu) ==> menu.wf(),
            self matches ActiveView::Game(game) ==> game.wf(),
        ensures
            res == self.ready(*phi),
    {
        match self {
            ActiveView::Game(game) => game.can_play(phi.output_size()),
            _ => true,
        }
    }

    /// Takes the view through one frame, each kind of view in its own way.
    /// With the action it asks for comes what a game has to report.
    pub fn update(self, phi: &Phi, elapsed: i64) -> (res: (ViewAction, Option<Report>))
        requires
            self.ready(*phi),
            elapsed_ok(elapsed),
        ensures
            match self {
                ActiveView::MainMenu(menu) => menu.turns_into(*phi, elapsed as int, res.0)
                    && res.1 is None,
                ActiveView::Game(game) => exists|draws: SpawnDraws|
                    game.turns_into(*phi, elapsed as int, draws, res),
                ActiveView::A(_) => res.0 == plain_view_turns_into(
                    phi.events,
                    ActiveView::A(ViewA),
                    ActiveView::B(ViewB),
                ) && res.1 is None,
                ActiveView::B(_) => res.0 == plain_view_turns_into(
                    phi.events,
                    ActiveView::B(ViewB),
                    ActiveView::A(ViewA),
                ) && res.1 is None,
            },
            phi.events.now.quit ==> res.0 is Quit,
    {
        match self {
            ActiveView::MainMenu(menu) => (menu.update(phi, elapsed), None),
            ActiveView::Game(game) => game.update(phi, elapsed),
            ActiveView::A(view) => (view.update(phi), None),
            ActiveView::B(view) => (view.update(phi), None),
        }
    }
}

impl ViewA {
    /// Draws the view: all red.
    pub fn render(&self) -> (res: Vec<Draw>)
        ensures
            res@ == seq![Draw::Clear(Color { r: 255, g: 0, b: 0 })],
    {
        let mut list: Vec<Draw> = Vec::new();
        list.push(Draw::Clear(Color { r: 255, g: 0, b: 0 }));
        list
    }
}

impl ViewB {
    /// Draws the view: all blue.
    pub fn render(&self) -> (res: Vec<Draw>)
        ensures
            res@ == seq![Draw::Clear(Color { r: 0, g: 0, b: 255 })],
    {
        let mut list: Vec<Draw> = Vec::new();
        list.push(Draw::Clear(Color { r: 0, g: 0, b: 255 }));
        list
    }
}

impl ActiveView {
    /// Whether the view can be drawn in the window that `phi` describes.
    pub open spec fn drawable(self, phi: Phi) -> bool {
        match self {
            ActiveView::MainMenu(menu) => menu.wf() && menu.bg.fits(phi.spec_output_size()),
            ActiveView::Game(game) => game.wf() && game.bg.fits(phi.spec_output_size()),
            _ => true,
        }
    }

    /// Whether the view can be drawn in the window that `phi` describes.
    pub fn is_drawable(&self, phi: &Phi) -> (res: bool)
        requires
            self matches ActiveView::MainMenu(menu) ==> menu.wf(),
            self matches ActiveView::Game(game) ==> game.wf(),
        ensures
            res == self.drawable(*phi),
    {
        match self {
            ActiveView::MainMenu(menu) => menu.bg.can_fit(phi.output_size()),
            ActiveView::Game(game) => game.bg.can_fit(phi.output_size()),
            _ => true,
        }
    }

    /// What drawing the view asks of the renderer.
    pub open spec fn draws(self, phi: Phi) -> Seq<Draw> {
        match self {
            ActiveView::MainMenu(menu) => menu.draws(phi.spec_output_size()),
            ActiveView::Game(game) => game.draws(phi.spec_output_size()),
            ActiveView::A(_) => seq![Draw::Clear(Color { r: 255, g: 0, b: 0 })],
            ActiveView::B(_) => seq![Draw::Clear(Color { r: 0, g: 0, b: 255 })],
        }
    }

    /// Draws the view, each kind of view in its own way. Nothing of the
    /// view changes.
    pub fn render(&self, phi: &Phi) -> (res: Vec<Draw>)
        requires
            self.drawable(*phi),
        ensures
            res@ == self.draws(*phi),
    {
        match self {
            ActiveView::MainMenu(menu) => menu.render(phi.output_size()),
            ActiveView::Game(game) => game.render(phi.output_size()),
            ActiveView::A(view) => view.render(),
            ActiveView::B(view) => view.render(),
        }
    }
}

} // verus!
