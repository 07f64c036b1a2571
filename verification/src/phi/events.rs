//! The input snapshot: which keys are held, and what changed this frame.

use vstd::prelude::*;

verus! {

/// The keys the game listens to.
#[derive(Clone, Copy, Debug, PartialEq, Eq, Structural)]
pub enum Key {
    Escape,
    Up,
    Down,
    Left,
    Right,
    Space,
    Enter,
    Num1,
    Num2,
    Num3,
}

/// One input event, as the platform reports it. A key event for a key that
/// the game does not listen to carries no key.
#[derive(Clone, Copy, Debug, PartialEq, Eq, Structural)]
pub enum Event {
    /// The window now has this size in pixels.
    Resized(u32, u32),
    KeyDown(Option<Key>),
    KeyUp(Option<Key>),
    Quit,
    /// Anything else.
    Other,
}

/// What changed during the current frame. For a key, `Some(true)` says it
/// went down, `Some(false)` that it went up, `None` that it did neither.
#[derive(Clone, Copy, Debug, PartialEq, Eq)]
pub struct ImmediateEvents {
    pub resize: Option<(u32, u32)>,
    pub key_escape: Option<bool>,
    pub key_up: Option<bool>,
    pub key_down: Option<bool>,
    pub key_left: Option<bool>,
    pub key_right: Option<bool>,
    pub key_space: Option<bool>,
    pub key_enter: Option<bool>,
    pub key_1: Option<bool>,
    pub key_2: Option<bool>,
    pub key_3: Option<bool>,
    pub quit: bool,
}

impl ImmediateEvents {
    /// The edge recorded for `key`.
    pub open spec fn edge(self, key: Key) -> Option<bool> {
        match key {
            Key::Escape => self.key_escape,
            Key::Up => self.key_up,
            Key::Down => self.key_down,
            Key::Left => self.key_left,
            Key::Right => self.key_right,
            Key::Space => self.key_space,
            Key::Enter => self.key_enter,
            Key::Num1 => self.key_1,
            Key::Num2 => self.key_2,
            Key::Num3 => self.key_3,
        }
    }

    /// The same record with the edge of `key` replaced.
    pub open spec fn with_edge(self, key: Key, value: Option<bool>) -> ImmediateEvents {
        match key {
            Key::Escape => ImmediateEvents { key_escape: value, ..self },
            Key::Up => ImmediateEvents { key_up: value, ..self },
            Key::Down => ImmediateEvents { key_down: value, ..self },
            Key::Left => ImmediateEvents { key_left: value, ..self },
            Key::Right => ImmediateEvents { key_right: value, ..self },
            Key::Space => ImmediateEvents { key_space: value, ..self },
            Key::Enter => ImmediateEvents { key_enter: value, ..self },
            Key::Num1 => ImmediateEvents { key_1: value, ..self },
            Key::Num2 => ImmediateEvents { key_2: value, ..self },
            Key::Num3 => ImmediateEvents { key_3: value, ..self },
        }
    }

    /// The record of a frame in which nothing has happened.
    pub open spec fn spec_new() -> ImmediateEvents {
        ImmediateEvents {
            resize: None,
            key_escape: None,
            key_up: None,
            key_down: None,
            key_left: None,
            key_right: None,
            key_space: None,
            key_enter: None,
            key_1: None,
            key_2: None,
            key_3: None,
            quit: false,
        }
    }

    /// The record of a frame in which nothing has happened.
    pub fn new() -> (res: ImmediateEvents)
        ensures
            res == Self::spec_new(),
    {
        ImmediateEvents {
            resize: None,
            key_escape: None,
            key_up: None,
            key_down: None,
            key_left: None,
            key_right: None,
            key_space: None,
            key_enter: None,
            key_1: None,
            key_2: None,
            key_3: None,
            quit: false,
        }
    }

    /// The edge recorded for `key`.
    pub fn get(&self, key: Key) -> (res: Option<bool>)
        ensures
            res == self.edge(key),
    {
        match key {
            Key::Escape => self.key_escape,
            Key::Up => self.key_up,
            Key::Down => self.key_down,
            Key::Left => self.key_left,
            Key::Right => self.key_right,
            Key::Space => self.key_space,
            Key::Enter => self.key_enter,
            Key::Num1 => self.key_1,
            Key::Num2 => self.key_2,
            Key::Num3 => self.key_3,
        }
    }

    /// Whether `key` went down during the frame.
    pub fn pressed(&self, key: Key) -> (res: bool)
        ensures
            res == (self.edge(key) == Some(true)),
    {
        match self.get(key) {
            Some(down) => down,
            None => false,
        }
    }

    fn set(&mut self, key: Key, value: Option<bool>)
        ensures
            *final(self) == old(self).with_edge(key, value),
    {
        let current: ImmediateEvents = *self;
        *self = match key {
            Key::Escape => ImmediateEvents { key_escape: value, ..current },
            Key::Up => ImmediateEvents { key_up: value, ..current },
            Key::Down => ImmediateEvents { key_down: value, ..current },
            Key::Left => ImmediateEvents { key_left: value, ..current },
            Key::Right => ImmediateEvents { key_right: value, ..current },
            Key::Space => ImmediateEvents { key_space: value, ..current },
            Key::Enter => ImmediateEvents { key_enter: value, ..current },
            Key::Num1 => ImmediateEvents { key_1: value, ..current },
            Key::Num2 => ImmediateEvents { key_2: value, ..current },
            Key::Num3 => ImmediateEvents { key_3: value, ..current },
        };
    }
}

/// The input state: the keys held down, and the changes of the current frame.
#[derive(Clone, Copy, Debug, PartialEq, Eq)]
pub struct Events {
    pub now: ImmediateEvents,
    pub key_escape: bool,
    pub key_up: bool,
    pub key_down: bool,
    pub key_left: bool,
    pub key_right: bool,
    pub key_space: bool,
    pub key_enter: bool,
    pub key_1: bool,
    pub key_2: bool,
    pub key_3: bool,
}

impl Events {
    /// Whether `key` is held down.
    pub open spec fn held(self, key: Key) -> bool {
        match key {
            Key::Escape => self.key_escape,
            Key::Up => self.key_up,
            Key::Down => self.key_down,
            Key::Left => self.key_left,
            Key::Right => self.key_right,
            Key::Space => self.key_space,
            Key::Enter => self.key_enter,
            Key::Num1 => self.key_1,
            Key::Num2 => self.key_2,
            Key::Num3 => self.key_3,
        }
    }

    /// The same state with `key` held or not.
    pub open spec fn with_held(self, key: Key, value: bool) -> Events {
        match key {
            Key::Escape => Events { key_escape: value, ..self },
            Key::Up => Events { key_up: value, ..self },
            Key::Down => Events { key_down: value, ..self },
            Key::Left => Events { key_left: value, ..self },
            Key::Right => Events { key_right: value, ..self },
            Key::Space => Events { key_space: value, ..self },
            Key::Enter => Events { key_enter: value, ..self },
            Key::Num1 => Events { key_1: value, ..self },
            Key::Num2 => Events { key_2: value, ..self },
            Key::Num3 => Events { key_3: value, ..self },
        }
    }

    /// The state in which no key is held and nothing has happened.
    pub open spec fn spec_new() -> Events {
        Events {
            now: ImmediateEvents::spec_new(),
            key_escape: false,
            key_up: false,
            key_down: false,
            key_left: false,
            key_right: false,
            key_space: false,
            key_enter: false,
            key_1: false,
            key_2: false,
            key_3: false,
        }
    }

    /// The state after `event`. A key going down is recorded as an edge only
    /// if the key was not held already; a key going up always is.
    pub open spec fn after(self, event: Event) -> Events {
        match event {
            Event::Resized(w, h) => Events {
                now: ImmediateEvents { resize: Some((w, h)), ..self.now },
                ..self
            },
            Event::KeyDown(Some(key)) => {
                let now = if self.held(key) {
                    self.now
                } else {
                    self.now.with_edge(key, Some(true))
                };
                (Events { now, ..self }).with_held(key, true)
            },
            Event::KeyUp(Some(key)) => (Events {
                now: self.now.with_edge(key, Some(false)),
                ..self
            }).with_held(key, false),
            Event::Quit => Events { now: ImmediateEvents { quit: true, ..self.now }, ..self },
            _ => self,
        }
    }

    /// The state after the first `n` of `events`, in order.
    pub open spec fn after_first(self, events: Seq<Event>, n: int) -> Events
        decreases n,
    {
        if n <= 0 {
            self
        } else {
            self.after_first(events, n - 1).after(events[n - 1])
        }
    }

    /// The state at the start of a frame: the keys held stay held, the
    /// record of changes is empty.
    pub open spec fn fresh(self) -> Events {
        Events { now: ImmediateEvents::spec_new(), ..self }
    }

    /// The state in which no key is held and nothing has happened.
    pub fn new() -> (res: Events)
        ensures
            res == Self::spec_new(),
    {
        Events {
            now: ImmediateEvents::new(),
            key_escape: false,
            key_up: false,
            key_down: false,
            key_left: false,
            key_right: false,
            key_space: false,
            key_enter: false,
            key_1: false,
            key_2: false,
            key_3: false,
        }
    }

    /// Whether `key` is held down.
    pub fn is_held(&self, key: Key) -> (res: bool)
        ensures
            res == self.held(key),
    {
        match key {
            Key::Escape => self.key_escape,
            Key::Up => self.key_up,
            Key::Down => self.key_down,
            Key::Left => self.key_left,
            Key::Right => self.key_right,
            Key::Space => self.key_space,
            Key::Enter => self.key_enter,
            Key::Num1 => self.key_1,
            Key::Num2 => self.key_2,
            Key::Num3 => self.key_3,
        }
    }

    fn set_held(&mut self, key: Key, value: bool)
        ensures
            *final(self) == old(self).with_held(key, value),
    {
        let current: Events = *self;
        *self = match key {
            Key::Escape => Events { key_escape: value, ..current },
            Key::Up => Events { key_up: value, ..current },
            Key::Down => Events { key_down: value, ..current },
            Key::Left => Events { key_left: value, ..current },
            Key::Right => Events { key_right: value, ..current },
            Key::Space => Events { key_space: value, ..current },
            Key::Enter => Events { key_enter: value, ..current },
            Key::Num1 => Events { key_1: value, ..current },
            Key::Num2 => Events { key_2: value, ..current },
            Key::Num3 => Events { key_3: value, ..current },
        };
    }

    /// Takes one event into the state.
    pub fn apply(&mut self, event: Event)
        ensures
            *final(self) == old(self).after(event),
    {
        match event {
            Event::Resized(w, h) => {
                self.now.resize = Some((w, h));
            },
            Event::KeyDown(Some(key)) => {
                if !self.is_held(key) {
                    self.now.set(key, Some(true));
                }
                self.set_held(key, true);
            },
            Event::KeyUp(Some(key)) => {
                self.now.set(key, Some(false));
                self.set_held(key, false);
            },
            Event::Quit => {
                self.now.quit = true;
            },
            _ => {},
        }
    }

    /// Starts a frame: forgets the changes of the last one, then takes the
    /// events that have arrived since, in order.
    pub fn pump(&mut self, incoming: &Vec<Event>)
        ensures
            *final(self) == old(self).fresh().after_first(incoming@, incoming.len() as int),
    {
        self.now = ImmediateEvents::new();
        let mut i: usize = 0;
        while i < incoming.len()
            invariant
                i <= incoming.len(),
                *self == old(self).fresh().after_first(incoming@, i as int),
            decreases incoming.len() - i,
        {
            self.apply(incoming[i]);
            i += 1;
        }
    }
}

/// A key that goes down while it is up is held afterwards and the frame
/// records the press; while it is held already, the frame records nothing new.
pub proof fn lemma_key_down(events: Events, key: Key)
    ensures
        events.after(Event::KeyDown(Some(key))).held(key),
        !events.held(key) ==> events.after(Event::KeyDown(Some(key))).now.edge(key) == Some(true),
        events.held(key) ==> events.after(Event::KeyDown(Some(key))).now == events.now,
{
}

/// A key that goes up is no longer held, and the frame records the release.
pub proof fn lemma_key_up(events: Events, key: Key)
    ensures
        !events.after(Event::KeyUp(Some(key))).held(key),
        events.after(Event::KeyUp(Some(key))).now.edge(key) == Some(false),
{
}

} // verus!
