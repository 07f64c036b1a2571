use arcaders::phi::events::Event;
use arcaders::phi::events::Events;
use arcaders::phi::events::ImmediateEvents;
use arcaders::phi::events::Key;
use arcaders::phi::Phi;

const KEYS: [Key; 10] = [
    Key::Escape,
    Key::Up,
    Key::Down,
    Key::Left,
    Key::Right,
    Key::Space,
    Key::Enter,
    Key::Num1,
    Key::Num2,
    Key::Num3,
];

#[test]
fn nothing_has_happened_at_first() {
    let events = Events::new();
    assert_eq!(events.now, ImmediateEvents::new());
    assert!(!events.now.quit);
    assert_eq!(events.now.resize, None);
    for key in KEYS.iter() {
        assert!(!events.is_held(*key));
        assert_eq!(events.now.get(*key), None);
        assert!(!events.now.pressed(*key));
    }
}

#[test]
fn a_key_going_down_is_held_and_recorded() {
    for key in KEYS.iter() {
        let mut events = Events::new();
        events.apply(Event::KeyDown(Some(*key)));
        assert!(events.is_held(*key));
        assert_eq!(events.now.get(*key), Some(true));
        assert!(events.now.pressed(*key));
        for other in KEYS.iter() {
            if other != key {
                assert!(!events.is_held(*other));
                assert_eq!(events.now.get(*other), None);
            }
        }
    }
}

#[test]
fn each_key_has_its_own_field() {
    let mut events = Events::new();
    events.apply(Event::KeyDown(Some(Key::Space)));
    events.apply(Event::KeyDown(Some(Key::Num2)));
    events.apply(Event::KeyDown(Some(Key::Enter)));
    assert!(events.key_space && events.key_2 && events.key_enter);
    assert!(!events.key_escape && !events.key_up && !events.key_down);
    assert!(!events.key_left && !events.key_right && !events.key_1 && !events.key_3);
    assert_eq!(events.now.key_space, Some(true));
    assert_eq!(events.now.key_2, Some(true));
    assert_eq!(events.now.key_enter, Some(true));
    assert_eq!(events.now.key_1, None);
}

#[test]
fn a_key_kept_down_is_recorded_once() {
    let mut events = Events::new();
    events.pump(&vec![Event::KeyDown(Some(Key::Space))]);
    assert_eq!(events.now.key_space, Some(true));
    events.pump(&vec![Event::KeyDown(Some(Key::Space))]);
    assert!(events.key_space);
    assert_eq!(events.now.key_space, None);
    events.pump(&vec![]);
    assert!(events.key_space);
    assert_eq!(events.now.key_space, None);
}

#[test]
fn a_key_going_up_is_released_and_recorded() {
    let mut events = Events::new();
    events.pump(&vec![Event::KeyDown(Some(Key::Left))]);
    events.pump(&vec![Event::KeyUp(Some(Key::Left))]);
    assert!(!events.key_left);
    assert_eq!(events.now.key_left, Some(false));
    events.pump(&vec![Event::KeyUp(Some(Key::Left))]);
    assert_eq!(events.now.key_left, Some(false));
}

#[test]
fn the_last_edge_of_a_frame_is_the_one_recorded() {
    let mut events = Events::new();
    events.pump(&vec![Event::KeyDown(Some(Key::Up)), Event::KeyUp(Some(Key::Up))]);
    assert!(!events.key_up);
    assert_eq!(events.now.key_up, Some(false));
    events.pump(&vec![
        Event::KeyDown(Some(Key::Up)),
        Event::KeyUp(Some(Key::Up)),
        Event::KeyDown(Some(Key::Up)),
    ]);
    assert!(events.key_up);
    assert_eq!(events.now.key_up, Some(true));
}

#[test]
fn quit_and_resize_are_recorded_for_one_frame() {
    let mut events = Events::new();
    events.pump(&vec![Event::Quit, Event::Resized(640, 480), Event::Resized(320, 240)]);
    assert!(events.now.quit);
    assert_eq!(events.now.resize, Some((320, 240)));
    events.pump(&vec![Event::Other]);
    assert!(!events.now.quit);
    assert_eq!(events.now.resize, None);
}

#[test]
fn other_events_change_nothing() {
    let mut events = Events::new();
    events.apply(Event::KeyDown(Some(Key::Down)));
    let before = events;
    events.apply(Event::Other);
    events.apply(Event::KeyDown(None));
    events.apply(Event::KeyUp(None));
    assert_eq!(events, before);
}

#[test]
fn a_frame_begins_with_the_input_and_the_size_of_the_window() {
    let mut phi = Phi::new((800, 600));
    assert_eq!(phi.events, Events::new());
    assert_eq!(phi.output_size(), (800_000_000, 600_000_000));
    phi.begin_frame(&vec![Event::KeyDown(Some(Key::Right)), Event::Quit], (1024, 768));
    assert!(phi.events.key_right);
    assert_eq!(phi.events.now.key_right, Some(true));
    assert!(phi.events.now.quit);
    assert_eq!(phi.output, (1024, 768));
    assert_eq!(phi.output_size(), (1_024_000_000, 768_000_000));
    phi.begin_frame(&vec![], (1024, 768));
    assert!(phi.events.key_right);
    assert_eq!(phi.events.now, ImmediateEvents::new());
}
