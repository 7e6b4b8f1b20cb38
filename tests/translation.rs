use orbital_backend::backend::{Backend, OrbitalBackend};
use orbital_backend::event::{DomainEvent, Key, MouseButton, Point};
use orbital_backend::platform::{map_key, translate_event, ButtonState, InputState, PlatformEvent};

fn button(left: bool, middle: bool, right: bool) -> PlatformEvent {
    PlatformEvent::Button { left, middle, right }
}

fn fresh() -> OrbitalBackend<String, u32> {
    OrbitalBackend::new(String::from("theme"))
}

fn dispatch(b: &mut OrbitalBackend<String, u32>) -> Vec<DomainEvent> {
    b.event_context().event_queue.drain()
}

#[test]
fn left_release_emits_one_mouse_up_at_last_position() {
    let mut b = fresh();
    b.drain_events(vec![PlatformEvent::Mouse { x: 12, y: 34 }, button(true, false, false)]);
    dispatch(&mut b);
    b.drain_events(vec![button(false, false, false)]);
    let out = dispatch(&mut b);
    assert_eq!(
        out,
        vec![DomainEvent::MouseUp { button: MouseButton::Left, position: Point { x: 12, y: 34 } }]
    );
}

#[test]
fn press_then_release_pairs_buttons() {
    for (l, m, r, expected) in [
        (true, false, false, MouseButton::Left),
        (false, true, false, MouseButton::Middle),
        (false, false, true, MouseButton::Right),
        (true, true, true, MouseButton::Left),
        (false, true, true, MouseButton::Middle),
    ] {
        let mut b = fresh();
        b.drain_events(vec![
                button(l, m, r),
                PlatformEvent::Mouse { x: 5, y: 6 },
                button(false, false, false),
            ],
        );
        let out = dispatch(&mut b);
        assert_eq!(
            out,
            vec![
                DomainEvent::MouseDown { button: expected, position: Point { x: 0, y: 0 } },
                DomainEvent::MouseUp { button: expected, position: Point { x: 5, y: 6 } },
            ]
        );
    }
}

#[test]
fn resize_emits_one_window_resize() {
    let mut b = fresh();
    b.drain_events(vec![PlatformEvent::Resize { width: 800, height: 600 }]);
    let out = dispatch(&mut b);
    assert_eq!(out, vec![DomainEvent::WindowResize { width: 800, height: 600 }]);
    assert_eq!(b.layout_context(800, 600).window_size, (800, 600));
}

#[test]
fn quit_appends_one_quit_after_prior_events() {
    let mut b = fresh();
    b.drain_events(vec![PlatformEvent::Resize { width: 1, height: 2 }]);
    b.drain_events(vec![PlatformEvent::Quit]);
    assert_eq!(b.queued().get(0).priority, 0);
    assert_eq!(b.queued().get(1).priority, 0);
    let out = dispatch(&mut b);
    assert_eq!(
        out,
        vec![DomainEvent::WindowResize { width: 1, height: 2 }, DomainEvent::Quit]
    );
    assert_eq!(out.iter().filter(|e| **e == DomainEvent::Quit).count(), 1);
}

#[test]
fn dispatch_sees_only_previous_drain() {
    let mut b = fresh();
    b.drain_events(vec![PlatformEvent::Quit]);
    let first = dispatch(&mut b);
    assert_eq!(first, vec![DomainEvent::Quit]);
    b.drain_events(vec![PlatformEvent::Resize { width: 3, height: 4 }]);
    let second = dispatch(&mut b);
    assert_eq!(second, vec![DomainEvent::WindowResize { width: 3, height: 4 }]);
    let third = dispatch(&mut b);
    assert!(third.is_empty());
}

#[test]
fn mouse_move_updates_position_only() {
    let mut b = fresh();
    b.drain_events(vec![PlatformEvent::Mouse { x: -3, y: 9 }, PlatformEvent::Other]);
    assert_eq!(b.mouse_position(), Point { x: -3, y: 9 });
    assert!(b.queued().is_empty());
}

#[test]
fn keys_map_through_the_table() {
    assert_eq!(map_key(0x0E, 'x'), Key::Backspace);
    assert_eq!(map_key(0x48, '\0'), Key::Up);
    assert_eq!(map_key(0x50, '\0'), Key::Down);
    assert_eq!(map_key(0x4B, '\0'), Key::Left);
    assert_eq!(map_key(0x4D, '\0'), Key::Right);
    assert_eq!(map_key(0x1C, '\n'), Key::Enter);
    assert_eq!(map_key(0x1E, 'a'), Key::Character('a'));
}

#[test]
fn pressed_key_yields_key_up_and_released_key_down() {
    let mut s = InputState::new();
    let pressed = translate_event(&mut s, PlatformEvent::Key { character: 'a', scancode: 0x1E, pressed: true });
    assert_eq!(pressed, Some(DomainEvent::KeyUp { key: Key::Character('a') }));
    let released = translate_event(&mut s, PlatformEvent::Key { character: 'a', scancode: 0x1E, pressed: false });
    assert_eq!(released, Some(DomainEvent::KeyDown { key: Key::Character('a') }));
}

#[test]
fn button_event_records_new_state() {
    let mut s = InputState::new();
    let out = translate_event(&mut s, button(false, false, true));
    assert_eq!(out, Some(DomainEvent::MouseDown { button: MouseButton::Right, position: Point { x: 0, y: 0 } }));
    assert_eq!(s.buttons, ButtonState { left: false, middle: false, right: true });
    let up = translate_event(&mut s, button(false, false, false));
    assert_eq!(up, Some(DomainEvent::MouseUp { button: MouseButton::Right, position: Point { x: 0, y: 0 } }));
    assert_eq!(s.buttons, ButtonState { left: false, middle: false, right: false });
}

#[test]
fn drained_events_get_priority_zero() {
    let mut b = fresh();
    b.drain_events(vec![PlatformEvent::Quit]);
    assert_eq!(b.queued().len(), 1);
    assert_eq!(b.queued().get(0).priority, 0);
    assert_eq!(b.queued().get(0).event, DomainEvent::Quit);
}

#[test]
fn release_pairs_with_last_press_among_others() {
    let mut b = fresh();
    b.drain_events(vec![
        button(false, true, false),
        PlatformEvent::Key { character: 'q', scancode: 0x10, pressed: false },
        button(true, false, false),
        PlatformEvent::Mouse { x: 1, y: 1 },
        button(false, false, false),
    ]);
    let out = dispatch(&mut b);
    assert_eq!(
        out,
        vec![
            DomainEvent::MouseDown { button: MouseButton::Middle, position: Point { x: 0, y: 0 } },
            DomainEvent::KeyDown { key: Key::Character('q') },
            DomainEvent::MouseDown { button: MouseButton::Left, position: Point { x: 0, y: 0 } },
            DomainEvent::MouseUp { button: MouseButton::Left, position: Point { x: 1, y: 1 } },
        ]
    );
}
