use spaceship::{handle_event, handle_events, Control, Direction, InputEvent, Key};

fn down(key: Key) -> InputEvent {
    InputEvent::KeyDown { key, repeat: false }
}

fn up(key: Key) -> InputEvent {
    InputEvent::KeyUp { key, repeat: false }
}

#[test]
fn key_down_sets_direction() {
    assert_eq!(handle_event(Direction::Coast, down(Key::Left)), Control::Continue(Direction::Left));
    assert_eq!(handle_event(Direction::Coast, down(Key::Right)), Control::Continue(Direction::Right));
    assert_eq!(handle_event(Direction::Left, down(Key::Up)), Control::Continue(Direction::Up));
}

#[test]
fn key_up_resets_direction() {
    assert_eq!(handle_event(Direction::Up, up(Key::Up)), Control::Continue(Direction::Coast));
    assert_eq!(handle_event(Direction::Up, up(Key::Left)), Control::Continue(Direction::Coast));
    assert_eq!(handle_event(Direction::Right, up(Key::Right)), Control::Continue(Direction::Coast));
}

#[test]
fn repeated_keys_are_ignored() {
    let ev = InputEvent::KeyDown { key: Key::Left, repeat: true };
    assert_eq!(handle_event(Direction::Up, ev), Control::Continue(Direction::Up));
    let ev = InputEvent::KeyUp { key: Key::Up, repeat: true };
    assert_eq!(handle_event(Direction::Up, ev), Control::Continue(Direction::Up));
}

#[test]
fn quit_and_escape_end_the_loop() {
    assert_eq!(handle_event(Direction::Up, InputEvent::Quit), Control::Quit);
    assert_eq!(handle_event(Direction::Up, down(Key::Escape)), Control::Quit);
    let ev = InputEvent::KeyDown { key: Key::Escape, repeat: true };
    assert_eq!(handle_event(Direction::Coast, ev), Control::Quit);
}

#[test]
fn unlisted_events_are_ignored() {
    assert_eq!(handle_event(Direction::Left, down(Key::Other)), Control::Continue(Direction::Left));
    assert_eq!(handle_event(Direction::Left, up(Key::Escape)), Control::Continue(Direction::Left));
    assert_eq!(handle_event(Direction::Right, InputEvent::Other), Control::Continue(Direction::Right));
}

#[test]
fn last_event_of_a_batch_wins() {
    let events = vec![down(Key::Left), down(Key::Up), up(Key::Up), down(Key::Right)];
    assert_eq!(handle_events(Direction::Coast, &events), Control::Continue(Direction::Right));
    let events = vec![down(Key::Left), up(Key::Left)];
    assert_eq!(handle_events(Direction::Up, &events), Control::Continue(Direction::Coast));
}

#[test]
fn empty_batch_keeps_direction() {
    assert_eq!(handle_events(Direction::Up, &Vec::new()), Control::Continue(Direction::Up));
}

#[test]
fn quit_in_a_batch_stops_it() {
    let events = vec![down(Key::Left), InputEvent::Quit, down(Key::Up)];
    assert_eq!(handle_events(Direction::Coast, &events), Control::Quit);
}
