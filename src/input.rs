use vstd::prelude::*;

verus! {

/// The single control input of the ship; exactly one is active at a time.
#[derive(Clone, Copy, Debug, PartialEq, Eq, Structural)]
pub enum Direction {
    Up,
    Left,
    Right,
    Coast,
}

/// The keys the game reacts to; every other key is `Other`.
#[derive(Clone, Copy, Debug, PartialEq, Eq, Structural)]
pub enum Key {
    Left,
    Right,
    Up,
    Escape,
    Other,
}

/// An input event as the host reports it.
#[derive(Clone, Copy, Debug, PartialEq, Eq, Structural)]
pub enum InputEvent {
    /// The window was closed.
    Quit,
    KeyDown { key: Key, repeat: bool },
    KeyUp { key: Key, repeat: bool },
    /// Any event that the game ignores.
    Other,
}

/// What a batch of events leaves behind.
#[derive(Clone, Copy, Debug, PartialEq, Eq, Structural)]
pub enum Control {
    /// Keep running with this direction.
    Continue(Direction),
    /// Leave the main loop.
    Quit,
}

/// The effect of one event on the current direction.
pub open spec fn event_outcome(d: Direction, e: InputEvent) -> Control {
    match e {
        InputEvent::Quit => Control::Quit,
        InputEvent::KeyDown { key: Key::Escape, repeat: _ } => Control::Quit,
        InputEvent::KeyDown { key: Key::Left, repeat: false } => Control::Continue(Direction::Left),
        InputEvent::KeyDown { key: Key::Right, repeat: false } => Control::Continue(Direction::Right),
        InputEvent::KeyDown { key: Key::Up, repeat: false } => Control::Continue(Direction::Up),
        InputEvent::KeyUp { key: Key::Left, repeat: false } => Control::Continue(Direction::Coast),
        InputEvent::KeyUp { key: Key::Right, repeat: false } => Control::Continue(Direction::Coast),
        InputEvent::KeyUp { key: Key::Up, repeat: false } => Control::Continue(Direction::Coast),
        _ => Control::Continue(d),
    }
}

/// The effect of a batch of events taken in arrival order: the last event
/// that sets a direction wins, and a quit ends the batch.
pub open spec fn batch_outcome(d: Direction, events: Seq<InputEvent>) -> Control
    decreases events.len(),
{
    if events.len() == 0 {
        Control::Continue(d)
    } else {
        match event_outcome(d, events[0]) {
            Control::Quit => Control::Quit,
            Control::Continue(next) => batch_outcome(next, events.drop_first()),
        }
    }
}

/// Applies one event to the current direction.
pub fn handle_event(direction: Direction, event: InputEvent) -> (r: Control)
    ensures
        r == event_outcome(direction, event),
{
    match event {
        InputEvent::Quit => Control::Quit,
        InputEvent::KeyDown { key, repeat } => match key {
            Key::Escape => Control::Quit,
            Key::Left if !repeat => Control::Continue(Direction::Left),
            Key::Right if !repeat => Control::Continue(Direction::Right),
            Key::Up if !repeat => Control::Continue(Direction::Up),
            _ => Control::Continue(direction),
        },
        InputEvent::KeyUp { key, repeat } => match key {
            Key::Escape | Key::Other => Control::Continue(direction),
            _ => if repeat {
                Control::Continue(direction)
            } else {
                Control::Continue(Direction::Coast)
            },
        },
        InputEvent::Other => Control::Continue(direction),
    }
}

/// Applies a frame's batch of events in arrival order.
pub fn handle_events(direction: Direction, events: &Vec<InputEvent>) -> (r: Control)
    ensures
        r == batch_outcome(direction, events@),
{
    let mut current: Direction = direction;
    let mut i: usize = 0;
    assert(events@.subrange(0, events@.len() as int) =~= events@);
    while i < events.len()
        invariant
            i <= events.len(),
            batch_outcome(direction, events@) == batch_outcome(current, events@.subrange(
                i as int,
                events@.len() as int,
            )),
        decreases events.len() - i,
    {
        let rest = Ghost(events@.subrange(i as int, events@.len() as int));
        assert(rest@.drop_first() =~= events@.subrange(i + 1, events@.len() as int));
        match handle_event(current, events[i]) {
            Control::Quit => {
                return Control::Quit;
            },
            Control::Continue(next) => {
                current = next;
            },
        }
        i = i + 1;
    }
    assert(events@.subrange(i as int, events@.len() as int).len() == 0);
    Control::Continue(current)
}

} // verus!
