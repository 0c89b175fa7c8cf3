use vstd::prelude::*;

verus! {

/// The one steering decision of a tick.
#[derive(Clone, Copy, Debug, PartialEq, Eq, Structural)]
pub enum Direction {
    /// No steering input this tick.
    Neutral,
    Up,
    Down,
    Left,
    Right,
}

/// The keys that the loop tells apart.
#[derive(Clone, Copy, Debug, PartialEq, Eq, Structural)]
pub enum Key {
    Escape,
    Other,
}

/// One raw event from the input devices, as far as the loop reads it.
#[derive(Clone, Copy, Debug, PartialEq, Eq, Structural)]
pub enum InputEvent {
    /// The window was closed.
    Quit,
    KeyDown(Key),
    /// A joystick button went down; the index is the button's number.
    JoyButtonDown(u8),
    Other,
}

/// What a tick does after its events are drained: stop the loop, or step the
/// simulation with a direction.
#[derive(Clone, Copy, Debug, PartialEq, Eq, Structural)]
pub enum TickAction {
    Stop,
    Step(Direction),
}

/// The direction that a joystick button stands for: buttons 13 to 16 steer, any other
/// button steers nowhere.
pub open spec fn button_direction(idx: u8) -> Direction {
    if idx == 13 {
        Direction::Up
    } else if idx == 14 {
        Direction::Down
    } else if idx == 15 {
        Direction::Left
    } else if idx == 16 {
        Direction::Right
    } else {
        Direction::Neutral
    }
}

/// A quit request: the window closed, or Escape pressed.
pub open spec fn is_quit(e: InputEvent) -> bool {
    e == InputEvent::Quit || e == InputEvent::KeyDown(Key::Escape)
}

/// A joystick button press, mapped or not.
pub open spec fn is_button(e: InputEvent) -> bool {
    e is JoyButtonDown
}

/// The direction of the last button event of `events`, or `Neutral` where there is none.
pub open spec fn last_direction(events: Seq<InputEvent>) -> Direction
    decreases events.len(),
{
    if events.len() == 0 {
        Direction::Neutral
    } else {
        match events.last() {
            InputEvent::JoyButtonDown(idx) => button_direction(idx),
            _ => last_direction(events.drop_last()),
        }
    }
}

/// The outcome of draining `events`: a stop if any of them asks to quit, else a step
/// in the last direction given.
pub open spec fn tick_command(events: Seq<InputEvent>) -> TickAction {
    if exists|i: int| 0 <= i < events.len() && is_quit(#[trigger] events[i]) {
        TickAction::Stop
    } else {
        TickAction::Step(last_direction(events))
    }
}

/// Maps a joystick button to its direction.
pub fn direction_for_button(idx: u8) -> (d: Direction)
    ensures
        d == button_direction(idx),
{
    match idx {
        13 => Direction::Up,
        14 => Direction::Down,
        15 => Direction::Left,
        16 => Direction::Right,
        _ => Direction::Neutral,
    }
}

/// Whether `e` asks the loop to end.
pub fn quits(e: &InputEvent) -> (q: bool)
    ensures
        q == is_quit(*e),
{
    match e {
        InputEvent::Quit => true,
        InputEvent::KeyDown(Key::Escape) => true,
        _ => false,
    }
}

/// Folds the events of one poll cycle, in arrival order, into the tick's action. The
/// direction starts at `None` and each button event overwrites it; a quit ends the fold.
pub fn normalize_events(events: &Vec<InputEvent>) -> (a: TickAction)
    ensures
        a == tick_command(events@),
{
    let mut direction = Direction::Neutral;
    let mut i: usize = 0;
    while i < events.len()
        invariant
            i <= events@.len(),
            direction == last_direction(events@.subrange(0, i as int)),
            forall|j: int| 0 <= j < i ==> !is_quit(#[trigger] events@[j]),
        decreases events@.len() - i,
    {
        let e = events[i];
        if quits(&e) {
            return TickAction::Stop;
        }
        if let InputEvent::JoyButtonDown(idx) = e {
            direction = direction_for_button(idx);
        }
        assert(events@.subrange(0, i + 1).drop_last() =~= events@.subrange(0, i as int));
        i = i + 1;
    }
    assert(events@.subrange(0, events@.len() as int) =~= events@);
    TickAction::Step(direction)
}

/// Of the events of one cycle, the last button event decides the direction, whatever
/// came before it.
pub proof fn lemma_last_button_wins(events: Seq<InputEvent>, k: int, idx: u8)
    requires
        0 <= k < events.len(),
        events[k] == InputEvent::JoyButtonDown(idx),
        forall|j: int| k < j < events.len() ==> !is_button(#[trigger] events[j]),
    ensures
        last_direction(events) == button_direction(idx),
    decreases events.len(),
{
    if k < events.len() - 1 {
        let rest = events.drop_last();
        assert forall|j: int| k < j < rest.len() implies !is_button(#[trigger] rest[j]) by {
            assert(rest[j] == events[j]);
        }
        assert(!is_button(events[events.len() - 1]));
        lemma_last_button_wins(rest, k, idx);
    }
}

/// A cycle without button events steers nowhere.
pub proof fn lemma_no_button_no_direction(events: Seq<InputEvent>)
    requires
        forall|j: int| 0 <= j < events.len() ==> !is_button(#[trigger] events[j]),
    ensures
        last_direction(events) == Direction::Neutral,
    decreases events.len(),
{
    if events.len() > 0 {
        let rest = events.drop_last();
        assert forall|j: int| 0 <= j < rest.len() implies !is_button(#[trigger] rest[j]) by {
            assert(rest[j] == events[j]);
        }
        assert(!is_button(events[events.len() - 1]));
        lemma_no_button_no_direction(rest);
    }
}

/// A quit request anywhere among the events stops the tick.
pub proof fn lemma_quit_anywhere_stops(events: Seq<InputEvent>, k: int)
    requires
        0 <= k < events.len(),
        is_quit(events[k]),
    ensures
        tick_command(events) == TickAction::Stop,
{
    assert(is_quit(events[k]));
}

} // verus!
