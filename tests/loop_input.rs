use snake_display::color::{unpack, Color565};
use snake_display::input::{direction_for_button, normalize_events, quits, Direction, InputEvent, Key, TickAction};
use snake_display::render::{tick_period_nanos, RenderLoop, SCREEN_HEIGHT, SCREEN_WIDTH};

#[test]
fn button_thirteen_is_up_and_ninety_nine_is_nothing() {
    assert_eq!(normalize_events(&vec![InputEvent::JoyButtonDown(13)]), TickAction::Step(Direction::Up));
    assert_eq!(normalize_events(&vec![InputEvent::JoyButtonDown(99)]), TickAction::Step(Direction::Neutral));
}

#[test]
fn button_map() {
    assert_eq!(direction_for_button(13), Direction::Up);
    assert_eq!(direction_for_button(14), Direction::Down);
    assert_eq!(direction_for_button(15), Direction::Left);
    assert_eq!(direction_for_button(16), Direction::Right);
    assert_eq!(direction_for_button(12), Direction::Neutral);
    assert_eq!(direction_for_button(17), Direction::Neutral);
}

#[test]
fn last_button_wins() {
    let events = vec![
        InputEvent::JoyButtonDown(13),
        InputEvent::JoyButtonDown(15),
        InputEvent::Other,
        InputEvent::KeyDown(Key::Other),
    ];
    assert_eq!(normalize_events(&events), TickAction::Step(Direction::Left));
}

#[test]
fn unmapped_button_last_overrides() {
    let events = vec![InputEvent::JoyButtonDown(16), InputEvent::JoyButtonDown(99)];
    assert_eq!(normalize_events(&events), TickAction::Step(Direction::Neutral));
}

#[test]
fn empty_or_unmapped_cycle_is_neutral() {
    assert_eq!(normalize_events(&vec![]), TickAction::Step(Direction::Neutral));
    let events = vec![InputEvent::Other, InputEvent::KeyDown(Key::Other), InputEvent::JoyButtonDown(0)];
    assert_eq!(normalize_events(&events), TickAction::Step(Direction::Neutral));
}

#[test]
fn quit_anywhere_stops() {
    let events = vec![InputEvent::JoyButtonDown(13), InputEvent::Quit, InputEvent::JoyButtonDown(14)];
    assert_eq!(normalize_events(&events), TickAction::Stop);
    let events = vec![InputEvent::Other, InputEvent::KeyDown(Key::Escape)];
    assert_eq!(normalize_events(&events), TickAction::Stop);
    assert!(quits(&InputEvent::Quit));
    assert!(quits(&InputEvent::KeyDown(Key::Escape)));
    assert!(!quits(&InputEvent::KeyDown(Key::Other)));
    assert!(!quits(&InputEvent::JoyButtonDown(13)));
}

#[test]
fn loop_stops_and_stays_stopped() {
    let mut l = RenderLoop::new(4, 4);
    assert_eq!(l.begin_tick(&vec![InputEvent::JoyButtonDown(14)]), TickAction::Step(Direction::Down));
    assert_eq!(l.begin_tick(&vec![InputEvent::JoyButtonDown(13), InputEvent::Quit]), TickAction::Stop);
    assert_eq!(l.begin_tick(&vec![InputEvent::JoyButtonDown(13)]), TickAction::Stop);
}

#[test]
fn direction_does_not_persist() {
    let mut l = RenderLoop::new(4, 4);
    assert_eq!(l.begin_tick(&vec![InputEvent::JoyButtonDown(13)]), TickAction::Step(Direction::Up));
    assert_eq!(l.begin_tick(&vec![]), TickAction::Step(Direction::Neutral));
    assert_eq!(l.begin_tick(&vec![InputEvent::Other]), TickAction::Step(Direction::Neutral));
}

#[test]
fn new_loop_buffers() {
    let l = RenderLoop::new(SCREEN_WIDTH as usize, SCREEN_HEIGHT as usize);
    assert_eq!(l.pixel_count(), 128 * 128);
    assert_eq!(l.bytes_out().len(), 2 * 128 * 128);
    assert!(l.bytes_out().iter().all(|b| *b == 0));
    assert_eq!(l.stride(), 256);
}

#[test]
fn tick_is_fifty_milliseconds() {
    assert_eq!(tick_period_nanos(), 50_000_000);
}

#[test]
fn loop_renders_cleared_frame_with_one_pixel() {
    let bg = Color565::new(0, 0, 0);
    let c = Color565::new(31, 0, 0);
    let mut l = RenderLoop::new(8, 8);
    assert_eq!(l.begin_tick(&vec![]), TickAction::Step(Direction::Neutral));
    l.set_pixel(3, Color565::new(5, 5, 5));
    l.clear(bg);
    l.set_pixel(10, c);
    l.render();
    let out = l.bytes_out();
    assert_eq!(out.len(), 128);
    assert_eq!((out[20], out[21]), (0x00, 0xF8));
    for i in 0..64 {
        let expected = if i == 10 { c } else { bg };
        assert_eq!(unpack(out[2 * i], out[2 * i + 1]), expected);
    }
}
