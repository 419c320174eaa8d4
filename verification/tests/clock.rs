use infotube::event::{forward, Event, EventHandler, KeyCode, KeyKind, TerminalEvent};

#[test]
fn first_tick_is_due_at_once() {
    let mut clock = EventHandler::new(100, 5_000);
    assert_eq!(clock.next_tick, 5_000);
    assert_eq!(clock.on_tick(5_000), Some(Event::Tick));
    assert_eq!(clock.last_tick, 5_000);
    assert_eq!(clock.next_tick, 5_100);
}

#[test]
fn clock_does_not_fire_before_its_time() {
    let mut clock = EventHandler::new(100, 0);
    assert_eq!(clock.on_tick(0), Some(Event::Tick));
    let waiting = clock;
    assert_eq!(clock.on_tick(99), None);
    assert_eq!(clock, waiting);
    assert_eq!(clock.on_tick(100), Some(Event::Tick));
    assert_eq!(clock.next_tick, 200);
}

#[test]
fn late_tick_keeps_the_schedule() {
    let mut clock = EventHandler::new(100, 0);
    assert_eq!(clock.on_tick(0), Some(Event::Tick));
    assert_eq!(clock.on_tick(130), Some(Event::Tick));
    assert_eq!(clock.last_tick, 130);
    assert_eq!(clock.next_tick, 200);
}

#[test]
fn new_interval_counts_from_the_last_tick() {
    let mut clock = EventHandler::new(100, 0);
    assert_eq!(clock.on_tick(1_000), Some(Event::Tick));
    clock.set_tick_rate(50, 1_010);
    assert_eq!(clock.tick_rate, 50);
    assert_eq!(clock.last_tick, 1_000);
    assert_eq!(clock.next_tick, 1_050);
    assert_eq!(clock.on_tick(1_049), None);
    assert_eq!(clock.on_tick(1_050), Some(Event::Tick));
}

#[test]
fn new_interval_that_has_passed_fires_now_and_once() {
    let mut clock = EventHandler::new(100, 0);
    assert_eq!(clock.on_tick(1_000), Some(Event::Tick));
    clock.set_tick_rate(50, 1_060);
    assert_eq!(clock.next_tick, 1_060);
    assert_eq!(clock.on_tick(1_060), Some(Event::Tick));
    assert_eq!(clock.on_tick(1_061), None);
    assert_eq!(clock.next_tick, 1_110);
}

#[test]
fn longer_interval_does_not_stall_beyond_both_intervals() {
    let mut clock = EventHandler::new(100, 0);
    assert_eq!(clock.on_tick(1_000), Some(Event::Tick));
    clock.set_tick_rate(110, 1_099);
    assert_eq!(clock.next_tick, 1_110);
    assert!(clock.next_tick - clock.last_tick <= 100 + 110);
}

#[test]
fn times_stop_at_the_largest() {
    let mut clock = EventHandler::new(100, u64::MAX - 10);
    assert_eq!(clock.on_tick(u64::MAX - 10), Some(Event::Tick));
    assert_eq!(clock.next_tick, u64::MAX);
    clock.set_tick_rate(2_000, u64::MAX - 5);
    assert_eq!(clock.next_tick, u64::MAX);
}

#[test]
fn key_presses_and_resizes_are_passed_on() {
    assert_eq!(
        forward(TerminalEvent::Key(KeyCode::Char('q'), KeyKind::Press)),
        Some(Event::Key(KeyCode::Char('q')))
    );
    assert_eq!(
        forward(TerminalEvent::Key(KeyCode::Enter, KeyKind::Press)),
        Some(Event::Key(KeyCode::Enter))
    );
    assert_eq!(forward(TerminalEvent::Resize(80, 24)), Some(Event::Resize(80)));
}

#[test]
fn other_terminal_events_are_dropped() {
    assert_eq!(forward(TerminalEvent::Key(KeyCode::Char('q'), KeyKind::Release)), None);
    assert_eq!(forward(TerminalEvent::Key(KeyCode::Esc, KeyKind::Repeat)), None);
    assert_eq!(forward(TerminalEvent::Other), None);
}

#[test]
fn clock_without_interval_is_always_due() {
    let mut clock = EventHandler::new(0, 7);
    assert_eq!(clock.on_tick(7), Some(Event::Tick));
    assert_eq!(clock.on_tick(7), Some(Event::Tick));
    assert_eq!(clock.next_tick, 7);
    clock.set_tick_rate(0, 9);
    assert_eq!(clock.next_tick, 9);
    assert_eq!(clock.on_tick(8), None);
    assert_eq!(clock.on_tick(9), Some(Event::Tick));
}
