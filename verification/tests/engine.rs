use coremon::app::{App, AppError};
use coremon::color::AccentColor;
use coremon::event::Event;
use coremon::input::{InputSignal, KeyCode, KeyKind, COLOR_KEY, QUIT_KEY};

fn press(c: char) -> Event {
    Event::Input(InputSignal::new(KeyCode::Char(c), KeyKind::Press))
}

fn release(c: char) -> Event {
    Event::Input(InputSignal::new(KeyCode::Char(c), KeyKind::Release))
}

#[test]
fn initial_state_is_default() {
    let app = App::new(4, String::from("TestCPU"));
    assert!(!app.exit);
    assert_eq!(app.accent_color, AccentColor::Cyan);
    assert_eq!(app.latest_metrics, vec![0u64, 0, 0, 0]);
    assert!(!app.metrics_established);
    assert_eq!(app.cpu_brand, "TestCPU");
}

#[test]
fn quit_press_sets_exit() {
    let mut app = App::new(2, String::new());
    assert_eq!(app.handle_event(press(QUIT_KEY)), Ok(()));
    assert!(app.exit);
}

#[test]
fn quit_release_is_a_no_op() {
    let mut app = App::new(2, String::new());
    assert_eq!(app.handle_event(release(QUIT_KEY)), Ok(()));
    assert!(!app.exit);
}

#[test]
fn other_keys_are_no_ops() {
    let mut app = App::new(2, String::new());
    assert_eq!(app.handle_event(press('x')), Ok(()));
    assert_eq!(
        app.handle_event(Event::Input(InputSignal::new(KeyCode::Other, KeyKind::Press))),
        Ok(())
    );
    assert!(!app.exit);
    assert_eq!(app.accent_color, AccentColor::Cyan);
}

#[test]
fn color_press_advances_palette() {
    let mut app = App::new(2, String::new());
    assert_eq!(app.handle_event(press(COLOR_KEY)), Ok(()));
    assert_eq!(app.accent_color, AccentColor::Magenta);
}

#[test]
fn palette_cycles_back_after_full_round() {
    let mut app = App::new(1, String::new());
    for _ in 0..4 {
        assert_eq!(app.handle_event(press(COLOR_KEY)), Ok(()));
    }
    assert_eq!(app.accent_color, AccentColor::Cyan);
}

#[test]
fn progress_replaces_metrics_wholesale() {
    let mut app = App::new(4, String::new());
    assert_eq!(app.handle_event(Event::Progress(vec![1, 2, 3, 4])), Ok(()));
    assert_eq!(app.latest_metrics, vec![1u64, 2, 3, 4]);
    assert!(app.metrics_established);
    assert_eq!(app.handle_event(Event::Progress(vec![5, 6, 7, 8])), Ok(()));
    assert_eq!(app.latest_metrics, vec![5u64, 6, 7, 8]);
}

#[test]
fn first_snapshot_may_differ_from_startup_size() {
    // The zero-filled startup vector is sized to the detected core count,
    // but only the first published snapshot establishes the session length.
    let mut app = App::new(4, String::new());
    assert_eq!(app.handle_event(Event::Progress(vec![10, 20])), Ok(()));
    assert_eq!(app.latest_metrics, vec![10u64, 20]);
}

#[test]
fn scenario_mismatched_snapshot_is_a_reported_fault() {
    // Established length 4, then a snapshot of length 3: a fatal,
    // reportable inconsistency — never a silent truncation.
    let mut app = App::new(4, String::new());
    assert_eq!(app.handle_event(Event::Progress(vec![1, 2, 3, 4])), Ok(()));
    let r = app.handle_event(Event::Progress(vec![1, 2, 3]));
    assert_eq!(r, Err(AppError::MetricLengthMismatch { expected: 4, got: 3 }));
    // the faulty snapshot was not applied
    assert_eq!(app.latest_metrics, vec![1u64, 2, 3, 4]);
}

#[test]
fn scenario_two_color_presses_then_quit() {
    // Input sequence [color, color, quit]: the accent advances twice,
    // exit becomes true on the third event, and exactly 3 renders happen.
    let mut app = App::new(2, String::new());
    let events = vec![press(COLOR_KEY), press(COLOR_KEY), press(QUIT_KEY)];
    assert_eq!(app.run_events(events), Ok(3));
    assert_eq!(app.accent_color, AccentColor::Green);
    assert!(app.exit);
}

#[test]
fn run_without_quit_renders_every_event_and_never_exits() {
    let mut app = App::new(2, String::new());
    let events = vec![
        press(COLOR_KEY),
        release(QUIT_KEY),
        Event::Progress(vec![5, 6]),
        press('z'),
        Event::Progress(vec![7, 8]),
    ];
    assert_eq!(app.run_events(events), Ok(5));
    assert!(!app.exit);
    assert_eq!(app.latest_metrics, vec![7u64, 8]);
}

#[test]
fn run_stops_consuming_after_quit() {
    let mut app = App::new(2, String::new());
    let events = vec![press(QUIT_KEY), press(COLOR_KEY)];
    assert_eq!(app.run_events(events), Ok(1));
    assert!(app.exit);
    // the event after the quit press was never consumed
    assert_eq!(app.accent_color, AccentColor::Cyan);
}

#[test]
fn run_propagates_a_fatal_fault() {
    let mut app = App::new(4, String::new());
    let events = vec![
        Event::Progress(vec![1, 2, 3, 4]),
        Event::Progress(vec![9, 9]),
        press(COLOR_KEY),
    ];
    let r = app.run_events(events);
    assert_eq!(r, Err(AppError::MetricLengthMismatch { expected: 4, got: 2 }));
    // state reflects every event before the fault, and nothing after
    assert_eq!(app.latest_metrics, vec![1u64, 2, 3, 4]);
    assert_eq!(app.accent_color, AccentColor::Cyan);
    assert!(!app.exit);
}

#[test]
fn run_on_exited_state_consumes_nothing() {
    let mut app = App::new(1, String::new());
    assert_eq!(app.handle_event(press(QUIT_KEY)), Ok(()));
    let events = vec![press(COLOR_KEY), Event::Progress(vec![3])];
    assert_eq!(app.run_events(events), Ok(0));
    assert_eq!(app.accent_color, AccentColor::Cyan);
    assert_eq!(app.latest_metrics, vec![0u64]);
}
