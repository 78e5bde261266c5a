use phasutils::catalog::GhostCursor;
use phasutils::controls::{command_of, Command, Key, Overlay};

#[test]
fn key_bindings() {
    assert_eq!(command_of(Key::Num1), Some(Command::Start));
    assert_eq!(command_of(Key::Num2), Some(Command::Stop));
    assert_eq!(command_of(Key::Num3), Some(Command::Reset));
    assert_eq!(command_of(Key::Num0), Some(Command::Quit));
    assert_eq!(command_of(Key::KeyZ), Some(Command::Previous));
    assert_eq!(command_of(Key::KeyX), Some(Command::Next));
    assert_eq!(command_of(Key::Other), None);
}

#[test]
fn empty_catalog_has_no_cursor() {
    assert!(GhostCursor::new(0).is_none());
    assert!(Overlay::new(0).is_none());
}

#[test]
fn cursor_stays_within_the_catalog() {
    let mut c = GhostCursor::new(3).unwrap();
    assert_eq!(c.index(), 0);
    assert_eq!(c.count(), 3);
    assert!(c.take_refresh());
    assert!(!c.take_refresh());
    c.previous();
    assert_eq!(c.index(), 0);
    assert!(!c.take_refresh());
    c.next();
    c.next();
    assert_eq!(c.index(), 2);
    assert!(c.take_refresh());
    c.next();
    assert_eq!(c.index(), 2);
    assert!(!c.take_refresh());
    c.previous();
    assert_eq!(c.index(), 1);
    assert!(c.take_refresh());
}

#[test]
fn single_entry_catalog_never_moves() {
    let mut c = GhostCursor::new(1).unwrap();
    assert!(c.take_refresh());
    c.next();
    c.previous();
    assert_eq!(c.index(), 0);
    assert!(!c.take_refresh());
}

#[test]
fn keys_drive_the_stopwatch() {
    let mut o = Overlay::new(2).unwrap();
    o.handle_key_at(Key::Num1, 1_000_000_000);
    assert!(o.highlight_start());
    o.handle_key_at(Key::Num3, 2_000_000_000);
    assert!(o.stopwatch.is_running());
    o.handle_key_at(Key::Num2, 126_500_000_000);
    assert!(!o.highlight_start());
    assert_eq!(o.timer_text_at(200_000_000_000), "02:05");
    o.handle_key_at(Key::Num3, 300_000_000_000);
    assert_eq!(o.timer_text_at(400_000_000_000), "00:00");
    assert!(!o.should_close);
}

#[test]
fn keys_drive_the_cursor_and_quit() {
    let mut o = Overlay::new(2).unwrap();
    assert!(o.cursor.take_refresh());
    o.handle_key_at(Key::KeyX, 0);
    assert_eq!(o.cursor.index(), 1);
    o.handle_key_at(Key::KeyX, 0);
    assert_eq!(o.cursor.index(), 1);
    o.handle_key_at(Key::KeyZ, 0);
    assert_eq!(o.cursor.index(), 0);
    assert!(o.cursor.take_refresh());
    o.handle_key_at(Key::Other, 0);
    assert!(!o.should_close);
    assert!(!o.cursor.take_refresh());
    o.handle_key(Key::Num0);
    assert!(o.should_close);
}

#[test]
fn other_keys_change_nothing() {
    let mut o = Overlay::new(3).unwrap();
    o.handle_key_at(Key::Num1, 10);
    o.handle_key_at(Key::Other, 20);
    assert!(o.stopwatch.is_running());
    assert_eq!(o.stopwatch.elapsed_at(30), 20);
    assert_eq!(o.cursor.index(), 0);
}

#[test]
fn apply_runs_each_command() {
    let mut o = Overlay::new(2).unwrap();
    o.apply_at(Command::Start, 0);
    o.apply_at(Command::Stop, 61_000_000_000);
    assert_eq!(o.timer_text_at(0), "01:01");
    o.apply_at(Command::Reset, 0);
    assert_eq!(o.stopwatch.elapsed_at(0), 0);
    o.apply_at(Command::Next, 0);
    assert_eq!(o.cursor.index(), 1);
    o.apply_at(Command::Previous, 0);
    assert_eq!(o.cursor.index(), 0);
    o.apply_at(Command::Quit, 0);
    assert!(o.should_close);
}

#[test]
fn next_then_previous_returns() {
    let mut c = GhostCursor::new(4).unwrap();
    c.next();
    c.next();
    c.previous();
    assert_eq!(c.index(), 1);
    c.previous();
    c.next();
    assert_eq!(c.index(), 1);
}
