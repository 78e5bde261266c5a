//! The key bindings and the state that the keys drive: the stopwatch, the
//! catalog cursor and the request to close the overlay.

use vstd::prelude::*;
use crate::catalog::{CursorView, GhostCursor};
use crate::stopwatch::{StopWatch, WatchView};
use crate::text::{timer_spec, timer_text};

verus! {

/// The keys the overlay listens to.
#[derive(Clone, Copy, Debug, PartialEq, Eq, Structural)]
pub enum Key {
    Num0,
    Num1,
    Num2,
    Num3,
    KeyZ,
    KeyX,
    Other,
}

/// What a key asks for.
#[derive(Clone, Copy, Debug, PartialEq, Eq, Structural)]
pub enum Command {
    Start,
    Stop,
    Reset,
    Quit,
    Previous,
    Next,
}

/// The key bindings: 1 starts, 2 stops, 3 resets, 0 quits, Z and X move
/// back and on in the catalog; other keys do nothing.
pub open spec fn binding(key: Key) -> Option<Command> {
    match key {
        Key::Num1 => Some(Command::Start),
        Key::Num2 => Some(Command::Stop),
        Key::Num3 => Some(Command::Reset),
        Key::Num0 => Some(Command::Quit),
        Key::KeyZ => Some(Command::Previous),
        Key::KeyX => Some(Command::Next),
        Key::Other => None,
    }
}

/// The command bound to `key`, if any.
pub fn command_of(key: Key) -> (r: Option<Command>)
    ensures
        r == binding(key),
{
    match key {
        Key::Num1 => Some(Command::Start),
        Key::Num2 => Some(Command::Stop),
        Key::Num3 => Some(Command::Reset),
        Key::Num0 => Some(Command::Quit),
        Key::KeyZ => Some(Command::Previous),
        Key::KeyX => Some(Command::Next),
        Key::Other => None,
    }
}

/// What the stopwatch becomes under `cmd` at clock reading `now`.
pub open spec fn watch_step(w: WatchView, cmd: Command, now: u64) -> WatchView {
    match cmd {
        Command::Start => w.start_at(now),
        Command::Stop => w.stop_at(now),
        Command::Reset => w.reset_at(now),
        _ => w,
    }
}

/// What the catalog cursor becomes under `cmd`.
pub open spec fn cursor_step(c: CursorView, cmd: Command) -> CursorView {
    match cmd {
        Command::Previous => c.previous(),
        Command::Next => c.next(),
        _ => c,
    }
}

/// What the stopwatch becomes when `key` is pressed at clock reading `now`.
pub open spec fn key_watch_step(w: WatchView, key: Key, now: u64) -> WatchView {
    match binding(key) {
        Some(cmd) => watch_step(w, cmd, now),
        None => w,
    }
}

/// What the catalog cursor becomes when `key` is pressed.
pub open spec fn key_cursor_step(c: CursorView, key: Key) -> CursorView {
    match binding(key) {
        Some(cmd) => cursor_step(c, cmd),
        None => c,
    }
}

/// The state the overlay draws from.
pub struct Overlay {
    pub stopwatch: StopWatch,
    pub cursor: GhostCursor,
    pub should_close: bool,
}

impl Overlay {
    /// A stopped stopwatch at zero and a cursor on the first of
    /// `ghost_count` entries; none for an empty catalog.
    pub fn new(ghost_count: usize) -> (r: Option<Overlay>)
        ensures
            ghost_count == 0 <==> r is None,
            r matches Some(o) ==> {
                &&& o.stopwatch@ == (WatchView { elapsed: 0, running: false, started: 0 })
                &&& o.cursor@ == (CursorView { index: 0, count: ghost_count, refresh: true })
                &&& !o.should_close
            },
    {
        match GhostCursor::new(ghost_count) {
            Some(cursor) => Some(Overlay { stopwatch: StopWatch::new(), cursor, should_close: false }),
            None => None,
        }
    }

    /// Carries out `cmd` at clock reading `now`.
    pub fn apply_at(&mut self, cmd: Command, now: u64)
        requires
            old(self).cursor@.wf(),
        ensures
            final(self).stopwatch@ == watch_step(old(self).stopwatch@, cmd, now),
            final(self).cursor@ == cursor_step(old(self).cursor@, cmd),
            final(self).should_close == (old(self).should_close || cmd == Command::Quit),
            final(self).cursor@.wf(),
    {
        match cmd {
            Command::Start => self.stopwatch.start_at(now),
            Command::Stop => self.stopwatch.stop_at(now),
            Command::Reset => self.stopwatch.reset_at(now),
            Command::Quit => self.should_close = true,
            Command::Previous => self.cursor.previous(),
            Command::Next => self.cursor.next(),
        }
    }

    /// Handles a key press at clock reading `now`: the bound command, if
    /// any, is carried out; other keys change nothing.
    pub fn handle_key_at(&mut self, key: Key, now: u64)
        requires
            old(self).cursor@.wf(),
        ensures
            final(self).stopwatch@ == key_watch_step(old(self).stopwatch@, key, now),
            final(self).cursor@ == key_cursor_step(old(self).cursor@, key),
            final(self).should_close == (old(self).should_close || key == Key::Num0),
            final(self).cursor@.wf(),
    {
        match command_of(key) {
            Some(cmd) => self.apply_at(cmd, now),
            None => {},
        }
    }

    /// Handles a key press now.
    pub fn handle_key(&mut self, key: Key)
        requires
            old(self).cursor@.wf(),
        ensures
            final(self).cursor@.wf(),
            exists|now: u64| final(self).stopwatch@ == #[trigger] key_watch_step(old(self).stopwatch@, key, now),
            final(self).cursor@ == key_cursor_step(old(self).cursor@, key),
            final(self).should_close == (old(self).should_close || key == Key::Num0),
    {
        let now = self.stopwatch.now();
        self.handle_key_at(key, now);
        assert(self.stopwatch@ == key_watch_step(old(self).stopwatch@, key, now));
    }

    /// The timer text at clock reading `now`: whole seconds measured, as
    /// minutes and seconds.
    pub fn timer_text_at(&self, now: u64) -> (r: String)
        ensures
            r@ == timer_spec((self.stopwatch@.elapsed_at(now) / 1_000_000_000) as nat),
    {
        timer_text(self.stopwatch.elapsed_at(now) / 1_000_000_000)
    }

    /// Whether the first tip is highlighted: while the stopwatch runs.
    pub fn highlight_start(&self) -> (r: bool)
        ensures
            r == self.stopwatch@.running,
    {
        self.stopwatch.is_running()
    }
}

} // verus!
