//! The ghost catalog read from the configuration, and the cursor that
//! walks it.

use vstd::prelude::*;

verus! {

/// One catalog entry.
pub struct GhostInformation {
    pub id: String,
    pub name: String,
    pub speed: String,
    pub features: String,
}

/// The configuration: a format version and the catalog.
pub struct Config {
    pub version: i32,
    pub ghosts: Vec<GhostInformation>,
}

/// Where the cursor stands in a catalog of `count` entries, and whether the
/// entry shown must be drawn again.
pub struct CursorView {
    pub index: usize,
    pub count: usize,
    pub refresh: bool,
}

impl CursorView {
    /// The cursor stands on an entry of a catalog that has one.
    pub open spec fn wf(self) -> bool {
        0 < self.count && self.index < self.count
    }

    /// Moving back: to the entry before, unless on the first one.
    pub open spec fn previous(self) -> CursorView {
        if self.index != 0 {
            CursorView { index: (self.index - 1) as usize, count: self.count, refresh: true }
        } else {
            self
        }
    }

    /// Moving on: to the entry after, unless on the last one.
    pub open spec fn next(self) -> CursorView {
        if self.index != self.count - 1 {
            CursorView { index: (self.index + 1) as usize, count: self.count, refresh: true }
        } else {
            self
        }
    }
}

/// A position in the catalog, with a flag set whenever it moves.
pub struct GhostCursor {
    index: usize,
    count: usize,
    refresh: bool,
}

impl View for GhostCursor {
    type V = CursorView;

    closed spec fn view(&self) -> CursorView {
        CursorView { index: self.index, count: self.count, refresh: self.refresh }
    }
}

impl GhostCursor {
    /// A cursor on the first of `count` entries, to be drawn; none for an
    /// empty catalog.
    pub fn new(count: usize) -> (r: Option<GhostCursor>)
        ensures
            count == 0 <==> r is None,
            r matches Some(c) ==> c@ == (CursorView { index: 0, count, refresh: true }),
    {
        if count == 0 {
            None
        } else {
            Some(GhostCursor { index: 0, count, refresh: true })
        }
    }

    /// The entry the cursor stands on.
    pub fn index(&self) -> (r: usize)
        ensures
            r == self@.index,
    {
        self.index
    }

    /// The number of entries in the catalog.
    pub fn count(&self) -> (r: usize)
        ensures
            r == self@.count,
    {
        self.count
    }

    /// Moves to the entry before, unless on the first one.
    pub fn previous(&mut self)
        requires
            old(self)@.wf(),
        ensures
            final(self)@ == old(self)@.previous(),
            final(self)@.wf(),
    {
        if self.index != 0 {
            self.index = self.index - 1;
            self.refresh = true;
        }
    }

    /// Moves to the entry after, unless on the last one.
    pub fn next(&mut self)
        requires
            old(self)@.wf(),
        ensures
            final(self)@ == old(self)@.next(),
            final(self)@.wf(),
    {
        if self.index != self.count - 1 {
            self.index = self.index + 1;
            self.refresh = true;
        }
    }

    /// Whether the entry must be drawn again; clears the flag.
    pub fn take_refresh(&mut self) -> (r: bool)
        ensures
            r == old(self)@.refresh,
            final(self)@ == (CursorView { refresh: false, ..old(self)@ }),
    {
        let r = self.refresh;
        self.refresh = false;
        r
    }
}

/// Moving on and then back returns to the same entry, unless the cursor
/// stood on the last one; the other way round, unless on the first.
pub proof fn lemma_next_previous_round_trip(c: CursorView)
    requires
        c.wf(),
    ensures
        c.index != c.count - 1 ==> c.next().previous().index == c.index,
        c.index != 0 ==> c.previous().next().index == c.index,
        c.next().wf(),
        c.previous().wf(),
{
}

} // verus!
