//! A stopwatch and ghost-catalog overlay for a horror game, as a verified
//! library: the timer, the key bindings, catalog navigation and the text
//! that the overlay draws.

pub mod stopwatch;
pub mod catalog;
pub mod text;
pub mod controls;
