//! The conditions under which the watcher cannot go on.

use vstd::prelude::*;

verus! {

/// Why an operation of the watcher stopped. None of these can be retried.
#[derive(Clone, Copy, Debug, PartialEq, Eq, Structural)]
pub enum XError {
    /// The client library of the windowing system could not be loaded.
    LibraryUnavailable,
    /// The library was loaded, but no display could be opened.
    DisplayUnavailable,
    /// An atom name was empty or held a NUL character.
    InvalidName,
    /// A property that must hold exactly one item held `count` of them.
    ItemCount { count: usize },
    /// An event of a class that was never subscribed to came off the queue.
    UnexpectedEvent { type_: i32 },
}

impl XError {
    /// The text that goes with each condition.
    pub open spec fn text(self) -> Seq<char> {
        match self {
            XError::LibraryUnavailable => "Unable to open Xlib!"@,
            XError::DisplayUnavailable => "Unable to open display"@,
            XError::InvalidName => "Atom name is empty or holds a NUL character"@,
            XError::ItemCount { .. } => "There was a problem reading a desktop property"@,
            XError::UnexpectedEvent { .. } => "Received an event that was not subscribed to"@,
        }
    }

    /// A short description, fit for a log line or a panic message.
    pub fn message(&self) -> (m: &'static str)
        ensures
            m@ == self.text(),
    {
        match self {
            XError::LibraryUnavailable => "Unable to open Xlib!",
            XError::DisplayUnavailable => "Unable to open display",
            XError::InvalidName => "Atom name is empty or holds a NUL character",
            XError::ItemCount { .. } => "There was a problem reading a desktop property",
            XError::UnexpectedEvent { .. } => "Received an event that was not subscribed to",
        }
    }
}

} // verus!
