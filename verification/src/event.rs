//! Pointer events, the cursor and the verdict a widget gives on an event.

use vstd::prelude::*;
use crate::geometry::{Point, Rectangle};

verus! {

/// What became of an event once a widget has looked at it.
#[derive(Clone, Copy, Debug, PartialEq, Eq, Structural)]
pub enum Status {
    /// No widget handled the event.
    Ignored,
    /// A widget handled the event; nobody else should act on it.
    Captured,
}

/// A button of the pointing device.
#[derive(Clone, Copy, Debug, PartialEq, Eq, Structural)]
pub enum Button {
    /// The primary button: the left one on a right-handed mouse.
    Left,
    Right,
    Middle,
    /// Any further button.
    Other,
}

/// An input event, tagged by kind and button.
#[derive(Clone, Copy, Debug, PartialEq, Eq, Structural)]
pub enum Event {
    ButtonPressed(Button),
    ButtonReleased(Button),
    CursorMoved(Point),
    /// Anything that is not a pointer press, release or move.
    Other,
}

/// The pointer as the host reports it.
#[derive(Clone, Copy, Debug, PartialEq, Eq, Structural)]
pub enum Cursor {
    /// The pointer is at this position.
    Available(Point),
    /// The pointer is not over the window, or is held by another layer.
    Unavailable,
}

impl Status {
    /// `Captured` wins over `Ignored`.
    pub open spec fn spec_merge(self, other: Status) -> Status {
        if self == Status::Captured || other == Status::Captured {
            Status::Captured
        } else {
            Status::Ignored
        }
    }

    /// Combines two verdicts on one event.
    #[verifier::when_used_as_spec(spec_merge)]
    pub fn merge(self, other: Status) -> (merged: Status)
        ensures
            merged == self.spec_merge(other),
    {
        match self {
            Status::Ignored => other,
            Status::Captured => Status::Captured,
        }
    }
}

impl Event {
    /// Whether the event is a press of the primary button.
    pub open spec fn spec_is_primary_press(&self) -> bool {
        *self == Event::ButtonPressed(Button::Left)
    }

    #[verifier::when_used_as_spec(spec_is_primary_press)]
    pub fn is_primary_press(&self) -> (primary: bool)
        ensures
            primary == self.spec_is_primary_press(),
    {
        match self {
            Event::ButtonPressed(Button::Left) => true,
            _ => false,
        }
    }
}

impl Cursor {
    /// An unavailable cursor is over nothing; an available one is over the
    /// rectangles that contain its position.
    pub open spec fn spec_is_over(&self, bounds: Rectangle) -> bool {
        match *self {
            Cursor::Available(position) => bounds.spec_contains(position),
            Cursor::Unavailable => false,
        }
    }

    /// Whether the pointer is over `bounds`.
    #[verifier::when_used_as_spec(spec_is_over)]
    pub fn is_over(&self, bounds: Rectangle) -> (over: bool)
        ensures
            over == self.spec_is_over(bounds),
    {
        match self {
            Cursor::Available(position) => bounds.contains(*position),
            Cursor::Unavailable => false,
        }
    }
}

/// Whether any of the verdicts is `Captured`.
pub open spec fn any_captured(statuses: Seq<Status>) -> bool {
    exists|i: int| 0 <= i < statuses.len() && statuses[i] == Status::Captured
}

/// Folds the verdicts of a row of children into one: `Captured` as soon as
/// one child captured the event, `Ignored` otherwise, and so for no children.
pub fn merge_all(statuses: &Vec<Status>) -> (merged: Status)
    ensures
        merged == if any_captured(statuses@) {
            Status::Captured
        } else {
            Status::Ignored
        },
{
    let mut merged = Status::Ignored;
    let mut i: usize = 0;
    while i < statuses.len()
        invariant
            i <= statuses.len(),
            merged == Status::Captured <==> exists|j: int|
                0 <= j < i && statuses@[j] == Status::Captured,
            merged == Status::Captured || merged == Status::Ignored,
        decreases statuses.len() - i,
    {
        merged = merged.merge(statuses[i]);
        i += 1;
    }
    merged
}

} // verus!
