//! The pointer and keyboard events that reach a widget.

use vstd::prelude::*;

verus! {

/// The kind of an event.
#[derive(Clone, Copy, Debug, PartialEq, Eq)]
pub enum EventType {
    /// The pointer was pressed and released over the widget.
    Click,
    /// The pointer moved while over the widget.
    Hover,
    /// The pointer came over the widget.
    MouseIn,
    /// The pointer left the widget.
    MouseOut,
    /// A pointer button went down over the widget.
    MouseDown,
    /// A pointer button came up over the widget.
    MouseUp,
    /// The widget received the keyboard focus.
    Focus,
    /// The widget lost the keyboard focus.
    Blur,
}

/// An event as a widget receives it.
#[derive(Clone, Copy, Debug, PartialEq, Eq)]
pub struct Event {
    /// What happened.
    pub event_type: EventType,
    /// Where the pointer was last seen when it happened, in pixels (x, y).
    pub pointer: (i32, i32),
}

impl Event {
    /// An event of the given kind with the pointer last seen at `pointer`.
    pub fn new(event_type: EventType, pointer: (i32, i32)) -> (r: Event)
        ensures
            r == (Event { event_type, pointer }),
    {
        Event { event_type, pointer }
    }
}

} // verus!
