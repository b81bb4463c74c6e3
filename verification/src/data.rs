//! The state of the one tooltip that a provider shares with the consumers
//! below it, and the three ways in which a consumer changes it.

use vstd::prelude::*;

verus! {

/// A point or an extent in whole pixels, as the mathematical pair.
pub type Pair = (int, int);

/// The state shared between a provider and its consumers.
#[derive(Debug, PartialEq, Eq)]
pub struct TooltipData {
    /// Where the tooltip is anchored, in pixels (x, y).
    pub anchor: (i32, i32),
    /// The size of the tooltip in pixels (width, height); `None` asks for
    /// the default size.
    pub size: Option<(i32, i32)>,
    /// The text on display.
    pub text: String,
    /// Whether the tooltip is shown.
    pub visible: bool,
}

/// What a `TooltipData` stands for.
pub struct TooltipState {
    pub anchor: Pair,
    pub size: Option<Pair>,
    pub text: Seq<char>,
    pub visible: bool,
}

/// The mathematical pair behind a pair of pixel values.
pub open spec fn pair(p: (i32, i32)) -> Pair {
    (p.0 as int, p.1 as int)
}

/// The mathematical pair behind an optional pair of pixel values.
pub open spec fn optional_pair(p: Option<(i32, i32)>) -> Option<Pair> {
    match p {
        Some(v) => Some(pair(v)),
        None => None,
    }
}

/// What an optional `TooltipData` stands for.
pub open spec fn optional_state(data: Option<TooltipData>) -> Option<TooltipState> {
    match data {
        Some(d) => Some(d@),
        None => None,
    }
}

impl TooltipState {
    /// The state before any consumer has written: anchored at the origin,
    /// default size, no text, hidden.
    pub open spec fn initial() -> TooltipState {
        TooltipState { anchor: (0, 0), size: None, text: Seq::empty(), visible: false }
    }

    /// The pointer came over a consumer with the given text and size: that
    /// consumer claims the tooltip, whoever held it.
    pub open spec fn entered(self, text: Seq<char>, size: Option<Pair>) -> TooltipState {
        TooltipState { visible: true, text, size, ..self }
    }

    /// The pointer moved over a consumer: the tooltip goes to the consumer's
    /// fixed anchor if it has one, else to the pointer.
    pub open spec fn hovered(self, fixed: Option<Pair>, pointer: Pair) -> TooltipState {
        TooltipState {
            anchor: match fixed {
                Some(anchor) => anchor,
                None => pointer,
            },
            ..self
        }
    }

    /// The pointer left a consumer with the given text: the tooltip is shown
    /// afterwards exactly if its text is not that consumer's, so a consumer
    /// hides only what it claimed itself.
    pub open spec fn left(self, text: Seq<char>) -> TooltipState {
        TooltipState { visible: self.text != text, ..self }
    }
}

impl View for TooltipData {
    type V = TooltipState;

    open spec fn view(&self) -> TooltipState {
        TooltipState {
            anchor: pair(self.anchor),
            size: optional_pair(self.size),
            text: self.text@,
            visible: self.visible,
        }
    }
}

impl Default for TooltipData {
    fn default() -> (r: TooltipData)
        ensures
            r@ == TooltipState::initial(),
    {
        TooltipData { anchor: (0, 0), size: None, text: String::new(), visible: false }
    }
}

impl Clone for TooltipData {
    fn clone(&self) -> (r: TooltipData)
        ensures
            r@ == self@,
    {
        TooltipData {
            anchor: self.anchor,
            size: self.size,
            text: self.text.clone(),
            visible: self.visible,
        }
    }
}

} // verus!
