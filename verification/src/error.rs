//! The ways in which a tooltip widget can be set up wrongly.

use vstd::prelude::*;

verus! {

/// Why a widget could not be set up.
#[derive(Clone, Copy, Debug, PartialEq, Eq)]
pub enum TooltipError {
    /// A consumer was set up where no provider stands above it.
    MissingProvider,
    /// The widget named is not part of the tree.
    UnknownWidget,
}

impl TooltipError {
    /// A sentence for the person who put the tree together.
    pub fn message(&self) -> (r: &'static str)
        ensures
            *self == TooltipError::MissingProvider ==> r@
                == "TooltipConsumer requires TooltipProvider as an ancestor"@,
            *self == TooltipError::UnknownWidget ==> r@ == "the widget is not part of the tree"@,
    {
        match self {
            TooltipError::MissingProvider => "TooltipConsumer requires TooltipProvider as an ancestor",
            TooltipError::UnknownWidget => "the widget is not part of the tree",
        }
    }
}

} // verus!
