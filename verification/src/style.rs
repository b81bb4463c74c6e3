//! Partial styles: every property is either left unset or given a value, and
//! styles compose by laying one over another.

use vstd::prelude::*;

verus! {

/// One property of a style: either left open, or given a value.
#[derive(Debug, PartialEq, Eq)]
pub enum StyleProp<T> {
    /// No value was given.
    Unset,
    /// An explicit value.
    Value(T),
}

/// A length along one axis of the layout.
#[derive(Clone, Copy, Debug, PartialEq, Eq)]
pub enum Units {
    /// Sized by the content.
    Auto,
    /// A number of whole pixels.
    Pixels(i64),
}

/// How a box takes part in the layout of its parent.
#[derive(Clone, Copy, Debug, PartialEq, Eq)]
pub enum PositionType {
    /// Placed by the parent, in the flow of its siblings.
    ParentDirected,
    /// Placed by its own `left` and `top`, out of the flow.
    SelfDirected,
}

/// What a box draws.
#[derive(Clone, Copy, Debug, PartialEq, Eq)]
pub enum RenderCommand {
    /// Nothing, and no layout box either.
    Empty,
    /// Nothing, but the box takes part in the layout.
    Layout,
    /// Nothing, and what lies outside the box is cut off.
    Clip,
    /// A filled rectangle.
    Quad,
}

/// A colour; each channel is given in hundredths of full intensity.
#[derive(Clone, Copy, Debug, PartialEq, Eq)]
pub struct Color {
    pub red: u8,
    pub green: u8,
    pub blue: u8,
    pub alpha: u8,
}

/// The properties of a box that the tooltip widgets read or set.
#[derive(Clone, Copy, Debug, PartialEq, Eq)]
pub struct Style {
    pub background_color: StyleProp<Color>,
    pub color: StyleProp<Color>,
    pub height: StyleProp<Units>,
    pub left: StyleProp<Units>,
    pub position_type: StyleProp<PositionType>,
    pub render_command: StyleProp<RenderCommand>,
    pub top: StyleProp<Units>,
    pub width: StyleProp<Units>,
}

impl<T: Copy> Clone for StyleProp<T> {
    fn clone(&self) -> (r: Self)
        ensures
            r == *self,
    {
        *self
    }
}

impl<T: Copy> Copy for StyleProp<T> {}

impl<T: Copy> StyleProp<T> {
    /// This property with `other` laid over it: an explicit value of `other`
    /// replaces whatever was there, an unset `other` changes nothing.
    pub open spec fn overlaid(self, other: Self) -> Self {
        if other is Value {
            other
        } else {
            self
        }
    }

    /// The first entry of `props` that carries a value; `Unset` when none does.
    pub open spec fn first_set(props: Seq<Self>) -> Self
        decreases props.len(),
    {
        if props.len() == 0 {
            StyleProp::Unset
        } else if props[0] is Value {
            props[0]
        } else {
            Self::first_set(props.skip(1))
        }
    }

    /// Lays `other` over this property.
    pub fn overlay(self, other: Self) -> (r: Self)
        ensures
            r == self.overlaid(other),
    {
        match other {
            StyleProp::Value(_) => other,
            StyleProp::Unset => self,
        }
    }

    /// Picks from a list in priority order the first property that carries a
    /// value.
    pub fn select(props: &[Self]) -> (r: Self)
        ensures
            r == Self::first_set(props@),
    {
        let mut i: usize = 0;
        assert(props@.skip(0) =~= props@);
        while i < props.len()
            invariant
                i <= props.len(),
                Self::first_set(props@) == Self::first_set(props@.skip(i as int)),
            decreases props.len() - i,
        {
            let prop = props[i];
            match prop {
                StyleProp::Value(_) => {
                    return prop;
                },
                StyleProp::Unset => {
                    assert(props@.skip(i as int).skip(1) =~= props@.skip(i + 1));
                },
            }
            i += 1;
        }
        StyleProp::Unset
    }

    /// Among two candidates the first set one is the first if it carries a
    /// value, and the second otherwise.
    pub proof fn first_set_of_two(first: Self, second: Self)
        ensures
            Self::first_set(seq![first, second]) == (if first is Value {
                first
            } else {
                second
            }),
    {
        let both = seq![first, second];
        reveal_with_fuel(StyleProp::first_set, 3);
        assert(both.skip(1)[0] == second);
        assert(both.skip(1).skip(1).len() == 0);
    }

    /// `first_set` returns the entry at `i` exactly when that entry carries a
    /// value and no entry before it does.
    pub proof fn first_set_at(props: Seq<Self>, i: int)
        requires
            0 <= i < props.len(),
            props[i] is Value,
            forall|j: int| 0 <= j < i ==> props[j] is Unset,
        ensures
            Self::first_set(props) == props[i],
        decreases i,
    {
        if i > 0 {
            assert(props[0] is Unset);
            Self::first_set_at(props.skip(1), i - 1);
        }
    }

    /// `first_set` is unset exactly when every entry is.
    pub proof fn first_set_unset(props: Seq<Self>)
        ensures
            Self::first_set(props) is Unset <==> forall|j: int|
                0 <= j < props.len() ==> props[j] is Unset,
        decreases props.len(),
    {
        if props.len() > 0 {
            let rest = props.skip(1);
            Self::first_set_unset(rest);
            if props[0] is Unset {
                if Self::first_set(rest) is Unset {
                    assert forall|j: int| 0 <= j < props.len() implies props[j] is Unset by {
                        if j > 0 {
                            assert(rest[j - 1] == props[j]);
                        }
                    }
                } else {
                    let k = choose|k: int| 0 <= k < rest.len() && !(rest[k] is Unset);
                    assert(props[k + 1] == rest[k]);
                }
            }
        }
    }
}

impl Units {
    /// The length of `value` whole pixels.
    pub open spec fn pixels(value: int) -> Units {
        Units::Pixels(value as i64)
    }
}

impl Color {
    /// White, fully opaque.
    pub open spec fn white() -> Color {
        Color { red: 100, green: 100, blue: 100, alpha: 100 }
    }

    /// A colour from its four channels.
    pub fn new(red: u8, green: u8, blue: u8, alpha: u8) -> (r: Color)
        ensures
            r == (Color { red, green, blue, alpha }),
    {
        Color { red, green, blue, alpha }
    }
}

impl Style {
    /// The style that sets nothing.
    pub open spec fn unset() -> Style {
        Style {
            background_color: StyleProp::Unset,
            color: StyleProp::Unset,
            height: StyleProp::Unset,
            left: StyleProp::Unset,
            position_type: StyleProp::Unset,
            render_command: StyleProp::Unset,
            top: StyleProp::Unset,
            width: StyleProp::Unset,
        }
    }

    /// This style with `other` laid over it, property by property.
    pub open spec fn overlaid(self, other: Style) -> Style {
        Style {
            background_color: self.background_color.overlaid(other.background_color),
            color: self.color.overlaid(other.color),
            height: self.height.overlaid(other.height),
            left: self.left.overlaid(other.left),
            position_type: self.position_type.overlaid(other.position_type),
            render_command: self.render_command.overlaid(other.render_command),
            top: self.top.overlaid(other.top),
            width: self.width.overlaid(other.width),
        }
    }

    /// This style with an optional `other` laid over it; no style changes
    /// nothing.
    pub open spec fn overlaid_with(self, other: Option<Style>) -> Style {
        match other {
            Some(style) => self.overlaid(style),
            None => self,
        }
    }

    /// Lays `other` over this style: each property that `other` sets takes
    /// the value from there, every other property keeps its own.
    pub fn with_style(self, other: Style) -> (r: Style)
        ensures
            r == self.overlaid(other),
    {
        Style {
            background_color: self.background_color.overlay(other.background_color),
            color: self.color.overlay(other.color),
            height: self.height.overlay(other.height),
            left: self.left.overlay(other.left),
            position_type: self.position_type.overlay(other.position_type),
            render_command: self.render_command.overlay(other.render_command),
            top: self.top.overlay(other.top),
            width: self.width.overlay(other.width),
        }
    }

    /// Lays an optional style over this one.
    pub fn with_optional_style(self, other: Option<Style>) -> (r: Style)
        ensures
            r == self.overlaid_with(other),
    {
        match other {
            Some(style) => self.with_style(style),
            None => self,
        }
    }
}

impl Default for Style {
    fn default() -> (r: Style)
        ensures
            r == Style::unset(),
    {
        Style {
            background_color: StyleProp::Unset,
            color: StyleProp::Unset,
            height: StyleProp::Unset,
            left: StyleProp::Unset,
            position_type: StyleProp::Unset,
            render_command: StyleProp::Unset,
            top: StyleProp::Unset,
            width: StyleProp::Unset,
        }
    }
}

} // verus!
