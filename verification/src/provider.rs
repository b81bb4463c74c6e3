//! The provider: it shares one tooltip state with the widgets below it and
//! draws the tooltip over them when a consumer has asked for it.

use crate::context::TooltipContext;
use crate::data::{pair, Pair, TooltipData, TooltipState};
use crate::error::TooltipError;
use crate::style::{Color, PositionType, Style, StyleProp, Units};
use vstd::prelude::*;

verus! {

/// The width of a tooltip for which no size was asked, in pixels.
pub const DEFAULT_WIDTH: i32 = 150;

/// The height of a tooltip for which no size was asked, in pixels.
pub const DEFAULT_HEIGHT: i32 = 18;

/// The gap between the anchor and a tooltip to its right, in pixels.
pub const PADDING_X: i32 = 10;

/// The gap between the anchor and a tooltip below it, in pixels.
pub const PADDING_Y: i32 = 5;

/// The size of the tooltip's text, in pixels.
pub const FONT_SIZE: u32 = 12;

/// How a provider is configured.
#[derive(Clone, Copy, Debug, PartialEq, Eq)]
pub struct TooltipProviderProps {
    /// The position of the containing rectangle, in pixels (x, y).
    pub position: (i32, i32),
    /// The size of the containing rectangle, in pixels (width, height); the
    /// tooltip is laid out against it.
    pub size: (i32, i32),
    /// Styles for the containing rectangle. Its background colour and text
    /// colour go to the tooltip.
    pub styles: Option<Style>,
}

/// The tooltip as it is drawn: a filled box that cuts off what lies outside
/// it, with one line of text inside.
#[derive(Debug, PartialEq, Eq)]
pub struct TooltipOverlay {
    /// The styles of the box.
    pub styles: Style,
    /// The text inside the box.
    pub text: String,
    /// The size of the text, in pixels.
    pub font_size: u32,
    /// The styles of the text.
    pub text_styles: Style,
}

/// What a provider draws besides its children.
#[derive(Debug, PartialEq, Eq)]
pub struct ProviderWidget {
    /// The styles of the containing rectangle.
    pub styles: Style,
    /// The tooltip, present while it is visible.
    pub overlay: Option<TooltipOverlay>,
}

/// What a `TooltipOverlay` stands for.
pub struct OverlayModel {
    pub styles: Style,
    pub text: Seq<char>,
    pub font_size: int,
    pub text_styles: Style,
}

/// What a `ProviderWidget` stands for.
pub struct ProviderModel {
    pub styles: Style,
    pub overlay: Option<OverlayModel>,
}

/// The background of a tooltip where the provider's styles give none: dark
/// and slightly translucent.
pub open spec fn default_background() -> Color {
    Color { red: 13, green: 15, blue: 17, alpha: 85 }
}

/// The size at which the tooltip is drawn: the size that was asked for, or
/// the default.
pub open spec fn tooltip_size(asked: Option<Pair>) -> Pair {
    match asked {
        Some(size) => size,
        None => (DEFAULT_WIDTH as int, DEFAULT_HEIGHT as int),
    }
}

/// Whether `anchor` lies in the near half of a rectangle of the given
/// extent, that is, strictly before its midpoint. The midpoint is taken
/// exactly: for an odd extent it lies between two pixels.
pub open spec fn in_near_half(anchor: int, extent: int) -> bool {
    2 * anchor < extent
}

/// Where the near edge of the tooltip goes along one axis. With the anchor
/// in the near half the tooltip starts `padding` after the anchor; otherwise
/// it starts its own `length` before the anchor, so that it ends there.
pub open spec fn placed(anchor: int, extent: int, length: int, padding: int) -> int {
    if in_near_half(anchor, extent) {
        anchor + padding
    } else {
        anchor - length
    }
}

/// The explicit length of `value` pixels as a style property.
pub open spec fn pixels(value: int) -> StyleProp<Units> {
    StyleProp::Value(Units::Pixels(value as i64))
}

/// The styles of the provider's rectangle: it has the provider's size
/// whatever the caller asked for, and sits at the provider's position unless
/// the caller placed it elsewhere.
pub open spec fn container_styles(props: TooltipProviderProps) -> Style {
    let caller = Style::unset().overlaid_with(props.styles);
    Style {
        left: pixels(props.position.0 as int).overlaid(caller.left),
        top: pixels(props.position.1 as int).overlaid(caller.top),
        width: pixels(props.size.0 as int),
        height: pixels(props.size.1 as int),
        ..caller
    }
}

/// The styles of the tooltip's box for a provider of extent `size` with
/// the styles `base`, when the shared state is `state`.
pub open spec fn overlay_styles(size: Pair, base: Style, state: TooltipState) -> Style {
    let drawn = tooltip_size(state.size);
    Style {
        position_type: StyleProp::Value(PositionType::SelfDirected),
        background_color: if base.background_color is Value {
            base.background_color
        } else {
            StyleProp::Value(default_background())
        },
        width: pixels(drawn.0),
        height: pixels(drawn.1),
        left: pixels(placed(state.anchor.0, size.0, drawn.0, PADDING_X as int)),
        top: pixels(placed(state.anchor.1, size.1, drawn.1, PADDING_Y as int)),
        ..Style::unset()
    }
}

/// The styles of the tooltip's text.
pub open spec fn text_styles(base: Style, state: TooltipState) -> Style {
    let drawn = tooltip_size(state.size);
    Style {
        width: pixels(drawn.0),
        height: pixels(drawn.1),
        color: if base.color is Value {
            base.color
        } else {
            StyleProp::Value(Color::white())
        },
        ..Style::unset()
    }
}

/// What a provider configured by `props` draws when the shared state is
/// `state`: its rectangle always, and the tooltip exactly while the state is
/// visible.
pub open spec fn rendered(props: TooltipProviderProps, state: TooltipState) -> ProviderModel {
    let base = container_styles(props);
    ProviderModel {
        styles: base,
        overlay: if state.visible {
            Some(
                OverlayModel {
                    styles: overlay_styles(pair(props.size), base, state),
                    text: state.text,
                    font_size: FONT_SIZE as int,
                    text_styles: text_styles(base, state),
                },
            )
        } else {
            None
        },
    }
}

/// The near half can be told by halving the extent, if the half is rounded
/// up: for an odd extent the pixel just before the midpoint still belongs
/// to the near half.
pub proof fn near_half_by_halving(anchor: int, extent: int)
    ensures
        in_near_half(anchor, extent) <==> anchor < (extent + 1) / 2,
{
}

/// Whatever 32-bit values go in, the place of the tooltip fits in 33 bits,
/// so that it is kept exactly as a length in pixels.
pub proof fn placed_fits(anchor: i32, extent: i32, length: i32, padding: i32)
    ensures
        -0x1_0000_0000 <= placed(anchor as int, extent as int, length as int, padding as int)
            < 0x1_0000_0000,
        pixels(placed(anchor as int, extent as int, length as int, padding as int))
            matches StyleProp::Value(Units::Pixels(v)) && v == placed(
            anchor as int,
            extent as int,
            length as int,
            padding as int,
        ),
{
}

impl View for TooltipOverlay {
    type V = OverlayModel;

    open spec fn view(&self) -> OverlayModel {
        OverlayModel {
            styles: self.styles,
            text: self.text@,
            font_size: self.font_size as int,
            text_styles: self.text_styles,
        }
    }
}

impl View for ProviderWidget {
    type V = ProviderModel;

    open spec fn view(&self) -> ProviderModel {
        ProviderModel {
            styles: self.styles,
            overlay: match self.overlay {
                Some(overlay) => Some(overlay@),
                None => None,
            },
        }
    }
}

impl Default for TooltipProviderProps {
    fn default() -> (r: TooltipProviderProps)
        ensures
            r == (TooltipProviderProps { position: (0, 0), size: (0, 0), styles: None }),
    {
        TooltipProviderProps { position: (0, 0), size: (0, 0), styles: None }
    }
}

/// Computes where the near edge of the tooltip goes along one axis.
pub fn place(anchor: i32, extent: i32, length: i32, padding: i32) -> (r: i64)
    ensures
        r == placed(anchor as int, extent as int, length as int, padding as int),
{
    let anchor = anchor as i64;
    if 2 * anchor < extent as i64 {
        anchor + padding as i64
    } else {
        anchor - length as i64
    }
}

/// Computes the styles of the provider's rectangle.
pub fn resolve_container_styles(props: TooltipProviderProps) -> (r: Style)
    ensures
        r == container_styles(props),
{
    let at = Style {
        left: StyleProp::Value(Units::Pixels(props.position.0 as i64)),
        top: StyleProp::Value(Units::Pixels(props.position.1 as i64)),
        ..Style::default()
    };
    let sized = Style {
        width: StyleProp::Value(Units::Pixels(props.size.0 as i64)),
        height: StyleProp::Value(Units::Pixels(props.size.1 as i64)),
        ..Style::default()
    };
    Style::default().with_style(at).with_optional_style(props.styles).with_style(sized)
}

/// Computes what a provider draws for the shared state `data`.
pub fn render(props: TooltipProviderProps, data: &TooltipData) -> (r: ProviderWidget)
    ensures
        r@ == rendered(props, data@),
{
    let base = resolve_container_styles(props);
    if !data.visible {
        return ProviderWidget { styles: base, overlay: None };
    }
    let drawn = match data.size {
        Some(size) => size,
        None => (DEFAULT_WIDTH, DEFAULT_HEIGHT),
    };
    let dark = StyleProp::Value(Color::new(13, 15, 17, 85));
    let white = StyleProp::Value(Color::new(100, 100, 100, 100));
    proof {
        StyleProp::first_set_of_two(base.background_color, dark);
        StyleProp::first_set_of_two(base.color, white);
    }
    let styles = Style {
        position_type: StyleProp::Value(PositionType::SelfDirected),
        background_color: StyleProp::select(&[base.background_color, dark]),
        width: StyleProp::Value(Units::Pixels(drawn.0 as i64)),
        height: StyleProp::Value(Units::Pixels(drawn.1 as i64)),
        left: StyleProp::Value(
            Units::Pixels(place(data.anchor.0, props.size.0, drawn.0, PADDING_X)),
        ),
        top: StyleProp::Value(Units::Pixels(place(data.anchor.1, props.size.1, drawn.1, PADDING_Y))),
        ..Style::default()
    };
    let text_styles = Style {
        width: StyleProp::Value(Units::Pixels(drawn.0 as i64)),
        height: StyleProp::Value(Units::Pixels(drawn.1 as i64)),
        color: StyleProp::select(&[base.color, white]),
        ..Style::default()
    };
    ProviderWidget {
        styles: base,
        overlay: Some(
            TooltipOverlay { styles, text: data.text.clone(), font_size: FONT_SIZE, text_styles },
        ),
    }
}

/// Sets up or redraws the provider at `widget`. The first call for a widget
/// makes it a provider with the initial state; every later call leaves the
/// shared state as the consumers have written it. The result is what the
/// provider draws for that state. A widget that is not part of the tree is
/// refused.
#[allow(non_snake_case)]
pub fn TooltipProvider(props: TooltipProviderProps, context: &mut TooltipContext, widget: usize) -> (r:
    Result<ProviderWidget, TooltipError>)
    ensures
        final(context)@ == old(context)@.published(widget as int, TooltipState::initial()),
        match final(context)@.state_of(widget as int) {
            Some(state) => r matches Ok(drawn) && drawn@ == rendered(props, state),
            None => r == Err::<ProviderWidget, TooltipError>(TooltipError::UnknownWidget),
        },
        r is Ok <==> old(context)@.has(widget as int),
{
    match context.create_provider(widget, TooltipData::default()) {
        Ok(()) => {},
        Err(error) => {
            return Err(error);
        },
    }
    match context.get(widget) {
        Some(data) => Ok(render(props, &data)),
        None => Err(TooltipError::UnknownWidget),
    }
}

} // verus!
