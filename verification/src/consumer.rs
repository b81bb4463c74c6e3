//! The consumer: a wrapper around other widgets that shows, moves and hides
//! the tooltip of the provider above it as the pointer comes, moves and goes.

use crate::context::TooltipContext;
use crate::data::{optional_pair, pair, Pair, TooltipData, TooltipState};
use crate::error::TooltipError;
use crate::event::{Event, EventType};
use crate::style::{RenderCommand, Style, StyleProp, Units};
use vstd::prelude::*;

verus! {

/// How a consumer is configured.
#[derive(Debug, PartialEq, Eq)]
pub struct TooltipConsumerProps {
    /// Where to anchor the tooltip, in pixels; with `None` the tooltip
    /// follows the pointer.
    pub anchor: Option<(i32, i32)>,
    /// The size of the tooltip in pixels; with `None` it has the default
    /// size.
    pub size: Option<(i32, i32)>,
    /// The text to show in the tooltip.
    pub text: String,
    /// Styles for the box that wraps the children.
    pub styles: Option<Style>,
}

/// A consumer that was set up below a provider.
#[derive(Debug, PartialEq, Eq)]
pub struct ConsumerWidget {
    /// The provider whose tooltip this consumer controls.
    pub scope: usize,
    /// The fixed anchor, if one was configured.
    pub anchor: Option<(i32, i32)>,
    /// The size configured for the tooltip, if any.
    pub size: Option<(i32, i32)>,
    /// The text of this consumer.
    pub text: String,
    /// The styles of the box that wraps the children.
    pub styles: Style,
}

/// What a `ConsumerWidget` stands for.
pub struct ConsumerModel {
    pub scope: int,
    pub anchor: Option<Pair>,
    pub size: Option<Pair>,
    pub text: Seq<char>,
    pub styles: Style,
}

/// The styles of a consumer's box, given what the caller asked for: the box
/// cuts off what lies outside it unless the caller chose another way to
/// render it, and it is sized by its content whatever the caller asked for.
pub open spec fn consumer_styles(requested: Option<Style>) -> Style {
    let caller = Style::unset().overlaid_with(requested);
    Style {
        render_command: StyleProp::Value(RenderCommand::Clip).overlaid(caller.render_command),
        width: StyleProp::Value(Units::Auto),
        height: StyleProp::Value(Units::Auto),
        ..caller
    }
}

impl ConsumerModel {
    /// The consumer that `props` describe when it is set up below the
    /// provider `scope`.
    pub open spec fn bound(props: TooltipConsumerProps, scope: int) -> ConsumerModel {
        ConsumerModel {
            scope,
            anchor: optional_pair(props.anchor),
            size: optional_pair(props.size),
            text: props.text@,
            styles: consumer_styles(props.styles),
        }
    }

    /// The shared state after this consumer has received `event`: the
    /// pointer coming, moving and going change it, nothing else does.
    pub open spec fn step(self, state: TooltipState, event: Event) -> TooltipState {
        match event.event_type {
            EventType::MouseIn => state.entered(self.text, self.size),
            EventType::Hover => state.hovered(self.anchor, pair(event.pointer)),
            EventType::MouseOut => state.left(self.text),
            _ => state,
        }
    }

    /// The shared state after this consumer has received `events` in order.
    pub open spec fn run(self, state: TooltipState, events: Seq<Event>) -> TooltipState
        decreases events.len(),
    {
        if events.len() == 0 {
            state
        } else {
            self.step(self.run(state, events.drop_last()), events.last())
        }
    }
}

impl View for ConsumerWidget {
    type V = ConsumerModel;

    open spec fn view(&self) -> ConsumerModel {
        ConsumerModel {
            scope: self.scope as int,
            anchor: optional_pair(self.anchor),
            size: optional_pair(self.size),
            text: self.text@,
            styles: self.styles,
        }
    }
}

impl Default for TooltipConsumerProps {
    fn default() -> (r: TooltipConsumerProps)
        ensures
            r.anchor is None,
            r.size is None,
            r.text@ == Seq::<char>::empty(),
            r.styles is None,
    {
        TooltipConsumerProps { anchor: None, size: None, text: String::new(), styles: None }
    }
}

impl Clone for TooltipConsumerProps {
    fn clone(&self) -> (r: TooltipConsumerProps)
        ensures
            r.anchor == self.anchor,
            r.size == self.size,
            r.text@ == self.text@,
            r.styles == self.styles,
    {
        TooltipConsumerProps {
            anchor: self.anchor,
            size: self.size,
            text: self.text.clone(),
            styles: self.styles,
        }
    }
}

impl Clone for ConsumerWidget {
    fn clone(&self) -> (r: ConsumerWidget)
        ensures
            r@ == self@,
    {
        ConsumerWidget {
            scope: self.scope,
            anchor: self.anchor,
            size: self.size,
            text: self.text.clone(),
            styles: self.styles,
        }
    }
}

/// Computes the styles of a consumer's box from what the caller asked for.
pub fn resolve_consumer_styles(requested: Option<Style>) -> (r: Style)
    ensures
        r == consumer_styles(requested),
{
    let clip = Style { render_command: StyleProp::Value(RenderCommand::Clip), ..Style::default() };
    let auto = Style {
        width: StyleProp::Value(Units::Auto),
        height: StyleProp::Value(Units::Auto),
        ..Style::default()
    };
    Style::default().with_style(clip).with_optional_style(requested).with_style(auto)
}

/// Sets up a consumer at `widget`. It is bound to the nearest provider above
/// `widget`. Where no provider stands above `widget` the consumer cannot
/// exist; neither can it where `widget` is not part of the tree.
#[allow(non_snake_case)]
pub fn TooltipConsumer(props: TooltipConsumerProps, context: &TooltipContext, widget: usize) -> (r:
    Result<ConsumerWidget, TooltipError>)
    ensures
        match context@.scope(widget as int) {
            Some(scope) => r matches Ok(consumer) && consumer@ == ConsumerModel::bound(
                props,
                scope,
            ),
            None => r == Err::<ConsumerWidget, TooltipError>(
                if context@.has(widget as int) {
                    TooltipError::MissingProvider
                } else {
                    TooltipError::UnknownWidget
                },
            ),
        },
{
    let styles = resolve_consumer_styles(props.styles);
    match context.create_consumer(widget) {
        Some(scope) => Ok(
            ConsumerWidget { scope, anchor: props.anchor, size: props.size, text: props.text, styles },
        ),
        None => {
            if widget < context.len() {
                Err(TooltipError::MissingProvider)
            } else {
                Err(TooltipError::UnknownWidget)
            }
        },
    }
}

impl ConsumerWidget {
    /// The pointer came over this consumer: it claims the tooltip with its
    /// text and size, whoever held it before.
    pub fn mouse_in(&self, state: &mut TooltipData)
        ensures
            final(state)@ == old(state)@.entered(self@.text, self@.size),
    {
        state.visible = true;
        state.text = self.text.clone();
        state.size = self.size;
    }

    /// The pointer moved over this consumer and was last seen at `pointer`:
    /// the tooltip goes to the fixed anchor if there is one, else to the
    /// pointer.
    pub fn hover(&self, state: &mut TooltipData, pointer: (i32, i32))
        ensures
            final(state)@ == old(state)@.hovered(self@.anchor, pair(pointer)),
    {
        state.anchor = match self.anchor {
            Some(anchor) => anchor,
            None => pointer,
        };
    }

    /// The pointer left this consumer: the tooltip is hidden if it still
    /// carries this consumer's text, and shown otherwise, since another
    /// consumer has claimed it.
    pub fn mouse_out(&self, state: &mut TooltipData)
        ensures
            final(state)@ == old(state)@.left(self@.text),
    {
        state.visible = state.text != self.text;
    }

    /// Applies one event to the shared state.
    pub fn on_event(&self, state: &mut TooltipData, event: Event)
        ensures
            final(state)@ == self@.step(old(state)@, event),
    {
        match event.event_type {
            EventType::MouseIn => self.mouse_in(state),
            EventType::Hover => self.hover(state, event.pointer),
            EventType::MouseOut => self.mouse_out(state),
            _ => {},
        }
    }

    /// Applies a queue of events to the shared state, oldest first.
    pub fn on_events(&self, state: &mut TooltipData, events: &[Event])
        ensures
            final(state)@ == self@.run(old(state)@, events@),
    {
        let mut i: usize = 0;
        while i < events.len()
            invariant
                i <= events.len(),
                state@ == self@.run(old(state)@, events@.take(i as int)),
            decreases events.len() - i,
        {
            assert(events@.take(i + 1).drop_last() =~= events@.take(i as int));
            self.on_event(state, events[i]);
            i += 1;
        }
        assert(events@.take(i as int) =~= events@);
    }

    /// Delivers one event: reads the state that this consumer's provider
    /// shares, applies the event and writes the state back. Returns whether
    /// the provider was found in `context`; without it nothing changes.
    pub fn dispatch(&self, context: &mut TooltipContext, event: Event) -> (r: bool)
        ensures
            r == old(context)@.is_provider(self@.scope),
            final(context)@ == (match old(context)@.state_of(self@.scope) {
                Some(state) => old(context)@.written(self@.scope, self@.step(state, event)),
                None => old(context)@,
            }),
    {
        match context.get(self.scope) {
            Some(mut state) => {
                self.on_event(&mut state, event);
                context.set(self.scope, state)
            },
            None => false,
        }
    }
}

} // verus!
