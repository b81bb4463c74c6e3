//! What holds of the way consumers share one tooltip, whatever the state
//! they start from and whatever the pointer does.

use crate::consumer::ConsumerModel;
use crate::data::{pair, TooltipState};
use crate::event::{Event, EventType};
use vstd::prelude::*;

verus! {

/// Whether `events` is what a consumer sees of the pointer from the moment
/// it comes over the consumer: the pointer comes, then moves any number of
/// times.
pub open spec fn is_stay(events: Seq<Event>) -> bool {
    &&& events.len() >= 1
    &&& events[0].event_type == EventType::MouseIn
    &&& forall|i: int| 0 < i < events.len() ==> (#[trigger] events[i]).event_type == EventType::Hover
}

/// Whether `events` is one whole visit of the pointer to a consumer: the
/// pointer comes, moves any number of times, and goes.
pub open spec fn is_visit(events: Seq<Event>) -> bool {
    &&& events.len() >= 2
    &&& is_stay(events.drop_last())
    &&& events.last().event_type == EventType::MouseOut
}

/// Whether every event of `events` is a movement of the pointer.
pub open spec fn all_hover(events: Seq<Event>) -> bool {
    forall|i: int| 0 <= i < events.len() ==> (#[trigger] events[i]).event_type == EventType::Hover
}

/// While the pointer stays over a consumer, the tooltip is shown with that
/// consumer's text and size.
pub proof fn stay_claims_tooltip(consumer: ConsumerModel, state: TooltipState, events: Seq<Event>)
    requires
        is_stay(events),
    ensures
        consumer.run(state, events).visible,
        consumer.run(state, events).text == consumer.text,
        consumer.run(state, events).size == consumer.size,
    decreases events.len(),
{
    let before = events.drop_last();
    if events.len() == 1 {
        assert(consumer.run(state, before) == state);
    } else {
        assert(events.last() == events[events.len() - 1]);
        assert forall|i: int| 0 < i < before.len() implies (#[trigger] before[i]).event_type
            == EventType::Hover by {
            assert(before[i] == events[i]);
        }
        stay_claims_tooltip(consumer, state, before);
    }
}

/// After one whole visit of the pointer to a single consumer the tooltip is
/// hidden and still carries that consumer's text, whatever the state was
/// before and however often the pointer moved.
pub proof fn visit_ends_hidden(consumer: ConsumerModel, state: TooltipState, events: Seq<Event>)
    requires
        is_visit(events),
    ensures
        !consumer.run(state, events).visible,
        consumer.run(state, events).text == consumer.text,
{
    stay_claims_tooltip(consumer, state, events.drop_last());
}

/// A consumer that leaves while the tooltip carries another text does not
/// hide it: the tooltip is shown afterwards, and nothing else has changed.
pub proof fn leave_spares_foreign_text(consumer: ConsumerModel, state: TooltipState, event: Event)
    requires
        event.event_type == EventType::MouseOut,
        state.text != consumer.text,
    ensures
        consumer.step(state, event) == (TooltipState { visible: true, ..state }),
{
}

/// When the pointer comes over a second consumer before it has left the
/// first, the first consumer's leave does not take the tooltip away from the
/// second: it stays visible with the second consumer's text and size. The
/// pointer may move over the first consumer before, and over the second
/// after, the second claims the tooltip.
pub proof fn second_claim_survives_first_leave(
    first: ConsumerModel,
    second: ConsumerModel,
    state: TooltipState,
    first_stay: Seq<Event>,
    second_stay: Seq<Event>,
    leave: Event,
)
    requires
        first.text != second.text,
        is_stay(first_stay),
        is_stay(second_stay),
        leave.event_type == EventType::MouseOut,
    ensures
        ({
            let claimed = second.run(first.run(state, first_stay), second_stay);
            let after = first.step(claimed, leave);
            after.visible && after.text == second.text && after.size == second.size
        }),
{
    stay_claims_tooltip(second, first.run(state, first_stay), second_stay);
}

/// Only the coming of the pointer changes the text and the size of the
/// tooltip: no event clears them.
pub proof fn text_changes_only_on_enter(consumer: ConsumerModel, state: TooltipState, event: Event)
    requires
        event.event_type != EventType::MouseIn,
    ensures
        consumer.step(state, event).text == state.text,
        consumer.step(state, event).size == state.size,
{
}

/// Once the tooltip carries a consumer's text it keeps that text for as long
/// as only that consumer receives events, whatever they are; and each time
/// the pointer leaves in that time, the tooltip is hidden.
pub proof fn own_text_stays(consumer: ConsumerModel, state: TooltipState, events: Seq<Event>)
    requires
        state.text == consumer.text,
    ensures
        consumer.run(state, events).text == consumer.text,
        events.len() > 0 && events.last().event_type == EventType::MouseOut ==> !consumer.run(
            state,
            events,
        ).visible,
    decreases events.len(),
{
    if events.len() > 0 {
        own_text_stays(consumer, state, events.drop_last());
    }
}

/// An event that is not the pointer coming, moving or going changes
/// nothing.
pub proof fn other_events_change_nothing(consumer: ConsumerModel, state: TooltipState, event: Event)
    requires
        event.event_type != EventType::MouseIn,
        event.event_type != EventType::Hover,
        event.event_type != EventType::MouseOut,
    ensures
        consumer.step(state, event) == state,
{
}

/// After any number of movements of the pointer, at least one, the tooltip
/// is anchored at the consumer's fixed anchor if it has one, wherever the
/// pointer went, and else where the pointer was seen last. Nothing but the
/// anchor has changed.
pub proof fn hovers_settle_anchor(consumer: ConsumerModel, state: TooltipState, events: Seq<Event>)
    requires
        events.len() >= 1,
        all_hover(events),
    ensures
        consumer.run(state, events) == (TooltipState {
            anchor: match consumer.anchor {
                Some(anchor) => anchor,
                None => pair(events.last().pointer),
            },
            ..state
        }),
    decreases events.len(),
{
    let before = events.drop_last();
    assert(events.last() == events[events.len() - 1]);
    if events.len() == 1 {
        assert(consumer.run(state, before) == state);
    } else {
        assert forall|i: int| 0 <= i < before.len() implies (#[trigger] before[i]).event_type
            == EventType::Hover by {
            assert(before[i] == events[i]);
        }
        hovers_settle_anchor(consumer, state, before);
    }
}

} // verus!
