use tooltip::consumer::{ConsumerWidget, TooltipConsumer, TooltipConsumerProps};
use tooltip::context::TooltipContext;
use tooltip::data::TooltipData;
use tooltip::event::{Event, EventType};
use tooltip::provider::{TooltipProvider, TooltipProviderProps};
use tooltip::style::Style;

fn consumer(text: &str, anchor: Option<(i32, i32)>, size: Option<(i32, i32)>) -> ConsumerWidget {
    ConsumerWidget { scope: 0, anchor, size, text: text.to_string(), styles: Style::default() }
}

fn other_state() -> TooltipData {
    TooltipData { anchor: (7, 9), size: Some((40, 20)), text: "old".to_string(), visible: true }
}

#[test]
fn default_state_is_hidden_and_empty() {
    let state = TooltipData::default();
    assert_eq!(state.anchor, (0, 0));
    assert_eq!(state.size, None);
    assert_eq!(state.text, "");
    assert!(!state.visible);
}

#[test]
fn clone_keeps_every_field() {
    let state = other_state();
    assert_eq!(state.clone(), state);
}

#[test]
fn enter_claims_the_tooltip() {
    let a = consumer("A", None, Some((80, 30)));
    let mut state = other_state();
    a.mouse_in(&mut state);
    assert!(state.visible);
    assert_eq!(state.text, "A");
    assert_eq!(state.size, Some((80, 30)));
    assert_eq!(state.anchor, (7, 9));
}

#[test]
fn enter_without_size_resets_the_size() {
    let a = consumer("A", None, None);
    let mut state = other_state();
    a.mouse_in(&mut state);
    assert_eq!(state.size, None);
    assert_eq!(state.text, "A");
    assert!(state.visible);
}

#[test]
fn enter_then_leave_hides_and_keeps_the_text() {
    let a = consumer("A", None, None);
    let mut state = TooltipData::default();
    a.on_event(&mut state, Event::new(EventType::MouseIn, (1, 1)));
    assert!(state.visible);
    assert_eq!(state.text, "A");
    a.on_event(&mut state, Event::new(EventType::MouseOut, (1, 1)));
    assert!(!state.visible);
    assert_eq!(state.text, "A");
}

#[test]
fn visit_with_any_number_of_hovers_ends_hidden() {
    let a = consumer("A", None, None);
    for hovers in [0usize, 1, 2, 17] {
        let mut events = vec![Event::new(EventType::MouseIn, (0, 0))];
        for i in 0..hovers {
            events.push(Event::new(EventType::Hover, (i as i32, 2 * i as i32)));
        }
        events.push(Event::new(EventType::MouseOut, (5, 5)));
        let mut state = other_state();
        a.on_events(&mut state, &events);
        assert!(!state.visible);
        assert_eq!(state.text, "A");
        assert_eq!(state.size, None);
        if hovers > 0 {
            assert_eq!(state.anchor, (hovers as i32 - 1, 2 * (hovers as i32 - 1)));
        } else {
            assert_eq!(state.anchor, (7, 9));
        }
    }
}

#[test]
fn queue_of_events_equals_one_by_one() {
    let a = consumer("A", Some((3, 4)), Some((10, 10)));
    let events = [
        Event::new(EventType::MouseIn, (0, 0)),
        Event::new(EventType::Hover, (1, 2)),
        Event::new(EventType::Click, (1, 2)),
        Event::new(EventType::MouseOut, (9, 9)),
        Event::new(EventType::Hover, (8, 8)),
    ];
    let mut batch = TooltipData::default();
    a.on_events(&mut batch, &events);
    let mut single = TooltipData::default();
    for event in events {
        a.on_event(&mut single, event);
    }
    assert_eq!(batch, single);
    assert_eq!(
        batch,
        TooltipData { anchor: (3, 4), size: Some((10, 10)), text: "A".to_string(), visible: false }
    );
}

#[test]
fn empty_queue_changes_nothing() {
    let a = consumer("A", None, None);
    let mut state = other_state();
    a.on_events(&mut state, &[]);
    assert_eq!(state, other_state());
}

#[test]
fn second_claim_survives_first_leave() {
    let a = consumer("A", None, None);
    let b = consumer("B", None, Some((60, 12)));
    let mut state = TooltipData::default();
    a.mouse_in(&mut state);
    b.mouse_in(&mut state);
    a.mouse_out(&mut state);
    assert!(state.visible);
    assert_eq!(state.text, "B");
    assert_eq!(state.size, Some((60, 12)));
    b.mouse_out(&mut state);
    assert!(!state.visible);
    assert_eq!(state.text, "B");
}

#[test]
fn second_claim_survives_with_hovers_between() {
    let a = consumer("A", None, None);
    let b = consumer("B", Some((20, 30)), None);
    let mut state = TooltipData::default();
    a.on_events(
        &mut state,
        &[Event::new(EventType::MouseIn, (1, 1)), Event::new(EventType::Hover, (2, 2))],
    );
    b.on_events(
        &mut state,
        &[
            Event::new(EventType::MouseIn, (3, 3)),
            Event::new(EventType::Hover, (4, 4)),
            Event::new(EventType::Hover, (5, 5)),
        ],
    );
    a.on_event(&mut state, Event::new(EventType::MouseOut, (6, 6)));
    assert!(state.visible);
    assert_eq!(state.text, "B");
    assert_eq!(state.anchor, (20, 30));
}

#[test]
fn consumers_with_equal_text_hide_each_other() {
    let a = consumer("same", None, None);
    let b = consumer("same", None, None);
    let mut state = TooltipData::default();
    a.mouse_in(&mut state);
    b.mouse_in(&mut state);
    a.mouse_out(&mut state);
    assert!(!state.visible);
    assert_eq!(state.text, "same");
}

#[test]
fn leave_with_foreign_text_shows_the_tooltip() {
    let a = consumer("A", None, None);
    let mut state = TooltipData::default();
    a.mouse_out(&mut state);
    assert!(state.visible);
    assert_eq!(state.text, "");
    assert_eq!(state.anchor, (0, 0));
    assert_eq!(state.size, None);
}

#[test]
fn leave_with_empty_text_hides_the_initial_state() {
    let a = consumer("", None, None);
    let mut state = TooltipData::default();
    state.visible = true;
    a.mouse_out(&mut state);
    assert!(!state.visible);
}

#[test]
fn hover_follows_the_pointer() {
    let a = consumer("A", None, None);
    let mut state = other_state();
    a.hover(&mut state, (11, 22));
    assert_eq!(state.anchor, (11, 22));
    a.hover(&mut state, (-5, 1000));
    assert_eq!(state.anchor, (-5, 1000));
    assert_eq!(state.text, "old");
    assert_eq!(state.size, Some((40, 20)));
    assert!(state.visible);
}

#[test]
fn hover_keeps_a_fixed_anchor() {
    let a = consumer("A", Some((33, 44)), None);
    let mut state = other_state();
    for pointer in [(0, 0), (1, 2), (500, -500), (i32::MAX, i32::MIN)] {
        a.hover(&mut state, pointer);
        assert_eq!(state.anchor, (33, 44));
    }
    assert_eq!(state.text, "old");
    assert!(state.visible);
}

#[test]
fn hover_before_enter_moves_a_hidden_tooltip() {
    let a = consumer("A", None, None);
    let mut state = TooltipData::default();
    a.on_event(&mut state, Event::new(EventType::Hover, (4, 5)));
    assert_eq!(state.anchor, (4, 5));
    assert!(!state.visible);
    assert_eq!(state.text, "");
}

#[test]
fn other_events_change_nothing() {
    let a = consumer("A", Some((1, 1)), Some((2, 2)));
    for kind in [
        EventType::Click,
        EventType::MouseDown,
        EventType::MouseUp,
        EventType::Focus,
        EventType::Blur,
    ] {
        let mut state = other_state();
        a.on_event(&mut state, Event::new(kind, (77, 88)));
        assert_eq!(state, other_state());
    }
}

#[test]
fn dispatch_writes_to_the_shared_state() {
    let mut context = TooltipContext::new();
    let root = context.add_widget(None).unwrap();
    let left = context.add_widget(Some(root)).unwrap();
    let right = context.add_widget(Some(root)).unwrap();
    let props = TooltipProviderProps { position: (0, 0), size: (200, 100), styles: None };
    TooltipProvider(props, &mut context, root).unwrap();
    let a = TooltipConsumer(
        TooltipConsumerProps { text: "A".to_string(), ..TooltipConsumerProps::default() },
        &context,
        left,
    )
    .unwrap();
    let b = TooltipConsumer(
        TooltipConsumerProps { text: "B".to_string(), ..TooltipConsumerProps::default() },
        &context,
        right,
    )
    .unwrap();
    assert_eq!(a.scope, root);
    assert_eq!(b.scope, root);

    assert!(a.dispatch(&mut context, Event::new(EventType::MouseIn, (10, 10))));
    assert!(a.dispatch(&mut context, Event::new(EventType::Hover, (12, 14))));
    assert_eq!(
        context.get(root),
        Some(TooltipData { anchor: (12, 14), size: None, text: "A".to_string(), visible: true })
    );
    assert!(b.dispatch(&mut context, Event::new(EventType::MouseIn, (150, 80))));
    assert!(a.dispatch(&mut context, Event::new(EventType::MouseOut, (150, 80))));
    let state = context.get(root).unwrap();
    assert!(state.visible);
    assert_eq!(state.text, "B");
    assert!(b.dispatch(&mut context, Event::new(EventType::MouseOut, (0, 0))));
    let state = context.get(root).unwrap();
    assert!(!state.visible);
    assert_eq!(state.text, "B");
}

#[test]
fn dispatch_without_provider_changes_nothing() {
    let mut context = TooltipContext::new();
    let root = context.add_widget(None).unwrap();
    let stray = ConsumerWidget {
        scope: root,
        anchor: None,
        size: None,
        text: "A".to_string(),
        styles: Style::default(),
    };
    assert!(!stray.dispatch(&mut context, Event::new(EventType::MouseIn, (1, 1))));
    assert_eq!(context.get(root), None);
    assert!(!context.is_provider(root));
    let nowhere = ConsumerWidget { scope: 99, ..stray };
    assert!(!nowhere.dispatch(&mut context, Event::new(EventType::MouseIn, (1, 1))));
    assert_eq!(context.len(), 1);
}

#[test]
fn dispatch_touches_one_scope_only() {
    let mut context = TooltipContext::new();
    let first = context.add_widget(None).unwrap();
    let second = context.add_widget(None).unwrap();
    let below_first = context.add_widget(Some(first)).unwrap();
    let props = TooltipProviderProps::default();
    TooltipProvider(props, &mut context, first).unwrap();
    TooltipProvider(props, &mut context, second).unwrap();
    let a = TooltipConsumer(
        TooltipConsumerProps { text: "A".to_string(), ..TooltipConsumerProps::default() },
        &context,
        below_first,
    )
    .unwrap();
    assert!(a.dispatch(&mut context, Event::new(EventType::MouseIn, (1, 1))));
    assert_eq!(context.get(second), Some(TooltipData::default()));
    assert_eq!(context.get(first).unwrap().text, "A");
    assert_eq!(context.parent(below_first), Some(first));
    assert_eq!(context.len(), 3);
}
