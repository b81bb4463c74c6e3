use tooltip::context::TooltipContext;
use tooltip::error::TooltipError;
use tooltip::event::{Event, EventType};
use tooltip::style::{Color, StyleProp, Units};
use tooltip::{TooltipConsumer, TooltipConsumerProps, TooltipData, TooltipProvider, TooltipProviderProps};

#[test]
fn two_consumers_share_one_tooltip() {
    let mut context = TooltipContext::new();
    let screen = context.add_widget(None).unwrap();
    let panel = context.add_widget(Some(screen)).unwrap();
    let first = context.add_widget(Some(panel)).unwrap();
    let second = context.add_widget(Some(panel)).unwrap();
    let area = TooltipProviderProps { position: (0, 0), size: (1280, 720), styles: None };

    assert_eq!(
        TooltipConsumer(TooltipConsumerProps::default(), &context, first),
        Err(TooltipError::MissingProvider)
    );

    let drawn = TooltipProvider(area, &mut context, screen).unwrap();
    assert_eq!(drawn.overlay, None);
    assert_eq!(drawn.styles.width, StyleProp::Value(Units::Pixels(1280)));

    let a = TooltipConsumer(
        TooltipConsumerProps { text: "Tooltip A".to_string(), ..TooltipConsumerProps::default() },
        &context,
        first,
    )
    .unwrap();
    let b = TooltipConsumer(
        TooltipConsumerProps {
            text: "Tooltip B".to_string(),
            anchor: Some((1000, 700)),
            size: Some((90, 20)),
            styles: None,
        },
        &context,
        second,
    )
    .unwrap();

    a.dispatch(&mut context, Event::new(EventType::MouseIn, (100, 100)));
    a.dispatch(&mut context, Event::new(EventType::Hover, (100, 100)));
    let overlay = TooltipProvider(area, &mut context, screen).unwrap().overlay.unwrap();
    assert_eq!(overlay.text, "Tooltip A");
    assert_eq!(overlay.font_size, 12);
    assert_eq!(overlay.styles.left, StyleProp::Value(Units::Pixels(110)));
    assert_eq!(overlay.styles.top, StyleProp::Value(Units::Pixels(105)));
    assert_eq!(overlay.styles.width, StyleProp::Value(Units::Pixels(150)));
    assert_eq!(overlay.styles.height, StyleProp::Value(Units::Pixels(18)));
    assert_eq!(overlay.styles.background_color, StyleProp::Value(Color::new(13, 15, 17, 85)));
    assert_eq!(overlay.text_styles.color, StyleProp::Value(Color::new(100, 100, 100, 100)));

    b.dispatch(&mut context, Event::new(EventType::MouseIn, (640, 360)));
    b.dispatch(&mut context, Event::new(EventType::Hover, (641, 361)));
    a.dispatch(&mut context, Event::new(EventType::MouseOut, (641, 361)));
    let overlay = TooltipProvider(area, &mut context, screen).unwrap().overlay.unwrap();
    assert_eq!(overlay.text, "Tooltip B");
    assert_eq!(overlay.styles.left, StyleProp::Value(Units::Pixels(910)));
    assert_eq!(overlay.styles.top, StyleProp::Value(Units::Pixels(680)));
    assert_eq!(overlay.styles.width, StyleProp::Value(Units::Pixels(90)));
    assert_eq!(overlay.styles.height, StyleProp::Value(Units::Pixels(20)));

    b.dispatch(&mut context, Event::new(EventType::MouseOut, (0, 0)));
    assert_eq!(TooltipProvider(area, &mut context, screen).unwrap().overlay, None);
    assert_eq!(
        context.get(screen),
        Some(TooltipData {
            anchor: (1000, 700),
            size: Some((90, 20)),
            text: "Tooltip B".to_string(),
            visible: false,
        })
    );
}
