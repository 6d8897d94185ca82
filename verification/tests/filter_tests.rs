use termprobe::event::{
    Event, InternalEvent, KeyboardEnhancementFlags, SynchronizedOutputMode, ThemeMode,
    DISAMBIGUATE_ESCAPE_CODES,
};
use termprobe::filter::{
    CursorPositionFilter, EventFilter, Filter, InternalEventFilter,
    KeyboardEnhancementFlagsFilter, PrimaryDeviceAttributesFilter, SynchronizedOutputModeFilter,
    TerminalFeaturesFilter, ThemeModeFilter,
};

#[test]
fn test_cursor_position_filter_filters_cursor_position() {
    assert!(!CursorPositionFilter.eval(&InternalEvent::Event(Event::Resize(10, 10))));
    assert!(CursorPositionFilter.eval(&InternalEvent::CursorPosition(0, 0)));
}

#[test]
fn test_keyboard_enhancement_status_filter_filters_keyboard_enhancement_status() {
    assert!(!KeyboardEnhancementFlagsFilter.eval(&InternalEvent::Event(Event::Resize(10, 10))));
    assert!(
        KeyboardEnhancementFlagsFilter.eval(&InternalEvent::KeyboardEnhancementFlags(
            KeyboardEnhancementFlags(DISAMBIGUATE_ESCAPE_CODES)
        ))
    );
    assert!(KeyboardEnhancementFlagsFilter.eval(&InternalEvent::PrimaryDeviceAttributes));
}

#[test]
fn test_primary_device_attributes_filter_filters_primary_device_attributes() {
    assert!(!PrimaryDeviceAttributesFilter.eval(&InternalEvent::Event(Event::Resize(10, 10))));
    assert!(PrimaryDeviceAttributesFilter.eval(&InternalEvent::PrimaryDeviceAttributes));
}

#[test]
fn test_event_filter_filters_events() {
    assert!(EventFilter.eval(&InternalEvent::Event(Event::Resize(10, 10))));
    assert!(!EventFilter.eval(&InternalEvent::CursorPosition(0, 0)));
}

#[test]
fn test_event_filter_filters_internal_events() {
    assert!(InternalEventFilter.eval(&InternalEvent::Event(Event::Resize(10, 10))));
    assert!(InternalEventFilter.eval(&InternalEvent::CursorPosition(0, 0)));
}

fn all_variants() -> Vec<InternalEvent> {
    vec![
        InternalEvent::Event(Event::Resize(10, 10)),
        InternalEvent::Event(Event::FocusGained),
        InternalEvent::Event(Event::ThemeModeChanged(ThemeMode::Dark)),
        InternalEvent::CursorPosition(3, 4),
        InternalEvent::KeyboardEnhancementFlags(KeyboardEnhancementFlags(
            DISAMBIGUATE_ESCAPE_CODES,
        )),
        InternalEvent::PrimaryDeviceAttributes,
        InternalEvent::SynchronizedOutputMode(SynchronizedOutputMode::Enabled),
    ]
}

#[test]
fn filter_truth_table_matches_acceptance_sets() {
    let events = all_variants();
    let cursor: Vec<bool> = events.iter().map(|e| CursorPositionFilter.eval(e)).collect();
    assert_eq!(cursor, vec![false, false, false, true, false, false, false]);

    let keyboard: Vec<bool> = events
        .iter()
        .map(|e| KeyboardEnhancementFlagsFilter.eval(e))
        .collect();
    assert_eq!(keyboard, vec![false, false, false, false, true, true, false]);

    let device: Vec<bool> = events
        .iter()
        .map(|e| PrimaryDeviceAttributesFilter.eval(e))
        .collect();
    assert_eq!(device, vec![false, false, false, false, false, true, false]);

    let theme: Vec<bool> = events.iter().map(|e| ThemeModeFilter.eval(e)).collect();
    assert_eq!(theme, vec![false, false, true, false, false, true, false]);

    let sync: Vec<bool> = events
        .iter()
        .map(|e| SynchronizedOutputModeFilter.eval(e))
        .collect();
    assert_eq!(sync, vec![false, false, false, false, false, true, true]);

    let features: Vec<bool> = events
        .iter()
        .map(|e| TerminalFeaturesFilter.eval(e))
        .collect();
    assert_eq!(features, vec![false, false, true, false, true, true, true]);

    let user: Vec<bool> = events.iter().map(|e| EventFilter.eval(e)).collect();
    assert_eq!(user, vec![true, true, true, false, false, false, false]);

    let internal: Vec<bool> = events.iter().map(|e| InternalEventFilter.eval(e)).collect();
    assert_eq!(internal, vec![true, true, true, true, true, true, true]);
}
