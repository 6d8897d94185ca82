use termprobe::error::QueryError;
use termprobe::event::{
    Event, InternalEvent, KeyboardEnhancementFlags, SynchronizedOutputMode, TerminalFeatures,
    ThemeMode, DISAMBIGUATE_ESCAPE_CODES, REPORT_EVENT_TYPES,
};
use termprobe::filter::EventFilter;
use termprobe::query::{
    query_keyboard_enhancement_flags, query_terminal_theme_mode, supports_keyboard_enhancement,
    supports_synchronized_output, terminal_features,
};
use termprobe::raw::{enable_raw_mode, is_raw_mode_enabled, RawModeState};
use termprobe::sim::{SimSource, SimTerminal};
use termprobe::source::EventSource;
use termprobe::tty::TermAttrs;

fn fresh() -> (RawModeState, SimTerminal) {
    (RawModeState::new(), SimTerminal::new(TermAttrs(8)))
}

#[test]
fn beacon_only_means_keyboard_enhancement_unsupported() {
    let (mut state, mut term) = fresh();
    let mut source = SimSource::new(vec![InternalEvent::PrimaryDeviceAttributes]);

    let r = query_keyboard_enhancement_flags(&mut state, &mut term, &mut source);
    assert_eq!(r, Ok(None));
    assert_eq!(source.pending_len(), 0);
    assert!(!is_raw_mode_enabled(&state));
    assert_eq!(term.current_attrs(), TermAttrs(8));
}

#[test]
fn nothing_matching_within_the_window_is_a_timeout_error() {
    let (mut state, mut term) = fresh();
    // Only an unrelated user event: the filter never matches.
    let mut source = SimSource::new(vec![InternalEvent::Event(Event::Resize(10, 10))]);

    let r = query_keyboard_enhancement_flags(&mut state, &mut term, &mut source);
    assert_eq!(r, Err(QueryError::Timeout));
    // The unrelated event is still pending, untouched.
    assert_eq!(source.pending_len(), 1);
}

#[test]
fn successful_decode_also_drains_the_beacon() {
    let (mut state, mut term) = fresh();
    let flags = KeyboardEnhancementFlags(DISAMBIGUATE_ESCAPE_CODES);
    let mut source = SimSource::new(vec![
        InternalEvent::KeyboardEnhancementFlags(flags),
        InternalEvent::PrimaryDeviceAttributes,
        InternalEvent::Event(Event::Key(13)),
    ]);

    let r = query_keyboard_enhancement_flags(&mut state, &mut term, &mut source);
    assert_eq!(r, Ok(Some(flags)));
    // Both the reply and the beacon were consumed: only the unrelated user
    // event is left, so a later read of it is not blocked by a leftover
    // beacon.
    assert_eq!(source.pending_len(), 1);
    assert_eq!(source.poll(0, &EventFilter), Ok(true));
    let next = source.read(&EventFilter);
    assert_eq!(next, Ok(InternalEvent::Event(Event::Key(13))));
}

#[test]
fn combined_query_aggregates_until_the_beacon() {
    let (mut state, mut term) = fresh();
    let flags = KeyboardEnhancementFlags(DISAMBIGUATE_ESCAPE_CODES | REPORT_EVENT_TYPES);
    let mut source = SimSource::new(vec![
        InternalEvent::KeyboardEnhancementFlags(flags),
        InternalEvent::SynchronizedOutputMode(SynchronizedOutputMode::Enabled),
        InternalEvent::PrimaryDeviceAttributes,
    ]);

    let r = terminal_features(&mut state, &mut term, &mut source);
    assert_eq!(
        r,
        Ok(TerminalFeatures {
            keyboard_enhancement_flags: Some(flags),
            synchronized_output_mode: SynchronizedOutputMode::Enabled,
            theme_mode: None,
        })
    );
    assert_eq!(source.pending_len(), 0);
}

#[test]
fn combined_query_with_beacon_only_keeps_all_defaults() {
    let (mut state, mut term) = fresh();
    let mut source = SimSource::new(vec![InternalEvent::PrimaryDeviceAttributes]);

    let r = terminal_features(&mut state, &mut term, &mut source);
    assert_eq!(r, Ok(TerminalFeatures::default()));
}

#[test]
fn theme_mode_query_decodes_and_detects_absence() {
    let (mut state, mut term) = fresh();
    let mut source = SimSource::new(vec![
        InternalEvent::Event(Event::ThemeModeChanged(ThemeMode::Dark)),
        InternalEvent::PrimaryDeviceAttributes,
    ]);
    let r = query_terminal_theme_mode(&mut state, &mut term, &mut source);
    assert_eq!(r, Ok(Some(ThemeMode::Dark)));
    assert_eq!(source.pending_len(), 0);

    let mut source = SimSource::new(vec![InternalEvent::PrimaryDeviceAttributes]);
    let r = query_terminal_theme_mode(&mut state, &mut term, &mut source);
    assert_eq!(r, Ok(None));
}

#[test]
fn synchronized_output_is_supported_when_set_or_reset() {
    let (mut state, mut term) = fresh();

    let mut source = SimSource::new(vec![
        InternalEvent::SynchronizedOutputMode(SynchronizedOutputMode::Enabled),
        InternalEvent::PrimaryDeviceAttributes,
    ]);
    assert_eq!(
        supports_synchronized_output(&mut state, &mut term, &mut source),
        Ok(true)
    );
    assert_eq!(source.pending_len(), 0);

    let mut source = SimSource::new(vec![
        InternalEvent::SynchronizedOutputMode(SynchronizedOutputMode::Disabled),
        InternalEvent::PrimaryDeviceAttributes,
    ]);
    assert_eq!(
        supports_synchronized_output(&mut state, &mut term, &mut source),
        Ok(true)
    );

    let mut source = SimSource::new(vec![InternalEvent::SynchronizedOutputMode(
        SynchronizedOutputMode::Unknown,
    )]);
    assert_eq!(
        supports_synchronized_output(&mut state, &mut term, &mut source),
        Ok(false)
    );

    let mut source = SimSource::new(vec![InternalEvent::PrimaryDeviceAttributes]);
    assert_eq!(
        supports_synchronized_output(&mut state, &mut term, &mut source),
        Ok(false)
    );
}

#[test]
fn keyboard_support_is_true_even_for_an_empty_flag_set() {
    let (mut state, mut term) = fresh();
    let mut source = SimSource::new(vec![
        InternalEvent::KeyboardEnhancementFlags(KeyboardEnhancementFlags(0)),
        InternalEvent::PrimaryDeviceAttributes,
    ]);
    assert_eq!(
        supports_keyboard_enhancement(&mut state, &mut term, &mut source),
        Ok(true)
    );

    let mut source = SimSource::new(vec![InternalEvent::PrimaryDeviceAttributes]);
    assert_eq!(
        supports_keyboard_enhancement(&mut state, &mut term, &mut source),
        Ok(false)
    );
}

#[test]
fn each_query_writes_its_exact_probe_bytes() {
    let (mut state, mut term) = fresh();
    let mut source = SimSource::new(vec![InternalEvent::PrimaryDeviceAttributes]);
    query_keyboard_enhancement_flags(&mut state, &mut term, &mut source).unwrap();
    assert_eq!(&term.written_bytes()[..], b"\x1b[?u\x1b[c");

    let (mut state, mut term) = fresh();
    let mut source = SimSource::new(vec![InternalEvent::PrimaryDeviceAttributes]);
    supports_synchronized_output(&mut state, &mut term, &mut source).unwrap();
    assert_eq!(&term.written_bytes()[..], b"\x1b[?2026$p\x1b[c");

    let (mut state, mut term) = fresh();
    let mut source = SimSource::new(vec![InternalEvent::PrimaryDeviceAttributes]);
    query_terminal_theme_mode(&mut state, &mut term, &mut source).unwrap();
    assert_eq!(&term.written_bytes()[..], b"\x1b[?996n\x1b[c");

    let (mut state, mut term) = fresh();
    let mut source = SimSource::new(vec![InternalEvent::PrimaryDeviceAttributes]);
    terminal_features(&mut state, &mut term, &mut source).unwrap();
    assert_eq!(&term.written_bytes()[..], b"\x1b[?u\x1b[?2026$p\x1b[?996n\x1b[c");
}

#[test]
fn transient_poll_failures_are_swallowed_and_retried() {
    let (mut state, mut term) = fresh();
    let mut source = SimSource::new(vec![InternalEvent::PrimaryDeviceAttributes]);
    source.fail_next_polls(2);
    let r = query_keyboard_enhancement_flags(&mut state, &mut term, &mut source);
    assert_eq!(r, Ok(None));
}

#[test]
fn transient_read_failures_are_swallowed_and_retried() {
    let (mut state, mut term) = fresh();
    let mut source = SimSource::new(vec![InternalEvent::PrimaryDeviceAttributes]);
    source.fail_next_reads(1);
    let r = query_keyboard_enhancement_flags(&mut state, &mut term, &mut source);
    assert_eq!(r, Ok(None));
}

#[test]
fn probe_write_failure_is_an_io_error() {
    let (mut state, mut term) = fresh();
    term.fail_next_writes(1);
    let mut source = SimSource::new(vec![InternalEvent::PrimaryDeviceAttributes]);
    let r = query_keyboard_enhancement_flags(&mut state, &mut term, &mut source);
    assert_eq!(r, Err(QueryError::Io));
    // The failed query still left the terminal cooked.
    assert!(!is_raw_mode_enabled(&state));
}

#[test]
fn raw_mode_entry_failure_is_an_io_error() {
    let (mut state, mut term) = fresh();
    term.fail_next_gets(1);
    let mut source = SimSource::new(vec![InternalEvent::PrimaryDeviceAttributes]);
    let r = query_terminal_theme_mode(&mut state, &mut term, &mut source);
    assert_eq!(r, Err(QueryError::Io));
    assert!(!is_raw_mode_enabled(&state));
    assert_eq!(term.current_attrs(), TermAttrs(8));
}

#[test]
fn query_under_existing_raw_mode_leaves_raw_mode_on() {
    let (mut state, mut term) = fresh();
    enable_raw_mode(&mut state, &mut term).unwrap();
    let raw_attrs = term.current_attrs();

    let mut source = SimSource::new(vec![InternalEvent::PrimaryDeviceAttributes]);
    let r = query_keyboard_enhancement_flags(&mut state, &mut term, &mut source);
    assert_eq!(r, Ok(None));
    // The query must not exit a raw mode it did not enter.
    assert!(is_raw_mode_enabled(&state));
    assert_eq!(term.current_attrs(), raw_attrs);
}
