use termprobe::raw::{disable_raw_mode, enable_raw_mode, is_raw_mode_enabled, RawModeState};
use termprobe::sim::SimTerminal;
use termprobe::tty::TermAttrs;

#[test]
fn enable_twice_keeps_the_first_saved_original() {
    let mut state = RawModeState::new();
    let mut term = SimTerminal::new(TermAttrs(8));

    assert!(!is_raw_mode_enabled(&state));
    assert_eq!(enable_raw_mode(&mut state, &mut term), Ok(()));
    assert!(is_raw_mode_enabled(&state));
    let after_first = term.current_attrs();

    // A second enable is a no-op: it must not touch the terminal nor
    // overwrite the saved original.
    assert_eq!(enable_raw_mode(&mut state, &mut term), Ok(()));
    assert!(is_raw_mode_enabled(&state));
    assert_eq!(term.current_attrs(), after_first);

    // Disabling after either restores the pre-enable attributes exactly.
    assert_eq!(disable_raw_mode(&mut state, &mut term), Ok(()));
    assert!(!is_raw_mode_enabled(&state));
    assert_eq!(term.current_attrs(), TermAttrs(8));
}

#[test]
fn disable_without_enable_is_a_successful_no_op() {
    let mut state = RawModeState::new();
    let mut term = SimTerminal::new(TermAttrs(42));

    assert_eq!(disable_raw_mode(&mut state, &mut term), Ok(()));
    assert!(!is_raw_mode_enabled(&state));
    assert_eq!(term.current_attrs(), TermAttrs(42));
}

#[test]
fn failed_enable_leaves_the_state_cooked() {
    let mut state = RawModeState::new();
    let mut term = SimTerminal::new(TermAttrs(8));

    term.fail_next_sets(1);
    assert!(enable_raw_mode(&mut state, &mut term).is_err());
    assert!(!is_raw_mode_enabled(&state));

    term.fail_next_gets(1);
    assert!(enable_raw_mode(&mut state, &mut term).is_err());
    assert!(!is_raw_mode_enabled(&state));
}

#[test]
fn failed_disable_keeps_the_original_for_a_retry() {
    let mut state = RawModeState::new();
    let mut term = SimTerminal::new(TermAttrs(8));

    assert_eq!(enable_raw_mode(&mut state, &mut term), Ok(()));
    term.fail_next_sets(1);
    assert!(disable_raw_mode(&mut state, &mut term).is_err());
    assert!(is_raw_mode_enabled(&state));

    // The retry succeeds and restores the pre-enable attributes exactly.
    assert_eq!(disable_raw_mode(&mut state, &mut term), Ok(()));
    assert!(!is_raw_mode_enabled(&state));
    assert_eq!(term.current_attrs(), TermAttrs(8));
}
