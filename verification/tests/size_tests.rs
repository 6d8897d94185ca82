use termprobe::size::{tput_size, tput_value};

#[test]
fn tput_output_digits_fold_into_a_count() {
    assert_eq!(tput_value(b"80"), Some(80));
    assert_eq!(tput_value(b"132\n"), Some(132));
    // Non-digit bytes are skipped, not terminators.
    assert_eq!(tput_value(b"12x3"), Some(123));
}

#[test]
fn tput_output_without_a_positive_count_is_unusable() {
    assert_eq!(tput_value(b""), None);
    assert_eq!(tput_value(b"0"), None);
    assert_eq!(tput_value(b"abc"), None);
    // The fold wraps on u16 overflow; a wrap to zero is unusable too.
    assert_eq!(tput_value(b"65536"), None);
    assert_eq!(tput_value(b"65537"), Some(1));
}

#[test]
fn tput_size_needs_both_answers() {
    assert_eq!(tput_size(Some(80), Some(24)), Some((80, 24)));
    assert_eq!(tput_size(None, Some(24)), None);
    assert_eq!(tput_size(Some(80), None), None);
    assert_eq!(tput_size(None, None), None);
}
