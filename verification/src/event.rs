//! The event model: everything the shared input stream can produce.
//!
//! `Event` is what user code consumes; `InternalEvent` is the superset that
//! also carries the terminal's replies to capability probes. Exactly one
//! `InternalEvent` is produced per terminal reply, in FIFO order.

use vstd::prelude::*;

verus! {

/// Which theme a terminal reports itself as using.
#[derive(Clone, Copy, Debug, PartialEq, Eq)]
pub enum ThemeMode {
    Dark,
    Light,
}

/// Reply to a DECRQM query for the synchronized-output private mode.
/// `Enabled` is the DECRPM "set" reply, `Disabled` the "reset" reply;
/// `Unknown` means the terminal does not recognize the mode.
#[derive(Clone, Copy, Debug, PartialEq, Eq)]
pub enum SynchronizedOutputMode {
    Unknown,
    Enabled,
    Disabled,
}

/// Keyboard-enhancement flag: disambiguate escape codes.
pub const DISAMBIGUATE_ESCAPE_CODES: u8 = 0x01;
/// Keyboard-enhancement flag: report key event types (press/repeat/release).
pub const REPORT_EVENT_TYPES: u8 = 0x02;
/// Keyboard-enhancement flag: report alternate key codes.
pub const REPORT_ALTERNATE_KEYS: u8 = 0x04;
/// Keyboard-enhancement flag: report all keys as escape codes.
pub const REPORT_ALL_KEYS_AS_ESCAPE_CODES: u8 = 0x08;
/// Keyboard-enhancement flag: report the text associated with a key.
pub const REPORT_ASSOCIATED_TEXT: u8 = 0x10;

/// A bitset over the keyboard-enhancement flag constants above, as reported
/// by the terminal in reply to the progressive-enhancement probe.
#[derive(Clone, Copy, Debug, PartialEq, Eq)]
pub struct KeyboardEnhancementFlags(pub u8);

/// An ordinary user-visible input event. The payloads of the key, mouse,
/// paste and resize variants are opaque to the negotiation protocols in this
/// crate; only the theme-change payload is interpreted here.
#[derive(Clone, Debug, PartialEq, Eq)]
pub enum Event {
    FocusGained,
    FocusLost,
    Key(u16),
    Mouse(u16, u16),
    Paste(String),
    Resize(u16, u16),
    ThemeModeChanged(ThemeMode),
}

/// Every distinguishable input the event stream can produce: user events
/// plus the protocol replies elicited by capability probes.
///
/// `PrimaryDeviceAttributes` is a marker reply with no payload, used as a
/// liveness beacon: every probe appends a primary-device-attributes query,
/// so receiving this reply without the feature-specific one proves the
/// terminal processed the probe and does not support the feature.
#[derive(Clone, Debug, PartialEq, Eq)]
pub enum InternalEvent {
    Event(Event),
    CursorPosition(u16, u16),
    KeyboardEnhancementFlags(KeyboardEnhancementFlags),
    PrimaryDeviceAttributes,
    SynchronizedOutputMode(SynchronizedOutputMode),
}

/// Aggregate result of the combined capability query. Fields keep their
/// "absent/unknown" defaults when the terminal never replies to the
/// corresponding sub-probe before the beacon ends the query.
#[derive(Clone, Copy, Debug, PartialEq, Eq)]
pub struct TerminalFeatures {
    pub keyboard_enhancement_flags: Option<KeyboardEnhancementFlags>,
    pub synchronized_output_mode: SynchronizedOutputMode,
    pub theme_mode: Option<ThemeMode>,
}

/// The state of a `TerminalFeatures` value before any reply has arrived.
pub open spec fn features_default() -> TerminalFeatures {
    TerminalFeatures {
        keyboard_enhancement_flags: None,
        synchronized_output_mode: SynchronizedOutputMode::Unknown,
        theme_mode: None,
    }
}

impl Default for TerminalFeatures {
    /// Every feature starts out absent or unknown.
    fn default() -> (r: TerminalFeatures)
        ensures
            r == features_default(),
    {
        TerminalFeatures {
            keyboard_enhancement_flags: None,
            synchronized_output_mode: SynchronizedOutputMode::Unknown,
            theme_mode: None,
        }
    }
}

} // verus!
