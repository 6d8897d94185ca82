//! The capability-negotiation protocols.
//!
//! Four closely related procedures, differing only in probe bytes, accepted
//! filter and reply interpretation: each writes its probe (always ending in
//! the primary-device-attributes query, the liveness beacon), then polls the
//! event source with a bounded timeout and a topic-specific filter, reads
//! the matching reply and interprets it. The beacon arriving without the
//! feature reply is the well-formed "not supported" outcome; nothing
//! arriving within the window is a timeout error. Transient poll or read
//! failures are swallowed and the poll retried — the probe was already sent
//! — up to a fixed retry budget, so every query provably terminates.
//!
//! Each query needs raw mode for its duration: if the caller had not
//! already enabled it, the query enables it first and unconditionally
//! disables it again on every exit path, including errors.
//!
//! The queries are meant to be serialized by the caller (in a real program,
//! under one query lock): two concurrent queries would race to drain the
//! shared beacon, and one could consume the other's terminating event.

use vstd::prelude::*;

use crate::error::QueryError;
use crate::event::{
    features_default, Event, InternalEvent, KeyboardEnhancementFlags, SynchronizedOutputMode,
    TerminalFeatures, ThemeMode,
};
use crate::filter::{
    Filter, KeyboardEnhancementFlagsFilter, PrimaryDeviceAttributesFilter,
    SynchronizedOutputModeFilter, TerminalFeaturesFilter, ThemeModeFilter,
};
use crate::raw::{disable_raw_mode, enable_raw_mode, is_raw_mode_enabled, RawModeState};
use crate::source::{has_match, EventSource};
use crate::tty::TerminalIo;

verus! {

/// How long one poll waits for a matching reply, in milliseconds.
pub const POLL_TIMEOUT_MS: u64 = 2000;

/// How many transient poll/read failures a query tolerates before giving
/// up with an I/O error. The budget makes every query terminate even
/// against a source that fails forever.
pub const TRANSIENT_RETRY_LIMIT: u32 = 100;

// ---------------------------------------------------------------------
// Probe byte sequences. These must match exactly, byte for byte, for wire
// compatibility with existing terminal emulators.
// ---------------------------------------------------------------------

/// `ESC [ ? u` — query progressive keyboard-enhancement flags.
pub open spec fn kbd_flags_query() -> Seq<u8> {
    seq![0x1bu8, 0x5bu8, 0x3fu8, 0x75u8]
}

/// `ESC [ ? 2026 $ p` — DECRQM request for the synchronized-output mode.
pub open spec fn sync_output_query() -> Seq<u8> {
    seq![0x1bu8, 0x5bu8, 0x3fu8, 0x32u8, 0x30u8, 0x32u8, 0x36u8, 0x24u8, 0x70u8]
}

/// `ESC [ ? 996 n` — query the current terminal theme mode.
pub open spec fn theme_mode_query() -> Seq<u8> {
    seq![0x1bu8, 0x5bu8, 0x3fu8, 0x39u8, 0x39u8, 0x36u8, 0x6eu8]
}

/// `ESC [ c` — query primary device attributes, the near-universally
/// supported beacon appended to every probe.
pub open spec fn device_attrs_query() -> Seq<u8> {
    seq![0x1bu8, 0x5bu8, 0x63u8]
}

/// The keyboard-enhancement probe: flags query, then the beacon.
pub open spec fn keyboard_probe_spec() -> Seq<u8> {
    kbd_flags_query() + device_attrs_query()
}

/// The synchronized-output probe: DECRQM query, then the beacon.
pub open spec fn sync_probe_spec() -> Seq<u8> {
    sync_output_query() + device_attrs_query()
}

/// The theme-mode probe: theme query, then the beacon.
pub open spec fn theme_probe_spec() -> Seq<u8> {
    theme_mode_query() + device_attrs_query()
}

/// The combined probe: keyboard flags, synchronized output, theme mode,
/// then the beacon, in that order.
pub open spec fn features_probe_spec() -> Seq<u8> {
    kbd_flags_query() + sync_output_query() + theme_mode_query() + device_attrs_query()
}

fn push_kbd_flags_query(v: &mut Vec<u8>)
    ensures
        final(v)@ == old(v)@ + kbd_flags_query(),
{
    v.push(0x1b);
    v.push(0x5b);
    v.push(0x3f);
    v.push(0x75);
    proof {
        assert(v@ =~= old(v)@ + kbd_flags_query());
    }
}

fn push_sync_output_query(v: &mut Vec<u8>)
    ensures
        final(v)@ == old(v)@ + sync_output_query(),
{
    v.push(0x1b);
    v.push(0x5b);
    v.push(0x3f);
    v.push(0x32);
    v.push(0x30);
    v.push(0x32);
    v.push(0x36);
    v.push(0x24);
    v.push(0x70);
    proof {
        assert(v@ =~= old(v)@ + sync_output_query());
    }
}

fn push_theme_mode_query(v: &mut Vec<u8>)
    ensures
        final(v)@ == old(v)@ + theme_mode_query(),
{
    v.push(0x1b);
    v.push(0x5b);
    v.push(0x3f);
    v.push(0x39);
    v.push(0x39);
    v.push(0x36);
    v.push(0x6e);
    proof {
        assert(v@ =~= old(v)@ + theme_mode_query());
    }
}

fn push_device_attrs_query(v: &mut Vec<u8>)
    ensures
        final(v)@ == old(v)@ + device_attrs_query(),
{
    v.push(0x1b);
    v.push(0x5b);
    v.push(0x63);
    proof {
        assert(v@ =~= old(v)@ + device_attrs_query());
    }
}

/// Builds the keyboard-enhancement probe bytes.
fn keyboard_probe() -> (r: Vec<u8>)
    ensures
        r@ == keyboard_probe_spec(),
{
    let mut v: Vec<u8> = Vec::new();
    push_kbd_flags_query(&mut v);
    push_device_attrs_query(&mut v);
    proof {
        assert(v@ =~= keyboard_probe_spec());
    }
    v
}

/// Builds the synchronized-output probe bytes.
fn sync_probe() -> (r: Vec<u8>)
    ensures
        r@ == sync_probe_spec(),
{
    let mut v: Vec<u8> = Vec::new();
    push_sync_output_query(&mut v);
    push_device_attrs_query(&mut v);
    proof {
        assert(v@ =~= sync_probe_spec());
    }
    v
}

/// Builds the theme-mode probe bytes.
fn theme_probe() -> (r: Vec<u8>)
    ensures
        r@ == theme_probe_spec(),
{
    let mut v: Vec<u8> = Vec::new();
    push_theme_mode_query(&mut v);
    push_device_attrs_query(&mut v);
    proof {
        assert(v@ =~= theme_probe_spec());
    }
    v
}

/// Builds the combined features probe bytes.
fn features_probe() -> (r: Vec<u8>)
    ensures
        r@ == features_probe_spec(),
{
    let mut v: Vec<u8> = Vec::new();
    push_kbd_flags_query(&mut v);
    push_sync_output_query(&mut v);
    push_theme_mode_query(&mut v);
    push_device_attrs_query(&mut v);
    proof {
        assert(v@ =~= features_probe_spec());
    }
    v
}

// ---------------------------------------------------------------------
// What each query consumes from the event stream, as a relation between
// the source's taken-log before and after the call and the outcome.
// ---------------------------------------------------------------------

/// A successful keyboard query consumed exactly the flags reply — plus the
/// beacon, when the best-effort drain caught it — or, for "not supported",
/// exactly the beacon.
pub open spec fn keyboard_reply_consumed(
    t0: Seq<InternalEvent>,
    t1: Seq<InternalEvent>,
    out: Option<KeyboardEnhancementFlags>,
) -> bool {
    match out {
        Some(f) => {
            ||| t1 == t0.push(InternalEvent::KeyboardEnhancementFlags(f))
            ||| t1 == t0.push(InternalEvent::KeyboardEnhancementFlags(f)).push(
                InternalEvent::PrimaryDeviceAttributes,
            )
        },
        None => t1 == t0.push(InternalEvent::PrimaryDeviceAttributes),
    }
}

/// A successful theme query consumed exactly the theme-change reply — plus
/// the beacon, when the drain caught it — or, for "not supported", exactly
/// the beacon.
pub open spec fn theme_reply_consumed(
    t0: Seq<InternalEvent>,
    t1: Seq<InternalEvent>,
    out: Option<ThemeMode>,
) -> bool {
    match out {
        Some(tm) => {
            ||| t1 == t0.push(InternalEvent::Event(Event::ThemeModeChanged(tm)))
            ||| t1 == t0.push(InternalEvent::Event(Event::ThemeModeChanged(tm))).push(
                InternalEvent::PrimaryDeviceAttributes,
            )
        },
        None => t1 == t0.push(InternalEvent::PrimaryDeviceAttributes),
    }
}

/// A positive synchronized-output query consumed a set or reset reply —
/// plus the beacon, when the drain caught it. A negative one consumed
/// exactly the beacon or exactly an unrecognized-mode reply.
pub open spec fn sync_reply_consumed(
    t0: Seq<InternalEvent>,
    t1: Seq<InternalEvent>,
    out: bool,
) -> bool {
    if out {
        exists|m: SynchronizedOutputMode|
            (m is Enabled || m is Disabled) && {
                ||| t1 == #[trigger] t0.push(InternalEvent::SynchronizedOutputMode(m))
                ||| t1 == t0.push(InternalEvent::SynchronizedOutputMode(m)).push(
                    InternalEvent::PrimaryDeviceAttributes,
                )
            }
    } else {
        ||| t1 == t0.push(InternalEvent::PrimaryDeviceAttributes)
        ||| t1 == t0.push(
            InternalEvent::SynchronizedOutputMode(SynchronizedOutputMode::Unknown),
        )
    }
}

/// One reply folded into the accumulating feature aggregate: each feature
/// reply overwrites its field, everything else changes nothing.
pub open spec fn apply_feature_reply(acc: TerminalFeatures, e: InternalEvent) -> TerminalFeatures {
    match e {
        InternalEvent::KeyboardEnhancementFlags(f) => TerminalFeatures {
            keyboard_enhancement_flags: Some(f),
            ..acc
        },
        InternalEvent::SynchronizedOutputMode(m) => TerminalFeatures {
            synchronized_output_mode: m,
            ..acc
        },
        InternalEvent::Event(Event::ThemeModeChanged(tm)) => TerminalFeatures {
            theme_mode: Some(tm),
            ..acc
        },
        _ => acc,
    }
}

/// The feature aggregate after folding a sequence of replies, oldest first.
pub open spec fn fold_feature_replies(
    acc: TerminalFeatures,
    replies: Seq<InternalEvent>,
) -> TerminalFeatures
    decreases replies.len(),
{
    if replies.len() == 0 {
        acc
    } else {
        apply_feature_reply(fold_feature_replies(acc, replies.drop_last()), replies.last())
    }
}

/// Folding distributes over appending one reply at the end.
pub proof fn lemma_fold_feature_replies_push(
    acc: TerminalFeatures,
    replies: Seq<InternalEvent>,
    e: InternalEvent,
)
    ensures
        fold_feature_replies(acc, replies.push(e)) == apply_feature_reply(
            fold_feature_replies(acc, replies),
            e,
        ),
{
    assert(replies.push(e).drop_last() =~= replies);
    assert(replies.push(e).last() == e);
}

/// A successful combined query consumed a run of feature replies ended by
/// the beacon, and its aggregate is exactly that run folded over the
/// defaults: fields never reported keep their absent/unknown defaults.
pub open spec fn features_consumed(
    t0: Seq<InternalEvent>,
    t1: Seq<InternalEvent>,
    feat: TerminalFeatures,
) -> bool {
    &&& t0.len() < t1.len()
    &&& t0.is_prefix_of(t1)
    &&& t1.last() == InternalEvent::PrimaryDeviceAttributes
    &&& forall|j: int|
        t0.len() <= j < t1.len() - 1 ==> TerminalFeaturesFilter.accepts(#[trigger] t1[j]) && !(
        t1[j] == InternalEvent::PrimaryDeviceAttributes)
    &&& feat == fold_feature_replies(
        features_default(),
        t1.subrange(t0.len() as int, t1.len() as int),
    )
}

// ---------------------------------------------------------------------
// Small sequence facts used to compose the contracts.
// ---------------------------------------------------------------------

proof fn lemma_prefix_of_self<A>(a: Seq<A>)
    ensures
        a.is_prefix_of(a),
{
    assert(a =~= a.subrange(0, a.len() as int));
}

proof fn lemma_prefix_of_concat<A>(a: Seq<A>, b: Seq<A>)
    ensures
        a.is_prefix_of(a + b),
{
    assert(a =~= (a + b).subrange(0, a.len() as int));
}

/// A query result is success, a timeout, or an I/O failure; nothing else.
proof fn lemma_query_error_cases<A>(r: Result<A, QueryError>)
    ensures
        r is Ok || r == Err::<A, QueryError>(QueryError::Timeout) || r == Err::<A, QueryError>(
            QueryError::Io,
        ),
{
    if r is Err {
        let e = r->Err_0;
        assert(e is Timeout ==> e == QueryError::Timeout);
        assert(e is Io ==> e == QueryError::Io);
        assert(r == Err::<A, QueryError>(e));
    }
}

// ---------------------------------------------------------------------
// The shared drain step.
// ---------------------------------------------------------------------

/// Best-effort flush of the trailing primary-device-attributes beacon out
/// of the event queue after a successful feature reply. Failures are
/// ignored: this is cleanup, never part of the result.
fn drain_beacon<S: EventSource>(source: &mut S)
    ensures
        final(source).taken() == old(source).taken() || final(source).taken() == old(source).taken().push(InternalEvent::PrimaryDeviceAttributes),
{
    let polled = source.poll(POLL_TIMEOUT_MS, &PrimaryDeviceAttributesFilter);
    match polled {
        Ok(true) => {
            let got = source.read(&PrimaryDeviceAttributesFilter);
            match got {
                Ok(e) => {
                    proof {
                        assert(e == InternalEvent::PrimaryDeviceAttributes);
                    }
                },
                Err(_) => {},
            }
        },
        _ => {},
    }
}

// ---------------------------------------------------------------------
// Keyboard enhancement flags.
// ---------------------------------------------------------------------

fn query_keyboard_enhancement_flags_raw<T: TerminalIo, S: EventSource>(
    term: &mut T,
    source: &mut S,
) -> (r: Result<Option<KeyboardEnhancementFlags>, QueryError>)
    ensures
        final(term).attrs() == old(term).attrs(),
        r is Ok ==> final(term).written() == old(term).written() + keyboard_probe_spec(),
        r matches Ok(out) ==> keyboard_reply_consumed(
            old(source).taken(),
            final(source).taken(),
            out,
        ),
        r == Err::<Option<KeyboardEnhancementFlags>, QueryError>(QueryError::Timeout) ==> {
            &&& final(source).taken() == old(source).taken()
            &&& !has_match(KeyboardEnhancementFlagsFilter, final(source).events())
            &&& final(term).written() == old(term).written() + keyboard_probe_spec()
        },
        r == Err::<Option<KeyboardEnhancementFlags>, QueryError>(QueryError::Io) ==> {
            &&& final(source).taken() == old(source).taken()
            &&& old(term).written().is_prefix_of(final(term).written())
        },
{
    let probe = keyboard_probe();
    let wrote = term.write_bytes(probe.as_slice());
    match wrote {
        Ok(()) => {},
        Err(_) => {
            return Err(QueryError::Io);
        },
    }
    let mut attempts: u32 = 0;
    loop
        invariant
            attempts <= TRANSIENT_RETRY_LIMIT,
            term.attrs() == old(term).attrs(),
            term.written() == old(term).written() + keyboard_probe_spec(),
            source.taken() == old(source).taken(),
        decreases TRANSIENT_RETRY_LIMIT - attempts,
    {
        if attempts >= TRANSIENT_RETRY_LIMIT {
            proof {
                lemma_prefix_of_concat(old(term).written(), keyboard_probe_spec());
            }
            return Err(QueryError::Io);
        }
        attempts = attempts + 1;
        let polled = source.poll(POLL_TIMEOUT_MS, &KeyboardEnhancementFlagsFilter);
        match polled {
            Ok(true) => {
                let got = source.read(&KeyboardEnhancementFlagsFilter);
                match got {
                    Ok(e) => {
                        match e {
                            InternalEvent::KeyboardEnhancementFlags(current_flags) => {
                                // Flush the beacon out of the event queue.
                                drain_beacon(source);
                                return Ok(Some(current_flags));
                            },
                            _ => {
                                proof {
                                    assert(e == InternalEvent::PrimaryDeviceAttributes);
                                }
                                return Ok(None);
                            },
                        }
                    },
                    Err(_) => {
                        // Transient read failure: the probe was already
                        // sent, so retrying the poll is cheap.
                    },
                }
            },
            Ok(false) => {
                return Err(QueryError::Timeout);
            },
            Err(_) => {
                // Transient poll failure: swallow and retry.
            },
        }
    }
}

fn query_keyboard_enhancement_flags_nonraw<T: TerminalIo, S: EventSource>(
    state: &mut RawModeState,
    term: &mut T,
    source: &mut S,
) -> (r: Result<Option<KeyboardEnhancementFlags>, QueryError>)
    requires
        old(state).saved_mode() is None,
    ensures
        r is Ok ==> final(state).saved_mode() is None,
        r is Ok ==> final(term).attrs() == old(term).attrs(),
        final(state).saved_mode() is None || final(state).saved_mode() == Some(old(term).attrs()),
        r matches Ok(out) ==> keyboard_reply_consumed(
            old(source).taken(),
            final(source).taken(),
            out,
        ),
        r is Ok ==> final(term).written() == old(term).written() + keyboard_probe_spec(),
        r == Err::<Option<KeyboardEnhancementFlags>, QueryError>(QueryError::Timeout) ==> {
            &&& final(source).taken() == old(source).taken()
            &&& !has_match(KeyboardEnhancementFlagsFilter, final(source).events())
            &&& final(term).written() == old(term).written() + keyboard_probe_spec()
            &&& final(term).attrs() == old(term).attrs()
            &&& final(state).saved_mode() is None
        },
        r == Err::<Option<KeyboardEnhancementFlags>, QueryError>(QueryError::Io) ==> old(term).written().is_prefix_of(final(term).written()),
{
    let entered = enable_raw_mode(state, term);
    match entered {
        Ok(()) => {},
        Err(_) => {
            proof {
                lemma_prefix_of_self(old(term).written());
            }
            return Err(QueryError::Io);
        },
    }
    let flags = query_keyboard_enhancement_flags_raw(term, source);
    proof {
        lemma_query_error_cases(flags);
    }
    let left = disable_raw_mode(state, term);
    match left {
        Ok(()) => {},
        Err(_) => {
            proof {
                lemma_prefix_of_concat(old(term).written(), keyboard_probe_spec());
                lemma_prefix_of_self(old(term).written());
            }
            return Err(QueryError::Io);
        },
    }
    flags
}

/// Queries the terminal's currently active keyboard-enhancement flags.
///
/// `Ok(Some(flags))` means the terminal replied with its flag set;
/// `Ok(None)` means the beacon arrived without a flags reply, so the
/// terminal does not support progressive keyboard enhancement. The query
/// enters raw mode for its duration if the caller had not already.
pub fn query_keyboard_enhancement_flags<T: TerminalIo, S: EventSource>(
    state: &mut RawModeState,
    term: &mut T,
    source: &mut S,
) -> (r: Result<Option<KeyboardEnhancementFlags>, QueryError>)
    ensures
        r is Ok ==> final(state).saved_mode() == old(state).saved_mode(),
        r is Ok ==> final(term).attrs() == old(term).attrs(),
        old(state).saved_mode() is Some ==> *final(state) == *old(state),
        old(state).saved_mode() is None ==> (final(state).saved_mode() is None || final(state).saved_mode() == Some(old(term).attrs())),
        r matches Ok(out) ==> keyboard_reply_consumed(
            old(source).taken(),
            final(source).taken(),
            out,
        ),
        r is Ok ==> final(term).written() == old(term).written() + keyboard_probe_spec(),
        r == Err::<Option<KeyboardEnhancementFlags>, QueryError>(QueryError::Timeout) ==> {
            &&& final(source).taken() == old(source).taken()
            &&& !has_match(KeyboardEnhancementFlagsFilter, final(source).events())
            &&& final(term).written() == old(term).written() + keyboard_probe_spec()
            &&& final(term).attrs() == old(term).attrs()
            &&& final(state).saved_mode() == old(state).saved_mode()
        },
        r == Err::<Option<KeyboardEnhancementFlags>, QueryError>(QueryError::Io) ==> old(term).written().is_prefix_of(final(term).written()),
{
    if is_raw_mode_enabled(state) {
        query_keyboard_enhancement_flags_raw(term, source)
    } else {
        query_keyboard_enhancement_flags_nonraw(state, term, source)
    }
}

/// Whether the terminal supports progressive keyboard enhancement: true
/// exactly when the flags query returns a populated flag set. At this
/// boolean layer, "replied with zero flags" is still support; callers
/// needing the distinction must use the flags query directly.
pub fn supports_keyboard_enhancement<T: TerminalIo, S: EventSource>(
    state: &mut RawModeState,
    term: &mut T,
    source: &mut S,
) -> (r: Result<bool, QueryError>)
    ensures
        r is Ok ==> final(state).saved_mode() == old(state).saved_mode(),
        r is Ok ==> final(term).attrs() == old(term).attrs(),
        old(state).saved_mode() is Some ==> *final(state) == *old(state),
        old(state).saved_mode() is None ==> (final(state).saved_mode() is None || final(state).saved_mode() == Some(old(term).attrs())),
        r matches Ok(b) ==> exists|out: Option<KeyboardEnhancementFlags>|
            #[trigger] keyboard_reply_consumed(old(source).taken(), final(source).taken(), out)
                && b == (out is Some),
        r is Ok ==> final(term).written() == old(term).written() + keyboard_probe_spec(),
        r == Err::<bool, QueryError>(QueryError::Timeout) ==> {
            &&& final(source).taken() == old(source).taken()
            &&& !has_match(KeyboardEnhancementFlagsFilter, final(source).events())
            &&& final(term).written() == old(term).written() + keyboard_probe_spec()
            &&& final(term).attrs() == old(term).attrs()
            &&& final(state).saved_mode() == old(state).saved_mode()
        },
        r == Err::<bool, QueryError>(QueryError::Io) ==> old(term).written().is_prefix_of(
            final(term).written(),
        ),
{
    let queried = query_keyboard_enhancement_flags(state, term, source);
    match queried {
        Ok(flags) => {
            let b = flags.is_some();
            proof {
                assert(keyboard_reply_consumed(
                    old(source).taken(),
                    source.taken(),
                    flags,
                ));
            }
            Ok(b)
        },
        Err(e) => Err(e),
    }
}

// ---------------------------------------------------------------------
// Terminal theme mode.
// ---------------------------------------------------------------------

fn query_terminal_theme_mode_raw<T: TerminalIo, S: EventSource>(
    term: &mut T,
    source: &mut S,
) -> (r: Result<Option<ThemeMode>, QueryError>)
    ensures
        final(term).attrs() == old(term).attrs(),
        r is Ok ==> final(term).written() == old(term).written() + theme_probe_spec(),
        r matches Ok(out) ==> theme_reply_consumed(old(source).taken(), final(source).taken(), out),
        r == Err::<Option<ThemeMode>, QueryError>(QueryError::Timeout) ==> {
            &&& final(source).taken() == old(source).taken()
            &&& !has_match(ThemeModeFilter, final(source).events())
            &&& final(term).written() == old(term).written() + theme_probe_spec()
        },
        r == Err::<Option<ThemeMode>, QueryError>(QueryError::Io) ==> {
            &&& final(source).taken() == old(source).taken()
            &&& old(term).written().is_prefix_of(final(term).written())
        },
{
    let probe = theme_probe();
    let wrote = term.write_bytes(probe.as_slice());
    match wrote {
        Ok(()) => {},
        Err(_) => {
            return Err(QueryError::Io);
        },
    }
    let mut attempts: u32 = 0;
    loop
        invariant
            attempts <= TRANSIENT_RETRY_LIMIT,
            term.attrs() == old(term).attrs(),
            term.written() == old(term).written() + theme_probe_spec(),
            source.taken() == old(source).taken(),
        decreases TRANSIENT_RETRY_LIMIT - attempts,
    {
        if attempts >= TRANSIENT_RETRY_LIMIT {
            proof {
                lemma_prefix_of_concat(old(term).written(), theme_probe_spec());
            }
            return Err(QueryError::Io);
        }
        attempts = attempts + 1;
        let polled = source.poll(POLL_TIMEOUT_MS, &ThemeModeFilter);
        match polled {
            Ok(true) => {
                let got = source.read(&ThemeModeFilter);
                match got {
                    Ok(e) => {
                        match e {
                            InternalEvent::Event(Event::ThemeModeChanged(theme_mode)) => {
                                // Flush the beacon out of the event queue.
                                drain_beacon(source);
                                return Ok(Some(theme_mode));
                            },
                            _ => {
                                proof {
                                    assert(e == InternalEvent::PrimaryDeviceAttributes);
                                }
                                return Ok(None);
                            },
                        }
                    },
                    Err(_) => {
                        // Transient read failure: the probe was already
                        // sent, so retrying the poll is cheap.
                    },
                }
            },
            Ok(false) => {
                return Err(QueryError::Timeout);
            },
            Err(_) => {
                // Transient poll failure: swallow and retry.
            },
        }
    }
}

fn query_terminal_theme_mode_nonraw<T: TerminalIo, S: EventSource>(
    state: &mut RawModeState,
    term: &mut T,
    source: &mut S,
) -> (r: Result<Option<ThemeMode>, QueryError>)
    requires
        old(state).saved_mode() is None,
    ensures
        r is Ok ==> final(state).saved_mode() is None,
        r is Ok ==> final(term).attrs() == old(term).attrs(),
        final(state).saved_mode() is None || final(state).saved_mode() == Some(old(term).attrs()),
        r matches Ok(out) ==> theme_reply_consumed(old(source).taken(), final(source).taken(), out),
        r is Ok ==> final(term).written() == old(term).written() + theme_probe_spec(),
        r == Err::<Option<ThemeMode>, QueryError>(QueryError::Timeout) ==> {
            &&& final(source).taken() == old(source).taken()
            &&& !has_match(ThemeModeFilter, final(source).events())
            &&& final(term).written() == old(term).written() + theme_probe_spec()
            &&& final(term).attrs() == old(term).attrs()
            &&& final(state).saved_mode() is None
        },
        r == Err::<Option<ThemeMode>, QueryError>(QueryError::Io) ==> old(term).written().is_prefix_of(final(term).written()),
{
    let entered = enable_raw_mode(state, term);
    match entered {
        Ok(()) => {},
        Err(_) => {
            proof {
                lemma_prefix_of_self(old(term).written());
            }
            return Err(QueryError::Io);
        },
    }
    let theme_mode = query_terminal_theme_mode_raw(term, source);
    proof {
        lemma_query_error_cases(theme_mode);
    }
    let left = disable_raw_mode(state, term);
    match left {
        Ok(()) => {},
        Err(_) => {
            proof {
                lemma_prefix_of_concat(old(term).written(), theme_probe_spec());
                lemma_prefix_of_self(old(term).written());
            }
            return Err(QueryError::Io);
        },
    }
    theme_mode
}

/// Queries the theme mode (dark or light) the terminal currently uses.
///
/// `Ok(Some(mode))` means the terminal replied; `Ok(None)` means the
/// beacon arrived without a theme reply, so the terminal does not support
/// the theme-mode query. The query enters raw mode for its duration if the
/// caller had not already.
pub fn query_terminal_theme_mode<T: TerminalIo, S: EventSource>(
    state: &mut RawModeState,
    term: &mut T,
    source: &mut S,
) -> (r: Result<Option<ThemeMode>, QueryError>)
    ensures
        r is Ok ==> final(state).saved_mode() == old(state).saved_mode(),
        r is Ok ==> final(term).attrs() == old(term).attrs(),
        old(state).saved_mode() is Some ==> *final(state) == *old(state),
        old(state).saved_mode() is None ==> (final(state).saved_mode() is None || final(state).saved_mode() == Some(old(term).attrs())),
        r matches Ok(out) ==> theme_reply_consumed(old(source).taken(), final(source).taken(), out),
        r is Ok ==> final(term).written() == old(term).written() + theme_probe_spec(),
        r == Err::<Option<ThemeMode>, QueryError>(QueryError::Timeout) ==> {
            &&& final(source).taken() == old(source).taken()
            &&& !has_match(ThemeModeFilter, final(source).events())
            &&& final(term).written() == old(term).written() + theme_probe_spec()
            &&& final(term).attrs() == old(term).attrs()
            &&& final(state).saved_mode() == old(state).saved_mode()
        },
        r == Err::<Option<ThemeMode>, QueryError>(QueryError::Io) ==> old(term).written().is_prefix_of(final(term).written()),
{
    if is_raw_mode_enabled(state) {
        query_terminal_theme_mode_raw(term, source)
    } else {
        query_terminal_theme_mode_nonraw(state, term, source)
    }
}

// ---------------------------------------------------------------------
// Synchronized output.
// ---------------------------------------------------------------------

fn supports_synchronized_output_raw<T: TerminalIo, S: EventSource>(
    term: &mut T,
    source: &mut S,
) -> (r: Result<bool, QueryError>)
    ensures
        final(term).attrs() == old(term).attrs(),
        r is Ok ==> final(term).written() == old(term).written() + sync_probe_spec(),
        r matches Ok(out) ==> sync_reply_consumed(old(source).taken(), final(source).taken(), out),
        r == Err::<bool, QueryError>(QueryError::Timeout) ==> {
            &&& final(source).taken() == old(source).taken()
            &&& !has_match(SynchronizedOutputModeFilter, final(source).events())
            &&& final(term).written() == old(term).written() + sync_probe_spec()
        },
        r == Err::<bool, QueryError>(QueryError::Io) ==> {
            &&& final(source).taken() == old(source).taken()
            &&& old(term).written().is_prefix_of(final(term).written())
        },
{
    let probe = sync_probe();
    let wrote = term.write_bytes(probe.as_slice());
    match wrote {
        Ok(()) => {},
        Err(_) => {
            return Err(QueryError::Io);
        },
    }
    let mut attempts: u32 = 0;
    loop
        invariant
            attempts <= TRANSIENT_RETRY_LIMIT,
            term.attrs() == old(term).attrs(),
            term.written() == old(term).written() + sync_probe_spec(),
            source.taken() == old(source).taken(),
        decreases TRANSIENT_RETRY_LIMIT - attempts,
    {
        if attempts >= TRANSIENT_RETRY_LIMIT {
            proof {
                lemma_prefix_of_concat(old(term).written(), sync_probe_spec());
            }
            return Err(QueryError::Io);
        }
        attempts = attempts + 1;
        let polled = source.poll(POLL_TIMEOUT_MS, &SynchronizedOutputModeFilter);
        match polled {
            Ok(true) => {
                let got = source.read(&SynchronizedOutputModeFilter);
                match got {
                    Ok(e) => {
                        match e {
                            InternalEvent::SynchronizedOutputMode(mode) => {
                                match mode {
                                    SynchronizedOutputMode::Enabled
                                    | SynchronizedOutputMode::Disabled => {
                                        // Flush the beacon out of the event queue.
                                        drain_beacon(source);
                                        proof {
                                            let t0 = old(source).taken();
                                            assert(source.taken() == t0.push(
                                                InternalEvent::SynchronizedOutputMode(mode),
                                            ) || source.taken() == t0.push(
                                                InternalEvent::SynchronizedOutputMode(mode),
                                            ).push(InternalEvent::PrimaryDeviceAttributes));
                                            assert(sync_reply_consumed(t0, source.taken(), true));
                                        }
                                        return Ok(true);
                                    },
                                    SynchronizedOutputMode::Unknown => {
                                        return Ok(false);
                                    },
                                }
                            },
                            _ => {
                                proof {
                                    assert(e == InternalEvent::PrimaryDeviceAttributes);
                                }
                                return Ok(false);
                            },
                        }
                    },
                    Err(_) => {
                        // Transient read failure: the probe was already
                        // sent, so retrying the poll is cheap.
                    },
                }
            },
            Ok(false) => {
                return Err(QueryError::Timeout);
            },
            Err(_) => {
                // Transient poll failure: swallow and retry.
            },
        }
    }
}

fn supports_synchronized_output_nonraw<T: TerminalIo, S: EventSource>(
    state: &mut RawModeState,
    term: &mut T,
    source: &mut S,
) -> (r: Result<bool, QueryError>)
    requires
        old(state).saved_mode() is None,
    ensures
        r is Ok ==> final(state).saved_mode() is None,
        r is Ok ==> final(term).attrs() == old(term).attrs(),
        final(state).saved_mode() is None || final(state).saved_mode() == Some(old(term).attrs()),
        r matches Ok(out) ==> sync_reply_consumed(old(source).taken(), final(source).taken(), out),
        r is Ok ==> final(term).written() == old(term).written() + sync_probe_spec(),
        r == Err::<bool, QueryError>(QueryError::Timeout) ==> {
            &&& final(source).taken() == old(source).taken()
            &&& !has_match(SynchronizedOutputModeFilter, final(source).events())
            &&& final(term).written() == old(term).written() + sync_probe_spec()
            &&& final(term).attrs() == old(term).attrs()
            &&& final(state).saved_mode() is None
        },
        r == Err::<bool, QueryError>(QueryError::Io) ==> old(term).written().is_prefix_of(
            final(term).written(),
        ),
{
    let entered = enable_raw_mode(state, term);
    match entered {
        Ok(()) => {},
        Err(_) => {
            proof {
                lemma_prefix_of_self(old(term).written());
            }
            return Err(QueryError::Io);
        },
    }
    let is_supported = supports_synchronized_output_raw(term, source);
    proof {
        lemma_query_error_cases(is_supported);
    }
    let left = disable_raw_mode(state, term);
    match left {
        Ok(()) => {},
        Err(_) => {
            proof {
                lemma_prefix_of_concat(old(term).written(), sync_probe_spec());
                lemma_prefix_of_self(old(term).written());
            }
            return Err(QueryError::Io);
        },
    }
    is_supported
}

/// Queries the terminal's support for synchronized output.
///
/// `Ok(true)` means the DECRQM reply reported the mode as set or reset;
/// `Ok(false)` means the mode is unrecognized or the beacon arrived
/// without a reply. The query enters raw mode for its duration if the
/// caller had not already.
pub fn supports_synchronized_output<T: TerminalIo, S: EventSource>(
    state: &mut RawModeState,
    term: &mut T,
    source: &mut S,
) -> (r: Result<bool, QueryError>)
    ensures
        r is Ok ==> final(state).saved_mode() == old(state).saved_mode(),
        r is Ok ==> final(term).attrs() == old(term).attrs(),
        old(state).saved_mode() is Some ==> *final(state) == *old(state),
        old(state).saved_mode() is None ==> (final(state).saved_mode() is None || final(state).saved_mode() == Some(old(term).attrs())),
        r matches Ok(out) ==> sync_reply_consumed(old(source).taken(), final(source).taken(), out),
        r is Ok ==> final(term).written() == old(term).written() + sync_probe_spec(),
        r == Err::<bool, QueryError>(QueryError::Timeout) ==> {
            &&& final(source).taken() == old(source).taken()
            &&& !has_match(SynchronizedOutputModeFilter, final(source).events())
            &&& final(term).written() == old(term).written() + sync_probe_spec()
            &&& final(term).attrs() == old(term).attrs()
            &&& final(state).saved_mode() == old(state).saved_mode()
        },
        r == Err::<bool, QueryError>(QueryError::Io) ==> old(term).written().is_prefix_of(
            final(term).written(),
        ),
{
    if is_raw_mode_enabled(state) {
        supports_synchronized_output_raw(term, source)
    } else {
        supports_synchronized_output_nonraw(state, term, source)
    }
}

// ---------------------------------------------------------------------
// The combined features query.
// ---------------------------------------------------------------------

fn terminal_features_raw<T: TerminalIo, S: EventSource>(
    term: &mut T,
    source: &mut S,
) -> (r: Result<TerminalFeatures, QueryError>)
    ensures
        final(term).attrs() == old(term).attrs(),
        r is Ok ==> final(term).written() == old(term).written() + features_probe_spec(),
        r matches Ok(feat) ==> features_consumed(old(source).taken(), final(source).taken(), feat),
        r == Err::<TerminalFeatures, QueryError>(QueryError::Timeout) ==> {
            &&& old(source).taken().is_prefix_of(final(source).taken())
            &&& !has_match(TerminalFeaturesFilter, final(source).events())
            &&& final(term).written() == old(term).written() + features_probe_spec()
        },
        r == Err::<TerminalFeatures, QueryError>(QueryError::Io) ==> {
            &&& old(source).taken().is_prefix_of(final(source).taken())
            &&& old(term).written().is_prefix_of(final(term).written())
        },
{
    let probe = features_probe();
    let wrote = term.write_bytes(probe.as_slice());
    match wrote {
        Ok(()) => {},
        Err(_) => {
            proof {
                lemma_prefix_of_self(old(source).taken());
            }
            return Err(QueryError::Io);
        },
    }
    let mut features = TerminalFeatures::default();
    let ghost mut consumed: Seq<InternalEvent> = Seq::empty();
    let mut attempts: u32 = 0;
    proof {
        assert(source.taken() =~= old(source).taken() + consumed);
    }
    loop
        invariant
            attempts <= TRANSIENT_RETRY_LIMIT,
            term.attrs() == old(term).attrs(),
            term.written() == old(term).written() + features_probe_spec(),
            source.taken() == old(source).taken() + consumed,
            features == fold_feature_replies(features_default(), consumed),
            forall|j: int|
                0 <= j < consumed.len() ==> TerminalFeaturesFilter.accepts(#[trigger] consumed[j])
                    && !(consumed[j] == InternalEvent::PrimaryDeviceAttributes),
        decreases TRANSIENT_RETRY_LIMIT - attempts,
    {
        if attempts >= TRANSIENT_RETRY_LIMIT {
            proof {
                lemma_prefix_of_concat(old(term).written(), features_probe_spec());
                lemma_prefix_of_concat(old(source).taken(), consumed);
            }
            return Err(QueryError::Io);
        }
        attempts = attempts + 1;
        let polled = source.poll(POLL_TIMEOUT_MS, &TerminalFeaturesFilter);
        match polled {
            Ok(true) => {
                let got = source.read(&TerminalFeaturesFilter);
                match got {
                    Ok(e) => {
                        match e {
                            InternalEvent::KeyboardEnhancementFlags(flags) => {
                                proof {
                                    let prev = consumed;
                                    let ev = InternalEvent::KeyboardEnhancementFlags(flags);
                                    consumed = consumed.push(ev);
                                    lemma_fold_feature_replies_push(features_default(), prev, ev);
                                    assert(old(source).taken() + consumed =~= (old(source).taken()
                                        + prev).push(ev));
                                }
                                features.keyboard_enhancement_flags = Some(flags);
                            },
                            InternalEvent::SynchronizedOutputMode(mode) => {
                                proof {
                                    let prev = consumed;
                                    let ev = InternalEvent::SynchronizedOutputMode(mode);
                                    consumed = consumed.push(ev);
                                    lemma_fold_feature_replies_push(features_default(), prev, ev);
                                    assert(old(source).taken() + consumed =~= (old(source).taken()
                                        + prev).push(ev));
                                }
                                features.synchronized_output_mode = mode;
                            },
                            InternalEvent::Event(Event::ThemeModeChanged(theme_mode)) => {
                                proof {
                                    let prev = consumed;
                                    let ev = InternalEvent::Event(
                                        Event::ThemeModeChanged(theme_mode),
                                    );
                                    consumed = consumed.push(ev);
                                    lemma_fold_feature_replies_push(features_default(), prev, ev);
                                    assert(old(source).taken() + consumed =~= (old(source).taken()
                                        + prev).push(ev));
                                }
                                features.theme_mode = Some(theme_mode);
                            },
                            _ => {
                                // The beacon: the query is complete, and
                                // fields never reported keep their defaults.
                                proof {
                                    let t0 = old(source).taken();
                                    let ev = InternalEvent::PrimaryDeviceAttributes;
                                    let done = consumed.push(ev);
                                    assert(source.taken() =~= t0 + done);
                                    lemma_prefix_of_concat(t0, done);
                                    lemma_fold_feature_replies_push(
                                        features_default(),
                                        consumed,
                                        ev,
                                    );
                                    assert(source.taken().subrange(
                                        t0.len() as int,
                                        source.taken().len() as int,
                                    ) =~= done);
                                    assert(source.taken().last() == ev);
                                    assert(forall|j: int|
                                        t0.len() <= j < source.taken().len() - 1
                                            ==> source.taken()[j] == consumed[j - t0.len()]);
                                    assert(features_consumed(t0, source.taken(), features));
                                }
                                return Ok(features);
                            },
                        }
                    },
                    Err(_) => {
                        // Transient read failure: the probe was already
                        // sent, so retrying the poll is cheap.
                    },
                }
            },
            Ok(false) => {
                proof {
                    lemma_prefix_of_concat(old(source).taken(), consumed);
                }
                return Err(QueryError::Timeout);
            },
            Err(_) => {
                // Transient poll failure: swallow and retry.
            },
        }
    }
}

fn terminal_features_nonraw<T: TerminalIo, S: EventSource>(
    state: &mut RawModeState,
    term: &mut T,
    source: &mut S,
) -> (r: Result<TerminalFeatures, QueryError>)
    requires
        old(state).saved_mode() is None,
    ensures
        r is Ok ==> final(state).saved_mode() is None,
        r is Ok ==> final(term).attrs() == old(term).attrs(),
        final(state).saved_mode() is None || final(state).saved_mode() == Some(old(term).attrs()),
        r matches Ok(feat) ==> features_consumed(old(source).taken(), final(source).taken(), feat),
        r is Ok ==> final(term).written() == old(term).written() + features_probe_spec(),
        r == Err::<TerminalFeatures, QueryError>(QueryError::Timeout) ==> {
            &&& old(source).taken().is_prefix_of(final(source).taken())
            &&& !has_match(TerminalFeaturesFilter, final(source).events())
            &&& final(term).written() == old(term).written() + features_probe_spec()
            &&& final(term).attrs() == old(term).attrs()
            &&& final(state).saved_mode() is None
        },
        r == Err::<TerminalFeatures, QueryError>(QueryError::Io) ==> old(term).written().is_prefix_of(final(term).written()),
{
    let entered = enable_raw_mode(state, term);
    match entered {
        Ok(()) => {},
        Err(_) => {
            proof {
                lemma_prefix_of_self(old(term).written());
            }
            return Err(QueryError::Io);
        },
    }
    let features = terminal_features_raw(term, source);
    proof {
        lemma_query_error_cases(features);
    }
    let left = disable_raw_mode(state, term);
    match left {
        Ok(()) => {},
        Err(_) => {
            proof {
                lemma_prefix_of_concat(old(term).written(), features_probe_spec());
                lemma_prefix_of_self(old(term).written());
            }
            return Err(QueryError::Io);
        },
    }
    features
}

/// Queries every feature of the combined probe in one bounded round trip.
///
/// Replies are accumulated as they arrive; the beacon ends the query, and
/// any feature the terminal never reported keeps its absent/unknown
/// default. The query enters raw mode for its duration if the caller had
/// not already.
pub fn terminal_features<T: TerminalIo, S: EventSource>(
    state: &mut RawModeState,
    term: &mut T,
    source: &mut S,
) -> (r: Result<TerminalFeatures, QueryError>)
    ensures
        r is Ok ==> final(state).saved_mode() == old(state).saved_mode(),
        r is Ok ==> final(term).attrs() == old(term).attrs(),
        old(state).saved_mode() is Some ==> *final(state) == *old(state),
        old(state).saved_mode() is None ==> (final(state).saved_mode() is None || final(state).saved_mode() == Some(old(term).attrs())),
        r matches Ok(feat) ==> features_consumed(old(source).taken(), final(source).taken(), feat),
        r is Ok ==> final(term).written() == old(term).written() + features_probe_spec(),
        r == Err::<TerminalFeatures, QueryError>(QueryError::Timeout) ==> {
            &&& old(source).taken().is_prefix_of(final(source).taken())
            &&& !has_match(TerminalFeaturesFilter, final(source).events())
            &&& final(term).written() == old(term).written() + features_probe_spec()
            &&& final(term).attrs() == old(term).attrs()
            &&& final(state).saved_mode() == old(state).saved_mode()
        },
        r == Err::<TerminalFeatures, QueryError>(QueryError::Io) ==> old(term).written().is_prefix_of(final(term).written()),
{
    if is_raw_mode_enabled(state) {
        terminal_features_raw(term, source)
    } else {
        terminal_features_nonraw(state, term, source)
    }
}

} // verus!
