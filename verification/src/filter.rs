//! Filtering of `InternalEvent`s.
//!
//! A filter is a pure, stateless predicate over events, used to pick the
//! replies of one capability query out of the shared event stream. Each
//! feature-specific filter also accepts the `PrimaryDeviceAttributes`
//! beacon, so one bounded poll loop can tell "feature unsupported" (beacon
//! arrived, feature reply did not) from "terminal unresponsive" (neither
//! arrived before the timeout).

use vstd::prelude::*;

use crate::event::{Event, InternalEvent};

verus! {

/// Interface for filtering an `InternalEvent`.
pub trait Filter: Send + Sync {
    /// The set of events this filter accepts.
    spec fn accepts(&self, event: InternalEvent) -> bool;

    /// Returns whether the given event fulfills the filter.
    fn eval(&self, event: &InternalEvent) -> (r: bool)
        ensures
            r == self.accepts(*event),
    ;
}

/// Accepts cursor-position replies only.
#[derive(Debug, Clone, Copy)]
pub struct CursorPositionFilter;

impl Filter for CursorPositionFilter {
    open spec fn accepts(&self, event: InternalEvent) -> bool {
        event matches InternalEvent::CursorPosition(_, _)
    }

    fn eval(&self, event: &InternalEvent) -> (r: bool) {
        matches!(*event, InternalEvent::CursorPosition(_, _))
    }
}

/// Accepts a keyboard-enhancement-flags reply or the primary-device-attributes
/// beacon. Receiving the beacon without the flags reply means the terminal
/// does not support progressive keyboard enhancement.
#[derive(Debug, Clone, Copy)]
pub struct KeyboardEnhancementFlagsFilter;

impl Filter for KeyboardEnhancementFlagsFilter {
    open spec fn accepts(&self, event: InternalEvent) -> bool {
        ||| event matches InternalEvent::KeyboardEnhancementFlags(_)
        ||| event matches InternalEvent::PrimaryDeviceAttributes
    }

    fn eval(&self, event: &InternalEvent) -> (r: bool) {
        matches!(
            *event,
            InternalEvent::KeyboardEnhancementFlags(_) | InternalEvent::PrimaryDeviceAttributes
        )
    }
}

/// Accepts the primary-device-attributes beacon only.
#[derive(Debug, Clone, Copy)]
pub struct PrimaryDeviceAttributesFilter;

impl Filter for PrimaryDeviceAttributesFilter {
    open spec fn accepts(&self, event: InternalEvent) -> bool {
        event matches InternalEvent::PrimaryDeviceAttributes
    }

    fn eval(&self, event: &InternalEvent) -> (r: bool) {
        matches!(*event, InternalEvent::PrimaryDeviceAttributes)
    }
}

/// Accepts a theme-mode-changed user event or the primary-device-attributes
/// beacon, which is elicited even from terminals that do not support the
/// theme-mode query.
#[derive(Debug, Clone, Copy)]
pub struct ThemeModeFilter;

impl Filter for ThemeModeFilter {
    open spec fn accepts(&self, event: InternalEvent) -> bool {
        ||| event matches InternalEvent::Event(Event::ThemeModeChanged(_))
        ||| event matches InternalEvent::PrimaryDeviceAttributes
    }

    fn eval(&self, event: &InternalEvent) -> (r: bool) {
        matches!(
            *event,
            InternalEvent::Event(Event::ThemeModeChanged(_))
                | InternalEvent::PrimaryDeviceAttributes
        )
    }
}

/// Accepts a synchronized-output-mode reply or the primary-device-attributes
/// beacon, which is elicited even from terminals that do not support the
/// synchronized-output query.
#[derive(Debug, Clone, Copy)]
pub struct SynchronizedOutputModeFilter;

impl Filter for SynchronizedOutputModeFilter {
    open spec fn accepts(&self, event: InternalEvent) -> bool {
        ||| event matches InternalEvent::SynchronizedOutputMode(_)
        ||| event matches InternalEvent::PrimaryDeviceAttributes
    }

    fn eval(&self, event: &InternalEvent) -> (r: bool) {
        matches!(
            *event,
            InternalEvent::SynchronizedOutputMode(_) | InternalEvent::PrimaryDeviceAttributes
        )
    }
}

/// Accepts every reply the combined features query can receive: any of the
/// three feature replies, or the primary-device-attributes beacon that ends
/// the query.
#[derive(Debug, Clone, Copy)]
pub struct TerminalFeaturesFilter;

impl Filter for TerminalFeaturesFilter {
    open spec fn accepts(&self, event: InternalEvent) -> bool {
        ||| event matches InternalEvent::KeyboardEnhancementFlags(_)
        ||| event matches InternalEvent::Event(Event::ThemeModeChanged(_))
        ||| event matches InternalEvent::SynchronizedOutputMode(_)
        ||| event matches InternalEvent::PrimaryDeviceAttributes
    }

    fn eval(&self, event: &InternalEvent) -> (r: bool) {
        matches!(
            *event,
            InternalEvent::KeyboardEnhancementFlags(_)
                | InternalEvent::Event(Event::ThemeModeChanged(_))
                | InternalEvent::SynchronizedOutputMode(_)
                | InternalEvent::PrimaryDeviceAttributes
        )
    }
}

/// Accepts every user event; all non-user protocol replies are rejected.
#[derive(Debug, Clone, Copy)]
pub struct EventFilter;

impl Filter for EventFilter {
    open spec fn accepts(&self, event: InternalEvent) -> bool {
        event matches InternalEvent::Event(_)
    }

    fn eval(&self, event: &InternalEvent) -> (r: bool) {
        matches!(*event, InternalEvent::Event(_))
    }
}

/// Accepts every internal event, user or protocol reply.
#[derive(Debug, Clone, Copy)]
pub struct InternalEventFilter;

impl Filter for InternalEventFilter {
    open spec fn accepts(&self, event: InternalEvent) -> bool {
        true
    }

    fn eval(&self, event: &InternalEvent) -> (r: bool) {
        true
    }
}

/// Every feature-specific filter also accepts the primary-device-attributes
/// beacon, so a single bounded poll loop can distinguish "feature
/// unsupported" from "terminal unresponsive" without a second round trip.
pub proof fn lemma_feature_filters_accept_beacon()
    ensures
        KeyboardEnhancementFlagsFilter.accepts(InternalEvent::PrimaryDeviceAttributes),
        ThemeModeFilter.accepts(InternalEvent::PrimaryDeviceAttributes),
        SynchronizedOutputModeFilter.accepts(InternalEvent::PrimaryDeviceAttributes),
        TerminalFeaturesFilter.accepts(InternalEvent::PrimaryDeviceAttributes),
{
}

} // verus!
