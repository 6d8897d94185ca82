//! The raw-mode state machine.
//!
//! A `RawModeState` is either cooked (nothing saved) or raw, holding the
//! attribute configuration the terminal had before raw mode was first
//! enabled. Enabling while already raw is a no-op that must not overwrite
//! the saved original; disabling while cooked is a no-op, not an error.
//! The cell is process-wide in a real program: callers guard it with one
//! mutex around each whole call, so a save and an apply never interleave.

use vstd::prelude::*;

use crate::error::IoError;
use crate::tty::{TermAttrs, TerminalIo};

verus! {

/// Cooked, or raw with the saved pre-raw attribute configuration.
#[derive(Debug)]
pub struct RawModeState {
    saved: Option<TermAttrs>,
}

impl RawModeState {
    /// The saved original configuration, present exactly while raw.
    pub closed spec fn saved_mode(&self) -> Option<TermAttrs> {
        self.saved
    }

    /// A fresh, cooked state, as at process start.
    pub fn new() -> (r: RawModeState)
        ensures
            r.saved_mode() is None,
    {
        RawModeState { saved: None }
    }
}

/// What `enable_raw_mode` leaves saved: an already saved original is kept,
/// otherwise the terminal's current configuration is saved.
pub open spec fn enable_transition(
    saved: Option<TermAttrs>,
    current: TermAttrs,
) -> Option<TermAttrs> {
    if saved is Some {
        saved
    } else {
        Some(current)
    }
}

/// Pure state read; no I/O.
pub fn is_raw_mode_enabled(state: &RawModeState) -> (r: bool)
    ensures
        r == (state.saved_mode() is Some),
{
    match state.saved {
        Some(_) => true,
        None => false,
    }
}

/// Puts the terminal into raw mode, saving the original configuration.
///
/// Already raw: success, nothing touched. Cooked: reads the current
/// attributes, applies their raw transformation, and saves the original
/// only after the apply succeeded, so a failed enable leaves the state
/// cooked and the terminal's bytes untouched.
pub fn enable_raw_mode<T: TerminalIo>(
    state: &mut RawModeState,
    term: &mut T,
) -> (r: Result<(), IoError>)
    ensures
        final(term).written() == old(term).written(),
        old(state).saved_mode() is Some ==> {
            &&& r is Ok
            &&& *final(state) == *old(state)
            &&& final(term).attrs() == old(term).attrs()
        },
        r is Ok ==> final(state).saved_mode() == enable_transition(
            old(state).saved_mode(),
            old(term).attrs(),
        ),
        r is Ok && old(state).saved_mode() is None ==> final(term).attrs() == T::raw_of(
            old(term).attrs(),
        ),
        r is Err ==> *final(state) == *old(state),
{
    if is_raw_mode_enabled(state) {
        return Ok(());
    }
    let original = match term.get_attrs() {
        Ok(a) => a,
        Err(e) => {
            return Err(e);
        },
    };
    let raw = term.raw_attrs(&original);
    match term.set_attrs(&raw) {
        Ok(()) => {
            // Keep it last: save the original only once the switch to raw
            // semantics has succeeded.
            state.saved = Some(original);
            Ok(())
        },
        Err(e) => Err(e),
    }
}

/// Restores the configuration saved before raw mode was first enabled.
///
/// Cooked: success, nothing touched. Raw: re-applies the saved original
/// and clears it only after the apply succeeded, so a failed restore keeps
/// the original for a later retry.
pub fn disable_raw_mode<T: TerminalIo>(
    state: &mut RawModeState,
    term: &mut T,
) -> (r: Result<(), IoError>)
    ensures
        final(term).written() == old(term).written(),
        old(state).saved_mode() is None ==> {
            &&& r is Ok
            &&& *final(state) == *old(state)
            &&& final(term).attrs() == old(term).attrs()
        },
        r is Ok ==> final(state).saved_mode() is None,
        old(state).saved_mode() matches Some(original) ==> (r is Ok ==> final(term).attrs()
            == original),
        r is Err ==> *final(state) == *old(state),
{
    let original = match state.saved {
        Some(a) => a,
        None => {
            return Ok(());
        },
    };
    match term.set_attrs(&original) {
        Ok(()) => {
            // Keep it last: forget the original only once the switch back
            // has succeeded.
            state.saved = None;
            Ok(())
        },
        Err(e) => Err(e),
    }
}

/// Raw-mode idempotence: enabling a second time, whatever the terminal's
/// configuration has become meanwhile, saves exactly what a single enable
/// saved.
pub proof fn lemma_enable_idempotent(
    saved: Option<TermAttrs>,
    first: TermAttrs,
    second: TermAttrs,
)
    ensures
        enable_transition(enable_transition(saved, first), second) == enable_transition(
            saved,
            first,
        ),
{
}

} // verus!
