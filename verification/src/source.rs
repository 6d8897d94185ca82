//! The event source: the shared, ordered stream of `InternalEvent`s that
//! carries both user input and protocol replies.
//!
//! The source is an external collaborator, consumed as an interface. Its
//! model is a FIFO queue of pending events plus a log of every event handed
//! out so far: polling may only append newly decoded events to the queue,
//! and reading removes exactly the first event the filter accepts.

use vstd::prelude::*;

use crate::error::IoError;
use crate::event::InternalEvent;
use crate::filter::Filter;

verus! {

/// Whether the queue holds at least one event the filter accepts.
pub open spec fn has_match<F: Filter>(f: F, q: Seq<InternalEvent>) -> bool {
    exists|i: int| 0 <= i < q.len() && #[trigger] f.accepts(q[i])
}

/// `i` indexes the first event of `q` that the filter accepts.
pub open spec fn is_first_match_at<F: Filter>(f: F, q: Seq<InternalEvent>, i: int) -> bool {
    &&& 0 <= i < q.len()
    &&& f.accepts(q[i])
    &&& forall|j: int| 0 <= j < i ==> !(#[trigger] f.accepts(q[j]))
}

/// A blocking source of `InternalEvent`s shared by user input and all
/// capability queries.
///
/// `events()` is the queue of already decoded, still pending events, in the
/// FIFO order the terminal produced them; `taken()` is the log of events
/// that `read` has handed out, in order. Implementations decode new
/// terminal bytes during `poll` and `read`, which may grow the queue, but
/// only `read` ever consumes from it.
pub trait EventSource {
    /// The pending events, oldest first. The default model is an empty
    /// queue; an implementation overrides this with its own state.
    open spec fn events(&self) -> Seq<InternalEvent> {
        Seq::empty()
    }

    /// Every event handed out by `read` so far, oldest first. The default
    /// model is an empty log; an implementation overrides this with its
    /// own state.
    open spec fn taken(&self) -> Seq<InternalEvent> {
        Seq::empty()
    }

    /// Waits up to `timeout_ms` milliseconds for an event the filter
    /// accepts, decoding new input into the queue but consuming nothing.
    /// `Ok(true)` means a matching event is now pending; `Ok(false)` means
    /// the window elapsed without one; `Err` is a transient failure.
    fn poll<F: Filter>(&mut self, timeout_ms: u64, filter: &F) -> (r: Result<bool, IoError>)
        ensures
            old(self).events().is_prefix_of(final(self).events()),
            final(self).taken() == old(self).taken(),
            r matches Ok(b) ==> b == has_match(*filter, final(self).events()),
    ;

    /// Removes and returns the first pending event the filter accepts; it
    /// never returns a non-matching event and never consumes more than that
    /// one event. `Err` is a transient failure that consumes nothing.
    fn read<F: Filter>(&mut self, filter: &F) -> (r: Result<InternalEvent, IoError>)
        requires
            has_match(*filter, old(self).events()),
        ensures
            r matches Ok(e) ==> {
                &&& filter.accepts(e)
                &&& final(self).taken() == old(self).taken().push(e)
                &&& exists|i: int| {
                    &&& #[trigger] is_first_match_at(*filter, old(self).events(), i)
                    &&& e == old(self).events()[i]
                    &&& final(self).events() == old(self).events().remove(i)
                }
            },
            r is Err ==> {
                &&& final(self).events() == old(self).events()
                &&& final(self).taken() == old(self).taken()
            },
    ;
}

} // verus!
