//! Deterministic in-memory implementations of the consumed interfaces.
//!
//! `SimSource` replays a fixed queue of events; `SimTerminal` records what
//! is written and applied to it. Both can be told to fail their next few
//! calls, so every error path of the negotiation protocols can be driven
//! without a real terminal. They are verified against the same contracts
//! the platform implementations are trusted to meet.

use vstd::prelude::*;

use crate::error::IoError;
use crate::event::InternalEvent;
use crate::filter::Filter;
use crate::source::{has_match, is_first_match_at, EventSource};
use crate::tty::{TermAttrs, TerminalIo};

verus! {

/// An event source that replays a fixed FIFO queue.
pub struct SimSource {
    queue: Vec<InternalEvent>,
    poll_failures: u32,
    read_failures: u32,
    taken_log: Ghost<Seq<InternalEvent>>,
}

impl SimSource {
    /// A source whose queue holds exactly the given events, oldest first.
    pub fn new(events: Vec<InternalEvent>) -> (r: SimSource)
        ensures
            r.events() == events@,
            r.taken() == Seq::<InternalEvent>::empty(),
    {
        SimSource {
            queue: events,
            poll_failures: 0,
            read_failures: 0,
            taken_log: Ghost(Seq::empty()),
        }
    }

    /// Makes the next `n` polls fail with a transient error.
    pub fn fail_next_polls(&mut self, n: u32)
        ensures
            final(self).events() == old(self).events(),
            final(self).taken() == old(self).taken(),
    {
        self.poll_failures = n;
    }

    /// Makes the next `n` reads fail with a transient error.
    pub fn fail_next_reads(&mut self, n: u32)
        ensures
            final(self).events() == old(self).events(),
            final(self).taken() == old(self).taken(),
    {
        self.read_failures = n;
    }

    /// How many events are still pending.
    pub fn pending_len(&self) -> (r: usize)
        ensures
            r == self.events().len(),
    {
        self.queue.len()
    }
}

impl EventSource for SimSource {
    closed spec fn events(&self) -> Seq<InternalEvent> {
        self.queue@
    }

    closed spec fn taken(&self) -> Seq<InternalEvent> {
        self.taken_log@
    }

    fn poll<F: Filter>(&mut self, timeout_ms: u64, filter: &F) -> (r: Result<bool, IoError>) {
        proof {
            assert(self.queue@.is_prefix_of(self.queue@)) by {
                assert(self.queue@ =~= self.queue@.subrange(0, self.queue@.len() as int));
            }
        }
        if self.poll_failures > 0 {
            self.poll_failures = self.poll_failures - 1;
            return Err(IoError);
        }
        let n = self.queue.len();
        let mut i: usize = 0;
        while i < n
            invariant
                i <= n,
                n == self.queue@.len(),
                self.queue@ == old(self).queue@,
                self.taken_log@ == old(self).taken_log@,
                forall|j: int| 0 <= j < i ==> !(#[trigger] filter.accepts(self.queue@[j])),
            decreases n - i,
        {
            if filter.eval(&self.queue[i]) {
                proof {
                    assert(filter.accepts(self.queue@[i as int]));
                    assert(has_match(*filter, self.queue@));
                }
                return Ok(true);
            }
            i = i + 1;
        }
        proof {
            assert(!has_match(*filter, self.queue@));
        }
        Ok(false)
    }

    fn read<F: Filter>(&mut self, filter: &F) -> (r: Result<InternalEvent, IoError>) {
        if self.read_failures > 0 {
            self.read_failures = self.read_failures - 1;
            return Err(IoError);
        }
        let n = self.queue.len();
        let mut i: usize = 0;
        while i < n
            invariant
                i <= n,
                n == self.queue@.len(),
                self.queue@ == old(self).queue@,
                self.taken_log@ == old(self).taken_log@,
                has_match(*filter, self.queue@),
                forall|j: int| 0 <= j < i ==> !(#[trigger] filter.accepts(self.queue@[j])),
            decreases n - i,
        {
            if filter.eval(&self.queue[i]) {
                let e = self.queue.remove(i);
                proof {
                    self.taken_log@ = self.taken_log@.push(e);
                    assert(is_first_match_at(*filter, old(self).events(), i as int));
                    assert(e == old(self).events()[i as int]);
                    assert(self.events() == old(self).events().remove(i as int));
                }
                return Ok(e);
            }
            i = i + 1;
        }
        // The queue held a match, yet no index up to its length accepted:
        // impossible, so this point is unreachable.
        proof {
            let w = choose|k: int| 0 <= k < self.queue@.len() && #[trigger] filter.accepts(
                self.queue@[k],
            );
            assert(false);
        }
        Err(IoError)
    }
}

/// A terminal that records applied attribute configurations and written
/// bytes in memory.
pub struct SimTerminal {
    current: TermAttrs,
    written_log: Vec<u8>,
    get_failures: u32,
    set_failures: u32,
    write_failures: u32,
}

impl SimTerminal {
    /// A terminal whose current configuration is `initial` and that has
    /// seen no writes yet.
    pub fn new(initial: TermAttrs) -> (r: SimTerminal)
        ensures
            r.attrs() == initial,
            r.written() == Seq::<u8>::empty(),
    {
        SimTerminal {
            current: initial,
            written_log: Vec::new(),
            get_failures: 0,
            set_failures: 0,
            write_failures: 0,
        }
    }

    /// Makes the next `n` attribute reads fail.
    pub fn fail_next_gets(&mut self, n: u32)
        ensures
            final(self).attrs() == old(self).attrs(),
            final(self).written() == old(self).written(),
    {
        self.get_failures = n;
    }

    /// Makes the next `n` attribute applications fail.
    pub fn fail_next_sets(&mut self, n: u32)
        ensures
            final(self).attrs() == old(self).attrs(),
            final(self).written() == old(self).written(),
    {
        self.set_failures = n;
    }

    /// Makes the next `n` byte writes fail.
    pub fn fail_next_writes(&mut self, n: u32)
        ensures
            final(self).attrs() == old(self).attrs(),
            final(self).written() == old(self).written(),
    {
        self.write_failures = n;
    }

    /// The configuration the terminal currently has.
    pub fn current_attrs(&self) -> (r: TermAttrs)
        ensures
            r == self.attrs(),
    {
        self.current
    }

    /// Everything written to the terminal so far.
    pub fn written_bytes(&self) -> (r: &Vec<u8>)
        ensures
            r@ == self.written(),
    {
        &self.written_log
    }
}

impl TerminalIo for SimTerminal {
    closed spec fn attrs(&self) -> TermAttrs {
        self.current
    }

    closed spec fn written(&self) -> Seq<u8> {
        self.written_log@
    }

    /// Raw semantics are modelled by setting the lowest attribute bit.
    open spec fn raw_of(a: TermAttrs) -> TermAttrs {
        TermAttrs(a.0 | 1)
    }

    fn get_attrs(&mut self) -> (r: Result<TermAttrs, IoError>) {
        if self.get_failures > 0 {
            self.get_failures = self.get_failures - 1;
            return Err(IoError);
        }
        Ok(self.current)
    }

    fn raw_attrs(&self, a: &TermAttrs) -> (r: TermAttrs) {
        TermAttrs(a.0 | 1)
    }

    fn set_attrs(&mut self, a: &TermAttrs) -> (r: Result<(), IoError>) {
        if self.set_failures > 0 {
            self.set_failures = self.set_failures - 1;
            return Err(IoError);
        }
        self.current = *a;
        Ok(())
    }

    fn write_bytes(&mut self, bytes: &[u8]) -> (r: Result<(), IoError>) {
        proof {
            assert(self.written_log@.is_prefix_of(self.written_log@)) by {
                assert(self.written_log@ =~= self.written_log@.subrange(
                    0,
                    self.written_log@.len() as int,
                ));
            }
        }
        if self.write_failures > 0 {
            self.write_failures = self.write_failures - 1;
            return Err(IoError);
        }
        let n = bytes.len();
        let mut i: usize = 0;
        while i < n
            invariant
                i <= n,
                n == bytes@.len(),
                self.written_log@ == old(self).written_log@ + bytes@.take(i as int),
                self.current == old(self).current,
            decreases n - i,
        {
            self.written_log.push(bytes[i]);
            proof {
                assert(self.written_log@ =~= old(self).written_log@ + bytes@.take(i + 1 as int));
            }
            i = i + 1;
        }
        proof {
            assert(bytes@.take(n as int) =~= bytes@);
        }
        Ok(())
    }
}

} // verus!
