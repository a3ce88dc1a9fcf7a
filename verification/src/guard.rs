//! The rerun guard: a flag that stops the handler from being fed the same
//! payload over and over.
//!
//! The flag starts clear. An error answer sets it, and so does a success
//! answer when the payload comes from a local file. A request for the next
//! invocation that finds the flag set clears it and is parked.

use vstd::prelude::*;

verus! {

/// Where invocations come from.
#[derive(Clone, Copy, Debug, PartialEq, Eq, Structural)]
pub enum Mode {
    /// A payload file on the local machine.
    Local,
    /// The request queue.
    Remote,
}

/// What the handler process asked of the emulator.
#[derive(Clone, Copy, Debug, PartialEq, Eq, Structural)]
pub enum GuardEvent {
    /// It asked for the next invocation.
    Next,
    /// It answered an invocation with a result.
    Response(Mode),
    /// It answered an invocation with an error.
    Error,
}

impl GuardEvent {
    /// The event answers an invocation.
    pub open spec fn is_terminal(self) -> bool {
        self != GuardEvent::Next
    }

    /// The event is an answer after which the same payload would come again.
    pub open spec fn sets_guard(self) -> bool {
        self == GuardEvent::Error || self == GuardEvent::Response(Mode::Local)
    }
}

/// The flag after `event`, given the flag before it.
pub open spec fn guard_step(set: bool, event: GuardEvent) -> bool {
    match event {
        GuardEvent::Next => false,
        GuardEvent::Response(Mode::Local) => true,
        GuardEvent::Response(Mode::Remote) => set,
        GuardEvent::Error => true,
    }
}

/// The flag after the events of `trace`, counted from the start of the
/// process.
pub open spec fn guard_after(trace: Seq<GuardEvent>) -> bool
    decreases trace.len(),
{
    if trace.len() == 0 {
        false
    } else {
        guard_step(guard_after(trace.drop_last()), trace.last())
    }
}

/// Whether the most recent answer in `trace` is one that sets the flag;
/// false when there is no answer in it.
pub open spec fn last_answer_sets(trace: Seq<GuardEvent>) -> bool
    decreases trace.len(),
{
    if trace.len() == 0 {
        false
    } else if trace.last().is_terminal() {
        trace.last().sets_guard()
    } else {
        last_answer_sets(trace.drop_last())
    }
}

/// The process-wide flag.
#[derive(Debug, PartialEq, Eq)]
pub struct RerunGuard {
    set: bool,
}

impl View for RerunGuard {
    type V = bool;

    closed spec fn view(&self) -> bool {
        self.set
    }
}

impl RerunGuard {
    /// The guard of a process that has just started: clear.
    pub fn new() -> (g: RerunGuard)
        ensures
            g@ == false,
    {
        RerunGuard { set: false }
    }

    /// Whether the guard is set.
    pub fn is_set(&self) -> (r: bool)
        ensures
            r == self@,
    {
        self.set
    }

    /// Consults the guard for a request for the next invocation. Returns
    /// whether the request must be parked, and leaves the guard clear.
    pub fn block_if_rerun(&mut self) -> (park: bool)
        ensures
            park == old(self)@,
            final(self)@ == guard_step(old(self)@, GuardEvent::Next),
    {
        let park = self.set;
        self.set = false;
        park
    }

    /// Records a success answer from the handler.
    pub fn record_response(&mut self, mode: Mode)
        ensures
            final(self)@ == guard_step(old(self)@, GuardEvent::Response(mode)),
    {
        match mode {
            Mode::Local => {
                self.set = true;
            },
            Mode::Remote => {},
        }
    }

    /// Records an error answer from the handler.
    pub fn record_error(&mut self)
        ensures
            final(self)@ == guard_step(old(self)@, GuardEvent::Error),
    {
        self.set = true;
    }

    /// Applies one event.
    pub fn apply(&mut self, event: GuardEvent)
        ensures
            final(self)@ == guard_step(old(self)@, event),
    {
        match event {
            GuardEvent::Next => {
                self.set = false;
            },
            GuardEvent::Response(mode) => {
                self.record_response(mode);
            },
            GuardEvent::Error => {
                self.record_error();
            },
        }
    }
}

/// The guard is set exactly when the most recent answer was an error, or a
/// success in local mode. This holds of every trace but two kinds: one
/// where a request for the next invocation has already consumed the flag
/// that the most recent answer set, and one that ends in a remote success
/// given while the flag was still set.
pub proof fn lemma_guard_tracks_last_answer(trace: Seq<GuardEvent>)
    requires
        !(last_answer_sets(trace) && trace.last() == GuardEvent::Next),
        !(trace.len() > 0 && trace.last() == GuardEvent::Response(Mode::Remote) && guard_after(
            trace.drop_last(),
        )),
    ensures
        guard_after(trace) == last_answer_sets(trace),
{
    if trace.len() > 0 && trace.last() == GuardEvent::Next {
        lemma_next_clears(trace);
    }
}

/// A request for the next invocation leaves the guard clear.
pub proof fn lemma_next_clears(trace: Seq<GuardEvent>)
    requires
        trace.len() > 0,
        trace.last() == GuardEvent::Next,
    ensures
        !guard_after(trace),
{
}

} // verus!
