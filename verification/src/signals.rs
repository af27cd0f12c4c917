//! Process-signal and shutdown coordination for the console: the queue of
//! signals received and the shutdown flag. Installing the operating-system
//! handlers, and sharing the controller with the thread that feeds it, is
//! the caller's.
use vstd::prelude::*;

verus! {

/// Signals relevant to the console lifecycle.
#[derive(Clone, Copy, Debug, Eq, PartialEq, Structural)]
pub enum ProcessSignal {
    /// Interrupt the active child or input line.
    Interrupt,
    /// Request graceful shutdown.
    Terminate,
    /// Request graceful shutdown when the controlling session disappears.
    Hangup,
}

/// Whether a signal asks for shutdown.
pub open spec fn requests_shutdown(signal: ProcessSignal) -> bool {
    signal == ProcessSignal::Terminate || signal == ProcessSignal::Hangup
}

/// The queue without its shutdown requests.
pub open spec fn without_shutdown(events: Seq<ProcessSignal>) -> Seq<ProcessSignal> {
    events.filter(|s: ProcessSignal| !requests_shutdown(s))
}

/// The queue without its interrupts.
pub open spec fn without_interrupts(events: Seq<ProcessSignal>) -> Seq<ProcessSignal> {
    events.filter(|s: ProcessSignal| s != ProcessSignal::Interrupt)
}

/// Signal event queue shared by the application and child supervisor.
#[derive(Debug)]
pub struct SignalController {
    events: Vec<ProcessSignal>,
    shutdown_requested: bool,
}

impl SignalController {
    /// The signals received and not yet taken, oldest first.
    pub closed spec fn queue(self) -> Seq<ProcessSignal> {
        self.events@
    }

    /// Whether graceful shutdown has been requested.
    pub closed spec fn shutdown_flag(self) -> bool {
        self.shutdown_requested
    }

    /// Construct a controller that has received nothing.
    pub fn test() -> (r: Self)
        ensures
            r.queue() == Seq::<ProcessSignal>::empty(),
            !r.shutdown_flag(),
    {
        SignalController { events: Vec::new(), shutdown_requested: false }
    }

    /// Record a signal: it joins the queue, and a terminate or hangup sets
    /// the shutdown flag.
    pub fn inject(&mut self, signal: ProcessSignal)
        ensures
            final(self).queue() == old(self).queue().push(signal),
            final(self).shutdown_flag() == (old(self).shutdown_flag() || requests_shutdown(signal)),
    {
        if signal == ProcessSignal::Terminate || signal == ProcessSignal::Hangup {
            self.shutdown_requested = true;
        }
        self.events.push(signal);
    }

    /// Return whether shutdown was requested, taking the shutdown signals from
    /// the queue and keeping the others in order.
    pub fn take_shutdown(&mut self) -> (b: bool)
        ensures
            b == (old(self).shutdown_flag() || exists|i: int|
                0 <= i < old(self).queue().len() && requests_shutdown(#[trigger] old(self).queue()[i])),
            final(self).queue() == without_shutdown(old(self).queue()),
            final(self).shutdown_flag() == old(self).shutdown_flag(),
    {
        let ghost q = self.events@;
        let mut shutdown = false;
        let mut retained: Vec<ProcessSignal> = Vec::new();
        let mut i: usize = 0;
        while i < self.events.len()
            invariant
                q == self.events@,
                i <= q.len(),
                retained@ == without_shutdown(q.subrange(0, i as int)),
                shutdown == exists|k: int| 0 <= k < i && requests_shutdown(#[trigger] q[k]),
            decreases q.len() - i,
        {
            let event = self.events[i];
            proof {
                reveal(Seq::filter);
                assert(q.subrange(0, i + 1).drop_last() =~= q.subrange(0, i as int));
            }
            if event == ProcessSignal::Terminate || event == ProcessSignal::Hangup {
                shutdown = true;
            } else {
                retained.push(event);
            }
            i = i + 1;
        }
        proof {
            assert(q.subrange(0, q.len() as int) =~= q);
        }
        assert(shutdown == exists|k: int| 0 <= k < q.len() && requests_shutdown(#[trigger] q[k]));
        assert(q == old(self).queue());
        let flag = self.shutdown_requested;
        assert(flag == old(self).shutdown_flag());
        self.events = retained;
        shutdown || flag
    }

    /// Return whether graceful shutdown has been requested.
    pub fn is_shutdown_requested(&self) -> (b: bool)
        ensures
            b == self.shutdown_flag(),
    {
        self.shutdown_requested
    }

    /// Return whether an interrupt was received, taking the interrupts from
    /// the queue and keeping the others in order.
    pub fn take_interrupt(&mut self) -> (b: bool)
        ensures
            b == old(self).queue().contains(ProcessSignal::Interrupt),
            final(self).queue() == without_interrupts(old(self).queue()),
            final(self).shutdown_flag() == old(self).shutdown_flag(),
    {
        let ghost q = self.events@;
        let mut interrupted = false;
        let mut retained: Vec<ProcessSignal> = Vec::new();
        let mut i: usize = 0;
        while i < self.events.len()
            invariant
                q == self.events@,
                i <= q.len(),
                retained@ == without_interrupts(q.subrange(0, i as int)),
                interrupted == exists|k: int| 0 <= k < i && #[trigger] q[k] == ProcessSignal::Interrupt,
            decreases q.len() - i,
        {
            let event = self.events[i];
            proof {
                reveal(Seq::filter);
                assert(q.subrange(0, i + 1).drop_last() =~= q.subrange(0, i as int));
            }
            if event == ProcessSignal::Interrupt {
                interrupted = true;
            } else {
                retained.push(event);
            }
            i = i + 1;
        }
        proof {
            assert(q.subrange(0, q.len() as int) =~= q);
        }
        self.events = retained;
        interrupted
    }
}

impl Default for SignalController {
    fn default() -> (r: Self)
        ensures
            r.queue() == Seq::<ProcessSignal>::empty(),
            !r.shutdown_flag(),
    {
        SignalController::test()
    }
}

/// Taking the interrupts leaves none behind, so a second take finds none;
/// the shutdown requests in the queue are kept for `take_shutdown`.
pub proof fn lemma_interrupts_taken_once(events: Seq<ProcessSignal>)
    ensures
        !without_interrupts(events).contains(ProcessSignal::Interrupt),
        forall|s: ProcessSignal| requests_shutdown(s) ==> (events.contains(s) <==> without_interrupts(events).contains(s)),
    decreases events.len(),
{
    reveal(Seq::filter);
    if events.len() > 0 {
        let rest = events.drop_last();
        lemma_interrupts_taken_once(rest);
        assert(events =~= rest.push(events.last()));
        assert forall|s: ProcessSignal| requests_shutdown(s) implies (events.contains(s) <==> without_interrupts(events).contains(s)) by {
            if events.contains(s) {
                let k = choose|k: int| 0 <= k < events.len() && events[k] == s;
                if k < rest.len() {
                    assert(rest[k] == s);
                    assert(rest.contains(s));
                    let j = choose|j: int| 0 <= j < without_interrupts(rest).len() && without_interrupts(rest)[j] == s;
                    assert(without_interrupts(events)[j] == s);
                } else {
                    assert(events.last() == s);
                    assert(without_interrupts(events).last() == s);
                }
            }
            if without_interrupts(events).contains(s) {
                let j = choose|j: int| 0 <= j < without_interrupts(events).len() && without_interrupts(events)[j] == s;
                if j < without_interrupts(rest).len() {
                    assert(without_interrupts(rest)[j] == s);
                    let k = choose|k: int| 0 <= k < rest.len() && rest[k] == s;
                    assert(events[k] == s);
                } else {
                    assert(events.last() == s);
                }
            }
        }
        if without_interrupts(events).contains(ProcessSignal::Interrupt) {
            let j = choose|j: int| 0 <= j < without_interrupts(events).len() && without_interrupts(events)[j] == ProcessSignal::Interrupt;
            if j < without_interrupts(rest).len() {
                assert(without_interrupts(rest)[j] == ProcessSignal::Interrupt);
            }
        }
    }
}

} // verus!
