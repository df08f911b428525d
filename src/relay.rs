use vstd::prelude::*;

verus! {

/// The state shared between the worker that spawns the child and the signal
/// handler: a signal that arrived before the child existed, and the child's
/// process id once it is known. It lives under a single lock.
#[derive(Clone, Copy, Debug, PartialEq, Eq, Structural)]
pub struct RelayState {
    pub pending: Option<i32>,
    pub child: Option<i32>,
}

/// What the signal handler must do after updating the state.
#[derive(Clone, Copy, Debug, PartialEq, Eq, Structural)]
pub enum RelayAction {
    /// The signal was kept until the child's id is known.
    Queued,
    /// Send `signal` to process `pid` now.
    Forward { pid: i32, signal: i32 },
}

/// One event seen by the shared state.
pub enum RelayEvent {
    /// A captured signal arrived.
    Signal(i32),
    /// The worker published the child's process id.
    Register(i32),
}

/// The state and the signal to send (to whom) after a signal `sig` arrives.
pub open spec fn signal_next(s: RelayState, sig: i32) -> (RelayState, Seq<(i32, i32)>) {
    match s.child {
        Some(pid) => (s, seq![(pid, sig)]),
        None => (RelayState { pending: Some(sig), child: None }, seq![]),
    }
}

/// The state and the signal to send after the child `pid` is published.
pub open spec fn register_next(s: RelayState, pid: i32) -> (RelayState, Seq<(i32, i32)>) {
    let next = RelayState { pending: None, child: Some(pid) };
    match s.pending {
        Some(sig) => (next, seq![(pid, sig)]),
        None => (next, seq![]),
    }
}

pub open spec fn event_next(s: RelayState, e: RelayEvent) -> (RelayState, Seq<(i32, i32)>) {
    match e {
        RelayEvent::Signal(sig) => signal_next(s, sig),
        RelayEvent::Register(pid) => register_next(s, pid),
    }
}

/// The final state and every `(pid, signal)` sent, in order, when `events`
/// reach the state `s` one after another.
pub open spec fn run(s: RelayState, events: Seq<RelayEvent>) -> (RelayState, Seq<(i32, i32)>)
    decreases events.len(),
{
    if events.len() == 0 {
        (s, seq![])
    } else {
        let (s1, out1) = event_next(s, events[0]);
        let (s2, out2) = run(s1, events.subrange(1, events.len() as int));
        (s2, out1 + out2)
    }
}

pub open spec fn signals(sigs: Seq<i32>) -> Seq<RelayEvent> {
    sigs.map_values(|sig: i32| RelayEvent::Signal(sig))
}

pub open spec fn sent_to(pid: i32, sigs: Seq<i32>) -> Seq<(i32, i32)> {
    sigs.map_values(|sig: i32| (pid, sig))
}

impl RelayState {
    /// The state before the worker starts: nothing queued, no child.
    pub fn new() -> (r: RelayState)
        ensures
            r == (RelayState { pending: None, child: None }),
    {
        RelayState { pending: None, child: None }
    }

    /// Handles a captured signal: forwards it to the child when its id is
    /// known, otherwise keeps it as the pending signal.
    pub fn on_signal(&mut self, sig: i32) -> (a: RelayAction)
        ensures
            *final(self) == signal_next(*old(self), sig).0,
            match old(self).child {
                Some(pid) => a == (RelayAction::Forward { pid, signal: sig }),
                None => a == RelayAction::Queued,
            },
    {
        match self.child {
            Some(pid) => RelayAction::Forward { pid, signal: sig },
            None => {
                self.pending = Some(sig);
                RelayAction::Queued
            },
        }
    }

    /// Publishes the child's id and, in the same step, takes the signal that
    /// is to be sent to it at once, if one was queued.
    pub fn register(&mut self, pid: i32) -> (flush: Option<i32>)
        ensures
            *final(self) == register_next(*old(self), pid).0,
            flush == old(self).pending,
    {
        let flush = self.pending;
        self.pending = None;
        self.child = Some(pid);
        flush
    }
}

proof fn lemma_forward_all(pid: i32, after: Seq<i32>)
    ensures
        run(RelayState { pending: None, child: Some(pid) }, signals(after)) == (
            RelayState { pending: None, child: Some(pid) },
            sent_to(pid, after),
        ),
    decreases after.len(),
{
    let s = RelayState { pending: None, child: Some(pid) };
    if after.len() == 0 {
        assert(signals(after).len() == 0);
        assert(sent_to(pid, after) =~= seq![]);
    } else {
        let rest = after.subrange(1, after.len() as int);
        lemma_forward_all(pid, rest);
        assert(signals(after).subrange(1, signals(after).len() as int) =~= signals(rest));
        assert(sent_to(pid, after) =~= seq![(pid, after[0])] + sent_to(pid, rest));
    }
}

/// A signal that arrives before the child's id is published reaches the child
/// when it is published, and every signal after that is forwarded at once:
/// each of them is sent to the child exactly once, in order of arrival, and
/// nothing stays pending.
pub proof fn lemma_signal_race(sig: i32, pid: i32, after: Seq<i32>)
    ensures
        run(
            RelayState { pending: None, child: None },
            seq![RelayEvent::Signal(sig), RelayEvent::Register(pid)] + signals(after),
        ) == (RelayState { pending: None, child: Some(pid) }, sent_to(pid, seq![sig] + after)),
{
    let s0 = RelayState { pending: None, child: None };
    let ev = seq![RelayEvent::Signal(sig), RelayEvent::Register(pid)] + signals(after);
    let ev1 = ev.subrange(1, ev.len() as int);
    let ev2 = ev1.subrange(1, ev1.len() as int);
    assert(ev2 =~= signals(after));
    assert(ev[0] == RelayEvent::Signal(sig));
    assert(ev1[0] == RelayEvent::Register(pid));
    let s1 = RelayState { pending: Some(sig), child: None };
    let s2 = RelayState { pending: None, child: Some(pid) };
    lemma_forward_all(pid, after);
    assert(run(s1, ev1) == (s2, seq![(pid, sig)] + sent_to(pid, after)));
    assert(run(s0, ev) == (s2, seq![] + (seq![(pid, sig)] + sent_to(pid, after))));
    assert(sent_to(pid, seq![sig] + after) =~= seq![(pid, sig)] + sent_to(pid, after));
    assert(seq![] + (seq![(pid, sig)] + sent_to(pid, after)) =~= seq![(pid, sig)] + sent_to(
        pid,
        after,
    ));
}

/// Signals that arrive after the child's id is published are each forwarded
/// at once, exactly once, in order, and none is queued.
pub proof fn lemma_forward_after_registration(pid: i32, after: Seq<i32>)
    ensures
        run(RelayState { pending: None, child: Some(pid) }, signals(after)) == (
            RelayState { pending: None, child: Some(pid) },
            sent_to(pid, after),
        ),
{
    lemma_forward_all(pid, after);
}

/// How the worker's attempt to run the child ended.
#[derive(Clone, Copy, Debug, PartialEq, Eq, Structural)]
pub enum ChildOutcome {
    /// The child could not be started.
    SpawnFailed,
    /// The child's termination could not be observed.
    WaitFailed,
    /// The child ended with this exit code, or `None` when it has none
    /// (it was ended by a signal).
    Exited(Option<i32>),
}

/// The launcher's own exit status for how its child ended.
pub open spec fn status_of(o: ChildOutcome) -> u8 {
    match o {
        ChildOutcome::SpawnFailed => crate::chain::RET_GENERIC_ERROR,
        ChildOutcome::WaitFailed => crate::chain::RET_GENERIC_ERROR,
        ChildOutcome::Exited(Some(c)) => (c as int % 256) as u8,
        ChildOutcome::Exited(None) => 255,
    }
}

/// The exit status the launcher ends with: the child's own exit code (its
/// low eight bits), 255 when the child has none, or the generic failure
/// status when the child could not be started or waited for.
pub fn final_status(o: ChildOutcome) -> (r: u8)
    ensures
        r == status_of(o),
{
    match o {
        ChildOutcome::SpawnFailed => crate::chain::RET_GENERIC_ERROR,
        ChildOutcome::WaitFailed => crate::chain::RET_GENERIC_ERROR,
        ChildOutcome::Exited(Some(c)) => {
            let w: i64 = c as i64 + 2147483648;
            let m: i64 = w % 256;
            assert(m == c as int % 256) by (nonlinear_arith)
                requires
                    w == c as int + 2147483648,
                    m == w % 256,
                    w >= 0,
            ;
            m as u8
        },
        ChildOutcome::Exited(None) => 255,
    }
}

} // verus!
