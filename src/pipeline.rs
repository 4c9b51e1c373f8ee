use crate::filter::WorkItem;
use crate::policy::{
    Action, FatalReason, RateLimitSignal, RetryPolicy, TerminalOutcome, decide,
};
use vstd::prelude::*;

verus! {

/// How a run ended.
#[derive(Clone, Copy, Debug, PartialEq, Eq, Structural)]
pub enum RunResult {
    /// Every item was resolved.
    Completed,
    /// Cancellation was observed between items.
    Cancelled,
    /// The item with this id met a fatal outcome; it is still pending.
    Aborted { id: u64, reason: FatalReason },
}

/// Where the driver stands.
#[derive(Clone, Copy, Debug, PartialEq, Eq, Structural)]
pub enum Phase {
    /// No item is in progress.
    Between,
    /// Call number `attempt` for the head item was issued; its outcome is awaited.
    Calling { attempt: u32 },
    /// The head item is throttled; call number `attempt` was its last one.
    Waiting { attempt: u32 },
    /// The run is over.
    Finished { result: RunResult },
}

/// What the caller must do next when asked by [`Pipeline::poll`].
#[derive(Clone, Copy, Debug, PartialEq, Eq, Structural)]
pub enum Step {
    /// Call the deletion for this id and hand the outcome to [`Pipeline::on_signal`].
    Attempt { id: u64, attempt: u32 },
    /// Write the remaining work to the checkpoint and stop.
    Finish { result: RunResult },
}

/// What the caller must do after an outcome was handed in.
#[derive(Clone, Copy, Debug, PartialEq, Eq, Structural)]
pub enum Reaction {
    /// The item left the queue: write the remaining work to the checkpoint,
    /// then pause for `pacing_secs` before polling again.
    Resolved { id: u64, outcome: TerminalOutcome, pacing_secs: u64 },
    /// The item stays at the head of the queue: wait `secs`, then poll again.
    Wait { id: u64, secs: u64 },
    /// The run stops with the item still pending: poll once more to finish.
    Abort { id: u64, reason: FatalReason },
}

/// The abstract state of a driver: the pending queue and phase, its settings,
/// and, as history, the queue it started from and how many items it resolved.
pub struct DriverState<R> {
    pub pending: Seq<WorkItem<R>>,
    pub phase: Phase,
    pub policy: RetryPolicy,
    pub pacing_secs: u64,
    pub initial: Seq<WorkItem<R>>,
    pub resolved: nat,
}

/// The pending queue is the starting queue less the items resolved so far, and
/// an item is in progress only while one is pending.
pub open spec fn driver_inv<R>(s: DriverState<R>) -> bool {
    &&& s.resolved <= s.initial.len()
    &&& s.pending == s.initial.skip(s.resolved as int)
    &&& (s.phase is Calling || s.phase is Waiting) ==> s.pending.len() > 0
}

/// A fresh driver over `items`.
pub open spec fn start_state<R>(items: Seq<WorkItem<R>>, policy: RetryPolicy, pacing_secs: u64) -> DriverState<R> {
    DriverState { pending: items, phase: Phase::Between, policy, pacing_secs, initial: items, resolved: 0 }
}

pub open spec fn next_attempt(a: u32) -> u32 {
    if a < u32::MAX {
        (a + 1) as u32
    } else {
        a
    }
}

/// The driver asked for its next step; `cancelled` tells whether a stop was
/// requested. Cancellation is only heeded between items.
pub open spec fn poll_spec<R>(s: DriverState<R>, cancelled: bool) -> (DriverState<R>, Step) {
    match s.phase {
        Phase::Finished { result } => (s, Step::Finish { result }),
        Phase::Calling { attempt } => (s, Step::Attempt { id: s.pending[0].id, attempt }),
        Phase::Waiting { attempt } => (
            DriverState { phase: Phase::Calling { attempt: next_attempt(attempt) }, ..s },
            Step::Attempt { id: s.pending[0].id, attempt: next_attempt(attempt) },
        ),
        Phase::Between => if s.pending.len() == 0 {
            (
                DriverState { phase: Phase::Finished { result: RunResult::Completed }, ..s },
                Step::Finish { result: RunResult::Completed },
            )
        } else if cancelled {
            (
                DriverState { phase: Phase::Finished { result: RunResult::Cancelled }, ..s },
                Step::Finish { result: RunResult::Cancelled },
            )
        } else {
            (
                DriverState { phase: Phase::Calling { attempt: 1 }, ..s },
                Step::Attempt { id: s.pending[0].id, attempt: 1 },
            )
        },
    }
}

/// The driver, awaiting the outcome of a call, received `signal` at Unix
/// time `now`.
pub open spec fn react_spec<R>(s: DriverState<R>, signal: RateLimitSignal, now: u64) -> (DriverState<R>, Reaction)
    recommends
        s.phase is Calling,
{
    let id = s.pending[0].id;
    let attempt = s.phase->Calling_attempt;
    match decide(s.policy, signal, attempt, now) {
        Action::Proceed(outcome) => (
            DriverState {
                pending: s.pending.drop_first(),
                phase: Phase::Between,
                resolved: s.resolved + 1,
                ..s
            },
            Reaction::Resolved { id, outcome, pacing_secs: s.pacing_secs },
        ),
        Action::WaitThen(secs) => (
            DriverState { phase: Phase::Waiting { attempt }, ..s },
            Reaction::Wait { id, secs },
        ),
        Action::Fatal(reason) => (
            DriverState { phase: Phase::Finished { result: RunResult::Aborted { id, reason } }, ..s },
            Reaction::Abort { id, reason },
        ),
    }
}

/// The deletion driver: walks the work queue in order, one item at a time,
/// and tells its caller which call to make, how long to wait, and when the
/// remaining work must be written to the checkpoint.
pub struct Pipeline<R> {
    queue: Vec<WorkItem<R>>,
    phase: Phase,
    policy: RetryPolicy,
    pacing_secs: u64,
    initial: Ghost<Seq<WorkItem<R>>>,
    resolved: Ghost<nat>,
}

impl<R> View for Pipeline<R> {
    type V = DriverState<R>;

    closed spec fn view(&self) -> DriverState<R> {
        DriverState {
            pending: self.queue@,
            phase: self.phase,
            policy: self.policy,
            pacing_secs: self.pacing_secs,
            initial: self.initial@,
            resolved: self.resolved@,
        }
    }
}

impl<R> Pipeline<R> {
    pub open spec fn wf(&self) -> bool {
        driver_inv(self@)
    }

    /// A driver over `items`, in their order, nothing resolved yet.
    pub fn new(items: Vec<WorkItem<R>>, policy: RetryPolicy, pacing_secs: u64) -> (r: Self)
        ensures
            r.wf(),
            r@ == start_state(items@, policy, pacing_secs),
    {
        let ghost initial = items@;
        assert(initial.skip(0) =~= initial);
        Pipeline {
            queue: items,
            phase: Phase::Between,
            policy,
            pacing_secs,
            initial: Ghost(initial),
            resolved: Ghost(0),
        }
    }

    /// The next step. Between items, a requested cancellation finishes the
    /// run before the next item is started; while an item is in progress it
    /// is carried on.
    pub fn poll(&mut self, cancelled: bool) -> (step: Step)
        requires
            old(self).wf(),
        ensures
            final(self).wf(),
            (final(self)@, step) == poll_spec(old(self)@, cancelled),
    {
        match self.phase {
            Phase::Finished { result } => Step::Finish { result },
            Phase::Calling { attempt } => Step::Attempt { id: self.queue[0].id, attempt },
            Phase::Waiting { attempt } => {
                let next: u32 = if attempt < u32::MAX {
                    attempt + 1
                } else {
                    attempt
                };
                self.phase = Phase::Calling { attempt: next };
                Step::Attempt { id: self.queue[0].id, attempt: next }
            },
            Phase::Between => {
                if self.queue.len() == 0 {
                    self.phase = Phase::Finished { result: RunResult::Completed };
                    Step::Finish { result: RunResult::Completed }
                } else if cancelled {
                    self.phase = Phase::Finished { result: RunResult::Cancelled };
                    Step::Finish { result: RunResult::Cancelled }
                } else {
                    self.phase = Phase::Calling { attempt: 1 };
                    Step::Attempt { id: self.queue[0].id, attempt: 1 }
                }
            },
        }
    }

    /// Hands in the outcome of the call in progress, observed at Unix time
    /// `now`. A resolved item leaves the head of the queue; a throttled or
    /// failed one stays.
    pub fn on_signal(&mut self, signal: &RateLimitSignal, now: u64) -> (r: Reaction)
        requires
            old(self).wf(),
            old(self)@.phase is Calling,
        ensures
            final(self).wf(),
            (final(self)@, r) == react_spec(old(self)@, *signal, now),
    {
        let id = self.queue[0].id;
        let attempt = match self.phase {
            Phase::Calling { attempt } => attempt,
            _ => 0,
        };
        match self.policy.next_action(signal, attempt, now) {
            Action::Proceed(outcome) => {
                let ghost before = self.queue@;
                self.queue.remove(0);
                proof {
                    assert(self.queue@ =~= before.drop_first());
                    assert(self.initial@.skip(self.resolved@ + 1 as int) =~= before.drop_first());
                    self.resolved = Ghost(self.resolved@ + 1);
                }
                self.phase = Phase::Between;
                Reaction::Resolved { id, outcome, pacing_secs: self.pacing_secs }
            },
            Action::WaitThen(secs) => {
                self.phase = Phase::Waiting { attempt };
                Reaction::Wait { id, secs }
            },
            Action::Fatal(reason) => {
                self.phase = Phase::Finished { result: RunResult::Aborted { id, reason } };
                Reaction::Abort { id, reason }
            },
        }
    }

    /// The work not yet resolved, in order: what the checkpoint must hold.
    pub fn remaining(&self) -> (r: &Vec<WorkItem<R>>)
        ensures
            r@ == self@.pending,
    {
        &self.queue
    }

    /// Whether the outcome of an issued call is awaited.
    pub fn is_awaiting_outcome(&self) -> (r: bool)
        ensures
            r == self@.phase is Calling,
    {
        match self.phase {
            Phase::Calling { .. } => true,
            _ => false,
        }
    }

    /// The phase the driver is in.
    pub fn phase(&self) -> (r: Phase)
        ensures
            r == self@.phase,
    {
        self.phase
    }
}

/// Every step keeps the checkpoint exact: whatever the driver is told, the
/// pending queue stays the starting queue less the items resolved so far, and
/// a resolution removes exactly the head item and nothing else.
pub proof fn lemma_checkpoint_tracks_progress<R>(
    s: DriverState<R>,
    cancelled: bool,
    signal: RateLimitSignal,
    now: u64,
)
    requires
        driver_inv(s),
    ensures
        driver_inv(poll_spec(s, cancelled).0),
        poll_spec(s, cancelled).0.pending == s.pending,
        s.phase is Calling ==> {
            let (t, r) = react_spec(s, signal, now);
            &&& driver_inv(t)
            &&& r is Resolved ==> t.resolved == s.resolved + 1 && t.pending == s.initial.skip(
                t.resolved as int,
            ) && t.pending == s.pending.drop_first()
            &&& !(r is Resolved) ==> t.resolved == s.resolved && t.pending == s.pending
        },
{
    if s.phase is Calling {
        assert(s.initial.skip(s.resolved + 1 as int) =~= s.pending.drop_first());
    }
}

/// Resuming from a checkpoint loses and repeats nothing: a fresh driver over
/// the pending queue of an interrupted one has, after any number of further
/// resolutions, exactly the queue that the uninterrupted run would have after
/// the same total, and both end with an empty queue.
pub proof fn lemma_resume_matches_uninterrupted<R>(s: DriverState<R>, n: nat)
    requires
        driver_inv(s),
        n <= s.pending.len(),
    ensures
        ({
            let t = start_state(s.pending, s.policy, s.pacing_secs);
            &&& driver_inv(t)
            &&& t.initial.skip(n as int) == s.initial.skip((s.resolved + n) as int)
            &&& t.initial.skip(t.initial.len() as int).len() == 0
            &&& s.initial.skip(s.initial.len() as int).len() == 0
        }),
{
    assert(s.pending.skip(0) =~= s.pending);
    assert(s.pending.skip(n as int) =~= s.initial.skip((s.resolved + n) as int));
}

/// A throttled call with a `Retry-After` hint of `secs` makes the driver wait
/// exactly `secs` with the item still at the head of the queue, and the next
/// step calls again for that same item, cancellation or not.
pub proof fn lemma_throttle_waits_on_same_item<R>(
    s: DriverState<R>,
    secs: u64,
    reset_at: Option<u64>,
    now: u64,
    cancelled: bool,
)
    requires
        driver_inv(s),
        s.phase matches Phase::Calling { attempt } && (s.policy.max_attempts matches Some(
            max,
        ) ==> attempt < max),
    ensures
        ({
            let (t, r) = react_spec(
                s,
                RateLimitSignal::TooManyRequests { retry_after: Some(secs), reset_at },
                now,
            );
            let (u, step) = poll_spec(t, cancelled);
            &&& r == Reaction::Wait { id: s.pending[0].id, secs }
            &&& t.pending == s.pending
            &&& u.pending == s.pending
            &&& step == Step::Attempt {
                id: s.pending[0].id,
                attempt: next_attempt(s.phase->Calling_attempt),
            }
        }),
{
}

/// A not-found answer resolves the item: it leaves the queue and is reported
/// as skipped, not as an error.
pub proof fn lemma_not_found_resolves<R>(s: DriverState<R>, now: u64)
    requires
        driver_inv(s),
        s.phase is Calling,
    ensures
        ({
            let (t, r) = react_spec(s, RateLimitSignal::NotFound, now);
            &&& r == Reaction::Resolved {
                id: s.pending[0].id,
                outcome: TerminalOutcome::SkippedNotFound,
                pacing_secs: s.pacing_secs,
            }
            &&& t.pending == s.pending.drop_first()
            &&& t.phase == Phase::Between
        }),
{
}

/// Cancellation stops only at an item boundary. Between items it finishes the
/// run before another call, with the queue untouched. Requested while item K
/// is in progress, it lets K run to its end; the run then stops before the
/// next item, pending from K+1 on if K was resolved and from K on if not.
pub proof fn lemma_cancellation_boundary<R>(s: DriverState<R>, signal: RateLimitSignal, now: u64)
    requires
        driver_inv(s),
    ensures
        s.phase is Between && s.pending.len() > 0 ==> poll_spec(s, true) == (
            DriverState { phase: Phase::Finished { result: RunResult::Cancelled }, ..s },
            Step::Finish { result: RunResult::Cancelled },
        ),
        s.phase is Waiting ==> poll_spec(s, true).1 is Attempt && poll_spec(s, true).1->Attempt_id
            == s.pending[0].id,
        s.phase is Calling ==> {
            let (t, r) = react_spec(s, signal, now);
            let (u, step) = poll_spec(t, true);
            &&& r is Resolved ==> step is Finish && u.pending == s.pending.drop_first()
            &&& r is Abort ==> step is Finish && u.pending == s.pending
            &&& r is Wait ==> step is Attempt && step->Attempt_id == s.pending[0].id
                && u.pending == s.pending
        },
{
}

} // verus!
