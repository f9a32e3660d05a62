use vstd::prelude::*;
use crate::status::ExecutionSnapshot;

verus! {

/// Seconds the watcher sleeps before each status check.
pub const POLL_INTERVAL_SECS: u64 = 15;

/// Fetch attempts within one status check before the watch is given up.
pub const MAX_FETCH_ATTEMPTS: u32 = 6;

/// How long a watch may last, in milliseconds: thirty minutes.
pub const DEADLINE_MS: u64 = 1800000;

/// Why fetching a snapshot failed.
#[derive(PartialEq, Eq, Structural, Clone, Copy, Debug)]
pub enum FetchError {
    /// The pipeline or its executions do not exist: retrying cannot help.
    NotFound,
    /// A failure that may pass, such as a network error.
    Transient,
}

/// Where the polling loop stands.
#[derive(PartialEq, Eq, Structural, Clone, Copy, Debug)]
pub enum PollPhase {
    /// Waiting out the interval before the next status check.
    Sleeping,
    /// Fetching a snapshot, possibly after failed attempts.
    Fetching,
    /// The loop has ended.
    Done,
}

/// Why the watch ended without a result.
#[derive(PartialEq, Eq, Structural, Clone, Copy, Debug)]
pub enum AbortReason {
    /// Every attempt of one status check failed.
    RetriesExhausted,
    /// The delivery service does not know the pipeline.
    NotFound,
}

/// How the loop ended, with the last snapshot seen.
pub enum Completion {
    /// The execution reached a status other than in progress.
    Terminal(ExecutionSnapshot),
    /// The deadline passed while the execution was still in progress.
    TimedOut(ExecutionSnapshot),
}

/// What the loop's driver is to do next.
pub enum PollAction {
    /// Sleep `POLL_INTERVAL_SECS`, then report `on_slept`.
    Sleep,
    /// Fetch a snapshot, then report `on_fetched` or `on_fetch_failed`.
    Fetch,
    /// Send the one notification for this completion; the loop is over.
    Finish(Completion),
    /// Stop without a notification; the loop is over.
    Abort(AbortReason),
}

/// The polling state machine of one watch. It is driven from outside: the
/// driver performs each action it returns and reports what came of it.
pub struct Poller {
    /// When the watch started, in milliseconds since the Unix epoch.
    pub watch_start_ms: u64,
    pub phase: PollPhase,
    /// Failed attempts in the current status check.
    pub failures: u32,
    /// Fetch attempts made so far, failed or not.
    pub fetch_calls: u64,
}

/// Whether the deadline has passed at `now_ms` for a watch that started at
/// `start_ms`. A clock that went back counts as no time passed.
pub open spec fn deadline_passed(start_ms: u64, now_ms: u64) -> bool {
    now_ms > start_ms && now_ms - start_ms > DEADLINE_MS
}

/// The poller after a failed fetch attempt.
pub open spec fn after_failure(p: Poller, error: FetchError) -> Poller {
    let ends = error == FetchError::NotFound || p.failures + 1 == MAX_FETCH_ATTEMPTS;
    Poller {
        watch_start_ms: p.watch_start_ms,
        phase: if ends {
            PollPhase::Done
        } else {
            PollPhase::Fetching
        },
        failures: if ends {
            0
        } else {
            (p.failures + 1) as u32
        },
        fetch_calls: (p.fetch_calls + 1) as u64,
    }
}

/// What the driver is told to do after a failed fetch attempt.
pub open spec fn failure_action(p: Poller, error: FetchError) -> PollAction {
    if error == FetchError::NotFound {
        PollAction::Abort(AbortReason::NotFound)
    } else if p.failures + 1 == MAX_FETCH_ATTEMPTS {
        PollAction::Abort(AbortReason::RetriesExhausted)
    } else {
        PollAction::Fetch
    }
}

/// The poller after `n` transient failures in a row.
pub open spec fn transient_failures(p: Poller, n: nat) -> Poller
    decreases n,
{
    if n == 0 {
        p
    } else {
        after_failure(transient_failures(p, (n - 1) as nat), FetchError::Transient)
    }
}

/// Against a status provider that fails every call, one status check makes
/// exactly `MAX_FETCH_ATTEMPTS` attempts: each of the first five failures
/// asks for another fetch, and the sixth gives the watch up.
pub proof fn lemma_retry_bound(p: Poller)
    requires
        p.phase == PollPhase::Fetching,
        p.failures == 0,
        p.fetch_calls + MAX_FETCH_ATTEMPTS <= u64::MAX,
    ensures
        forall|n: nat|
            n < 5 ==> failure_action(#[trigger] transient_failures(p, n), FetchError::Transient)
                is Fetch,
        failure_action(transient_failures(p, 5), FetchError::Transient) == PollAction::Abort(
            AbortReason::RetriesExhausted,
        ),
        after_failure(transient_failures(p, 5), FetchError::Transient).phase == PollPhase::Done,
        after_failure(transient_failures(p, 5), FetchError::Transient).fetch_calls == p.fetch_calls
            + MAX_FETCH_ATTEMPTS,
{
    reveal_with_fuel(transient_failures, 6);
    assert forall|n: nat| n < 5 implies failure_action(
        #[trigger] transient_failures(p, n),
        FetchError::Transient,
    ) is Fetch by {
        lemma_transient_failures(p, n);
    }
    lemma_transient_failures(p, 5);
}

proof fn lemma_transient_failures(p: Poller, n: nat)
    requires
        p.phase == PollPhase::Fetching,
        p.failures == 0,
        p.fetch_calls + MAX_FETCH_ATTEMPTS <= u64::MAX,
        n <= 5,
    ensures
        transient_failures(p, n).failures == n,
        transient_failures(p, n).phase == PollPhase::Fetching,
        transient_failures(p, n).fetch_calls == p.fetch_calls + n,
        transient_failures(p, n).watch_start_ms == p.watch_start_ms,
    decreases n,
{
    if n > 0 {
        lemma_transient_failures(p, (n - 1) as nat);
    }
}

impl Poller {
    pub open spec fn wf(&self) -> bool {
        &&& self.failures < MAX_FETCH_ATTEMPTS
        &&& self.phase != PollPhase::Fetching ==> self.failures == 0
    }

    /// A watch that starts at `now_ms`; its first action is `Sleep`.
    pub fn start(now_ms: u64) -> (r: (Poller, PollAction))
        ensures
            r.0.wf(),
            r.0.watch_start_ms == now_ms,
            r.0.phase == PollPhase::Sleeping,
            r.0.failures == 0,
            r.0.fetch_calls == 0,
            r.1 is Sleep,
    {
        (Poller { watch_start_ms: now_ms, phase: PollPhase::Sleeping, failures: 0, fetch_calls: 0 }, PollAction::Sleep)
    }

    /// The interval is over: a new status check begins.
    pub fn on_slept(&mut self) -> (r: PollAction)
        requires
            old(self).wf(),
            old(self).phase == PollPhase::Sleeping,
        ensures
            final(self).wf(),
            final(self).phase == PollPhase::Fetching,
            final(self).failures == 0,
            final(self).watch_start_ms == old(self).watch_start_ms,
            final(self).fetch_calls == old(self).fetch_calls,
            r is Fetch,
    {
        self.phase = PollPhase::Fetching;
        self.failures = 0;
        PollAction::Fetch
    }

    /// A snapshot came back at `now_ms`. A status other than in progress
    /// ends the loop; else the loop times out once the deadline has passed,
    /// and sleeps again before it has.
    pub fn on_fetched(&mut self, snapshot: ExecutionSnapshot, now_ms: u64) -> (r: PollAction)
        requires
            old(self).wf(),
            old(self).phase == PollPhase::Fetching,
            old(self).fetch_calls < u64::MAX,
        ensures
            final(self).wf(),
            final(self).watch_start_ms == old(self).watch_start_ms,
            final(self).fetch_calls == old(self).fetch_calls + 1,
            final(self).failures == 0,
            !snapshot.status.spec_is_in_progress() ==> final(self).phase == PollPhase::Done
                && r == PollAction::Finish(Completion::Terminal(snapshot)),
            snapshot.status.spec_is_in_progress() && deadline_passed(old(self).watch_start_ms, now_ms)
                ==> final(self).phase == PollPhase::Done && r == PollAction::Finish(
                Completion::TimedOut(snapshot),
            ),
            snapshot.status.spec_is_in_progress() && !deadline_passed(old(self).watch_start_ms, now_ms)
                ==> final(self).phase == PollPhase::Sleeping && r is Sleep,
    {
        self.fetch_calls = self.fetch_calls + 1;
        self.failures = 0;
        if !snapshot.status.is_in_progress() {
            self.phase = PollPhase::Done;
            PollAction::Finish(Completion::Terminal(snapshot))
        } else if now_ms > self.watch_start_ms && now_ms - self.watch_start_ms > DEADLINE_MS {
            self.phase = PollPhase::Done;
            PollAction::Finish(Completion::TimedOut(snapshot))
        } else {
            self.phase = PollPhase::Sleeping;
            PollAction::Sleep
        }
    }

    /// A fetch attempt failed. A transient failure is retried at once until
    /// `MAX_FETCH_ATTEMPTS` attempts of this status check have failed, and
    /// then the watch is given up; a pipeline that is not found gives it up
    /// at once.
    pub fn on_fetch_failed(&mut self, error: FetchError) -> (r: PollAction)
        requires
            old(self).wf(),
            old(self).phase == PollPhase::Fetching,
            old(self).fetch_calls < u64::MAX,
        ensures
            final(self).wf(),
            final(self).watch_start_ms == old(self).watch_start_ms,
            final(self).fetch_calls == old(self).fetch_calls + 1,
            *final(self) == after_failure(*old(self), error),
            r == failure_action(*old(self), error),
            error == FetchError::NotFound ==> final(self).phase == PollPhase::Done
                && r == PollAction::Abort(AbortReason::NotFound),
            error == FetchError::Transient && old(self).failures + 1 == MAX_FETCH_ATTEMPTS
                ==> final(self).phase == PollPhase::Done
                && r == PollAction::Abort(AbortReason::RetriesExhausted),
            error == FetchError::Transient && old(self).failures + 1 < MAX_FETCH_ATTEMPTS
                ==> final(self).phase == PollPhase::Fetching && final(self).failures
                == old(self).failures + 1 && r is Fetch,
    {
        self.fetch_calls = self.fetch_calls + 1;
        match error {
            FetchError::NotFound => {
                self.phase = PollPhase::Done;
                self.failures = 0;
                PollAction::Abort(AbortReason::NotFound)
            },
            FetchError::Transient => {
                if self.failures + 1 == MAX_FETCH_ATTEMPTS {
                    self.phase = PollPhase::Done;
                    self.failures = 0;
                    PollAction::Abort(AbortReason::RetriesExhausted)
                } else {
                    self.failures = self.failures + 1;
                    PollAction::Fetch
                }
            },
        }
    }
}

} // verus!
