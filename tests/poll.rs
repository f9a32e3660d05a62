use sprt::poll::{
    AbortReason, Completion, FetchError, PollAction, PollPhase, Poller, DEADLINE_MS,
    MAX_FETCH_ATTEMPTS,
};
use sprt::status::{ExecutionSnapshot, PipelineStatus};

fn snapshot(status: PipelineStatus, message: &str) -> ExecutionSnapshot {
    ExecutionSnapshot {
        status,
        start_time: 1_700_000_000,
        last_update_time: 1_700_000_100,
        revision_message: String::from(message),
    }
}

#[test]
fn loop_ends_terminal_after_four_fetches() {
    let start = 1_000_000u64;
    let (mut poller, first) = Poller::start(start);
    assert!(matches!(first, PollAction::Sleep));
    let mut now = start;
    let mut result = None;
    let mut stub_calls = 0;
    let mut action = first;
    loop {
        action = match action {
            PollAction::Sleep => {
                now += 15_000;
                poller.on_slept()
            }
            PollAction::Fetch => {
                stub_calls += 1;
                let status = if stub_calls <= 3 {
                    PipelineStatus::InProgress
                } else {
                    PipelineStatus::Succeeded
                };
                poller.on_fetched(snapshot(status, "fix login"), now)
            }
            other => {
                result = Some(other);
                break;
            }
        };
    }
    assert_eq!(stub_calls, 4);
    assert_eq!(poller.fetch_calls, 4);
    assert_eq!(poller.phase, PollPhase::Done);
    match result {
        Some(PollAction::Finish(Completion::Terminal(s))) => {
            assert!(matches!(s.status, PipelineStatus::Succeeded));
            assert_eq!(s.revision_message, "fix login");
        }
        _ => panic!("expected a terminal completion"),
    }
}

#[test]
fn loop_times_out_at_first_check_past_deadline() {
    let start = 5_000u64;
    let (mut poller, mut action) = Poller::start(start);
    let mut now = start;
    let mut checks = 0u64;
    let mut last_check = 0u64;
    loop {
        action = match action {
            PollAction::Sleep => {
                now += 15_000;
                poller.on_slept()
            }
            PollAction::Fetch => {
                checks += 1;
                last_check = now;
                poller.on_fetched(snapshot(PipelineStatus::InProgress, "m"), now)
            }
            _ => break,
        };
    }
    assert!(matches!(action, PollAction::Finish(Completion::TimedOut(_))));
    assert!(last_check - start > DEADLINE_MS);
    assert!(last_check - start <= DEADLINE_MS + 15_000);
    assert_eq!(checks, 121);
}

#[test]
fn in_progress_before_deadline_sleeps_again() {
    let (mut poller, _) = Poller::start(0);
    poller.on_slept();
    let a = poller.on_fetched(snapshot(PipelineStatus::InProgress, "m"), DEADLINE_MS);
    assert!(matches!(a, PollAction::Sleep));
    assert_eq!(poller.phase, PollPhase::Sleeping);
}

#[test]
fn clock_going_back_does_not_time_out() {
    let (mut poller, _) = Poller::start(1_000_000_000);
    poller.on_slept();
    let a = poller.on_fetched(snapshot(PipelineStatus::InProgress, "m"), 1);
    assert!(matches!(a, PollAction::Sleep));
}

#[test]
fn retries_end_after_six_attempts() {
    let (mut poller, _) = Poller::start(0);
    let mut action = poller.on_slept();
    let mut attempts = 0u32;
    while let PollAction::Fetch = action {
        attempts += 1;
        action = poller.on_fetch_failed(FetchError::Transient);
    }
    assert_eq!(attempts, 6);
    assert_eq!(MAX_FETCH_ATTEMPTS, 6);
    assert_eq!(poller.fetch_calls, 6);
    assert!(matches!(action, PollAction::Abort(AbortReason::RetriesExhausted)));
}

#[test]
fn failures_then_success_go_on() {
    let (mut poller, _) = Poller::start(0);
    poller.on_slept();
    for _ in 0..5 {
        assert!(matches!(poller.on_fetch_failed(FetchError::Transient), PollAction::Fetch));
    }
    let a = poller.on_fetched(snapshot(PipelineStatus::Failed, "m"), 20_000);
    assert!(matches!(a, PollAction::Finish(Completion::Terminal(_))));
    assert_eq!(poller.failures, 0);
}

#[test]
fn not_found_aborts_at_once() {
    let (mut poller, _) = Poller::start(0);
    poller.on_slept();
    let a = poller.on_fetch_failed(FetchError::NotFound);
    assert!(matches!(a, PollAction::Abort(AbortReason::NotFound)));
    assert_eq!(poller.fetch_calls, 1);
}
