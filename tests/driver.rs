use async_retry::{
    retry, Backoff, Delay, Exhausted, Explicit, Fixed, RetryState, Stage, Step, ToDuration,
};

/// What a simulated run ended with, and the attempt indices handed to the action factory.
struct Run {
    outcome: Option<Result<u64, Exhausted>>,
    calls: Vec<u64>,
}

/// Drives a run on a simulated clock. Each attempt's action completes `action_nanos`
/// after it starts (never, when `None`) and returns its attempt index. Gives up after
/// `max_suspends` suspensions.
fn simulate<S: Backoff>(strategy: S, action_nanos: Option<u64>, max_suspends: usize) -> Run {
    let mut driver = retry(strategy);
    let mut now: u64 = 0;
    let mut calls = Vec::new();
    let mut current: u64 = 0;
    let mut action_done: Option<u64> = None;
    let mut timer_done: u64 = 0;
    let mut suspends = 0;
    let mut step = driver.resume();
    loop {
        step = match step {
            Step::Start { attempt, delay } => {
                calls.push(attempt);
                current = attempt;
                action_done = action_nanos.map(|a| now + a);
                timer_done = now + delay.as_nanos();
                Step::PollAction
            }
            Step::PollAction => driver.action_polled(action_done.map_or(false, |t| now >= t)),
            Step::PollTimer => driver.timer_polled(now >= timer_done),
            Step::Suspend => {
                suspends += 1;
                if suspends > max_suspends {
                    return Run { outcome: None, calls };
                }
                now = match action_done {
                    Some(t) if t < timer_done => t,
                    _ => timer_done,
                };
                driver.resume()
            }
            Step::Succeed => return Run { outcome: Some(Ok(current)), calls },
            Step::Exhaust => return Run { outcome: Some(Err(Exhausted::new())), calls },
        };
    }
}

fn list(ms: &[u64]) -> Explicit {
    Explicit::new(ms.iter().map(|m| m.ms()).collect())
}

#[test]
fn test_retry() {
    let run = simulate(list(&[100, 200, 300]), Some(250.ms().as_nanos()), 100);
    assert_eq!(3, run.calls.len());
    assert_eq!(run.calls, vec![0, 1, 2]);
    assert_eq!(run.outcome, Some(Ok(2)));
}

#[test]
fn empty_list_exhausts_without_attempts() {
    let run = simulate(list(&[]), Some(1), 100);
    assert_eq!(run.outcome, Some(Err(Exhausted::new())));
    assert!(run.calls.is_empty());
}

#[test]
fn fixed_never_resolves_when_action_never_completes() {
    let run = simulate(Fixed::new(50.ms()), None, 1000);
    assert_eq!(run.outcome, None);
    assert_eq!(run.calls.len(), 1001);
    for (i, n) in run.calls.iter().enumerate() {
        assert_eq!(*n, i as u64);
    }
}

#[test]
fn list_of_length_three_allows_three_attempts() {
    let run = simulate(list(&[10, 20, 30]), None, 100);
    assert_eq!(run.outcome, Some(Err(Exhausted::new())));
    assert_eq!(run.calls, vec![0, 1, 2]);
}

#[test]
fn success_stops_further_attempts() {
    let run = simulate(list(&[100, 100, 100]), Some(50.ms().as_nanos()), 100);
    assert_eq!(run.outcome, Some(Ok(0)));
    assert_eq!(run.calls, vec![0]);
}

#[test]
fn action_is_checked_before_timer() {
    // the action and the timer become ready at the same moment
    let run = simulate(list(&[100, 100]), Some(100.ms().as_nanos()), 100);
    assert_eq!(run.outcome, Some(Ok(0)));
    assert_eq!(run.calls, vec![0]);
}

#[test]
fn attempt_indices_are_sequential() {
    let run = simulate(list(&[1, 1, 1, 1, 1, 10]), Some(5.ms().as_nanos()), 100);
    assert_eq!(run.outcome, Some(Ok(5)));
    assert_eq!(run.calls, vec![0, 1, 2, 3, 4, 5]);
}

#[test]
fn dropping_mid_wait_starts_nothing_more() {
    let mut driver = retry(list(&[100, 200]));
    let mut started = Vec::new();
    if let Step::Start { attempt, .. } = driver.resume() {
        started.push(attempt);
    }
    assert_eq!(driver.action_polled(false), Step::PollTimer);
    assert_eq!(driver.timer_polled(false), Step::Suspend);
    assert_eq!(driver.current_stage(), Stage::Idle);
    drop(driver);
    assert_eq!(started, vec![0]);
}

#[test]
fn driver_steps_follow_the_protocol() {
    let mut driver = retry(list(&[100, 200]));
    assert_eq!(driver.current_state(), RetryState::Initing);
    assert_eq!(driver.resume(), Step::Start { attempt: 0, delay: 100.ms() });
    assert_eq!(driver.current_state(), RetryState::Running(0));
    assert_eq!(driver.current_stage(), Stage::ActionDue);
    assert_eq!(driver.action_polled(false), Step::PollTimer);
    assert_eq!(driver.timer_polled(false), Step::Suspend);
    assert_eq!(driver.resume(), Step::PollAction);
    assert_eq!(driver.action_polled(false), Step::PollTimer);
    assert_eq!(driver.timer_polled(true), Step::Start { attempt: 1, delay: 200.ms() });
    assert_eq!(driver.action_polled(false), Step::PollTimer);
    assert_eq!(driver.timer_polled(true), Step::Exhaust);
    assert_eq!(driver.current_stage(), Stage::Exhausted);
    assert_eq!(driver.current_state(), RetryState::Running(1));
}

#[test]
fn ready_action_succeeds() {
    let mut driver = retry(Fixed::new(Delay::from_nanos(7)));
    assert_eq!(driver.resume(), Step::Start { attempt: 0, delay: Delay::from_nanos(7) });
    assert_eq!(driver.action_polled(true), Step::Succeed);
    assert_eq!(driver.current_stage(), Stage::Succeeded);
}
