use sparkle_impostor::retry::{Outcome, Retrier, RetryStep, CREATE_RETRIES, LATER_MESSAGE_RETRIES};
use sparkle_impostor::Error;

fn run_against(max_retries: u8, sink: impl Fn(u16) -> Outcome) -> (u16, RetryStep) {
    let mut retrier = Retrier::new(max_retries);
    loop {
        let attempt = retrier.attempts;
        match retrier.record(sink(attempt)) {
            RetryStep::Retry => continue,
            step => return (retrier.attempts, step),
        }
    }
}

#[test]
fn always_rate_limited_makes_bound_plus_one_attempts() {
    for bound in [0, 1, 3, 5, 10] {
        let (attempts, step) = run_against(bound, |_| Outcome::RateLimited);
        assert_eq!(attempts, u16::from(bound) + 1);
        assert_eq!(step, RetryStep::GiveUp(Error::RateLimited));
    }
}

#[test]
fn create_bound_makes_six_attempts() {
    let (attempts, _) = run_against(CREATE_RETRIES, |_| Outcome::RateLimited);
    assert_eq!(attempts, 6);
    let (attempts, _) = run_against(LATER_MESSAGE_RETRIES, |_| Outcome::RateLimited);
    assert_eq!(attempts, 4);
}

#[test]
fn success_after_rate_limits() {
    let (attempts, step) = run_against(5, |a| {
        if a < 2 {
            Outcome::RateLimited
        } else {
            Outcome::Created(77)
        }
    });
    assert_eq!(attempts, 3);
    assert_eq!(step, RetryStep::Done(77));
}

#[test]
fn other_failure_is_not_retried() {
    let (attempts, step) = run_against(5, |_| Outcome::Failed);
    assert_eq!(attempts, 1);
    assert_eq!(step, RetryStep::GiveUp(Error::Network));
}

#[test]
fn success_at_last_attempt() {
    let (attempts, step) = run_against(3, |a| {
        if a < 3 {
            Outcome::RateLimited
        } else {
            Outcome::Created(5)
        }
    });
    assert_eq!(attempts, 4);
    assert_eq!(step, RetryStep::Done(5));
}
