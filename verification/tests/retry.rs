use rp_watch::retry::{RetryDecision, RetryPolicy};
use rp_watch::rules::{Failure, Field};

fn policy() -> RetryPolicy {
    RetryPolicy { max_attempts: 4, base_delay_ms: 250, max_delay_ms: 1500 }
}

#[test]
fn the_delay_doubles_up_to_the_cap() {
    let p = policy();
    assert_eq!(p.delay(0), 250);
    assert_eq!(p.delay(1), 250);
    assert_eq!(p.delay(2), 500);
    assert_eq!(p.delay(3), 1000);
    assert_eq!(p.delay(4), 1500);
    assert_eq!(p.delay(5), 1500);
    assert_eq!(p.delay(u32::MAX), 1500);
}

#[test]
fn delays_at_the_edges() {
    let zero = RetryPolicy { max_attempts: 3, base_delay_ms: 0, max_delay_ms: 1000 };
    assert_eq!(zero.delay(u32::MAX), 0);
    let above = RetryPolicy { max_attempts: 3, base_delay_ms: 5000, max_delay_ms: 1000 };
    assert_eq!(above.delay(1), 1000);
    let wide = RetryPolicy { max_attempts: 3, base_delay_ms: 1, max_delay_ms: u64::MAX };
    assert_eq!(wide.delay(64), 1u64 << 63);
    assert_eq!(wide.delay(65), u64::MAX);
    assert_eq!(wide.delay(1000), u64::MAX);
    let exact = RetryPolicy { max_attempts: 3, base_delay_ms: 3, max_delay_ms: 12 };
    assert_eq!(exact.delay(3), 12);
    assert_eq!(exact.delay(4), 12);
}

#[test]
fn a_request_that_did_not_come_back_is_made_again() {
    let p = policy();
    assert_eq!(p.decide(Failure::Transport, 1), RetryDecision::RetryAfter(250));
    assert_eq!(p.decide(Failure::Transport, 2), RetryDecision::RetryAfter(500));
    assert_eq!(p.decide(Failure::Transport, 3), RetryDecision::RetryAfter(1000));
}

#[test]
fn the_attempts_are_bounded() {
    let p = policy();
    assert_eq!(p.decide(Failure::Transport, 4), RetryDecision::GiveUp);
    assert_eq!(p.decide(Failure::Transport, 5), RetryDecision::GiveUp);
    let never = RetryPolicy { max_attempts: 0, base_delay_ms: 250, max_delay_ms: 1500 };
    assert_eq!(never.decide(Failure::Transport, 0), RetryDecision::GiveUp);
    let once = RetryPolicy { max_attempts: 1, base_delay_ms: 250, max_delay_ms: 1500 };
    assert_eq!(once.decide(Failure::Transport, 1), RetryDecision::GiveUp);
}

#[test]
fn a_page_that_cannot_be_read_is_not_fetched_again() {
    let p = policy();
    assert_eq!(p.decide(Failure::TooLarge, 1), RetryDecision::GiveUp);
    assert_eq!(p.decide(Failure::Structure(Field::Room), 1), RetryDecision::GiveUp);
    assert_eq!(p.decide(Failure::Pattern(Field::ActualRent), 1), RetryDecision::GiveUp);
}
