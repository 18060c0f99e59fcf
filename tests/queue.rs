use pocminer_submit::api::{FetchError, PoolError, SubmitNonceResponse};
use pocminer_submit::dispatcher::{settle, Settled};
use pocminer_submit::prio_retry::{Poll, PrioRetry, DEFAULT_RETRY_DELAY_MS};
use pocminer_submit::submission::SubmissionParameters;
use std::cmp::Ordering;

fn cand(block: u64, gen: u8, deadline: u64) -> SubmissionParameters {
    SubmissionParameters {
        account_id: 1,
        nonce: deadline + 7,
        height: block,
        block,
        deadline_unadjusted: deadline * 10,
        deadline,
        gen_sig: [gen; 32],
    }
}

fn rejected() -> Result<SubmitNonceResponse, FetchError> {
    Ok(SubmitNonceResponse { verify_result: false })
}

fn accepted() -> Result<SubmitNonceResponse, FetchError> {
    Ok(SubmitNonceResponse { verify_result: true })
}

fn transport_error() -> Result<SubmitNonceResponse, FetchError> {
    Err(FetchError::Substrate("connection reset".to_string()))
}

fn ready(q: &PrioRetry, now: u64) -> (SubmissionParameters, u64) {
    match q.take_ready(now) {
        Poll::Ready(c, t) => (c, t),
        other => panic!("expected a ready candidate, got {:?}", other),
    }
}

#[test]
fn newer_block_ranks_higher() {
    let a = cand(11, 1, 900);
    let b = cand(10, 2, 5);
    assert_eq!(a.cmp(&b), Ordering::Greater);
    assert_eq!(b.cmp(&a), Ordering::Less);
    assert_eq!(a.partial_cmp(&b), Some(Ordering::Greater));
    assert!(a > b);
}

#[test]
fn same_fork_lower_or_equal_deadline_ranks_higher() {
    let a = cand(10, 1, 200);
    let b = cand(10, 1, 500);
    assert_eq!(a.cmp(&b), Ordering::Greater);
    assert_eq!(b.cmp(&a), Ordering::Less);
    let c = cand(10, 1, 200);
    assert_eq!(c.cmp(&a), Ordering::Greater);
    assert_eq!(a.cmp(&c), Ordering::Greater);
}

#[test]
fn identical_candidates_are_equal_but_rank_unequal() {
    let a = cand(10, 1, 200);
    let b = a;
    assert!(a == b);
    assert_eq!(a.cmp(&b), Ordering::Greater);
    assert_ne!(a.partial_cmp(&b), Some(Ordering::Equal));
    let mut c = a;
    c.nonce += 1;
    assert!(a != c);
}

#[test]
fn other_fork_same_block_ranks_lower() {
    let held = cand(10, 1, 500);
    let incoming = cand(10, 2, 1);
    assert_eq!(incoming.cmp(&held), Ordering::Less);
    let mut q = PrioRetry::new(DEFAULT_RETRY_DELAY_MS);
    assert!(q.offer(held));
    assert!(!q.offer(incoming));
    assert_eq!(ready(&q, 0).0, held);
}

#[test]
fn offers_keep_only_the_best() {
    let mut q = PrioRetry::new(DEFAULT_RETRY_DELAY_MS);
    assert!(matches!(q.take_ready(0), Poll::Empty));
    assert!(q.offer(cand(10, 1, 500)));
    assert!(q.offer(cand(10, 1, 300)));
    assert!(!q.offer(cand(10, 1, 400)));
    assert!(!q.offer(cand(10, 2, 100)));
    assert!(!q.offer(cand(9, 1, 1)));
    assert_eq!(ready(&q, 0).0, cand(10, 1, 300));
    assert!(q.offer(cand(11, 3, 900)));
    assert!(!q.offer(cand(10, 1, 1)));
    assert_eq!(ready(&q, 0).0, cand(11, 3, 900));
}

#[test]
fn superseding_cancels_retry() {
    let a = cand(10, 1, 500);
    let b = cand(10, 1, 200);
    let mut q = PrioRetry::new(DEFAULT_RETRY_DELAY_MS);
    q.offer(a);
    let (got, ticket_a) = ready(&q, 1000);
    assert_eq!(got, a);
    assert_eq!(settle(&mut q, ticket_a, &transport_error(), 1000), Settled::Retrying);
    assert!(matches!(q.take_ready(1001), Poll::Wait(2999)));
    assert!(q.offer(b));
    let (got, ticket_b) = ready(&q, 1001);
    assert_eq!(got, b);
    assert!(!q.is_current(ticket_a));
    assert!(q.is_current(ticket_b));
    // a late report for A moves nothing
    q.report_failure(ticket_a, 1002);
    assert_eq!(ready(&q, 1002).0, b);
    q.report_terminal(ticket_a);
    assert_eq!(ready(&q, 1002).0, b);
}

#[test]
fn scenario_offer_is_submitted() {
    let a = cand(10, 1, 500);
    let mut q = PrioRetry::new(DEFAULT_RETRY_DELAY_MS);
    q.offer(a);
    let (got, ticket) = ready(&q, 0);
    assert_eq!(got, a);
    assert_eq!(settle(&mut q, ticket, &accepted(), 5), Settled::Verified);
    assert!(matches!(q.take_ready(5), Poll::Empty));
}

#[test]
fn scenario_supersede_while_in_flight() {
    let a = cand(10, 1, 500);
    let b = cand(10, 1, 200);
    let mut q = PrioRetry::new(DEFAULT_RETRY_DELAY_MS);
    q.offer(a);
    let (_, ticket_a) = ready(&q, 0);
    // B arrives while A's submission is outstanding
    assert!(q.offer(b));
    assert_eq!(settle(&mut q, ticket_a, &accepted(), 50), Settled::Verified);
    let (got, ticket_b) = ready(&q, 50);
    assert_eq!(got, b);
    assert_eq!(settle(&mut q, ticket_b, &accepted(), 60), Settled::Verified);
    assert!(matches!(q.take_ready(60), Poll::Empty));
}

#[test]
fn scenario_other_fork_after_terminal() {
    let b = cand(10, 1, 200);
    let c = cand(10, 2, 100);
    let mut q = PrioRetry::new(DEFAULT_RETRY_DELAY_MS);
    q.offer(b);
    let (_, ticket) = ready(&q, 0);
    settle(&mut q, ticket, &accepted(), 1);
    assert!(q.offer(c));
    assert_eq!(ready(&q, 1).0, c);
}

#[test]
fn scenario_failure_backs_off_three_seconds() {
    let a = cand(10, 1, 500);
    let mut q = PrioRetry::new(DEFAULT_RETRY_DELAY_MS);
    q.offer(a);
    let (_, ticket) = ready(&q, 10_000);
    let err: Result<SubmitNonceResponse, FetchError> =
        Err(FetchError::from(PoolError { code: 5, message: "busy".to_string() }));
    assert_eq!(settle(&mut q, ticket, &err, 10_000), Settled::Retrying);
    assert!(matches!(q.take_ready(10_000), Poll::Wait(3000)));
    assert!(matches!(q.take_ready(12_999), Poll::Wait(1)));
    let (got, again) = ready(&q, 13_000);
    assert_eq!(got, a);
    assert_eq!(again, ticket);
}

#[test]
fn scenario_rejection_is_terminal() {
    let a = cand(10, 1, 500);
    let mut q = PrioRetry::new(DEFAULT_RETRY_DELAY_MS);
    q.offer(a);
    let (_, ticket) = ready(&q, 0);
    assert_eq!(settle(&mut q, ticket, &rejected(), 1), Settled::Rejected);
    assert!(matches!(q.take_ready(1), Poll::Empty));
    assert!(matches!(q.take_ready(1_000_000), Poll::Empty));
}

#[test]
fn backoff_saturates_at_the_end_of_time() {
    let mut q = PrioRetry::new(DEFAULT_RETRY_DELAY_MS);
    q.offer(cand(1, 1, 1));
    let (_, ticket) = ready(&q, u64::MAX - 1);
    q.report_failure(ticket, u64::MAX - 1);
    assert!(matches!(q.take_ready(u64::MAX - 1), Poll::Wait(1)));
    assert!(matches!(q.take_ready(u64::MAX), Poll::Ready(_, _)));
}
