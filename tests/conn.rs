use std::sync::Arc;

use webhook_sender::conn::{
    handle_response, negotiated_h2, retry_after_or_default, status_class, Connection, Disposition, JobAction,
    PermitPool, StatusClass, DEFAULT_RETRY_AFTER_MS, EXCHANGE_LIMIT, MAX_CONCURRENT_STREAMS,
};
use webhook_sender::limiter::Limiter;
use webhook_sender::request::{build_requests, Context, Request};

const A: &str = "https://discord.com/api/webhooks/1/a";
const B: &str = "https://discord.com/api/webhooks/2/b";

fn job(target: &str) -> Request {
    let ctx = Arc::new(Context::new(b"{\"x\":1}".to_vec(), None, "j".to_string()));
    Request::new(ctx, target.to_string(), "j#1".to_string())
}

#[test]
fn constants() {
    assert_eq!(MAX_CONCURRENT_STREAMS, 98);
    assert_eq!(EXCHANGE_LIMIT, 9990);
    assert_eq!(DEFAULT_RETRY_AFTER_MS, 600_000);
}

#[test]
fn ceiling_of_n_with_n_plus_five_jobs() {
    let n = 4;
    let mut pool = PermitPool::new(n);
    let granted = (0..n + 5).filter(|_| pool.try_acquire()).count();
    assert_eq!(granted, n);
    assert_eq!(pool.in_flight(), n);
    assert!(!pool.try_acquire());
    pool.release();
    assert_eq!(pool.in_flight(), n - 1);
    assert!(pool.try_acquire());
    assert!(!pool.try_acquire());
    assert_eq!(pool.capacity(), n);
}

#[test]
fn connection_retires_at_its_limit() {
    let l = Limiter::new();
    let mut c = Connection::new(2);
    assert!(c.accepting());
    assert!(matches!(c.on_job(&l, &job(A), 0), JobAction::Dispatch(_)));
    assert!(c.accepting());
    assert!(matches!(c.on_job(&l, &job(B), 0), JobAction::Dispatch(_)));
    assert_eq!(c.sent(), 2);
    assert!(!c.accepting());
    let fresh = Connection::new(2);
    assert!(fresh.accepting());
    assert_eq!(fresh.sent(), 0);
}

#[test]
fn dispatch_rewrites_the_query() {
    let l = Limiter::new();
    let mut c = Connection::new(EXCHANGE_LIMIT);
    let t = format!("{A}?wait=false&foo=1");
    match c.on_job(&l, &job(&t), 0) {
        JobAction::Dispatch(uri) => assert_eq!(uri, format!("{A}?foo=1&wait=true")),
        other => panic!("unexpected {other:?}"),
    }
}

#[test]
fn held_back_jobs_do_not_count() {
    let mut l = Limiter::new();
    let mut c = Connection::new(5);
    l.tell_ratelimit(&A.to_string(), 2500, 100);
    assert!(matches!(c.on_job(&l, &job(A), 600), JobAction::Reschedule(2000)));
    let mut over = job(B);
    over.retry_count = 11;
    assert!(matches!(c.on_job(&l, &over, 600), JobAction::DropRetryLimit));
    assert!(matches!(c.on_job(&l, &job("not a url"), 600), JobAction::DropInvalidTarget));
    assert_eq!(c.sent(), 0);
}

#[test]
fn status_classes() {
    assert_eq!(status_class(200), StatusClass::Success);
    assert_eq!(status_class(204), StatusClass::Success);
    assert_eq!(status_class(299), StatusClass::Success);
    assert_eq!(status_class(404), StatusClass::NotFound);
    assert_eq!(status_class(429), StatusClass::TooManyRequests);
    assert_eq!(status_class(400), StatusClass::ClientError);
    assert_eq!(status_class(403), StatusClass::ClientError);
    assert_eq!(status_class(500), StatusClass::ServerError);
    assert_eq!(status_class(503), StatusClass::ServerError);
    assert_eq!(status_class(302), StatusClass::Other);
    assert_eq!(status_class(100), StatusClass::Other);
    assert_eq!(status_class(600), StatusClass::Other);
}

#[test]
fn retry_after_default() {
    assert_eq!(retry_after_or_default(None), 600_000);
    assert_eq!(retry_after_or_default(Some(2500)), 2500);
}

#[test]
fn h2_negotiation() {
    assert!(negotiated_h2(Some(b"h2")));
    assert!(!negotiated_h2(Some(b"http/1.1")));
    assert!(!negotiated_h2(Some(b"h")));
    assert!(!negotiated_h2(None));
}

#[test]
fn response_dispositions() {
    let mut l = Limiter::new();
    let a = A.to_string();
    assert_eq!(handle_response(&mut l, &a, None, None, 0), Disposition::TransportFailed);
    assert_eq!(handle_response(&mut l, &a, Some(403), None, 0), Disposition::Rejected);
    assert_eq!(handle_response(&mut l, &a, Some(502), None, 0), Disposition::RetryNow);
    assert_eq!(handle_response(&mut l, &a, Some(301), None, 0), Disposition::Unrecognized);
    assert_eq!(handle_response(&mut l, &a, Some(429), None, 0), Disposition::Cooldown(600_000));
    assert!(l.notfounds().is_empty());
}

#[test]
fn rate_limited_target_waits_while_other_is_delivered() {
    let mut l = Limiter::new();
    let mut c = Connection::new(EXCHANGE_LIMIT);
    let ctx = Context::new(b"{\"x\":1}".to_vec(), None, "q#r".to_string());
    let reqs = build_requests(ctx, &vec![A.to_string(), B.to_string()], &vec!["a".to_string(), "b".to_string()]);
    assert!(matches!(c.on_job(&l, &reqs[0], 0), JobAction::Dispatch(_)));
    assert!(matches!(c.on_job(&l, &reqs[1], 0), JobAction::Dispatch(_)));
    let d = handle_response(&mut l, &reqs[0].target, Some(429), Some(2500), 10);
    assert_eq!(d, Disposition::Cooldown(2500));
    assert_eq!(handle_response(&mut l, &reqs[1].target, Some(200), None, 10), Disposition::Delivered);
    let retry = reqs.into_iter().next().unwrap().into_retry();
    assert_eq!(retry.retry_count, 1);
    assert!(matches!(c.on_job(&l, &retry, 2000), JobAction::Reschedule(510)));
    assert!(matches!(c.on_job(&l, &retry, 2511), JobAction::Dispatch(_)));
    assert!(matches!(c.on_job(&l, &job(B), 20), JobAction::Dispatch(_)));
}

#[test]
fn not_found_target_is_held_until_cleared() {
    let mut l = Limiter::new();
    let mut c = Connection::new(EXCHANGE_LIMIT);
    assert_eq!(handle_response(&mut l, &A.to_string(), Some(404), None, 0), Disposition::MarkedDead);
    assert_eq!(l.notfounds(), vec![A.to_string()]);
    assert!(matches!(c.on_job(&l, &job(A), 1), JobAction::DropKnown404));
    assert!(matches!(c.on_job(&l, &job(A), 100_000), JobAction::DropKnown404));
    assert_eq!(c.sent(), 0);
    l.clear_notfounds(&vec![A.to_string()]);
    assert!(matches!(c.on_job(&l, &job(A), 100_001), JobAction::Dispatch(_)));
    assert_eq!(c.sent(), 1);
}
