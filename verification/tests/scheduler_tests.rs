use discord_rs::request::{Method, RequestError};
use discord_rs::route::RequestRoute;
use discord_rs::scheduler::{Disposition, RateInfo, ResponseOutcome, Scheduler, sat_add};

fn route(base: &str, major: &str) -> RequestRoute {
    RequestRoute { base_route: base.to_string(), major_param: major.to_string() }
}

fn submit_simple(s: &mut Scheduler, r: &RequestRoute) -> u64 {
    s.submit(r, Method::Get, "https://example.invalid/x".to_string(), Vec::new(), None)
}

#[test]
fn submit_returns_fresh_consecutive_ids() {
    let mut s = Scheduler::new(3, 10);
    let r = route("/channels/{channel.id}/messages", "1");
    let a = submit_simple(&mut s, &r);
    let b = submit_simple(&mut s, &r);
    let c = submit_simple(&mut s, &r);
    assert_eq!((a, b, c), (0, 1, 2));
}

#[test]
fn same_route_issues_in_submission_order_without_overlap() {
    let mut s = Scheduler::new(3, 10);
    let r = route("/channels/{channel.id}/messages", "7");
    let a = submit_simple(&mut s, &r);
    let b = submit_simple(&mut s, &r);
    let (i, first) = s.next_issue(0).expect("head request should issue");
    assert_eq!(first, a);
    // While the head is in flight, the same route is never issued again.
    assert!(s.next_issue(0).is_none());
    let rate = Some(RateInfo { remaining: 5, limit: 5, reset_at: 100, bucket_id: None });
    match s.on_response(i, 0, ResponseOutcome::Success { status: 200, rate }) {
        Disposition::Completed { id, status } => {
            assert_eq!(id, a);
            assert_eq!(status, 200);
        }
        _ => panic!("expected completion"),
    }
    let (_, second) = s.next_issue(0).expect("next request should issue");
    assert_eq!(second, b);
}

#[test]
fn exhausted_bucket_is_respected_until_reset() {
    let mut s = Scheduler::new(3, 10);
    let r = route("/guilds/{guild.id}", "9");
    submit_simple(&mut s, &r);
    let (i, _) = s.next_issue(0).expect("first call admitted");
    // The server reports the bucket exhausted until t = 50.
    let rate = Some(RateInfo { remaining: 0, limit: 1, reset_at: 50, bucket_id: None });
    s.on_response(i, 0, ResponseOutcome::Success { status: 200, rate });
    submit_simple(&mut s, &r);
    assert!(s.next_issue(10).is_none());
    assert!(s.next_issue(49).is_none());
    assert!(s.next_issue(50).is_some());
}

#[test]
fn global_limiter_blocks_every_route() {
    let mut s = Scheduler::new(3, 10);
    let ra = route("/channels/{channel.id}", "1");
    let rb = route("/guilds/{guild.id}", "2");
    submit_simple(&mut s, &ra);
    submit_simple(&mut s, &rb);
    let (i, _) = s.next_issue(0).expect("first call admitted");
    // A global rate-limit rejection engages the single shared limiter.
    match s.on_response(i, 0, ResponseOutcome::RateLimited { retry_after: 30, global: true }) {
        Disposition::Requeued { until, .. } => assert_eq!(until, 30),
        _ => panic!("expected requeue"),
    }
    // No route at all is issued until the global delay elapses.
    assert!(s.next_issue(10).is_none());
    assert!(s.next_issue(29).is_none());
    assert!(s.next_issue(30).is_some());
}

#[test]
fn per_route_rate_limit_blocks_only_the_offender() {
    let mut s = Scheduler::new(3, 10);
    let ra = route("/channels/{channel.id}", "1");
    let rb = route("/guilds/{guild.id}", "2");
    submit_simple(&mut s, &ra);
    submit_simple(&mut s, &rb);
    let (i, _) = s.next_issue(0).expect("first call admitted");
    s.on_response(i, 0, ResponseOutcome::RateLimited { retry_after: 30, global: false });
    // The other route still proceeds.
    assert!(s.next_issue(1).is_some());
}

#[test]
fn always_rejected_request_fails_after_exactly_the_ceiling() {
    let mut s = Scheduler::new(3, 10);
    let r = route("/webhooks/{webhook.id}", "w");
    let id = submit_simple(&mut s, &r);
    let mut now = 0u64;
    let mut rejections = 0u32;
    loop {
        let (i, issued) = s.next_issue(now).expect("eligible after each delay");
        assert_eq!(issued, id);
        let d = s.on_response(i, now, ResponseOutcome::RateLimited { retry_after: 5, global: false });
        rejections += 1;
        match d {
            Disposition::Requeued { id: rid, until } => {
                assert_eq!(rid, id);
                assert!(rejections < 3, "requeued past the ceiling");
                now = until;
            }
            Disposition::Failed { id: rid, error } => {
                assert_eq!(rid, id);
                assert_eq!(error, RequestError::RateLimitExhausted);
                break;
            }
            Disposition::Completed { .. } => panic!("never succeeds"),
        }
    }
    // Never fewer, never more than the configured attempt ceiling.
    assert_eq!(rejections, 3);
}

#[test]
fn timeout_is_retried_with_default_backoff() {
    let mut s = Scheduler::new(2, 17);
    let r = route("/channels/{channel.id}/typing", "3");
    let id = submit_simple(&mut s, &r);
    let (i, _) = s.next_issue(0).expect("first call admitted");
    match s.on_response(i, 0, ResponseOutcome::TimedOut) {
        Disposition::Requeued { id: rid, until } => {
            assert_eq!(rid, id);
            assert_eq!(until, 17);
        }
        _ => panic!("a first timeout is transient"),
    }
    assert!(s.next_issue(16).is_none());
    assert!(s.next_issue(17).is_some());
}

#[test]
fn network_fault_and_protocol_rejection_are_terminal() {
    let mut s = Scheduler::new(3, 10);
    let r = route("/users/@me", "");
    let a = submit_simple(&mut s, &r);
    let b = submit_simple(&mut s, &r);
    let (i, _) = s.next_issue(0).unwrap();
    match s.on_response(i, 0, ResponseOutcome::NetworkFailed) {
        Disposition::Failed { id, error } => {
            assert_eq!(id, a);
            assert_eq!(error, RequestError::Network);
        }
        _ => panic!("network faults are terminal"),
    }
    let (i, _) = s.next_issue(1).unwrap();
    match s.on_response(i, 1, ResponseOutcome::Rejected { status: 403 }) {
        Disposition::Failed { id, error } => {
            assert_eq!(id, b);
            assert_eq!(error, RequestError::Protocol { status: 403 });
        }
        _ => panic!("4xx other than 429 is terminal"),
    }
}

#[test]
fn rate_limited_scenario_issues_in_order_after_delays() {
    // Three requests to one route whose bucket admits one call per window.
    let mut s = Scheduler::new(3, 10);
    let r = route("/channels/{channel.id}/messages", "r");
    let id1 = submit_simple(&mut s, &r);
    let id2 = submit_simple(&mut s, &r);
    let id3 = submit_simple(&mut s, &r);
    let mut issue_order = Vec::new();

    // Request 1 issues immediately; the response exhausts the bucket.
    let (i, issued) = s.next_issue(0).expect("request 1 issues immediately");
    issue_order.push(issued);
    let rate = Some(RateInfo { remaining: 0, limit: 1, reset_at: 40, bucket_id: None });
    s.on_response(i, 0, ResponseOutcome::Success { status: 200, rate });

    // Request 2 tries too early and is rejected with a retry-after delay.
    assert!(s.next_issue(20).is_none(), "bucket still exhausted");
    let (i, issued) = s.next_issue(40).expect("bucket window elapsed");
    assert_eq!(issued, id2);
    let resolved_1_at = 40u64;
    let d = s.on_response(i, resolved_1_at, ResponseOutcome::RateLimited { retry_after: 25, global: false });
    let until = match d {
        Disposition::Requeued { until, .. } => until,
        _ => panic!("expected requeue"),
    };
    assert_eq!(until, 65);

    // Request 2 waits out the indicated delay, then issues and completes.
    assert!(s.next_issue(64).is_none(), "retry-after not yet elapsed");
    let (i, issued) = s.next_issue(65).expect("retry-after elapsed");
    issue_order.push(issued);
    let resolved_2_at = 65u64;
    let rate = Some(RateInfo { remaining: 1, limit: 1, reset_at: 100, bucket_id: None });
    s.on_response(i, resolved_2_at, ResponseOutcome::Success { status: 200, rate });
    assert!(resolved_2_at >= resolved_1_at + 25);

    // Request 3 follows behind request 2 on the same route.
    let (i, issued) = s.next_issue(66).expect("request 3 follows");
    issue_order.push(issued);
    let rate = Some(RateInfo { remaining: 0, limit: 1, reset_at: 130, bucket_id: None });
    s.on_response(i, 66, ResponseOutcome::Success { status: 200, rate });

    assert_eq!(issue_order, vec![id1, id2, id3]);
}

#[test]
fn draining_is_round_robin_fair_across_routes() {
    let mut s = Scheduler::new(3, 10);
    let ra = route("/a", "");
    let rb = route("/b", "");
    let a1 = submit_simple(&mut s, &ra);
    let a2 = submit_simple(&mut s, &ra);
    let b1 = submit_simple(&mut s, &rb);
    let rate = || Some(RateInfo { remaining: 5, limit: 5, reset_at: 1000, bucket_id: None });
    let (i, first) = s.next_issue(0).unwrap();
    s.on_response(i, 0, ResponseOutcome::Success { status: 200, rate: rate() });
    let (i, second) = s.next_issue(1).unwrap();
    s.on_response(i, 1, ResponseOutcome::Success { status: 200, rate: rate() });
    let (i, third) = s.next_issue(2).unwrap();
    s.on_response(i, 2, ResponseOutcome::Success { status: 200, rate: rate() });
    // The busy route does not starve the quiet one.
    assert_eq!(vec![first, second, third], vec![a1, b1, a2]);
}

#[test]
fn shutdown_cancels_queued_but_not_in_flight() {
    let mut s = Scheduler::new(3, 10);
    let r = route("/channels/{channel.id}/messages", "5");
    let a = submit_simple(&mut s, &r);
    let b = submit_simple(&mut s, &r);
    let c = submit_simple(&mut s, &r);
    let (i, issued) = s.next_issue(0).unwrap();
    assert_eq!(issued, a);
    let cancelled = s.shutdown();
    // The in-flight request finishes; the rest resolve as cancelled.
    assert_eq!(cancelled, vec![b, c]);
    let rate = Some(RateInfo { remaining: 1, limit: 1, reset_at: 10, bucket_id: None });
    match s.on_response(i, 1, ResponseOutcome::Success { status: 200, rate }) {
        Disposition::Completed { id, .. } => assert_eq!(id, a),
        _ => panic!("in-flight request still completes"),
    }
}

#[test]
fn saturating_add_caps_at_the_top() {
    assert_eq!(sat_add(2, 3), 5);
    assert_eq!(sat_add(u64::MAX - 1, 1), u64::MAX);
    assert_eq!(sat_add(u64::MAX, 5), u64::MAX);
}
