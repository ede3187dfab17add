use discord_rs::dispatcher::{deliver, EventDispatcher};
use discord_rs::queue::Queue;
use discord_rs::request::{Method, PendingRequest};
use discord_rs::route::RequestRoute;
use discord_rs::router::{join_path, InteractionRouter, OptionValue};

fn req(id: u64) -> PendingRequest {
    PendingRequest {
        id,
        method: Method::Get,
        uri: "https://example.invalid/x".to_string(),
        headers: Vec::new(),
        body: None,
        attempts: 0,
    }
}

#[test]
fn dispatch_plan_fans_out_in_registration_order() {
    let mut d = EventDispatcher::new();
    d.register("MESSAGE_CREATE".to_string(), 1);
    d.register("GUILD_CREATE".to_string(), 2);
    d.register("MESSAGE_CREATE".to_string(), 3);
    let plan = d.dispatch_plan(&"MESSAGE_CREATE".to_string());
    assert_eq!(plan, vec![1, 3]);
    assert_eq!(d.dispatch_plan(&"GUILD_CREATE".to_string()), vec![2]);
    assert_eq!(d.dispatch_plan(&"TYPING_START".to_string()), Vec::<u64>::new());
}

#[test]
fn failing_handler_does_not_suppress_later_handlers_or_events() {
    let mut d = EventDispatcher::new();
    d.register("A".to_string(), 10);
    d.register("A".to_string(), 11);
    d.register("B".to_string(), 20);
    let plan_a = d.dispatch_plan(&"A".to_string());
    // Handler 10 fails while handling an event of type A.
    let report = deliver(&plan_a, &vec![false, true]);
    assert_eq!(report.invoked, vec![10, 11]);
    assert_eq!(report.failed, vec![10]);
    // Delivery of a subsequently queued event of type B is unaffected.
    let plan_b = d.dispatch_plan(&"B".to_string());
    let report_b = deliver(&plan_b, &vec![true]);
    assert_eq!(report_b.invoked, vec![20]);
    assert_eq!(report_b.failed, Vec::<u64>::new());
}

#[test]
fn router_routes_exact_path_to_single_handler() {
    let mut r = InteractionRouter::new();
    assert!(r.register("ping".to_string(), 1));
    assert!(r.register("config set".to_string(), 2));
    // A second handler for a taken path is refused.
    assert!(!r.register("ping".to_string(), 3));
    assert_eq!(r.lookup(&"ping".to_string()), Some(1));
    assert_eq!(r.lookup(&"config set".to_string()), Some(2));
    // No match is a reported outcome, not a crash.
    assert_eq!(r.lookup(&"config get".to_string()), None);
}

#[test]
fn bind_args_adapts_declared_slots_by_name() {
    let declared = vec!["who".to_string(), "count".to_string()];
    let options = vec![
        ("count".to_string(), OptionValue::Int(4)),
        ("who".to_string(), OptionValue::Str("zoe".to_string())),
    ];
    let vals = InteractionRouter::bind_args(&declared, &options).expect("all slots present");
    assert!(matches!(&vals[0], OptionValue::Str(s) if s == "zoe"));
    assert!(matches!(&vals[1], OptionValue::Int(4)));
}

#[test]
fn bind_args_reports_a_missing_slot() {
    let declared = vec!["who".to_string(), "count".to_string()];
    let options = vec![("who".to_string(), OptionValue::Str("zoe".to_string()))];
    assert!(InteractionRouter::bind_args(&declared, &options).is_none());
}

#[test]
fn bind_args_takes_the_first_of_duplicate_names() {
    let declared = vec!["level".to_string()];
    let options = vec![
        ("level".to_string(), OptionValue::Int(1)),
        ("level".to_string(), OptionValue::Int(2)),
    ];
    let vals = InteractionRouter::bind_args(&declared, &options).unwrap();
    assert!(matches!(vals[0], OptionValue::Int(1)));
}

#[test]
fn join_path_builds_the_router_key() {
    let nested = vec!["config".to_string(), "alerts".to_string(), "set".to_string()];
    assert_eq!(join_path(&nested), "config alerts set");
    assert_eq!(join_path(&vec!["ping".to_string()]), "ping");
    assert_eq!(join_path(&Vec::new()), "");
    // A joined nested path routes like any other registered path.
    let mut r = InteractionRouter::new();
    assert!(r.register(join_path(&nested), 9));
    assert_eq!(r.lookup(&"config alerts set".to_string()), Some(9));
}

#[test]
fn queue_groups_requests_by_route_in_first_seen_order() {
    let mut q = Queue::new();
    let ra = RequestRoute { base_route: "/a".to_string(), major_param: "1".to_string() };
    let rb = RequestRoute { base_route: "/b".to_string(), major_param: "".to_string() };
    q.push(&ra, req(0));
    q.push(&rb, req(1));
    q.push(&ra, req(2));
    assert_eq!(q.entries.len(), 2);
    assert_eq!(q.entries[0].route.base_route, "/a");
    let ids: Vec<u64> = q.entries[0].pending.iter().map(|p| p.id).collect();
    assert_eq!(ids, vec![0, 2]);
    assert_eq!(q.entries[1].pending.len(), 1);
}

#[test]
fn routes_differing_in_major_param_are_distinct() {
    let mut q = Queue::new();
    let ra = RequestRoute { base_route: "/a".to_string(), major_param: "1".to_string() };
    let rb = RequestRoute { base_route: "/a".to_string(), major_param: "2".to_string() };
    assert!(!ra.same_route(&rb));
    assert!(ra.same_route(&ra.clone()));
    q.push(&ra, req(0));
    q.push(&rb, req(1));
    assert_eq!(q.entries.len(), 2);
}
