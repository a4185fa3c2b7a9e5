use cloudwatch_logger::facade::{LogFacade, INNER_MAX_RETRIES, OUTER_MAX_RETRIES};
use cloudwatch_logger::format::Level;
use cloudwatch_logger::retry::{RetryDecision, RetryPolicy};
use cloudwatch_logger::ship::{
    build_request, find_stream_token, Action, Event, Phase, Shipper, StreamInfo,
    LOG_GROUP_NAME, LOG_STREAM_NAME,
};

fn stream(name: &str, token: &str) -> StreamInfo {
    StreamInfo {
        log_stream_name: Some(name.to_string()),
        upload_sequence_token: Some(token.to_string()),
    }
}

fn described(token: &str) -> Event {
    Event::Described(vec![stream("other", "x"), stream(LOG_STREAM_NAME, token)])
}

fn policy(retries: u32) -> RetryPolicy {
    RetryPolicy::exponential(1000, 60000, retries)
}

fn append_token(action: &Action) -> Option<String> {
    match action {
        Action::Append(req) => req.sequence_token.clone(),
        _ => panic!("expected an append"),
    }
}

#[test]
fn backoff_delays() {
    let p = policy(10);
    assert_eq!(p.delay_after(1), 1000);
    assert_eq!(p.delay_after(2), 2000);
    assert_eq!(p.delay_after(3), 4000);
    assert_eq!(p.delay_after(6), 32000);
    assert_eq!(p.delay_after(7), 60000);
    assert_eq!(p.delay_after(100), 60000);
    assert_eq!(RetryPolicy::exponential(90, 60, 3).delay_after(1), 60);
}

#[test]
fn retry_decisions() {
    let p = policy(4);
    assert_eq!(p.on_failure(1), RetryDecision::RetryAfter(1000));
    assert_eq!(p.on_failure(4), RetryDecision::RetryAfter(8000));
    assert_eq!(p.on_failure(5), RetryDecision::GiveUp);
    assert_eq!(policy(0).on_failure(1), RetryDecision::GiveUp);
}

#[test]
fn finds_first_named_stream() {
    let streams = vec![
        StreamInfo { log_stream_name: None, upload_sequence_token: Some("n".to_string()) },
        stream("a", "t1"),
        stream("b", "t2"),
        stream("a", "t3"),
    ];
    assert_eq!(find_stream_token(&streams, "a"), Some(Some("t1".to_string())));
    assert_eq!(find_stream_token(&streams, "b"), Some(Some("t2".to_string())));
    assert_eq!(find_stream_token(&streams, "c"), None);
    let fresh = vec![StreamInfo { log_stream_name: Some("a".to_string()), upload_sequence_token: None }];
    assert_eq!(find_stream_token(&fresh, "a"), Some(None));
    assert_eq!(find_stream_token(&Vec::new(), "a"), None);
}

#[test]
fn request_targets_configured_stream() {
    let req = build_request(Some("tok".to_string()), &"line".to_string(), 42);
    assert_eq!(req.log_group_name, LOG_GROUP_NAME);
    assert_eq!(req.log_group_name, "test-group");
    assert_eq!(req.log_stream_name, "test-stream");
    assert_eq!(req.sequence_token, Some("tok".to_string()));
    assert_eq!(req.message, "line");
    assert_eq!(req.timestamp, 42);
}

#[test]
fn describe_succeeds_on_third_response() {
    let mut s = Shipper::new(policy(4), policy(10), "m".to_string(), 7);
    match s.step(Event::DescribeFailed) {
        Action::Describe { after_ms } => assert_eq!(after_ms, 1000),
        _ => panic!("expected a describe"),
    }
    match s.step(Event::DescribeFailed) {
        Action::Describe { after_ms } => assert_eq!(after_ms, 2000),
        _ => panic!("expected a describe"),
    }
    let a = s.step(described("third"));
    assert_eq!(append_token(&a), Some("third".to_string()));
    assert_eq!(s.phase, Phase::Appending);
    assert_eq!(s.outer_failures, 0);
    assert!(matches!(s.step(Event::Appended), Action::Done));
    assert_eq!(s.phase, Phase::Delivered);
}

#[test]
fn conflict_then_delivered_with_second_token() {
    let mut s = Shipper::new(policy(4), policy(10), "m".to_string(), 7);
    let a = s.step(described("first"));
    assert_eq!(append_token(&a), Some("first".to_string()));
    match s.step(Event::AppendFailed) {
        Action::Describe { after_ms } => assert_eq!(after_ms, 1000),
        _ => panic!("expected a fresh describe"),
    }
    assert_eq!(s.outer_failures, 1);
    let a = s.step(described("second"));
    assert_eq!(append_token(&a), Some("second".to_string()));
    match &a {
        Action::Append(req) => {
            assert_eq!(req.message, "m");
            assert_eq!(req.timestamp, 7);
        },
        _ => panic!("expected an append"),
    }
    assert!(matches!(s.step(Event::Appended), Action::Done));
    assert_eq!(s.phase, Phase::Delivered);
}

#[test]
fn exhausted_outer_budget_gives_up() {
    let mut facade = LogFacade::new();
    let (line, mut s) = facade.on_record(Level::Error, "net", "down", 1);
    assert_eq!(line, " ERROR net > down");
    let mut describes = 1;
    let mut appends = 0;
    let mut gave_up = false;
    for _ in 0..10_000 {
        let event = match s.phase {
            Phase::Describing => Event::DescribeFailed,
            Phase::Appending => Event::AppendFailed,
            _ => break,
        };
        match s.step(event) {
            Action::Describe { .. } => describes += 1,
            Action::Append(_) => appends += 1,
            Action::GiveUp => gave_up = true,
            _ => {},
        }
    }
    assert!(gave_up);
    assert_eq!(s.phase, Phase::Abandoned);
    assert_eq!(appends, 0);
    assert_eq!(describes, (OUTER_MAX_RETRIES as u64 + 1) * (INNER_MAX_RETRIES as u64 + 1));
    assert!(matches!(s.step(Event::Appended), Action::Ignore));
}

#[test]
fn stream_missing_counts_as_failed_pass() {
    let mut s = Shipper::new(policy(1), policy(10), "m".to_string(), 0);
    let missing = Event::Described(vec![stream("other", "x")]);
    assert!(matches!(s.step(missing), Action::Describe { after_ms: 1000 }));
    assert_eq!(s.outer_failures, 1);
    let missing = Event::Described(Vec::new());
    assert!(matches!(s.step(missing), Action::GiveUp));
    assert_eq!(s.phase, Phase::Abandoned);
}

#[test]
fn events_out_of_phase_are_ignored() {
    let mut s = Shipper::new(policy(4), policy(10), "m".to_string(), 0);
    assert!(matches!(s.step(Event::Appended), Action::Ignore));
    assert!(matches!(s.step(Event::AppendFailed), Action::Ignore));
    assert_eq!(s.phase, Phase::Describing);
    assert_eq!(s.outer_failures, 0);
}

#[test]
fn two_racing_shippers_stay_bounded() {
    let outer = policy(4);
    let inner = policy(10);
    let mut a = Shipper::new(outer, inner, "a".to_string(), 0);
    let mut b = Shipper::new(outer, inner, "b".to_string(), 0);
    let mut token = 0u32;
    let mut requests = 2u64;
    let first = a.step(described("0"));
    let second = b.step(described("0"));
    requests += 2;
    // The first append wins and advances the token; the second now holds a stale one.
    assert_eq!(append_token(&first), Some(token.to_string()));
    token += 1;
    assert!(matches!(a.step(Event::Appended), Action::Done));
    assert_eq!(append_token(&second), Some("0".to_string()));
    assert!(matches!(b.step(Event::AppendFailed), Action::Describe { .. }));
    requests += 1;
    let retried = b.step(described(&token.to_string()));
    requests += 1;
    assert_eq!(append_token(&retried), Some("1".to_string()));
    assert!(matches!(b.step(Event::Appended), Action::Done));
    assert_eq!(a.phase, Phase::Delivered);
    assert_eq!(b.phase, Phase::Delivered);
    assert!(requests <= 2 * 5 * 11);
}

#[test]
fn facade_line_matches_shipped_message() {
    let mut facade = LogFacade::new();
    let (line, s) = facade.on_record(Level::Info, "server", "up", 99);
    assert_eq!(line, " INFO  server > up");
    assert_eq!(s.message, line);
    assert_eq!(s.timestamp, 99);
    let (line, s) = facade.on_record(Level::Warn, "db", "slow", 100);
    assert_eq!(line, " WARN  db     > slow");
    assert_eq!(s.message, line);
    assert_eq!(s.phase, Phase::Describing);
    let (line, s) = facade.log(Level::Debug, "a", "b");
    assert_eq!(line, " DEBUG a      > b");
    assert_eq!(s.message, line);
    assert_eq!(facade.state.max_tag_width, 6);
}
